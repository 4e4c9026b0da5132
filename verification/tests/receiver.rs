use uart_sampler::receiver::{
    ReadMode, ReadStrategy, Receiver, TransportError, ALTERNATE_OFFSET, CYCLE_PERIOD,
};

fn assert_all_zero(bytes: &[u8]) {
    for (i, b) in bytes.iter().enumerate() {
        assert_eq!(*b, 0, "byte {} not zero", i);
    }
}

#[test]
fn flags_select_the_four_strategies() {
    assert_eq!(ReadStrategy::from_flags(false, false), ReadStrategy::FixedLength);
    assert_eq!(ReadStrategy::from_flags(false, true), ReadStrategy::UntilIdle);
    assert_eq!(ReadStrategy::from_flags(true, false), ReadStrategy::AlternatingFixedLength);
    assert_eq!(ReadStrategy::from_flags(true, true), ReadStrategy::AlternatingUntilIdle);
}

#[test]
fn buffer_is_reset_before_every_dispatch() {
    let mut r = Receiver::new(ReadStrategy::FixedLength, 6, 20);
    let data = vec![1u8, 2, 3, 4, 5, 6];
    let cmd = r.begin_iteration();
    r.complete_iteration(cmd, &data);
    assert_eq!(&r.buffer[0..6], &data[..]);
    // The next iteration must see a fully zeroed buffer before its dispatch.
    let _cmd = r.begin_iteration();
    assert_all_zero(&r.buffer);
}

#[test]
fn fixed_length_always_reads_data_len() {
    let mut r = Receiver::new(ReadStrategy::FixedLength, 6, 20);
    for round in 0..5u8 {
        let data = vec![round + 1; 6];
        let cmd = r.begin_iteration();
        assert_eq!(cmd.start, 0);
        assert_eq!(cmd.len, 6);
        assert_eq!(cmd.mode, ReadMode::Exact);
        let amount = r.complete_iteration(cmd, &data);
        assert_eq!(amount, 6);
        assert_eq!(&r.buffer[0..6], &data[..]);
        assert_all_zero(&r.buffer[6..]);
    }
}

#[test]
fn alternating_fixed_length_pattern() {
    // Capacity 20, data_len 6: iterations 1-4 must target
    // [0,6), [0,6), [0,6), [8,14), and the pattern then repeats.
    let mut r = Receiver::new(ReadStrategy::AlternatingFixedLength, 6, 20);
    let expected_starts = [0usize, 0, 0, 8, 0, 0, 0, 8];
    let expected_cycles = [2u8, 3, 4, 1, 2, 3, 4, 1];
    for k in 0..8 {
        assert!(r.cycle >= 1 && r.cycle <= 4);
        let data = vec![0xA0u8 + k as u8; 6];
        let cmd = r.begin_iteration();
        assert_eq!(cmd.start, expected_starts[k]);
        assert_eq!(cmd.len, 6);
        assert_eq!(cmd.mode, ReadMode::Exact);
        assert_eq!(r.cycle, expected_cycles[k]);
        let amount = r.complete_iteration(cmd, &data);
        assert_eq!(amount, 6);
        let end = cmd.start + 6;
        assert_all_zero(&r.buffer[0..cmd.start]);
        assert_eq!(&r.buffer[cmd.start..end], &data[..]);
        assert_all_zero(&r.buffer[end..]);
    }
}

#[test]
fn alternating_scenario_counter_values() {
    // data_len 6, capacity 20: the counter is 4 just before the alternate
    // read fires and returns to 1 in the same step.
    let mut r = Receiver::new(ReadStrategy::AlternatingFixedLength, 6, 20);
    assert_eq!(r.cycle, 1);
    let data = vec![7u8; 6];
    for _ in 0..3 {
        let cmd = r.begin_iteration();
        r.complete_iteration(cmd, &data);
    }
    assert_eq!(r.cycle, 4);
    let cmd = r.begin_iteration();
    assert_eq!(cmd.start, ALTERNATE_OFFSET);
    assert_eq!(r.cycle, 1);
    r.complete_iteration(cmd, &data);
    assert_eq!(&r.buffer[8..14], &data[..]);
    // The pattern repeats: the next read targets offset 0 again.
    let cmd = r.begin_iteration();
    assert_eq!(cmd.start, 0);
    assert_eq!(r.cycle, 2);
}

#[test]
fn idle_terminated_burst_of_three() {
    // A 3-byte burst on a 20-byte buffer: amount read 3, target region the
    // whole buffer.
    let mut r = Receiver::new(ReadStrategy::UntilIdle, 6, 20);
    let burst = vec![0x11u8, 0x22, 0x33];
    let cmd = r.begin_iteration();
    assert_eq!(cmd.start, 0);
    assert_eq!(cmd.len, 20);
    assert_eq!(cmd.mode, ReadMode::UntilIdle);
    let amount = r.complete_iteration(cmd, &burst);
    assert_eq!(amount, 3);
    assert_eq!(&r.buffer[0..3], &burst[..]);
    assert_all_zero(&r.buffer[3..]);
    // The idle-terminated strategies never touch the cycle counter.
    assert_eq!(r.cycle, 1);
}

#[test]
fn idle_terminated_amount_bounded_by_region() {
    let mut r = Receiver::new(ReadStrategy::UntilIdle, 6, 20);
    // A region that fills exactly reports its full length.
    let full = vec![9u8; 20];
    let cmd = r.begin_iteration();
    let amount = r.complete_iteration(cmd, &full);
    assert_eq!(amount, cmd.len);
    assert_eq!(amount, 20);
    // An empty capture reports zero and leaves the buffer zeroed.
    let cmd = r.begin_iteration();
    let amount = r.complete_iteration(cmd, &[]);
    assert_eq!(amount, 0);
    assert_all_zero(&r.buffer);
}

#[test]
fn alternating_idle_regions() {
    let mut r = Receiver::new(ReadStrategy::AlternatingUntilIdle, 6, 20);
    // Three reads at offset 0 over the whole buffer.
    for _ in 0..3 {
        let cmd = r.begin_iteration();
        assert_eq!(cmd.start, 0);
        assert_eq!(cmd.len, 20);
        assert_eq!(cmd.mode, ReadMode::UntilIdle);
        let amount = r.complete_iteration(cmd, &[1, 2]);
        assert_eq!(amount, 2);
    }
    // The fourth read targets the secondary offset through the end.
    assert_eq!(r.cycle, 4);
    let cmd = r.begin_iteration();
    assert_eq!(cmd.start, 8);
    assert_eq!(cmd.len, 12);
    let region = vec![6u8; 12];
    let amount = r.complete_iteration(cmd, &region);
    assert_eq!(amount, 12);
    assert_all_zero(&r.buffer[0..8]);
    assert_eq!(&r.buffer[8..20], &region[..]);
    assert_eq!(r.cycle, 1);
}

#[test]
fn cycle_counter_never_leaves_its_range() {
    let mut r = Receiver::new(ReadStrategy::AlternatingFixedLength, 6, 20);
    let data = vec![3u8; 6];
    for _ in 0..13 {
        assert!(r.cycle >= 1);
        assert!(r.cycle <= CYCLE_PERIOD);
        let cmd = r.begin_iteration();
        r.complete_iteration(cmd, &data);
        assert!(r.cycle >= 1);
        assert!(r.cycle <= CYCLE_PERIOD);
    }
}

#[test]
fn run_iteration_reports_captured_bytes() {
    let mut r = Receiver::new(ReadStrategy::FixedLength, 6, 20);
    let data = vec![0xCAu8, 0xFE, 0xBA, 0xBE, 0xDA, 0xDA];
    let outcome = r.run_iteration(Ok(&data));
    assert_eq!(outcome, Ok(6));
    assert_eq!(&r.buffer[0..6], &data[..]);
    assert_all_zero(&r.buffer[6..]);
}

#[test]
fn transport_error_is_fatal() {
    let mut r = Receiver::new(ReadStrategy::AlternatingUntilIdle, 6, 20);
    let outcome = r.run_iteration(Err(TransportError));
    // The error is surfaced untouched; the caller must stop here, so the
    // buffer holds nothing but its reset state.
    assert_eq!(outcome, Err(TransportError));
    assert_all_zero(&r.buffer);
}

#[test]
fn fixed_length_with_empty_payload() {
    let mut r = Receiver::new(ReadStrategy::FixedLength, 0, 20);
    let cmd = r.begin_iteration();
    assert_eq!(cmd.len, 0);
    let amount = r.complete_iteration(cmd, &[]);
    assert_eq!(amount, 0);
    assert_all_zero(&r.buffer);
}

#[test]
fn alternating_fixed_region_reaching_capacity() {
    // data_len 12 on a 20-byte buffer: the alternate read fills [8, 20).
    let mut r = Receiver::new(ReadStrategy::AlternatingFixedLength, 12, 20);
    let data = vec![0x5Au8; 12];
    for _ in 0..3 {
        let cmd = r.begin_iteration();
        r.complete_iteration(cmd, &data);
    }
    let cmd = r.begin_iteration();
    assert_eq!(cmd.start, 8);
    assert_eq!(cmd.len, 12);
    let amount = r.complete_iteration(cmd, &data);
    assert_eq!(amount, 12);
    assert_eq!(&r.buffer[8..20], &data[..]);
    assert_all_zero(&r.buffer[0..8]);
}
