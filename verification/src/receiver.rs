//! The receive loop's buffer-addressing state machine.
//!
//! Each iteration runs Reset -> Strategy Dispatch -> Await Completion ->
//! Report. The await itself is the serial transport's business; everything
//! the loop decides — which region of the sample buffer a read targets, how
//! the cycle counter advances, what counts as the amount read — is here,
//! with contracts.

use vstd::prelude::*;

verus! {

/// The fixed secondary offset that alternate-offset addressing targets on
/// every fourth read.
pub const ALTERNATE_OFFSET: usize = 8;

/// Length of the alternate-offset cadence: one read in this many targets the
/// secondary offset.
pub const CYCLE_PERIOD: u8 = 4;

/// The read strategy, fixed at construction: one of four variants, from the
/// two independent choices "alternate the destination offset" and "let an
/// idle line end the read".
#[derive(Clone, Copy, Debug, PartialEq, Eq, Structural)]
pub enum ReadStrategy {
    /// Read exactly `data_len` bytes into the buffer at offset 0.
    FixedLength,
    /// Fill the whole buffer, or stop early when the line goes idle.
    UntilIdle,
    /// Read exactly `data_len` bytes at the offset the cycle counter picks.
    AlternatingFixedLength,
    /// Fill from the offset the cycle counter picks to the end of the
    /// buffer, or stop early when the line goes idle.
    AlternatingUntilIdle,
}

impl ReadStrategy {
    /// Whether the destination offset alternates on the cycle counter.
    pub open spec fn alternates(self) -> bool {
        self == ReadStrategy::AlternatingFixedLength
            || self == ReadStrategy::AlternatingUntilIdle
    }

    /// Whether an idle line completes the read before the region is full.
    pub open spec fn idle_terminated(self) -> bool {
        self == ReadStrategy::UntilIdle || self == ReadStrategy::AlternatingUntilIdle
    }

    /// Resolves the two independent build-time switches — alternate the
    /// destination offset, let an idle line end the read — into the one
    /// strategy they select.
    pub fn from_flags(change_destination: bool, read_until_idle: bool) -> (s: ReadStrategy)
        ensures
            s.alternates() == change_destination,
            s.idle_terminated() == read_until_idle,
    {
        match (change_destination, read_until_idle) {
            (false, false) => ReadStrategy::FixedLength,
            (false, true) => ReadStrategy::UntilIdle,
            (true, false) => ReadStrategy::AlternatingFixedLength,
            (true, true) => ReadStrategy::AlternatingUntilIdle,
        }
    }
}

/// Which transport primitive a dispatched read uses.
#[derive(Clone, Copy, Debug, PartialEq, Eq, Structural)]
pub enum ReadMode {
    /// The read completes only once the whole region is populated.
    Exact,
    /// The read completes when the region is full or the line goes idle,
    /// whichever comes first.
    UntilIdle,
}

/// One dispatched read: fill `len` bytes of the sample buffer starting at
/// `start`, driven by `mode`.
#[derive(Clone, Copy, Debug, PartialEq, Eq, Structural)]
pub struct ReadCommand {
    pub start: usize,
    pub len: usize,
    pub mode: ReadMode,
}

/// A failure of the serial transport. Every transport error is fatal to the
/// loops: the caller must stop, not retry.
#[derive(Clone, Copy, Debug, PartialEq, Eq, Structural)]
pub struct TransportError;

/// The destination offset a dispatch chooses for the given cycle counter
/// value: the secondary offset when the strategy alternates and the counter
/// stands at a multiple of the period, offset 0 otherwise.
pub open spec fn spec_offset(strategy: ReadStrategy, cycle: u8) -> int {
    if strategy.alternates() && cycle % CYCLE_PERIOD == 0 {
        ALTERNATE_OFFSET as int
    } else {
        0
    }
}

/// The cycle counter after a dispatch: reset to 1 in the same step that
/// triggers an alternate-offset read, incremented otherwise; untouched by
/// the strategies that never alternate.
pub open spec fn spec_next_cycle(strategy: ReadStrategy, cycle: u8) -> u8 {
    if !strategy.alternates() {
        cycle
    } else if cycle % CYCLE_PERIOD == 0 {
        1u8
    } else {
        (cycle + 1) as u8
    }
}

/// Holds when every byte of the sequence is zero — the sample buffer's reset
/// state.
pub open spec fn all_zero(s: Seq<u8>) -> bool {
    forall|i: int| 0 <= i < s.len() ==> s[i] == 0u8
}

/// The receive loop's whole state: the strategy chosen at construction, the
/// expected payload length, the sample buffer, and the cycle counter.
pub struct Receiver {
    pub strategy: ReadStrategy,
    pub data_len: usize,
    pub buffer: Vec<u8>,
    pub cycle: u8,
}

impl Receiver {
    /// The sample buffer's capacity.
    pub open spec fn capacity(self) -> int {
        self.buffer@.len() as int
    }

    /// Well-formedness: the cycle counter stays in `[1, CYCLE_PERIOD]`, and
    /// every region a dispatch can choose fits in the buffer.
    pub open spec fn wf(self) -> bool {
        &&& 1 <= self.cycle <= CYCLE_PERIOD
        &&& self.data_len <= self.capacity()
        &&& self.strategy == ReadStrategy::AlternatingFixedLength ==> ALTERNATE_OFFSET
            + self.data_len <= self.capacity()
        &&& self.strategy == ReadStrategy::AlternatingUntilIdle ==> ALTERNATE_OFFSET
            <= self.capacity()
    }

    /// Start of the region the next dispatch targets.
    pub open spec fn region_start(self) -> int {
        spec_offset(self.strategy, self.cycle)
    }

    /// Length of the region the next dispatch targets: `data_len` for the
    /// fixed-length strategies, the rest of the buffer for the
    /// idle-terminated ones.
    pub open spec fn region_len(self) -> int {
        if self.strategy.idle_terminated() {
            self.capacity() - self.region_start()
        } else {
            self.data_len as int
        }
    }

    /// The transport primitive the next dispatch uses.
    pub open spec fn read_mode(self) -> ReadMode {
        if self.strategy.idle_terminated() {
            ReadMode::UntilIdle
        } else {
            ReadMode::Exact
        }
    }

    /// The cycle counter after the next dispatch.
    pub open spec fn next_cycle(self) -> u8 {
        spec_next_cycle(self.strategy, self.cycle)
    }

    /// Builds a receiver with a zeroed sample buffer of the given capacity
    /// and the cycle counter at its starting value.
    pub fn new(strategy: ReadStrategy, data_len: usize, capacity: usize) -> (r: Receiver)
        requires
            data_len <= capacity,
            strategy == ReadStrategy::AlternatingFixedLength ==> ALTERNATE_OFFSET + data_len
                <= capacity,
            strategy == ReadStrategy::AlternatingUntilIdle ==> ALTERNATE_OFFSET <= capacity,
        ensures
            r.wf(),
            r.strategy == strategy,
            r.data_len == data_len,
            r.cycle == 1,
            r.buffer@.len() == capacity,
            all_zero(r.buffer@),
    {
        let mut buffer: Vec<u8> = Vec::new();
        while buffer.len() < capacity
            invariant
                buffer@.len() <= capacity,
                all_zero(buffer@),
            decreases capacity - buffer@.len(),
        {
            buffer.push(0u8);
        }
        Receiver { strategy, data_len, buffer, cycle: 1 }
    }

    /// Reset state: zeroes every byte of the sample buffer, touching nothing
    /// else.
    pub fn reset_buffer(&mut self)
        ensures
            final(self).buffer@.len() == old(self).buffer@.len(),
            all_zero(final(self).buffer@),
            final(self).strategy == old(self).strategy,
            final(self).data_len == old(self).data_len,
            final(self).cycle == old(self).cycle,
            old(self).wf() ==> final(self).wf(),
    {
        let n = self.buffer.len();
        let mut i: usize = 0;
        while i < n
            invariant
                i <= n,
                n == self.buffer@.len(),
                self.buffer@.len() == old(self).buffer@.len(),
                forall|j: int| 0 <= j < i ==> self.buffer@[j] == 0u8,
                self.strategy == old(self).strategy,
                self.data_len == old(self).data_len,
                self.cycle == old(self).cycle,
            decreases n - i,
        {
            self.buffer.set(i, 0u8);
            i = i + 1;
        }
    }

    /// Advances the cycle counter for an alternating strategy and returns
    /// the destination offset that same step chose: the secondary offset
    /// with a reset to 1 when the counter stands at a multiple of the
    /// period, offset 0 with an increment otherwise.
    fn advance_cycle(&mut self) -> (start: usize)
        requires
            old(self).wf(),
            old(self).strategy.alternates(),
        ensures
            start == old(self).region_start(),
            final(self).cycle == old(self).next_cycle(),
            final(self).wf(),
            final(self).strategy == old(self).strategy,
            final(self).data_len == old(self).data_len,
            final(self).buffer == old(self).buffer,
    {
        if self.cycle % CYCLE_PERIOD == 0 {
            self.cycle = 1;
            ALTERNATE_OFFSET
        } else {
            self.cycle = self.cycle + 1;
            0
        }
    }

    /// Strategy Dispatch: chooses the region and transport primitive for the
    /// next read and advances the cycle counter in the same step. The
    /// buffer itself is untouched.
    pub fn dispatch(&mut self) -> (cmd: ReadCommand)
        requires
            old(self).wf(),
        ensures
            final(self).wf(),
            cmd.start == old(self).region_start(),
            cmd.len == old(self).region_len(),
            cmd.mode == old(self).read_mode(),
            cmd.start + cmd.len <= old(self).capacity(),
            final(self).cycle == old(self).next_cycle(),
            final(self).strategy == old(self).strategy,
            final(self).data_len == old(self).data_len,
            final(self).buffer == old(self).buffer,
    {
        match self.strategy {
            ReadStrategy::FixedLength => ReadCommand {
                start: 0,
                len: self.data_len,
                mode: ReadMode::Exact,
            },
            ReadStrategy::UntilIdle => ReadCommand {
                start: 0,
                len: self.buffer.len(),
                mode: ReadMode::UntilIdle,
            },
            ReadStrategy::AlternatingFixedLength => {
                let start = self.advance_cycle();
                ReadCommand { start, len: self.data_len, mode: ReadMode::Exact }
            },
            ReadStrategy::AlternatingUntilIdle => {
                let start = self.advance_cycle();
                let len = self.buffer.len() - start;
                ReadCommand { start, len, mode: ReadMode::UntilIdle }
            },
        }
    }

    /// The start of one iteration: Reset followed by Strategy Dispatch. On
    /// return the sample buffer is fully zeroed — the state the dispatched
    /// read starts from — and the returned command names the region the
    /// transport must fill.
    pub fn begin_iteration(&mut self) -> (cmd: ReadCommand)
        requires
            old(self).wf(),
        ensures
            final(self).wf(),
            all_zero(final(self).buffer@),
            final(self).buffer@.len() == old(self).buffer@.len(),
            cmd.start == old(self).region_start(),
            cmd.len == old(self).region_len(),
            cmd.mode == old(self).read_mode(),
            cmd.start + cmd.len <= old(self).capacity(),
            final(self).cycle == old(self).next_cycle(),
            final(self).strategy == old(self).strategy,
            final(self).data_len == old(self).data_len,
    {
        self.reset_buffer();
        self.dispatch()
    }

    /// The end of one iteration: copies the bytes the transport captured
    /// into the commanded region and reports the amount read. Every byte
    /// outside the received prefix of the region keeps its previous value;
    /// an exact-mode read always reports the full region length.
    pub fn complete_iteration(&mut self, cmd: ReadCommand, received: &[u8]) -> (amount: usize)
        requires
            cmd.start + cmd.len <= old(self).buffer@.len(),
            received@.len() <= cmd.len,
            cmd.mode == ReadMode::Exact ==> received@.len() == cmd.len,
        ensures
            amount == received@.len(),
            amount <= cmd.len,
            cmd.mode == ReadMode::Exact ==> amount == cmd.len,
            final(self).buffer@.len() == old(self).buffer@.len(),
            forall|i: int|
                cmd.start <= i < cmd.start + received@.len() ==> final(self).buffer@[i]
                    == received@[i - cmd.start],
            forall|i: int|
                0 <= i < final(self).buffer@.len() && !(cmd.start <= i < cmd.start
                    + received@.len()) ==> final(self).buffer@[i] == old(self).buffer@[i],
            final(self).strategy == old(self).strategy,
            final(self).data_len == old(self).data_len,
            final(self).cycle == old(self).cycle,
            old(self).wf() ==> final(self).wf(),
    {
        let n = received.len();
        let cap = self.buffer.len();
        let mut i: usize = 0;
        while i < n
            invariant
                i <= n,
                n == received@.len(),
                cap == self.buffer@.len(),
                cmd.start + n <= cap,
                self.buffer@.len() == old(self).buffer@.len(),
                forall|j: int|
                    cmd.start <= j < cmd.start + i ==> self.buffer@[j] == received@[j - cmd.start],
                forall|j: int|
                    0 <= j < self.buffer@.len() && !(cmd.start <= j < cmd.start + i)
                        ==> self.buffer@[j] == old(self).buffer@[j],
                self.strategy == old(self).strategy,
                self.data_len == old(self).data_len,
                self.cycle == old(self).cycle,
            decreases n - i,
        {
            let b = received[i];
            self.buffer.set(cmd.start + i, b);
            i = i + 1;
        }
        n
    }

    /// One whole iteration of the receive loop, given what the transport's
    /// read delivered: reset, dispatch, and — on success — completion. A
    /// transport error is passed through untouched, with the buffer left in
    /// its reset state: the caller must stop, as every transport failure is
    /// fatal by design.
    pub fn run_iteration(&mut self, outcome: Result<&[u8], TransportError>) -> (r: Result<
        usize,
        TransportError,
    >)
        requires
            old(self).wf(),
            outcome matches Ok(received) ==> received@.len() <= old(self).region_len(),
            outcome matches Ok(received) ==> (!old(self).strategy.idle_terminated()
                ==> received@.len() == old(self).region_len()),
        ensures
            final(self).wf(),
            final(self).strategy == old(self).strategy,
            final(self).data_len == old(self).data_len,
            final(self).buffer@.len() == old(self).buffer@.len(),
            final(self).cycle == old(self).next_cycle(),
            outcome matches Err(e) ==> r == Err::<usize, TransportError>(e) && all_zero(
                final(self).buffer@,
            ),
            outcome matches Ok(received) ==> {
                &&& r matches Ok(amount) && amount == received@.len()
                &&& !old(self).strategy.idle_terminated() ==> r == Ok::<usize, TransportError>(
                    old(self).data_len,
                )
                &&& forall|i: int|
                    old(self).region_start() <= i < old(self).region_start() + received@.len()
                        ==> final(self).buffer@[i] == received@[i - old(self).region_start()]
                &&& forall|i: int|
                    0 <= i < final(self).buffer@.len() && !(old(self).region_start() <= i < old(
                        self,
                    ).region_start() + received@.len()) ==> final(self).buffer@[i] == 0u8
            },
            r matches Ok(amount) ==> amount <= old(self).region_len(),
    {
        let cmd = self.begin_iteration();
        match outcome {
            Ok(received) => {
                let amount = self.complete_iteration(cmd, received);
                Ok(amount)
            },
            Err(e) => Err(e),
        }
    }
}

/// Law: under the fixed-length, no-alternation strategy every dispatch
/// targets exactly the region `[0, data_len)` in exact mode and leaves the
/// cycle counter alone — so the amount read is always `data_len`.
pub proof fn lemma_fixed_length_dispatch(r: Receiver)
    requires
        r.wf(),
        r.strategy == ReadStrategy::FixedLength,
    ensures
        r.region_start() == 0,
        r.region_len() == r.data_len,
        r.read_mode() == ReadMode::Exact,
        r.next_cycle() == r.cycle,
{
}

/// Law: the cycle counter never leaves `[1, CYCLE_PERIOD]` — in particular
/// it never reaches 0 and never exceeds the period — no matter which
/// strategy drives it.
pub proof fn lemma_cycle_counter_bounds(strategy: ReadStrategy, cycle: u8)
    requires
        1 <= cycle <= CYCLE_PERIOD,
    ensures
        1 <= spec_next_cycle(strategy, cycle) <= CYCLE_PERIOD,
{
}

/// Law: under an alternating strategy, four consecutive dispatches starting
/// from counter 1 choose the offsets 0, 0, 0, `ALTERNATE_OFFSET` in that
/// order, and the counter returns to 1 at the alternate read — so the
/// pattern repeats forever, with exactly one alternate-offset read in four.
pub proof fn lemma_alternating_offset_pattern(strategy: ReadStrategy)
    requires
        strategy.alternates(),
    ensures
        spec_offset(strategy, 1) == 0 && spec_next_cycle(strategy, 1) == 2,
        spec_offset(strategy, 2) == 0 && spec_next_cycle(strategy, 2) == 3,
        spec_offset(strategy, 3) == 0 && spec_next_cycle(strategy, 3) == 4,
        spec_offset(strategy, 4) == ALTERNATE_OFFSET as int && spec_next_cycle(strategy, 4) == 1,
{
}

/// Law: an idle-terminated dispatch always targets the whole region from
/// the chosen offset to the end of the buffer, so the amount any such read
/// reports can never exceed `capacity - region_start`, and a read that
/// fills the region exactly reports its full length.
pub proof fn lemma_idle_region_extent(r: Receiver)
    requires
        r.wf(),
        r.strategy.idle_terminated(),
    ensures
        r.region_start() + r.region_len() == r.capacity(),
        r.read_mode() == ReadMode::UntilIdle,
{
}

} // verus!
