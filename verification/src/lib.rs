//! A verified model of a serial capture firmware's core: a transmit loop's
//! constant payload and, above all, the receive loop's buffer-addressing
//! state machine with its four read strategies.

pub mod payload;
pub mod receiver;
