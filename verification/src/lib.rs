//! Deterministic test doubles for a digital input pin, a digital output pin
//! and a packet interface.
//!
//! An [`ExpectationTracker`] holds one ordered script of expected
//! interactions. Every [`Mock`] handle derived from a tracker has an owner
//! index; a call on a handle consumes the next entry of the script and fails
//! unless that entry belongs to the handle and describes the call. When the
//! scenario is over, [`ExpectationTracker::done`] tells whether the whole
//! script was consumed.
//!
//! The tracker is an ordinary value that is handed to each call by mutable
//! reference. Callers that need several owners of one tracker put it behind
//! the shared pointer of their choice.
//!
//! Every divergence from the script is returned as a [`MockError`]; a test
//! harness is expected to end the test on it. What a call results in is
//! defined once, by [`answer`] and [`outcome`], and [`replay`] extends it to
//! whole scenarios.
//!
//! [`GenericMock`] is the simpler device underneath: one queue without
//! owners. The modules [`input_pin`], [`output_pin`] and [`interface`] each
//! build a mock of one capability on it.

pub mod call;
pub mod error;
pub mod expectation;
pub mod generic_mock;
pub mod input_pin;
pub mod interface;
pub mod mock;
pub mod output_pin;
pub mod packet;
pub mod replay;
pub mod tracker;

pub use call::{answer, done_reply, level_reply, packet_reply, Call, Reply};
pub use error::{CallKind, MockError, MockErrorView};
pub use expectation::{
    Expectation, ExpectationView, Family, InputPinExpectation, InterfaceExpectation,
    InterfaceExpectationView, OutputPinExpectation,
};
pub use generic_mock::{GenericMock, QueueView};
pub use mock::{outcome, Mock};
pub use packet::{Packet, PacketDiff, PacketView};
pub use replay::{encoded_reply, fits, replay, Invocation, Run};
pub use tracker::{ExpectationTracker, QueueEntry, TrackerView};
