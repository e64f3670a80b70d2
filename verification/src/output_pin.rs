//! A mock of a digital output pin with a script of its own.

use vstd::prelude::*;
use crate::call::{answer, done_reply, Call, Reply};
use crate::error::{CallKind, MockError, MockErrorView};
use crate::expectation::OutputPinExpectation;
use crate::generic_mock::{GenericMock, QueueView};

verus! {

/// The error of a pin operation that cannot fail. No value of it is ever
/// made: it only fills the error slot of the capability's signatures.
#[derive(Debug)]
pub struct Infallible;

/// The level that the pin is next driven to.
#[derive(Debug, Clone, Copy, PartialEq, Eq, Structural)]
pub enum Expectation {
    SetHigh,
    SetLow,
}

/// An output pin that checks each command against a queue of levels.
pub type Mock = GenericMock<Expectation>;

impl Expectation {
    /// The same expectation among those of all capabilities.
    pub open spec fn spec_widen(self) -> crate::expectation::Expectation {
        crate::expectation::Expectation::OutputPin(
            match self {
                Expectation::SetHigh => OutputPinExpectation::SetHigh,
                Expectation::SetLow => OutputPinExpectation::SetLow,
            },
        )
    }

    /// The same expectation among those of all capabilities.
    #[verifier::when_used_as_spec(spec_widen)]
    pub fn widen(self) -> (res: crate::expectation::Expectation)
        ensures
            res == self.spec_widen(),
    {
        crate::expectation::Expectation::OutputPin(
            match self {
                Expectation::SetHigh => OutputPinExpectation::SetHigh,
                Expectation::SetLow => OutputPinExpectation::SetLow,
            },
        )
    }
}

/// What `call` results in on the queue `queue`: with nothing left the queue
/// is exhausted, and else the next expectation gives its answer.
pub open spec fn outcome(queue: QueueView<Expectation>, call: Call) -> Result<Reply, MockErrorView> {
    if queue.exhausted() {
        Err(MockErrorView::QueueExhausted { call: call.kind(), index: None })
    } else {
        answer(call, None, queue.next_entry().widen()@)
    }
}

impl GenericMock<Expectation> {
    /// Drives the line high. The next expectation is consumed, and must be
    /// `SetHigh`.
    pub fn set_high(&mut self) -> (res: Result<(), MockError>)
        ensures
            final(self)@ == old(self)@.after_call(),
            old(self)@.wf() ==> final(self)@.wf(),
            done_reply(res) == outcome(old(self)@, Call::SetHigh),
    {
        match self.next() {
            Some(Expectation::SetHigh) => Ok(()),
            Some(found) => Err(
                MockError::UnexpectedCall {
                    call: CallKind::SetHigh,
                    index: None,
                    found: found.widen(),
                },
            ),
            None => Err(MockError::QueueExhausted { call: CallKind::SetHigh, index: None }),
        }
    }

    /// Drives the line low. The next expectation is consumed, and must be
    /// `SetLow`.
    pub fn set_low(&mut self) -> (res: Result<(), MockError>)
        ensures
            final(self)@ == old(self)@.after_call(),
            old(self)@.wf() ==> final(self)@.wf(),
            done_reply(res) == outcome(old(self)@, Call::SetLow),
    {
        match self.next() {
            Some(Expectation::SetLow) => Ok(()),
            Some(found) => Err(
                MockError::UnexpectedCall {
                    call: CallKind::SetLow,
                    index: None,
                    found: found.widen(),
                },
            ),
            None => Err(MockError::QueueExhausted { call: CallKind::SetLow, index: None }),
        }
    }
}

} // verus!
