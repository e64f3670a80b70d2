//! A mock of a digital input pin with a script of its own.

use vstd::prelude::*;
use crate::call::{answer, level_reply, Call, Reply};
use crate::error::{CallKind, MockError, MockErrorView};
use crate::expectation::InputPinExpectation;
use crate::generic_mock::{GenericMock, QueueView};

verus! {

/// The error of a pin operation that cannot fail. No value of it is ever
/// made: it only fills the error slot of the capability's signatures.
#[derive(Debug)]
pub struct Infallible;

/// The level that the pin reports when it is next queried.
#[derive(Debug, Clone, Copy, PartialEq, Eq, Structural)]
pub enum Expectation {
    IsHigh,
    IsLow,
}

/// An input pin that answers from a queue of levels.
pub type Mock = GenericMock<Expectation>;

impl Expectation {
    /// The same expectation among those of all capabilities.
    pub open spec fn spec_widen(self) -> crate::expectation::Expectation {
        crate::expectation::Expectation::InputPin(
            match self {
                Expectation::IsHigh => InputPinExpectation::IsHigh,
                Expectation::IsLow => InputPinExpectation::IsLow,
            },
        )
    }

    /// The same expectation among those of all capabilities.
    #[verifier::when_used_as_spec(spec_widen)]
    pub fn widen(self) -> (res: crate::expectation::Expectation)
        ensures
            res == self.spec_widen(),
    {
        crate::expectation::Expectation::InputPin(
            match self {
                Expectation::IsHigh => InputPinExpectation::IsHigh,
                Expectation::IsLow => InputPinExpectation::IsLow,
            },
        )
    }
}

/// What `call` results in on the queue `queue`: with nothing left the queue
/// is exhausted, and else the next expectation gives its answer.
pub open spec fn outcome(queue: QueueView<Expectation>, call: Call) -> Result<Reply, MockErrorView> {
    if queue.exhausted() {
        Err(MockErrorView::QueueExhausted { call: call.kind(), index: None })
    } else {
        answer(call, None, queue.next_entry().widen()@)
    }
}

impl GenericMock<Expectation> {
    /// Asks whether the line is high. The next expectation is consumed and
    /// answers: yes if it is `IsHigh`, no if it is `IsLow`.
    pub fn is_high(&mut self) -> (res: Result<bool, MockError>)
        ensures
            final(self)@ == old(self)@.after_call(),
            old(self)@.wf() ==> final(self)@.wf(),
            level_reply(res) == outcome(old(self)@, Call::IsHigh),
    {
        match self.next() {
            Some(Expectation::IsHigh) => Ok(true),
            Some(Expectation::IsLow) => Ok(false),
            None => Err(MockError::QueueExhausted { call: CallKind::IsHigh, index: None }),
        }
    }

    /// Asks whether the line is low. The next expectation is consumed and
    /// answers: yes if it is `IsLow`, no if it is `IsHigh`.
    pub fn is_low(&mut self) -> (res: Result<bool, MockError>)
        ensures
            final(self)@ == old(self)@.after_call(),
            old(self)@.wf() ==> final(self)@.wf(),
            level_reply(res) == outcome(old(self)@, Call::IsLow),
    {
        match self.next() {
            Some(Expectation::IsHigh) => Ok(false),
            Some(Expectation::IsLow) => Ok(true),
            None => Err(MockError::QueueExhausted { call: CallKind::IsLow, index: None }),
        }
    }
}

} // verus!
