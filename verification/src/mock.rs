//! The handle through which the code under test reaches the script.

use vstd::prelude::*;
use crate::call::{answer, done_reply, level_reply, packet_reply, Call, Reply};
use crate::error::{CallKind, MockError, MockErrorView};
use crate::expectation::{
    Expectation, InputPinExpectation, InterfaceExpectation, OutputPinExpectation,
};
use crate::output_pin::Infallible;
use crate::packet::Packet;
use crate::tracker::{ExpectationTracker, TrackerView};

verus! {

/// What `call` on the handle with owner index `index` results in, when the
/// tracker is `tracker`.
///
/// With nothing left in the script the queue is exhausted. Else the next
/// entry decides: one of another owner is an ownership violation, whatever
/// it holds and whatever follows it; one of this owner gives its [`answer`].
pub open spec fn outcome(tracker: TrackerView, index: usize, call: Call) -> Result<
    Reply,
    MockErrorView,
> {
    if tracker.exhausted() {
        Err(MockErrorView::QueueExhausted { call: call.kind(), index: Some(index) })
    } else if tracker.next_entry().owner != index {
        Err(
            MockErrorView::OwnershipViolation {
                call: call.kind(),
                index,
                found_index: tracker.next_entry().owner,
            },
        )
    } else {
        answer(call, Some(index), tracker.next_entry().expectation)
    }
}

/// A handle on a tracker, known by its owner index. Copies of a handle stand
/// for the same simulated device.
///
/// A handle holds no reference to its tracker: each call is handed the
/// tracker that it is to consult. On a tracker other than the one it was
/// derived from, a handle counts as the handle of the same index there.
#[derive(Debug, Clone, Copy, PartialEq, Eq)]
pub struct Mock {
    index: usize,
}

impl Mock {
    pub(crate) fn new(index: usize) -> (res: Self)
        ensures
            res.get_index() == index,
    {
        Mock { index }
    }

    /// The owner index of this handle.
    pub closed spec fn spec_get_index(&self) -> usize {
        self.index
    }

    /// The owner index of this handle.
    #[verifier::when_used_as_spec(spec_get_index)]
    pub fn get_index(&self) -> (res: usize)
        ensures
            res == self.get_index(),
    {
        self.index
    }

    /// Consumes the next entry for the call `call` and hands out its
    /// expectation if the entry belongs to this handle.
    fn next_own(&self, tracker: &mut ExpectationTracker, call: CallKind) -> (res: Result<
        Expectation,
        MockError,
    >)
        ensures
            final(tracker)@ == old(tracker)@.after_call(),
            old(tracker)@.wf() ==> final(tracker)@.wf(),
            match res {
                Ok(expectation) => {
                    &&& !old(tracker)@.exhausted()
                    &&& old(tracker)@.next_entry().owner == self.get_index()
                    &&& expectation@ == old(tracker)@.next_entry().expectation
                },
                Err(e) => if old(tracker)@.exhausted() {
                    e == (MockError::QueueExhausted { call, index: Some(self.get_index()) })
                } else {
                    &&& old(tracker)@.next_entry().owner != self.get_index()
                    &&& e == (MockError::OwnershipViolation {
                        call,
                        index: self.get_index(),
                        found_index: old(tracker)@.next_entry().owner,
                    })
                },
            },
    {
        match tracker.next() {
            Some((index, expectation)) => {
                if self.index == index {
                    Ok(expectation)
                } else {
                    Err(MockError::OwnershipViolation { call, index: self.index, found_index: index })
                }
            },
            None => Err(MockError::QueueExhausted { call, index: Some(self.index) }),
        }
    }

    /// Receives a packet: the next entry must be a `ReceivedPacket` of this
    /// handle, and its packet is handed out as it was written.
    pub fn try_get_packet(&self, tracker: &mut ExpectationTracker) -> (res: Result<
        Packet,
        MockError,
    >)
        ensures
            final(tracker)@ == old(tracker)@.after_call(),
            old(tracker)@.wf() ==> final(tracker)@.wf(),
            packet_reply(res) == outcome(old(tracker)@, self.get_index(), Call::TryGetPacket),
    {
        match self.next_own(tracker, CallKind::TryGetPacket)? {
            Expectation::Interface(InterfaceExpectation::ReceivedPacket(packet)) => Ok(packet),
            expectation => Err(
                MockError::UnexpectedCall {
                    call: CallKind::TryGetPacket,
                    index: Some(self.index),
                    found: expectation,
                },
            ),
        }
    }

    /// Sends a packet: the next entry must be a `SentPacket` of this handle
    /// that holds a packet equal to `packet` in every field.
    pub fn try_send_packet(&self, tracker: &mut ExpectationTracker, packet: &Packet) -> (res:
        Result<(), MockError>)
        ensures
            final(tracker)@ == old(tracker)@.after_call(),
            old(tracker)@.wf() ==> final(tracker)@.wf(),
            done_reply(res) == outcome(
                old(tracker)@,
                self.get_index(),
                Call::TrySendPacket(packet@),
            ),
    {
        match self.next_own(tracker, CallKind::TrySendPacket)? {
            Expectation::Interface(InterfaceExpectation::SentPacket(expected)) => {
                let differing = expected.diff(packet);
                if differing.any() {
                    Err(MockError::PacketMismatch { index: Some(self.index), expected, differing })
                } else {
                    Ok(())
                }
            },
            expectation => Err(
                MockError::UnexpectedCall {
                    call: CallKind::TrySendPacket,
                    index: Some(self.index),
                    found: expectation,
                },
            ),
        }
    }

    /// Asks whether the line is high: the next entry must be an input
    /// expectation of this handle, and the answer is whether it is `IsHigh`.
    pub fn is_high(&self, tracker: &mut ExpectationTracker) -> (res: Result<bool, MockError>)
        ensures
            final(tracker)@ == old(tracker)@.after_call(),
            old(tracker)@.wf() ==> final(tracker)@.wf(),
            level_reply(res) == outcome(old(tracker)@, self.get_index(), Call::IsHigh),
    {
        match self.next_own(tracker, CallKind::IsHigh)? {
            Expectation::InputPin(InputPinExpectation::IsHigh) => Ok(true),
            Expectation::InputPin(InputPinExpectation::IsLow) => Ok(false),
            expectation => Err(
                MockError::UnexpectedCall {
                    call: CallKind::IsHigh,
                    index: Some(self.index),
                    found: expectation,
                },
            ),
        }
    }

    /// Asks whether the line is low: the next entry must be an input
    /// expectation of this handle, and the answer is whether it is `IsLow`.
    pub fn is_low(&self, tracker: &mut ExpectationTracker) -> (res: Result<bool, MockError>)
        ensures
            final(tracker)@ == old(tracker)@.after_call(),
            old(tracker)@.wf() ==> final(tracker)@.wf(),
            level_reply(res) == outcome(old(tracker)@, self.get_index(), Call::IsLow),
    {
        match self.next_own(tracker, CallKind::IsLow)? {
            Expectation::InputPin(InputPinExpectation::IsHigh) => Ok(false),
            Expectation::InputPin(InputPinExpectation::IsLow) => Ok(true),
            expectation => Err(
                MockError::UnexpectedCall {
                    call: CallKind::IsLow,
                    index: Some(self.index),
                    found: expectation,
                },
            ),
        }
    }

    /// Drives the line high: the next entry must be `SetHigh` of this handle.
    pub fn set_high(&self, tracker: &mut ExpectationTracker) -> (res: Result<(), MockError>)
        ensures
            final(tracker)@ == old(tracker)@.after_call(),
            old(tracker)@.wf() ==> final(tracker)@.wf(),
            done_reply(res) == outcome(old(tracker)@, self.get_index(), Call::SetHigh),
    {
        match self.next_own(tracker, CallKind::SetHigh)? {
            Expectation::OutputPin(OutputPinExpectation::SetHigh) => Ok(()),
            expectation => Err(
                MockError::UnexpectedCall {
                    call: CallKind::SetHigh,
                    index: Some(self.index),
                    found: expectation,
                },
            ),
        }
    }

    /// Drives the line low: the next entry must be `SetLow` of this handle.
    pub fn set_low(&self, tracker: &mut ExpectationTracker) -> (res: Result<(), MockError>)
        ensures
            final(tracker)@ == old(tracker)@.after_call(),
            old(tracker)@.wf() ==> final(tracker)@.wf(),
            done_reply(res) == outcome(old(tracker)@, self.get_index(), Call::SetLow),
    {
        match self.next_own(tracker, CallKind::SetLow)? {
            Expectation::OutputPin(OutputPinExpectation::SetLow) => Ok(()),
            expectation => Err(
                MockError::UnexpectedCall {
                    call: CallKind::SetLow,
                    index: Some(self.index),
                    found: expectation,
                },
            ),
        }
    }

    /// Reads back whether the output is set high. The read-back is not
    /// simulated: it consults no script and is `true` whatever was set.
    pub fn is_set_high(&self) -> (res: Result<bool, Infallible>)
        ensures
            res == Ok::<bool, Infallible>(true),
    {
        Ok(true)
    }

    /// Reads back whether the output is set low. The read-back is not
    /// simulated: it consults no script and is `true` whatever was set.
    pub fn is_set_low(&self) -> (res: Result<bool, Infallible>)
        ensures
            res == Ok::<bool, Infallible>(true),
    {
        Ok(true)
    }
}

} // verus!
