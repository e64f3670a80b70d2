//! The ways in which a call or the completion check can fail.

use vstd::prelude::*;
use crate::expectation::{Expectation, ExpectationView, Family};
use crate::packet::{Packet, PacketDiff, PacketView};

verus! {

/// The operation that was invoked on a mock.
#[derive(Debug, Clone, Copy, PartialEq, Eq, Structural)]
pub enum CallKind {
    IsHigh,
    IsLow,
    SetHigh,
    SetLow,
    TrySendPacket,
    TryGetPacket,
}

impl CallKind {
    /// The capability that the operation belongs to.
    pub open spec fn spec_family(self) -> Family {
        match self {
            CallKind::IsHigh | CallKind::IsLow => Family::InputPin,
            CallKind::SetHigh | CallKind::SetLow => Family::OutputPin,
            CallKind::TrySendPacket | CallKind::TryGetPacket => Family::Interface,
        }
    }

    /// The capability that the operation belongs to.
    #[verifier::when_used_as_spec(spec_family)]
    pub fn family(self) -> (res: Family)
        ensures
            res == self.spec_family(),
    {
        match self {
            CallKind::IsHigh | CallKind::IsLow => Family::InputPin,
            CallKind::SetHigh | CallKind::SetLow => Family::OutputPin,
            CallKind::TrySendPacket | CallKind::TryGetPacket => Family::Interface,
        }
    }
}

/// Why a call on a mock, or the completion check, failed. Every one of these
/// ends the scenario: none is meant to be recovered from.
///
/// `call` is the operation that was invoked, and `index` the owner index of
/// the handle that it was invoked on: `None` where the mock is a queue of its
/// own and no handle.
#[derive(Debug, PartialEq, Eq)]
pub enum MockError {
    /// A call was made when every expectation had been consumed.
    QueueExhausted { call: CallKind, index: Option<usize> },
    /// The next expectation does not describe the call that was made.
    UnexpectedCall { call: CallKind, index: Option<usize>, found: Expectation },
    /// The next expectation belongs to the handle `found_index`, not to the
    /// handle `index` that was called.
    OwnershipViolation { call: CallKind, index: usize, found_index: usize },
    /// The packet that was sent is not the packet that was expected.
    PacketMismatch { index: Option<usize>, expected: Packet, differing: PacketDiff },
    /// The completion check found `remaining` expectations not yet consumed.
    IncompleteConsumption { remaining: usize },
}

/// The mathematical value of a [`MockError`].
#[verifier::ext_equal]
pub enum MockErrorView {
    QueueExhausted { call: CallKind, index: Option<usize> },
    UnexpectedCall { call: CallKind, index: Option<usize>, found: ExpectationView },
    OwnershipViolation { call: CallKind, index: usize, found_index: usize },
    PacketMismatch { index: Option<usize>, expected: PacketView, differing: PacketDiff },
    IncompleteConsumption { remaining: usize },
}

impl View for MockError {
    type V = MockErrorView;

    open spec fn view(&self) -> MockErrorView {
        match *self {
            MockError::QueueExhausted { call, index } => MockErrorView::QueueExhausted {
                call,
                index,
            },
            MockError::UnexpectedCall { call, index, found } => MockErrorView::UnexpectedCall {
                call,
                index,
                found: found@,
            },
            MockError::OwnershipViolation {
                call,
                index,
                found_index,
            } => MockErrorView::OwnershipViolation { call, index, found_index },
            MockError::PacketMismatch {
                index,
                expected,
                differing,
            } => MockErrorView::PacketMismatch { index, expected: expected@, differing },
            MockError::IncompleteConsumption { remaining } => MockErrorView::IncompleteConsumption {
                remaining,
            },
        }
    }
}

} // verus!
