//! The calls that a mock takes, and what each gets from an expectation.

use vstd::prelude::*;
use crate::error::{CallKind, MockError, MockErrorView};
use crate::expectation::{
    ExpectationView, InputPinExpectation, InterfaceExpectationView, OutputPinExpectation,
};
use crate::packet::{Packet, PacketView};

verus! {

/// A call on a handle, together with what the caller passed.
#[verifier::ext_equal]
pub enum Call {
    IsHigh,
    IsLow,
    SetHigh,
    SetLow,
    TrySendPacket(PacketView),
    TryGetPacket,
}

impl Call {
    /// The operation that is invoked.
    pub open spec fn kind(self) -> CallKind {
        match self {
            Call::IsHigh => CallKind::IsHigh,
            Call::IsLow => CallKind::IsLow,
            Call::SetHigh => CallKind::SetHigh,
            Call::SetLow => CallKind::SetLow,
            Call::TrySendPacket(_) => CallKind::TrySendPacket,
            Call::TryGetPacket => CallKind::TryGetPacket,
        }
    }
}

/// What a call that succeeds hands back.
#[verifier::ext_equal]
pub enum Reply {
    /// The answer of an input pin to `is_high` or `is_low`.
    Level(bool),
    /// Nothing: the call was a command.
    Done,
    /// The packet that was received.
    Packet(PacketView),
}

/// What `call` gets from an expectation that belongs to the caller, where
/// `caller` is the owner index of the handle that is called, if it is one.
///
/// An input expectation answers both queries: `IsHigh` says yes to
/// `is_high` and no to `is_low`, and `IsLow` the other way round. A command
/// to an output pin succeeds on the expectation of that very command. A packet
/// that is sent must equal the expected one in every field. Every other
/// pairing is an unexpected call.
pub open spec fn answer(call: Call, caller: Option<usize>, expectation: ExpectationView) -> Result<
    Reply,
    MockErrorView,
> {
    match (call, expectation) {
        (Call::IsHigh, ExpectationView::InputPin(level)) => Ok(
            Reply::Level(level == InputPinExpectation::IsHigh),
        ),
        (Call::IsLow, ExpectationView::InputPin(level)) => Ok(
            Reply::Level(level == InputPinExpectation::IsLow),
        ),
        (Call::SetHigh, ExpectationView::OutputPin(OutputPinExpectation::SetHigh)) => Ok(
            Reply::Done,
        ),
        (Call::SetLow, ExpectationView::OutputPin(OutputPinExpectation::SetLow)) => Ok(Reply::Done),
        (
            Call::TrySendPacket(packet),
            ExpectationView::Interface(InterfaceExpectationView::SentPacket(expected)),
        ) => if expected == packet {
            Ok(Reply::Done)
        } else {
            Err(
                MockErrorView::PacketMismatch {
                    index: caller,
                    expected,
                    differing: expected.diff(packet),
                },
            )
        },
        (
            Call::TryGetPacket,
            ExpectationView::Interface(InterfaceExpectationView::ReceivedPacket(packet)),
        ) => Ok(Reply::Packet(packet)),
        _ => Err(
            MockErrorView::UnexpectedCall { call: call.kind(), index: caller, found: expectation },
        ),
    }
}

/// The result of a query, as a result over [`Reply`].
pub open spec fn level_reply(res: Result<bool, MockError>) -> Result<Reply, MockErrorView> {
    match res {
        Ok(level) => Ok(Reply::Level(level)),
        Err(e) => Err(e@),
    }
}

/// The result of a command, as a result over [`Reply`].
pub open spec fn done_reply(res: Result<(), MockError>) -> Result<Reply, MockErrorView> {
    match res {
        Ok(_) => Ok(Reply::Done),
        Err(e) => Err(e@),
    }
}

/// The result of receiving, as a result over [`Reply`].
pub open spec fn packet_reply(res: Result<Packet, MockError>) -> Result<Reply, MockErrorView> {
    match res {
        Ok(packet) => Ok(Reply::Packet(packet@)),
        Err(e) => Err(e@),
    }
}

} // verus!
