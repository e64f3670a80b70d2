//! A mock of a packet interface with a script of its own.

use vstd::prelude::*;
use crate::call::{answer, done_reply, packet_reply, Call, Reply};
use crate::error::{CallKind, MockError, MockErrorView};
use crate::expectation::{ExpectationView, InterfaceExpectation, InterfaceExpectationView};
use crate::generic_mock::{GenericMock, QueueView};
use crate::packet::Packet;

verus! {

/// The packet that is next sent, or next received.
#[derive(Debug, PartialEq, Eq)]
pub enum Expectation {
    /// The code under test sends this packet.
    SentPacket(Packet),
    /// The code under test asks for a packet and is given this one.
    ReceivedPacket(Packet),
}

/// A packet interface that checks what is sent against a queue, and hands
/// out what is received from it.
pub type Mock = GenericMock<Expectation>;

impl View for Expectation {
    type V = InterfaceExpectationView;

    open spec fn view(&self) -> InterfaceExpectationView {
        match *self {
            Expectation::SentPacket(packet) => InterfaceExpectationView::SentPacket(packet@),
            Expectation::ReceivedPacket(packet) => InterfaceExpectationView::ReceivedPacket(
                packet@,
            ),
        }
    }
}

impl Clone for Expectation {
    fn clone(&self) -> (res: Self)
        ensures
            res@ == self@,
    {
        match self {
            Expectation::SentPacket(packet) => Expectation::SentPacket(packet.clone()),
            Expectation::ReceivedPacket(packet) => Expectation::ReceivedPacket(packet.clone()),
        }
    }
}

impl Expectation {
    /// The same expectation among those of all capabilities.
    pub fn widen(self) -> (res: crate::expectation::Expectation)
        ensures
            res@ == ExpectationView::Interface(self@),
    {
        crate::expectation::Expectation::Interface(
            match self {
                Expectation::SentPacket(packet) => InterfaceExpectation::SentPacket(packet),
                Expectation::ReceivedPacket(packet) => InterfaceExpectation::ReceivedPacket(
                    packet,
                ),
            },
        )
    }
}

/// What `call` results in on the queue `queue`: with nothing left the queue
/// is exhausted, and else the next expectation gives its answer.
pub open spec fn outcome(queue: QueueView<Expectation>, call: Call) -> Result<Reply, MockErrorView> {
    if queue.exhausted() {
        Err(MockErrorView::QueueExhausted { call: call.kind(), index: None })
    } else {
        answer(call, None, ExpectationView::Interface(queue.next_entry()@))
    }
}

impl GenericMock<Expectation> {
    /// Receives a packet: the next expectation is consumed, and must be a
    /// `ReceivedPacket`, whose packet is handed out as it was written.
    pub fn try_get_packet(&mut self) -> (res: Result<Packet, MockError>)
        ensures
            final(self)@ == old(self)@.after_call(),
            old(self)@.wf() ==> final(self)@.wf(),
            packet_reply(res) == outcome(old(self)@, Call::TryGetPacket),
    {
        match self.next() {
            Some(Expectation::ReceivedPacket(packet)) => Ok(packet),
            Some(found) => Err(
                MockError::UnexpectedCall {
                    call: CallKind::TryGetPacket,
                    index: None,
                    found: found.widen(),
                },
            ),
            None => Err(MockError::QueueExhausted { call: CallKind::TryGetPacket, index: None }),
        }
    }

    /// Sends a packet: the next expectation is consumed, and must be a
    /// `SentPacket` that holds a packet equal to `packet` in every field.
    pub fn try_send_packet(&mut self, packet: &Packet) -> (res: Result<(), MockError>)
        ensures
            final(self)@ == old(self)@.after_call(),
            old(self)@.wf() ==> final(self)@.wf(),
            done_reply(res) == outcome(old(self)@, Call::TrySendPacket(packet@)),
    {
        match self.next() {
            Some(Expectation::SentPacket(expected)) => {
                let differing = expected.diff(packet);
                if differing.any() {
                    Err(MockError::PacketMismatch { index: None, expected, differing })
                } else {
                    Ok(())
                }
            },
            Some(found) => Err(
                MockError::UnexpectedCall {
                    call: CallKind::TrySendPacket,
                    index: None,
                    found: found.widen(),
                },
            ),
            None => Err(MockError::QueueExhausted { call: CallKind::TrySendPacket, index: None }),
        }
    }
}

} // verus!
