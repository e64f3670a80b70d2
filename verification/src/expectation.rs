//! The interactions that a script can hold.

use vstd::prelude::*;
use crate::packet::{Packet, PacketView};

verus! {

/// The capability that an expectation or a call belongs to.
#[derive(Debug, Clone, Copy, PartialEq, Eq, Structural)]
pub enum Family {
    Interface,
    InputPin,
    OutputPin,
}

/// An interaction with the packet interface.
#[derive(Debug, PartialEq, Eq)]
pub enum InterfaceExpectation {
    /// The code under test sends this packet.
    SentPacket(Packet),
    /// The code under test asks for a packet and is given this one.
    ReceivedPacket(Packet),
}

/// The level that an input pin reports when it is next queried.
#[derive(Debug, Clone, Copy, PartialEq, Eq, Structural)]
pub enum InputPinExpectation {
    IsHigh,
    IsLow,
}

/// The level that an output pin is next driven to.
#[derive(Debug, Clone, Copy, PartialEq, Eq, Structural)]
pub enum OutputPinExpectation {
    SetHigh,
    SetLow,
}

/// One expected interaction, of any capability.
#[derive(Debug, PartialEq, Eq)]
pub enum Expectation {
    Interface(InterfaceExpectation),
    InputPin(InputPinExpectation),
    OutputPin(OutputPinExpectation),
}

/// The mathematical value of an [`InterfaceExpectation`].
#[verifier::ext_equal]
pub enum InterfaceExpectationView {
    SentPacket(PacketView),
    ReceivedPacket(PacketView),
}

/// The mathematical value of an [`Expectation`].
#[verifier::ext_equal]
pub enum ExpectationView {
    Interface(InterfaceExpectationView),
    InputPin(InputPinExpectation),
    OutputPin(OutputPinExpectation),
}

impl View for InterfaceExpectation {
    type V = InterfaceExpectationView;

    open spec fn view(&self) -> InterfaceExpectationView {
        match *self {
            InterfaceExpectation::SentPacket(packet) => InterfaceExpectationView::SentPacket(
                packet@,
            ),
            InterfaceExpectation::ReceivedPacket(packet) => InterfaceExpectationView::ReceivedPacket(
                packet@,
            ),
        }
    }
}

impl View for Expectation {
    type V = ExpectationView;

    open spec fn view(&self) -> ExpectationView {
        match *self {
            Expectation::Interface(inner) => ExpectationView::Interface(inner@),
            Expectation::InputPin(inner) => ExpectationView::InputPin(inner),
            Expectation::OutputPin(inner) => ExpectationView::OutputPin(inner),
        }
    }
}

impl ExpectationView {
    /// The capability that this expectation belongs to.
    pub open spec fn family(self) -> Family {
        match self {
            ExpectationView::Interface(_) => Family::Interface,
            ExpectationView::InputPin(_) => Family::InputPin,
            ExpectationView::OutputPin(_) => Family::OutputPin,
        }
    }
}

impl Clone for InterfaceExpectation {
    fn clone(&self) -> (res: Self)
        ensures
            res@ == self@,
    {
        match self {
            InterfaceExpectation::SentPacket(packet) => InterfaceExpectation::SentPacket(
                packet.clone(),
            ),
            InterfaceExpectation::ReceivedPacket(packet) => InterfaceExpectation::ReceivedPacket(
                packet.clone(),
            ),
        }
    }
}

impl Clone for Expectation {
    fn clone(&self) -> (res: Self)
        ensures
            res@ == self@,
    {
        match self {
            Expectation::Interface(inner) => Expectation::Interface(inner.clone()),
            Expectation::InputPin(inner) => Expectation::InputPin(*inner),
            Expectation::OutputPin(inner) => Expectation::OutputPin(*inner),
        }
    }
}

impl Expectation {
    /// The capability that this expectation belongs to.
    pub fn family(&self) -> (res: Family)
        ensures
            res == self@.family(),
    {
        match self {
            Expectation::Interface(_) => Family::Interface,
            Expectation::InputPin(_) => Family::InputPin,
            Expectation::OutputPin(_) => Family::OutputPin,
        }
    }
}

} // verus!
