//! The packet that travels over the mocked interface.

use vstd::prelude::*;

verus! {

/// A packet as the mocked interface sends and receives it.
#[derive(Debug, PartialEq, Eq)]
pub struct Packet {
    pub is_error: bool,
    pub device_address: u16,
    pub data: Vec<u8>,
}

/// The mathematical value of a [`Packet`].
#[verifier::ext_equal]
pub struct PacketView {
    pub is_error: bool,
    pub device_address: u16,
    pub data: Seq<u8>,
}

impl View for Packet {
    type V = PacketView;

    open spec fn view(&self) -> PacketView {
        PacketView {
            is_error: self.is_error,
            device_address: self.device_address,
            data: self.data@,
        }
    }
}

/// The fields in which two packets differ: a flag is `true` where the field
/// of that name is not the same in both.
#[derive(Debug, Clone, Copy, PartialEq, Eq, Structural)]
pub struct PacketDiff {
    pub is_error: bool,
    pub device_address: bool,
    pub data: bool,
}

impl PacketDiff {
    /// Whether any field differs.
    pub open spec fn spec_any(self) -> bool {
        self.is_error || self.device_address || self.data
    }

    /// Whether any field differs.
    #[verifier::when_used_as_spec(spec_any)]
    pub fn any(self) -> (res: bool)
        ensures
            res == self.spec_any(),
    {
        self.is_error || self.device_address || self.data
    }
}

impl PacketView {
    /// The fields in which `self` and `other` differ.
    pub open spec fn diff(self, other: PacketView) -> PacketDiff {
        PacketDiff {
            is_error: self.is_error != other.is_error,
            device_address: self.device_address != other.device_address,
            data: self.data != other.data,
        }
    }
}

impl Clone for Packet {
    fn clone(&self) -> (res: Self)
        ensures
            res@ == self@,
    {
        Packet {
            is_error: self.is_error,
            device_address: self.device_address,
            data: self.data.clone(),
        }
    }
}

impl Packet {
    /// Compares two packets field by field.
    pub fn diff(&self, other: &Packet) -> (res: PacketDiff)
        ensures
            res == self@.diff(other@),
    {
        let same_data = self.data == other.data;
        assert(same_data <==> self.data@ =~= other.data@);
        PacketDiff {
            is_error: self.is_error != other.is_error,
            device_address: self.device_address != other.device_address,
            data: !same_data,
        }
    }
}

/// Two packet values differ in no field exactly when they are equal.
pub proof fn lemma_no_diff_iff_equal(a: PacketView, b: PacketView)
    ensures
        !a.diff(b).spec_any() <==> a == b,
{
}

} // verus!
