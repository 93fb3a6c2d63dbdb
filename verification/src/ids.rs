//! Plain-value identifiers for devices and GATT attributes.
//!
//! A UUID is carried as its 128-bit value and a device identifier as its
//! 48-bit public address widened to 64 bits, so that the resolution logic can
//! compare and store them directly.

use vstd::prelude::*;

verus! {

/// A 128-bit universally unique identifier, by value.
#[derive(Clone, Copy, PartialEq, Eq, Structural, Hash, Debug)]
pub struct Uuid {
    pub bits: u128,
}

impl Uuid {
    /// Builds a UUID from its 128-bit value.
    pub fn from_u128(bits: u128) -> (r: Uuid)
        ensures
            r.bits == bits,
    {
        Uuid { bits }
    }

    /// The 128-bit value of this UUID.
    pub fn as_u128(&self) -> (r: u128)
        ensures
            r == self.bits,
    {
        self.bits
    }
}

/// The identifier of one remote device: its address as a plain integer.
#[derive(Clone, Copy, PartialEq, Eq, Structural, Hash, Debug)]
pub struct DeviceId {
    pub addr: u64,
}

impl DeviceId {
    /// Builds a device identifier from an address value.
    pub fn from_addr(addr: u64) -> (r: DeviceId)
        ensures
            r.addr == addr,
    {
        DeviceId { addr }
    }
}

} // verus!
