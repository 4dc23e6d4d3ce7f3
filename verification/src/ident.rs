//! CAN identifiers: standard 11-bit or extended 29-bit addressing.
use vstd::prelude::*;

use crate::codes::{EXTENDED_ID_MAX, STANDARD_ID_MAX};

verus! {

/// A CAN identifier, tagged with its addressing width.
#[derive(Clone, Copy, Debug, PartialEq, Eq, Structural)]
pub enum Id {
    /// A standard identifier; valid values fit in 11 bits.
    Standard(u16),
    /// An extended identifier; valid values fit in 29 bits.
    Extended(u32),
}

impl Id {
    /// A valid identifier fits the addressing width of its variant.
    pub open spec fn valid(self) -> bool {
        match self {
            Id::Standard(raw) => raw <= STANDARD_ID_MAX,
            Id::Extended(raw) => raw <= EXTENDED_ID_MAX,
        }
    }

    /// The identifier bits as one number, as the wire format carries them.
    pub open spec fn raw_spec(self) -> u32 {
        match self {
            Id::Standard(raw) => raw as u32,
            Id::Extended(raw) => raw,
        }
    }

    /// Builds a standard identifier; values above 11 bits are rejected.
    pub fn standard(raw: u16) -> (r: Option<Id>)
        ensures
            r is Some <==> raw <= STANDARD_ID_MAX,
            r matches Some(id) ==> id == Id::Standard(raw) && id.valid(),
    {
        if raw <= STANDARD_ID_MAX {
            Some(Id::Standard(raw))
        } else {
            None
        }
    }

    /// Builds an extended identifier; values above 29 bits are rejected.
    pub fn extended(raw: u32) -> (r: Option<Id>)
        ensures
            r is Some <==> raw <= EXTENDED_ID_MAX,
            r matches Some(id) ==> id == Id::Extended(raw) && id.valid(),
    {
        if raw <= EXTENDED_ID_MAX {
            Some(Id::Extended(raw))
        } else {
            None
        }
    }

    /// Whether the identifier uses the extended 29-bit space.
    pub fn is_extended(&self) -> (r: bool)
        ensures
            r == (*self is Extended),
    {
        match self {
            Id::Standard(_) => false,
            Id::Extended(_) => true,
        }
    }

    /// The identifier bits as one number.
    pub fn raw(&self) -> (r: u32)
        ensures
            r == self.raw_spec(),
    {
        match self {
            Id::Standard(raw) => *raw as u32,
            Id::Extended(raw) => *raw,
        }
    }
}

} // verus!
