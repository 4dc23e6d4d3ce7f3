//! One acceptance-filter configuration: accept everything, or a single
//! (identifier, mask) rule over one addressing width.
use vstd::prelude::*;

use crate::codes::{EXTENDED_ID_MAX, STANDARD_ID_MAX};
use crate::ident::Id;

verus! {

/// An acceptance-filter configuration, consumed read-only when installed.
#[derive(Clone, Copy, Debug, PartialEq, Eq, Structural)]
pub struct Filter {
    /// When set, the filter opens the channel to every frame and the
    /// remaining fields are ignored.
    pub accept_all: bool,
    /// Whether the rule ranges over the 29-bit identifier space.
    pub is_extended: bool,
    /// The identifier pattern of the rule.
    pub id: u32,
    /// The mask: a frame matches when its identifier agrees with the
    /// pattern on every bit the mask selects.
    pub mask: u32,
}

/// The filter that matches exactly one identifier: the default mask
/// covers every identifier bit of the chosen width.
pub open spec fn filter_for(id: Id) -> Filter {
    match id {
        Id::Standard(raw) => Filter {
            accept_all: false,
            is_extended: false,
            id: raw as u32,
            mask: STANDARD_ID_MAX as u32,
        },
        Id::Extended(raw) => Filter {
            accept_all: false,
            is_extended: true,
            id: raw,
            mask: EXTENDED_ID_MAX,
        },
    }
}

impl Filter {
    /// A filter that, once installed, lets every frame through.
    pub fn accept_all() -> (r: Filter)
        ensures
            r == (Filter { accept_all: true, is_extended: true, id: 0u32, mask: 0u32 }),
    {
        Filter { accept_all: true, is_extended: true, id: 0, mask: 0 }
    }

    /// A filter matching exactly one identifier, with the full-width
    /// default mask for that identifier's addressing width.
    pub fn new(id: Id) -> (r: Filter)
        ensures
            r == filter_for(id),
    {
        match id {
            Id::Standard(raw) => Filter {
                accept_all: false,
                is_extended: false,
                id: raw as u32,
                mask: STANDARD_ID_MAX as u32,
            },
            Id::Extended(raw) => Filter {
                accept_all: false,
                is_extended: true,
                id: raw,
                mask: EXTENDED_ID_MAX,
            },
        }
    }

    /// Replaces the mask in place, widening the rule from one exact
    /// identifier to a range; returns the filter again for chaining.
    pub fn with_mask(&mut self, mask: u32) -> (r: &mut Filter)
        ensures
            *r == (Filter { mask, ..*old(self) }),
            *final(self) == *final(r),
    {
        self.mask = mask;
        self
    }
}

} // verus!
