//! Bus bit rates and their native register codes.
use vstd::prelude::*;

use crate::codes::{
    BAUD_100K, BAUD_10K, BAUD_125K, BAUD_1M, BAUD_20K, BAUD_250K, BAUD_33K, BAUD_47K, BAUD_500K,
    BAUD_50K, BAUD_5K, BAUD_800K, BAUD_83K, BAUD_95K,
};

verus! {

/// A bus bit rate. Every node on the physical bus must use the same rate.
#[derive(Clone, Copy, Debug, PartialEq, Eq, Structural)]
pub enum Baudrate {
    Baud1m,
    Baud800k,
    Baud500k,
    Baud250k,
    Baud125k,
    Baud100k,
    Baud95k,
    Baud83k,
    Baud50k,
    Baud47k,
    Baud33k,
    Baud20k,
    Baud10k,
    Baud5k,
}

/// The precomputed bit-timing register code that channel initialization
/// hands to the native driver for a rate.
pub open spec fn baud_code(rate: Baudrate) -> u16 {
    match rate {
        Baudrate::Baud1m => BAUD_1M,
        Baudrate::Baud800k => BAUD_800K,
        Baudrate::Baud500k => BAUD_500K,
        Baudrate::Baud250k => BAUD_250K,
        Baudrate::Baud125k => BAUD_125K,
        Baudrate::Baud100k => BAUD_100K,
        Baudrate::Baud95k => BAUD_95K,
        Baudrate::Baud83k => BAUD_83K,
        Baudrate::Baud50k => BAUD_50K,
        Baudrate::Baud47k => BAUD_47K,
        Baudrate::Baud33k => BAUD_33K,
        Baudrate::Baud20k => BAUD_20K,
        Baudrate::Baud10k => BAUD_10K,
        Baudrate::Baud5k => BAUD_5K,
    }
}

impl Baudrate {
    /// The bit-timing register code of this rate.
    pub fn code(&self) -> (r: u16)
        ensures
            r == baud_code(*self),
    {
        match self {
            Baudrate::Baud1m => BAUD_1M,
            Baudrate::Baud800k => BAUD_800K,
            Baudrate::Baud500k => BAUD_500K,
            Baudrate::Baud250k => BAUD_250K,
            Baudrate::Baud125k => BAUD_125K,
            Baudrate::Baud100k => BAUD_100K,
            Baudrate::Baud95k => BAUD_95K,
            Baudrate::Baud83k => BAUD_83K,
            Baudrate::Baud50k => BAUD_50K,
            Baudrate::Baud47k => BAUD_47K,
            Baudrate::Baud33k => BAUD_33K,
            Baudrate::Baud20k => BAUD_20K,
            Baudrate::Baud10k => BAUD_10K,
            Baudrate::Baud5k => BAUD_5K,
        }
    }
}

} // verus!
