//! The compatibility shim's vocabulary: one internal set of names and
//! fixed-width types for the constants that the two vendor SDKs spell
//! differently. Everything above this module speaks only these names;
//! the host program translates them one for one into whichever native
//! constant set is linked.
use vstd::prelude::*;

verus! {

/// Status code: the native call succeeded.
pub const ERROR_OK: u32 = 0x0000;

/// Status code: the receive queue holds no frame. Not a failure; the
/// receive protocol treats it as "would block".
pub const ERROR_QRCVEMPTY: u32 = 0x0020;

/// Channel identifier of the first USB channel.
pub const USBBUS1: u16 = 0x51;

/// Message-type flag byte of a standard-identifier data frame.
pub const MESSAGE_STANDARD: u8 = 0x00;

/// Message-type flag bit: the frame requests a remote transmission.
pub const MESSAGE_RTR: u8 = 0x01;

/// Message-type flag bit: the identifier uses the extended 29-bit space.
pub const MESSAGE_EXTENDED: u8 = 0x02;

/// Filter-mode value: the channel delivers no frames.
pub const FILTER_CLOSE: u32 = 0;

/// Filter-mode value: the channel delivers every frame.
pub const FILTER_OPEN: u32 = 1;

/// Filter-mode value: a custom acceptance filter is installed.
pub const FILTER_CUSTOM: u32 = 2;

/// Parameter code: the receive-event notification handle of a channel.
pub const RECEIVE_EVENT: u8 = 0x03;

/// Parameter code: the filter mode of a channel.
pub const MESSAGE_FILTER: u8 = 0x04;

/// Parameter code: whether the channel delivers driver status frames.
pub const ALLOW_STATUS_FRAMES: u8 = 0x20;

/// Parameter code: the acceptance filter over the 11-bit identifier space.
pub const ACCEPTANCE_FILTER_11BIT: u8 = 0x24;

/// Parameter code: the acceptance filter over the 29-bit identifier space.
pub const ACCEPTANCE_FILTER_29BIT: u8 = 0x25;

/// Parameter value that switches a toggle parameter off.
pub const PARAMETER_OFF: u32 = 0;

/// Largest standard (11-bit) identifier.
pub const STANDARD_ID_MAX: u16 = 0x7FF;

/// Largest extended (29-bit) identifier.
pub const EXTENDED_ID_MAX: u32 = 0x1FFF_FFFF;

/// Precomputed bit-timing register codes for the supported bus rates,
/// from 5 kbit/s up to 1 Mbit/s.
pub const BAUD_1M: u16 = 0x0014;

pub const BAUD_800K: u16 = 0x0016;

pub const BAUD_500K: u16 = 0x001C;

pub const BAUD_250K: u16 = 0x011C;

pub const BAUD_125K: u16 = 0x031C;

pub const BAUD_100K: u16 = 0x432F;

pub const BAUD_95K: u16 = 0xC34E;

pub const BAUD_83K: u16 = 0x852B;

pub const BAUD_50K: u16 = 0x472F;

pub const BAUD_47K: u16 = 0x1414;

pub const BAUD_33K: u16 = 0x8B2F;

pub const BAUD_20K: u16 = 0x532F;

pub const BAUD_10K: u16 = 0x672F;

pub const BAUD_5K: u16 = 0x7F7F;

} // verus!
