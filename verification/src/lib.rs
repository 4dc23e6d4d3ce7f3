//! Portable driver-abstraction layer for a USB-attached CAN bus adapter.
//!
//! The library holds the logic of the layer: the unified frame
//! representation and its wire codec, acceptance-filter configuration with
//! its single-active-filter rule, and the classification of driver status
//! codes that drives the transmit, receive and startup-drain protocols.
//! The host program owns the native driver calls and the OS wait primitive;
//! it feeds every status code and wire message through the functions here.
#![allow(unused_imports)]
use vstd::prelude::*;

mod baudrate;
mod codes;
mod error;
mod filter;
mod frame;
mod ident;
mod interface;

pub use baudrate::{baud_code, Baudrate};
pub use codes::{
    ACCEPTANCE_FILTER_11BIT, ACCEPTANCE_FILTER_29BIT, ALLOW_STATUS_FRAMES, BAUD_100K, BAUD_10K,
    BAUD_125K, BAUD_1M, BAUD_20K, BAUD_250K, BAUD_33K, BAUD_47K, BAUD_500K, BAUD_50K, BAUD_5K,
    BAUD_800K, BAUD_83K, BAUD_95K, ERROR_OK, ERROR_QRCVEMPTY, EXTENDED_ID_MAX, FILTER_CLOSE,
    FILTER_CUSTOM, FILTER_OPEN, MESSAGE_EXTENDED, MESSAGE_FILTER, MESSAGE_RTR, MESSAGE_STANDARD,
    PARAMETER_OFF, RECEIVE_EVENT, STANDARD_ID_MAX, USBBUS1,
};
pub use error::{Error, ErrorKind};
pub use filter::{filter_for, Filter};
pub use frame::{Frame, FrameSpec, Message};
pub use frame::{decode, encodes, flags_of, frame_spec_valid, lemma_wire_round_trip, wire_valid};
pub use ident::Id;
pub use interface::{
    add_filter_decision, check_status, classify_read, clear_decision, clear_filters_command,
    drain_continues, init_plan, lemma_accept_all_opens, lemma_clear_then_add_succeeds,
    lemma_second_filter_rejected, mode_after, plan_add_filter, receive_blocking_step,
    status_frames_off_command, FilterCommand, InitPlan, ReadOutcome, ReceiveStep,
};
