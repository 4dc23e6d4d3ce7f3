//! The interface protocol: what the layer decides at each step of
//! initialization, transmit, receive and filter configuration. Each
//! function here maps the state the native driver reports (a status code,
//! a wire message, the current filter mode) to the next action; the host
//! program performs the native calls and the event-handle wait and feeds
//! every result back through these functions.
use vstd::prelude::*;

use crate::baudrate::{baud_code, Baudrate};
use crate::codes::{
    ACCEPTANCE_FILTER_11BIT, ACCEPTANCE_FILTER_29BIT, ALLOW_STATUS_FRAMES, ERROR_OK,
    ERROR_QRCVEMPTY, FILTER_CLOSE, FILTER_CUSTOM, FILTER_OPEN, PARAMETER_OFF, USBBUS1,
};
use crate::error::{Error, ErrorKind};
use crate::filter::Filter;
use crate::frame::{decode, wire_valid, Frame, Message};

verus! {

/// The arguments of the native channel-initialize call for one session:
/// the first USB channel at the requested rate, with the hardware
/// parameters a USB adapter does not use left at zero.
#[derive(Clone, Copy, Debug, PartialEq, Eq, Structural)]
pub struct InitPlan {
    pub channel: u16,
    pub baudrate_code: u16,
    pub hw_type: u8,
    pub io_port: u32,
    pub interrupt: u16,
}

/// The native initialize call that opens a session at the given rate.
pub fn init_plan(rate: Baudrate) -> (r: InitPlan)
    ensures
        r == (InitPlan {
            channel: USBBUS1,
            baudrate_code: baud_code(rate),
            hw_type: 0u8,
            io_port: 0u32,
            interrupt: 0u16,
        }),
{
    InitPlan {
        channel: USBBUS1,
        baudrate_code: rate.code(),
        hw_type: 0,
        io_port: 0,
        interrupt: 0,
    }
}

/// The parameter write applied right after a successful initialize:
/// driver status frames are switched off, a deliberate policy so that the
/// receive path only ever yields bus traffic. Returns the parameter code
/// and the value to write.
pub fn status_frames_off_command() -> (r: (u8, u32))
    ensures
        r == (ALLOW_STATUS_FRAMES, PARAMETER_OFF),
{
    (ALLOW_STATUS_FRAMES, PARAMETER_OFF)
}

/// Classifies a status code where only success lets the operation go on:
/// the native initialize and write calls. Success exactly on the ok
/// status; every other code becomes a driver failure carrying that code.
pub fn check_status(status: u32) -> (r: Result<(), Error>)
    ensures
        r is Ok <==> status == ERROR_OK,
        r matches Err(e) ==> e == (Error { kind: ErrorKind::DriverFailure, code: status }),
{
    if status == ERROR_OK {
        Ok(())
    } else {
        Err(Error::new(status))
    }
}

/// What one native read call yielded, after classification.
#[derive(Clone, Copy, Debug)]
pub enum ReadOutcome {
    /// The queue held a frame and it decoded cleanly.
    Received(Frame),
    /// The queue was empty: the non-blocking caller should retry later,
    /// the blocking caller parks on the event handle.
    Empty,
    /// A hard driver status, or an undecodable message.
    Failed(Error),
}

/// Classifies one native read: the status code the call returned and the
/// message struct it may have filled. Queue-empty is not an error; an ok
/// status yields the decoded frame, or a malformed-frame error when the
/// filled struct does not describe a CAN frame; every other status is a
/// driver failure carrying its code.
pub fn classify_read(status: u32, message: &Message) -> (r: ReadOutcome)
    ensures
        status == ERROR_QRCVEMPTY ==> r is Empty,
        status == ERROR_OK && wire_valid(*message) ==> (r matches ReadOutcome::Received(f)
            && f@ == decode(*message)),
        status == ERROR_OK && !wire_valid(*message) ==> (r matches ReadOutcome::Failed(e)
            && e == (Error { kind: ErrorKind::MalformedFrame, code: 0u32 })),
        status != ERROR_OK && status != ERROR_QRCVEMPTY ==> (r matches ReadOutcome::Failed(e)
            && e == (Error { kind: ErrorKind::DriverFailure, code: status })),
{
    if status == ERROR_QRCVEMPTY {
        ReadOutcome::Empty
    } else if status == ERROR_OK {
        match Frame::from_message(message) {
            Some(f) => ReadOutcome::Received(f),
            None => ReadOutcome::Failed(Error::malformed_frame()),
        }
    } else {
        ReadOutcome::Failed(Error::new(status))
    }
}

/// The startup-drain policy: right after initialize, the host reads and
/// discards in a loop until the driver first reports an empty queue, so
/// that no frame from before the session reaches the consumer. Returns
/// whether the drain keeps going after the given outcome.
pub fn drain_continues(outcome: &ReadOutcome) -> (r: bool)
    ensures
        r == !(*outcome is Empty),
{
    match outcome {
        ReadOutcome::Empty => false,
        ReadOutcome::Received(_) => true,
        ReadOutcome::Failed(_) => true,
    }
}

/// The next move of a blocking receive after one read.
#[derive(Clone, Copy, Debug)]
pub enum ReceiveStep {
    /// Hand this frame to the caller.
    Deliver(Frame),
    /// Park on the event-notification handle, then read again.
    Wait,
    /// Surface this error to the caller.
    Fail(Error),
}

/// The blocking-receive policy: the calling thread parks exactly on the
/// queue-empty outcome — never spinning, and never retrying after a hard
/// error — and otherwise returns the frame or the error at once.
pub fn receive_blocking_step(outcome: ReadOutcome) -> (r: ReceiveStep)
    ensures
        outcome matches ReadOutcome::Received(f) ==> (r matches ReceiveStep::Deliver(g) && g == f),
        outcome is Empty ==> r is Wait,
        outcome matches ReadOutcome::Failed(e) ==> (r matches ReceiveStep::Fail(d) && d == e),
{
    match outcome {
        ReadOutcome::Received(f) => ReceiveStep::Deliver(f),
        ReadOutcome::Empty => ReceiveStep::Wait,
        ReadOutcome::Failed(e) => ReceiveStep::Fail(e),
    }
}

/// One parameter write that installs or clears acceptance filtering.
#[derive(Clone, Copy, Debug, PartialEq, Eq, Structural)]
pub enum FilterCommand {
    /// Write this value to the channel's filter-mode parameter.
    SetMode(u32),
    /// Write the (mask, id) pair to this acceptance-filter parameter.
    SetAcceptance { parameter: u8, mask: u32, id: u32 },
}

/// What installing a filter does, given the filter mode the channel
/// currently reports. A channel already in custom mode takes no second
/// filter; an accept-all filter opens the channel; any other filter
/// writes its (mask, id) pair to the acceptance parameter of its width.
pub open spec fn add_filter_decision(mode: u32, f: Filter) -> Result<FilterCommand, Error> {
    if mode == FILTER_CUSTOM {
        Err(Error { kind: ErrorKind::AlreadyConfigured, code: 0u32 })
    } else if f.accept_all {
        Ok(FilterCommand::SetMode(FILTER_OPEN))
    } else if f.is_extended {
        Ok(FilterCommand::SetAcceptance {
            parameter: ACCEPTANCE_FILTER_29BIT,
            mask: f.mask,
            id: f.id,
        })
    } else {
        Ok(FilterCommand::SetAcceptance {
            parameter: ACCEPTANCE_FILTER_11BIT,
            mask: f.mask,
            id: f.id,
        })
    }
}

/// Decides how to install a filter. The host first reads the channel's
/// filter-mode parameter and passes it in; the single-active-filter rule
/// is enforced here: installation fails, with the already-configured
/// error, exactly when the channel already reports custom mode.
pub fn plan_add_filter(current_mode: u32, filter: &Filter) -> (r: Result<FilterCommand, Error>)
    ensures
        r == add_filter_decision(current_mode, *filter),
        r is Err <==> current_mode == FILTER_CUSTOM,
        r matches Err(e) ==> e.kind == ErrorKind::AlreadyConfigured,
{
    if current_mode == FILTER_CUSTOM {
        Err(Error::already_configured())
    } else if filter.accept_all {
        Ok(FilterCommand::SetMode(FILTER_OPEN))
    } else if filter.is_extended {
        Ok(FilterCommand::SetAcceptance {
            parameter: ACCEPTANCE_FILTER_29BIT,
            mask: filter.mask,
            id: filter.id,
        })
    } else {
        Ok(FilterCommand::SetAcceptance {
            parameter: ACCEPTANCE_FILTER_11BIT,
            mask: filter.mask,
            id: filter.id,
        })
    }
}

/// What clearing does: one unconditional filter-mode write.
pub open spec fn clear_decision() -> FilterCommand {
    FilterCommand::SetMode(FILTER_CLOSE)
}

/// Clearing filters writes the closed mode unconditionally, whatever was
/// installed before; there is no failure path to distinguish "nothing to
/// clear".
pub fn clear_filters_command() -> (r: FilterCommand)
    ensures
        r == clear_decision(),
{
    FilterCommand::SetMode(FILTER_CLOSE)
}

/// The filter mode the channel reports after a command is applied: a mode
/// write reports that mode, and installing an acceptance filter puts the
/// channel in custom mode.
pub open spec fn mode_after(cmd: FilterCommand) -> u32 {
    match cmd {
        FilterCommand::SetMode(m) => m,
        FilterCommand::SetAcceptance { .. } => FILTER_CUSTOM,
    }
}

/// Installing a custom filter, then another filter without clearing in
/// between, always fails the second installation with the
/// already-configured error — never a silent overwrite.
pub proof fn lemma_second_filter_rejected(mode: u32, first: Filter, second: Filter)
    requires
        mode != FILTER_CUSTOM,
        !first.accept_all,
    ensures
        add_filter_decision(mode, first) is Ok,
        mode_after(add_filter_decision(mode, first)->Ok_0) == FILTER_CUSTOM,
        add_filter_decision(mode_after(add_filter_decision(mode, first)->Ok_0), second)
            == Err::<FilterCommand, Error>(Error { kind: ErrorKind::AlreadyConfigured, code: 0u32 }),
{
}

/// Clearing filters always makes the next installation succeed, whatever
/// state the channel was in before.
pub proof fn lemma_clear_then_add_succeeds(f: Filter)
    ensures
        mode_after(clear_decision()) == FILTER_CLOSE,
        add_filter_decision(FILTER_CLOSE, f) is Ok,
{
}

/// Installing the accept-all filter on a channel not in custom mode opens
/// the channel: the one command issued sets the open filter mode, which
/// delivers every frame.
pub proof fn lemma_accept_all_opens(mode: u32, f: Filter)
    requires
        mode != FILTER_CUSTOM,
        f.accept_all,
    ensures
        add_filter_decision(mode, f) == Ok::<FilterCommand, Error>(FilterCommand::SetMode(
            FILTER_OPEN,
        )),
        mode_after(add_filter_decision(mode, f)->Ok_0) == FILTER_OPEN,
{
}

} // verus!
