//! The connection worker's decision logic.
//!
//! The worker owns the transport: it forwards every decoded inbound
//! envelope into the supervisor's queue and writes every outbound envelope
//! drained from its own queue to the device.  The I/O itself lives outside
//! the library; what is decided here is how a drained message is routed, and
//! the errors the worker can surface.

use vstd::prelude::*;
use crate::frames::ToRadioMsg;
use crate::structs::IPCMessage;

verus! {

/// Errors a packet handler can surface to the device-protocol library.
#[derive(Clone, Debug)]
pub enum DeviceUpdateError {
    PacketNotSupported(String),
    RadioMessageNotSupported(String),
    DecodeFailure(String),
    GeneralFailure(String),
    EventDispatchFailure(String),
    NotificationDispatchFailure(String),
}

/// What the worker does with one message drained from its inbound queue.
#[derive(Clone, Copy, Debug, PartialEq, Eq, Structural)]
pub enum WorkerAction {
    /// Write the envelope to the device; a write failure is fatal for the
    /// worker.
    WriteToRadio(ToRadioMsg),
    /// Not an outbound envelope: logged and dropped.
    Ignore,
}

/// Routes one message drained from the supervisor-to-worker queue: outbound
/// envelopes go to the device, anything else is ignored.
pub fn route_outbound(msg: IPCMessage) -> (a: WorkerAction)
    ensures
        match msg {
            IPCMessage::ToRadio(t) => a == WorkerAction::WriteToRadio(t),
            IPCMessage::FromRadio(_) => a is Ignore,
        },
{
    match msg {
        IPCMessage::ToRadio(t) => WorkerAction::WriteToRadio(t),
        IPCMessage::FromRadio(_) => WorkerAction::Ignore,
    }
}

} // verus!
