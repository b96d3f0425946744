//! The per-target readback protocol, as a state machine.
//!
//! Each frame, a target's readback buffer goes through: request an
//! asynchronous map for reading, block until the device signals completion,
//! copy the mapped bytes out, and unmap so the buffer can be reused by the
//! next frame's copy command.  The driver loop performs the device calls; the
//! transitions below decide what happens next, and guarantee that the bytes
//! are only read after a successful map and that the buffer is unmapped
//! before the next frame begins.

use vstd::prelude::*;

verus! {

/// Where one readback buffer stands in the map/read/unmap cycle.
#[derive(Clone, Copy, PartialEq, Eq, Structural, Debug)]
pub enum ReadbackState {
    /// The buffer is unmapped and ready for the next frame's copy.
    Idle,
    /// A map-for-read request has been submitted; its completion callback has
    /// not fired yet.
    Mapping,
    /// The map completed; the buffer's bytes may be read.
    Mapped,
    /// The device reported an error; this frame's capture is dropped.
    Failed,
}

/// What the device reported, or what the frame loop asks for.
#[derive(Clone, Copy, PartialEq, Eq, Structural, Debug)]
pub enum ReadbackEvent {
    /// A new frame's copy has been submitted and its bytes are wanted.
    FrameSubmitted,
    /// The device signalled that the map completed successfully.
    MapSucceeded,
    /// The device signalled an error (for instance a lost device).
    MapFailed,
    /// The mapped bytes were copied out into host memory.
    BytesCopied,
}

/// The device operation the driver loop must perform after a transition.
#[derive(Clone, Copy, PartialEq, Eq, Structural, Debug)]
pub enum ReadbackAction {
    /// Submit an asynchronous map-for-read request and poll the device.
    SubmitMapRequest,
    /// Read the mapped range into an owned buffer.
    CopyOutBytes,
    /// Unmap the buffer so the next frame can copy into it.
    Unmap,
    /// Surface the device error; the frame is dropped and the loop goes on.
    ReportError,
    /// Nothing to do.
    NoOp,
}

/// One step of the readback protocol: from the current state and the event
/// that occurred, the next state and the device operation to perform.
///
/// Bytes are only ever copied out of the `Mapped` state, which is reached
/// only through `MapSucceeded`, and the cycle returns to `Idle` only through
/// the unmapping transition, so a buffer is never read before its map
/// callback fired and never left mapped when a new frame begins.
pub fn readback_step(state: ReadbackState, event: ReadbackEvent) -> (r: (
    ReadbackState,
    ReadbackAction,
))
    ensures
        state == ReadbackState::Idle && event == ReadbackEvent::FrameSubmitted ==> r == (
        ReadbackState::Mapping, ReadbackAction::SubmitMapRequest),
        state == ReadbackState::Mapping && event == ReadbackEvent::MapSucceeded ==> r == (
        ReadbackState::Mapped, ReadbackAction::CopyOutBytes),
        state == ReadbackState::Mapping && event == ReadbackEvent::MapFailed ==> r == (
        ReadbackState::Failed, ReadbackAction::ReportError),
        state == ReadbackState::Mapped && event == ReadbackEvent::BytesCopied ==> r == (
        ReadbackState::Idle, ReadbackAction::Unmap),
        state == ReadbackState::Failed && event == ReadbackEvent::FrameSubmitted ==> r == (
        ReadbackState::Mapping, ReadbackAction::SubmitMapRequest),
        r.1 == ReadbackAction::CopyOutBytes ==> state == ReadbackState::Mapping && event
            == ReadbackEvent::MapSucceeded,
        r.0 == ReadbackState::Mapped && state != ReadbackState::Mapped ==> state
            == ReadbackState::Mapping && event == ReadbackEvent::MapSucceeded,
        r.0 == ReadbackState::Idle && state != ReadbackState::Idle ==> r.1 == ReadbackAction::Unmap,
        !((state == ReadbackState::Idle || state == ReadbackState::Failed) && event
            == ReadbackEvent::FrameSubmitted) && !(state == ReadbackState::Mapping && (event
            == ReadbackEvent::MapSucceeded || event == ReadbackEvent::MapFailed)) && !(state
            == ReadbackState::Mapped && event == ReadbackEvent::BytesCopied) ==> r == (
        state, ReadbackAction::NoOp),
{
    match (state, event) {
        (ReadbackState::Idle, ReadbackEvent::FrameSubmitted) => (
            ReadbackState::Mapping,
            ReadbackAction::SubmitMapRequest,
        ),
        (ReadbackState::Mapping, ReadbackEvent::MapSucceeded) => (
            ReadbackState::Mapped,
            ReadbackAction::CopyOutBytes,
        ),
        (ReadbackState::Mapping, ReadbackEvent::MapFailed) => (
            ReadbackState::Failed,
            ReadbackAction::ReportError,
        ),
        (ReadbackState::Mapped, ReadbackEvent::BytesCopied) => (
            ReadbackState::Idle,
            ReadbackAction::Unmap,
        ),
        (ReadbackState::Failed, ReadbackEvent::FrameSubmitted) => (
            ReadbackState::Mapping,
            ReadbackAction::SubmitMapRequest,
        ),
        _ => (state, ReadbackAction::NoOp),
    }
}

} // verus!
