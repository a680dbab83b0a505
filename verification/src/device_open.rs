//! The device-open protocol: the decision sequence that acquires the
//! register window, separated from the system calls that carry it out.
//!
//! A runner outside this crate performs each returned `OpenAction` and
//! feeds its outcome back as the next `OpenEvent`. Which action may
//! follow which outcome is decided here; in particular, the device node
//! is never opened without privilege, and each failure carries the
//! error the stage it arose in demands.

use crate::fpga::FpgaError;
use vstd::prelude::*;

verus! {

/// Progress of the open protocol.
#[derive(Clone, Copy, Debug, PartialEq, Eq, Structural)]
pub enum OpenState {
    /// Nothing checked yet; the privilege check comes first.
    Start,
    /// Privilege confirmed; the device node is being opened.
    Opening,
    /// Device node open; the window is being mapped.
    Mapping,
    /// The window is mapped and owned.
    Ready,
    /// The protocol failed; no further action follows.
    Failed,
}

/// The outcome the runner reports back.
#[derive(Clone, Copy, Debug, PartialEq, Eq, Structural)]
pub enum OpenEvent {
    /// The effective user id of the calling process.
    Euid(u32),
    /// The device node opened for reading and writing.
    Opened,
    /// Opening the device node failed with this OS error code.
    OpenFailed(i32),
    /// The window was mapped over the open descriptor.
    Mapped,
    /// Mapping failed with this OS error code. The runner releases the
    /// descriptor it opened; the protocol surfaces the error.
    MapFailed(i32),
}

/// The action the runner must perform next.
#[derive(Clone, Copy, Debug, PartialEq, Eq, Structural)]
pub enum OpenAction {
    /// Open the device node for simultaneous read and write.
    OpenDevice,
    /// Map the fixed-size window, readable and writable and shared,
    /// over the open descriptor at offset 0.
    MapWindow,
    /// Give up with this error.
    Fail(FpgaError),
    /// The window is acquired; the protocol is over.
    Done,
}

/// Which event each state expects from the runner. `Ready` and
/// `Failed` are final: the protocol takes no further event.
pub open spec fn expects(state: OpenState, event: OpenEvent) -> bool {
    match state {
        OpenState::Start => event is Euid,
        OpenState::Opening => event is Opened || event is OpenFailed,
        OpenState::Mapping => event is Mapped || event is MapFailed,
        OpenState::Ready => false,
        OpenState::Failed => false,
    }
}

/// The next state and action of the open protocol: only a privileged
/// caller (effective user id 0) reaches the open; an open failure and
/// a map failure fail with `DeviceOpen` and `Mmap` carrying the OS
/// error code; a mapped window ends the protocol.
pub open spec fn open_step_spec(state: OpenState, event: OpenEvent) -> (OpenState, OpenAction) {
    match (state, event) {
        (OpenState::Start, OpenEvent::Euid(euid)) => if euid == 0 {
            (OpenState::Opening, OpenAction::OpenDevice)
        } else {
            (OpenState::Failed, OpenAction::Fail(FpgaError::NotRoot))
        },
        (OpenState::Opening, OpenEvent::Opened) => (OpenState::Mapping, OpenAction::MapWindow),
        (OpenState::Opening, OpenEvent::OpenFailed(code)) => (
            OpenState::Failed,
            OpenAction::Fail(FpgaError::DeviceOpen(code)),
        ),
        (OpenState::Mapping, OpenEvent::Mapped) => (OpenState::Ready, OpenAction::Done),
        (OpenState::Mapping, OpenEvent::MapFailed(code)) => (
            OpenState::Failed,
            OpenAction::Fail(FpgaError::Mmap(code)),
        ),
        _ => arbitrary(),
    }
}

/// Whether `event` is the one `state` expects. `open_step` demands
/// this; an unverified runner must check with this function before
/// stepping and treat a `false` as fatal.
pub fn event_expected(state: OpenState, event: OpenEvent) -> (r: bool)
    ensures
        r == expects(state, event),
{
    match state {
        OpenState::Start => matches!(event, OpenEvent::Euid(_)),
        OpenState::Opening => matches!(event, OpenEvent::Opened | OpenEvent::OpenFailed(_)),
        OpenState::Mapping => matches!(event, OpenEvent::Mapped | OpenEvent::MapFailed(_)),
        OpenState::Ready => false,
        OpenState::Failed => false,
    }
}

/// One decision step of the open protocol.
pub fn open_step(state: OpenState, event: OpenEvent) -> (r: (OpenState, OpenAction))
    requires
        expects(state, event),
    ensures
        r == open_step_spec(state, event),
{
    match (state, event) {
        (OpenState::Start, OpenEvent::Euid(euid)) => {
            if euid == 0 {
                (OpenState::Opening, OpenAction::OpenDevice)
            } else {
                (OpenState::Failed, OpenAction::Fail(FpgaError::NotRoot))
            }
        },
        (OpenState::Opening, OpenEvent::Opened) => (OpenState::Mapping, OpenAction::MapWindow),
        (OpenState::Opening, OpenEvent::OpenFailed(code)) => (
            OpenState::Failed,
            OpenAction::Fail(FpgaError::DeviceOpen(code)),
        ),
        (OpenState::Mapping, OpenEvent::Mapped) => (OpenState::Ready, OpenAction::Done),
        (OpenState::Mapping, OpenEvent::MapFailed(code)) => (
            OpenState::Failed,
            OpenAction::Fail(FpgaError::Mmap(code)),
        ),
        _ => (OpenState::Failed, OpenAction::Fail(FpgaError::NotRoot)),
    }
}

/// Without privilege the open protocol fails with `NotRoot` at its
/// very first step: the returned action is the failure, not the open,
/// so the device node is never opened.
pub proof fn lemma_no_open_without_privilege(euid: u32)
    requires
        euid != 0,
    ensures
        open_step_spec(OpenState::Start, OpenEvent::Euid(euid)).0 == OpenState::Failed,
        open_step_spec(OpenState::Start, OpenEvent::Euid(euid)).1 == OpenAction::Fail(
            FpgaError::NotRoot,
        ),
{
}

/// The only step of the open protocol that issues the open action is
/// the privilege check passing with effective user id 0.
pub proof fn lemma_open_action_needs_privilege(state: OpenState, event: OpenEvent)
    requires
        expects(state, event),
    ensures
        open_step_spec(state, event).1 is OpenDevice ==> state == OpenState::Start && event
            == OpenEvent::Euid(0),
{
}

} // verus!
