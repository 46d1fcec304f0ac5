//! Session events: what the host's reader loop reports, and what the
//! session surfaces to its owner.

use vstd::prelude::*;

verus! {

/// Events emitted by the terminal session upward to its owner.
#[derive(Clone, Debug, PartialEq, Eq)]
pub enum Event {
    /// The subprocess changed the window title.
    TitleChanged,
    /// The session is over: the subprocess exited or its stream closed.
    CloseTerminal,
    /// The bell character was received.
    Bell,
    /// Content changed; a fresh snapshot should be synced and rendered.
    Wakeup,
    /// A hyperlink was activated; the resolved URL should be opened.
    OpenUrl(String),
}

/// Events the process host's reader loop or the emulation engine push
/// toward the session, in the order they were produced.
#[derive(Clone, Debug, PartialEq, Eq)]
pub enum SessionEvent {
    /// The grid changed.
    Wakeup,
    /// The bell character was received.
    Bell,
    /// The subprocess changed the window title.
    TitleChanged,
    /// End of stream or subprocess exit.
    CloseRequested,
    /// The engine asks for bytes to be written back to the subprocess
    /// (for example a report the subprocess requested).
    RawWrite(Vec<u8>),
}

/// Why creating a session failed. Fatal to session creation and
/// surfaced to the caller; nothing here is retried. A failed write is
/// never an error: a write to a dead subprocess is an ordinary exit
/// signal.
#[derive(Clone, Copy, Debug, PartialEq, Eq, Structural)]
pub enum SpawnError {
    /// The requested working directory does not exist.
    InvalidWorkingDirectory,
    /// The operating system failed to allocate a pseudo-terminal.
    PtyAllocationFailed,
    /// The requested program was not found.
    ProgramNotFound,
}

impl SpawnError {
    /// A short description of the failure.
    pub fn message(&self) -> (r: &'static str)
        ensures
            match *self {
                SpawnError::InvalidWorkingDirectory => r@ == "working directory does not exist"@,
                SpawnError::PtyAllocationFailed => r@ == "failed to allocate a pseudo-terminal"@,
                SpawnError::ProgramNotFound => r@ == "program not found"@,
            },
    {
        match self {
            SpawnError::InvalidWorkingDirectory => "working directory does not exist",
            SpawnError::PtyAllocationFailed => "failed to allocate a pseudo-terminal",
            SpawnError::ProgramNotFound => "program not found",
        }
    }
}

/// The pointer button of a mouse event.
#[derive(Clone, Copy, Debug, PartialEq, Eq, Structural)]
pub enum MouseButton {
    Left,
    Right,
    Middle,
}

/// A scroll request against the view's display offset.
#[derive(Clone, Copy, Debug, PartialEq, Eq, Structural)]
pub enum ScrollRequest {
    /// Scroll by this many lines (positive is toward history).
    Delta(i32),
    PageUp,
    PageDown,
    /// To the top of the scrollback.
    Top,
    /// To the live position.
    Bottom,
}

/// Operations queued against the engine, applied under its lock at the
/// next sync so that they never race a concurrent output-driven reflow.
#[derive(Clone, Copy, Debug, PartialEq, Eq, Structural)]
pub enum InternalEvent {
    /// Clear the screen.
    Clear,
    /// Move the display offset.
    Scroll(ScrollRequest),
}

/// What the owner must do after handing one `SessionEvent` to the
/// session: forward an event, re-sync the snapshot, or stop consuming.
#[derive(Clone, Debug, PartialEq, Eq)]
pub struct EventAction {
    /// An event to surface to the owner, if any.
    pub emit: Option<Event>,
    /// Whether a fresh snapshot must be synced before the next render.
    pub needs_sync: bool,
    /// Whether the consumer should stop after this event.
    pub stop: bool,
}

} // verus!
