//! The host command model: one value per imperative command the
//! terminal-multiplexing host can be asked to run.
//!
//! The orchestrator never talks to the host itself: it returns an ordered
//! plan of `HostCall` values, and the surrounding program executes them in
//! exactly that order. Every call carries the full name it targets, so no
//! step depends on the host's implicit "most recent session or window"
//! context.

use vstd::prelude::*;

verus! {

/// One command for the terminal-multiplexing host.
pub enum HostCall {
    /// Create a session named `session`, detached (the caller keeps the
    /// terminal), with one initial window named `window`.
    CreateSession { session: String, window: String },
    /// Create one more window named `window` in the session the plan is
    /// building.
    CreateWindow { window: String },
    /// Type `text` into the window just created, then press the host's own
    /// Enter key as a second, distinct key event.
    SendKeys { text: String },
    /// Transfer terminal control to the live session named `session`.
    AttachSession { session: String },
}

/// Mathematical image of a `HostCall`.
#[verifier::ext_equal]
pub enum HostCallView {
    CreateSession { session: Seq<char>, window: Seq<char> },
    CreateWindow { window: Seq<char> },
    SendKeys { text: Seq<char> },
    AttachSession { session: Seq<char> },
}

impl View for HostCall {
    type V = HostCallView;

    open spec fn view(&self) -> HostCallView {
        match self {
            HostCall::CreateSession { session, window } => HostCallView::CreateSession {
                session: session@,
                window: window@,
            },
            HostCall::CreateWindow { window } => HostCallView::CreateWindow { window: window@ },
            HostCall::SendKeys { text } => HostCallView::SendKeys { text: text@ },
            HostCall::AttachSession { session } => HostCallView::AttachSession {
                session: session@,
            },
        }
    }
}

/// The views of a plan's calls, elementwise and in order.
pub open spec fn plan_view(p: Seq<HostCall>) -> Seq<HostCallView> {
    p.map_values(|c: HostCall| c@)
}

} // verus!
