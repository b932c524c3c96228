//! Platform event-source support: the decisions the per-platform loop
//! drivers take, separated from the OS calls that surround them.
//!
//! The drivers themselves block on X11 sockets, compositor IPC streams or
//! foreground-window polls; every decision they take between those waits is
//! a function here, with a contract.

use vstd::prelude::*;
use core::sync::atomic::{AtomicBool, Ordering};
use crate::state::WindowIdentity;

verus! {

broadcast use vstd::string::group_string_axioms;

/// Per-platform focus tracker implementation selected at startup.
#[derive(Debug, Clone)]
pub struct ImplFocusTracker {}

impl ImplFocusTracker {
    /// Create the platform tracker implementation.
    pub fn new() -> (r: Self)
        ensures
            r == (ImplFocusTracker {  }),
    {
        ImplFocusTracker {  }
    }
}

/// Whether a cooperative stop was requested. With no stop signal supplied
/// the loop can never be asked to stop; with one, the result is whatever the
/// flag's owner last stored.
pub fn should_stop(stop_signal: Option<&AtomicBool>) -> (r: bool)
    ensures
        stop_signal is None ==> r == false,
{
    match stop_signal {
        Some(stop) => stop.load(Ordering::Acquire),
        None => false,
    }
}

/// What one iteration of the cooperative-poll discipline does next.
#[derive(Debug, PartialEq, Eq, Structural)]
pub enum PollDirective {
    /// The cancellation flag was observed set: exit the loop cleanly.
    Stop,
    /// Something is pending: hand it on.
    HandleEvent,
    /// Nothing pending: sleep one poll interval, then check again.
    Sleep,
}

/// One decision of the cooperative-poll discipline: the cancellation flag
/// wins over pending work, so a requested stop is acted on before any
/// further wait — the loop sleeps at most one poll interval between two
/// checks, which bounds cancellation latency by the poll interval plus
/// processing time.
pub fn poll_directive(stop_requested: bool, event_pending: bool) -> (r: PollDirective)
    ensures
        r is Stop <==> stop_requested,
        r is HandleEvent <==> (!stop_requested && event_pending),
        r is Sleep <==> (!stop_requested && !event_pending),
{
    if stop_requested {
        PollDirective::Stop
    } else if event_pending {
        PollDirective::HandleEvent
    } else {
        PollDirective::Sleep
    }
}

/// What a compositor IPC driver does after a stream error.
#[derive(Debug, PartialEq, Eq, Structural)]
pub enum StreamErrorAction {
    /// Re-establish the connection and resubscribe.
    Reconnect,
    /// Abandon reconnection and exit the loop cleanly.
    Exit,
}

/// Decide how to react to a compositor event-stream error: reconnect
/// transparently, unless a stop was requested, in which case reconnection is
/// abandoned and the loop exits cleanly.
pub fn on_stream_error(stop_requested: bool) -> (r: StreamErrorAction)
    ensures
        r is Exit <==> stop_requested,
{
    if stop_requested {
        StreamErrorAction::Exit
    } else {
        StreamErrorAction::Reconnect
    }
}

/// What a property-change notification means for focus tracking.
#[derive(Debug, PartialEq, Eq, Structural)]
pub enum PropertyEventClass {
    /// The root window's active-window property changed: the focused
    /// window changed.
    ActiveWindowChange,
    /// The name property of the currently monitored window changed.
    TitleChange,
    /// Any other property change, including a stale name notification for
    /// a window no longer monitored: ignored.
    Ignore,
}

/// Classify a property-change notification by its atom and window: an
/// active-window change is a change of the active-window property on the
/// root window; a title change is a change of the name property on exactly
/// the currently monitored window — a stale notification for a
/// just-deselected window is ignored.
pub fn classify_property_event(
    atom: u32,
    window: u32,
    root: u32,
    net_active_window: u32,
    net_wm_name: u32,
    monitored: Option<u32>,
) -> (r: PropertyEventClass)
    ensures
        r is ActiveWindowChange <==> (atom == net_active_window && window == root),
        r is TitleChange <==> (!(atom == net_active_window && window == root) && atom
            == net_wm_name && monitored == Some(window)),
        r is Ignore <==> (!(atom == net_active_window && window == root) && !(atom == net_wm_name
            && monitored == Some(window))),
{
    let is_monitored = match monitored {
        Some(w) => w == window,
        None => false,
    };
    if atom == net_active_window && window == root {
        PropertyEventClass::ActiveWindowChange
    } else if atom == net_wm_name && is_monitored {
        PropertyEventClass::TitleChange
    } else {
        PropertyEventClass::Ignore
    }
}

/// Assemble a window identity from the plain fields a compositor event
/// carries: title, application id and process id (a negative process id is
/// reinterpreted the way a plain cast does).
pub fn identity_from_compositor(
    name: Option<String>,
    app_id: Option<String>,
    pid: Option<i32>,
) -> (r: WindowIdentity)
    ensures
        r.process_id == match pid {
            Some(p) => Some(p as u32),
            None => None::<u32>,
        },
        r@.process_name == crate::focused_window::opt_str_view(app_id),
        r@.window_title == crate::focused_window::opt_str_view(name),
{
    let process_id = match pid {
        Some(p) => Some(p as u32),
        None => None,
    };
    WindowIdentity { process_id, process_name: app_id, window_title: name }
}

/// Assemble a window identity from the results of the per-window property
/// queries, degrading gracefully: a failed title query becomes the
/// placeholder title, a failed process query a placeholder name with no
/// process id. The icon is fetched separately, so it is absent here.
pub fn identity_from_parts(
    window_title: Option<String>,
    process: Option<(u32, String)>,
) -> (r: WindowIdentity)
    ensures
        r@.window_title == Some(
            match window_title {
                Some(t) => t@,
                None => "<unknown title>"@,
            },
        ),
        match process {
            Some((p, n)) => r.process_id == Some(p) && r@.process_name == Some(n@),
            None => r.process_id is None && r@.process_name == Some("<unknown>"@),
        },
{
    let title = match window_title {
        Some(t) => t,
        None => "<unknown title>".to_string(),
    };
    let (process_id, process_name) = match process {
        Some((p, n)) => (Some(p), Some(n)),
        None => (None, Some("<unknown>".to_string())),
    };
    WindowIdentity { process_id, process_name, window_title: Some(title) }
}

} // verus!
