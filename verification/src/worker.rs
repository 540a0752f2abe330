//! The requests that the user interface hands to the worker.
//!
//! Everything that touches another process is done by one worker, which
//! takes requests from a queue and serves them one after the other, in the
//! order in which they were made. What the requests are is decided here;
//! the queue and the thread belong to the program.

use crate::injector::{Injector, Phase, Plan};
use crate::window::{records, WindowInfo, WindowRecord};
use vstd::prelude::*;

verus! {

/// A request to the worker.
#[derive(Clone, Copy, Debug, PartialEq, Eq)]
pub enum InjectorWorkerEvent {
    /// List the windows anew.
    Update,
    /// Hide or show one window: the id of its process, its handle, whether
    /// to hide it from captures, and whether to hide it from the taskbar
    /// (`None` leaves the taskbar alone).
    PerformOp(u32, u32, bool, Option<bool>),
}

/// The request that follows when the user ticks or unticks a window. The
/// record holds the state asked for in `hidden`, and the taskbar follows it
/// where the user has chosen so.
pub open spec fn visibility_request_of(
    window: WindowRecord,
    hide_from_taskbar: bool,
) -> InjectorWorkerEvent {
    InjectorWorkerEvent::PerformOp(
        window.pid,
        window.hwnd,
        window.hidden,
        if hide_from_taskbar {
            Some(window.hidden)
        } else {
            None
        },
    )
}

/// The requests that follow when the user changes the taskbar choice: one
/// for each hidden window, in listing order, that hides it again with the
/// new choice. Windows that show are left alone.
pub open spec fn taskbar_requests_of(listed: Seq<WindowRecord>, hide_from_taskbar: bool) -> Seq<
    InjectorWorkerEvent,
>
    decreases listed.len(),
{
    if listed.len() == 0 {
        Seq::empty()
    } else {
        let before = taskbar_requests_of(listed.drop_last(), hide_from_taskbar);
        let window = listed.last();
        if window.hidden {
            before.push(
                InjectorWorkerEvent::PerformOp(
                    window.pid,
                    window.hwnd,
                    true,
                    Some(hide_from_taskbar),
                ),
            )
        } else {
            before
        }
    }
}

/// Makes the request for a window that the user has just ticked or
/// unticked; `window.hidden` is the state asked for.
pub fn visibility_request(window: &WindowInfo, hide_from_taskbar: bool) -> (event:
    InjectorWorkerEvent)
    ensures
        event == visibility_request_of(window@, hide_from_taskbar),
{
    let taskbar = if hide_from_taskbar {
        Some(window.hidden)
    } else {
        None
    };
    InjectorWorkerEvent::PerformOp(window.pid, window.hwnd, window.hidden, taskbar)
}

/// Makes the requests that bring the hidden windows in line with a new
/// taskbar choice.
pub fn handle_hide_on_taskbar_change(windows: &Vec<WindowInfo>, hide_from_taskbar: bool) -> (events:
    Vec<InjectorWorkerEvent>)
    ensures
        events@ == taskbar_requests_of(records(windows@), hide_from_taskbar),
{
    let mut events: Vec<InjectorWorkerEvent> = Vec::new();
    let mut i: usize = 0;
    while i < windows.len()
        invariant
            i <= windows.len(),
            events@ == taskbar_requests_of(records(windows@).take(i as int), hide_from_taskbar),
        decreases windows.len() - i,
    {
        proof {
            let listed = records(windows@);
            assert(listed.take(i + 1).drop_last() == listed.take(i as int));
            assert(listed.take(i + 1).last() == windows@[i as int]@);
        }
        if windows[i].hidden {
            events.push(
                InjectorWorkerEvent::PerformOp(
                    windows[i].pid,
                    windows[i].hwnd,
                    true,
                    Some(hide_from_taskbar),
                ),
            );
        }
        i += 1;
    }
    assert(records(windows@).take(i as int) == records(windows@));
    events
}

impl InjectorWorkerEvent {
    /// Starts what the worker does for the request: nothing in another
    /// process for [`InjectorWorkerEvent::Update`], and for a request on a
    /// window the steps that begin with opening its process.
    pub fn injector(&self, development: bool) -> (injector: Option<Injector>)
        ensures
            match *self {
                InjectorWorkerEvent::Update => injector is None,
                InjectorWorkerEvent::PerformOp(pid, hwnd, hide, hide_from_taskbar) => {
                    &&& injector is Some
                    &&& injector->0.plan() == (Plan {
                        hwnds: seq![hwnd],
                        hide,
                        hide_from_taskbar,
                        development,
                    })
                    &&& injector->0.phase() == (Phase::Opening { pid })
                },
            },
    {
        match *self {
            InjectorWorkerEvent::Update => None,
            InjectorWorkerEvent::PerformOp(pid, hwnd, hide, hide_from_taskbar) => Some(
                Injector::set_window_props_with_pid(pid, hwnd, hide, hide_from_taskbar, development),
            ),
        }
    }
}

} // verus!
