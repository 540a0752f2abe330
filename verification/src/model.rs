//! A live target process as specifications see it, and what requests do to
//! it.
//!
//! [`Target`] stands for a process on which every step goes through: it
//! answers each step of a request as a healthy process does, and keeps count
//! of what was done to it. Running a request against it shows what the
//! request as a whole achieves.

use crate::error::Error;
use crate::injector::{
    action_of, flag_for, next_phase, steps_left, window_phase, Action, Phase, Plan, Procedure,
    Reply,
};
use crate::payload::{
    excluded, law_taskbar_is_idempotent, taskbar_set, visibility_set, WindowState, WDA_NONE,
};
use vstd::prelude::*;

verus! {

/// One call of an entry point of the module.
pub ghost struct RemoteCall {
    pub procedure: Procedure,
    pub hwnd: u32,
    pub flag: bool,
}

/// A live process and its windows.
pub ghost struct Target {
    /// Whether the process runs under WOW64.
    pub wow64: bool,
    /// Whether the process is a 32-bit one.
    pub x86: bool,
    /// Whether the module is loaded in it.
    pub resident: bool,
    /// How often a module was loaded into it.
    pub injections: nat,
    /// The attributes of its windows, by handle.
    pub windows: Map<u32, WindowState>,
    /// The calls made in it, in order.
    pub calls: Seq<RemoteCall>,
}

/// What a call returns in a process with these windows: whether the window
/// is there and took the affinity, or let its style be read.
pub open spec fn call_result(windows: Map<u32, WindowState>, call: RemoteCall) -> bool {
    windows.contains_key(call.hwnd) && match call.procedure {
        Procedure::SetVisibility => windows[call.hwnd].takes_affinity,
        Procedure::SetTaskbarVisibility => windows[call.hwnd].ex_style is Some,
    }
}

/// The windows after a call. A call for a window that is not there changes
/// nothing.
pub open spec fn after_call(windows: Map<u32, WindowState>, call: RemoteCall) -> Map<
    u32,
    WindowState,
> {
    if windows.contains_key(call.hwnd) {
        windows.insert(
            call.hwnd,
            match call.procedure {
                Procedure::SetVisibility => visibility_set(windows[call.hwnd], call.flag),
                Procedure::SetTaskbarVisibility => taskbar_set(windows[call.hwnd], call.flag),
            },
        )
    } else {
        windows
    }
}

/// The windows after a run of calls.
pub open spec fn after_calls(windows: Map<u32, WindowState>, calls: Seq<RemoteCall>) -> Map<
    u32,
    WindowState,
>
    decreases calls.len(),
{
    if calls.len() == 0 {
        windows
    } else {
        after_call(after_calls(windows, calls.drop_last()), calls.last())
    }
}

/// How the target answers a step, and what the step leaves of it.
pub open spec fn respond(target: Target, action: Action) -> (Reply, Target) {
    match action {
        Action::OpenProcess { .. } => (Reply::Done, target),
        Action::QueryWow64 => (Reply::Flag(target.wow64), target),
        Action::QueryArchitecture => (Reply::Flag(target.x86), target),
        Action::FindModule { .. } => (Reply::Flag(target.resident), target),
        Action::InjectModule { .. } => (
            Reply::Done,
            Target { resident: true, injections: target.injections + 1, ..target },
        ),
        Action::ResolveProcedure { .. } => (Reply::Flag(true), target),
        Action::Invoke { procedure, hwnd, flag } => {
            let call = RemoteCall { procedure, hwnd, flag };
            (
                Reply::Flag(call_result(target.windows, call)),
                Target {
                    windows: after_call(target.windows, call),
                    calls: target.calls.push(call),
                    ..target
                },
            )
        },
        Action::Finished => (Reply::Done, target),
    }
}

/// Runs a request from `phase` to its end against the target.
pub open spec fn run(plan: Plan, phase: Phase, target: Target) -> (Phase, Target)
    decreases steps_left(plan, phase),
{
    if phase is Finished {
        (phase, target)
    } else {
        let (reply, after) = respond(target, action_of(plan, phase));
        run(plan, next_phase(plan, phase, reply), after)
    }
}

/// The calls that a request makes for one window: visibility first, then
/// the taskbar where the request speaks of it.
pub open spec fn window_calls(plan: Plan, hwnd: u32) -> Seq<RemoteCall> {
    let visibility = RemoteCall {
        procedure: Procedure::SetVisibility,
        hwnd,
        flag: flag_for(plan, Procedure::SetVisibility),
    };
    if plan.hide_from_taskbar is Some {
        seq![
            visibility,
            RemoteCall {
                procedure: Procedure::SetTaskbarVisibility,
                hwnd,
                flag: flag_for(plan, Procedure::SetTaskbarVisibility),
            },
        ]
    } else {
        seq![visibility]
    }
}

/// The calls that a request makes for its windows from `index` on, window
/// by window.
pub open spec fn calls_from(plan: Plan, index: int) -> Seq<RemoteCall>
    decreases plan.hwnds.len() - index,
{
    if 0 <= index < plan.hwnds.len() {
        window_calls(plan, plan.hwnds[index]) + calls_from(plan, index + 1)
    } else {
        Seq::empty()
    }
}

/// What a request that starts by opening the process leaves of a target.
pub open spec fn carried_out(plan: Plan, pid: u32, target: Target) -> (Phase, Target) {
    run(plan, Phase::Opening { pid }, target)
}

/// The request for one window.
pub open spec fn request(
    hwnd: u32,
    hide: bool,
    hide_from_taskbar: Option<bool>,
    development: bool,
) -> Plan {
    Plan { hwnds: seq![hwnd], hide, hide_from_taskbar, development }
}

/// The target after a request that went through: the module is loaded, one
/// more load is counted where it was not there before, and the calls were
/// made.
pub open spec fn served(plan: Plan, target: Target) -> Target {
    Target {
        resident: true,
        injections: if target.resident {
            target.injections
        } else {
            target.injections + 1
        },
        windows: after_calls(target.windows, calls_from(plan, 0)),
        calls: target.calls + calls_from(plan, 0),
        ..target
    }
}

/// Calls made in two runs leave the windows as the calls made in one.
pub proof fn lemma_after_calls_concat(
    windows: Map<u32, WindowState>,
    first: Seq<RemoteCall>,
    second: Seq<RemoteCall>,
)
    ensures
        after_calls(windows, first + second) == after_calls(after_calls(windows, first), second),
    decreases second.len(),
{
    if second.len() == 0 {
        assert(first + second == first);
    } else {
        assert((first + second).drop_last() == first + second.drop_last());
        assert((first + second).last() == second.last());
        lemma_after_calls_concat(windows, first, second.drop_last());
    }
}

/// The calls for one window leave the windows as the visibility call and,
/// where the request speaks of the taskbar, the taskbar call after it.
pub proof fn lemma_after_window_calls(windows: Map<u32, WindowState>, plan: Plan, hwnd: u32)
    ensures
        after_calls(windows, window_calls(plan, hwnd)) == ({
            let shown = after_call(
                windows,
                RemoteCall { procedure: Procedure::SetVisibility, hwnd, flag: plan.hide },
            );
            if plan.hide_from_taskbar is Some {
                after_call(
                    shown,
                    RemoteCall {
                        procedure: Procedure::SetTaskbarVisibility,
                        hwnd,
                        flag: flag_for(plan, Procedure::SetTaskbarVisibility),
                    },
                )
            } else {
                shown
            }
        }),
{
    let calls = window_calls(plan, hwnd);
    reveal_with_fuel(after_calls, 3);
    if plan.hide_from_taskbar is Some {
        assert(calls.drop_last() == seq![calls[0]]);
        assert(calls.drop_last().drop_last() == Seq::<RemoteCall>::empty());
    } else {
        assert(calls.drop_last() == Seq::<RemoteCall>::empty());
    }
}

/// From the first call for the window at `index` on, a request against a
/// live target makes the calls of [`calls_from`], in that order and no
/// others, and ends well.
pub proof fn lemma_calls_are_made(plan: Plan, index: int, target: Target)
    requires
        0 <= index <= plan.hwnds.len() <= usize::MAX,
    ensures
        run(plan, window_phase(plan, index), target) == (
            Phase::Finished { result: Ok(()) },
            Target {
                windows: after_calls(target.windows, calls_from(plan, index)),
                calls: target.calls + calls_from(plan, index),
                ..target
            },
        ),
    decreases plan.hwnds.len() - index,
{
    if index == plan.hwnds.len() {
        assert(target.calls + calls_from(plan, index) == target.calls);
    } else {
        let hwnd = plan.hwnds[index];
        let phase = window_phase(plan, index);
        let here = window_calls(plan, hwnd);
        let (reply, shown) = respond(target, action_of(plan, phase));
        let after = if plan.hide_from_taskbar is Some {
            let second = next_phase(plan, phase, reply);
            assert(second == Phase::Invoking {
                index: index as usize,
                procedure: Procedure::SetTaskbarVisibility,
            });
            respond(shown, action_of(plan, second)).1
        } else {
            shown
        };
        assert(run(plan, phase, target) == run(plan, window_phase(plan, index + 1), after)) by {
            reveal_with_fuel(run, 3);
        }
        lemma_after_window_calls(target.windows, plan, hwnd);
        assert(after.windows == after_calls(target.windows, here));
        assert(after.calls == target.calls + here);
        lemma_calls_are_made(plan, index + 1, after);
        lemma_after_calls_concat(target.windows, here, calls_from(plan, index + 1));
        assert(target.calls + here + calls_from(plan, index + 1) == target.calls + calls_from(
            plan,
            index,
        ));
    }
}

/// A request against a live target ends well. On the way the module is
/// loaded if and only if it was not there, both entry points are resolved,
/// and the calls of the request are made, in order and no others.
pub proof fn law_request_is_served(plan: Plan, pid: u32, target: Target)
    requires
        plan.hwnds.len() <= usize::MAX,
    ensures
        carried_out(plan, pid, target) == (
            Phase::Finished { result: Ok::<(), Error>(()) },
            served(plan, target),
        ),
{
    let loaded = Target {
        resident: true,
        injections: if target.resident {
            target.injections
        } else {
            target.injections + 1
        },
        ..target
    };
    assert(run(plan, Phase::Opening { pid }, target) == run(plan, window_phase(plan, 0), loaded))
        by {
        reveal_with_fuel(run, 8);
    }
    lemma_calls_are_made(plan, 0, loaded);
}

/// The calls of a request for one window: the visibility call and, where
/// the request speaks of the taskbar, the taskbar call, which is told to
/// show the window where the request says not to hide it there.
pub proof fn lemma_one_window_calls(
    hwnd: u32,
    hide: bool,
    hide_from_taskbar: Option<bool>,
    development: bool,
)
    ensures
        calls_from(request(hwnd, hide, hide_from_taskbar, development), 0) == window_calls(
            request(hwnd, hide, hide_from_taskbar, development),
            hwnd,
        ),
        hide_from_taskbar matches Some(off) ==> window_calls(
            request(hwnd, hide, hide_from_taskbar, development),
            hwnd,
        ) == seq![
            RemoteCall { procedure: Procedure::SetVisibility, hwnd, flag: hide },
            RemoteCall { procedure: Procedure::SetTaskbarVisibility, hwnd, flag: !off },
        ],
        hide_from_taskbar is None ==> window_calls(
            request(hwnd, hide, hide_from_taskbar, development),
            hwnd,
        ) == seq![RemoteCall { procedure: Procedure::SetVisibility, hwnd, flag: hide }],
{
    let plan = request(hwnd, hide, hide_from_taskbar, development);
    reveal_with_fuel(calls_from, 2);
    assert(window_calls(plan, hwnd) + Seq::<RemoteCall>::empty() == window_calls(plan, hwnd));
}

/// Two requests in a row on one process load the module once at most: the
/// first loads it if it is not there, and the second finds it.
pub proof fn law_module_is_loaded_once(first: Plan, second: Plan, pid: u32, target: Target)
    requires
        first.hwnds.len() <= usize::MAX,
        second.hwnds.len() <= usize::MAX,
    ensures
        ({
            let after_first = carried_out(first, pid, target).1;
            let after_second = carried_out(second, pid, after_first).1;
            &&& after_first.resident
            &&& after_first.injections <= target.injections + 1
            &&& target.resident ==> after_first.injections == target.injections
            &&& after_second.injections == after_first.injections
        }),
{
    law_request_is_served(first, pid, target);
    law_request_is_served(second, pid, served(first, target));
}

/// Hiding a window that is hidden changes nothing, and no more does showing
/// one that shows: a request made twice leaves every window as the request
/// made once.
pub proof fn law_repeated_request_changes_nothing(
    hwnd: u32,
    hide: bool,
    hide_from_taskbar: Option<bool>,
    development: bool,
    pid: u32,
    target: Target,
)
    ensures
        ({
            let plan = request(hwnd, hide, hide_from_taskbar, development);
            let once = carried_out(plan, pid, target).1;
            let twice = carried_out(plan, pid, once).1;
            &&& twice.windows == once.windows
            &&& target.windows.contains_key(hwnd) && target.windows[hwnd].takes_affinity ==> (
            excluded(once.windows[hwnd]) <==> hide)
            &&& target.windows.contains_key(hwnd) && target.windows[hwnd].takes_affinity ==> (
            excluded(twice.windows[hwnd]) <==> hide)
        }),
{
    let plan = request(hwnd, hide, hide_from_taskbar, development);
    let once = served(plan, target);
    law_request_is_served(plan, pid, target);
    law_request_is_served(plan, pid, once);
    lemma_one_window_calls(hwnd, hide, hide_from_taskbar, development);
    lemma_after_window_calls(target.windows, plan, hwnd);
    lemma_after_window_calls(once.windows, plan, hwnd);
    if target.windows.contains_key(hwnd) {
        let shown = visibility_set(target.windows[hwnd], hide);
        law_taskbar_is_idempotent(shown, flag_for(plan, Procedure::SetTaskbarVisibility));
    }
    assert(served(plan, once).windows =~= once.windows);
}

/// Hiding a window and then showing it brings back the display affinity
/// that it had, where captures showed the window to begin with. In between
/// captures leave the window out, if it takes the affinity at all.
pub proof fn law_show_undoes_hide(
    hwnd: u32,
    taskbar_when_hiding: Option<bool>,
    taskbar_when_showing: Option<bool>,
    development: bool,
    pid: u32,
    target: Target,
)
    requires
        target.windows.contains_key(hwnd),
        target.windows[hwnd].affinity == WDA_NONE,
    ensures
        ({
            let hide = request(hwnd, true, taskbar_when_hiding, development);
            let show = request(hwnd, false, taskbar_when_showing, development);
            let hidden = carried_out(hide, pid, target).1;
            let shown = carried_out(show, pid, hidden).1;
            &&& excluded(hidden.windows[hwnd]) <==> target.windows[hwnd].takes_affinity
            &&& shown.windows[hwnd].affinity == target.windows[hwnd].affinity
            &&& !excluded(shown.windows[hwnd])
            &&& taskbar_when_hiding is None && taskbar_when_showing is None ==> shown.windows
                == target.windows
        }),
{
    let hide = request(hwnd, true, taskbar_when_hiding, development);
    let show = request(hwnd, false, taskbar_when_showing, development);
    let hidden = served(hide, target);
    law_request_is_served(hide, pid, target);
    law_request_is_served(show, pid, hidden);
    lemma_one_window_calls(hwnd, true, taskbar_when_hiding, development);
    lemma_one_window_calls(hwnd, false, taskbar_when_showing, development);
    lemma_after_window_calls(target.windows, hide, hwnd);
    lemma_after_window_calls(hidden.windows, show, hwnd);
    if taskbar_when_hiding is None && taskbar_when_showing is None {
        assert(served(show, hidden).windows =~= target.windows);
    }
}

/// What is left of a target when a request has been carried out `times`
/// times in a row.
pub open spec fn repeated(plan: Plan, pid: u32, target: Target, times: nat) -> Target
    decreases times,
{
    if times == 0 {
        target
    } else {
        carried_out(plan, pid, repeated(plan, pid, target, (times - 1) as nat)).1
    }
}

/// However often a request for one window is repeated, the windows are
/// left as the first time left them.
pub proof fn law_request_is_idempotent(
    hwnd: u32,
    hide: bool,
    hide_from_taskbar: Option<bool>,
    development: bool,
    pid: u32,
    target: Target,
    times: nat,
)
    requires
        times >= 1,
    ensures
        repeated(request(hwnd, hide, hide_from_taskbar, development), pid, target, times).windows
            == carried_out(
            request(hwnd, hide, hide_from_taskbar, development),
            pid,
            target,
        ).1.windows,
    decreases times,
{
    let plan = request(hwnd, hide, hide_from_taskbar, development);
    reveal_with_fuel(repeated, 2);
    if times >= 2 {
        let earlier = repeated(plan, pid, target, (times - 2) as nat);
        law_request_is_idempotent(
            hwnd,
            hide,
            hide_from_taskbar,
            development,
            pid,
            target,
            (times - 1) as nat,
        );
        law_repeated_request_changes_nothing(
            hwnd,
            hide,
            hide_from_taskbar,
            development,
            pid,
            earlier,
        );
    }
}

} // verus!
