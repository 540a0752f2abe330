use invisiwind::error::{Error, Failure};
use invisiwind::injector::{
    failure_error, set_window_props, set_window_props_with_pid, Action, Injector, PayloadBuild,
    Phase, Procedure, Reply,
};
use invisiwind::payload::{SetWindowVisibility, ShowOnTaskBar, WindowState};

/// A stand-in for the operating system and one target process.
struct Process {
    pid: u32,
    denied: bool,
    wow64: bool,
    x86: bool,
    resident: bool,
    loadable: bool,
    exports: Vec<Procedure>,
    dispatch: bool,
    windows: Vec<(u32, WindowState)>,
    injections: u32,
    actions: Vec<Action>,
    calls: Vec<(Procedure, u32, bool, bool)>,
}

fn live(pid: u32, windows: Vec<(u32, WindowState)>) -> Process {
    Process {
        pid,
        denied: false,
        wow64: false,
        x86: false,
        resident: false,
        loadable: true,
        exports: vec![Procedure::SetVisibility, Procedure::SetTaskbarVisibility],
        dispatch: true,
        windows,
        injections: 0,
        actions: Vec::new(),
        calls: Vec::new(),
    }
}

fn plain_window() -> WindowState {
    WindowState { affinity: 0, ex_style: Some(0x100), takes_affinity: true }
}

fn serve(process: &mut Process, action: Action) -> Reply {
    process.actions.push(action);
    match action {
        Action::OpenProcess { pid } => {
            if process.denied {
                Reply::Failed(Failure::Denied)
            } else if pid != process.pid {
                Reply::Failed(Failure::Unavailable)
            } else {
                Reply::Done
            }
        }
        Action::QueryWow64 => Reply::Flag(process.wow64),
        Action::QueryArchitecture => Reply::Flag(process.x86),
        Action::FindModule { .. } => Reply::Flag(process.resident),
        Action::InjectModule { .. } => {
            if process.loadable {
                process.injections += 1;
                process.resident = true;
                Reply::Done
            } else {
                Reply::Failed(Failure::Unavailable)
            }
        }
        Action::ResolveProcedure { procedure } => Reply::Flag(process.exports.contains(&procedure)),
        Action::Invoke { procedure, hwnd, flag } => {
            if !process.dispatch {
                return Reply::Failed(Failure::Unavailable);
            }
            let mut returned = false;
            for (handle, state) in process.windows.iter_mut() {
                if *handle == hwnd {
                    returned = match procedure {
                        Procedure::SetVisibility => SetWindowVisibility(state, flag),
                        Procedure::SetTaskbarVisibility => ShowOnTaskBar(state, flag),
                    };
                }
            }
            process.calls.push((procedure, hwnd, flag, returned));
            Reply::Flag(returned)
        }
        Action::Finished => unreachable!(),
    }
}

fn run(mut injector: Injector, process: &mut Process) -> Result<(), Error> {
    loop {
        if let Some(result) = injector.result() {
            assert_eq!(injector.action(), Action::Finished);
            return result;
        }
        let reply = serve(process, injector.action());
        injector.advance(reply);
    }
}

fn hide_request(pid: u32, hwnd: u32, taskbar: Option<bool>) -> Injector {
    Injector::set_window_props_with_pid(pid, hwnd, true, taskbar, false)
}

fn show_request(pid: u32, hwnd: u32, taskbar: Option<bool>) -> Injector {
    Injector::set_window_props_with_pid(pid, hwnd, false, taskbar, false)
}

fn state_of(process: &Process, hwnd: u32) -> WindowState {
    process.windows.iter().find(|(handle, _)| *handle == hwnd).unwrap().1
}

#[test]
fn hide_with_taskbar_makes_exactly_two_remote_calls() {
    let h = 0x000A_0B0C;
    let mut process = live(1234, vec![(h, plain_window())]);
    assert_eq!(run(hide_request(1234, h, Some(true)), &mut process), Ok(()));
    assert_eq!(
        process.calls,
        vec![
            (Procedure::SetVisibility, h, true, true),
            (Procedure::SetTaskbarVisibility, h, false, true),
        ]
    );
}

#[test]
fn hide_runs_the_steps_in_order() {
    let mut process = live(1234, vec![(7, plain_window())]);
    assert_eq!(run(hide_request(1234, 7, Some(true)), &mut process), Ok(()));
    assert_eq!(
        process.actions,
        vec![
            Action::OpenProcess { pid: 1234 },
            Action::QueryArchitecture,
            Action::FindModule { build: PayloadBuild::X64 },
            Action::InjectModule { build: PayloadBuild::X64 },
            Action::ResolveProcedure { procedure: Procedure::SetVisibility },
            Action::ResolveProcedure { procedure: Procedure::SetTaskbarVisibility },
            Action::Invoke { procedure: Procedure::SetVisibility, hwnd: 7, flag: true },
            Action::Invoke { procedure: Procedure::SetTaskbarVisibility, hwnd: 7, flag: false },
        ]
    );
}

#[test]
fn request_without_taskbar_makes_one_call_per_window() {
    let mut process = live(50, vec![(1, plain_window()), (2, plain_window())]);
    process.resident = true;
    let injector = Injector::set_window_props(&[1, 2], true, None, false);
    assert_eq!(run(injector, &mut process), Ok(()));
    assert_eq!(
        process.calls,
        vec![(Procedure::SetVisibility, 1, true, true), (Procedure::SetVisibility, 2, true, true)]
    );
    assert_eq!(process.actions[0], Action::QueryArchitecture);
}

#[test]
fn several_windows_are_served_one_after_the_other() {
    let mut process = live(50, vec![(1, plain_window()), (2, plain_window())]);
    let injector = Injector::set_window_props(&[1, 2], false, Some(false), false);
    assert_eq!(run(injector, &mut process), Ok(()));
    assert_eq!(
        process.calls,
        vec![
            (Procedure::SetVisibility, 1, false, true),
            (Procedure::SetTaskbarVisibility, 1, true, true),
            (Procedure::SetVisibility, 2, false, true),
            (Procedure::SetTaskbarVisibility, 2, true, true),
        ]
    );
}

#[test]
fn request_without_windows_still_loads_the_module() {
    let mut process = live(50, Vec::new());
    let injector = Injector::set_window_props(&[], true, Some(true), false);
    assert_eq!(run(injector, &mut process), Ok(()));
    assert!(process.calls.is_empty());
    assert_eq!(process.injections, 1);
}

#[test]
fn two_hides_inject_the_module_once() {
    let mut process = live(1234, vec![(7, plain_window()), (8, plain_window())]);
    assert_eq!(run(hide_request(1234, 7, None), &mut process), Ok(()));
    assert_eq!(process.injections, 1);
    assert_eq!(run(hide_request(1234, 8, None), &mut process), Ok(()));
    assert_eq!(process.injections, 1);
    assert_eq!(run(hide_request(1234, 7, Some(true)), &mut process), Ok(()));
    assert_eq!(process.injections, 1);
}

#[test]
fn resident_module_is_reused() {
    let mut process = live(1234, vec![(7, plain_window())]);
    process.resident = true;
    assert_eq!(run(hide_request(1234, 7, None), &mut process), Ok(()));
    assert_eq!(process.injections, 0);
    assert!(!process.actions.iter().any(|a| matches!(a, Action::InjectModule { .. })));
}

#[test]
fn repeated_hide_leaves_the_same_state_as_one() {
    let mut process = live(1234, vec![(7, plain_window())]);
    run(hide_request(1234, 7, Some(true)), &mut process).unwrap();
    let once = state_of(&process, 7);
    assert_eq!(once.affinity, 0x11);
    run(hide_request(1234, 7, Some(true)), &mut process).unwrap();
    run(hide_request(1234, 7, Some(true)), &mut process).unwrap();
    assert_eq!(state_of(&process, 7), once);
}

#[test]
fn repeated_show_leaves_the_same_state_as_one() {
    let hidden = WindowState { affinity: 0x11, ex_style: Some(0x180), takes_affinity: true };
    let mut process = live(1234, vec![(7, hidden)]);
    run(show_request(1234, 7, Some(false)), &mut process).unwrap();
    let once = state_of(&process, 7);
    assert_eq!(once.affinity, 0);
    run(show_request(1234, 7, Some(false)), &mut process).unwrap();
    assert_eq!(state_of(&process, 7), once);
}

#[test]
fn show_after_hide_restores_the_display_state() {
    let untouched = plain_window();
    let mut process = live(1234, vec![(7, untouched)]);
    run(hide_request(1234, 7, None), &mut process).unwrap();
    assert_eq!(state_of(&process, 7).affinity, 0x11);
    run(show_request(1234, 7, None), &mut process).unwrap();
    assert_eq!(state_of(&process, 7), untouched);
}

#[test]
fn sixty_four_bit_target_gets_the_64_bit_build() {
    assert_eq!(PayloadBuild::select(false, false, false), PayloadBuild::X64);
    assert_eq!(PayloadBuild::X64.file_name(), "utils.dll");
    let mut process = live(1, vec![(7, plain_window())]);
    run(hide_request(1, 7, None), &mut process).unwrap();
    assert!(process.actions.contains(&Action::InjectModule { build: PayloadBuild::X64 }));
}

#[test]
fn thirty_two_bit_target_gets_the_32_bit_build() {
    assert_eq!(PayloadBuild::select(false, true, true), PayloadBuild::X86);
    assert_eq!(PayloadBuild::select(false, false, true), PayloadBuild::X86);
    assert_eq!(PayloadBuild::X86.file_name(), "utils32.dll");
    let mut process = live(1, vec![(7, plain_window())]);
    process.x86 = true;
    process.wow64 = true;
    run(hide_request(1, 7, None), &mut process).unwrap();
    assert!(process.actions.contains(&Action::FindModule { build: PayloadBuild::X86 }));
    assert!(process.actions.contains(&Action::InjectModule { build: PayloadBuild::X86 }));
    assert!(!process.actions.contains(&Action::QueryWow64));
}

#[test]
fn development_build_uses_the_development_tree_for_wow64_targets() {
    assert_eq!(PayloadBuild::select(true, true, true), PayloadBuild::DevelopmentX86);
    assert_eq!(PayloadBuild::select(true, false, true), PayloadBuild::X86);
    assert_eq!(PayloadBuild::select(true, false, false), PayloadBuild::X64);
    assert_eq!(
        PayloadBuild::DevelopmentX86.file_name(),
        "../i686-pc-windows-msvc/debug/utils.dll"
    );
    let mut process = live(1, vec![(7, plain_window())]);
    process.x86 = true;
    process.wow64 = true;
    let injector = Injector::set_window_props_with_pid(1, 7, true, None, true);
    run(injector, &mut process).unwrap();
    assert_eq!(
        process.actions[..3],
        [
            Action::OpenProcess { pid: 1 },
            Action::QueryWow64,
            Action::FindModule { build: PayloadBuild::DevelopmentX86 },
        ]
    );
}

#[test]
fn development_build_asks_the_architecture_of_other_targets() {
    let mut process = live(1, vec![(7, plain_window())]);
    let injector = Injector::set_window_props_with_pid(1, 7, true, None, true);
    run(injector, &mut process).unwrap();
    assert_eq!(
        process.actions[..4],
        [
            Action::OpenProcess { pid: 1 },
            Action::QueryWow64,
            Action::QueryArchitecture,
            Action::FindModule { build: PayloadBuild::X64 },
        ]
    );
}

#[test]
fn entry_points_have_their_export_names() {
    assert_eq!(Procedure::SetVisibility.symbol(), "SetWindowVisibility");
    assert_eq!(Procedure::SetTaskbarVisibility.symbol(), "ShowOnTaskBar");
}

#[test]
fn stale_process_id_is_process_not_found() {
    let mut process = live(1234, vec![(7, plain_window())]);
    assert_eq!(run(hide_request(4321, 7, None), &mut process), Err(Error::ProcessNotFound));
    assert_eq!(process.actions, vec![Action::OpenProcess { pid: 4321 }]);
}

#[test]
fn refused_open_is_access_denied() {
    let mut process = live(1234, vec![(7, plain_window())]);
    process.denied = true;
    assert_eq!(run(hide_request(1234, 7, None), &mut process), Err(Error::AccessDenied));
    assert_eq!(process.actions.len(), 1);
}

#[test]
fn failed_load_is_injection_failed() {
    let mut process = live(1234, vec![(7, plain_window())]);
    process.loadable = false;
    assert_eq!(run(hide_request(1234, 7, None), &mut process), Err(Error::InjectionFailed));
    assert!(process.calls.is_empty());
    assert!(matches!(process.actions.last(), Some(Action::InjectModule { .. })));
}

#[test]
fn missing_export_is_symbol_not_found() {
    let mut process = live(1234, vec![(7, plain_window())]);
    process.exports = vec![Procedure::SetVisibility];
    assert_eq!(
        run(hide_request(1234, 7, None), &mut process),
        Err(Error::SymbolNotFound(Procedure::SetTaskbarVisibility))
    );
    assert!(process.calls.is_empty());
    process.exports = vec![Procedure::SetTaskbarVisibility];
    assert_eq!(
        run(hide_request(1234, 7, None), &mut process),
        Err(Error::SymbolNotFound(Procedure::SetVisibility))
    );
    process.exports = Vec::new();
    assert_eq!(
        run(hide_request(1234, 7, None), &mut process),
        Err(Error::SymbolNotFound(Procedure::SetVisibility))
    );
    assert!(process.calls.is_empty());
}

#[test]
fn failed_dispatch_is_remote_call_failed() {
    let mut process = live(1234, vec![(7, plain_window()), (8, plain_window())]);
    process.dispatch = false;
    let injector = Injector::set_window_props(&[7, 8], true, Some(true), false);
    assert_eq!(run(injector, &mut process), Err(Error::RemoteCallFailed));
    let invokes = process.actions.iter().filter(|a| matches!(a, Action::Invoke { .. })).count();
    assert_eq!(invokes, 1);
}

#[test]
fn each_phase_maps_failures_to_its_errors() {
    let opening = Phase::Opening { pid: 1 };
    let locating = Phase::Locating { build: PayloadBuild::X64 };
    let injecting = Phase::Injecting { build: PayloadBuild::X64 };
    let resolving = Phase::Resolving { procedure: Procedure::SetVisibility };
    let invoking = Phase::Invoking { index: 0, procedure: Procedure::SetVisibility };
    assert_eq!(failure_error(opening, Failure::Denied), Error::AccessDenied);
    assert_eq!(failure_error(opening, Failure::Unavailable), Error::ProcessNotFound);
    assert_eq!(failure_error(Phase::QueryingWow64, Failure::Denied), Error::AccessDenied);
    assert_eq!(failure_error(Phase::QueryingWow64, Failure::Unavailable), Error::ProcessNotFound);
    assert_eq!(failure_error(Phase::QueryingArchitecture, Failure::Denied), Error::AccessDenied);
    assert_eq!(
        failure_error(Phase::QueryingArchitecture, Failure::Unavailable),
        Error::ProcessNotFound
    );
    assert_eq!(failure_error(locating, Failure::Denied), Error::AccessDenied);
    assert_eq!(failure_error(locating, Failure::Unavailable), Error::InjectionFailed);
    assert_eq!(failure_error(injecting, Failure::Denied), Error::AccessDenied);
    assert_eq!(failure_error(injecting, Failure::Unavailable), Error::InjectionFailed);
    assert_eq!(failure_error(resolving, Failure::Denied), Error::AccessDenied);
    assert_eq!(failure_error(resolving, Failure::Unavailable), Error::RemoteCallFailed);
    assert_eq!(failure_error(invoking, Failure::Denied), Error::RemoteCallFailed);
    assert_eq!(failure_error(invoking, Failure::Unavailable), Error::RemoteCallFailed);
}

#[test]
fn failure_at_any_step_ends_the_request_at_once() {
    for failing in 0..8 {
        let mut injector = hide_request(1, 7, Some(true));
        let mut process = live(1, vec![(7, plain_window())]);
        let mut step = 0;
        while injector.result().is_none() {
            let action = injector.action();
            let reply = if step == failing {
                Reply::Failed(Failure::Denied)
            } else {
                serve(&mut process, action)
            };
            injector.advance(reply);
            step += 1;
        }
        assert_eq!(step, failing + 1);
        let expected = if failing < 6 { Error::AccessDenied } else { Error::RemoteCallFailed };
        assert_eq!(injector.result(), Some(Err(expected)));
        assert_eq!(injector.action(), Action::Finished);
    }
}

#[test]
fn reply_of_the_wrong_shape_counts_as_a_failure() {
    let mut injector = hide_request(1, 7, None);
    injector.advance(Reply::Flag(true));
    assert_eq!(injector.result(), Some(Err(Error::ProcessNotFound)));

    let mut injector = hide_request(1, 7, None);
    injector.advance(Reply::Done);
    injector.advance(Reply::Done);
    assert_eq!(injector.result(), Some(Err(Error::ProcessNotFound)));

    let mut injector = Injector::set_window_props(&[7], true, None, false);
    injector.advance(Reply::Flag(false));
    injector.advance(Reply::Flag(false));
    assert_eq!(injector.action(), Action::InjectModule { build: PayloadBuild::X64 });
    injector.advance(Reply::Flag(true));
    assert_eq!(injector.result(), Some(Err(Error::InjectionFailed)));
}

#[test]
fn finished_request_ignores_further_replies() {
    let mut process = live(1, vec![(7, plain_window())]);
    let mut injector = hide_request(1, 7, None);
    while injector.result().is_none() {
        let reply = serve(&mut process, injector.action());
        injector.advance(reply);
    }
    injector.advance(Reply::Failed(Failure::Denied));
    injector.advance(Reply::Flag(false));
    assert_eq!(injector.result(), Some(Ok(())));
}

#[test]
fn returned_flag_does_not_change_the_course() {
    let unreadable = WindowState { affinity: 0, ex_style: None, takes_affinity: true };
    let mut process = live(1, vec![(7, unreadable)]);
    assert_eq!(run(hide_request(1, 7, Some(true)), &mut process), Ok(()));
    assert_eq!(
        process.calls,
        vec![
            (Procedure::SetVisibility, 7, true, true),
            (Procedure::SetTaskbarVisibility, 7, false, false),
        ]
    );
    let mut absent = live(1, Vec::new());
    assert_eq!(run(hide_request(1, 9, None), &mut absent), Ok(()));
    assert_eq!(absent.calls, vec![(Procedure::SetVisibility, 9, true, false)]);
}

#[test]
fn window_that_refuses_the_affinity_is_left_as_it_was() {
    let refusing = WindowState { affinity: 0, ex_style: Some(0), takes_affinity: false };
    let mut process = live(1, vec![(7, refusing)]);
    assert_eq!(run(hide_request(1, 7, Some(true)), &mut process), Ok(()));
    assert_eq!(
        process.calls,
        vec![
            (Procedure::SetVisibility, 7, true, false),
            (Procedure::SetTaskbarVisibility, 7, false, true),
        ]
    );
    assert_eq!(
        state_of(&process, 7),
        WindowState { affinity: 0, ex_style: Some(0x80), takes_affinity: false }
    );
}

#[test]
fn lookup_answers_are_judged() {
    let p = Procedure::SetTaskbarVisibility;
    assert_eq!(Injector::get_remote_proc(p, Reply::Flag(true)), Ok(p));
    assert_eq!(Injector::get_remote_proc(p, Reply::Flag(false)), Err(Error::SymbolNotFound(p)));
    assert_eq!(
        Injector::get_remote_proc(Procedure::SetVisibility, Reply::Flag(false)),
        Err(Error::SymbolNotFound(Procedure::SetVisibility))
    );
    assert_eq!(
        Injector::get_remote_proc(p, Reply::Failed(Failure::Denied)),
        Err(Error::AccessDenied)
    );
    assert_eq!(
        Injector::get_remote_proc(p, Reply::Failed(Failure::Unavailable)),
        Err(Error::RemoteCallFailed)
    );
    assert_eq!(Injector::get_remote_proc(p, Reply::Done), Err(Error::RemoteCallFailed));
}

#[test]
fn plain_requests_leave_the_taskbar_alone() {
    let mut process = live(9, vec![(1, plain_window()), (2, plain_window())]);
    assert_eq!(run(set_window_props(&[1, 2], true, false), &mut process), Ok(()));
    assert_eq!(run(set_window_props_with_pid(9, 2, false, false), &mut process), Ok(()));
    assert_eq!(
        process.calls,
        vec![
            (Procedure::SetVisibility, 1, true, true),
            (Procedure::SetVisibility, 2, true, true),
            (Procedure::SetVisibility, 2, false, true),
        ]
    );
    assert_eq!(process.injections, 1);
}

#[test]
fn errors_have_messages() {
    assert_eq!(
        Error::SymbolNotFound(Procedure::SetVisibility).message(),
        "Failed to find procedure SetWindowVisibility"
    );
    assert_eq!(
        Error::SymbolNotFound(Procedure::SetTaskbarVisibility).message(),
        "Failed to find procedure ShowOnTaskBar"
    );
    assert_eq!(Error::ProcessNotFound.message(), "no such process");
    assert_eq!(Error::AccessDenied.message(), "access denied");
    assert_eq!(Error::InjectionFailed.message(), "the module could not be loaded");
    assert_eq!(Error::RemoteCallFailed.message(), "the remote call did not complete");
    assert_eq!(Error::AttributeQueryFailed.message(), "a window attribute could not be read");
}
