//! Carrying out a hide or show request inside another process.
//!
//! A request is carried out by a module that is loaded into the process that
//! owns the windows. Getting there takes a chain of operating-system steps:
//! open the process, find out whether it is a 32-bit or a 64-bit one, look
//! for the module, load the build that matches if it is not there, resolve
//! the two entry points, and call them once for each window. Any of them can
//! fail. [`Injector`] says which step comes next and takes the answer to it;
//! the caller carries the steps out.

use crate::error::{Error, Failure};
use vstd::prelude::*;
use vstd::slice::slice_to_vec;

verus! {

/// The builds of the module that exist on disk.
#[derive(Clone, Copy, Debug, PartialEq, Eq, Structural)]
pub enum PayloadBuild {
    /// The build for 64-bit processes.
    X64,
    /// The build for 32-bit processes.
    X86,
    /// The 32-bit build as a development tree lays it out.
    DevelopmentX86,
}

/// Whether a build is one for 32-bit processes.
pub open spec fn is_32_bit(build: PayloadBuild) -> bool {
    build != PayloadBuild::X64
}

/// Where a build lies, relative to the directory of the running program.
pub open spec fn file_name_of(build: PayloadBuild) -> Seq<char> {
    match build {
        PayloadBuild::X64 => "utils.dll"@,
        PayloadBuild::X86 => "utils32.dll"@,
        PayloadBuild::DevelopmentX86 => "../i686-pc-windows-msvc/debug/utils.dll"@,
    }
}

/// The build for a target. `wow64` says that the target is a 32-bit process
/// on a 64-bit system and counts in a development build of this program
/// only; `x86` says that the target is a 32-bit process.
pub open spec fn build_for(development: bool, wow64: bool, x86: bool) -> PayloadBuild {
    if development && wow64 {
        PayloadBuild::DevelopmentX86
    } else if x86 {
        PayloadBuild::X86
    } else {
        PayloadBuild::X64
    }
}

impl PayloadBuild {
    /// Returns where the build lies, relative to the directory of the
    /// running program.
    pub fn file_name(&self) -> (name: &'static str)
        ensures
            name@ == file_name_of(*self),
    {
        match self {
            PayloadBuild::X64 => "utils.dll",
            PayloadBuild::X86 => "utils32.dll",
            PayloadBuild::DevelopmentX86 => "../i686-pc-windows-msvc/debug/utils.dll",
        }
    }

    /// Selects the build for a target from what was found out about it.
    pub fn select(development: bool, wow64: bool, x86: bool) -> (build: PayloadBuild)
        ensures
            build == build_for(development, wow64, x86),
    {
        if development && wow64 {
            PayloadBuild::DevelopmentX86
        } else if x86 {
            PayloadBuild::X86
        } else {
            PayloadBuild::X64
        }
    }
}

/// A 32-bit target gets a 32-bit build and a 64-bit target the 64-bit
/// build. A process that runs under WOW64 is a 32-bit process, which is all
/// that is asked of the two answers.
pub proof fn law_build_matches_target(development: bool, wow64: bool, x86: bool)
    requires
        wow64 ==> x86,
    ensures
        is_32_bit(build_for(development, wow64, x86)) <==> x86,
        build_for(development, wow64, x86) == PayloadBuild::X64 <==> !x86,
{
}

/// The entry points of the module.
#[derive(Clone, Copy, Debug, PartialEq, Eq, Structural)]
pub enum Procedure {
    /// Sets whether captures leave a window out.
    SetVisibility,
    /// Sets whether a window shows on the taskbar.
    SetTaskbarVisibility,
}

/// The name under which the module exports an entry point.
pub open spec fn symbol_of(procedure: Procedure) -> Seq<char> {
    match procedure {
        Procedure::SetVisibility => "SetWindowVisibility"@,
        Procedure::SetTaskbarVisibility => "ShowOnTaskBar"@,
    }
}

impl Procedure {
    /// Returns the name under which the module exports the entry point.
    pub fn symbol(&self) -> (name: &'static str)
        ensures
            name@ == symbol_of(*self),
    {
        match self {
            Procedure::SetVisibility => "SetWindowVisibility",
            Procedure::SetTaskbarVisibility => "ShowOnTaskBar",
        }
    }
}

/// One step of a request. The caller carries it out and answers with a
/// [`Reply`].
#[derive(Clone, Copy, Debug, PartialEq, Eq, Structural)]
pub enum Action {
    /// Open the process with the rights that loading a module takes.
    OpenProcess { pid: u32 },
    /// Ask whether the target runs under WOW64. Answered with a flag.
    QueryWow64,
    /// Ask whether the target is a 32-bit process. Answered with a flag.
    QueryArchitecture,
    /// Look for the module among those of the target. Answered with a
    /// flag: whether it is there.
    FindModule { build: PayloadBuild },
    /// Load the module into the target.
    InjectModule { build: PayloadBuild },
    /// Look the entry point up in the loaded module. Answered with a flag:
    /// whether the module exports it.
    ResolveProcedure { procedure: Procedure },
    /// Call the entry point in the target and wait for it. Answered with
    /// the flag that the entry point returned.
    Invoke { procedure: Procedure, hwnd: u32, flag: bool },
    /// Nothing is left to do.
    Finished,
}

/// The answer to a step.
#[derive(Clone, Copy, Debug, PartialEq, Eq, Structural)]
pub enum Reply {
    /// The step went through and has nothing to report.
    Done,
    /// The step went through and reports a flag.
    Flag(bool),
    /// The step failed.
    Failed(Failure),
}

/// Where a request stands.
#[derive(Clone, Copy, Debug)]
pub enum Phase {
    Opening { pid: u32 },
    QueryingWow64,
    QueryingArchitecture,
    Locating { build: PayloadBuild },
    Injecting { build: PayloadBuild },
    Resolving { procedure: Procedure },
    /// About to call `procedure` for the window at `index`.
    Invoking { index: usize, procedure: Procedure },
    Finished { result: Result<(), Error> },
}

/// What a request asks for.
pub ghost struct Plan {
    /// The windows, all of one process.
    pub hwnds: Seq<u32>,
    /// Whether captures are to leave the windows out.
    pub hide: bool,
    /// Whether the windows are to leave the taskbar too; `None` leaves the
    /// taskbar alone.
    pub hide_from_taskbar: Option<bool>,
    /// Whether this program is a development build.
    pub development: bool,
}

/// Whether the step of a phase is answered with a flag.
pub open spec fn expects_flag(phase: Phase) -> bool {
    match phase {
        Phase::Opening { .. } | Phase::Injecting { .. } | Phase::Finished { .. } => false,
        _ => true,
    }
}

/// The reply as the phase reads it: one of the wrong shape counts as a
/// failure of the step.
pub open spec fn reply_read(phase: Phase, reply: Reply) -> Reply {
    match reply {
        Reply::Done if expects_flag(phase) => Reply::Failed(Failure::Unavailable),
        Reply::Flag(_) if !expects_flag(phase) => Reply::Failed(Failure::Unavailable),
        _ => reply,
    }
}

/// The error that a failed step ends the request with.
pub open spec fn error_at(phase: Phase, failure: Failure) -> Error {
    match phase {
        Phase::Opening { .. } | Phase::QueryingWow64 | Phase::QueryingArchitecture => match failure {
            Failure::Denied => Error::AccessDenied,
            Failure::Unavailable => Error::ProcessNotFound,
        },
        Phase::Locating { .. } | Phase::Injecting { .. } => match failure {
            Failure::Denied => Error::AccessDenied,
            Failure::Unavailable => Error::InjectionFailed,
        },
        Phase::Resolving { .. } => match failure {
            Failure::Denied => Error::AccessDenied,
            Failure::Unavailable => Error::RemoteCallFailed,
        },
        _ => Error::RemoteCallFailed,
    }
}

/// The flag that a call passes: to hide, for the visibility entry point; to
/// show, for the taskbar entry point, which is the opposite of what the
/// request says of the taskbar.
pub open spec fn flag_for(plan: Plan, procedure: Procedure) -> bool {
    match procedure {
        Procedure::SetVisibility => plan.hide,
        Procedure::SetTaskbarVisibility => plan.hide_from_taskbar != Some(true),
    }
}

/// The phase that starts on the window at `index`, or ends the request
/// where no window is left.
pub open spec fn window_phase(plan: Plan, index: int) -> Phase {
    if 0 <= index < plan.hwnds.len() && index <= usize::MAX {
        Phase::Invoking { index: index as usize, procedure: Procedure::SetVisibility }
    } else {
        Phase::Finished { result: Ok(()) }
    }
}

/// The step of a phase.
pub open spec fn action_of(plan: Plan, phase: Phase) -> Action {
    match phase {
        Phase::Opening { pid } => Action::OpenProcess { pid },
        Phase::QueryingWow64 => Action::QueryWow64,
        Phase::QueryingArchitecture => Action::QueryArchitecture,
        Phase::Locating { build } => Action::FindModule { build },
        Phase::Injecting { build } => Action::InjectModule { build },
        Phase::Resolving { procedure } => Action::ResolveProcedure { procedure },
        Phase::Invoking { index, procedure } => Action::Invoke {
            procedure,
            hwnd: plan.hwnds[index as int],
            flag: flag_for(plan, procedure),
        },
        Phase::Finished { .. } => Action::Finished,
    }
}

/// The phase in which the request starts once the process is open.
pub open spec fn first_query(plan: Plan) -> Phase {
    if plan.development {
        Phase::QueryingWow64
    } else {
        Phase::QueryingArchitecture
    }
}

/// What the answer to a lookup makes of it: the entry point where the
/// module exports it, and else the error.
pub open spec fn lookup_of(procedure: Procedure, reply: Reply) -> Result<Procedure, Error> {
    match reply {
        Reply::Flag(true) => Ok(procedure),
        Reply::Flag(false) => Err(Error::SymbolNotFound(procedure)),
        Reply::Failed(failure) => Err(error_at(Phase::Resolving { procedure }, failure)),
        Reply::Done => Err(Error::RemoteCallFailed),
    }
}

/// The phase that follows `phase` once `reply` has come in.
///
/// A failed step ends the request with the error of [`error_at`]. The module
/// is loaded only where the lookup did not find it, and only after the
/// build was chosen. Both entry points are resolved before the first call.
/// The flag that a call returns changes nothing.
pub open spec fn next_phase(plan: Plan, phase: Phase, reply: Reply) -> Phase {
    match phase {
        Phase::Finished { .. } => phase,
        _ => match reply_read(phase, reply) {
            Reply::Failed(failure) => Phase::Finished { result: Err(error_at(phase, failure)) },
            Reply::Done => match phase {
                Phase::Opening { .. } => first_query(plan),
                _ => Phase::Resolving { procedure: Procedure::SetVisibility },
            },
            Reply::Flag(flag) => match phase {
                Phase::QueryingWow64 => if flag {
                    Phase::Locating { build: build_for(plan.development, true, true) }
                } else {
                    Phase::QueryingArchitecture
                },
                Phase::QueryingArchitecture => Phase::Locating {
                    build: build_for(plan.development, false, flag),
                },
                Phase::Locating { build } => if flag {
                    Phase::Resolving { procedure: Procedure::SetVisibility }
                } else {
                    Phase::Injecting { build }
                },
                Phase::Resolving { procedure } => if !flag {
                    Phase::Finished { result: Err(Error::SymbolNotFound(procedure)) }
                } else if procedure == Procedure::SetVisibility {
                    Phase::Resolving { procedure: Procedure::SetTaskbarVisibility }
                } else {
                    window_phase(plan, 0)
                },
                Phase::Invoking { index, procedure } => if procedure == Procedure::SetVisibility
                    && plan.hide_from_taskbar is Some {
                    Phase::Invoking { index, procedure: Procedure::SetTaskbarVisibility }
                } else {
                    window_phase(plan, index + 1)
                },
                _ => phase,
            },
        },
    }
}

/// Most steps that are still to come from `phase` on.
pub open spec fn steps_left(plan: Plan, phase: Phase) -> nat {
    let calls = 2 * plan.hwnds.len();
    match phase {
        Phase::Opening { .. } => calls + 7,
        Phase::QueryingWow64 => calls + 6,
        Phase::QueryingArchitecture => calls + 5,
        Phase::Locating { .. } => calls + 4,
        Phase::Injecting { .. } => calls + 3,
        Phase::Resolving { procedure } => if procedure == Procedure::SetVisibility {
            calls + 2
        } else {
            calls + 1
        },
        Phase::Invoking { index, procedure } => {
            let ahead: nat = if index < plan.hwnds.len() {
                (2 * (plan.hwnds.len() - index)) as nat
            } else {
                2
            };
            if procedure == Procedure::SetVisibility {
                ahead
            } else {
                (ahead - 1) as nat
            }
        },
        Phase::Finished { .. } => 0,
    }
}

/// The steps come in their order. The module is loaded only after a lookup
/// that did not find it, and it is the build that was looked for; the lookup
/// comes only after the target's bitness is known, for the build that fits
/// it; and no call is made before both entry points are resolved.
pub proof fn law_steps_keep_their_order(plan: Plan, phase: Phase, reply: Reply)
    ensures
        next_phase(plan, phase, reply) matches Phase::Injecting { build } ==> phase == (
        Phase::Locating { build }) && reply == Reply::Flag(false),
        next_phase(plan, phase, reply) matches Phase::Locating { build } ==> {
            ||| phase is QueryingWow64 && reply == Reply::Flag(true) && is_32_bit(build)
            ||| phase is QueryingArchitecture && reply == Reply::Flag(is_32_bit(build))
        },
        next_phase(plan, phase, reply) is Resolving ==> {
            ||| phase is Locating && reply == Reply::Flag(true)
            ||| phase is Injecting && reply == Reply::Done
            ||| phase == (Phase::Resolving { procedure: Procedure::SetVisibility }) && reply
                == Reply::Flag(true)
        },
        next_phase(plan, phase, reply) is Invoking && !(phase is Invoking) ==> phase == (
        Phase::Resolving { procedure: Procedure::SetTaskbarVisibility }) && reply == Reply::Flag(
            true,
        ),
{
}

/// A step that fails ends the request at once with the error of its
/// phase, an entry point that the module lacks ends it with
/// [`Error::SymbolNotFound`] naming that entry point, and nothing else ends
/// it with an error.
pub proof fn law_errors_come_from_failed_steps(plan: Plan, phase: Phase, reply: Reply)
    requires
        !(phase is Finished),
    ensures
        reply_read(phase, reply) matches Reply::Failed(failure) ==> next_phase(plan, phase, reply)
            == (Phase::Finished { result: Err(error_at(phase, failure)) }),
        phase matches Phase::Resolving { procedure } ==> (reply == Reply::Flag(false)
            ==> next_phase(plan, phase, reply) == (Phase::Finished {
            result: Err(Error::SymbolNotFound(procedure)),
        })),
        next_phase(plan, phase, reply) matches Phase::Finished { result: Err(_) } ==> reply_read(
            phase,
            reply,
        ) is Failed || (phase is Resolving && reply == Reply::Flag(false)),
        phase matches Phase::Resolving { procedure } ==> forall|error: Error|
            lookup_of(procedure, reply) == Err::<Procedure, Error>(error) <==> next_phase(
                plan,
                phase,
                reply,
            ) == (Phase::Finished { result: Err(error) }),
{
}

/// Every reply brings the request nearer to its end, where it stays.
pub proof fn law_request_runs_out(plan: Plan, phase: Phase, reply: Reply)
    ensures
        !(phase is Finished) ==> steps_left(plan, next_phase(plan, phase, reply)) < steps_left(
            plan,
            phase,
        ),
        phase is Finished ==> next_phase(plan, phase, reply) == phase,
        steps_left(plan, phase) == 0 <==> phase is Finished,
{
}

/// Maps the failure of a step to the error that ends the request.
pub fn failure_error(phase: Phase, failure: Failure) -> (error: Error)
    ensures
        error == error_at(phase, failure),
{
    match phase {
        Phase::Opening { .. } | Phase::QueryingWow64 | Phase::QueryingArchitecture => match failure {
            Failure::Denied => Error::AccessDenied,
            Failure::Unavailable => Error::ProcessNotFound,
        },
        Phase::Locating { .. } | Phase::Injecting { .. } => match failure {
            Failure::Denied => Error::AccessDenied,
            Failure::Unavailable => Error::InjectionFailed,
        },
        Phase::Resolving { .. } => match failure {
            Failure::Denied => Error::AccessDenied,
            Failure::Unavailable => Error::RemoteCallFailed,
        },
        _ => Error::RemoteCallFailed,
    }
}

/// A hide or show request on its way through the target process.
pub struct Injector {
    hwnds: Vec<u32>,
    hide: bool,
    hide_from_taskbar: Option<bool>,
    development: bool,
    phase: Phase,
}

impl Injector {
    #[verifier::type_invariant]
    spec fn inv(self) -> bool {
        self.phase matches Phase::Invoking { index, .. } ==> index < self.hwnds@.len()
    }

    /// What the request asks for.
    pub closed spec fn plan(&self) -> Plan {
        Plan {
            hwnds: self.hwnds@,
            hide: self.hide,
            hide_from_taskbar: self.hide_from_taskbar,
            development: self.development,
        }
    }

    /// Where the request stands.
    pub closed spec fn phase(&self) -> Phase {
        self.phase
    }

    /// Starts a request on windows of a process that the caller has open.
    /// The first step finds out which build of the module fits the process.
    pub fn set_window_props(
        hwnds: &[u32],
        hide: bool,
        hide_from_taskbar: Option<bool>,
        development: bool,
    ) -> (injector: Injector)
        ensures
            injector.plan() == (Plan { hwnds: hwnds@, hide, hide_from_taskbar, development }),
            injector.phase() == first_query(injector.plan()),
    {
        let phase = if development {
            Phase::QueryingWow64
        } else {
            Phase::QueryingArchitecture
        };
        Injector { hwnds: slice_to_vec(hwnds), hide, hide_from_taskbar, development, phase }
    }

    /// Starts a request on one window of the process with id `pid`. The
    /// first step opens the process.
    pub fn set_window_props_with_pid(
        pid: u32,
        hwnd: u32,
        hide: bool,
        hide_from_taskbar: Option<bool>,
        development: bool,
    ) -> (injector: Injector)
        ensures
            injector.plan() == (Plan { hwnds: seq![hwnd], hide, hide_from_taskbar, development }),
            injector.phase() == (Phase::Opening { pid }),
    {
        let mut hwnds: Vec<u32> = Vec::new();
        hwnds.push(hwnd);
        assert(hwnds@ == seq![hwnd]);
        Injector { hwnds, hide, hide_from_taskbar, development, phase: Phase::Opening { pid } }
    }

    /// Judges the answer to the lookup of an entry point: the entry point
    /// where the module exports it, [`Error::SymbolNotFound`] with the entry
    /// point that was looked up where it does not, and the error of the
    /// failure where the lookup failed.
    pub fn get_remote_proc(procedure: Procedure, reply: Reply) -> (found: Result<Procedure, Error>)
        ensures
            found == lookup_of(procedure, reply),
    {
        match reply {
            Reply::Flag(true) => Ok(procedure),
            Reply::Flag(false) => Err(Error::SymbolNotFound(procedure)),
            Reply::Failed(failure) => Err(failure_error(Phase::Resolving { procedure }, failure)),
            Reply::Done => Err(Error::RemoteCallFailed),
        }
    }

    /// Returns the step to carry out next.
    pub fn action(&self) -> (action: Action)
        ensures
            action == action_of(self.plan(), self.phase()),
    {
        proof {
            use_type_invariant(self);
        }
        match self.phase {
            Phase::Opening { pid } => Action::OpenProcess { pid },
            Phase::QueryingWow64 => Action::QueryWow64,
            Phase::QueryingArchitecture => Action::QueryArchitecture,
            Phase::Locating { build } => Action::FindModule { build },
            Phase::Injecting { build } => Action::InjectModule { build },
            Phase::Resolving { procedure } => Action::ResolveProcedure { procedure },
            Phase::Invoking { index, procedure } => {
                let flag = match procedure {
                    Procedure::SetVisibility => self.hide,
                    Procedure::SetTaskbarVisibility => match self.hide_from_taskbar {
                        Some(hide) => !hide,
                        None => true,
                    },
                };
                Action::Invoke { procedure, hwnd: self.hwnds[index], flag }
            },
            Phase::Finished { .. } => Action::Finished,
        }
    }

    /// Takes the answer to the pending step and moves on.
    pub fn advance(&mut self, reply: Reply)
        ensures
            final(self).plan() == old(self).plan(),
            final(self).phase() == next_phase(old(self).plan(), old(self).phase(), reply),
    {
        proof {
            use_type_invariant(&*self);
        }
        let phase = self.phase;
        let count: usize = self.hwnds.len();
        let next = match phase {
            Phase::Finished { .. } => phase,
            Phase::Opening { .. } => match reply {
                Reply::Done => if self.development {
                    Phase::QueryingWow64
                } else {
                    Phase::QueryingArchitecture
                },
                Reply::Failed(failure) => Phase::Finished {
                    result: Err(failure_error(phase, failure)),
                },
                Reply::Flag(_) => Phase::Finished {
                    result: Err(failure_error(phase, Failure::Unavailable)),
                },
            },
            Phase::Injecting { .. } => match reply {
                Reply::Done => Phase::Resolving { procedure: Procedure::SetVisibility },
                Reply::Failed(failure) => Phase::Finished {
                    result: Err(failure_error(phase, failure)),
                },
                Reply::Flag(_) => Phase::Finished {
                    result: Err(failure_error(phase, Failure::Unavailable)),
                },
            },
            _ => match reply {
                Reply::Failed(failure) => Phase::Finished {
                    result: Err(failure_error(phase, failure)),
                },
                Reply::Done => Phase::Finished {
                    result: Err(failure_error(phase, Failure::Unavailable)),
                },
                Reply::Flag(flag) => match phase {
                    Phase::QueryingWow64 => if flag {
                        Phase::Locating { build: PayloadBuild::select(self.development, true, true) }
                    } else {
                        Phase::QueryingArchitecture
                    },
                    Phase::QueryingArchitecture => Phase::Locating {
                        build: PayloadBuild::select(self.development, false, flag),
                    },
                    Phase::Locating { build } => if flag {
                        Phase::Resolving { procedure: Procedure::SetVisibility }
                    } else {
                        Phase::Injecting { build }
                    },
                    Phase::Resolving { procedure } => if !flag {
                        Phase::Finished { result: Err(Error::SymbolNotFound(procedure)) }
                    } else if procedure == Procedure::SetVisibility {
                        Phase::Resolving { procedure: Procedure::SetTaskbarVisibility }
                    } else {
                        self.window_phase(0)
                    },
                    Phase::Invoking { index, procedure } => if procedure == Procedure::SetVisibility
                        && self.hide_from_taskbar.is_some() {
                        Phase::Invoking { index, procedure: Procedure::SetTaskbarVisibility }
                    } else {
                        assert(index < count);
                        self.window_phase(index + 1)
                    },
                    _ => phase,
                },
            },
        };
        self.phase = next;
    }

    /// The phase that starts on the window at `index`, or ends the request.
    fn window_phase(&self, index: usize) -> (phase: Phase)
        ensures
            phase == window_phase(self.plan(), index as int),
            phase matches Phase::Invoking { index, .. } ==> index < self.plan().hwnds.len(),
    {
        if index < self.hwnds.len() {
            Phase::Invoking { index, procedure: Procedure::SetVisibility }
        } else {
            Phase::Finished { result: Ok(()) }
        }
    }

    /// Returns how the request ended, once it has.
    pub fn result(&self) -> (result: Option<Result<(), Error>>)
        ensures
            result == (match self.phase() {
                Phase::Finished { result } => Some(result),
                _ => None,
            }),
    {
        match self.phase {
            Phase::Finished { result } => Some(result),
            _ => None,
        }
    }
}

/// Starts a request that leaves the taskbar alone, on windows of a process
/// that the caller has open.
pub fn set_window_props(hwnds: &[u32], hide: bool, development: bool) -> (injector: Injector)
    ensures
        injector.plan() == (Plan { hwnds: hwnds@, hide, hide_from_taskbar: None, development }),
        injector.phase() == first_query(injector.plan()),
{
    Injector::set_window_props(hwnds, hide, None, development)
}

/// Starts a request that leaves the taskbar alone, on one window of the
/// process with id `pid`.
pub fn set_window_props_with_pid(pid: u32, hwnd: u32, hide: bool, development: bool) -> (injector:
    Injector)
    ensures
        injector.plan() == (Plan {
            hwnds: seq![hwnd],
            hide,
            hide_from_taskbar: None,
            development,
        }),
        injector.phase() == (Phase::Opening { pid }),
{
    Injector::set_window_props_with_pid(pid, hwnd, hide, None, development)
}

} // verus!
