//! Installing, removing, enabling and disabling the service, as state machines: each step
//! asks for one operation of the service manager or the file system, and its outcome
//! decides on the next.
use crate::discovery::list_sync::{HASH_FILE, LIST_FILE};
use crate::log::LOG_FILE;
use crate::service::host::SERVICE_NAME;
use vstd::prelude::*;
use vstd::string::*;

verus! {

/// The installed program.
pub const INSTALL_EXE: &'static str = "C:\\windows\\xbridge.exe";

/// Where the program is installed, and where it looks for its list of applications.
pub const INSTALL_DIR: &'static str = "C:\\windows";

/// How often the end of the service is asked for after it was told to stop.
pub const MAX_POLLS: u8 = 20;

/// The pause before the end of the service is asked for, in milliseconds.
pub const POLL_PAUSE: u64 = 500;

/// When Windows starts the service.
#[derive(Clone, Copy, PartialEq, Eq, Structural)]
pub enum StartType {
    AutoStart,
    Disabled,
}

/// How the service is registered.
pub struct ServiceInfo {
    pub name: String,
    pub display_name: String,
    pub start_type: StartType,
    pub executable_path: String,
}

/// How the service is registered.
pub fn service_info(start_type: StartType) -> (r: ServiceInfo)
    ensures
        r.name@ == SERVICE_NAME@,
        r.display_name@ == "xbridge Discord RPC Bridge"@,
        r.start_type == start_type,
        r.executable_path@ == INSTALL_EXE@,
{
    ServiceInfo {
        name: SERVICE_NAME.to_owned(),
        display_name: "xbridge Discord RPC Bridge".to_owned(),
        start_type,
        executable_path: INSTALL_EXE.to_owned(),
    }
}

/// The files that the installed service leaves on the disk: the program, the list of
/// applications with its hash, and the log.
pub fn installed_files() -> (r: Vec<&'static str>)
    ensures
        r@.len() == 4,
        r@[0]@ == INSTALL_EXE@,
        r@[1]@ == "C:\\windows\\xbridge-detectable-list.json"@,
        r@[2]@ == "C:\\windows\\xbridge-detectable-list.json.sha256"@,
        r@[3]@ == LOG_FILE@,
{
    vec![
        INSTALL_EXE,
        "C:\\windows\\xbridge-detectable-list.json",
        "C:\\windows\\xbridge-detectable-list.json.sha256",
        LOG_FILE,
    ]
}

/// The directory that an installation saves the list of applications in.
pub fn installed_list_dir() -> (r: &'static str)
    ensures
        r@ == INSTALL_DIR@,
{
    INSTALL_DIR
}

/// The list that an installation saves lies where the installed program is, which is where
/// the program looks for it; and it is the list that a removal removes.
pub proof fn the_list_lies_beside_the_program()
    ensures
        INSTALL_EXE@ == INSTALL_DIR@ + "\\xbridge.exe"@,
        "C:\\windows\\xbridge-detectable-list.json"@ == INSTALL_DIR@ + "\\"@ + LIST_FILE@,
        "C:\\windows\\xbridge-detectable-list.json.sha256"@ == INSTALL_DIR@ + "\\"@ + HASH_FILE@,
{
    reveal_strlit("C:\\windows");
    reveal_strlit("\\");
    reveal_strlit("\\xbridge.exe");
    reveal_strlit("C:\\windows\\xbridge.exe");
    reveal_strlit("xbridge-detectable-list.json");
    reveal_strlit("xbridge-detectable-list.json.sha256");
    reveal_strlit("C:\\windows\\xbridge-detectable-list.json");
    reveal_strlit("C:\\windows\\xbridge-detectable-list.json.sha256");
    assert(INSTALL_EXE@ =~= INSTALL_DIR@ + "\\xbridge.exe"@);
    assert("C:\\windows\\xbridge-detectable-list.json"@ =~= INSTALL_DIR@ + "\\"@ + LIST_FILE@);
    assert("C:\\windows\\xbridge-detectable-list.json.sha256"@ =~= INSTALL_DIR@ + "\\"@
        + HASH_FILE@);
}

/// What the service is opened for.
#[derive(Clone, Copy, PartialEq, Eq, Structural)]
pub struct Rights {
    pub query_status: bool,
    pub change_config: bool,
    pub start: bool,
    pub stop: bool,
    pub delete: bool,
}

/// An operation of the service manager or the file system.
#[derive(Clone, Copy, PartialEq, Eq, Structural)]
pub enum Operation {
    /// Connect to the service manager, with the right to create services or without.
    OpenManager { create: bool },
    OpenService(Rights),
    /// Copy the running program to where it is installed.
    CopyProgram,
    /// Fetch the list of applications, and save it in the directory of the installed program.
    DownloadList,
    /// Register the service, with the right to start it.
    CreateService(StartType),
    StartService,
    ChangeConfig(StartType),
    QueryStatus,
    StopService,
    /// Pause for half a second.
    Pause,
    DeleteService,
    /// Have the files of the service deleted.
    RemoveFiles,
}

/// How an operation came out.
#[derive(Clone, Copy, PartialEq, Eq, Structural)]
pub enum Outcome {
    Done,
    Failed,
    /// The service does not run.
    Stopped,
    /// The service runs, or is about to start or to stop.
    NotStopped,
}

/// The steps of the four commands.
#[derive(Clone, Copy, PartialEq, Eq, Structural)]
pub enum Step {
    InstallManager,
    InstallLookup,
    InstallCopy,
    InstallDownload,
    InstallCreate,
    InstallStart,
    EnableManager,
    EnableOpen,
    EnableConfigure,
    EnableQuery,
    EnableStart,
    DisableManager,
    DisableOpen,
    DisableQuery,
    DisableStop,
    /// The pause before the status is asked for again, after so many times.
    DisablePause(u8),
    DisablePoll(u8),
    /// Whether the end of the service was seen is kept.
    DisableConfigure { stopped: bool },
    UninstallManager,
    UninstallOpen,
    UninstallQuery,
    UninstallStop,
    /// The pause before the status is asked for again, after so many times.
    UninstallPause(u8),
    UninstallPoll(u8),
    /// Whether the end of the service was seen is kept.
    UninstallDelete { stopped: bool },
    UninstallFiles { stopped: bool },
    /// The command has succeeded.
    Finished,
    /// The command has failed: with the last failure of an operation, or, where none has
    /// failed, because the service did not stop.
    Aborted,
}

/// The operation that a step asks for, if the command is not over.
pub open spec fn operation_of(step: Step) -> Option<Operation> {
    let none = Rights {
        query_status: false,
        change_config: false,
        start: false,
        stop: false,
        delete: false,
    };
    match step {
        Step::InstallManager => Some(Operation::OpenManager { create: true }),
        Step::InstallLookup => Some(
            Operation::OpenService(Rights { query_status: true, ..none }),
        ),
        Step::InstallCopy => Some(Operation::CopyProgram),
        Step::InstallDownload => Some(Operation::DownloadList),
        Step::InstallCreate => Some(Operation::CreateService(StartType::AutoStart)),
        Step::InstallStart => Some(Operation::StartService),
        Step::EnableManager => Some(Operation::OpenManager { create: false }),
        Step::EnableOpen => Some(
            Operation::OpenService(
                Rights { change_config: true, start: true, query_status: true, ..none },
            ),
        ),
        Step::EnableConfigure => Some(Operation::ChangeConfig(StartType::AutoStart)),
        Step::EnableQuery => Some(Operation::QueryStatus),
        Step::EnableStart => Some(Operation::StartService),
        Step::DisableManager => Some(Operation::OpenManager { create: false }),
        Step::DisableOpen => Some(
            Operation::OpenService(
                Rights { change_config: true, stop: true, query_status: true, ..none },
            ),
        ),
        Step::DisableQuery => Some(Operation::QueryStatus),
        Step::DisableStop => Some(Operation::StopService),
        Step::DisablePause(_) => Some(Operation::Pause),
        Step::DisablePoll(_) => Some(Operation::QueryStatus),
        Step::DisableConfigure { .. } => Some(Operation::ChangeConfig(StartType::Disabled)),
        Step::UninstallManager => Some(Operation::OpenManager { create: false }),
        Step::UninstallOpen => Some(
            Operation::OpenService(
                Rights { stop: true, delete: true, query_status: true, ..none },
            ),
        ),
        Step::UninstallQuery => Some(Operation::QueryStatus),
        Step::UninstallStop => Some(Operation::StopService),
        Step::UninstallPause(_) => Some(Operation::Pause),
        Step::UninstallPoll(_) => Some(Operation::QueryStatus),
        Step::UninstallDelete { .. } => Some(Operation::DeleteService),
        Step::UninstallFiles { .. } => Some(Operation::RemoveFiles),
        Step::Finished | Step::Aborted => None,
    }
}

/// Whether an outcome is one that the operation of a step can have.
pub open spec fn can_come_out(step: Step, outcome: Outcome) -> bool {
    match operation_of(step) {
        None => false,
        Some(Operation::QueryStatus) => !(outcome is Done),
        Some(_) => outcome is Done || outcome is Failed,
    }
}

/// The next step where an operation must succeed.
pub open spec fn if_done(outcome: Outcome, next: Step) -> Step {
    if outcome is Done {
        next
    } else {
        Step::Aborted
    }
}

/// The step after an outcome.
pub open spec fn step_after(step: Step, outcome: Outcome) -> Step {
    if !can_come_out(step, outcome) {
        step
    } else {
        match step {
            Step::InstallManager => if_done(outcome, Step::InstallLookup),
            // A service that is there already is only enabled.
            Step::InstallLookup => if outcome is Done {
                Step::EnableManager
            } else {
                Step::InstallCopy
            },
            Step::InstallCopy => if_done(outcome, Step::InstallDownload),
            Step::InstallDownload => if_done(outcome, Step::InstallCreate),
            Step::InstallCreate => if_done(outcome, Step::InstallStart),
            Step::InstallStart => if_done(outcome, Step::Finished),
            Step::EnableManager => if_done(outcome, Step::EnableOpen),
            Step::EnableOpen => if_done(outcome, Step::EnableConfigure),
            Step::EnableConfigure => if_done(outcome, Step::EnableQuery),
            Step::EnableQuery => match outcome {
                Outcome::Stopped => Step::EnableStart,
                Outcome::NotStopped => Step::Finished,
                _ => Step::Aborted,
            },
            Step::EnableStart => if_done(outcome, Step::Finished),
            Step::DisableManager => if_done(outcome, Step::DisableOpen),
            Step::DisableOpen => if_done(outcome, Step::DisableQuery),
            Step::DisableQuery => match outcome {
                Outcome::NotStopped => Step::DisableStop,
                _ => Step::DisableConfigure { stopped: outcome is Stopped },
            },
            // A service that is already stopping refuses to be stopped, so that only its end
            // counts.
            Step::DisableStop => Step::DisablePause(0),
            Step::DisablePause(n) => Step::DisablePoll(n),
            Step::DisablePoll(n) => if outcome is Stopped || n + 1 >= MAX_POLLS {
                Step::DisableConfigure { stopped: outcome is Stopped }
            } else {
                Step::DisablePause((n + 1) as u8)
            },
            Step::DisableConfigure { stopped } => if stopped {
                if_done(outcome, Step::Finished)
            } else {
                Step::Aborted
            },
            Step::UninstallManager => if_done(outcome, Step::UninstallOpen),
            Step::UninstallOpen => if_done(outcome, Step::UninstallQuery),
            Step::UninstallQuery => match outcome {
                Outcome::NotStopped => Step::UninstallStop,
                _ => Step::UninstallDelete { stopped: outcome is Stopped },
            },
            Step::UninstallStop => Step::UninstallPause(0),
            Step::UninstallPause(n) => Step::UninstallPoll(n),
            Step::UninstallPoll(n) => if outcome is Stopped || n + 1 >= MAX_POLLS {
                Step::UninstallDelete { stopped: outcome is Stopped }
            } else {
                Step::UninstallPause((n + 1) as u8)
            },
            // The removal goes on whether the service has stopped or not, but succeeds
            // only where it has.
            Step::UninstallDelete { stopped } => if_done(
                outcome,
                Step::UninstallFiles { stopped },
            ),
            Step::UninstallFiles { stopped } => if stopped {
                if_done(outcome, Step::Finished)
            } else {
                Step::Aborted
            },
            Step::Finished | Step::Aborted => step,
        }
    }
}

/// The first step of an installation.
pub fn install() -> (r: Step)
    ensures
        r == Step::InstallManager,
{
    Step::InstallManager
}

/// The first step of a removal.
pub fn uninstall() -> (r: Step)
    ensures
        r == Step::UninstallManager,
{
    Step::UninstallManager
}

/// The first step of enabling the service.
pub fn enable() -> (r: Step)
    ensures
        r == Step::EnableManager,
{
    Step::EnableManager
}

/// The first step of disabling the service.
pub fn disable() -> (r: Step)
    ensures
        r == Step::DisableManager,
{
    Step::DisableManager
}

impl Step {
    /// The operation that the step asks for, if the command is not over.
    pub fn operation(self) -> (r: Option<Operation>)
        ensures
            r == operation_of(self),
    {
        let none = Rights {
            query_status: false,
            change_config: false,
            start: false,
            stop: false,
            delete: false,
        };
        match self {
            Step::InstallManager => Some(Operation::OpenManager { create: true }),
            Step::InstallLookup => Some(
                Operation::OpenService(Rights { query_status: true, ..none }),
            ),
            Step::InstallCopy => Some(Operation::CopyProgram),
            Step::InstallDownload => Some(Operation::DownloadList),
            Step::InstallCreate => Some(Operation::CreateService(StartType::AutoStart)),
            Step::InstallStart => Some(Operation::StartService),
            Step::EnableManager => Some(Operation::OpenManager { create: false }),
            Step::EnableOpen => Some(
                Operation::OpenService(
                    Rights { change_config: true, start: true, query_status: true, ..none },
                ),
            ),
            Step::EnableConfigure => Some(Operation::ChangeConfig(StartType::AutoStart)),
            Step::EnableQuery => Some(Operation::QueryStatus),
            Step::EnableStart => Some(Operation::StartService),
            Step::DisableManager => Some(Operation::OpenManager { create: false }),
            Step::DisableOpen => Some(
                Operation::OpenService(
                    Rights { change_config: true, stop: true, query_status: true, ..none },
                ),
            ),
            Step::DisableQuery => Some(Operation::QueryStatus),
            Step::DisableStop => Some(Operation::StopService),
            Step::DisablePause(_) => Some(Operation::Pause),
            Step::DisablePoll(_) => Some(Operation::QueryStatus),
            Step::DisableConfigure { .. } => Some(Operation::ChangeConfig(StartType::Disabled)),
            Step::UninstallManager => Some(Operation::OpenManager { create: false }),
            Step::UninstallOpen => Some(
                Operation::OpenService(
                    Rights { stop: true, delete: true, query_status: true, ..none },
                ),
            ),
            Step::UninstallQuery => Some(Operation::QueryStatus),
            Step::UninstallStop => Some(Operation::StopService),
            Step::UninstallPause(_) => Some(Operation::Pause),
            Step::UninstallPoll(_) => Some(Operation::QueryStatus),
            Step::UninstallDelete { .. } => Some(Operation::DeleteService),
            Step::UninstallFiles { .. } => Some(Operation::RemoveFiles),
            Step::Finished | Step::Aborted => None,
        }
    }

    /// The step after an outcome. An outcome that the operation cannot have changes
    /// nothing.
    pub fn after(self, outcome: Outcome) -> (r: Step)
        ensures
            r == step_after(self, outcome),
    {
        let possible = match self.operation() {
            None => false,
            Some(Operation::QueryStatus) => !matches!(outcome, Outcome::Done),
            Some(_) => matches!(outcome, Outcome::Done | Outcome::Failed),
        };
        if !possible {
            return self;
        }
        let done = matches!(outcome, Outcome::Done);
        let stopped = matches!(outcome, Outcome::Stopped);
        let next = match self {
            // A service that is there already is only enabled.
            Step::InstallLookup => return if done {
                Step::EnableManager
            } else {
                Step::InstallCopy
            },
            Step::EnableQuery => return match outcome {
                Outcome::Stopped => Step::EnableStart,
                Outcome::NotStopped => Step::Finished,
                _ => Step::Aborted,
            },
            Step::DisableQuery => return match outcome {
                Outcome::NotStopped => Step::DisableStop,
                _ => Step::DisableConfigure { stopped },
            },
            Step::DisableStop => return Step::DisablePause(0),
            Step::DisablePause(n) => return Step::DisablePoll(n),
            Step::DisablePoll(n) => return if stopped || n >= MAX_POLLS - 1 {
                Step::DisableConfigure { stopped }
            } else {
                Step::DisablePause(n + 1)
            },
            Step::DisableConfigure { stopped: false } => return Step::Aborted,
            Step::UninstallQuery => return match outcome {
                Outcome::NotStopped => Step::UninstallStop,
                _ => Step::UninstallDelete { stopped },
            },
            Step::UninstallStop => return Step::UninstallPause(0),
            Step::UninstallPause(n) => return Step::UninstallPoll(n),
            Step::UninstallPoll(n) => return if stopped || n >= MAX_POLLS - 1 {
                Step::UninstallDelete { stopped }
            } else {
                Step::UninstallPause(n + 1)
            },
            Step::UninstallFiles { stopped: false } => return Step::Aborted,
            Step::InstallManager => Step::InstallLookup,
            Step::InstallCopy => Step::InstallDownload,
            Step::InstallDownload => Step::InstallCreate,
            Step::InstallCreate => Step::InstallStart,
            Step::InstallStart => Step::Finished,
            Step::EnableManager => Step::EnableOpen,
            Step::EnableOpen => Step::EnableConfigure,
            Step::EnableConfigure => Step::EnableQuery,
            Step::EnableStart => Step::Finished,
            Step::DisableManager => Step::DisableOpen,
            Step::DisableOpen => Step::DisableQuery,
            Step::DisableConfigure { stopped: true } => Step::Finished,
            Step::UninstallManager => Step::UninstallOpen,
            Step::UninstallOpen => Step::UninstallQuery,
            Step::UninstallDelete { stopped } => Step::UninstallFiles { stopped },
            Step::UninstallFiles { stopped: true } => Step::Finished,
            Step::Finished | Step::Aborted => self,
        };
        if done {
            next
        } else {
            Step::Aborted
        }
    }
}

/// How many operations a command asks for at most, from a step on.
pub open spec fn operations_left(step: Step) -> nat {
    match step {
        Step::InstallManager => 7,
        Step::InstallLookup => 6,
        Step::InstallCopy => 4,
        Step::InstallDownload => 3,
        Step::InstallCreate => 2,
        Step::InstallStart => 1,
        Step::EnableManager => 5,
        Step::EnableOpen => 4,
        Step::EnableConfigure => 3,
        Step::EnableQuery => 2,
        Step::EnableStart => 1,
        Step::DisableManager => 45,
        Step::DisableOpen => 44,
        Step::DisableQuery => 43,
        Step::DisableStop => 42,
        Step::DisablePause(n) => if n < MAX_POLLS {
            (2 * (MAX_POLLS - n) + 1) as nat
        } else {
            3
        },
        Step::DisablePoll(n) => if n < MAX_POLLS {
            (2 * (MAX_POLLS - n)) as nat
        } else {
            2
        },
        Step::DisableConfigure { .. } => 1,
        Step::UninstallManager => 46,
        Step::UninstallOpen => 45,
        Step::UninstallQuery => 44,
        Step::UninstallStop => 43,
        Step::UninstallPause(n) => if n < MAX_POLLS {
            (2 * (MAX_POLLS - n) + 2) as nat
        } else {
            4
        },
        Step::UninstallPoll(n) => if n < MAX_POLLS {
            (2 * (MAX_POLLS - n) + 1) as nat
        } else {
            3
        },
        Step::UninstallDelete { .. } => 2,
        Step::UninstallFiles { .. } => 1,
        Step::Finished | Step::Aborted => 0,
    }
}

/// Every command comes to an end: each outcome leaves fewer operations to ask for.
pub proof fn commands_come_to_an_end(step: Step, outcome: Outcome)
    requires
        can_come_out(step, outcome),
    ensures
        operations_left(step_after(step, outcome)) < operations_left(step),
        operations_left(step) == 0 <==> operation_of(step) is None,
{
}

/// Whether a removal is stopping the service.
pub open spec fn stopping(step: Step) -> bool {
    step is UninstallQuery || step is UninstallStop || step is UninstallPause
        || step is UninstallPoll
}

/// Whether the service and its files are removed does not depend on how stopping the service
/// goes: from there a removal goes nowhere but on to the deletion. Whether it succeeds does.
pub proof fn removal_goes_on_to_the_deletion(step: Step, outcome: Outcome)
    requires
        stopping(step),
    ensures
        stopping(step_after(step, outcome)) || step_after(step, outcome) is UninstallDelete,
{
}

/// How many pauses a command makes over a run of outcomes.
pub open spec fn pauses(step: Step, outcomes: Seq<Outcome>) -> nat
    decreases outcomes.len(),
{
    if outcomes.len() == 0 {
        0
    } else {
        (if operation_of(step) == Some(Operation::Pause) && can_come_out(step, outcomes[0]) {
            1nat
        } else {
            0nat
        }) + pauses(step_after(step, outcomes[0]), outcomes.skip(1))
    }
}

/// A removal and a disabling wait for the end of the service for ten seconds at most.
pub proof fn stopping_takes_ten_seconds_at_most(outcomes: Seq<Outcome>)
    ensures
        pauses(Step::UninstallManager, outcomes) * POLL_PAUSE <= 10_000,
        pauses(Step::DisableManager, outcomes) * POLL_PAUSE <= 10_000,
{
    lemma_pauses(Step::UninstallManager, outcomes);
    lemma_pauses(Step::DisableManager, outcomes);
}

spec fn pauses_left(step: Step) -> nat {
    match step {
        Step::UninstallManager
        | Step::UninstallOpen
        | Step::UninstallQuery
        | Step::UninstallStop
        | Step::DisableManager
        | Step::DisableOpen
        | Step::DisableQuery
        | Step::DisableStop => MAX_POLLS as nat,
        Step::UninstallPause(n) | Step::DisablePause(n) => if n < MAX_POLLS {
            (MAX_POLLS - n) as nat
        } else {
            1
        },
        Step::UninstallPoll(n) | Step::DisablePoll(n) => if n < MAX_POLLS {
            (MAX_POLLS - n - 1) as nat
        } else {
            0
        },
        _ => 0,
    }
}

proof fn lemma_pauses(step: Step, outcomes: Seq<Outcome>)
    ensures
        pauses(step, outcomes) <= pauses_left(step),
    decreases outcomes.len(),
{
    if outcomes.len() > 0 {
        lemma_pauses(step_after(step, outcomes[0]), outcomes.skip(1));
    }
}

/// The step after a run of outcomes.
pub open spec fn step_after_all(step: Step, outcomes: Seq<Outcome>) -> Step
    decreases outcomes.len(),
{
    if outcomes.len() == 0 {
        step
    } else {
        step_after(step_after_all(step, outcomes.drop_last()), outcomes.last())
    }
}

/// Once the service was seen stopped, whenever that is, a removal deletes it, removes its
/// files, and succeeds if both work; a disabling has it not start any more, and succeeds if
/// that works.
pub proof fn a_seen_end_leads_to_success(step: Step)
    requires
        operation_of(step) == Some(Operation::QueryStatus),
        !(step is EnableQuery),
    ensures
        ({
            let seen = step_after(step, Outcome::Stopped);
            let disabling = step is DisableQuery || step is DisablePoll;
            &&& disabling ==> operation_of(seen) == Some(
                Operation::ChangeConfig(StartType::Disabled),
            ) && step_after(seen, Outcome::Done) is Finished
            &&& !disabling ==> operation_of(seen) == Some(Operation::DeleteService) && operation_of(
                step_after(seen, Outcome::Done),
            ) == Some(Operation::RemoveFiles) && step_after(
                step_after(seen, Outcome::Done),
                Outcome::Done,
            ) is Finished
        }),
{
}

/// As long as the end of the service was not seen, it is asked for again after a pause, until
/// it has been asked for twenty times.
pub proof fn the_end_is_asked_for_again(step: Step, n: u8, outcome: Outcome)
    requires
        step == Step::UninstallPoll(n) || step == Step::DisablePoll(n),
        outcome is NotStopped || outcome is Failed,
    ensures
        n < 19 ==> operation_of(step_after(step, outcome)) == Some(Operation::Pause)
            && operation_of(step_after(step_after(step, outcome), Outcome::Done)) == Some(
            Operation::QueryStatus,
        ) && (step_after(step_after(step, outcome), Outcome::Done) == Step::UninstallPoll(
            (n + 1) as u8,
        ) || step_after(step_after(step, outcome), Outcome::Done) == Step::DisablePoll(
            (n + 1) as u8,
        )),
        n >= 19 ==> operation_of(step_after(step, outcome)) == Some(
            if step is DisablePoll {
                Operation::ChangeConfig(StartType::Disabled)
            } else {
                Operation::DeleteService
            },
        ),
{
}

/// A failed operation ends its command, but for a service that is not found at an
/// installation, and for what belongs to stopping the service.
pub proof fn failures_end_commands(step: Step)
    requires
        can_come_out(step, Outcome::Failed),
    ensures
        step_after(step, Outcome::Failed) is Aborted <==> !(step is InstallLookup || stopping(step)
            || step is DisableQuery || step is DisableStop || step is DisablePause
            || step is DisablePoll),
{
}

/// Whether an operation has come out that way in the course of a command.
pub open spec fn has_come_out(
    first: Step,
    outcomes: Seq<Outcome>,
    operation: Operation,
    outcome: Outcome,
) -> bool
    decreases outcomes.len(),
{
    outcomes.len() > 0 && (has_come_out(first, outcomes.drop_last(), operation, outcome) || (
    operation_of(step_after_all(first, outcomes.drop_last())) == Some(operation) && outcomes.last()
        == outcome))
}

/// A service is enabled where it starts with Windows and runs.
pub open spec fn has_enabled(first: Step, outcomes: Seq<Outcome>) -> bool {
    &&& has_come_out(
        first,
        outcomes,
        Operation::ChangeConfig(StartType::AutoStart),
        Outcome::Done,
    )
    &&& has_come_out(first, outcomes, Operation::QueryStatus, Outcome::NotStopped) || has_come_out(
        first,
        outcomes,
        Operation::StartService,
        Outcome::Done,
    )
}

/// Enabling succeeds only where the service has been set to start with Windows, and was
/// seen running or has been started.
pub proof fn enabling_succeeds_only_if_enabled(outcomes: Seq<Outcome>)
    ensures
        step_after_all(Step::EnableManager, outcomes) is Finished ==> has_enabled(
            Step::EnableManager,
            outcomes,
        ),
{
    lemma_enabling(Step::EnableManager, outcomes);
}

/// Disabling succeeds only where the service was seen stopped, and has been set not to start
/// with Windows.
pub proof fn disabling_succeeds_only_if_stopped(outcomes: Seq<Outcome>)
    ensures
        step_after_all(Step::DisableManager, outcomes) is Finished ==> {
            let first = Step::DisableManager;
            &&& has_come_out(first, outcomes, Operation::QueryStatus, Outcome::Stopped)
            &&& has_come_out(
                first,
                outcomes,
                Operation::ChangeConfig(StartType::Disabled),
                Outcome::Done,
            )
        },
{
    lemma_disabling(outcomes);
}

/// A removal succeeds only where the service was seen stopped, has been deleted, and its
/// files have been removed.
pub proof fn removal_succeeds_only_if_stopped_and_removed(outcomes: Seq<Outcome>)
    ensures
        step_after_all(Step::UninstallManager, outcomes) is Finished ==> {
            let first = Step::UninstallManager;
            &&& has_come_out(first, outcomes, Operation::QueryStatus, Outcome::Stopped)
            &&& has_come_out(first, outcomes, Operation::DeleteService, Outcome::Done)
            &&& has_come_out(first, outcomes, Operation::RemoveFiles, Outcome::Done)
        },
{
    lemma_removal(outcomes);
}

/// An installation succeeds only where the program has been copied, the list fetched, and
/// the service registered and started; or where the service was there, and is enabled.
pub proof fn installation_succeeds_only_if_started(outcomes: Seq<Outcome>)
    ensures
        step_after_all(Step::InstallManager, outcomes) is Finished ==> {
            let first = Step::InstallManager;
            ||| has_enabled(first, outcomes)
            ||| {
                &&& has_come_out(first, outcomes, Operation::CopyProgram, Outcome::Done)
                &&& has_come_out(first, outcomes, Operation::DownloadList, Outcome::Done)
                &&& has_come_out(
                    first,
                    outcomes,
                    Operation::CreateService(StartType::AutoStart),
                    Outcome::Done,
                )
                &&& has_come_out(first, outcomes, Operation::StartService, Outcome::Done)
            }
        },
{
    lemma_enabling(Step::InstallManager, outcomes);
}

proof fn lemma_enabling(first: Step, outcomes: Seq<Outcome>)
    requires
        first == Step::EnableManager || first == Step::InstallManager,
    ensures
        ({
            let auto = has_come_out(
                first,
                outcomes,
                Operation::ChangeConfig(StartType::AutoStart),
                Outcome::Done,
            );
            let copied = has_come_out(first, outcomes, Operation::CopyProgram, Outcome::Done);
            let fetched = has_come_out(first, outcomes, Operation::DownloadList, Outcome::Done);
            let created = has_come_out(
                first,
                outcomes,
                Operation::CreateService(StartType::AutoStart),
                Outcome::Done,
            );
            let started = has_come_out(first, outcomes, Operation::StartService, Outcome::Done);
            match step_after_all(first, outcomes) {
                Step::EnableManager | Step::EnableOpen | Step::EnableConfigure => true,
                Step::EnableQuery | Step::EnableStart => auto,
                Step::InstallManager | Step::InstallLookup | Step::InstallCopy => first
                    == Step::InstallManager,
                Step::InstallDownload => first == Step::InstallManager && copied,
                Step::InstallCreate => first == Step::InstallManager && copied && fetched,
                Step::InstallStart => first == Step::InstallManager && copied && fetched && created,
                Step::Finished => has_enabled(first, outcomes) || (first == Step::InstallManager
                    && copied && fetched && created && started),
                Step::Aborted => true,
                _ => false,
            }
        }),
    decreases outcomes.len(),
{
    if outcomes.len() > 0 {
        lemma_enabling(first, outcomes.drop_last());
    }
}

proof fn lemma_disabling(outcomes: Seq<Outcome>)
    ensures
        ({
            let first = Step::DisableManager;
            let halted = has_come_out(first, outcomes, Operation::QueryStatus, Outcome::Stopped);
            match step_after_all(first, outcomes) {
                Step::DisableManager
                | Step::DisableOpen
                | Step::DisableQuery
                | Step::DisableStop
                | Step::DisablePause(_)
                | Step::DisablePoll(_)
                | Step::Aborted => true,
                Step::DisableConfigure { stopped } => stopped ==> halted,
                Step::Finished => halted && has_come_out(
                    first,
                    outcomes,
                    Operation::ChangeConfig(StartType::Disabled),
                    Outcome::Done,
                ),
                _ => false,
            }
        }),
    decreases outcomes.len(),
{
    if outcomes.len() > 0 {
        lemma_disabling(outcomes.drop_last());
    }
}

proof fn lemma_removal(outcomes: Seq<Outcome>)
    ensures
        ({
            let first = Step::UninstallManager;
            let halted = has_come_out(first, outcomes, Operation::QueryStatus, Outcome::Stopped);
            let deleted = has_come_out(first, outcomes, Operation::DeleteService, Outcome::Done);
            match step_after_all(first, outcomes) {
                Step::UninstallManager | Step::UninstallOpen | Step::Aborted => true,
                Step::UninstallDelete { stopped } => stopped ==> halted,
                Step::UninstallFiles { stopped } => deleted && (stopped ==> halted),
                Step::Finished => halted && deleted && has_come_out(
                    first,
                    outcomes,
                    Operation::RemoveFiles,
                    Outcome::Done,
                ),
                step => stopping(step),
            }
        }),
    decreases outcomes.len(),
{
    if outcomes.len() > 0 {
        lemma_removal(outcomes.drop_last());
    }
}

/// Installing a service that is there already is the same as enabling it.
pub proof fn installing_again_enables(outcomes: Seq<Outcome>)
    ensures
        step_after_all(
            Step::InstallManager,
            seq![Outcome::Done, Outcome::Done] + outcomes,
        ) == step_after_all(Step::EnableManager, outcomes),
    decreases outcomes.len(),
{
    let all = seq![Outcome::Done, Outcome::Done] + outcomes;
    if outcomes.len() == 0 {
        assert(all =~= seq![Outcome::Done, Outcome::Done]);
        assert(all.drop_last() =~= seq![Outcome::Done]);
        assert(all.drop_last().drop_last() =~= seq![]);
        reveal_with_fuel(step_after_all, 3);
    } else {
        assert(all.drop_last() =~= seq![Outcome::Done, Outcome::Done] + outcomes.drop_last());
        installing_again_enables(outcomes.drop_last());
    }
}

} // verus!
