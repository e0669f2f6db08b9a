//! The process supervisor.
//!
//! The supervisor owns the handle of the core process and the flag that says
//! whether the core runs under the background service. Everything that takes
//! time or touches the machine (starting and killing processes, sleeping,
//! writing files, calling the core's control endpoint) is done by the host.
//! The supervisor decides: each operation is a small machine that is given
//! the reply to the action it asked for last and answers with the next
//! action, until it answers [`Action::Finished`] or [`Action::Failed`].

use crate::output::{parse_check_output, spec_check_error};
use crate::text::{contains_text, decimal, parse_u32, spec_contains, spec_decimal, spec_parse_u32};
use crate::variant::{ClashCore, ConfigType};
use vstd::prelude::*;
use vstd::string::StringExecFns;

verus! {

/// How long the host waits after the old instance was stopped, so that the
/// listening port is released before the next start.
pub const SETTLE_DELAY_MS: u64 = 500;

/// How long a recovery waits before it looks whether a new instance is
/// there. It is long enough to outlast the settle delay of a variant switch.
pub const RECOVERY_DELAY_MS: u64 = 6666;

/// The pause between two attempts to push the configuration.
pub const PUSH_RETRY_DELAY_MS: u64 = 250;

/// The number of attempts to push the configuration to the running core.
pub const PUSH_ATTEMPTS: u8 = 5;

/// The family of the operating system, which decides the control paths that
/// exist: only Windows has the background service, only macOS has system DNS
/// settings to set for the tunnel mode.
#[derive(Debug, Clone, Copy, PartialEq, Eq, Structural)]
pub enum Platform {
    Windows,
    MacOs,
    Other,
}

/// What the application settings say about how the core is launched.
#[derive(Debug, Clone, Copy, PartialEq, Eq, Structural)]
pub struct LaunchSettings {
    pub core: ClashCore,
    pub service_mode: bool,
    pub tun_mode: bool,
}

/// Why an operation of the supervisor failed.
#[derive(Debug, PartialEq, Eq)]
pub enum CoreError {
    /// The core rejected the configuration in its validate-only mode.
    ConfigInvalid(String),
    /// The external controller port could not be resolved.
    PortUnavailable(String),
    /// The core binary could not be launched.
    ProcessSpawnFailed(String),
    /// Every attempt to push the configuration to the running core failed.
    ApiPushFailed(String),
    /// The configuration could not be generated or written.
    ConfigWrite(String),
    /// The system DNS settings could not be set for the tunnel mode.
    SystemDns(String),
    /// No core variant was given to switch to.
    NoCore,
    /// The host answered with a reply that does not fit the action.
    UnexpectedReply,
}

impl CoreError {
    /// The error in words: the reason that came with it, or what went wrong
    /// where none came.
    pub open spec fn spec_message(self) -> Seq<char> {
        match self {
            CoreError::ConfigInvalid(why) => why@,
            CoreError::PortUnavailable(why) => why@,
            CoreError::ProcessSpawnFailed(why) => "failed to launch the core: "@ + why@,
            CoreError::ApiPushFailed(why) => why@,
            CoreError::ConfigWrite(why) => why@,
            CoreError::SystemDns(why) => "failed to set the system dns: "@ + why@,
            CoreError::NoCore => "clash core is null"@,
            CoreError::UnexpectedReply => "the core was launched without a process id"@,
        }
    }

    /// The error in words.
    pub fn message(&self) -> (text: String)
        ensures
            text@ == self.spec_message(),
    {
        match self {
            CoreError::ConfigInvalid(why) => why.clone(),
            CoreError::PortUnavailable(why) => why.clone(),
            CoreError::ProcessSpawnFailed(why) => {
                let mut text = String::from_str("failed to launch the core: ");
                text.append(why.as_str());
                text
            },
            CoreError::ApiPushFailed(why) => why.clone(),
            CoreError::ConfigWrite(why) => why.clone(),
            CoreError::SystemDns(why) => {
                let mut text = String::from_str("failed to set the system dns: ");
                text.append(why.as_str());
                text
            },
            CoreError::NoCore => String::from_str("clash core is null"),
            CoreError::UnexpectedReply => String::from_str(
                "the core was launched without a process id",
            ),
        }
    }
}

/// What the supervisor asks the host to do next.
#[derive(Debug, PartialEq, Eq)]
pub enum Action {
    /// Kill the child process with this id.
    KillSidecar(u32),
    /// Stop the core through the background service.
    StopService,
    /// Wait for this many milliseconds.
    Sleep(u64),
    /// Resolve the external controller port.
    PreparePort,
    /// Put the change of variant into the settings draft.
    StageCore(ClashCore),
    /// Rebuild the runtime configuration into its draft.
    GenerateConfig,
    /// Write the runtime configuration to the file of this kind.
    WriteConfig(ConfigType),
    /// Run the core in validate-only mode on the check file.
    Validate(ClashCore),
    /// Point the system DNS at the tunnel device.
    SetSystemDns,
    /// Put the system DNS back.
    ResetSystemDns,
    /// Start the core through the background service.
    StartService,
    /// Launch the core as a child process and forward its output.
    SpawnSidecar(ClashCore),
    /// Write the id of the launched process to the pid record.
    RecordPid(u32),
    /// Send the runtime configuration to the running core.
    PushConfig,
    /// Commit the settings draft and the runtime draft.
    CommitDrafts,
    /// Discard the settings draft and the runtime draft.
    DiscardDrafts,
    /// Persist the committed settings.
    SaveSettings,
    /// Commit the runtime draft.
    CommitRuntime,
    /// Discard the runtime draft.
    DiscardRuntime,
    /// Read the pid record left by the last run.
    ReadPidRecord,
    /// Look up the name of the process with this id.
    FindProcess(u32),
    /// Kill the process with this id, left over from the last run.
    KillProcess(u32),
    /// The operation ended well.
    Finished,
    /// The operation ended with this error.
    Failed(CoreError),
    /// The operation ended earlier; nothing is asked.
    Idle,
}

/// What the host answers after it carried out an action.
#[derive(Debug, PartialEq, Eq)]
pub enum Reply {
    /// The action was carried out.
    Done,
    /// The action failed, with the reason in words.
    Failed(String),
    /// A child process was launched under this id.
    Spawned(u32),
    /// The text that was read.
    Content(String),
    /// The name of the process that was looked up.
    ProcessName(String),
}

/// The steps of a start.
#[derive(Debug, Clone, Copy, PartialEq, Eq, Structural)]
pub enum RunCore {
    Start,
    Killing,
    StoppingService,
    Settling,
    PreparingPort,
    WritingConfig,
    SettingDns,
    StartingService,
    Spawning,
    Recording(u32),
    Closed,
}

/// The steps of a stop.
#[derive(Debug, Clone, Copy, PartialEq, Eq, Structural)]
pub enum StopCore {
    Start,
    StoppingService,
    ResettingDns,
    Killing,
    Closed,
}

/// The steps of a validation.
#[derive(Debug, Clone, Copy, PartialEq, Eq, Structural)]
pub enum CheckConfig {
    Start,
    Writing,
    Validating,
    Closed,
}

/// The steps of a switch to another core variant.
#[derive(Debug, PartialEq, Eq)]
pub enum ChangeCore {
    /// Nothing was done yet; the variant that is asked for.
    Start(Option<ClashCore>),
    Staging(ClashCore),
    Generating(ClashCore),
    Checking(ClashCore, CheckConfig),
    Running(ClashCore, RunCore),
    Committing,
    Saving,
    /// The drafts are being discarded because of this error.
    Discarding(CoreError),
    Closed,
}

/// The steps of a reload of the running core.
#[derive(Debug, PartialEq, Eq)]
pub enum UpdateConfig {
    Start,
    Generating,
    Checking(CheckConfig),
    WritingRun,
    /// The attempt of this number was sent.
    Pushing(u8),
    /// The attempt of this number failed and the pause was asked for.
    Waiting(u8),
    Committing,
    /// The runtime draft is being discarded because of this error.
    Discarding(CoreError),
    Closed,
}

/// The steps of a recovery.
#[derive(Debug, Clone, Copy, PartialEq, Eq, Structural)]
pub enum RecoverCore {
    /// Nothing was done yet; the id of the child process that ended.
    Start(u32),
    Killing,
    Waiting,
    Running(RunCore),
    Closed,
}

/// The steps of the launch of the application: the instance that the last
/// run left behind is cleaned up, then the core is started.
#[derive(Debug, Clone, Copy, PartialEq, Eq, Structural)]
pub enum InitCore {
    Start,
    ReadingRecord,
    FindingProcess(u32),
    KillingStale,
    Running(RunCore),
    Closed,
}

/// What the child process let its watcher know.
#[derive(Debug, PartialEq, Eq)]
pub enum CoreOutput {
    /// A line on standard output.
    Stdout(String),
    /// A line on standard error.
    Stderr(String),
    /// An error of the stream itself.
    Error(String),
    /// The process of this id ended.
    Terminated(u32),
    /// Anything else.
    Other,
}

/// What the watcher does with what it was let know.
#[derive(Debug, PartialEq, Eq)]
pub enum Watch {
    /// Hand the line to the log and go on watching.
    Forward(String),
    /// Stop watching and begin a recovery for the child of this id.
    Recover(u32),
    /// Go on watching.
    Ignore,
}

/// The handle on the running core: a child process that the supervisor
/// owns, or the background service that runs the core for it.
#[derive(Debug, Clone, Copy, PartialEq, Eq, Structural)]
pub enum ProcessHandle {
    Sidecar(u32),
    Service,
}

/// What the supervisor holds, as plain values.
pub struct ManagerView {
    /// The id of the child process that the supervisor owns, if any.
    pub sidecar: Option<u32>,
    /// Whether the core was handed to the background service.
    pub use_service_mode: bool,
    /// Whether a start is under way: it has begun and has not ended yet.
    pub starting: bool,
    pub platform: Platform,
}

impl ManagerView {
    /// Whether a stop has to go through the background service.
    pub open spec fn targets_service(self) -> bool {
        self.platform == Platform::Windows && self.use_service_mode
    }

    /// Whether an instance is in the supervisor's hands: a child process that
    /// it owns, or the core under the background service.
    pub open spec fn has_handle(self) -> bool {
        self.sidecar is Some || self.targets_service()
    }

    /// The handle on the running core, if there is one. A stop turns to the
    /// service first, so the service is the handle where the flag is set.
    pub open spec fn handle(self) -> Option<ProcessHandle> {
        if self.targets_service() {
            Some(ProcessHandle::Service)
        } else {
            match self.sidecar {
                Some(pid) => Some(ProcessHandle::Sidecar(pid)),
                None => None,
            }
        }
    }

    pub open spec fn with_sidecar(self, sidecar: Option<u32>) -> ManagerView {
        ManagerView { sidecar, ..self }
    }

    pub open spec fn with_service_mode(self, use_service_mode: bool) -> ManagerView {
        ManagerView { use_service_mode, ..self }
    }

    pub open spec fn with_starting(self, starting: bool) -> ManagerView {
        ManagerView { starting, ..self }
    }
}

/// The supervisor of the core process. It holds at most one process handle.
#[derive(Debug)]
pub struct CoreManager {
    sidecar: Option<u32>,
    use_service_mode: bool,
    starting: bool,
    platform: Platform,
}

impl View for CoreManager {
    type V = ManagerView;

    closed spec fn view(&self) -> ManagerView {
        ManagerView {
            sidecar: self.sidecar,
            use_service_mode: self.use_service_mode,
            starting: self.starting,
            platform: self.platform,
        }
    }
}

/// The launch itself: through the service where the settings ask for it and
/// the platform has it, else as a child process. On Windows the flag follows
/// the settings here.
pub open spec fn spec_launch(m: ManagerView, s: LaunchSettings) -> (ManagerView, RunCore, Action) {
    if m.platform == Platform::Windows {
        if s.service_mode {
            (m.with_service_mode(true), RunCore::StartingService, Action::StartService)
        } else {
            (m.with_service_mode(false), RunCore::Spawning, Action::SpawnSidecar(s.core))
        }
    } else {
        (m, RunCore::Spawning, Action::SpawnSidecar(s.core))
    }
}

/// One step of a start, but for the note of it in the supervisor's state.
///
/// A start first takes the old handle and has the old instance stopped, by
/// both control paths where both are active, and lets the port settle if
/// anything was stopped. It then has the port resolved and the runtime
/// configuration written; either failure ends the start. On macOS with the
/// tunnel mode the system DNS is set. Where the service is asked for, it is
/// tried first, and only its failure leads to the launch of a child process,
/// with the flag put back. The id of the child is recorded, and only then the
/// handle is installed.
pub open spec fn spec_run_step(m: ManagerView, at: RunCore, reply: Reply, s: LaunchSettings) -> (
    ManagerView,
    RunCore,
    Action,
) {
    match at {
        RunCore::Start => match m.sidecar {
            Some(pid) => (m.with_sidecar(None), RunCore::Killing, Action::KillSidecar(pid)),
            None => if m.targets_service() {
                (m, RunCore::StoppingService, Action::StopService)
            } else {
                (m, RunCore::PreparingPort, Action::PreparePort)
            },
        },
        RunCore::Killing => if m.targets_service() {
            (m, RunCore::StoppingService, Action::StopService)
        } else {
            (m, RunCore::Settling, Action::Sleep(SETTLE_DELAY_MS))
        },
        RunCore::StoppingService => (m, RunCore::Settling, Action::Sleep(SETTLE_DELAY_MS)),
        RunCore::Settling => (m, RunCore::PreparingPort, Action::PreparePort),
        RunCore::PreparingPort => match reply {
            Reply::Failed(why) => (m, RunCore::Closed, Action::Failed(CoreError::PortUnavailable(why))),
            _ => (m, RunCore::WritingConfig, Action::WriteConfig(ConfigType::Run)),
        },
        RunCore::WritingConfig => match reply {
            Reply::Failed(why) => (m, RunCore::Closed, Action::Failed(CoreError::ConfigWrite(why))),
            _ => if m.platform == Platform::MacOs && s.tun_mode {
                (m, RunCore::SettingDns, Action::SetSystemDns)
            } else {
                spec_launch(m, s)
            },
        },
        RunCore::SettingDns => match reply {
            Reply::Failed(why) => (m, RunCore::Closed, Action::Failed(CoreError::SystemDns(why))),
            _ => spec_launch(m, s),
        },
        RunCore::StartingService => match reply {
            Reply::Failed(_) => (
                m.with_service_mode(false),
                RunCore::Spawning,
                Action::SpawnSidecar(s.core),
            ),
            _ => (m, RunCore::Closed, Action::Finished),
        },
        RunCore::Spawning => match reply {
            Reply::Spawned(pid) => (m, RunCore::Recording(pid), Action::RecordPid(pid)),
            Reply::Failed(why) => (
                m,
                RunCore::Closed,
                Action::Failed(CoreError::ProcessSpawnFailed(why)),
            ),
            _ => (m, RunCore::Closed, Action::Failed(CoreError::UnexpectedReply)),
        },
        RunCore::Recording(pid) => (m.with_sidecar(Some(pid)), RunCore::Closed, Action::Finished),
        RunCore::Closed => (m, RunCore::Closed, Action::Idle),
    }
}

/// One step of a start. The supervisor notes that a start is under way from
/// its first step on, and that none is when the start has ended, well or
/// not.
pub open spec fn spec_run_core(m: ManagerView, at: RunCore, reply: Reply, s: LaunchSettings) -> (
    ManagerView,
    RunCore,
    Action,
) {
    let (m, next, action) = spec_run_step(m, at, reply, s);
    if action is Finished || action is Failed {
        (m.with_starting(false), next, action)
    } else if at == RunCore::Start {
        (m.with_starting(true), next, action)
    } else {
        (m, next, action)
    }
}

/// The end of a stop: the handle is taken and its process killed.
pub open spec fn spec_stop_sidecar(m: ManagerView) -> (ManagerView, StopCore, Action) {
    match m.sidecar {
        Some(pid) => (m.with_sidecar(None), StopCore::Killing, Action::KillSidecar(pid)),
        None => (m, StopCore::Closed, Action::Finished),
    }
}

/// One step of a stop.
///
/// Where the service holds the core, the stop goes through the service and
/// leaves the handle alone. Else, on macOS with the tunnel mode, the system
/// DNS is put back first; if that fails the flag is cleared, so that a later
/// stop does not turn to a service that never started. Then the child
/// process is killed.
pub open spec fn spec_stop_core(m: ManagerView, at: StopCore, reply: Reply, s: LaunchSettings) -> (
    ManagerView,
    StopCore,
    Action,
) {
    match at {
        StopCore::Start => if m.targets_service() {
            (m, StopCore::StoppingService, Action::StopService)
        } else if m.platform == Platform::MacOs && s.tun_mode {
            (m, StopCore::ResettingDns, Action::ResetSystemDns)
        } else {
            spec_stop_sidecar(m)
        },
        StopCore::StoppingService => (m, StopCore::Closed, Action::Finished),
        StopCore::ResettingDns => match reply {
            Reply::Failed(_) => spec_stop_sidecar(m.with_service_mode(false)),
            _ => spec_stop_sidecar(m),
        },
        StopCore::Killing => (m, StopCore::Closed, Action::Finished),
        StopCore::Closed => (m, StopCore::Closed, Action::Idle),
    }
}

/// One step of a validation: the check file is written, then the core is
/// run on it in validate-only mode. The supervisor's state plays no part.
pub open spec fn spec_check_config(at: CheckConfig, reply: Reply, s: LaunchSettings) -> (
    CheckConfig,
    Action,
) {
    match at {
        CheckConfig::Start => (CheckConfig::Writing, Action::WriteConfig(ConfigType::Check)),
        CheckConfig::Writing => match reply {
            Reply::Failed(why) => (CheckConfig::Closed, Action::Failed(CoreError::ConfigWrite(why))),
            _ => (CheckConfig::Validating, Action::Validate(s.core)),
        },
        CheckConfig::Validating => match reply {
            Reply::Failed(why) => (
                CheckConfig::Closed,
                Action::Failed(CoreError::ConfigInvalid(why)),
            ),
            _ => (CheckConfig::Closed, Action::Finished),
        },
        CheckConfig::Closed => (CheckConfig::Closed, Action::Idle),
    }
}

/// The settings with which the new variant is checked and started.
pub open spec fn spec_switched(s: LaunchSettings, core: ClashCore) -> LaunchSettings {
    LaunchSettings { core, ..s }
}

/// How a switch goes on after a step of its start: it commits when the start
/// ended well and discards when it failed.
pub open spec fn spec_change_after_run(
    m: ManagerView,
    core: ClashCore,
    run: RunCore,
    action: Action,
) -> (ManagerView, ChangeCore, Action) {
    match action {
        Action::Finished => (m, ChangeCore::Committing, Action::CommitDrafts),
        Action::Failed(e) => (m, ChangeCore::Discarding(e), Action::DiscardDrafts),
        Action::Idle => (m, ChangeCore::Closed, Action::Idle),
        _ => (m, ChangeCore::Running(core, run), action),
    }
}

/// One step of a switch to another core variant.
///
/// The variant is staged in the settings draft, the configuration is
/// rebuilt and validated, and only then the new variant is started, which is
/// what stops the old instance. When the start ended well both drafts are
/// committed and the settings saved. A failure at any stage after the
/// staging has both drafts discarded before the error is handed out.
pub open spec fn spec_change_core(m: ManagerView, at: ChangeCore, reply: Reply, s: LaunchSettings) -> (
    ManagerView,
    ChangeCore,
    Action,
) {
    match at {
        ChangeCore::Start(None) => (m, ChangeCore::Closed, Action::Failed(CoreError::NoCore)),
        ChangeCore::Start(Some(core)) => (m, ChangeCore::Staging(core), Action::StageCore(core)),
        ChangeCore::Staging(core) => (m, ChangeCore::Generating(core), Action::GenerateConfig),
        ChangeCore::Generating(core) => match reply {
            Reply::Failed(why) => (
                m,
                ChangeCore::Discarding(CoreError::ConfigWrite(why)),
                Action::DiscardDrafts,
            ),
            _ => {
                let (check, action) = spec_check_config(
                    CheckConfig::Start,
                    Reply::Done,
                    spec_switched(s, core),
                );
                (m, ChangeCore::Checking(core, check), action)
            },
        },
        ChangeCore::Checking(core, check) => {
            let (check, action) = spec_check_config(check, reply, spec_switched(s, core));
            match action {
                Action::Finished => {
                    let (m, run, action) = spec_run_core(
                        m,
                        RunCore::Start,
                        Reply::Done,
                        spec_switched(s, core),
                    );
                    spec_change_after_run(m, core, run, action)
                },
                Action::Failed(e) => (m, ChangeCore::Discarding(e), Action::DiscardDrafts),
                Action::Idle => (m, ChangeCore::Closed, Action::Idle),
                _ => (m, ChangeCore::Checking(core, check), action),
            }
        },
        ChangeCore::Running(core, run) => {
            let (m, run, action) = spec_run_core(m, run, reply, spec_switched(s, core));
            spec_change_after_run(m, core, run, action)
        },
        ChangeCore::Committing => (m, ChangeCore::Saving, Action::SaveSettings),
        ChangeCore::Saving => (m, ChangeCore::Closed, Action::Finished),
        ChangeCore::Discarding(e) => (m, ChangeCore::Closed, Action::Failed(e)),
        ChangeCore::Closed => (m, ChangeCore::Closed, Action::Idle),
    }
}

/// One step of a reload.
///
/// The configuration is rebuilt, validated and written, then pushed to the
/// running core. A failed push is tried again after a pause, up to
/// [`PUSH_ATTEMPTS`] attempts in all; only the failure of the last one ends
/// the reload with an error. A reload that ends well commits the runtime
/// draft; one that fails discards it before the error is handed out. The
/// process is never stopped or started.
pub open spec fn spec_update_config(at: UpdateConfig, reply: Reply, s: LaunchSettings) -> (
    UpdateConfig,
    Action,
) {
    match at {
        UpdateConfig::Start => (UpdateConfig::Generating, Action::GenerateConfig),
        UpdateConfig::Generating => match reply {
            Reply::Failed(why) => (
                UpdateConfig::Discarding(CoreError::ConfigWrite(why)),
                Action::DiscardRuntime,
            ),
            _ => {
                let (check, action) = spec_check_config(CheckConfig::Start, Reply::Done, s);
                (UpdateConfig::Checking(check), action)
            },
        },
        UpdateConfig::Checking(check) => {
            let (check, action) = spec_check_config(check, reply, s);
            match action {
                Action::Finished => (UpdateConfig::WritingRun, Action::WriteConfig(ConfigType::Run)),
                Action::Failed(e) => (UpdateConfig::Discarding(e), Action::DiscardRuntime),
                Action::Idle => (UpdateConfig::Closed, Action::Idle),
                _ => (UpdateConfig::Checking(check), action),
            }
        },
        UpdateConfig::WritingRun => match reply {
            Reply::Failed(why) => (
                UpdateConfig::Discarding(CoreError::ConfigWrite(why)),
                Action::DiscardRuntime,
            ),
            _ => (UpdateConfig::Pushing(1), Action::PushConfig),
        },
        UpdateConfig::Pushing(attempt) => match reply {
            Reply::Failed(why) => if attempt < PUSH_ATTEMPTS {
                (UpdateConfig::Waiting(attempt), Action::Sleep(PUSH_RETRY_DELAY_MS))
            } else {
                (UpdateConfig::Discarding(CoreError::ApiPushFailed(why)), Action::DiscardRuntime)
            },
            _ => (UpdateConfig::Committing, Action::CommitRuntime),
        },
        UpdateConfig::Waiting(attempt) => if attempt < PUSH_ATTEMPTS {
            (UpdateConfig::Pushing((attempt + 1) as u8), Action::PushConfig)
        } else {
            (UpdateConfig::Pushing(PUSH_ATTEMPTS), Action::PushConfig)
        },
        UpdateConfig::Committing => (UpdateConfig::Closed, Action::Finished),
        UpdateConfig::Discarding(e) => (UpdateConfig::Closed, Action::Failed(e)),
        UpdateConfig::Closed => (UpdateConfig::Closed, Action::Idle),
    }
}

/// The first step of a recovery, for the child process of this id that
/// ended. Where the service holds the core nothing is done. Where the
/// supervisor holds another child, or none, the process did not end behind
/// the supervisor's back: its handle was taken to stop it, or a newer
/// instance has its place, and nothing is done either. Else the handle is
/// taken, what is left of the process killed, and the host is asked to wait
/// before the recovery looks again.
pub open spec fn spec_recover_begin(m: ManagerView, pid: u32) -> (
    ManagerView,
    RecoverCore,
    Action,
) {
    if m.targets_service() || m.sidecar != Some(pid) {
        (m, RecoverCore::Closed, Action::Finished)
    } else {
        (m.with_sidecar(None), RecoverCore::Killing, Action::KillSidecar(pid))
    }
}

/// How a recovery goes on when its start failed: it waits anew, unless the
/// service holds the core by now.
pub open spec fn spec_recover_again(m: ManagerView) -> (ManagerView, RecoverCore, Action) {
    if m.targets_service() {
        (m, RecoverCore::Closed, Action::Finished)
    } else {
        (m, RecoverCore::Waiting, Action::Sleep(RECOVERY_DELAY_MS))
    }
}

/// How a recovery goes on after a step of its start: a start that failed
/// begins the recovery anew.
pub open spec fn spec_recover_after_run(m: ManagerView, run: RunCore, action: Action) -> (
    ManagerView,
    RecoverCore,
    Action,
) {
    match action {
        Action::Finished => (m, RecoverCore::Closed, Action::Finished),
        Action::Failed(_) => spec_recover_again(m),
        Action::Idle => (m, RecoverCore::Closed, Action::Idle),
        _ => (m, RecoverCore::Running(run), action),
    }
}

/// One step of a recovery.
///
/// After the wait the recovery looks again: if an instance is in the
/// supervisor's hands by then, or a start is under way, it ends there, else
/// it starts the core. It never
/// hands out an error and never gives up.
pub open spec fn spec_recover_core(m: ManagerView, at: RecoverCore, reply: Reply, s: LaunchSettings) -> (
    ManagerView,
    RecoverCore,
    Action,
) {
    match at {
        RecoverCore::Start(pid) => spec_recover_begin(m, pid),
        RecoverCore::Killing => (m, RecoverCore::Waiting, Action::Sleep(RECOVERY_DELAY_MS)),
        RecoverCore::Waiting => if m.has_handle() || m.starting {
            (m, RecoverCore::Closed, Action::Finished)
        } else {
            let (m, run, action) = spec_run_core(m, RunCore::Start, Reply::Done, s);
            spec_recover_after_run(m, run, action)
        },
        RecoverCore::Running(run) => {
            let (m, run, action) = spec_run_core(m, run, reply, s);
            spec_recover_after_run(m, run, action)
        },
        RecoverCore::Closed => (m, RecoverCore::Closed, Action::Idle),
    }
}

/// How the launch of the application goes on after a step of its start.
/// A start that failed is not an error of the launch.
pub open spec fn spec_init_after_run(m: ManagerView, run: RunCore, action: Action) -> (
    ManagerView,
    InitCore,
    Action,
) {
    match action {
        Action::Finished => (m, InitCore::Closed, Action::Finished),
        Action::Failed(_) => (m, InitCore::Closed, Action::Finished),
        Action::Idle => (m, InitCore::Closed, Action::Idle),
        _ => (m, InitCore::Running(run), action),
    }
}

/// The start at the end of the launch of the application.
pub open spec fn spec_init_run(m: ManagerView, s: LaunchSettings) -> (ManagerView, InitCore, Action) {
    let (m, run, action) = spec_run_core(m, RunCore::Start, Reply::Done, s);
    spec_init_after_run(m, run, action)
}

/// The name by which a process is taken for a core that was left behind.
pub open spec fn spec_is_stale_core(name: Seq<char>) -> bool {
    spec_contains(name, "clash"@)
}

/// One step of the launch of the application.
///
/// The pid record of the last run is read. Where it holds a process id and
/// a process of that id is there under a name with `clash` in it, that
/// process is killed. Whatever came of that, the core is started.
pub open spec fn spec_init_core(m: ManagerView, at: InitCore, reply: Reply, s: LaunchSettings) -> (
    ManagerView,
    InitCore,
    Action,
) {
    match at {
        InitCore::Start => (m, InitCore::ReadingRecord, Action::ReadPidRecord),
        InitCore::ReadingRecord => match reply {
            Reply::Content(text) => match spec_parse_u32(text@) {
                Some(pid) => (m, InitCore::FindingProcess(pid), Action::FindProcess(pid)),
                None => spec_init_run(m, s),
            },
            _ => spec_init_run(m, s),
        },
        InitCore::FindingProcess(pid) => match reply {
            Reply::ProcessName(name) => if spec_is_stale_core(name@) {
                (m, InitCore::KillingStale, Action::KillProcess(pid))
            } else {
                spec_init_run(m, s)
            },
            _ => spec_init_run(m, s),
        },
        InitCore::KillingStale => spec_init_run(m, s),
        InitCore::Running(run) => {
            let (m, run, action) = spec_run_core(m, run, reply, s);
            spec_init_after_run(m, run, action)
        },
        InitCore::Closed => (m, InitCore::Closed, Action::Idle),
    }
}

/// What the watcher of a child process does with what it is let know.
pub open spec fn spec_watch_output(event: CoreOutput) -> Watch {
    match event {
        CoreOutput::Stdout(line) => Watch::Forward(line),
        CoreOutput::Stderr(line) => Watch::Forward(line),
        CoreOutput::Error(line) => Watch::Forward(line),
        CoreOutput::Terminated(pid) => Watch::Recover(pid),
        CoreOutput::Other => Watch::Ignore,
    }
}

/// Decides what the watcher of a child process does next.
pub fn watch_output(event: CoreOutput) -> (watch: Watch)
    ensures
        watch == spec_watch_output(event),
{
    match event {
        CoreOutput::Stdout(line) => Watch::Forward(line),
        CoreOutput::Stderr(line) => Watch::Forward(line),
        CoreOutput::Error(line) => Watch::Forward(line),
        CoreOutput::Terminated(pid) => Watch::Recover(pid),
        CoreOutput::Other => Watch::Ignore,
    }
}

/// What a failed validate-only run is reported with: the error that its
/// output reports or, where that is empty, the output itself.
pub open spec fn spec_validation_error(output: Seq<char>) -> Seq<char> {
    if spec_check_error(output).len() > 0 {
        spec_check_error(output)
    } else {
        output
    }
}

/// The reply to a validate-only run, from whether the run ended well and
/// what it printed.
pub fn validation_reply(success: bool, output: String) -> (reply: Reply)
    ensures
        success ==> reply == Reply::Done,
        !success ==> (reply matches Reply::Failed(why) && why@ == spec_validation_error(output@)),
{
    if success {
        Reply::Done
    } else {
        let parsed = parse_check_output(output.as_str());
        if parsed.as_str().unicode_len() > 0 {
            Reply::Failed(parsed)
        } else {
            Reply::Failed(output)
        }
    }
}

/// The content of the pid record: the process id in decimal.
pub fn pid_record(pid: u32) -> (record: String)
    ensures
        record@ == spec_decimal(pid as nat),
{
    decimal(pid as u64)
}

impl CoreManager {
    /// A supervisor that holds no process and does not use the service.
    pub fn new(platform: Platform) -> (manager: CoreManager)
        ensures
            manager@ == (ManagerView {
                sidecar: None,
                use_service_mode: false,
                starting: false,
                platform,
            }),
    {
        CoreManager { sidecar: None, use_service_mode: false, starting: false, platform }
    }

    /// Whether a start is under way.
    pub fn is_starting(&self) -> (starting: bool)
        ensures
            starting == self@.starting,
    {
        self.starting
    }

    /// The id of the child process that the supervisor owns.
    pub fn sidecar(&self) -> (pid: Option<u32>)
        ensures
            pid == self@.sidecar,
    {
        self.sidecar
    }

    /// Whether the core was handed to the background service.
    pub fn use_service_mode(&self) -> (flag: bool)
        ensures
            flag == self@.use_service_mode,
    {
        self.use_service_mode
    }

    pub fn platform(&self) -> (platform: Platform)
        ensures
            platform == self@.platform,
    {
        self.platform
    }

    /// The handle on the running core, if there is one.
    pub fn handle(&self) -> (handle: Option<ProcessHandle>)
        ensures
            handle == self@.handle(),
            handle is Some <==> self@.has_handle(),
    {
        if self.targets_service() {
            Some(ProcessHandle::Service)
        } else {
            match self.sidecar {
                Some(pid) => Some(ProcessHandle::Sidecar(pid)),
                None => None,
            }
        }
    }

    /// Whether an instance is in the supervisor's hands.
    pub fn has_handle(&self) -> (yes: bool)
        ensures
            yes == self@.has_handle(),
    {
        self.sidecar.is_some() || self.targets_service()
    }

    fn targets_service(&self) -> (yes: bool)
        ensures
            yes == self@.targets_service(),
    {
        match self.platform {
            Platform::Windows => self.use_service_mode,
            _ => false,
        }
    }

    fn launch(&mut self, settings: &LaunchSettings) -> (next: (RunCore, Action))
        ensures
            (final(self)@, next.0, next.1) == spec_launch(old(self)@, *settings),
    {
        match self.platform {
            Platform::Windows => {
                self.use_service_mode = settings.service_mode;
                if settings.service_mode {
                    (RunCore::StartingService, Action::StartService)
                } else {
                    (RunCore::Spawning, Action::SpawnSidecar(settings.core))
                }
            },
            _ => (RunCore::Spawning, Action::SpawnSidecar(settings.core)),
        }
    }

    /// Takes a start one step further: `reply` answers the action that the
    /// last step asked for, and is not looked at in the first step.
    pub fn run_core(&mut self, at: RunCore, reply: Reply, settings: &LaunchSettings) -> (next: (
        RunCore,
        Action,
    ))
        ensures
            (final(self)@, next.0, next.1) == spec_run_core(old(self)@, at, reply, *settings),
    {
        let first = match at {
            RunCore::Start => true,
            _ => false,
        };
        let (next, action) = self.run_step(at, reply, settings);
        let ended = match &action {
            Action::Finished => true,
            Action::Failed(_) => true,
            _ => false,
        };
        if ended {
            self.starting = false;
        } else if first {
            self.starting = true;
        }
        (next, action)
    }

    fn run_step(&mut self, at: RunCore, reply: Reply, settings: &LaunchSettings) -> (next: (
        RunCore,
        Action,
    ))
        ensures
            (final(self)@, next.0, next.1) == spec_run_step(old(self)@, at, reply, *settings),
    {
        match at {
            RunCore::Start => match self.sidecar {
                Some(pid) => {
                    self.sidecar = None;
                    (RunCore::Killing, Action::KillSidecar(pid))
                },
                None => if self.targets_service() {
                    (RunCore::StoppingService, Action::StopService)
                } else {
                    (RunCore::PreparingPort, Action::PreparePort)
                },
            },
            RunCore::Killing => if self.targets_service() {
                (RunCore::StoppingService, Action::StopService)
            } else {
                (RunCore::Settling, Action::Sleep(SETTLE_DELAY_MS))
            },
            RunCore::StoppingService => (RunCore::Settling, Action::Sleep(SETTLE_DELAY_MS)),
            RunCore::Settling => (RunCore::PreparingPort, Action::PreparePort),
            RunCore::PreparingPort => match reply {
                Reply::Failed(why) => (
                    RunCore::Closed,
                    Action::Failed(CoreError::PortUnavailable(why)),
                ),
                _ => (RunCore::WritingConfig, Action::WriteConfig(ConfigType::Run)),
            },
            RunCore::WritingConfig => match reply {
                Reply::Failed(why) => (RunCore::Closed, Action::Failed(CoreError::ConfigWrite(why))),
                _ => {
                    let on_mac = match self.platform {
                        Platform::MacOs => true,
                        _ => false,
                    };
                    if on_mac && settings.tun_mode {
                        (RunCore::SettingDns, Action::SetSystemDns)
                    } else {
                        self.launch(settings)
                    }
                },
            },
            RunCore::SettingDns => match reply {
                Reply::Failed(why) => (RunCore::Closed, Action::Failed(CoreError::SystemDns(why))),
                _ => self.launch(settings),
            },
            RunCore::StartingService => match reply {
                Reply::Failed(_) => {
                    self.use_service_mode = false;
                    (RunCore::Spawning, Action::SpawnSidecar(settings.core))
                },
                _ => (RunCore::Closed, Action::Finished),
            },
            RunCore::Spawning => match reply {
                Reply::Spawned(pid) => (RunCore::Recording(pid), Action::RecordPid(pid)),
                Reply::Failed(why) => (
                    RunCore::Closed,
                    Action::Failed(CoreError::ProcessSpawnFailed(why)),
                ),
                _ => (RunCore::Closed, Action::Failed(CoreError::UnexpectedReply)),
            },
            RunCore::Recording(pid) => {
                self.sidecar = Some(pid);
                (RunCore::Closed, Action::Finished)
            },
            RunCore::Closed => (RunCore::Closed, Action::Idle),
        }
    }

    fn stop_sidecar(&mut self) -> (next: (StopCore, Action))
        ensures
            (final(self)@, next.0, next.1) == spec_stop_sidecar(old(self)@),
    {
        match self.sidecar {
            Some(pid) => {
                self.sidecar = None;
                (StopCore::Killing, Action::KillSidecar(pid))
            },
            None => (StopCore::Closed, Action::Finished),
        }
    }

    /// Takes a stop one step further.
    pub fn stop_core(&mut self, at: StopCore, reply: Reply, settings: &LaunchSettings) -> (next: (
        StopCore,
        Action,
    ))
        ensures
            (final(self)@, next.0, next.1) == spec_stop_core(old(self)@, at, reply, *settings),
    {
        match at {
            StopCore::Start => {
                let on_mac = match self.platform {
                    Platform::MacOs => true,
                    _ => false,
                };
                if self.targets_service() {
                    (StopCore::StoppingService, Action::StopService)
                } else if on_mac && settings.tun_mode {
                    (StopCore::ResettingDns, Action::ResetSystemDns)
                } else {
                    self.stop_sidecar()
                }
            },
            StopCore::StoppingService => (StopCore::Closed, Action::Finished),
            StopCore::ResettingDns => match reply {
                Reply::Failed(_) => {
                    self.use_service_mode = false;
                    self.stop_sidecar()
                },
                _ => self.stop_sidecar(),
            },
            StopCore::Killing => (StopCore::Closed, Action::Finished),
            StopCore::Closed => (StopCore::Closed, Action::Idle),
        }
    }
    /// Takes a validation one step further.
    pub fn check_config(&self, at: CheckConfig, reply: Reply, settings: &LaunchSettings) -> (next: (
        CheckConfig,
        Action,
    ))
        ensures
            next == spec_check_config(at, reply, *settings),
    {
        match at {
            CheckConfig::Start => (CheckConfig::Writing, Action::WriteConfig(ConfigType::Check)),
            CheckConfig::Writing => match reply {
                Reply::Failed(why) => (
                    CheckConfig::Closed,
                    Action::Failed(CoreError::ConfigWrite(why)),
                ),
                _ => (CheckConfig::Validating, Action::Validate(settings.core)),
            },
            CheckConfig::Validating => match reply {
                Reply::Failed(why) => (
                    CheckConfig::Closed,
                    Action::Failed(CoreError::ConfigInvalid(why)),
                ),
                _ => (CheckConfig::Closed, Action::Finished),
            },
            CheckConfig::Closed => (CheckConfig::Closed, Action::Idle),
        }
    }

    fn change_after_run(core: ClashCore, run: RunCore, action: Action) -> (next: (
        ChangeCore,
        Action,
    ))
        ensures
            forall|m: ManagerView|
                (m, next.0, next.1) == #[trigger] spec_change_after_run(m, core, run, action),
    {
        match action {
            Action::Finished => (ChangeCore::Committing, Action::CommitDrafts),
            Action::Failed(e) => (ChangeCore::Discarding(e), Action::DiscardDrafts),
            Action::Idle => (ChangeCore::Closed, Action::Idle),
            other => (ChangeCore::Running(core, run), other),
        }
    }

    /// Takes a switch of variant one step further.
    pub fn change_core(&mut self, at: ChangeCore, reply: Reply, settings: &LaunchSettings) -> (next:
        (ChangeCore, Action))
        ensures
            (final(self)@, next.0, next.1) == spec_change_core(old(self)@, at, reply, *settings),
    {
        match at {
            ChangeCore::Start(None) => (ChangeCore::Closed, Action::Failed(CoreError::NoCore)),
            ChangeCore::Start(Some(core)) => (ChangeCore::Staging(core), Action::StageCore(core)),
            ChangeCore::Staging(core) => (ChangeCore::Generating(core), Action::GenerateConfig),
            ChangeCore::Generating(core) => match reply {
                Reply::Failed(why) => (
                    ChangeCore::Discarding(CoreError::ConfigWrite(why)),
                    Action::DiscardDrafts,
                ),
                _ => {
                    let switched = LaunchSettings { core, ..*settings };
                    let (check, action) = self.check_config(
                        CheckConfig::Start,
                        Reply::Done,
                        &switched,
                    );
                    (ChangeCore::Checking(core, check), action)
                },
            },
            ChangeCore::Checking(core, check) => {
                let switched = LaunchSettings { core, ..*settings };
                let (check, action) = self.check_config(check, reply, &switched);
                match action {
                    Action::Finished => {
                        let (run, action) = self.run_core(RunCore::Start, Reply::Done, &switched);
                        Self::change_after_run(core, run, action)
                    },
                    Action::Failed(e) => (ChangeCore::Discarding(e), Action::DiscardDrafts),
                    Action::Idle => (ChangeCore::Closed, Action::Idle),
                    other => (ChangeCore::Checking(core, check), other),
                }
            },
            ChangeCore::Running(core, run) => {
                let switched = LaunchSettings { core, ..*settings };
                let (run, action) = self.run_core(run, reply, &switched);
                Self::change_after_run(core, run, action)
            },
            ChangeCore::Committing => (ChangeCore::Saving, Action::SaveSettings),
            ChangeCore::Saving => (ChangeCore::Closed, Action::Finished),
            ChangeCore::Discarding(e) => (ChangeCore::Closed, Action::Failed(e)),
            ChangeCore::Closed => (ChangeCore::Closed, Action::Idle),
        }
    }

    /// Takes a reload one step further.
    pub fn update_config(&self, at: UpdateConfig, reply: Reply, settings: &LaunchSettings) -> (next:
        (UpdateConfig, Action))
        ensures
            next == spec_update_config(at, reply, *settings),
    {
        match at {
            UpdateConfig::Start => (UpdateConfig::Generating, Action::GenerateConfig),
            UpdateConfig::Generating => match reply {
                Reply::Failed(why) => (
                    UpdateConfig::Discarding(CoreError::ConfigWrite(why)),
                    Action::DiscardRuntime,
                ),
                _ => {
                    let (check, action) = self.check_config(
                        CheckConfig::Start,
                        Reply::Done,
                        settings,
                    );
                    (UpdateConfig::Checking(check), action)
                },
            },
            UpdateConfig::Checking(check) => {
                let (check, action) = self.check_config(check, reply, settings);
                match action {
                    Action::Finished => (
                        UpdateConfig::WritingRun,
                        Action::WriteConfig(ConfigType::Run),
                    ),
                    Action::Failed(e) => (UpdateConfig::Discarding(e), Action::DiscardRuntime),
                    Action::Idle => (UpdateConfig::Closed, Action::Idle),
                    other => (UpdateConfig::Checking(check), other),
                }
            },
            UpdateConfig::WritingRun => match reply {
                Reply::Failed(why) => (
                    UpdateConfig::Discarding(CoreError::ConfigWrite(why)),
                    Action::DiscardRuntime,
                ),
                _ => (UpdateConfig::Pushing(1), Action::PushConfig),
            },
            UpdateConfig::Pushing(attempt) => match reply {
                Reply::Failed(why) => if attempt < PUSH_ATTEMPTS {
                    (UpdateConfig::Waiting(attempt), Action::Sleep(PUSH_RETRY_DELAY_MS))
                } else {
                    (
                        UpdateConfig::Discarding(CoreError::ApiPushFailed(why)),
                        Action::DiscardRuntime,
                    )
                },
                _ => (UpdateConfig::Committing, Action::CommitRuntime),
            },
            UpdateConfig::Waiting(attempt) => if attempt < PUSH_ATTEMPTS {
                (UpdateConfig::Pushing(attempt + 1), Action::PushConfig)
            } else {
                (UpdateConfig::Pushing(PUSH_ATTEMPTS), Action::PushConfig)
            },
            UpdateConfig::Committing => (UpdateConfig::Closed, Action::Finished),
            UpdateConfig::Discarding(e) => (UpdateConfig::Closed, Action::Failed(e)),
            UpdateConfig::Closed => (UpdateConfig::Closed, Action::Idle),
        }
    }

    fn recover_begin(&mut self, pid: u32) -> (next: (RecoverCore, Action))
        ensures
            (final(self)@, next.0, next.1) == spec_recover_begin(old(self)@, pid),
    {
        let held = match self.sidecar {
            Some(held) => held == pid,
            None => false,
        };
        if self.targets_service() || !held {
            (RecoverCore::Closed, Action::Finished)
        } else {
            self.sidecar = None;
            (RecoverCore::Killing, Action::KillSidecar(pid))
        }
    }

    fn recover_again(&self) -> (next: (RecoverCore, Action))
        ensures
            (self@, next.0, next.1) == spec_recover_again(self@),
    {
        if self.targets_service() {
            (RecoverCore::Closed, Action::Finished)
        } else {
            (RecoverCore::Waiting, Action::Sleep(RECOVERY_DELAY_MS))
        }
    }

    fn recover_after_run(&mut self, run: RunCore, action: Action) -> (next: (RecoverCore, Action))
        ensures
            (final(self)@, next.0, next.1) == spec_recover_after_run(old(self)@, run, action),
    {
        match action {
            Action::Finished => (RecoverCore::Closed, Action::Finished),
            Action::Failed(_) => self.recover_again(),
            Action::Idle => (RecoverCore::Closed, Action::Idle),
            other => (RecoverCore::Running(run), other),
        }
    }

    /// Takes a recovery one step further.
    pub fn recover_core(&mut self, at: RecoverCore, reply: Reply, settings: &LaunchSettings) -> (next:
        (RecoverCore, Action))
        ensures
            (final(self)@, next.0, next.1) == spec_recover_core(old(self)@, at, reply, *settings),
    {
        match at {
            RecoverCore::Start(pid) => self.recover_begin(pid),
            RecoverCore::Killing => (RecoverCore::Waiting, Action::Sleep(RECOVERY_DELAY_MS)),
            RecoverCore::Waiting => if self.has_handle() || self.starting {
                (RecoverCore::Closed, Action::Finished)
            } else {
                let (run, action) = self.run_core(RunCore::Start, Reply::Done, settings);
                self.recover_after_run(run, action)
            },
            RecoverCore::Running(run) => {
                let (run, action) = self.run_core(run, reply, settings);
                self.recover_after_run(run, action)
            },
            RecoverCore::Closed => (RecoverCore::Closed, Action::Idle),
        }
    }
    fn init_after_run(run: RunCore, action: Action) -> (next: (InitCore, Action))
        ensures
            forall|m: ManagerView|
                (m, next.0, next.1) == #[trigger] spec_init_after_run(m, run, action),
    {
        match action {
            Action::Finished => (InitCore::Closed, Action::Finished),
            Action::Failed(_) => (InitCore::Closed, Action::Finished),
            Action::Idle => (InitCore::Closed, Action::Idle),
            other => (InitCore::Running(run), other),
        }
    }

    fn init_run(&mut self, settings: &LaunchSettings) -> (next: (InitCore, Action))
        ensures
            (final(self)@, next.0, next.1) == spec_init_run(old(self)@, *settings),
    {
        let (run, action) = self.run_core(RunCore::Start, Reply::Done, settings);
        Self::init_after_run(run, action)
    }

    /// Takes the launch of the application one step further.
    pub fn init(&mut self, at: InitCore, reply: Reply, settings: &LaunchSettings) -> (next: (
        InitCore,
        Action,
    ))
        ensures
            (final(self)@, next.0, next.1) == spec_init_core(old(self)@, at, reply, *settings),
    {
        match at {
            InitCore::Start => (InitCore::ReadingRecord, Action::ReadPidRecord),
            InitCore::ReadingRecord => match reply {
                Reply::Content(text) => match parse_u32(text.as_str()) {
                    Some(pid) => (InitCore::FindingProcess(pid), Action::FindProcess(pid)),
                    None => self.init_run(settings),
                },
                _ => self.init_run(settings),
            },
            InitCore::FindingProcess(pid) => match reply {
                Reply::ProcessName(name) => if contains_text(name.as_str(), "clash") {
                    (InitCore::KillingStale, Action::KillProcess(pid))
                } else {
                    self.init_run(settings)
                },
                _ => self.init_run(settings),
            },
            InitCore::KillingStale => self.init_run(settings),
            InitCore::Running(run) => {
                let (run, action) = self.run_core(run, reply, settings);
                Self::init_after_run(run, action)
            },
            InitCore::Closed => (InitCore::Closed, Action::Idle),
        }
    }
}

} // verus!
