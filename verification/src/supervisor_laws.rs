//! What holds of the supervisor's operations, whatever the host replies.

use crate::supervisor::{
    spec_change_after_run, spec_change_core, spec_check_config, spec_init_core,
    spec_is_stale_core, spec_recover_after_run,
    spec_recover_core, spec_run_core, spec_stop_core, spec_switched, spec_update_config, Action,
    ChangeCore, CheckConfig, CoreError, InitCore, LaunchSettings, ManagerView, Platform, RecoverCore, Reply,
    RunCore, StopCore, UpdateConfig, PUSH_ATTEMPTS, PUSH_RETRY_DELAY_MS, RECOVERY_DELAY_MS,
};
use crate::text::{parse_u32_reads_decimal, spec_decimal};
use crate::variant::{ClashCore, ConfigType};
use vstd::prelude::*;

verus! {

/// Whether an action stops or starts an instance of the core.
pub open spec fn touches_instance(action: Action) -> bool {
    action is KillSidecar || action is StopService || action is StartService
        || action is SpawnSidecar
}

/// Whether a start is at a step that the supervisor's state allows: the
/// service is only waited for after the flag was set on Windows.
pub open spec fn run_fits(m: ManagerView, at: RunCore) -> bool {
    at == RunCore::StartingService ==> m.targets_service()
}

/// A start keeps to the steps that the supervisor's state allows.
pub proof fn run_core_keeps_fit(m: ManagerView, at: RunCore, reply: Reply, s: LaunchSettings)
    requires
        run_fits(m, at),
    ensures
        run_fits(spec_run_core(m, at, reply, s).0, spec_run_core(m, at, reply, s).1),
{
}

/// A start that ends well leaves an instance in the supervisor's hands, and
/// a start never holds more than the one handle it installs last.
pub proof fn run_core_success_installs_handle(
    m: ManagerView,
    at: RunCore,
    reply: Reply,
    s: LaunchSettings,
)
    requires
        run_fits(m, at),
        spec_run_core(m, at, reply, s).2 == Action::Finished,
    ensures
        spec_run_core(m, at, reply, s).0.has_handle(),
        spec_run_core(m, at, reply, s).1 == RunCore::Closed,
{
}

/// A start stops the old instance before anything else, and asks for the
/// launch of a child only after the port was resolved and the runtime
/// configuration written.
pub proof fn run_core_launches_after_preparation(
    m: ManagerView,
    at: RunCore,
    reply: Reply,
    s: LaunchSettings,
)
    requires
        spec_run_core(m, at, reply, s).2 is SpawnSidecar || spec_run_core(m, at, reply, s).2
            is StartService,
    ensures
        at == RunCore::WritingConfig || at == RunCore::SettingDns || at
            == RunCore::StartingService,
        !(reply is Failed) || at == RunCore::StartingService,
        spec_run_core(m, at, reply, s).2 is SpawnSidecar ==> spec_run_core(m, at, reply, s).2
            == Action::SpawnSidecar(s.core),
{
}

/// The failure of the service leads to the launch of a child process, with
/// the flag cleared, and not to an error.
pub proof fn run_core_falls_back_to_sidecar(m: ManagerView, why: String, s: LaunchSettings)
    ensures
        spec_run_core(m, RunCore::StartingService, Reply::Failed(why), s) == (
            m.with_service_mode(false),
            RunCore::Spawning,
            Action::SpawnSidecar(s.core),
        ),
        !spec_run_core(m, RunCore::StartingService, Reply::Failed(why), s).0.targets_service(),
{
}

/// A validation asks for nothing but the check file and the validate-only
/// run, and fails with `ConfigInvalid` exactly when that run failed.
pub proof fn check_config_outcome(at: CheckConfig, reply: Reply, s: LaunchSettings)
    ensures
        !touches_instance(spec_check_config(at, reply, s).1),
        spec_check_config(at, reply, s).1 is Failed ==> reply is Failed,
        (spec_check_config(at, reply, s).1 matches Action::Failed(e) && e is ConfigInvalid) <==> (at
            == CheckConfig::Validating && reply is Failed),
        spec_check_config(at, reply, s).1 == Action::Finished <==> (at == CheckConfig::Validating
            && !(reply is Failed)),
{
}

/// Whether a switch has not yet begun to start the new variant.
pub open spec fn before_start(at: ChangeCore) -> bool {
    at is Start || at is Staging || at is Generating || at is Checking
}

/// Until the new configuration has passed validation a switch leaves the
/// supervisor's state as it is and asks for no instance to be stopped or
/// started: the step that first does is the one that received the good
/// answer of the validate-only run.
pub proof fn change_core_validates_before_start(
    m: ManagerView,
    at: ChangeCore,
    reply: Reply,
    s: LaunchSettings,
)
    requires
        before_start(at),
    ensures
        ({
            let (m1, at1, action) = spec_change_core(m, at, reply, s);
            let validated = at matches ChangeCore::Checking(_, check) && check
                == CheckConfig::Validating && !(reply is Failed);
            &&& !validated ==> m1 == m && !touches_instance(action) && (before_start(at1) || at1
                is Discarding || at1 is Closed)
            &&& validated ==> (m1, at1, action) == spec_change_after_run(
                spec_run_core(m, RunCore::Start, Reply::Done, spec_switched(s, at->Checking_0)).0,
                at->Checking_0,
                spec_run_core(m, RunCore::Start, Reply::Done, spec_switched(s, at->Checking_0)).1,
                spec_run_core(m, RunCore::Start, Reply::Done, spec_switched(s, at->Checking_0)).2,
            )
        }),
{
}

/// Whether a switch is at a step that the supervisor's state allows.
pub open spec fn change_fits(m: ManagerView, at: ChangeCore) -> bool {
    at matches ChangeCore::Running(_, run) ==> run_fits(m, run)
}

/// A switch commits only after its start ended well, with an instance in the
/// supervisor's hands, and hands out an error only after it asked for the
/// drafts to be discarded, unless no variant was given and nothing was
/// staged.
pub proof fn change_core_commits_or_discards(
    m: ManagerView,
    at: ChangeCore,
    reply: Reply,
    s: LaunchSettings,
)
    ensures
        ({
            let (m1, at1, action) = spec_change_core(m, at, reply, s);
            &&& change_fits(m, at) ==> change_fits(m1, at1)
            &&& change_fits(m, at) && action == Action::CommitDrafts ==> at1
                == ChangeCore::Committing && m1.has_handle()
            &&& action == Action::DiscardDrafts <==> at1 is Discarding
            &&& action matches Action::Failed(e) ==> at == ChangeCore::Discarding(e) || (at
                == ChangeCore::Start(None) && e == CoreError::NoCore)
            &&& at matches ChangeCore::Discarding(e) ==> (m1, at1, action) == (
                m,
                ChangeCore::Closed,
                Action::Failed(e),
            )
            &&& at == ChangeCore::Committing ==> (m1, at1, action) == (
                m,
                ChangeCore::Saving,
                Action::SaveSettings,
            )
            &&& at == ChangeCore::Saving ==> (m1, at1, action) == (
                m,
                ChangeCore::Closed,
                Action::Finished,
            )
        }),
{
}

/// A switch to a configuration that the core rejects: the variant is staged,
/// the configuration rebuilt and written, the validate-only run fails, the
/// drafts are discarded and the error is handed out. The supervisor's state,
/// and with it the id of the running instance, is what it was, and nothing
/// was asked that stops or starts an instance.
pub proof fn change_core_rejected_config_keeps_instance(
    m: ManagerView,
    core: ClashCore,
    s: LaunchSettings,
    staged: Reply,
    generated: Reply,
    written: Reply,
    why: String,
    discarded: Reply,
)
    requires
        !(generated is Failed),
        !(written is Failed),
    ensures
        ({
            let (m1, at1, a1) = spec_change_core(m, ChangeCore::Start(Some(core)), Reply::Done, s);
            let (m2, at2, a2) = spec_change_core(m1, at1, staged, s);
            let (m3, at3, a3) = spec_change_core(m2, at2, generated, s);
            let (m4, at4, a4) = spec_change_core(m3, at3, written, s);
            let (m5, at5, a5) = spec_change_core(m4, at4, Reply::Failed(why), s);
            let (m6, at6, a6) = spec_change_core(m5, at5, discarded, s);
            &&& a1 == Action::StageCore(core)
            &&& a2 == Action::GenerateConfig
            &&& a3 == Action::WriteConfig(ConfigType::Check)
            &&& a4 == Action::Validate(core)
            &&& a5 == Action::DiscardDrafts
            &&& a6 == Action::Failed(CoreError::ConfigInvalid(why))
            &&& at6 == ChangeCore::Closed
            &&& m6 == m
            &&& m6.sidecar == m.sidecar
        }),
{
}

/// A start never fails with `ConfigInvalid`: that error comes from the
/// validate-only run alone.
pub proof fn run_core_never_reports_invalid_config(
    m: ManagerView,
    at: RunCore,
    reply: Reply,
    s: LaunchSettings,
)
    ensures
        spec_run_core(m, at, reply, s).2 matches Action::Failed(e) ==> !(e is ConfigInvalid),
{
}

/// What a switch does when it is given these replies one after the other:
/// the supervisor's state and the step afterwards, and the actions that were
/// asked for.
pub open spec fn spec_change_run(
    m: ManagerView,
    at: ChangeCore,
    replies: Seq<Reply>,
    s: LaunchSettings,
) -> (ManagerView, ChangeCore, Seq<Action>)
    decreases replies.len(),
{
    if replies.len() == 0 {
        (m, at, Seq::empty())
    } else {
        let (m1, at1, action) = spec_change_core(m, at, replies[0], s);
        let (m2, at2, rest) = spec_change_run(m1, at1, replies.drop_first(), s);
        (m2, at2, seq![action] + rest)
    }
}

/// Whether a switch at this step has left the supervisor's state as it
/// found it, as far as a rejected configuration goes: before the start, and
/// while it discards because the configuration was rejected, the state is
/// the one the switch began with.
pub open spec fn untouched(m: ManagerView, at: ChangeCore, began: ManagerView) -> bool {
    &&& before_start(at) ==> m == began
    &&& (at matches ChangeCore::Discarding(e) && e is ConfigInvalid) ==> m == began
}

/// A switch that ends because the core rejected the configuration, however
/// the host replied on the way, leaves the supervisor's state as it was when
/// the switch began: the instance that ran still runs under the same
/// process id.
pub proof fn change_core_rejected_config_changes_nothing(
    m: ManagerView,
    at: ChangeCore,
    began: ManagerView,
    replies: Seq<Reply>,
    s: LaunchSettings,
)
    requires
        untouched(m, at, began),
        replies.len() > 0,
        spec_change_run(m, at, replies, s).2.last() matches Action::Failed(e) && e
            is ConfigInvalid,
    ensures
        spec_change_run(m, at, replies, s).0 == began,
        spec_change_run(m, at, replies, s).0.sidecar == began.sidecar,
    decreases replies.len(),
{
    let (m1, at1, action) = spec_change_core(m, at, replies[0], s);
    let rest = replies.drop_first();
    let (m2, at2, actions) = spec_change_run(m1, at1, rest, s);
    let all = seq![action] + actions;
    if at is Running {
        run_core_never_reports_invalid_config(
            m,
            at->Running_1,
            replies[0],
            spec_switched(s, at->Running_0),
        );
    }
    if at is Checking {
        run_core_never_reports_invalid_config(
            m,
            RunCore::Start,
            Reply::Done,
            spec_switched(s, at->Checking_0),
        );
    }
    assert(untouched(m1, at1, began));
    if rest.len() == 0 {
        assert(actions.len() == 0);
        assert(all.last() == action);
    } else {
        assert(all.last() == actions.last());
        change_core_rejected_config_changes_nothing(m1, at1, began, rest, s);
    }
}

/// After the start a switch only commits, saves or discards: the steps
/// that follow it leave the supervisor's state alone and ask for no instance
/// to be stopped or started.
pub proof fn change_core_settles_after_start(
    m: ManagerView,
    at: ChangeCore,
    reply: Reply,
    s: LaunchSettings,
)
    requires
        at is Committing || at is Saving || at is Discarding || at is Closed,
    ensures
        ({
            let (m1, at1, action) = spec_change_core(m, at, reply, s);
            &&& m1 == m
            &&& !touches_instance(action)
            &&& at1 is Saving || at1 is Closed
        }),
{
}

/// A stop through the service leaves the handle alone; any other stop ends
/// with no child process in the supervisor's hands.
pub proof fn stop_core_releases_sidecar(m: ManagerView, at: StopCore, reply: Reply, s: LaunchSettings)
    requires
        at == StopCore::Start || at == StopCore::ResettingDns,
    ensures
        ({
            let (m1, at1, action) = spec_stop_core(m, at, reply, s);
            &&& at1 == StopCore::StoppingService ==> m1 == m && at == StopCore::Start
                && m.targets_service()
            &&& at1 == StopCore::ResettingDns ==> m1 == m
            &&& at1 == StopCore::Killing ==> m1.sidecar is None && action == Action::KillSidecar(
                m.sidecar->0,
            ) && m.sidecar is Some
            &&& at1 == StopCore::Closed ==> m1.sidecar is None && action == Action::Finished
            &&& at == StopCore::ResettingDns && reply is Failed ==> !m1.use_service_mode
        }),
{
}

/// A start notes in the supervisor's state that it is under way: from its
/// first step until it ends, and no longer.
pub proof fn run_core_notes_the_start(m: ManagerView, at: RunCore, reply: Reply, s: LaunchSettings)
    ensures
        ({
            let (m1, at1, action) = spec_run_core(m, at, reply, s);
            &&& at == RunCore::Start ==> m1.starting && at1 != RunCore::Closed
            &&& (action is Finished || action is Failed) ==> !m1.starting && at1 == RunCore::Closed
            &&& at != RunCore::Start && !(action is Finished || action is Failed) ==> m1.starting
                == m.starting
        }),
{
}

/// A recovery acts only for the child that the supervisor holds. Where the
/// child that ended is the one in the handle, the handle is taken, what is
/// left of the process is killed, and the recovery delay is asked for. Where
/// the supervisor holds no child (the handle was taken to stop the process)
/// or another child (a newer instance), or the service holds the core, the
/// recovery ends at once and changes nothing.
pub proof fn recover_core_acts_for_the_held_child(
    m: ManagerView,
    pid: u32,
    reply: Reply,
    killed: Reply,
    s: LaunchSettings,
)
    ensures
        ({
            let (m1, at1, a1) = spec_recover_core(m, RecoverCore::Start(pid), reply, s);
            let (m2, at2, a2) = spec_recover_core(m1, at1, killed, s);
            &&& (m.targets_service() || m.sidecar != Some(pid)) ==> (m1, at1, a1) == (
                m,
                RecoverCore::Closed,
                Action::Finished,
            )
            &&& !m.targets_service() && m.sidecar == Some(pid) ==> {
                &&& (m1, at1, a1) == (
                    m.with_sidecar(None),
                    RecoverCore::Killing,
                    Action::KillSidecar(pid),
                )
                &&& (m2, at2, a2) == (
                    m.with_sidecar(None),
                    RecoverCore::Waiting,
                    Action::Sleep(RECOVERY_DELAY_MS),
                )
            }
        }),
{
}

/// A stop that was asked for is not followed by a new start: the stop takes
/// the handle, so the recovery that the end of the process sets off finds
/// that the supervisor does not hold that child, and ends.
pub proof fn stopped_child_is_not_recovered(
    m: ManagerView,
    pid: u32,
    reply: Reply,
    s: LaunchSettings,
)
    requires
        m.sidecar == Some(pid),
        !m.targets_service(),
        !(m.platform == Platform::MacOs && s.tun_mode),
    ensures
        ({
            let (m1, at1, a1) = spec_stop_core(m, StopCore::Start, reply, s);
            let (m2, at2, a2) = spec_recover_core(m1, RecoverCore::Start(pid), reply, s);
            &&& a1 == Action::KillSidecar(pid)
            &&& m1.sidecar is None
            &&& (m2, at2, a2) == (m1, RecoverCore::Closed, Action::Finished)
        }),
{
}

/// A recovery that finds an instance in the supervisor's hands after its
/// wait, or a start under way, ends there: it changes nothing and asks for
/// nothing.
pub proof fn recover_core_skips_when_handle_present(m: ManagerView, reply: Reply, s: LaunchSettings)
    requires
        m.has_handle() || m.starting,
    ensures
        spec_recover_core(m, RecoverCore::Waiting, reply, s) == (
            m,
            RecoverCore::Closed,
            Action::Finished,
        ),
{
}

/// A recovery that finds no instance and no start under way after its wait
/// begins a start, and never hands out an error: a start that fails sends it
/// back to waiting.
pub proof fn recover_core_never_fails(m: ManagerView, at: RecoverCore, reply: Reply, s: LaunchSettings)
    ensures
        !(spec_recover_core(m, at, reply, s).2 is Failed),
        at == RecoverCore::Waiting && !m.has_handle() && !m.starting ==> spec_recover_core(
            m,
            at,
            reply,
            s,
        ) == spec_recover_after_run(
            spec_run_core(m, RunCore::Start, Reply::Done, s).0,
            spec_run_core(m, RunCore::Start, Reply::Done, s).1,
            spec_run_core(m, RunCore::Start, Reply::Done, s).2,
        ),
{
}

/// A recovery begins a start only after its wait, and only when it found
/// no instance in the supervisor's hands and no start under way then. It
/// asks for a launch only within a start.
pub proof fn recover_core_starts_only_without_handle(
    m: ManagerView,
    at: RecoverCore,
    reply: Reply,
    s: LaunchSettings,
)
    ensures
        ({
            let (m1, at1, action) = spec_recover_core(m, at, reply, s);
            &&& at1 is Running ==> at is Running || (at == RecoverCore::Waiting && !m.has_handle()
                && !m.starting)
            &&& (action is SpawnSidecar || action is StartService) ==> at is Running
            &&& action == Action::Sleep(RECOVERY_DELAY_MS) ==> at1 == RecoverCore::Waiting
        }),
{
}

/// What two recoveries on one supervisor do when their steps come in this
/// order: each entry says whether the first or the second recovery takes
/// the step, and with which reply. The result is the supervisor's state and
/// the steps of both afterwards, and the actions that were asked for.
pub open spec fn spec_recover_pair(
    m: ManagerView,
    first: RecoverCore,
    second: RecoverCore,
    steps: Seq<(bool, Reply)>,
    s: LaunchSettings,
) -> (ManagerView, RecoverCore, RecoverCore, Seq<Action>)
    decreases steps.len(),
{
    if steps.len() == 0 {
        (m, first, second, Seq::empty())
    } else if steps[0].0 {
        let (m1, next, action) = spec_recover_core(m, first, steps[0].1, s);
        let (m2, a, b, rest) = spec_recover_pair(m1, next, second, steps.drop_first(), s);
        (m2, a, b, seq![action] + rest)
    } else {
        let (m1, next, action) = spec_recover_core(m, second, steps[0].1, s);
        let (m2, a, b, rest) = spec_recover_pair(m1, first, next, steps.drop_first(), s);
        (m2, a, b, seq![action] + rest)
    }
}

/// How many child processes were launched and taken in: each is recorded
/// once.
pub open spec fn spec_children(actions: Seq<Action>) -> nat
    decreases actions.len(),
{
    if actions.len() == 0 {
        0
    } else {
        spec_children(actions.drop_first()) + if actions[0] is RecordPid {
            1nat
        } else {
            0nat
        }
    }
}

/// How many launches were asked for, as a child process or through the
/// service.
pub open spec fn spec_launch_asks(actions: Seq<Action>) -> nat
    decreases actions.len(),
{
    if actions.len() == 0 {
        0
    } else {
        spec_launch_asks(actions.drop_first()) + if actions[0] is SpawnSidecar || actions[0]
            is StartService {
            1nat
        } else {
            0nat
        }
    }
}

/// Whether a recovery has taken the handle and not ended yet.
pub open spec fn active(at: RecoverCore) -> bool {
    at is Killing || at is Waiting || at is Running
}

/// Whether a recovery for the child `pid` is at a step that goes with the
/// supervisor's state: it has not begun for another child, and a start
/// within it is under way, noted, and records no child that a recovery was
/// begun for.
pub open spec fn recover_fits(m: ManagerView, at: RecoverCore, pid: u32, a: u32, b: u32) -> bool {
    &&& at matches RecoverCore::Start(begun) ==> begun == pid
    &&& at matches RecoverCore::Running(run) ==> run != RunCore::Start && run != RunCore::Closed
        && run_fits(m, run) && m.starting
    &&& at matches RecoverCore::Running(RunCore::Recording(fresh)) ==> fresh != a && fresh != b
}

/// Whether two recoveries, for the children `a` and `b`, and the
/// supervisor's state go together: at most one of them has taken the handle,
/// and while one has, the supervisor holds no child; a start is noted only
/// where one of them is in it.
pub open spec fn pair_fits(
    m: ManagerView,
    first: RecoverCore,
    second: RecoverCore,
    a: u32,
    b: u32,
) -> bool {
    &&& recover_fits(m, first, a, a, b)
    &&& recover_fits(m, second, b, a, b)
    &&& !(active(first) && active(second))
    &&& active(first) || active(second) ==> m.sidecar is None
    &&& m.starting ==> first is Running || second is Running
}

/// Whether the host reports no launched child under the id of a child that
/// a recovery was begun for.
pub open spec fn fresh_ids(steps: Seq<(bool, Reply)>, a: u32, b: u32) -> bool {
    forall|i: int|
        0 <= i < steps.len() ==> ((#[trigger] steps[i]).1 matches Reply::Spawned(fresh) ==> fresh
            != a && fresh != b)
}

/// Whether every step is answered with a launched child: nothing is ever
/// reported as failed.
pub open spec fn all_succeed(steps: Seq<(bool, Reply)>) -> bool {
    forall|i: int| 0 <= i < steps.len() ==> (#[trigger] steps[i]).1 is Spawned
}

/// How many children two recoveries may still launch and take in.
pub open spec fn spec_child_budget(
    m: ManagerView,
    first: RecoverCore,
    second: RecoverCore,
) -> nat {
    if active(first) || active(second) {
        if first is Running && first->Running_0 is Recording || second is Running
            && second->Running_0 is Recording {
            0
        } else {
            1
        }
    } else if first matches RecoverCore::Start(pid) && m.sidecar == Some(pid) {
        1
    } else if second matches RecoverCore::Start(pid) && m.sidecar == Some(pid) {
        1
    } else {
        0
    }
}

/// Whether a start has asked for its launch already.
pub open spec fn launch_asked(run: RunCore) -> bool {
    run is StartingService || run is Spawning || run is Recording
}

/// How many launches two recoveries may still ask for, as long as nothing
/// fails.
pub open spec fn spec_ask_budget(m: ManagerView, first: RecoverCore, second: RecoverCore) -> nat {
    if active(first) || active(second) {
        if first is Running && launch_asked(first->Running_0) || second is Running
            && launch_asked(second->Running_0) {
            0
        } else {
            1
        }
    } else if first matches RecoverCore::Start(pid) && m.sidecar == Some(pid) {
        1
    } else if second matches RecoverCore::Start(pid) && m.sidecar == Some(pid) {
        1
    } else {
        0
    }
}

proof fn lemma_pair_step(
    m: ManagerView,
    first: RecoverCore,
    second: RecoverCore,
    a: u32,
    b: u32,
    which: bool,
    reply: Reply,
    s: LaunchSettings,
)
    requires
        pair_fits(m, first, second, a, b),
        reply matches Reply::Spawned(fresh) ==> fresh != a && fresh != b,
    ensures
        ({
            let (m1, next, action) = spec_recover_core(
                m,
                if which {
                    first
                } else {
                    second
                },
                reply,
                s,
            );
            let first1 = if which {
                next
            } else {
                first
            };
            let second1 = if which {
                second
            } else {
                next
            };
            &&& pair_fits(m1, first1, second1, a, b)
            &&& spec_child_budget(m1, first1, second1) + (if action is RecordPid {
                1nat
            } else {
                0nat
            }) <= spec_child_budget(m, first, second)
            &&& reply is Spawned ==> spec_ask_budget(m1, first1, second1) + (if action
                is SpawnSidecar || action is StartService {
                1nat
            } else {
                0nat
            }) <= spec_ask_budget(m, first, second)
            &&& !(action is KillSidecar) || action == Action::KillSidecar(a) || action
                == Action::KillSidecar(b)
            &&& action matches Action::RecordPid(fresh) ==> next == RecoverCore::Running(
                RunCore::Recording(fresh),
            )
        }),
{
}

/// Whether the child `fresh` is launched and in good hands: the supervisor
/// holds it and no recovery has taken the handle, or a recovery is about to
/// install it.
pub open spec fn child_is_kept(
    m: ManagerView,
    first: RecoverCore,
    second: RecoverCore,
    fresh: u32,
) -> bool {
    first == RecoverCore::Running(RunCore::Recording(fresh)) || second == RecoverCore::Running(
        RunCore::Recording(fresh),
    ) || (!active(first) && !active(second) && m.sidecar == Some(fresh))
}

proof fn lemma_kept_step(
    m: ManagerView,
    first: RecoverCore,
    second: RecoverCore,
    a: u32,
    b: u32,
    fresh: u32,
    which: bool,
    reply: Reply,
    s: LaunchSettings,
)
    requires
        pair_fits(m, first, second, a, b),
        child_is_kept(m, first, second, fresh),
        fresh != a,
        fresh != b,
    ensures
        ({
            let (m1, next, action) = spec_recover_core(
                m,
                if which {
                    first
                } else {
                    second
                },
                reply,
                s,
            );
            let first1 = if which {
                next
            } else {
                first
            };
            let second1 = if which {
                second
            } else {
                next
            };
            &&& child_is_kept(m1, first1, second1, fresh)
            &&& action != Action::KillSidecar(fresh)
            &&& !(action is SpawnSidecar || action is StartService)
        }),
{
}

/// Two recoveries on one supervisor, their steps in any order and with any
/// replies, launch at most one child between them, and ask for no child to
/// be killed but the ones that ended.
pub proof fn recoveries_launch_one_child(
    m: ManagerView,
    first: RecoverCore,
    second: RecoverCore,
    a: u32,
    b: u32,
    steps: Seq<(bool, Reply)>,
    s: LaunchSettings,
)
    requires
        pair_fits(m, first, second, a, b),
        fresh_ids(steps, a, b),
    ensures
        ({
            let (m1, first1, second1, actions) = spec_recover_pair(m, first, second, steps, s);
            &&& pair_fits(m1, first1, second1, a, b)
            &&& spec_children(actions) <= spec_child_budget(m, first, second)
            &&& spec_children(actions) <= 1
            &&& forall|i: int|
                0 <= i < actions.len() && (#[trigger] actions[i]) is KillSidecar ==> actions[i]
                    == Action::KillSidecar(a) || actions[i] == Action::KillSidecar(b)
        }),
    decreases steps.len(),
{
    if steps.len() > 0 {
        let which = steps[0].0;
        let reply = steps[0].1;
        let rest = steps.drop_first();
        lemma_pair_step(m, first, second, a, b, which, reply, s);
        let (m1, next, action) = spec_recover_core(
            m,
            if which {
                first
            } else {
                second
            },
            reply,
            s,
        );
        let first1 = if which {
            next
        } else {
            first
        };
        let second1 = if which {
            second
        } else {
            next
        };
        assert forall|i: int| 0 <= i < rest.len() implies ((#[trigger] rest[i]).1 matches Reply::Spawned(
            fresh,
        ) ==> fresh != a && fresh != b) by {
            assert(rest[i] == steps[i + 1]);
        }
        recoveries_launch_one_child(m1, first1, second1, a, b, rest, s);
        let (m2, first2, second2, later) = spec_recover_pair(m1, first1, second1, rest, s);
        let actions = seq![action] + later;
        assert(actions.drop_first() =~= later);
        assert(actions[0] == action);
        assert forall|i: int| 0 <= i < actions.len() && (#[trigger] actions[i])
            is KillSidecar implies actions[i] == Action::KillSidecar(a) || actions[i]
            == Action::KillSidecar(b) by {
            if i > 0 {
                assert(actions[i] == later[i - 1]);
            }
        }
    }
}

/// As long as nothing fails, two recoveries on one supervisor, their steps
/// in any order, ask for one launch at most between them.
pub proof fn recoveries_ask_for_one_launch(
    m: ManagerView,
    first: RecoverCore,
    second: RecoverCore,
    a: u32,
    b: u32,
    steps: Seq<(bool, Reply)>,
    s: LaunchSettings,
)
    requires
        pair_fits(m, first, second, a, b),
        fresh_ids(steps, a, b),
        all_succeed(steps),
    ensures
        spec_launch_asks(spec_recover_pair(m, first, second, steps, s).3) <= spec_ask_budget(
            m,
            first,
            second,
        ),
        spec_launch_asks(spec_recover_pair(m, first, second, steps, s).3) <= 1,
    decreases steps.len(),
{
    if steps.len() > 0 {
        let which = steps[0].0;
        let reply = steps[0].1;
        let rest = steps.drop_first();
        lemma_pair_step(m, first, second, a, b, which, reply, s);
        let (m1, next, action) = spec_recover_core(
            m,
            if which {
                first
            } else {
                second
            },
            reply,
            s,
        );
        let first1 = if which {
            next
        } else {
            first
        };
        let second1 = if which {
            second
        } else {
            next
        };
        assert forall|i: int| 0 <= i < rest.len() implies (#[trigger] rest[i]).1 is Spawned && (
        rest[i].1 matches Reply::Spawned(fresh) ==> fresh != a && fresh != b) by {
            assert(rest[i] == steps[i + 1]);
        }
        recoveries_ask_for_one_launch(m1, first1, second1, a, b, rest, s);
        let (m2, first2, second2, later) = spec_recover_pair(m1, first1, second1, rest, s);
        let actions = seq![action] + later;
        assert(actions.drop_first() =~= later);
        assert(actions[0] == action);
    }
}

/// The child that a recovery has launched is the one in the handle: once a
/// recovery has asked for a child to be recorded, then, whatever steps of
/// the two recoveries follow in whatever order, the supervisor holds that
/// child or the recovery is still about to install it. The child is not
/// killed, and no further launch is asked for.
pub proof fn launched_child_is_held(
    m: ManagerView,
    first: RecoverCore,
    second: RecoverCore,
    a: u32,
    b: u32,
    fresh: u32,
    steps: Seq<(bool, Reply)>,
    s: LaunchSettings,
)
    requires
        pair_fits(m, first, second, a, b),
        fresh_ids(steps, a, b),
        fresh != a,
        fresh != b,
        child_is_kept(m, first, second, fresh),
    ensures
        ({
            let (m1, first1, second1, actions) = spec_recover_pair(m, first, second, steps, s);
            &&& child_is_kept(m1, first1, second1, fresh)
            &&& forall|i: int| 0 <= i < actions.len() ==> #[trigger] actions[i]
                != Action::KillSidecar(fresh)
            &&& spec_launch_asks(actions) == 0
        }),
    decreases steps.len(),
{
    if steps.len() > 0 {
        let which = steps[0].0;
        let reply = steps[0].1;
        let rest = steps.drop_first();
        lemma_pair_step(m, first, second, a, b, which, reply, s);
        lemma_kept_step(m, first, second, a, b, fresh, which, reply, s);
        let (m1, next, action) = spec_recover_core(
            m,
            if which {
                first
            } else {
                second
            },
            reply,
            s,
        );
        let first1 = if which {
            next
        } else {
            first
        };
        let second1 = if which {
            second
        } else {
            next
        };
        assert forall|i: int| 0 <= i < rest.len() implies ((#[trigger] rest[i]).1 matches Reply::Spawned(
            q,
        ) ==> q != a && q != b) by {
            assert(rest[i] == steps[i + 1]);
        }
        launched_child_is_held(m1, first1, second1, a, b, fresh, rest, s);
        let (m2, first2, second2, later) = spec_recover_pair(m1, first1, second1, rest, s);
        let actions = seq![action] + later;
        assert(actions.drop_first() =~= later);
        assert(actions[0] == action);
        assert forall|i: int| 0 <= i < actions.len() implies #[trigger] actions[i]
            != Action::KillSidecar(fresh) by {
            if i > 0 {
                assert(actions[i] == later[i - 1]);
            }
        }
    }
}

/// Every child that two recoveries launch, their steps in any order and
/// with any replies, is in good hands at the end: the supervisor holds it,
/// or the recovery that launched it is about to install it.
pub proof fn recorded_child_is_kept(
    m: ManagerView,
    first: RecoverCore,
    second: RecoverCore,
    a: u32,
    b: u32,
    steps: Seq<(bool, Reply)>,
    s: LaunchSettings,
)
    requires
        pair_fits(m, first, second, a, b),
        fresh_ids(steps, a, b),
    ensures
        ({
            let (m1, first1, second1, actions) = spec_recover_pair(m, first, second, steps, s);
            forall|i: int|
                0 <= i < actions.len() ==> ((#[trigger] actions[i]) matches Action::RecordPid(
                    fresh,
                ) ==> child_is_kept(m1, first1, second1, fresh))
        }),
    decreases steps.len(),
{
    if steps.len() > 0 {
        let which = steps[0].0;
        let reply = steps[0].1;
        let rest = steps.drop_first();
        lemma_pair_step(m, first, second, a, b, which, reply, s);
        let (m1, next, action) = spec_recover_core(
            m,
            if which {
                first
            } else {
                second
            },
            reply,
            s,
        );
        let first1 = if which {
            next
        } else {
            first
        };
        let second1 = if which {
            second
        } else {
            next
        };
        assert forall|i: int| 0 <= i < rest.len() implies ((#[trigger] rest[i]).1 matches Reply::Spawned(
            q,
        ) ==> q != a && q != b) by {
            assert(rest[i] == steps[i + 1]);
        }
        recorded_child_is_kept(m1, first1, second1, a, b, rest, s);
        let (m2, first2, second2, later) = spec_recover_pair(m1, first1, second1, rest, s);
        let actions = seq![action] + later;
        assert forall|i: int| 0 <= i < actions.len() implies ((#[trigger] actions[i]) matches Action::RecordPid(
            fresh,
        ) ==> child_is_kept(m2, first2, second2, fresh)) by {
            if i == 0 {
                if action is RecordPid {
                    launched_child_is_held(m1, first1, second1, a, b, action->RecordPid_0, rest, s);
                }
            } else {
                assert(actions[i] == later[i - 1]);
            }
        }
    }
}

/// Two terminations of the child that the supervisor holds, reported back to
/// back: whatever the order of the steps of the two recoveries and whatever
/// the replies, at most one child is launched; and as long as nothing fails,
/// one launch at most is asked for.
pub proof fn recover_core_twice_launches_once(
    m: ManagerView,
    pid: u32,
    steps: Seq<(bool, Reply)>,
    s: LaunchSettings,
)
    requires
        !m.starting,
        fresh_ids(steps, pid, pid),
    ensures
        spec_children(
            spec_recover_pair(m, RecoverCore::Start(pid), RecoverCore::Start(pid), steps, s).3,
        ) <= 1,
        all_succeed(steps) ==> spec_launch_asks(
            spec_recover_pair(m, RecoverCore::Start(pid), RecoverCore::Start(pid), steps, s).3,
        ) <= 1,
{
    recoveries_launch_one_child(
        m,
        RecoverCore::Start(pid),
        RecoverCore::Start(pid),
        pid,
        pid,
        steps,
        s,
    );
    if all_succeed(steps) {
        recoveries_ask_for_one_launch(
            m,
            RecoverCore::Start(pid),
            RecoverCore::Start(pid),
            pid,
            pid,
            steps,
            s,
        );
    }
}

/// The actions that a reload asks for when it is given these replies one
/// after the other, and the step it is at afterwards.
pub open spec fn spec_update_run(at: UpdateConfig, replies: Seq<Reply>, s: LaunchSettings) -> (
    UpdateConfig,
    Seq<Action>,
)
    decreases replies.len(),
{
    if replies.len() == 0 {
        (at, Seq::empty())
    } else {
        let (next, action) = spec_update_config(at, replies[0], s);
        let (last, rest) = spec_update_run(next, replies.drop_first(), s);
        (last, seq![action] + rest)
    }
}

/// How many of the actions are a push of the configuration.
pub open spec fn spec_pushes(actions: Seq<Action>) -> nat
    decreases actions.len(),
{
    if actions.len() == 0 {
        0
    } else {
        spec_pushes(actions.drop_first()) + if actions[0] == Action::PushConfig {
            1nat
        } else {
            0nat
        }
    }
}

/// How many pushes a reload at this step may still ask for.
pub open spec fn spec_push_budget(at: UpdateConfig) -> nat {
    match at {
        UpdateConfig::Pushing(attempt) => if attempt <= PUSH_ATTEMPTS {
            (PUSH_ATTEMPTS - attempt) as nat
        } else {
            0
        },
        UpdateConfig::Waiting(attempt) => if attempt < PUSH_ATTEMPTS {
            (PUSH_ATTEMPTS - attempt) as nat
        } else {
            1
        },
        UpdateConfig::Committing => 0,
        UpdateConfig::Discarding(_) => 0,
        UpdateConfig::Closed => 0,
        _ => PUSH_ATTEMPTS as nat,
    }
}

/// Whatever the host replies, and however long it goes on replying, a reload
/// asks for no more pushes than its budget: five from its first step.
pub proof fn update_config_push_budget(at: UpdateConfig, replies: Seq<Reply>, s: LaunchSettings)
    ensures
        spec_pushes(spec_update_run(at, replies, s).1) <= spec_push_budget(at),
        at == UpdateConfig::Start ==> spec_pushes(spec_update_run(at, replies, s).1)
            <= PUSH_ATTEMPTS,
    decreases replies.len(),
{
    if replies.len() > 0 {
        let (next, action) = spec_update_config(at, replies[0], s);
        let (last, rest) = spec_update_run(next, replies.drop_first(), s);
        update_config_push_budget(next, replies.drop_first(), s);
        let all = seq![action] + rest;
        assert(all.drop_first() =~= rest);
        assert(all[0] == action);
    }
}

/// A reload never asks for an instance to be stopped or started.
pub proof fn update_config_keeps_instance(at: UpdateConfig, reply: Reply, s: LaunchSettings)
    ensures
        !touches_instance(spec_update_config(at, reply, s).1),
{
}

/// A push that succeeds is the last: the runtime draft is committed and the
/// reload ends well. A push that fails is followed by the pause and one more
/// push while attempts are left; when it was the last, the runtime draft is
/// discarded and the reload ends with `ApiPushFailed` and the reason of
/// that push.
pub proof fn update_config_push_outcome(
    attempt: u8,
    reply: Reply,
    second: Reply,
    s: LaunchSettings,
)
    requires
        1 <= attempt <= PUSH_ATTEMPTS,
    ensures
        ({
            let (at1, a1) = spec_update_config(UpdateConfig::Pushing(attempt), reply, s);
            let (at2, a2) = spec_update_config(at1, second, s);
            &&& !(reply is Failed) ==> {
                &&& (at1, a1) == (UpdateConfig::Committing, Action::CommitRuntime)
                &&& (at2, a2) == (UpdateConfig::Closed, Action::Finished)
            }
            &&& reply is Failed && attempt < PUSH_ATTEMPTS ==> {
                &&& (at1, a1) == (
                    UpdateConfig::Waiting(attempt),
                    Action::Sleep(PUSH_RETRY_DELAY_MS),
                )
                &&& (at2, a2) == (
                    UpdateConfig::Pushing((attempt + 1) as u8),
                    Action::PushConfig,
                )
            }
            &&& reply is Failed && attempt == PUSH_ATTEMPTS ==> {
                &&& (at1, a1) == (
                    UpdateConfig::Discarding(CoreError::ApiPushFailed(reply->Failed_0)),
                    Action::DiscardRuntime,
                )
                &&& (at2, a2) == (
                    UpdateConfig::Closed,
                    Action::Failed(CoreError::ApiPushFailed(reply->Failed_0)),
                )
            }
        }),
{
}

/// A reload hands out an error only after it asked for the runtime draft to
/// be discarded, and `ApiPushFailed` only after the last attempt failed.
pub proof fn update_config_fails_after_discard(at: UpdateConfig, reply: Reply, s: LaunchSettings)
    ensures
        ({
            let (at1, action) = spec_update_config(at, reply, s);
            &&& action matches Action::Failed(e) ==> at == UpdateConfig::Discarding(e)
            &&& action == Action::DiscardRuntime <==> at1 is Discarding
            &&& (at1 matches UpdateConfig::Discarding(e) && e is ApiPushFailed) ==> (at
                matches UpdateConfig::Pushing(attempt) && attempt >= PUSH_ATTEMPTS && reply
                is Failed)
            &&& action == Action::CommitRuntime ==> at is Pushing && !(reply is Failed)
        }),
{
}

/// Five pushes that all fail: the reload pauses after each of the first
/// four, and after the fifth it discards the runtime draft and fails with
/// the reason of the fifth.
pub proof fn update_config_fails_on_fifth(
    w1: String,
    w2: String,
    w3: String,
    w4: String,
    w5: String,
    paused: Reply,
    s: LaunchSettings,
)
    ensures
        ({
            let replies = seq![
                Reply::Failed(w1),
                paused,
                Reply::Failed(w2),
                paused,
                Reply::Failed(w3),
                paused,
                Reply::Failed(w4),
                paused,
                Reply::Failed(w5),
                paused,
            ];
            let (last, actions) = spec_update_run(UpdateConfig::Pushing(1), replies, s);
            &&& last == UpdateConfig::Closed
            &&& actions.len() == 10
            &&& actions[8] == Action::DiscardRuntime
            &&& actions[9] == Action::Failed(CoreError::ApiPushFailed(w5))
            &&& spec_pushes(actions) == 4
        }),
{
    let replies = seq![
        Reply::Failed(w1),
        paused,
        Reply::Failed(w2),
        paused,
        Reply::Failed(w3),
        paused,
        Reply::Failed(w4),
        paused,
        Reply::Failed(w5),
        paused,
    ];
    reveal_with_fuel(spec_update_run, 12);
    reveal_with_fuel(spec_pushes, 12);
    let r1 = replies.drop_first();
    let r2 = r1.drop_first();
    let r3 = r2.drop_first();
    let r4 = r3.drop_first();
    let r5 = r4.drop_first();
    let r6 = r5.drop_first();
    let r7 = r6.drop_first();
    let r8 = r7.drop_first();
    let r9 = r8.drop_first();
    let r10 = r9.drop_first();
    assert(r10.len() == 0);
    let (last, actions) = spec_update_run(UpdateConfig::Pushing(1), replies, s);
    let expected = seq![
        Action::Sleep(PUSH_RETRY_DELAY_MS),
        Action::PushConfig,
        Action::Sleep(PUSH_RETRY_DELAY_MS),
        Action::PushConfig,
        Action::Sleep(PUSH_RETRY_DELAY_MS),
        Action::PushConfig,
        Action::Sleep(PUSH_RETRY_DELAY_MS),
        Action::PushConfig,
        Action::DiscardRuntime,
        Action::Failed(CoreError::ApiPushFailed(w5)),
    ];
    assert(actions =~= expected);
    let e1 = expected.drop_first();
    let e2 = e1.drop_first();
    let e3 = e2.drop_first();
    let e4 = e3.drop_first();
    let e5 = e4.drop_first();
    let e6 = e5.drop_first();
    let e7 = e6.drop_first();
    let e8 = e7.drop_first();
    let e9 = e8.drop_first();
    let e10 = e9.drop_first();
    assert(e10.len() == 0);
}

/// The launch of the application never fails and kills nothing but the
/// process that the pid record names, and that only under a name that marks
/// it as a core.
pub proof fn init_kills_only_recorded_core(m: ManagerView, at: InitCore, reply: Reply, s: LaunchSettings)
    ensures
        !(spec_init_core(m, at, reply, s).2 is Failed),
        spec_init_core(m, at, reply, s).2 matches Action::KillProcess(pid) ==> (at
            == InitCore::FindingProcess(pid) && (reply matches Reply::ProcessName(name)
            && spec_is_stale_core(name@))),
{
}

/// The pid record that a start writes is read back at the next launch as
/// the id of the process that was started.
pub proof fn init_reads_pid_record(m: ManagerView, pid: u32, record: String, s: LaunchSettings)
    requires
        record@ == spec_decimal(pid as nat),
    ensures
        spec_init_core(m, InitCore::ReadingRecord, Reply::Content(record), s) == (
            m,
            InitCore::FindingProcess(pid),
            Action::FindProcess(pid),
        ),
{
    parse_u32_reads_decimal(pid);
}

} // verus!
