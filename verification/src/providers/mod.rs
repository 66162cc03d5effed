//! What can be done with a trick, and how each kind of provider does it.
//!
//! A provider answers two questions about a trick in the current state of the
//! system: which actions can be taken (its checks), and what taking an action
//! means (its plan). Plans that only run system commands are carried out here,
//! through the runner; fetching a file from the network and editing Steam's
//! shortcuts are handed back to the program.
use crate::actions::{spec_all_variants, ActionSuccess, SpecificAction, SpecificActionID};
use crate::command::LogType;
use crate::errors::{DeckResult, KnownError};
use crate::logging::LogChannel;
use crate::system_command::{ran, spec_utf8_lossy, ActualRunner, SysCommand, SysCommandResult};
use crate::utils::{kill_pids, killed_as};
use crate::context::SpecificExecutionContext;
use crate::text::{join, owned, views};
use vstd::prelude::*;

pub mod running;
pub mod flatpak;
pub mod simple_command;
pub mod systemd_run;
pub mod decky_installer;
pub mod emudeck_installer;
pub mod geforce_now;
pub mod system_context;
pub mod dyn_provider;

verus! {

/// The refusal of an action that the provider cannot take at all.
pub fn not_possible(reason: &'static str) -> (r: DeckResult<ActionSuccess>)
    ensures
        r == Err::<ActionSuccess, KnownError>(KnownError::ActionNotPossible(reason)),
{
    Err(KnownError::ActionNotPossible(reason))
}

/// The refusal of an action that the provider cannot take yet.
pub fn not_implemented(reason: &'static str) -> (r: DeckResult<ActionSuccess>)
    ensures
        r == Err::<ActionSuccess, KnownError>(KnownError::ActionNotImplementedYet(reason)),
{
    Err(KnownError::ActionNotImplementedYet(reason))
}

/// What a provider says of its trick in the current state of the system.
#[derive(Debug, Clone, Copy, PartialEq, Eq, Structural)]
pub struct Checks {
    pub installable: bool,
    pub uninstallable: bool,
    pub installed: bool,
    pub runnable: bool,
    pub running: bool,
    pub killable: bool,
    pub updateable: bool,
    pub addable_to_steam: bool,
}

impl Checks {
    /// Whether an action of the given kind can be taken: information can always
    /// be had, and every other action has its own check.
    pub open spec fn allows(self, id: SpecificActionID) -> bool {
        match id {
            SpecificActionID::Run => self.runnable,
            SpecificActionID::Install => self.installable,
            SpecificActionID::Kill => self.killable,
            SpecificActionID::Uninstall => self.uninstallable,
            SpecificActionID::AddToSteam => self.addable_to_steam,
            SpecificActionID::Update => self.updateable,
            SpecificActionID::Info => true,
        }
    }

    /// The checks that every provider keeps: a trick is installable exactly when it
    /// is not installed, and only what is installed can be uninstalled, run, updated
    /// or added to Steam; only what runs can be killed.
    pub open spec fn consistent(self) -> bool {
        &&& self.installable == !self.installed
        &&& self.uninstallable ==> self.installed
        &&& self.runnable ==> self.installed
        &&& self.updateable ==> self.installed
        &&& self.addable_to_steam ==> self.installed
        &&& self.killable ==> self.running
    }

    /// Whether an action of the given kind can be taken.
    pub fn can_id(&self, action_id: &SpecificActionID) -> (r: bool)
        ensures
            r == self.allows(*action_id),
    {
        match action_id {
            SpecificActionID::Run => self.runnable,
            SpecificActionID::Install => self.installable,
            SpecificActionID::Kill => self.killable,
            SpecificActionID::Uninstall => self.uninstallable,
            SpecificActionID::AddToSteam => self.addable_to_steam,
            SpecificActionID::Update => self.updateable,
            SpecificActionID::Info => true,
        }
    }

    /// Whether the given action can be taken.
    pub fn can(&self, action: &SpecificAction) -> (r: bool)
        ensures
            r == self.allows(SpecificActionID::spec_of(*action)),
    {
        let id = SpecificActionID::of(action);
        self.can_id(&id)
    }

    /// The actions that can be taken, in the order in which actions are shown.
    pub fn get_available_actions(&self) -> (r: Vec<SpecificActionID>)
        ensures
            r@ == spec_all_variants().filter(|id: SpecificActionID| self.allows(id)),
    {
        let all = SpecificActionID::all_variants();
        let ghost pred = |id: SpecificActionID| self.allows(id);
        let mut r: Vec<SpecificActionID> = Vec::new();
        let mut i: usize = 0;
        while i < all.len()
            invariant
                i <= all@.len(),
                all@ == spec_all_variants(),
                pred == (|id: SpecificActionID| self.allows(id)),
                r@ == all@.subrange(0, i as int).filter(pred),
            decreases all@.len() - i,
        {
            let id = all[i];
            proof {
                let sub = all@.subrange(0, i + 1);
                assert(sub.drop_last() =~= all@.subrange(0, i as int));
                assert(sub.last() == id);
                reveal(Seq::filter);
            }
            if self.can_id(&id) {
                r.push(id);
            }
            i = i + 1;
        }
        assert(all@.subrange(0, all@.len() as int) =~= all@);
        r
    }
}

/// Information about a trick can always be had, whatever its provider says.
pub proof fn law_info_always_available(c: Checks)
    ensures
        spec_all_variants().filter(|id: SpecificActionID| c.allows(id)).contains(
            SpecificActionID::Info,
        ),
{
    let s = spec_all_variants();
    let pred = |id: SpecificActionID| c.allows(id);
    assert(s[6] == SpecificActionID::Info);
    assert(pred(s[6]));
    s.lemma_filter_contains(pred, 6);
}

/// An action is among the available ones exactly when the checks allow it.
pub proof fn law_available_exactly_when_allowed(c: Checks, id: SpecificActionID)
    ensures
        spec_all_variants().filter(|x: SpecificActionID| c.allows(x)).contains(id) == c.allows(id),
{
    let s = spec_all_variants();
    let pred = |x: SpecificActionID| c.allows(x);
    let k: int = match id {
        SpecificActionID::Install => 0,
        SpecificActionID::Run => 1,
        SpecificActionID::AddToSteam => 2,
        SpecificActionID::Update => 3,
        SpecificActionID::Uninstall => 4,
        SpecificActionID::Kill => 5,
        SpecificActionID::Info => 6,
    };
    assert(s[k] == id);
    if c.allows(id) {
        s.lemma_filter_contains(pred, k);
    }
    if s.filter(pred).contains(id) {
        let j = choose|j: int| 0 <= j < s.filter(pred).len() && s.filter(pred)[j] == id;
        s.lemma_filter_pred(pred, j);
    }
}

/// What a successful command reports.
#[derive(Debug)]
pub enum OnSuccess {
    /// The command's output.
    Output,
    /// A fixed message, once the command ended with exit code 0.
    Message(String),
    /// No message, once the command ended with exit code 0.
    Silent,
    /// A fixed message once the command ran, whatever its exit code.
    MessageOnceRun(String),
}

/// Whether `r` is what an action comes to once its command was run with the given
/// result (see `finish_command`).
pub open spec fn finished_as(
    result: DeckResult<SysCommandResult>,
    on_success: OnSuccess,
    r: DeckResult<ActionSuccess>,
) -> bool {
    match result {
        Err(e) => r == Err::<ActionSuccess, KnownError>(e),
        Ok(res) => match on_success {
            OnSuccess::MessageOnceRun(m) => r matches Ok(s) && s.spec_message() == Some(m),
            _ => if !res.spec_success() {
                r matches Err(KnownError::SystemCommandFailed(f)) && f.spec_command().same_as(
                    res.spec_command(),
                ) && f.spec_output().exit_code == res.spec_output().exit_code
                    && f.spec_output().stdout@ == res.spec_output().stdout@ && f.spec_output().stderr@
                    == res.spec_output().stderr@
            } else {
                match on_success {
                    OnSuccess::Message(m) => r matches Ok(s) && s.spec_message() == Some(m),
                    OnSuccess::Silent => r matches Ok(s) && s.spec_message() is None,
                    _ => r matches Ok(s) && s.spec_message() matches Some(m) && m@
                        == spec_utf8_lossy(res.spec_output().stdout@),
                }
            },
        },
    }
}

/// What an action comes to once its command was run: the error of a command that
/// could not be run; the failure of one that ended with another exit code than 0,
/// unless the exit code does not matter; otherwise the success that `on_success`
/// asks for.
pub fn finish_command(result: DeckResult<SysCommandResult>, on_success: OnSuccess) -> (r: DeckResult<ActionSuccess>)
    ensures
        finished_as(result, on_success, r),
{
    match result {
        Err(e) => Err(e),
        Ok(res) => match on_success {
            OnSuccess::MessageOnceRun(m) => Ok(ActionSuccess::success(Some(m))),
            OnSuccess::Output => res.as_success(),
            OnSuccess::Message(m) => match res.as_success() {
                Ok(_) => Ok(ActionSuccess::success(Some(m))),
                Err(e) => Err(e),
            },
            OnSuccess::Silent => match res.as_success() {
                Ok(_) => Ok(ActionSuccess::success(None)),
                Err(e) => Err(e),
            },
        },
    }
}

/// Runs a command and says what the action comes to (see `finish_command`).
/// What running the command gives is not known here: the contract says that the
/// action comes to what `finish_command` makes of some result of running it.
pub fn run_planned<R: ActualRunner>(runner: &R, cmd: &SysCommand, on_success: OnSuccess) -> (r: DeckResult<ActionSuccess>)
    ensures
        exists|result: DeckResult<SysCommandResult>| ran(*cmd, result) && #[trigger] finished_as(result, on_success, r),
{
    let result = runner.run(cmd);
    finish_command(result, on_success)
}

/// An executable fetched from the network and run: where it comes from, where it
/// is put, a command run before it (whose outcome does not matter), the
/// environment it runs with, and what its success reports.
#[derive(Debug)]
pub struct RemoteRun {
    pub url: String,
    pub local_filename: String,
    pub prepare: Option<SysCommand>,
    pub env: Option<(String, String)>,
    pub on_success: OnSuccess,
}

/// What taking an action means.
#[derive(Debug)]
pub enum ActionPlan {
    /// Run a command.
    Command(SysCommand, OnSuccess),
    /// Kill the given processes.
    KillPids(Vec<String>),
    /// Fetch an executable and run it.
    Remote(RemoteRun),
    /// Add the trick to Steam.
    AddToSteam,
    /// Show what is known of the trick.
    Info,
    /// The action ends with this error.
    Refuse(KnownError),
}

/// Where carrying out a plan got to: the action is over, or the program has
/// work to do (fetching, editing Steam's shortcuts, showing the trick).
#[derive(Debug)]
pub enum ActionStep {
    Finished(DeckResult<ActionSuccess>),
    Fetch(RemoteRun),
    AddToSteam,
    Info,
}

/// Carries out what a plan asks of the runner: a command is run, processes are
/// killed, the preparing command of a fetched executable is run. A refusal ends the
/// action with its error; fetching, adding to Steam and showing the trick are
/// handed back.
pub fn perform<R: ActualRunner>(plan: ActionPlan, log_channel: &LogChannel, log_level: LogType, runner: &R) -> (r: ActionStep)
    ensures
        plan matches ActionPlan::Refuse(e) ==> r == ActionStep::Finished(
            Err::<ActionSuccess, KnownError>(e),
        ),
        plan is AddToSteam ==> r is AddToSteam,
        plan is Info ==> r is Info,
        plan matches ActionPlan::Remote(rr) ==> r == ActionStep::Fetch(rr),
        plan matches ActionPlan::Command(c, on_success) ==> (r matches ActionStep::Finished(res)
            && exists|result: DeckResult<SysCommandResult>| ran(c, result) && #[trigger] finished_as(result, on_success, res)),
        plan matches ActionPlan::KillPids(pids) ==> (r matches ActionStep::Finished(res) && killed_as(pids@, res)),
{
    match plan {
        ActionPlan::Command(cmd, on_success) => ActionStep::Finished(run_planned(runner, &cmd, on_success)),
        ActionPlan::KillPids(pids) => ActionStep::Finished(kill_pids(log_channel, log_level, runner, &pids)),
        ActionPlan::Remote(rr) => {
            match &rr.prepare {
                Some(c) => {
                    let _ = runner.run(c);
                },
                None => {},
            }
            ActionStep::Fetch(rr)
        },
        ActionPlan::AddToSteam => ActionStep::AddToSteam,
        ActionPlan::Info => ActionStep::Info,
        ActionPlan::Refuse(e) => ActionStep::Finished(Err(e)),
    }
}

/// A command as the providers plan it: the context's log channel and level, the
/// program and its arguments, the environment, and whether its output is logged
/// while it runs. None asks for a pseudo-terminal.
pub open spec fn plans(
    c: SysCommand,
    channel: LogChannel,
    level: LogType,
    cmd: Seq<char>,
    args: Seq<Seq<char>>,
    env: Seq<(Seq<char>, Seq<char>)>,
    live: bool,
) -> bool {
    &&& c.log_channel == channel
    &&& c.log_level == level
    &&& c.spec_cmd() == cmd
    &&& c.spec_args() == args
    &&& c.spec_env() == env
    &&& c.live_logging_desired == live
    &&& !c.pty_needed
}

/// A command with no extra environment, run in the given context.
pub fn planned_command(ctx: &SpecificExecutionContext, cmd: &str, args: Vec<String>) -> (r: SysCommand)
    ensures
        plans(r, ctx.log_channel, ctx.current_log_level, cmd@, views(args@), Seq::empty(), false),
{
    let r = ctx.sys_command(cmd, args);
    assert(r.spec_env() =~= Seq::<(Seq<char>, Seq<char>)>::empty());
    r
}

/// Two arguments.
pub fn two_args(a: &str, b: &str) -> (r: Vec<String>)
    ensures
        views(r@) == seq![a@, b@],
{
    let mut r: Vec<String> = Vec::new();
    r.push(owned(a));
    r.push(owned(b));
    assert(views(r@) =~= seq![a@, b@]);
    r
}

} // verus!
