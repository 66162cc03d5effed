//! Tricks that are plain system commands, always present on the system.
use crate::actions::SpecificActionID;
use crate::context::SpecificExecutionContext;
use crate::errors::KnownError;
use crate::providers::running::PID_ENV_STRING;
use crate::providers::{plans, ActionPlan, Checks, OnSuccess};
use crate::text::{clone_strings, views};
use vstd::prelude::*;

verus! {

/// A trick that runs a system command; the processes it started are known.
#[derive(Debug)]
pub struct SimpleCommandProvider {
    pub trick_id: String,
    pub command: String,
    pub args: Vec<String>,
    pub ctx: SpecificExecutionContext,
    pub running_instances: Vec<String>,
}

impl SimpleCommandProvider {
    pub fn new(
        trick_id: String,
        command: String,
        args: Vec<String>,
        ctx: SpecificExecutionContext,
        running_instances: Vec<String>,
    ) -> (r: Self)
        ensures
            r.trick_id == trick_id,
            r.command == command,
            r.args == args,
            r.ctx == ctx,
            r.running_instances == running_instances,
    {
        SimpleCommandProvider { trick_id, command, args, ctx, running_instances }
    }

    /// A system command is always installed, can neither be installed nor
    /// uninstalled nor updated, can always be run and added to Steam, and runs
    /// (and can be killed) while processes started for it are known.
    pub open spec fn spec_checks(self) -> Checks {
        let running = self.running_instances@.len() > 0;
        Checks {
            installable: false,
            uninstallable: false,
            installed: true,
            runnable: true,
            running: running,
            killable: running,
            updateable: false,
            addable_to_steam: true,
        }
    }

    pub fn checks(&self) -> (r: Checks)
        ensures
            r == self.spec_checks(),
    {
        let running = self.running_instances.len() > 0;
        Checks {
            installable: false,
            uninstallable: false,
            installed: true,
            runnable: true,
            running: running,
            killable: running,
            updateable: false,
            addable_to_steam: true,
        }
    }

    /// Whether `r` is what taking an action of the kind `action` means here.
    pub open spec fn planned(self, action: SpecificActionID, r: ActionPlan) -> bool {
        match action {
            SpecificActionID::Run => r matches ActionPlan::Command(c, OnSuccess::Output) && plans(
                c,
                self.ctx.log_channel,
                self.ctx.current_log_level,
                self.command@,
                views(self.args@),
                seq![(PID_ENV_STRING@, self.trick_id@)],
                false,
            ),
            SpecificActionID::Kill => r matches ActionPlan::KillPids(pids) && views(pids@) == views(
                self.running_instances@,
            ),
            SpecificActionID::Install => r == ActionPlan::Refuse(
                KnownError::ActionNotPossible("Simple commands cannot be installed!"),
            ),
            SpecificActionID::Uninstall => r == ActionPlan::Refuse(
                KnownError::ActionNotPossible("Simple commands cannot be uninstalled!"),
            ),
            SpecificActionID::Update => r == ActionPlan::Refuse(
                KnownError::ActionNotPossible("Simple commands cannot be installed!"),
            ),
            SpecificActionID::AddToSteam => r is AddToSteam,
            SpecificActionID::Info => r is Info,
        }
    }

    /// Running starts the command with its arguments, marked as started for this
    /// trick, and reports its output; killing kills the processes started for the
    /// trick; installing, uninstalling and updating are refused.
    pub fn plan(&self, action: SpecificActionID) -> (r: ActionPlan)
        ensures
            self.planned(action, r),

    {
        match action {
            SpecificActionID::Run => {
                let mut c = self.ctx.sys_command(self.command.as_str(), clone_strings(&self.args));
                c.env(PID_ENV_STRING, self.trick_id.as_str());
                assert(c.spec_env() =~= seq![(PID_ENV_STRING@, self.trick_id@)]);
                ActionPlan::Command(c, OnSuccess::Output)
            },
            SpecificActionID::Kill => ActionPlan::KillPids(clone_strings(&self.running_instances)),
            SpecificActionID::Install => ActionPlan::Refuse(
                KnownError::ActionNotPossible("Simple commands cannot be installed!"),
            ),
            SpecificActionID::Uninstall => ActionPlan::Refuse(
                KnownError::ActionNotPossible("Simple commands cannot be uninstalled!"),
            ),
            SpecificActionID::Update => ActionPlan::Refuse(
                KnownError::ActionNotPossible("Simple commands cannot be installed!"),
            ),
            SpecificActionID::AddToSteam => ActionPlan::AddToSteam,
            SpecificActionID::Info => ActionPlan::Info,
        }
    }
}

} // verus!
