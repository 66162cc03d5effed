//! Tricks that are started as transient user units with `systemd-run`.
use crate::actions::SpecificActionID;
use crate::context::{GeneralExecutionContext, SpecificExecutionContext};
use crate::errors::{DeckResult, KnownError};
use crate::providers::{plans, planned_command, two_args, ActionPlan, Checks, OnSuccess};
use crate::system_command::{ran, ActualRunner, SysCommand, SysCommandResult};
use crate::text::{contains_str, owned, vec_contains_str, views};
use crate::tricks_config::{ProviderConfig, SystemdRun, Trick};
use crate::utils::commands_succeeded;
use vstd::prelude::*;

verus! {

/// A trick started as a transient user unit, and whether its unit runs.
#[derive(Debug)]
pub struct SystemdRunProvider {
    pub trick_id: String,
    pub ctx: SpecificExecutionContext,
    pub is_unit_running: bool,
    pub systemd_run_data: SystemdRun,
}

impl SystemdRunProvider {
    pub fn new(trick_id: String, ctx: SpecificExecutionContext, is_unit_running: bool, systemd_run_data: SystemdRun) -> (r: Self)
        ensures
            r.trick_id == trick_id,
            r.ctx == ctx,
            r.is_unit_running == is_unit_running,
            r.systemd_run_data == systemd_run_data,
    {
        SystemdRunProvider { trick_id, ctx, is_unit_running, systemd_run_data }
    }

    /// The command is always installed, can neither be installed nor uninstalled
    /// nor updated, can always be run and added to Steam, and runs (and can be
    /// killed) while its unit runs.
    pub open spec fn spec_checks(self) -> Checks {
        Checks {
            installable: false,
            uninstallable: false,
            installed: true,
            runnable: true,
            running: self.is_unit_running,
            killable: self.is_unit_running,
            updateable: false,
            addable_to_steam: true,
        }
    }

    pub fn checks(&self) -> (r: Checks)
        ensures
            r == self.spec_checks(),
    {
        Checks {
            installable: false,
            uninstallable: false,
            installed: true,
            runnable: true,
            running: self.is_unit_running,
            killable: self.is_unit_running,
            updateable: false,
            addable_to_steam: true,
        }
    }

    /// Whether `r` is what taking an action of the kind `action` means here.
    pub open spec fn planned(self, action: SpecificActionID, r: ActionPlan) -> bool {
        match action {
            SpecificActionID::Run => r matches ActionPlan::Command(c, OnSuccess::Output) && plans(
                c,
                self.ctx.log_channel,
                self.ctx.current_log_level,
                "/usr/bin/systemd-run"@,
                self.systemd_run_data.spec_args(),
                Seq::empty(),
                false,
            ),
            SpecificActionID::Kill => r matches ActionPlan::Command(c, OnSuccess::Output) && plans(
                c,
                self.ctx.log_channel,
                self.ctx.current_log_level,
                "/usr/bin/systemctl"@,
                seq!["stop"@, self.systemd_run_data.unit_id@],
                Seq::empty(),
                false,
            ),
            SpecificActionID::Install => r == ActionPlan::Refuse(
                KnownError::ActionNotPossible("Simple commands cannot be installed!"),
            ),
            SpecificActionID::Uninstall => r == ActionPlan::Refuse(
                KnownError::ActionNotPossible("Simple commands cannot be uninstalled!"),
            ),
            SpecificActionID::Update => r == ActionPlan::Refuse(
                KnownError::ActionNotPossible("Simple commands cannot be updated!"),
            ),
            SpecificActionID::AddToSteam => r is AddToSteam,
            SpecificActionID::Info => r is Info,
        }
    }

    /// Running starts the unit with `systemd-run`; killing stops it with
    /// `systemctl`; both report the command's output. Installing, uninstalling and
    /// updating are refused.
    pub fn plan(&self, action: SpecificActionID) -> (r: ActionPlan)
        ensures
            self.planned(action, r),

    {
        match action {
            SpecificActionID::Run => {
                let c = planned_command(&self.ctx, "/usr/bin/systemd-run", self.systemd_run_data.get_as_args());
                ActionPlan::Command(c, OnSuccess::Output)
            },
            SpecificActionID::Kill => {
                let c = planned_command(
                    &self.ctx,
                    "/usr/bin/systemctl",
                    two_args("stop", self.systemd_run_data.unit_id.as_str()),
                );
                ActionPlan::Command(c, OnSuccess::Output)
            },
            SpecificActionID::Install => ActionPlan::Refuse(
                KnownError::ActionNotPossible("Simple commands cannot be installed!"),
            ),
            SpecificActionID::Uninstall => ActionPlan::Refuse(
                KnownError::ActionNotPossible("Simple commands cannot be uninstalled!"),
            ),
            SpecificActionID::Update => ActionPlan::Refuse(
                KnownError::ActionNotPossible("Simple commands cannot be updated!"),
            ),
            SpecificActionID::AddToSteam => ActionPlan::AddToSteam,
            SpecificActionID::Info => ActionPlan::Info,
        }
    }
}

/// The units of the tricks started with `systemd-run`, in the order of the tricks.
pub open spec fn spec_unit_ids(tricks: Seq<Trick>) -> Seq<Seq<char>>
    decreases tricks.len(),
{
    if tricks.len() == 0 {
        Seq::empty()
    } else {
        let rest = spec_unit_ids(tricks.drop_last());
        match tricks.last().provider_config {
            ProviderConfig::SystemdRun(d) => rest.push(d.unit_id@),
            _ => rest,
        }
    }
}

/// The units of the tricks started with `systemd-run`, in the order of the tricks.
pub fn unit_ids(tricks: &Vec<Trick>) -> (r: Vec<String>)
    ensures
        views(r@) == spec_unit_ids(tricks@),
{
    let mut r: Vec<String> = Vec::new();
    let mut i: usize = 0;
    while i < tricks.len()
        invariant
            i <= tricks@.len(),
            views(r@) == spec_unit_ids(tricks@.subrange(0, i as int)),
        decreases tricks@.len() - i,
    {
        proof {
            let sub = tricks@.subrange(0, i + 1);
            assert(sub.drop_last() =~= tricks@.subrange(0, i as int));
            assert(sub.last() == tricks@[i as int]);
        }
        match &tricks[i].provider_config {
            ProviderConfig::SystemdRun(d) => {
                let ghost before = r@;
                r.push(d.unit_id.clone());
                assert(views(r@) =~= views(before).push(d.unit_id@));
            },
            _ => {},
        }
        i = i + 1;
    }
    assert(tricks@.subrange(0, tricks@.len() as int) =~= tricks@);
    r
}

/// The command that asks whether a unit runs.
pub fn unit_running_command(ctx: &GeneralExecutionContext, unit_id: &str) -> (r: SysCommand)
    ensures
        r.spec_cmd() == "/usr/bin/systemctl"@,
        r.spec_args() == seq!["is-running"@, unit_id@],
        r.spec_env().len() == 0,
{
    ctx.sys_command("/usr/bin/systemctl", two_args("is-running", unit_id))
}

/// The units of `systemd-run` tricks that run.
#[derive(Debug)]
pub struct SystemdRunUnitsContext {
    pub running_unit_ids: Vec<String>,
}

/// The items for which `keep` holds, in order.
pub open spec fn selected(items: Seq<Seq<char>>, keep: Seq<bool>) -> Seq<Seq<char>>
    decreases items.len(),
{
    if items.len() == 0 || keep.len() == 0 {
        Seq::empty()
    } else {
        let rest = selected(items.drop_last(), keep.drop_last());
        if keep.last() {
            rest.push(items.last())
        } else {
            rest
        }
    }
}

/// Whether `c` is the command that asks whether the unit `unit_id` runs.
pub open spec fn is_unit_running_command(c: SysCommand, unit_id: Seq<char>) -> bool {
    &&& c.spec_cmd() == "/usr/bin/systemctl"@
    &&& c.spec_args() == seq!["is-running"@, unit_id]
    &&& c.spec_env().len() == 0
}

/// Whether `cmds` were the commands run for the units, one per unit in order, each
/// asking about its unit, with the results `results`.
pub open spec fn units_answered(ids: Seq<Seq<char>>, cmds: Seq<SysCommand>, results: Seq<DeckResult<SysCommandResult>>) -> bool {
    &&& cmds.len() == ids.len()
    &&& results.len() == ids.len()
    &&& forall|j: int| 0 <= j < ids.len() ==> is_unit_running_command(#[trigger] cmds[j], ids[j]) && ran(cmds[j], results[j])
}

/// Whether `r` holds the units of the tricks that run, for some answers of
/// `systemctl is-running`: those whose command ran and ended with exit code 0.
pub open spec fn units_gathered(tricks: Seq<Trick>, r: SystemdRunUnitsContext) -> bool {
    exists|cmds: Seq<SysCommand>, results: Seq<DeckResult<SysCommandResult>>|
        #[trigger] units_answered(spec_unit_ids(tricks), cmds, results)
        && views(r.running_unit_ids@) == selected(spec_unit_ids(tricks), commands_succeeded(results))
}

impl SystemdRunUnitsContext {
    /// No unit runs.
    pub fn empty() -> (r: Self)
        ensures
            r.running_unit_ids@.len() == 0,
    {
        SystemdRunUnitsContext { running_unit_ids: Vec::new() }
    }

    /// The units that run, given the answers of `systemctl is-running` for each
    /// unit in order: those whose command ran and ended with exit code 0.
    pub fn running_units(ids: &Vec<String>, results: &Vec<DeckResult<SysCommandResult>>) -> (r: Vec<String>)
        requires
            results@.len() == ids@.len(),
        ensures
            views(r@) == selected(views(ids@), commands_succeeded(results@)),
    {
        let mut running_ids: Vec<String> = Vec::new();
        let mut i: usize = 0;
        while i < ids.len()
            invariant
                i <= ids@.len(),
                results@.len() == ids@.len(),
                views(running_ids@) == selected(views(ids@).subrange(0, i as int), commands_succeeded(results@).subrange(0, i as int)),
            decreases ids@.len() - i,
        {
            let is_running = match &results[i] {
                Ok(res) => res.ran_successfully(),
                Err(_) => false,
            };
            let ghost before = views(running_ids@);
            if is_running {
                running_ids.push(ids[i].clone());
            }
            proof {
                let sub = views(ids@).subrange(0, i + 1);
                assert(sub.drop_last() =~= views(ids@).subrange(0, i as int));
                assert(sub.last() == ids@[i as int]@);
                let p2 = commands_succeeded(results@).subrange(0, i + 1);
                assert(p2.drop_last() =~= commands_succeeded(results@).subrange(0, i as int));
                assert(p2.last() == is_running);
                if is_running {
                    assert(views(running_ids@) =~= before.push(ids@[i as int]@));
                } else {
                    assert(views(running_ids@) =~= before);
                }
            }
            i = i + 1;
        }
        assert(views(ids@).subrange(0, ids@.len() as int) =~= views(ids@));
        assert(commands_succeeded(results@).subrange(0, ids@.len() as int) =~= commands_succeeded(results@));
        running_ids
    }

    /// Asks the system, unit by unit, which units of the given tricks run: a unit
    /// runs when `systemctl is-running` ran and ended with exit code 0. Only units
    /// of `systemd-run` tricks are listed, in the order of the tricks. What systemd
    /// answers is not known here, so the contract says what holds of any answers
    /// (see `running_units`).
    pub fn gather_with<R: ActualRunner>(ctx: &GeneralExecutionContext, runner: &R, tricks: &Vec<Trick>) -> (r: Self)
        ensures
            units_gathered(tricks@, r),
    {
        let ids = unit_ids(tricks);
        let mut results: Vec<DeckResult<SysCommandResult>> = Vec::new();
        let ghost mut cmds: Seq<SysCommand> = Seq::empty();
        let mut i: usize = 0;
        while i < ids.len()
            invariant
                i <= ids@.len(),
                results@.len() == i,
                cmds.len() == i,
                forall|j: int| 0 <= j < i ==> is_unit_running_command(#[trigger] cmds[j], ids@[j]@) && ran(cmds[j], results@[j]),
            decreases ids@.len() - i,
        {
            let cmd = unit_running_command(ctx, ids[i].as_str());
            let res = runner.run(&cmd);
            proof {
                cmds = cmds.push(cmd);
            }
            results.push(res);
            i = i + 1;
        }
        let running_unit_ids = SystemdRunUnitsContext::running_units(&ids, &results);
        let r = SystemdRunUnitsContext { running_unit_ids };
        assert(units_answered(spec_unit_ids(tricks@), cmds, results@));
        r
    }

    /// Whether the unit runs.
    pub fn is_unit_running(&self, unit_id: &str) -> (r: bool)
        ensures
            r == contains_str(self.running_unit_ids@, unit_id@),
    {
        vec_contains_str(&self.running_unit_ids, unit_id)
    }
}

} // verus!
