//! The provider of a trick, chosen by the trick's configuration.
use crate::actions::{spec_all_variants, SpecificAction, SpecificActionID};
use crate::context::SpecificExecutionContext;
use crate::errors::KnownError;
use crate::providers::decky_installer::DeckyInstallerProvider;
use crate::providers::emudeck_installer::EmuDeckInstallerProvider;
use crate::providers::flatpak::{FlatpakProvider, FlatpakSystemContext};
use crate::providers::geforce_now::GeForceInstallerProvider;
use crate::providers::simple_command::SimpleCommandProvider;
use crate::providers::system_context::FullSystemContext;
use crate::providers::systemd_run::SystemdRunProvider;
use crate::providers::{ActionPlan, Checks};
use crate::text::{clone_strings, concat2, contains_str, owned, push_str, views};
use crate::tricks_config::{clone_opt_strings, same_opt_strings, ProviderConfig, Trick};
use vstd::prelude::*;

verus! {

/// The provider of a trick.
#[derive(Debug)]
pub enum DynTrickProvider {
    Flatpak(FlatpakProvider),
    SimpleCommand(SimpleCommandProvider),
    SystemdRun(SystemdRunProvider),
    DeckyInstaller(DeckyInstallerProvider),
    EmuDeckInstaller(EmuDeckInstallerProvider),
    GeForceInstaller(GeForceInstallerProvider),
}

/// The checks of a trick's provider in the given system: each kind of provider
/// reads its own part of the system.
pub open spec fn checks_for(trick: Trick, full: FullSystemContext) -> Checks {
    match trick.provider_config {
        ProviderConfig::Flatpak(f) => {
            let installed = contains_str(full.flatpak_ctx.installed@, f.id@);
            let running = contains_str(full.flatpak_ctx.running@, f.id@);
            Checks {
                installable: !installed,
                uninstallable: installed,
                installed: installed,
                runnable: installed && !running,
                running: running,
                killable: running,
                updateable: installed,
                addable_to_steam: installed,
            }
        },
        ProviderConfig::SimpleCommand(_) => {
            let running = match full.procs_ctx.spec_get(trick.id@) {
                Some(pids) => pids.len() > 0,
                None => false,
            };
            Checks {
                installable: false,
                uninstallable: false,
                installed: true,
                runnable: true,
                running: running,
                killable: running,
                updateable: false,
                addable_to_steam: true,
            }
        },
        ProviderConfig::SystemdRun(d) => {
            let running = contains_str(full.systemd_run_ctx.running_unit_ids@, d.unit_id@);
            Checks {
                installable: false,
                uninstallable: false,
                installed: true,
                runnable: true,
                running: running,
                killable: running,
                updateable: false,
                addable_to_steam: true,
            }
        },
        ProviderConfig::DeckyInstaller(_) => {
            let installed = full.decky_ctx.is_installed;
            Checks {
                installable: !installed,
                uninstallable: installed,
                installed: installed,
                runnable: false,
                running: full.decky_ctx.is_running,
                killable: false,
                updateable: installed,
                addable_to_steam: false,
            }
        },
        ProviderConfig::EmuDeckInstaller(_) => {
            let installed = full.emudeck_ctx.is_installed;
            let running = full.emudeck_ctx.running_pids@.len() > 0;
            Checks {
                installable: !installed,
                uninstallable: installed,
                installed: installed,
                runnable: installed,
                running: running,
                killable: running,
                updateable: installed,
                addable_to_steam: installed,
            }
        },
        ProviderConfig::GeForceInstaller(_) => {
            let installed = full.geforce_ctx.is_installed;
            let running = full.geforce_ctx.running_pids@.len() > 0;
            Checks {
                installable: !installed,
                uninstallable: installed,
                installed: installed,
                runnable: installed,
                running: running,
                killable: running,
                updateable: installed,
                addable_to_steam: installed,
            }
        },
    }
}

/// The message of an action that its provider does not allow right now.
pub open spec fn spec_gated_message(action: SpecificActionID, trick_id: Seq<char>) -> Seq<char> {
    "Action '"@ + action.spec_name() + "' is not possible on trick '"@ + trick_id
        + "' right now. Is it installed/running? HINT: (Try 'actions')"@
}

/// Whether `p` is the provider that the trick's configuration names, made with the
/// configuration's data and the part of the system that it reads: a Flatpak
/// application by its ID, with the applications installed and running; a command
/// with its program, its arguments (none when the configuration has none) and the
/// processes started for the trick; a `systemd-run` command with its data and
/// whether its unit runs; and each installer with what the system shows of it.
pub open spec fn built_for(ctx: SpecificExecutionContext, full: FullSystemContext, p: DynTrickProvider) -> bool {
    match ctx.trick.provider_config {
        ProviderConfig::Flatpak(f) => p matches DynTrickProvider::Flatpak(fp) && fp.id@ == f.id@
            && fp.flatpak_ctx.installed@ == full.flatpak_ctx.installed@ && fp.flatpak_ctx.running@
            == full.flatpak_ctx.running@,
        ProviderConfig::SimpleCommand(sc) => p matches DynTrickProvider::SimpleCommand(cp) && cp.trick_id@
            == ctx.trick.id@ && cp.command@ == sc.command@ && views(cp.args@) == match sc.args {
            Some(a) => views(a@),
            None => Seq::<Seq<char>>::empty(),
        } && views(cp.running_instances@) == match full.procs_ctx.spec_get(ctx.trick.id@) {
            Some(pids) => pids,
            None => Seq::<Seq<char>>::empty(),
        },
        ProviderConfig::SystemdRun(d) => p matches DynTrickProvider::SystemdRun(sp) && sp.trick_id@
            == ctx.trick.id@ && sp.systemd_run_data.unit_id == d.unit_id && sp.systemd_run_data.command
            == d.command && same_opt_strings(sp.systemd_run_data.args, d.args)
            && sp.systemd_run_data.execution_dir == d.execution_dir && sp.systemd_run_data.is_system
            == d.is_system && sp.is_unit_running == contains_str(
            full.systemd_run_ctx.running_unit_ids@,
            d.unit_id@,
        ),
        ProviderConfig::DeckyInstaller(_) => p matches DynTrickProvider::DeckyInstaller(dp) && dp.decky_ctx
            == full.decky_ctx,
        ProviderConfig::EmuDeckInstaller(_) => p matches DynTrickProvider::EmuDeckInstaller(ep)
            && ep.emu_ctx.is_installed == full.emudeck_ctx.is_installed && ep.emu_ctx.running_pids@
            == full.emudeck_ctx.running_pids@ && ep.emu_ctx.binary_path == full.emudeck_ctx.binary_path,
        ProviderConfig::GeForceInstaller(_) => p matches DynTrickProvider::GeForceInstaller(gp)
            && gp.geforce_ctx.is_installed == full.geforce_ctx.is_installed && gp.geforce_ctx.running_pids@
            == full.geforce_ctx.running_pids@ && gp.geforce_ctx.local_executable
            == full.geforce_ctx.local_executable,
    }
}

impl DynTrickProvider {
    /// The provider of the context's trick, reading its part of the system.
    pub fn new(ctx: SpecificExecutionContext, full_ctx: &FullSystemContext) -> (r: Self)
        requires
            full_ctx.procs_ctx.wf(),
        ensures
            r.spec_checks() == checks_for(ctx.trick, *full_ctx),
            r.spec_ctx() == ctx,
            built_for(ctx, *full_ctx, r),
    {
        match &ctx.trick.provider_config {
            ProviderConfig::Flatpak(f) => {
                let fctx = full_ctx.flatpak_ctx.duplicate();
                let id = f.id.clone();
                let p = FlatpakProvider { id, flatpak_ctx: fctx, ctx };
                DynTrickProvider::Flatpak(p)
            },
            ProviderConfig::SimpleCommand(sc) => {
                let trick_id = ctx.trick.id.clone();
                let command = sc.command.clone();
                let args = match clone_opt_strings(&sc.args) {
                    Some(a) => a,
                    None => Vec::new(),
                };
                assert(views(args@) =~= match sc.args {
                    Some(a) => views(a@),
                    None => Seq::<Seq<char>>::empty(),
                });
                let running_instances = match full_ctx.procs_ctx.get(trick_id.as_str()) {
                    Some(p) => p,
                    None => Vec::new(),
                };
                assert(views(running_instances@) =~= match full_ctx.procs_ctx.spec_get(ctx.trick.id@) {
                    Some(pids) => pids,
                    None => Seq::<Seq<char>>::empty(),
                });
                let p = SimpleCommandProvider::new(trick_id, command, args, ctx, running_instances);
                DynTrickProvider::SimpleCommand(p)
            },
            ProviderConfig::SystemdRun(d) => {
                let data = d.duplicate();
                let is_unit_running = full_ctx.systemd_run_ctx.is_unit_running(d.unit_id.as_str());
                let trick_id = ctx.trick.id.clone();
                let p = SystemdRunProvider::new(trick_id, ctx, is_unit_running, data);
                DynTrickProvider::SystemdRun(p)
            },
            ProviderConfig::DeckyInstaller(_) => {
                let decky_ctx = full_ctx.decky_ctx;
                let p = DeckyInstallerProvider::new(ctx, decky_ctx);
                DynTrickProvider::DeckyInstaller(p)
            },
            ProviderConfig::EmuDeckInstaller(_) => {
                let emu_ctx = full_ctx.emudeck_ctx.duplicate();
                let p = EmuDeckInstallerProvider::new(ctx, emu_ctx);
                DynTrickProvider::EmuDeckInstaller(p)
            },
            ProviderConfig::GeForceInstaller(_) => {
                let geforce_ctx = full_ctx.geforce_ctx.duplicate();
                let p = GeForceInstallerProvider::new(ctx, geforce_ctx);
                DynTrickProvider::GeForceInstaller(p)
            },
        }
    }

    /// The context of the provider's trick.
    pub open spec fn spec_ctx(self) -> SpecificExecutionContext {
        match self {
            DynTrickProvider::Flatpak(p) => p.ctx,
            DynTrickProvider::SimpleCommand(p) => p.ctx,
            DynTrickProvider::SystemdRun(p) => p.ctx,
            DynTrickProvider::DeckyInstaller(p) => p.ctx,
            DynTrickProvider::EmuDeckInstaller(p) => p.ctx,
            DynTrickProvider::GeForceInstaller(p) => p.ctx,
        }
    }

    pub fn get_ctx(&self) -> (r: &SpecificExecutionContext)
        ensures
            *r == self.spec_ctx(),
    {
        match self {
            DynTrickProvider::Flatpak(p) => &p.ctx,
            DynTrickProvider::SimpleCommand(p) => &p.ctx,
            DynTrickProvider::SystemdRun(p) => &p.ctx,
            DynTrickProvider::DeckyInstaller(p) => &p.ctx,
            DynTrickProvider::EmuDeckInstaller(p) => &p.ctx,
            DynTrickProvider::GeForceInstaller(p) => &p.ctx,
        }
    }

    /// The provider's trick.
    pub fn get_trick(&self) -> (r: &Trick)
        ensures
            *r == self.spec_ctx().trick,
    {
        &self.get_ctx().trick
    }

    /// Whether the system showed the trick being installed.
    pub fn is_installing(&self) -> (r: bool)
        ensures
            r == self.spec_ctx().is_installing,
    {
        self.get_ctx().is_installing
    }

    /// Whether the system showed the trick added to Steam.
    pub fn is_added_to_steam(&self) -> (r: bool)
        ensures
            r == self.spec_ctx().is_added_to_steam,
    {
        self.get_ctx().is_added_to_steam
    }

    pub open spec fn spec_checks(self) -> Checks {
        match self {
            DynTrickProvider::Flatpak(p) => p.spec_checks(),
            DynTrickProvider::SimpleCommand(p) => p.spec_checks(),
            DynTrickProvider::SystemdRun(p) => p.spec_checks(),
            DynTrickProvider::DeckyInstaller(p) => p.spec_checks(),
            DynTrickProvider::EmuDeckInstaller(p) => p.spec_checks(),
            DynTrickProvider::GeForceInstaller(p) => p.spec_checks(),
        }
    }

    /// What the provider says of its trick right now.
    pub fn checks(&self) -> (r: Checks)
        ensures
            r == self.spec_checks(),
    {
        match self {
            DynTrickProvider::Flatpak(p) => p.checks(),
            DynTrickProvider::SimpleCommand(p) => p.checks(),
            DynTrickProvider::SystemdRun(p) => p.checks(),
            DynTrickProvider::DeckyInstaller(p) => p.checks(),
            DynTrickProvider::EmuDeckInstaller(p) => p.checks(),
            DynTrickProvider::GeForceInstaller(p) => p.checks(),
        }
    }

    /// Whether the trick runs.
    pub fn is_running(&self) -> (r: bool)
        ensures
            r == self.spec_checks().running,
    {
        self.checks().running
    }

    /// Whether the given action can be taken on the trick right now.
    pub fn can(&self, action: &SpecificAction) -> (r: bool)
        ensures
            r == self.spec_checks().allows(SpecificActionID::spec_of(*action)),
    {
        self.checks().can(action)
    }

    /// Whether an action of the given kind can be taken on the trick right now.
    pub fn can_id(&self, action_id: &SpecificActionID) -> (r: bool)
        ensures
            r == self.spec_checks().allows(*action_id),
    {
        self.checks().can_id(action_id)
    }

    /// The actions that can be taken on the trick right now, in the order in which
    /// actions are shown.
    pub fn get_available_actions(&self) -> (r: Vec<SpecificActionID>)
        ensures
            r@ == spec_all_variants().filter(|id: SpecificActionID| self.spec_checks().allows(id)),
    {
        let c = self.checks();
        c.get_available_actions()
    }

    /// Every action that a trick can have, in the order in which actions are shown.
    pub fn get_all_actions(&self) -> (r: Vec<SpecificActionID>)
        ensures
            r@ == spec_all_variants(),
    {
        SpecificActionID::all_variants()
    }

    /// Whether `r` is what taking an action of the given kind means for this provider.
    pub open spec fn planned(self, action: SpecificActionID, r: ActionPlan) -> bool {
        match self {
            DynTrickProvider::Flatpak(p) => p.planned(action, r),
            DynTrickProvider::SimpleCommand(p) => p.planned(action, r),
            DynTrickProvider::SystemdRun(p) => p.planned(action, r),
            DynTrickProvider::DeckyInstaller(p) => p.planned(action, r),
            DynTrickProvider::EmuDeckInstaller(p) => p.planned(action, r),
            DynTrickProvider::GeForceInstaller(p) => p.planned(action, r),
        }
    }

    /// What taking an action of the given kind means for this provider.
    pub fn plan(&self, action: SpecificActionID) -> (r: ActionPlan)
        ensures
            self.planned(action, r),
    {
        match self {
            DynTrickProvider::Flatpak(p) => p.plan(action),
            DynTrickProvider::SimpleCommand(p) => p.plan(action),
            DynTrickProvider::SystemdRun(p) => p.plan(action),
            DynTrickProvider::DeckyInstaller(p) => p.plan(action),
            DynTrickProvider::EmuDeckInstaller(p) => p.plan(action),
            DynTrickProvider::GeForceInstaller(p) => p.plan(action),
        }
    }
}

/// Every provider keeps its checks consistent: a trick is installable exactly when
/// it is not installed, only what is installed can be uninstalled, run, updated or
/// added to Steam, and only what runs can be killed.
pub proof fn law_checks_consistent(p: DynTrickProvider)
    ensures
        p.spec_checks().consistent(),
{
}

/// The checks of a provider made for a trick are those that the trick's kind of
/// provider reads from the system; in particular they are consistent.
pub proof fn law_checks_for_consistent(trick: Trick, full: FullSystemContext)
    ensures
        checks_for(trick, full).consistent(),
{
}

/// What runs can be killed, and only that: for every kind of provider but Decky, a
/// trick can be killed exactly when it runs; Decky is never killed by hand.
pub proof fn law_what_runs_can_be_killed(p: DynTrickProvider)
    ensures
        p is DeckyInstaller ==> !p.spec_checks().allows(SpecificActionID::Kill),
        !(p is DeckyInstaller) ==> (p.spec_checks().allows(SpecificActionID::Kill) <==> p.spec_checks().running),
{
}

/// A command started for a trick can be killed exactly when processes of it were
/// found running.
pub proof fn law_command_with_processes_can_be_killed(p: SimpleCommandProvider)
    ensures
        p.spec_checks().allows(SpecificActionID::Kill) <==> p.running_instances@.len() > 0,
        p.spec_checks().running <==> p.running_instances@.len() > 0,
{
}

/// In any system, the checks of a trick's provider allow killing it exactly when it
/// runs (Decky aside, which is never killed by hand); a command trick runs, and can
/// be killed, exactly when processes started for it were found.
pub proof fn law_checks_for_kill_what_runs(trick: Trick, full: FullSystemContext)
    ensures
        trick.provider_config is DeckyInstaller ==> !checks_for(trick, full).allows(SpecificActionID::Kill),
        !(trick.provider_config is DeckyInstaller) ==> (checks_for(trick, full).allows(SpecificActionID::Kill)
            <==> checks_for(trick, full).running),
        trick.provider_config is SimpleCommand ==> (checks_for(trick, full).allows(SpecificActionID::Kill) <==> (
            full.procs_ctx.spec_get(trick.id@) matches Some(pids) && pids.len() > 0)),
{
}

/// Whether a trick runs is what the system shows of it: a Flatpak application is
/// listed as running, processes started for a command trick were found, a
/// `systemd-run` trick's unit runs, Decky's service is active, and processes of
/// EmuDeck or GeForce NOW were found.
pub proof fn law_running_follows_the_system(trick: Trick, full: FullSystemContext)
    ensures
        trick.provider_config matches ProviderConfig::Flatpak(f) ==> (checks_for(trick, full).running
            <==> contains_str(full.flatpak_ctx.running@, f.id@)),
        trick.provider_config is SimpleCommand ==> (checks_for(trick, full).running <==> (
            full.procs_ctx.spec_get(trick.id@) matches Some(pids) && pids.len() > 0)),
        trick.provider_config matches ProviderConfig::SystemdRun(d) ==> (checks_for(trick, full).running
            <==> contains_str(full.systemd_run_ctx.running_unit_ids@, d.unit_id@)),
        trick.provider_config is DeckyInstaller ==> (checks_for(trick, full).running == full.decky_ctx.is_running),
        trick.provider_config is EmuDeckInstaller ==> (checks_for(trick, full).running
            <==> full.emudeck_ctx.running_pids@.len() > 0),
        trick.provider_config is GeForceInstaller ==> (checks_for(trick, full).running
            <==> full.geforce_ctx.running_pids@.len() > 0),
{
}

} // verus!
