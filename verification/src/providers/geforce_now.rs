//! GeForce NOW, installed by NVIDIA's setup program into the user's applications.
use crate::actions::SpecificActionID;
use crate::context::{GeneralExecutionContext, SpecificExecutionContext};
use crate::errors::{DeckResult, KnownError};
use crate::logging::LogChannel;
use crate::providers::emudeck_installer::{pids_or_none, unwrap_pids};
use crate::providers::running::INSTALLING_ENV_STRING;
use crate::providers::{plans, planned_command, ActionPlan, Checks, OnSuccess, RemoteRun};
use crate::system_command::ActualRunner;
use crate::text::{clone_strings, concat2, concat3, owned, views};
use crate::utils::{exists_and_executable, found_pgrep, pgrep, tested_executable};
use vstd::prelude::*;

verus! {

/// Where NVIDIA's setup program is fetched from.
pub const GEFORCE_INSTALLER_DOWNLOAD_URL: &'static str = "https://international.download.nvidia.com/GFNLinux/GeForceNOWSetup.bin";

/// Where NVIDIA's setup program is put.
pub const GEFORCE_INSTALLER_TEMP_FILENAME: &'static str = "/tmp/GeForceNOWSetup.bin";

/// Where GeForce NOW's launcher is, under the given home directory.
pub open spec fn spec_geforce_local_executable(homedir: Seq<char>) -> Seq<char> {
    homedir + "/"@ + ".local/share/applications/NVIDIA GeForce NOW"@
}

/// Where GeForce NOW's launcher is, under the given home directory.
pub fn geforce_local_executable(homedir: &str) -> (r: String)
    ensures
        r@ == spec_geforce_local_executable(homedir@),
{
    concat3(homedir, "/", ".local/share/applications/NVIDIA GeForce NOW")
}

/// The command line by which GeForce NOW's processes are found: the launcher run
/// by `bash`.
pub fn geforce_pgrep_string(local_executable: &str) -> (r: String)
    ensures
        r@ == "bash "@ + local_executable@,
{
    concat2("bash ", local_executable)
}

/// Whether `r` is what asking the system about GeForce NOW under `homedir` gives
/// for some answers: whether `test -x` finds its launcher, and the processes that
/// `pgrep` finds running it through `bash` (a search that failed finds none).
pub open spec fn geforce_gathered(channel: LogChannel, homedir: Seq<char>, r: GeForceSystemContext) -> bool {
    &&& r.local_executable@ == spec_geforce_local_executable(homedir)
    &&& exists|installed: bool, found: DeckResult<Vec<String>>|
        #[trigger] tested_executable(channel, spec_geforce_local_executable(homedir), installed)
        && #[trigger] found_pgrep(channel, "bash "@ + spec_geforce_local_executable(homedir), found)
        && r.is_installed == installed && views(r.running_pids@) == pids_or_none(found)
}

/// Whether GeForce NOW's launcher is there, its processes that run, and where the
/// launcher is.
#[derive(Debug)]
pub struct GeForceSystemContext {
    pub is_installed: bool,
    pub running_pids: Vec<String>,
    pub local_executable: String,
}

impl GeForceSystemContext {
    /// Asks the system whether the launcher is there and executable, and which
    /// processes run it; a search that failed finds none.
    pub fn gather_with<R: ActualRunner>(ctx: &GeneralExecutionContext, runner: &R, homedir: &str) -> (r: Self)
        ensures
            geforce_gathered(ctx.log_channel, homedir@, r),
    {
        let local_executable = geforce_local_executable(homedir);
        let is_installed = exists_and_executable(ctx, runner, local_executable.as_str());
        let pattern = geforce_pgrep_string(local_executable.as_str());
        let found = pgrep(ctx, runner, pattern.as_str());
        let ghost gfound = found;
        let running_pids = unwrap_pids(found);
        assert(found_pgrep(ctx.log_channel, "bash "@ + spec_geforce_local_executable(homedir@), gfound));
        let r = GeForceSystemContext { is_installed, running_pids, local_executable };
        assert(geforce_gathered(ctx.log_channel, homedir@, r));
        r
    }

    pub fn duplicate(&self) -> (r: Self)
        ensures
            r.is_installed == self.is_installed,
            r.running_pids@ == self.running_pids@,
            r.local_executable == self.local_executable,
    {
        GeForceSystemContext {
            is_installed: self.is_installed,
            running_pids: clone_strings(&self.running_pids),
            local_executable: self.local_executable.clone(),
        }
    }
}

/// GeForce NOW, as NVIDIA's setup program provides it.
#[derive(Debug)]
pub struct GeForceInstallerProvider {
    pub ctx: SpecificExecutionContext,
    pub geforce_ctx: GeForceSystemContext,
}

impl GeForceInstallerProvider {
    pub fn new(ctx: SpecificExecutionContext, geforce_ctx: GeForceSystemContext) -> (r: Self)
        ensures
            r.ctx == ctx,
            r.geforce_ctx == geforce_ctx,
    {
        GeForceInstallerProvider { ctx, geforce_ctx }
    }

    /// GeForce NOW is installed when its launcher is there. What is installed can
    /// be uninstalled, updated, run and added to Steam; what is not can be
    /// installed; it runs (and can be killed) while processes of it run.
    pub open spec fn spec_checks(self) -> Checks {
        let installed = self.geforce_ctx.is_installed;
        let running = self.geforce_ctx.running_pids@.len() > 0;
        Checks {
            installable: !installed,
            uninstallable: installed,
            installed: installed,
            runnable: installed,
            running: running,
            killable: running,
            updateable: installed,
            addable_to_steam: installed,
        }
    }

    pub fn checks(&self) -> (r: Checks)
        ensures
            r == self.spec_checks(),
    {
        let installed = self.geforce_ctx.is_installed;
        let running = self.geforce_ctx.running_pids.len() > 0;
        Checks {
            installable: !installed,
            uninstallable: installed,
            installed: installed,
            runnable: installed,
            running: running,
            killable: running,
            updateable: installed,
            addable_to_steam: installed,
        }
    }

    /// Whether `r` is what taking an action of the kind `action` means here.
    pub open spec fn planned(self, action: SpecificActionID, r: ActionPlan) -> bool {
        match action {
            SpecificActionID::Install | SpecificActionID::Uninstall => r matches ActionPlan::Remote(
                rr,
            ) && rr.url@ == GEFORCE_INSTALLER_DOWNLOAD_URL@ && rr.local_filename@
                == GEFORCE_INSTALLER_TEMP_FILENAME@ && rr.prepare is None && (rr.env matches Some(
                e,
            ) && e.0@ == INSTALLING_ENV_STRING@ && e.1@ == self.ctx.trick.id@) && (
            rr.on_success matches OnSuccess::MessageOnceRun(m) && m@
                == "GeForce NOW installed successfully!"@),
            SpecificActionID::Run => r matches ActionPlan::Command(c, OnSuccess::Output) && plans(
                c,
                self.ctx.log_channel,
                self.ctx.current_log_level,
                self.geforce_ctx.local_executable@,
                Seq::empty(),
                Seq::empty(),
                true,
            ),
            SpecificActionID::Kill => r matches ActionPlan::KillPids(pids) && views(pids@) == views(
                self.geforce_ctx.running_pids@,
            ),
            SpecificActionID::Update => r == ActionPlan::Refuse(
                KnownError::ActionNotPossible("GeForce NOW updates itself automatically on run."),
            ),
            SpecificActionID::AddToSteam => r == ActionPlan::Refuse(
                KnownError::ActionNotPossible("GeForce NOW is automatically added to Steam."),
            ),
            SpecificActionID::Info => r is Info,
        }
    }

    /// Installing and uninstalling both run NVIDIA's setup program, marked as
    /// installing this trick; once it ran, whatever its exit code, they report that
    /// GeForce NOW was installed. Running starts the launcher with its output logged
    /// as it runs; killing kills its processes. Updating and adding to Steam are
    /// refused: GeForce NOW does both itself.
    pub fn plan(&self, action: SpecificActionID) -> (r: ActionPlan)
        ensures
            self.planned(action, r),

    {
        match action {
            SpecificActionID::Install | SpecificActionID::Uninstall => ActionPlan::Remote(
                RemoteRun {
                    url: owned(GEFORCE_INSTALLER_DOWNLOAD_URL),
                    local_filename: owned(GEFORCE_INSTALLER_TEMP_FILENAME),
                    prepare: None,
                    env: Some((owned(INSTALLING_ENV_STRING), self.ctx.trick.id.clone())),
                    on_success: OnSuccess::MessageOnceRun(owned("GeForce NOW installed successfully!")),
                },
            ),
            SpecificActionID::Run => {
                let mut c = planned_command(&self.ctx, self.geforce_ctx.local_executable.as_str(), Vec::new());
                c.enable_live_logging();
                assert(views(Seq::<String>::empty()) =~= Seq::<Seq<char>>::empty());
                ActionPlan::Command(c, OnSuccess::Output)
            },
            SpecificActionID::Kill => ActionPlan::KillPids(clone_strings(&self.geforce_ctx.running_pids)),
            SpecificActionID::Update => ActionPlan::Refuse(
                KnownError::ActionNotPossible("GeForce NOW updates itself automatically on run."),
            ),
            SpecificActionID::AddToSteam => ActionPlan::Refuse(
                KnownError::ActionNotPossible("GeForce NOW is automatically added to Steam."),
            ),
            SpecificActionID::Info => ActionPlan::Info,
        }
    }
}

} // verus!
