//! EmuDeck, installed by its installer script into the user's applications.
use crate::actions::SpecificActionID;
use crate::context::{GeneralExecutionContext, SpecificExecutionContext};
use crate::errors::{DeckResult, KnownError};
use crate::logging::LogChannel;
use crate::providers::{plans, planned_command, ActionPlan, Checks, OnSuccess, RemoteRun};
use crate::system_command::ActualRunner;
use crate::text::{clone_strings, concat3, owned, views};
use crate::utils::{exists_and_executable, found_pids_exact, get_running_pids_exact, tested_executable};
use vstd::prelude::*;

verus! {

/// Where EmuDeck's installer script is fetched from.
pub const EMUDECK_DOWNLOAD_URL: &'static str = "https://raw.githubusercontent.com/dragoonDorise/EmuDeck/main/install.sh";

/// Where EmuDeck's installer script is put.
pub const EMUDECK_INSTALLER_TEMP_FILENAME: &'static str = "/tmp/emudeck_installer.sh";

/// The name of EmuDeck's executable.
pub const EMUDECK_BINARY_NAME: &'static str = "EmuDeck.AppImage";

/// Where EmuDeck's executable is, under the given home directory.
pub open spec fn spec_emudeck_binary_path(homedir: Seq<char>) -> Seq<char> {
    homedir + "/Applications/"@ + EMUDECK_BINARY_NAME@
}

/// Where EmuDeck's executable is, under the given home directory.
pub fn get_emudeck_binary_path(homedir: &str) -> (r: String)
    ensures
        r@ == spec_emudeck_binary_path(homedir@),
{
    concat3(homedir, "/Applications/", EMUDECK_BINARY_NAME)
}

/// The process IDs found, or none when they could not be had.
pub open spec fn pids_or_none(found: DeckResult<Vec<String>>) -> Seq<Seq<char>> {
    match found {
        Ok(v) => views(v@),
        Err(_) => Seq::empty(),
    }
}

/// The process IDs found, or none when they could not be had.
pub fn unwrap_pids(found: DeckResult<Vec<String>>) -> (r: Vec<String>)
    ensures
        views(r@) == pids_or_none(found),
{
    match found {
        Ok(v) => v,
        Err(_) => Vec::new(),
    }
}

/// The processes of two lists, the first list first.
pub fn concat_pids(a: Vec<String>, b: Vec<String>) -> (r: Vec<String>)
    ensures
        views(r@) == views(a@) + views(b@),
{
    let mut r = a;
    let ghost first = r@;
    let mut i: usize = 0;
    while i < b.len()
        invariant
            i <= b@.len(),
            views(r@) == views(first) + views(b@.subrange(0, i as int)),
        decreases b@.len() - i,
    {
        let ghost before = r@;
        r.push(b[i].clone());
        assert(views(b@.subrange(0, i + 1)) =~= views(b@.subrange(0, i as int)).push(b@[i as int]@));
        assert(views(r@) =~= views(before).push(b@[i as int]@));
        i = i + 1;
    }
    assert(b@.subrange(0, b@.len() as int) =~= b@);
    r
}

/// Whether `r` is what asking the system about EmuDeck under `homedir` gives for
/// some answers: whether `test -x` finds its executable, and the processes that
/// `ps` finds running the executable, then those running its `emudeck` helper (a
/// search that failed finds none).
pub open spec fn emudeck_gathered(channel: LogChannel, homedir: Seq<char>, r: EmuDeckSystemContext) -> bool {
    &&& r.binary_path@ == spec_emudeck_binary_path(homedir)
    &&& exists|installed: bool, main: DeckResult<Vec<String>>, supplementary: DeckResult<Vec<String>>|
        #[trigger] tested_executable(channel, spec_emudeck_binary_path(homedir), installed)
        && #[trigger] found_pids_exact(channel, EMUDECK_BINARY_NAME@, main)
        && #[trigger] found_pids_exact(channel, "emudeck"@, supplementary)
        && r.is_installed == installed
        && views(r.running_pids@) == pids_or_none(main) + pids_or_none(supplementary)
}

/// Whether EmuDeck's executable is there, the processes of EmuDeck that run, and
/// where the executable is.
#[derive(Debug)]
pub struct EmuDeckSystemContext {
    pub is_installed: bool,
    pub running_pids: Vec<String>,
    pub binary_path: String,
}

impl EmuDeckSystemContext {
    /// The context from what was found: the processes running EmuDeck's executable
    /// come first, then those running its helper; a search that failed finds none.
    pub fn from_findings(
        is_installed: bool,
        main_pids: DeckResult<Vec<String>>,
        supplementary_pids: DeckResult<Vec<String>>,
        binary_path: String,
    ) -> (r: Self)
        ensures
            r.is_installed == is_installed,
            views(r.running_pids@) == pids_or_none(main_pids) + pids_or_none(supplementary_pids),
            r.binary_path == binary_path,
    {
        let a = unwrap_pids(main_pids);
        let b = unwrap_pids(supplementary_pids);
        EmuDeckSystemContext { is_installed, running_pids: concat_pids(a, b), binary_path }
    }

    /// Asks the system whether EmuDeck's executable is there and executable, and
    /// which processes run EmuDeck's executable or its `emudeck` helper.
    pub fn gather_with<R: ActualRunner>(ctx: &GeneralExecutionContext, runner: &R, homedir: &str) -> (r: Self)
        ensures
            emudeck_gathered(ctx.log_channel, homedir@, r),
    {
        let binary_path = get_emudeck_binary_path(homedir);
        let is_installed = exists_and_executable(ctx, runner, binary_path.as_str());
        let main_pids = get_running_pids_exact(ctx, runner, EMUDECK_BINARY_NAME);
        let supplementary_pids = get_running_pids_exact(ctx, runner, "emudeck");
        let ghost main = main_pids;
        let ghost supplementary = supplementary_pids;
        let r = EmuDeckSystemContext::from_findings(is_installed, main_pids, supplementary_pids, binary_path);
        assert(tested_executable(ctx.log_channel, spec_emudeck_binary_path(homedir@), is_installed));
        assert(found_pids_exact(ctx.log_channel, EMUDECK_BINARY_NAME@, main));
        assert(found_pids_exact(ctx.log_channel, "emudeck"@, supplementary));
        assert(emudeck_gathered(ctx.log_channel, homedir@, r));
        r
    }

    pub fn duplicate(&self) -> (r: Self)
        ensures
            r.is_installed == self.is_installed,
            r.running_pids@ == self.running_pids@,
            r.binary_path == self.binary_path,
    {
        EmuDeckSystemContext {
            is_installed: self.is_installed,
            running_pids: clone_strings(&self.running_pids),
            binary_path: self.binary_path.clone(),
        }
    }
}

/// EmuDeck, as its installer provides it.
#[derive(Debug)]
pub struct EmuDeckInstallerProvider {
    pub ctx: SpecificExecutionContext,
    pub emu_ctx: EmuDeckSystemContext,
}

impl EmuDeckInstallerProvider {
    pub fn new(ctx: SpecificExecutionContext, emu_ctx: EmuDeckSystemContext) -> (r: Self)
        ensures
            r.ctx == ctx,
            r.emu_ctx == emu_ctx,
    {
        EmuDeckInstallerProvider { ctx, emu_ctx }
    }

    /// EmuDeck is installed when its executable is there. What is installed can be
    /// uninstalled, updated, run and added to Steam; what is not can be installed;
    /// it runs (and can be killed) while processes of it run.
    pub open spec fn spec_checks(self) -> Checks {
        let installed = self.emu_ctx.is_installed;
        let running = self.emu_ctx.running_pids@.len() > 0;
        Checks {
            installable: !installed,
            uninstallable: installed,
            installed: installed,
            runnable: installed,
            running: running,
            killable: running,
            updateable: installed,
            addable_to_steam: installed,
        }
    }

    pub fn checks(&self) -> (r: Checks)
        ensures
            r == self.spec_checks(),
    {
        let installed = self.emu_ctx.is_installed;
        let running = self.emu_ctx.running_pids.len() > 0;
        Checks {
            installable: !installed,
            uninstallable: installed,
            installed: installed,
            runnable: installed,
            running: running,
            killable: running,
            updateable: installed,
            addable_to_steam: installed,
        }
    }

    /// Whether `r` is what taking an action of the kind `action` means here.
    pub open spec fn planned(self, action: SpecificActionID, r: ActionPlan) -> bool {
        match action {
            SpecificActionID::Install => r matches ActionPlan::Remote(rr) && rr.url@
                == EMUDECK_DOWNLOAD_URL@ && rr.local_filename@ == EMUDECK_INSTALLER_TEMP_FILENAME@
                && rr.env is None && rr.prepare is None && (rr.on_success matches OnSuccess::Message(
                m,
            ) && m@
                == "EmuDeck installer installed successfully! Run now to fully install EmuDeck."@),
            SpecificActionID::Run => r matches ActionPlan::Command(c, OnSuccess::Output) && plans(
                c,
                self.ctx.log_channel,
                self.ctx.current_log_level,
                self.emu_ctx.binary_path@,
                Seq::empty(),
                Seq::empty(),
                false,
            ),
            SpecificActionID::Kill => r matches ActionPlan::KillPids(pids) && views(pids@) == views(
                self.emu_ctx.running_pids@,
            ),
            SpecificActionID::Update => r == ActionPlan::Refuse(
                KnownError::ActionNotImplementedYet("EmuDeck updates are not implemented yet!"),
            ),
            SpecificActionID::Uninstall => r == ActionPlan::Refuse(
                KnownError::ActionNotImplementedYet("EmuDeck uninstall is not implemented yet!"),
            ),
            SpecificActionID::AddToSteam => r is AddToSteam,
            SpecificActionID::Info => r is Info,
        }
    }

    /// Installing runs the installer script and reports how to go on; running starts
    /// the executable and reports its output; killing kills EmuDeck's processes.
    /// Updating and uninstalling are not implemented yet.
    pub fn plan(&self, action: SpecificActionID) -> (r: ActionPlan)
        ensures
            self.planned(action, r),

    {
        match action {
            SpecificActionID::Install => ActionPlan::Remote(
                RemoteRun {
                    url: owned(EMUDECK_DOWNLOAD_URL),
                    local_filename: owned(EMUDECK_INSTALLER_TEMP_FILENAME),
                    prepare: None,
                    env: None,
                    on_success: OnSuccess::Message(
                        owned("EmuDeck installer installed successfully! Run now to fully install EmuDeck."),
                    ),
                },
            ),
            SpecificActionID::Run => {
                let c = planned_command(&self.ctx, self.emu_ctx.binary_path.as_str(), Vec::new());
                assert(views(Seq::<String>::empty()) =~= Seq::<Seq<char>>::empty());
                ActionPlan::Command(c, OnSuccess::Output)
            },
            SpecificActionID::Kill => ActionPlan::KillPids(clone_strings(&self.emu_ctx.running_pids)),
            SpecificActionID::Update => ActionPlan::Refuse(
                KnownError::ActionNotImplementedYet("EmuDeck updates are not implemented yet!"),
            ),
            SpecificActionID::Uninstall => ActionPlan::Refuse(
                KnownError::ActionNotImplementedYet("EmuDeck uninstall is not implemented yet!"),
            ),
            SpecificActionID::AddToSteam => ActionPlan::AddToSteam,
            SpecificActionID::Info => ActionPlan::Info,
        }
    }
}

} // verus!
