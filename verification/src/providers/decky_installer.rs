//! Decky, the plugin loader, installed by its installer script.
use crate::actions::SpecificActionID;
use crate::context::{GeneralExecutionContext, SpecificExecutionContext};
use crate::errors::{DeckResult, KnownError};
use crate::providers::{plans, planned_command, two_args, ActionPlan, Checks, OnSuccess, RemoteRun};
use crate::system_command::{ActualRunner, SysCommand, SysCommandResult};
use crate::text::{owned, views};
use vstd::prelude::*;

verus! {

/// Where Decky's installer script is fetched from.
pub const DECKY_DOWNLOAD_URL: &'static str = "https://github.com/SteamDeckHomebrew/decky-installer/releases/latest/download/user_install_script.sh";

/// Where Decky's installer script is put.
pub const DECKY_INSTALLER_TEMP_FILENAME: &'static str = "/tmp/decky_installer.sh";

/// Whether Decky's service is enabled (installed) and active (running).
#[derive(Debug, Clone, Copy)]
pub struct DeckySystemContext {
    pub is_installed: bool,
    pub is_running: bool,
}

/// The command that asks systemd about Decky's service.
pub fn plugin_loader_command(ctx: &GeneralExecutionContext, question: &str) -> (r: SysCommand)
    ensures
        r.spec_cmd() == "/usr/bin/systemctl"@,
        r.spec_args() == seq![question@, "plugin_loader"@],
        r.spec_env().len() == 0,
{
    ctx.sys_command("/usr/bin/systemctl", two_args(question, "plugin_loader"))
}

impl DeckySystemContext {
    /// Decky is installed when `systemctl is-enabled plugin_loader` ended with exit
    /// code 0, and runs when `systemctl is-active plugin_loader` did. A command that
    /// could not be run gives the error, the first one first.
    pub open spec fn spec_from_results(enabled: DeckResult<SysCommandResult>, active: DeckResult<SysCommandResult>, r: DeckResult<Self>) -> bool {
        match (enabled, active) {
            (Ok(e), Ok(a)) => r matches Ok(c) && c.is_installed == e.spec_success()
                && c.is_running == a.spec_success(),
            (Err(e), _) => r == Err::<DeckySystemContext, KnownError>(e),
            (Ok(_), Err(e)) => r == Err::<DeckySystemContext, KnownError>(e),
        }
    }

    pub fn from_results(enabled: DeckResult<SysCommandResult>, active: DeckResult<SysCommandResult>) -> (r: DeckResult<Self>)
        ensures
            DeckySystemContext::spec_from_results(enabled, active, r),
    {
        match enabled {
            Err(e) => Err(e),
            Ok(en) => match active {
                Err(e) => Err(e),
                Ok(ac) => Ok(DeckySystemContext { is_installed: en.ran_successfully(), is_running: ac.ran_successfully() }),
            },
        }
    }

    /// Asks systemd whether Decky's service is enabled and active. What systemd
    /// answers is not known here, so the contract says what holds of any answer.
    pub fn gather_with<R: ActualRunner>(ctx: &GeneralExecutionContext, runner: &R) -> (r: DeckResult<Self>)
        ensures
            exists|enabled: DeckResult<SysCommandResult>, active: DeckResult<SysCommandResult>|
                #[trigger] DeckySystemContext::spec_from_results(enabled, active, r),
    {
        let enabled = runner.run(&plugin_loader_command(ctx, "is-enabled"));
        let active = runner.run(&plugin_loader_command(ctx, "is-active"));
        DeckySystemContext::from_results(enabled, active)
    }
}

/// Decky, as its installer provides it.
#[derive(Debug)]
pub struct DeckyInstallerProvider {
    pub ctx: SpecificExecutionContext,
    pub decky_ctx: DeckySystemContext,
}

impl DeckyInstallerProvider {
    pub fn new(ctx: SpecificExecutionContext, decky_ctx: DeckySystemContext) -> (r: Self)
        ensures
            r.ctx == ctx,
            r.decky_ctx == decky_ctx,
    {
        DeckyInstallerProvider { ctx, decky_ctx }
    }

    /// Decky can be installed when it is not, and uninstalled and updated when it
    /// is. It cannot be run, killed or added to Steam by hand.
    pub open spec fn spec_checks(self) -> Checks {
        let installed = self.decky_ctx.is_installed;
        Checks {
            installable: !installed,
            uninstallable: installed,
            installed: installed,
            runnable: false,
            running: self.decky_ctx.is_running,
            killable: false,
            updateable: installed,
            addable_to_steam: false,
        }
    }

    pub fn checks(&self) -> (r: Checks)
        ensures
            r == self.spec_checks(),
    {
        let installed = self.decky_ctx.is_installed;
        Checks {
            installable: !installed,
            uninstallable: installed,
            installed: installed,
            runnable: false,
            running: self.decky_ctx.is_running,
            killable: false,
            updateable: installed,
            addable_to_steam: false,
        }
    }

    /// Whether `r` is what taking an action of the kind `action` means here.
    pub open spec fn planned(self, action: SpecificActionID, r: ActionPlan) -> bool {
        match action {
            SpecificActionID::Install | SpecificActionID::Update | SpecificActionID::Uninstall =>
                r matches ActionPlan::Remote(rr) && rr.url@ == DECKY_DOWNLOAD_URL@
                && rr.local_filename@ == DECKY_INSTALLER_TEMP_FILENAME@ && rr.env is None
                && (rr.prepare matches Some(c) && plans(
                c,
                self.ctx.log_channel,
                self.ctx.current_log_level,
                "xhost"@,
                seq!["+"@],
                Seq::empty(),
                false,
            )) && (rr.on_success matches OnSuccess::Message(m) && m@
                == "Decky installed successfully!"@),
            SpecificActionID::Run => r == ActionPlan::Refuse(
                KnownError::ActionNotPossible("Decky is not runnable!"),
            ),
            SpecificActionID::Kill => r == ActionPlan::Refuse(
                KnownError::ActionNotPossible("Decky is not killable!"),
            ),
            SpecificActionID::AddToSteam => r == ActionPlan::Refuse(
                KnownError::ActionNotPossible("Decky is automatically added to Steam."),
            ),
            SpecificActionID::Info => r is Info,
        }
    }

    /// Installing, updating and uninstalling all run the installer script, after
    /// opening the display to it with `xhost +`; they report that Decky was
    /// installed. Running, killing and adding to Steam are refused.
    pub fn plan(&self, action: SpecificActionID) -> (r: ActionPlan)
        ensures
            self.planned(action, r),

    {
        match action {
            SpecificActionID::Install | SpecificActionID::Update | SpecificActionID::Uninstall => {
                let mut args: Vec<String> = Vec::new();
                args.push(owned("+"));
                assert(views(args@) =~= seq!["+"@]);
                let prepare = planned_command(&self.ctx, "xhost", args);
                ActionPlan::Remote(
                    RemoteRun {
                        url: owned(DECKY_DOWNLOAD_URL),
                        local_filename: owned(DECKY_INSTALLER_TEMP_FILENAME),
                        prepare: Some(prepare),
                        env: None,
                        on_success: OnSuccess::Message(owned("Decky installed successfully!")),
                    },
                )
            },
            SpecificActionID::Run => ActionPlan::Refuse(KnownError::ActionNotPossible("Decky is not runnable!")),
            SpecificActionID::Kill => ActionPlan::Refuse(KnownError::ActionNotPossible("Decky is not killable!")),
            SpecificActionID::AddToSteam => ActionPlan::Refuse(
                KnownError::ActionNotPossible("Decky is automatically added to Steam."),
            ),
            SpecificActionID::Info => ActionPlan::Info,
        }
    }
}

} // verus!
