//! Everything the providers need to know of the system, gathered once.
use crate::actions::ActionSuccess;
use crate::context::GeneralExecutionContext;
use crate::errors::{DeckResult, KnownError};
use crate::providers::decky_installer::DeckySystemContext;
use crate::providers::emudeck_installer::{emudeck_gathered, EmuDeckSystemContext};
use crate::providers::flatpak::FlatpakSystemContext;
use crate::providers::geforce_now::{geforce_gathered, GeForceSystemContext};
use crate::providers::running::{entries_agree, procs_map, RunningProgramSystemContext, INSTALLING_ENV_STRING,
    PID_ENV_STRING};
use crate::logging::LogChannel;
use crate::providers::systemd_run::{units_gathered, SystemdRunUnitsContext};
use crate::system_command::{ActualRunner, SysCommand, SysCommandResult};
use crate::text::{contains_str, owned, spec_lines, vec_contains_str, views};
use crate::tricks_config::Trick;
use crate::utils::{output_of, spec_output_of};
use vstd::prelude::*;

verus! {

/// What the system looks like to the providers: the Flatpak applications, Decky,
/// EmuDeck and GeForce NOW, the processes started for tricks and those installing
/// tricks, the `systemd-run` units that run, and the tricks that Steam has a
/// shortcut for.
#[derive(Debug)]
pub struct FullSystemContext {
    pub flatpak_ctx: FlatpakSystemContext,
    pub decky_ctx: DeckySystemContext,
    pub emudeck_ctx: EmuDeckSystemContext,
    pub geforce_ctx: GeForceSystemContext,
    pub procs_ctx: RunningProgramSystemContext,
    pub installing_ctx: RunningProgramSystemContext,
    pub systemd_run_ctx: SystemdRunUnitsContext,
    pub tricks_in_steam: Vec<String>,
}

/// The command that lists processes with their environment.
pub fn ps_eww_command(ctx: &GeneralExecutionContext) -> (r: SysCommand)
    ensures
        r.spec_cmd() == "/bin/ps"@,
        r.spec_args() == seq!["eww"@],
        r.spec_env().len() == 0,
{
    let mut args: Vec<String> = Vec::new();
    args.push(owned("eww"));
    let r = ctx.sys_command("/bin/ps", args);
    assert(r.spec_args() =~= seq!["eww"@]);
    r
}

/// The output of `ps eww`, when it could be had: it is not asked for in a CI
/// container, where it fails, and a failure gives no output. What `ps` answers is
/// not known here, so outside a CI container the contract says what holds of any
/// answer: the listing is the output of some run of the command.
pub fn procs_output<R: ActualRunner>(ctx: &GeneralExecutionContext, runner: &R, in_ci_container: bool) -> (r: Option<String>)
    ensures
        in_ci_container ==> r is None,
        !in_ci_container ==> exists|res: DeckResult<SysCommandResult>, out: DeckResult<ActionSuccess>|
            #[trigger] spec_output_of(res, out) && r == #[trigger] spec_procs_from(out),
{
    if in_ci_container {
        return None;
    }
    let res = runner.run(&ps_eww_command(ctx));
    let out = output_of(res);
    procs_output_from(out)
}

/// The processes of each trick that a listing shows, marked by the environment
/// variable `env_var` (none when there is no listing).
pub open spec fn procs_of_listing(listing: Option<String>, env_var: Seq<char>) -> Map<Seq<char>, Seq<Seq<char>>> {
    match listing {
        Some(o) => procs_map(spec_lines(o@), env_var + "="@),
        None => Map::empty(),
    }
}

impl RunningProgramSystemContext {
    /// Asks the system which processes were started for tricks: those that a
    /// listing of `ps eww` shows, marked by `PID_ENV_STRING` (none in a CI
    /// container, or when the listing could not be had). What `ps` answers is not
    /// known here, so the contract says what holds of any answer.
    pub fn gather_with<R: ActualRunner>(ctx: &GeneralExecutionContext, runner: &R, in_ci_container: bool) -> (r: DeckResult<Self>)
        ensures
            r matches Ok(c) && c.wf() && procs_from_some_listing(c, in_ci_container),
    {
        let output = procs_output(ctx, runner, in_ci_container);
        let c = match &output {
            Some(o) => RunningProgramSystemContext::from_ps_output(Some(o.as_str()), PID_ENV_STRING),
            None => RunningProgramSystemContext::from_ps_output(None, PID_ENV_STRING),
        };
        proof {
            assert(entries_agree(c.tricks_to_running_pids@, procs_of_listing(output, PID_ENV_STRING@)));
            if !in_ci_container {
                let (res, out) = choose|res: DeckResult<SysCommandResult>, out: DeckResult<ActionSuccess>|
                    #[trigger] spec_output_of(res, out) && output == #[trigger] spec_procs_from(out);
                assert(spec_output_of(res, out));
                assert(procs_of_listing(spec_procs_from(out), PID_ENV_STRING@) == procs_of_listing(output, PID_ENV_STRING@));
                assert(entries_agree(c.tricks_to_running_pids@, procs_of_listing(spec_procs_from(out), PID_ENV_STRING@)));
            }
            if in_ci_container {
                assert(output is None);
                if c.tricks_to_running_pids@.len() > 0 {
                    assert(Map::<Seq<char>, Seq<Seq<char>>>::empty().contains_key(c.tricks_to_running_pids@[0].0@));
                }
            }
        }
        assert(procs_from_some_listing(c, in_ci_container));
        Ok(c)
    }
}

/// The processes started for tricks that some answer of `ps eww` shows: none in a
/// CI container, where it is not asked.
pub open spec fn procs_from_some_listing(c: RunningProgramSystemContext, in_ci_container: bool) -> bool {
    &&& in_ci_container ==> c.tricks_to_running_pids@.len() == 0
    &&& !in_ci_container ==> exists|res: DeckResult<SysCommandResult>, out: DeckResult<ActionSuccess>|
        #[trigger] spec_output_of(res, out) && #[trigger] entries_agree(
        c.tricks_to_running_pids@,
        procs_of_listing(spec_procs_from(out), PID_ENV_STRING@),
    )
}

/// The listing of processes that a run of `ps eww` gave, when it succeeded.
pub open spec fn spec_procs_from(result: DeckResult<ActionSuccess>) -> Option<String> {
    match result {
        Ok(s) => s.spec_message(),
        Err(_) => None,
    }
}

/// The listing of processes that a run of `ps eww` gave, when it succeeded.
pub fn procs_output_from(result: DeckResult<ActionSuccess>) -> (r: Option<String>)
    ensures
        r == spec_procs_from(result),
{
    match result {
        Ok(s) => s.get_message(),
        Err(_) => None,
    }
}

/// The processes started for tricks and those installing tricks are those that one
/// listing of processes shows (none when there is no listing, as in a CI container).
pub open spec fn listed_procs(listing: Option<String>, c: FullSystemContext, in_ci_container: bool) -> bool {
    let procs = |env: Seq<char>| match listing {
        Some(o) => procs_map(spec_lines(o@), env + "="@),
        None => Map::empty(),
    };
    &&& in_ci_container ==> listing is None
    &&& entries_agree(c.procs_ctx.tricks_to_running_pids@, procs(PID_ENV_STRING@))
    &&& entries_agree(c.installing_ctx.tricks_to_running_pids@, procs(INSTALLING_ENV_STRING@))
}

/// What holds of gathering whatever the system answers: the processes come from one
/// listing; Decky's state is what systemd answered; the Flatpak applications are
/// those that `flatpak ps` and `flatpak list` printed; EmuDeck's and GeForce NOW's
/// state is what `test -x`, `ps` and `pgrep` answered (see `emudeck_gathered` and
/// `geforce_gathered`); the running units are those for which `systemctl
/// is-running` succeeded (see `units_gathered`); an error is the one that reading Decky's state or the Flatpak
/// applications gave.
pub open spec fn gathered_from_answers(
    r: DeckResult<FullSystemContext>,
    in_ci_container: bool,
    channel: LogChannel,
    homedir: Seq<char>,
    tricks: Seq<Trick>,
) -> bool {
    match r {
        Ok(c) => {
            &&& exists|listing: Option<String>| #[trigger] listed_procs(listing, c, in_ci_container)
            &&& exists|enabled: DeckResult<SysCommandResult>, active: DeckResult<SysCommandResult>|
                #[trigger] DeckySystemContext::spec_from_results(enabled, active, Ok::<DeckySystemContext, KnownError>(c.decky_ctx))
            &&& exists|ps: DeckResult<ActionSuccess>, list: DeckResult<ActionSuccess>|
                #[trigger] FlatpakSystemContext::spec_from_outputs(ps, list, Ok::<FlatpakSystemContext, KnownError>(c.flatpak_ctx))
            &&& emudeck_gathered(channel, homedir, c.emudeck_ctx)
            &&& geforce_gathered(channel, homedir, c.geforce_ctx)
            &&& units_gathered(tricks, c.systemd_run_ctx)
        },
        Err(e) => {
            ||| exists|enabled: DeckResult<SysCommandResult>, active: DeckResult<SysCommandResult>|
                #[trigger] DeckySystemContext::spec_from_results(enabled, active, Err::<DeckySystemContext, KnownError>(e))
            ||| exists|ps: DeckResult<ActionSuccess>, list: DeckResult<ActionSuccess>|
                #[trigger] FlatpakSystemContext::spec_from_outputs(ps, list, Err::<FlatpakSystemContext, KnownError>(e))
        },
    }
}

impl FullSystemContext {
    /// Nothing is installed or runs, nothing is found where, and Steam has no
    /// shortcut for any trick.
    pub open spec fn is_empty(self) -> bool {
        &&& self.flatpak_ctx.installed@.len() == 0
        &&& self.flatpak_ctx.running@.len() == 0
        &&& !self.decky_ctx.is_installed
        &&& !self.decky_ctx.is_running
        &&& !self.emudeck_ctx.is_installed
        &&& self.emudeck_ctx.running_pids@.len() == 0
        &&& self.emudeck_ctx.binary_path@.len() == 0
        &&& !self.geforce_ctx.is_installed
        &&& self.geforce_ctx.running_pids@.len() == 0
        &&& self.geforce_ctx.local_executable@.len() == 0
        &&& self.procs_ctx.tricks_to_running_pids@.len() == 0
        &&& self.installing_ctx.tricks_to_running_pids@.len() == 0
        &&& self.systemd_run_ctx.running_unit_ids@.len() == 0
        &&& self.tricks_in_steam@.len() == 0
    }

    /// A system where nothing is installed or runs.
    pub fn empty() -> (r: Self)
        ensures
            r.is_empty(),
            r.procs_ctx.wf(),
            r.installing_ctx.wf(),
            r.procs_ctx.tricks_to_running_pids@.len() == 0,
            r.installing_ctx.tricks_to_running_pids@.len() == 0,
            r.tricks_in_steam@.len() == 0,
            r.flatpak_ctx.installed@.len() == 0,
            r.flatpak_ctx.running@.len() == 0,
            !r.decky_ctx.is_installed,
            !r.emudeck_ctx.is_installed,
            !r.geforce_ctx.is_installed,
    {
        FullSystemContext {
            flatpak_ctx: FlatpakSystemContext { running: Vec::new(), installed: Vec::new() },
            decky_ctx: DeckySystemContext { is_installed: false, is_running: false },
            emudeck_ctx: EmuDeckSystemContext {
                is_installed: false,
                running_pids: Vec::new(),
                binary_path: String::new(),
            },
            geforce_ctx: GeForceSystemContext {
                is_installed: false,
                running_pids: Vec::new(),
                local_executable: String::new(),
            },
            procs_ctx: RunningProgramSystemContext::empty(),
            installing_ctx: RunningProgramSystemContext::empty(),
            systemd_run_ctx: SystemdRunUnitsContext::empty(),
            tricks_in_steam: Vec::new(),
        }
    }

    /// Asks the system what the providers need to know. The processes started for
    /// tricks and those installing tricks both come from one listing of processes.
    /// When Decky's state or the Flatpak applications cannot be had, that error
    /// ends the gathering, Decky's first. The tricks that Steam has a shortcut for
    /// are given.
    pub fn gather_with<R: ActualRunner>(
        ctx: &GeneralExecutionContext,
        runner: &R,
        tricks: &Vec<Trick>,
        homedir: &str,
        in_ci_container: bool,
        tricks_in_steam: Vec<String>,
    ) -> (r: DeckResult<Self>)
        ensures
            r matches Ok(c) ==> c.procs_ctx.wf() && c.installing_ctx.wf() && c.tricks_in_steam
                == tricks_in_steam,
            gathered_from_answers(r, in_ci_container, ctx.log_channel, homedir@, tricks@),
    {
        let decky_result = DeckySystemContext::gather_with(ctx, runner);
        let ghost g_decky = decky_result;
        let decky_ctx = match decky_result {
            Ok(c) => c,
            Err(e) => {
                let r = Err(e);
                assert(gathered_from_answers(r, in_ci_container, ctx.log_channel, homedir@, tricks@));
                return r;
            },
        };
        let flatpak_result = FlatpakSystemContext::gather_with(ctx, runner);
        let ghost g_flatpak = flatpak_result;
        let flatpak_ctx = match flatpak_result {
            Ok(c) => c,
            Err(e) => {
                let r = Err(e);
                assert(gathered_from_answers(r, in_ci_container, ctx.log_channel, homedir@, tricks@));
                return r;
            },
        };
        let output = procs_output(ctx, runner, in_ci_container);
        let procs_ctx = match &output {
            Some(o) => RunningProgramSystemContext::from_ps_output(Some(o.as_str()), PID_ENV_STRING),
            None => RunningProgramSystemContext::from_ps_output(None, PID_ENV_STRING),
        };
        let installing_ctx = match &output {
            Some(o) => RunningProgramSystemContext::from_ps_output(Some(o.as_str()), INSTALLING_ENV_STRING),
            None => RunningProgramSystemContext::from_ps_output(None, INSTALLING_ENV_STRING),
        };
        let emudeck_ctx = EmuDeckSystemContext::gather_with(ctx, runner, homedir);
        let geforce_ctx = GeForceSystemContext::gather_with(ctx, runner, homedir);
        let systemd_run_ctx = SystemdRunUnitsContext::gather_with(ctx, runner, tricks);
        let full = FullSystemContext {
            flatpak_ctx,
            decky_ctx,
            emudeck_ctx,
            geforce_ctx,
            procs_ctx,
            installing_ctx,
            systemd_run_ctx,
            tricks_in_steam,
        };
        proof {
            assert(listed_procs(output, full, in_ci_container));
            let (e, a) = choose|e: DeckResult<SysCommandResult>, a: DeckResult<SysCommandResult>|
                #[trigger] DeckySystemContext::spec_from_results(e, a, g_decky);
            assert(DeckySystemContext::spec_from_results(e, a, Ok::<DeckySystemContext, KnownError>(full.decky_ctx)));
            let (p, l) = choose|p: DeckResult<ActionSuccess>, l: DeckResult<ActionSuccess>|
                #[trigger] FlatpakSystemContext::spec_from_outputs(p, l, g_flatpak);
            assert(FlatpakSystemContext::spec_from_outputs(p, l, Ok::<FlatpakSystemContext, KnownError>(full.flatpak_ctx)));
        }
        let ghost gf = full;
        let r = Ok(full);
        assert(r->Ok_0 == gf);
        assert(exists|listing: Option<String>| #[trigger] listed_procs(listing, gf, in_ci_container));
        assert(gathered_from_answers(r, in_ci_container, ctx.log_channel, homedir@, tricks@));
        r
    }

    /// Whether a process installing the trick runs.
    pub fn is_installing(&self, trick_id: &str) -> (r: bool)
        requires
            self.installing_ctx.wf(),
        ensures
            r == self.installing_ctx.spec_get(trick_id@) is Some,
    {
        match self.installing_ctx.get(trick_id) {
            Some(_) => true,
            None => false,
        }
    }

    /// Whether Steam has a shortcut for the trick.
    pub fn is_added_to_steam(&self, trick_id: &str) -> (r: bool)
        ensures
            r == contains_str(self.tricks_in_steam@, trick_id@),
    {
        vec_contains_str(&self.tricks_in_steam, trick_id)
    }
}

} // verus!
