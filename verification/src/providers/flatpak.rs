//! Tricks that are Flatpak applications.
use crate::actions::{ActionSuccess, SpecificActionID};
use crate::context::{GeneralExecutionContext, SpecificExecutionContext};
use crate::errors::{DeckResult, KnownError};
use crate::providers::running::INSTALLING_ENV_STRING;
use crate::providers::{plans, ActionPlan, Checks, OnSuccess};
use crate::system_command::{ran, ActualRunner, SysCommand, SysCommandResult};
use crate::text::{clone_strings, concat2, concat3, contains_str, lines, owned, spec_lines,
    spec_words, split_whitespace, str_eq, vec_contains_str, views};
use crate::tricks_config::Flatpak;
use crate::utils::{output_of, spec_output_of};
use vstd::prelude::*;

verus! {

/// The program that manages Flatpak applications.
pub const FLATPAK_SYSTEM_COMMAND: &'static str = "flatpak";

/// The Flatpak applications that run and those that are installed.
#[derive(Debug)]
pub struct FlatpakSystemContext {
    pub running: Vec<String>,
    pub installed: Vec<String>,
}

/// The text of a command's output, or the error it ended with.
pub open spec fn output_text(output: DeckResult<ActionSuccess>) -> Option<Seq<char>> {
    match output {
        Ok(s) => Some(
            match s.spec_message() {
                Some(m) => m@,
                None => Seq::empty(),
            },
        ),
        Err(_) => None,
    }
}

/// The error reported when the output of a Flatpak command could not be had:
/// `prefix` followed by the description of the error.
pub open spec fn parse_error_from(prefix: Seq<char>, e: KnownError, r: KnownError) -> bool {
    r matches KnownError::SystemCommandParse(m) && exists|d: Seq<char>|
        m@ == prefix + d && (!(e is SeriousError) ==> d == e.spec_describe())
}

/// One line per application in a command's output, or the parse error that
/// names `what` when the command did not succeed.
pub fn lines_of_output(output: DeckResult<ActionSuccess>, prefix: &str) -> (r: DeckResult<Vec<String>>)
    ensures
        match output {
            Ok(s) => r matches Ok(v) && views(v@) == spec_lines(output_text(output)->0),
            Err(e) => r matches Err(re) && parse_error_from(prefix@, e, re),
        },
{
    match output {
        Ok(s) => {
            let text = s.get_message_or_blank();
            Ok(lines(text.as_str()))
        },
        Err(e) => {
            let d = e.describe();
            Err(KnownError::SystemCommandParse(concat2(prefix, d.as_str())))
        },
    }
}

/// Runs a command and gives its output (see `output_of`).
pub fn run_for_output<R: ActualRunner>(runner: &R, cmd: &SysCommand) -> (r: DeckResult<ActionSuccess>)
    ensures
        exists|res: DeckResult<SysCommandResult>| #[trigger] spec_output_of(res, r),
{
    let res = runner.run(cmd);
    output_of(res)
}

/// The command that lists the running Flatpak applications.
pub fn flatpak_ps_command(ctx: &GeneralExecutionContext) -> (r: SysCommand)
    ensures
        r.spec_cmd() == "flatpak"@,
        r.spec_args() == seq!["ps"@, "--columns=application"@],
        r.spec_env().len() == 0,
        r.log_channel == ctx.log_channel,
{
    let mut args: Vec<String> = Vec::new();
    args.push(owned("ps"));
    args.push(owned("--columns=application"));
    let r = ctx.sys_command("flatpak", args);
    assert(r.spec_args() =~= seq!["ps"@, "--columns=application"@]);
    r
}

/// The command that lists the installed Flatpak applications.
pub fn flatpak_list_command(ctx: &GeneralExecutionContext) -> (r: SysCommand)
    ensures
        r.spec_cmd() == "flatpak"@,
        r.spec_args() == seq!["list"@, "--app"@, "--columns=application"@],
        r.spec_env().len() == 0,
        r.log_channel == ctx.log_channel,
{
    let mut args: Vec<String> = Vec::new();
    args.push(owned("list"));
    args.push(owned("--app"));
    args.push(owned("--columns=application"));
    let r = ctx.sys_command("flatpak", args);
    assert(r.spec_args() =~= seq!["list"@, "--app"@, "--columns=application"@]);
    r
}

/// The command that lists the Flatpak remotes with their options.
pub fn flatpak_remotes_command(ctx: &GeneralExecutionContext) -> (r: SysCommand)
    ensures
        r.spec_cmd() == "flatpak"@,
        r.spec_args() == seq!["remotes"@, "--columns=name,options"@],
        r.spec_env().len() == 0,
        r.log_channel == ctx.log_channel,
{
    let mut args: Vec<String> = Vec::new();
    args.push(owned("remotes"));
    args.push(owned("--columns=name,options"));
    let r = ctx.sys_command("flatpak", args);
    assert(r.spec_args() =~= seq!["remotes"@, "--columns=name,options"@]);
    r
}

impl FlatpakSystemContext {
    /// The applications that the outputs of `flatpak ps` and `flatpak list` show,
    /// one per line; the first of them that failed gives the error.
    pub open spec fn spec_from_outputs(ps: DeckResult<ActionSuccess>, list: DeckResult<ActionSuccess>, r: DeckResult<Self>) -> bool {
        match (ps, list) {
            (Ok(_), Ok(_)) => r matches Ok(c) && views(c.running@) == spec_lines(
                output_text(ps)->0,
            ) && views(c.installed@) == spec_lines(output_text(list)->0),
            (Err(e), _) => r matches Err(re) && parse_error_from(
                "Failed to parse 'flatpak ps' output: "@,
                e,
                re,
            ),
            (Ok(_), Err(e)) => r matches Err(re) && parse_error_from(
                "Failed to parse 'flatpak list' output: "@,
                e,
                re,
            ),
        }
    }

    pub fn from_outputs(ps: DeckResult<ActionSuccess>, list: DeckResult<ActionSuccess>) -> (r: DeckResult<Self>)
        ensures
            FlatpakSystemContext::spec_from_outputs(ps, list, r),
    {
        let running = lines_of_output(ps, "Failed to parse 'flatpak ps' output: ");
        let installed = lines_of_output(list, "Failed to parse 'flatpak list' output: ");
        match running {
            Err(e) => Err(e),
            Ok(running) => match installed {
                Err(e) => Err(e),
                Ok(installed) => Ok(FlatpakSystemContext { running, installed }),
            },
        }
    }

    /// Asks the system which applications run and which are installed. What the
    /// system answers is not known here, so the contract says what holds of any
    /// answer: the context is read from some outputs of the two commands.
    pub fn gather_with<R: ActualRunner>(ctx: &GeneralExecutionContext, runner: &R) -> (r: DeckResult<Self>)
        ensures
            exists|ps: DeckResult<ActionSuccess>, list: DeckResult<ActionSuccess>|
                #[trigger] FlatpakSystemContext::spec_from_outputs(ps, list, r),
    {
        let ps = run_for_output(runner, &flatpak_ps_command(ctx));
        let list = run_for_output(runner, &flatpak_list_command(ctx));
        FlatpakSystemContext::from_outputs(ps, list)
    }

    pub fn duplicate(&self) -> (r: Self)
        ensures
            r.running@ == self.running@,
            r.installed@ == self.installed@,
    {
        FlatpakSystemContext {
            running: clone_strings(&self.running),
            installed: clone_strings(&self.installed),
        }
    }
}

/// Whether the output of `flatpak remotes` shows Flathub set up for the user: a
/// line whose first word is `flathub` and whose second is `user`.
pub open spec fn shows_user_flathub(text: Seq<char>) -> bool {
    exists|i: int|
        0 <= i < spec_lines(text).len() && #[trigger] spec_words(spec_lines(text)[i]).len() >= 2
            && spec_words(spec_lines(text)[i])[0] == "flathub"@ && spec_words(
            spec_lines(text)[i],
        )[1] == "user"@
}

/// Whether the output of `flatpak remotes` shows Flathub set up for the user, or
/// the parse error when the command did not succeed.
pub open spec fn spec_user_flathub_from(output: DeckResult<ActionSuccess>, r: DeckResult<bool>) -> bool {
    match output {
        Ok(_) => r == Ok::<bool, KnownError>(shows_user_flathub(output_text(output)->0)),
        Err(e) => r matches Err(re) && parse_error_from(
            "Failed to parse 'flatpak list' output: "@,
            e,
            re,
        ),
    }
}

/// Whether the output of `flatpak remotes` shows Flathub set up for the user, or
/// the parse error when the command did not succeed.
pub fn user_flathub_from_output(output: DeckResult<ActionSuccess>) -> (r: DeckResult<bool>)
    ensures
        spec_user_flathub_from(output, r),
{
    let ls = match lines_of_output(output, "Failed to parse 'flatpak list' output: ") {
        Ok(ls) => ls,
        Err(e) => return Err(e),
    };
    let ghost text = output_text(output)->0;
    let mut i: usize = 0;
    while i < ls.len()
        invariant
            i <= ls@.len(),
            views(ls@) == spec_lines(text),
            output is Ok,
            text == output_text(output)->0,
            forall|j: int|
                0 <= j < i ==> !(#[trigger] spec_words(spec_lines(text)[j]).len() >= 2 && spec_words(
                    spec_lines(text)[j],
                )[0] == "flathub"@ && spec_words(spec_lines(text)[j])[1] == "user"@),
        decreases ls@.len() - i,
    {
        let words = split_whitespace(ls[i].as_str());
        assert(spec_lines(text)[i as int] == ls@[i as int]@);
        if words.len() >= 2 && str_eq(words[0].as_str(), "flathub") && str_eq(words[1].as_str(), "user") {
            assert(views(words@)[0] == words@[0]@);
            assert(views(words@)[1] == words@[1]@);
            assert(spec_words(spec_lines(text)[i as int]).len() >= 2);
            assert(spec_words(spec_lines(text)[i as int])[0] == "flathub"@);
            assert(spec_words(spec_lines(text)[i as int])[1] == "user"@);
            return Ok(true);
        }
        proof {
            if words@.len() >= 2 {
                assert(views(words@)[0] == words@[0]@);
                assert(views(words@)[1] == words@[1]@);
            }
        }
        i = i + 1;
    }
    Ok(false)
}

/// Whether Flathub is set up for the user, as `flatpak remotes` shows it.
pub fn get_has_user_flathub<R: ActualRunner>(ctx: &GeneralExecutionContext, runner: &R) -> (r: DeckResult<bool>)
    ensures
        exists|output: DeckResult<ActionSuccess>| #[trigger] spec_user_flathub_from(output, r),
{
    let output = run_for_output(runner, &flatpak_remotes_command(ctx));
    user_flathub_from_output(output)
}

/// A trick that is a Flatpak application.
#[derive(Debug)]
pub struct FlatpakProvider {
    pub id: String,
    pub flatpak_ctx: FlatpakSystemContext,
    pub ctx: SpecificExecutionContext,
}

impl FlatpakProvider {
    pub fn new(flatpak: &Flatpak, flatpak_ctx: FlatpakSystemContext, ctx: SpecificExecutionContext) -> (r: Self)
        ensures
            r.id@ == flatpak.id@,
            r.flatpak_ctx == flatpak_ctx,
            r.ctx == ctx,
    {
        FlatpakProvider { id: flatpak.id.clone(), flatpak_ctx, ctx }
    }

    /// The application is installed when `flatpak list` shows it, and runs when
    /// `flatpak ps` shows it. What is installed can be uninstalled, updated and added
    /// to Steam; what is installed and not running can be run; what runs can be
    /// killed.
    pub open spec fn spec_checks(self) -> Checks {
        let installed = contains_str(self.flatpak_ctx.installed@, self.id@);
        let running = contains_str(self.flatpak_ctx.running@, self.id@);
        Checks {
            installable: !installed,
            uninstallable: installed,
            installed: installed,
            runnable: installed && !running,
            running: running,
            killable: running,
            updateable: installed,
            addable_to_steam: installed,
        }
    }

    pub fn checks(&self) -> (r: Checks)
        ensures
            r == self.spec_checks(),
    {
        let installed = vec_contains_str(&self.flatpak_ctx.installed, self.id.as_str());
        let running = vec_contains_str(&self.flatpak_ctx.running, self.id.as_str());
        Checks {
            installable: !installed,
            uninstallable: installed,
            installed: installed,
            runnable: installed && !running,
            running: running,
            killable: running,
            updateable: installed,
            addable_to_steam: installed,
        }
    }

    fn flatpak_command(&self, first: &str, second: Option<&str>, third: Option<&str>) -> (r: SysCommand)
        ensures
            plans(
                r,
                self.ctx.log_channel,
                self.ctx.current_log_level,
                "flatpak"@,
                match (second, third) {
                    (Some(b), Some(c)) => seq![first@, b@, c@, self.id@],
                    (Some(b), None) => seq![first@, b@, self.id@],
                    _ => seq![first@, self.id@],
                },
                Seq::empty(),
                false,
            ),
    {
        let mut args: Vec<String> = Vec::new();
        args.push(owned(first));
        match second {
            Some(b) => {
                args.push(owned(b));
                match third {
                    Some(c) => args.push(owned(c)),
                    None => {},
                }
            },
            None => {},
        }
        args.push(self.id.clone());
        let r = self.ctx.sys_command(FLATPAK_SYSTEM_COMMAND, args);
        assert(r.spec_env() =~= Seq::<(Seq<char>, Seq<char>)>::empty());
        proof {
            match (second, third) {
                (Some(b), Some(c)) => assert(r.spec_args() =~= seq![first@, b@, c@, self.id@]),
                (Some(b), None) => assert(r.spec_args() =~= seq![first@, b@, self.id@]),
                _ => assert(r.spec_args() =~= seq![first@, self.id@]),
            }
        }
        r
    }

    /// Whether `r` is what taking an action of the kind `action` means here.
    pub open spec fn planned(self, action: SpecificActionID, r: ActionPlan) -> bool {
        match action {
            SpecificActionID::Run => r matches ActionPlan::Command(c, OnSuccess::Output) && plans(
                c,
                self.ctx.log_channel,
                self.ctx.current_log_level,
                "flatpak"@,
                seq!["run"@, self.id@],
                Seq::empty(),
                false,
            ),
            SpecificActionID::Install => r matches ActionPlan::Command(c, OnSuccess::Message(m))
                && plans(
                c,
                self.ctx.log_channel,
                self.ctx.current_log_level,
                "flatpak"@,
                seq!["install"@, "--user"@, "-y"@, self.id@],
                seq![(INSTALLING_ENV_STRING@, self.ctx.trick.id@)],
                false,
            ) && m@ == "\""@ + self.id@ + "\" installed successfully."@,
            SpecificActionID::Uninstall => r matches ActionPlan::Command(c, OnSuccess::Message(m))
                && plans(
                c,
                self.ctx.log_channel,
                self.ctx.current_log_level,
                "flatpak"@,
                seq!["uninstall"@, "-y"@, self.id@],
                Seq::empty(),
                false,
            ) && m@ == "\""@ + self.id@ + "\" uninstalled successfully."@,
            SpecificActionID::Kill => r matches ActionPlan::Command(c, OnSuccess::Silent) && plans(
                c,
                self.ctx.log_channel,
                self.ctx.current_log_level,
                "flatpak"@,
                seq!["kill"@, self.id@],
                Seq::empty(),
                false,
            ),
            SpecificActionID::Update => r matches ActionPlan::Command(c, OnSuccess::Silent) && plans(
                c,
                self.ctx.log_channel,
                self.ctx.current_log_level,
                "flatpak"@,
                seq!["update"@, self.id@],
                Seq::empty(),
                false,
            ),
            SpecificActionID::AddToSteam => r is AddToSteam,
            SpecificActionID::Info => r is Info,
        }
    }

    /// What taking an action means for a Flatpak application: running, installing
    /// for the user (marked as installing this trick), uninstalling, killing and
    /// updating are each one `flatpak` command. Installing and uninstalling report
    /// that the application was installed or uninstalled; running reports the
    /// command's output; killing and updating report nothing.
    pub fn plan(&self, action: SpecificActionID) -> (r: ActionPlan)
        ensures
            self.planned(action, r),

    {
        match action {
            SpecificActionID::Run => ActionPlan::Command(self.flatpak_command("run", None, None), OnSuccess::Output),
            SpecificActionID::Install => {
                let mut c = self.flatpak_command("install", Some("--user"), Some("-y"));
                c.env(INSTALLING_ENV_STRING, self.ctx.trick.id.as_str());
                assert(c.spec_env() =~= seq![(INSTALLING_ENV_STRING@, self.ctx.trick.id@)]);
                let m = concat3("\"", self.id.as_str(), "\" installed successfully.");
                ActionPlan::Command(c, OnSuccess::Message(m))
            },
            SpecificActionID::Uninstall => {
                let c = self.flatpak_command("uninstall", Some("-y"), None);
                let m = concat3("\"", self.id.as_str(), "\" uninstalled successfully.");
                ActionPlan::Command(c, OnSuccess::Message(m))
            },
            SpecificActionID::Kill => ActionPlan::Command(self.flatpak_command("kill", None, None), OnSuccess::Silent),
            SpecificActionID::Update => ActionPlan::Command(self.flatpak_command("update", None, None), OnSuccess::Silent),
            SpecificActionID::AddToSteam => ActionPlan::AddToSteam,
            SpecificActionID::Info => ActionPlan::Info,
        }
    }
}

/// The two commands that update every Flatpak application. The update is run
/// twice: the second run removes the runtimes that nothing uses any more.
pub fn update_all_commands(ctx: &GeneralExecutionContext) -> (r: (SysCommand, SysCommand))
    ensures
        r.0.spec_cmd() == "flatpak"@ && r.0.spec_args() == seq!["update"@, "-y"@] && r.0.spec_env().len() == 0,
        r.1.spec_cmd() == "flatpak"@ && r.1.spec_args() == seq!["update"@, "-y"@] && r.1.spec_env().len() == 0,
{
    let mut a: Vec<String> = Vec::new();
    a.push(owned("update"));
    a.push(owned("-y"));
    let b = clone_strings(&a);
    let r0 = ctx.sys_command(FLATPAK_SYSTEM_COMMAND, a);
    let r1 = ctx.sys_command(FLATPAK_SYSTEM_COMMAND, b);
    assert(r0.spec_args() =~= seq!["update"@, "-y"@]);
    assert(r1.spec_args() =~= seq!["update"@, "-y"@]);
    (r0, r1)
}

/// The command `flatpak update -y`.
pub open spec fn is_update_all_command(c: SysCommand) -> bool {
    c.spec_cmd() == "flatpak"@ && c.spec_args() == seq!["update"@, "-y"@] && c.spec_env().len() == 0
}

/// A result of running is that of `flatpak update -y`.
pub open spec fn ran_update_all(result: DeckResult<SysCommandResult>) -> bool {
    result matches Ok(res) ==> is_update_all_command(res.spec_command())
}

/// What updating everything comes to, given the results of the two runs: the error
/// of the first run that could not be made, else the success message.
pub open spec fn update_all_result(
    first: DeckResult<SysCommandResult>,
    second: DeckResult<SysCommandResult>,
    r: DeckResult<ActionSuccess>,
) -> bool {
    match first {
        Err(e) => r == Err::<ActionSuccess, KnownError>(e),
        Ok(_) => match second {
            Err(e) => r == Err::<ActionSuccess, KnownError>(e),
            Ok(_) => r matches Ok(s) && s.spec_message() matches Some(m) && m@ == "Flatpak update run successfully!"@,
        },
    }
}

/// Updates every Flatpak application: `flatpak update -y` is run twice, whatever
/// each run ends with; only a command that cannot be run at all ends it with an
/// error. What the runs give is not known here, so the contract says what holds of
/// any results of those two commands.
pub fn update_all<R: ActualRunner>(ctx: &GeneralExecutionContext, runner: &R) -> (r: DeckResult<ActionSuccess>)
    ensures
        exists|first: DeckResult<SysCommandResult>, second: DeckResult<SysCommandResult>|
            ran_update_all(first) && ran_update_all(second) && #[trigger] update_all_result(first, second, r),
{
    let (first, second) = update_all_commands(ctx);
    let r1 = runner.run(&first);
    let ghost g1 = r1;
    match r1 {
        Err(e) => {
            let r = Err(e);
            assert(update_all_result(g1, g1, r));
            assert(ran_update_all(g1));
            return r;
        },
        Ok(_) => {},
    }
    let r2 = runner.run(&second);
    let ghost g2 = r2;
    match r2 {
        Err(e) => {
            let r = Err(e);
            assert(update_all_result(g1, g2, r));
            assert(ran_update_all(g2));
            return r;
        },
        Ok(_) => {},
    }
    let r = Ok(ActionSuccess::success(Some(owned("Flatpak update run successfully!"))));
    assert(update_all_result(g1, g2, r));
    assert(ran_update_all(g1) && ran_update_all(g2));
    r
}

} // verus!
