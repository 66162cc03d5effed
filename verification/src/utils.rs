//! Paths under the home directory, checks of the environment, and small helpers that
//! run commands: testing a file, finding and killing processes.
use crate::actions::ActionSuccess;
use crate::context::GeneralExecutionContext;
use crate::errors::{DeckResult, KnownError};
use crate::logging::LogChannel;
use crate::command::LogType;
use crate::system_command::{ran, spec_utf8_lossy, ActualRunner, SysCommand, SysCommandResult};
use crate::text::{concat3, join, join_strings, owned, push_str, spec_words, split_whitespace,
    views};
use crate::tricks_config::reversed;
use vstd::prelude::*;

verus! {

/// The home directory used when `HOME` is not set.
pub open spec fn spec_default_homedir() -> Seq<char> {
    "/home/deck"@
}

/// Whether debugging is switched on; it never is yet.
pub fn is_debug() -> (r: bool)
    ensures
        !r,
{
    false
}

/// The home directory: the value of `HOME`, else the Steam Deck's default.
pub fn get_homedir(home_env_value: Option<&str>) -> (r: String)
    ensures
        r@ == match home_env_value {
            Some(h) => h@,
            None => spec_default_homedir(),
        },
{
    match home_env_value {
        Some(h) => owned(h),
        None => owned("/home/deck"),
    }
}

/// Joining a relative path onto a base path (`Path::join`): a separator goes between
/// them unless the base is empty or already ends with one.
pub open spec fn spec_path_join(base: Seq<char>, rel: Seq<char>) -> Seq<char> {
    if base.len() == 0 || base.last() == '/' {
        base + rel
    } else {
        base + "/"@ + rel
    }
}

/// Joins a relative path onto a base path.
pub fn path_join(base: &str, rel: &str) -> (r: String)
    ensures
        r@ == spec_path_join(base@, rel@),
{
    let n = base.unicode_len();
    if n == 0 || base.get_char(n - 1) == '/' {
        let mut r = owned(base);
        push_str(&mut r, rel);
        r
    } else {
        concat3(base, "/", rel)
    }
}

pub open spec fn spec_decktricks_dir(homedir: Seq<char>) -> Seq<char> {
    spec_path_join(homedir, ".local/share/decktricks/"@)
}

/// Where decktricks keeps its files, under the home directory.
pub fn get_decktricks_dir(homedir: &str) -> (r: String)
    ensures
        r@ == spec_decktricks_dir(homedir@),
{
    path_join(homedir, ".local/share/decktricks/")
}

/// Where the updater writes its log.
pub fn get_decktricks_update_log_file_location(homedir: &str) -> (r: String)
    ensures
        r@ == spec_path_join(spec_decktricks_dir(homedir@), "logs/decktricks-update.log"@),
{
    let dir = get_decktricks_dir(homedir);
    path_join(dir.as_str(), "logs/decktricks-update.log")
}

/// The environment variables that continuous integration systems set.
pub open spec fn spec_known_ci_env_vars() -> Seq<Seq<char>> {
    seq!["CI"@, "GITHUB_ACTIONS"@, "TRAVIS"@, "CIRCLECI"@, "GITLAB_CI"@]
}

/// The environment variables that continuous integration systems set.
pub fn known_ci_env_vars() -> (r: Vec<&'static str>)
    ensures
        r@.len() == spec_known_ci_env_vars().len(),
        forall|i: int| 0 <= i < r@.len() ==> r@[i]@ == spec_known_ci_env_vars()[i],
{
    let r = vec!["CI", "GITHUB_ACTIONS", "TRAVIS", "CIRCLECI", "GITLAB_CI"];
    r
}

/// An environment variable is set to something that is not empty.
pub open spec fn is_set_non_empty(value: Option<String>) -> bool {
    match value {
        Some(v) => v@.len() > 0,
        None => false,
    }
}

/// Whether we run inside continuous integration: one of the known variables is set
/// to something that is not empty. `values` holds the variables' values, in the order
/// of `known_ci_env_vars`.
pub fn running_in_ci_container(values: &Vec<Option<String>>) -> (r: bool)
    ensures
        r == exists|i: int| 0 <= i < values@.len() && is_set_non_empty(#[trigger] values@[i]),
{
    let mut i: usize = 0;
    while i < values.len()
        invariant
            i <= values@.len(),
            forall|j: int| 0 <= j < i ==> !is_set_non_empty(#[trigger] values@[j]),
        decreases values@.len() - i,
    {
        if let Some(v) = &values[i] {
            if v.as_str().unicode_len() > 0 {
                return true;
            }
        }
        i = i + 1;
    }
    false
}

/// The command that tests whether a file exists and is executable.
pub fn exists_and_executable_command(ctx: &GeneralExecutionContext, path: &str) -> (r: SysCommand)
    ensures
        r.spec_cmd() == "/bin/test"@,
        views(r.args@) == seq!["-x"@, path@],
        r.spec_env().len() == 0,
        r.log_channel == ctx.log_channel,
{
    let mut args: Vec<String> = Vec::new();
    args.push(owned("-x"));
    args.push(owned(path));
    let r = ctx.sys_command("/bin/test", args);
    assert(views(r.args@) =~= seq!["-x"@, path@]);
    r
}

/// Whether what running `test -x` gave shows the file executable: the command
/// ran and ended with exit code 0.
pub fn executable_from(result: DeckResult<SysCommandResult>) -> (r: bool)
    ensures
        r == (result matches Ok(res) && res.spec_success()),
{
    match result {
        Ok(res) => res.ran_successfully(),
        Err(_) => false,
    }
}

/// Whether `c` is the command that asks `test -x` about `path`, logging on `channel`.
pub open spec fn is_executable_test(c: SysCommand, channel: LogChannel, path: Seq<char>) -> bool {
    &&& c.spec_cmd() == "/bin/test"@
    &&& c.spec_args() == seq!["-x"@, path]
    &&& c.spec_env().len() == 0
    &&& c.log_channel == channel
}

/// Whether `r` is the answer read from `res`, a result of running the command `c`:
/// the file is executable when the command ran and ended with exit code 0.
pub open spec fn executable_answer(c: SysCommand, res: DeckResult<SysCommandResult>, r: bool) -> bool {
    &&& ran(c, res)
    &&& r == (res matches Ok(x) && x.spec_success())
}

/// Whether `r` is what some run of `test -x` on `path` answers.
pub open spec fn tested_executable(channel: LogChannel, path: Seq<char>, r: bool) -> bool {
    exists|c: SysCommand, res: DeckResult<SysCommandResult>|
        is_executable_test(c, channel, path) && #[trigger] executable_answer(c, res, r)
}

/// Whether a file exists and is executable, asked of the system with `test -x`
/// (see `executable_from`). What the system answers is not known here, so the
/// contract says what holds of any answer: the result is read from some run of
/// the `test -x` command on `path`.
pub fn exists_and_executable<R: ActualRunner>(ctx: &GeneralExecutionContext, runner: &R, path: &str) -> (r: bool)
    ensures
        tested_executable(ctx.log_channel, path@, r),
{
    let cmd = exists_and_executable_command(ctx, path);
    let res = runner.run(&cmd);
    let ghost gres = res;
    let r = executable_from(res);
    assert(is_executable_test(cmd, ctx.log_channel, path@));
    assert(executable_answer(cmd, gres, r));
    r
}

/// Whether `r` is the output of a command that was run: its output when it ended
/// with exit code 0, the failure otherwise, or the error of a command that could
/// not be run.
pub open spec fn spec_output_of(result: DeckResult<SysCommandResult>, r: DeckResult<ActionSuccess>) -> bool {
    &&& result matches Err(e) ==> r == Err::<ActionSuccess, KnownError>(e)
    &&& result matches Ok(res) ==> ((res.spec_success() <==> r is Ok) && (res.spec_success() ==> (r matches Ok(s)
        && s.spec_message() matches Some(m) && m@ == spec_utf8_lossy(res.spec_output().stdout@))))
}

/// The output of a command that was run: its output when it ended with exit code
/// 0, the failure otherwise, or the error of a command that could not be run.
pub fn output_of(result: DeckResult<SysCommandResult>) -> (r: DeckResult<ActionSuccess>)
    ensures
        spec_output_of(result, r),
{
    match result {
        Ok(res) => res.as_success(),
        Err(e) => Err(e),
    }
}

/// Whether `r` holds the process IDs that a command printed: its output's
/// whitespace-separated words.
pub open spec fn spec_pids_from(output: DeckResult<ActionSuccess>, r: DeckResult<Vec<String>>) -> bool {
    match output {
        Ok(s) => r matches Ok(pids) && views(pids@) == spec_words(
            match s.spec_message() {
                Some(m) => m@,
                None => Seq::<char>::empty(),
            },
        ),
        Err(e) => r == Err::<Vec<String>, KnownError>(e),
    }
}

/// The process IDs that a command printed: its output's whitespace-separated words.
pub fn pids_from_output(output: DeckResult<ActionSuccess>) -> (r: DeckResult<Vec<String>>)
    ensures
        spec_pids_from(output, r),
{
    match output {
        Ok(s) => {
            let text = s.get_message_or_blank();
            Ok(split_whitespace(text.as_str()))
        },
        Err(e) => Err(e),
    }
}

/// The command that lists the IDs of processes running the given binary.
pub fn running_pids_exact_command(ctx: &GeneralExecutionContext, binary_name: &str) -> (r: SysCommand)
    ensures
        r.spec_cmd() == "ps"@,
        views(r.args@) == seq!["-C"@, binary_name@, "-o"@, "pid="@],
        r.spec_env().len() == 0,
        r.log_channel == ctx.log_channel,
{
    let mut args: Vec<String> = Vec::new();
    args.push(owned("-C"));
    args.push(owned(binary_name));
    args.push(owned("-o"));
    args.push(owned("pid="));
    let r = ctx.sys_command("ps", args);
    assert(views(r.args@) =~= seq!["-C"@, binary_name@, "-o"@, "pid="@]);
    r
}

/// Whether `r` holds the process IDs read from `res`, a result of running the
/// command `c`, whose output was `out`.
pub open spec fn pids_answer(
    c: SysCommand,
    res: DeckResult<SysCommandResult>,
    out: DeckResult<ActionSuccess>,
    r: DeckResult<Vec<String>>,
) -> bool {
    &&& ran(c, res)
    &&& spec_output_of(res, out)
    &&& spec_pids_from(out, r)
}

/// Whether `c` is the command `ps -C binary_name -o pid=`, logging on `channel`.
pub open spec fn is_ps_exact(c: SysCommand, channel: LogChannel, binary_name: Seq<char>) -> bool {
    &&& c.spec_cmd() == "ps"@
    &&& c.spec_args() == seq!["-C"@, binary_name, "-o"@, "pid="@]
    &&& c.spec_env().len() == 0
    &&& c.log_channel == channel
}

/// Whether `r` is what some run of `ps -C binary_name -o pid=` gives.
pub open spec fn found_pids_exact(channel: LogChannel, binary_name: Seq<char>, r: DeckResult<Vec<String>>) -> bool {
    exists|c: SysCommand, res: DeckResult<SysCommandResult>, out: DeckResult<ActionSuccess>|
        is_ps_exact(c, channel, binary_name) && #[trigger] pids_answer(c, res, out, r)
}

/// The IDs of processes running exactly the given binary, as `ps` lists them.
/// Which processes run depends on the system, so the contract says what holds of
/// any answer: the IDs are read from the output of some run of the command.
pub fn get_running_pids_exact<R: ActualRunner>(ctx: &GeneralExecutionContext, runner: &R, binary_name: &str) -> (r: DeckResult<Vec<String>>)
    ensures
        found_pids_exact(ctx.log_channel, binary_name@, r),
{
    let cmd = running_pids_exact_command(ctx, binary_name);
    let res = runner.run(&cmd);
    let ghost gres = res;
    let out = output_of(res);
    let ghost gout = out;
    let r = pids_from_output(out);
    assert(is_ps_exact(cmd, ctx.log_channel, binary_name@));
    assert(pids_answer(cmd, gres, gout, r));
    r
}

/// The command that lists the IDs of processes whose command line matches a pattern.
pub fn pgrep_command(ctx: &GeneralExecutionContext, pattern: &str) -> (r: SysCommand)
    ensures
        r.spec_cmd() == "pgrep"@,
        views(r.args@) == seq!["-f"@, pattern@],
        r.spec_env().len() == 0,
        r.log_channel == ctx.log_channel,
{
    let mut args: Vec<String> = Vec::new();
    args.push(owned("-f"));
    args.push(owned(pattern));
    let r = ctx.sys_command("pgrep", args);
    assert(views(r.args@) =~= seq!["-f"@, pattern@]);
    r
}

/// Whether `c` is the command `pgrep -f pattern`, logging on `channel`.
pub open spec fn is_pgrep(c: SysCommand, channel: LogChannel, pattern: Seq<char>) -> bool {
    &&& c.spec_cmd() == "pgrep"@
    &&& c.spec_args() == seq!["-f"@, pattern]
    &&& c.spec_env().len() == 0
    &&& c.log_channel == channel
}

/// Whether `r` is what some run of `pgrep -f pattern` gives.
pub open spec fn found_pgrep(channel: LogChannel, pattern: Seq<char>, r: DeckResult<Vec<String>>) -> bool {
    exists|c: SysCommand, res: DeckResult<SysCommandResult>, out: DeckResult<ActionSuccess>|
        is_pgrep(c, channel, pattern) && #[trigger] pids_answer(c, res, out, r)
}

/// The IDs of processes whose command line matches a pattern, as `pgrep -f` lists them.
/// Which processes match depends on the system, so the contract says what holds
/// of any answer: the IDs are read from the output of some run of the command.
pub fn pgrep<R: ActualRunner>(ctx: &GeneralExecutionContext, runner: &R, pattern: &str) -> (r: DeckResult<Vec<String>>)
    ensures
        found_pgrep(ctx.log_channel, pattern@, r),
{
    let cmd = pgrep_command(ctx, pattern);
    let res = runner.run(&cmd);
    let ghost gres = res;
    let out = output_of(res);
    let ghost gout = out;
    let r = pids_from_output(out);
    assert(is_pgrep(cmd, ctx.log_channel, pattern@));
    assert(pids_answer(cmd, gres, gout, r));
    r
}

/// The line reported for a process that was killed.
pub open spec fn spec_killed_line(pid: Seq<char>) -> Seq<char> {
    "Successfully killed pid '"@ + pid + "'"@
}

/// The lines reported for the processes that were killed, given which kills worked.
pub open spec fn spec_killed_lines(pids: Seq<String>, killed: Seq<bool>) -> Seq<Seq<char>>
    decreases pids.len(),
{
    if pids.len() == 0 || killed.len() == 0 {
        Seq::empty()
    } else {
        let rest = spec_killed_lines(pids.drop_last(), killed.drop_last());
        if killed.last() {
            rest.push(spec_killed_line(pids.last()@))
        } else {
            rest
        }
    }
}

/// The command that kills one process.
pub fn kill_command(log_channel: &LogChannel, log_level: LogType, pid: &str) -> (r: SysCommand)
    ensures
        r.spec_cmd() == "kill"@,
        views(r.args@) == seq![pid@],
        r.spec_env().len() == 0,
        r.log_channel == *log_channel,
        r.log_level == log_level,
{
    let mut args: Vec<String> = Vec::new();
    args.push(owned(pid));
    let r = SysCommand::new(log_channel.duplicate(), log_level, "kill", args);
    assert(views(r.args@) =~= seq![pid@]);
    r
}

/// Whether `c` is the command that kills the process `pid`.
pub open spec fn is_kill_command(c: SysCommand, pid: Seq<char>) -> bool {
    &&& c.spec_cmd() == "kill"@
    &&& c.spec_args() == seq![pid]
    &&& c.spec_env().len() == 0
}

/// Whether each command worked: it ran and ended with exit code 0.
pub open spec fn commands_succeeded(results: Seq<DeckResult<SysCommandResult>>) -> Seq<bool> {
    results.map_values(|x: DeckResult<SysCommandResult>| x matches Ok(res) && res.spec_success())
}

/// The error of the first kill command that could not be run, if any.
pub open spec fn first_error(results: Seq<DeckResult<SysCommandResult>>) -> Option<KnownError>
    decreases results.len(),
{
    if results.len() == 0 {
        None
    } else {
        match first_error(results.drop_last()) {
            Some(e) => Some(e),
            None => match results.last() {
                Err(e) => Some(e),
                Ok(_) => None,
            },
        }
    }
}

/// What killing the first processes of `pids` reports, given the results of their
/// kill commands in order: the error of the first command that could not be run,
/// else the lines for the processes that were killed.
pub open spec fn spec_kill_report(
    pids: Seq<String>,
    results: Seq<DeckResult<SysCommandResult>>,
    r: DeckResult<ActionSuccess>,
) -> bool {
    match first_error(results) {
        Some(e) => r == Err::<ActionSuccess, KnownError>(e),
        None => r matches Ok(s) && s.spec_message() matches Some(m) && m@ == join(
            spec_killed_lines(pids.subrange(0, results.len() as int), commands_succeeded(results)),
            "\n"@,
        ),
    }
}

/// The report of killing the first processes of `pids`, given the results of their
/// kill commands in order (see `spec_kill_report`).
pub fn kill_report(pids: &Vec<String>, results: Vec<DeckResult<SysCommandResult>>) -> (r: DeckResult<ActionSuccess>)
    requires
        results@.len() <= pids@.len(),
    ensures
        spec_kill_report(pids@, results@, r),
{
    let ghost rs = results@;
    let _ = pids.len();
    let mut stack = reversed(results);
    let mut worked: Vec<bool> = Vec::new();
    let mut i: usize = 0;
    while stack.len() > 0
        invariant
            stack@.len() + i == rs.len(),
            rs == results@,
            rs.len() <= pids@.len(),
            pids@.len() <= usize::MAX,
            forall|k: int| 0 <= k < stack@.len() ==> #[trigger] stack@[k] == rs[rs.len() - 1 - k],
            worked@ == commands_succeeded(rs).subrange(0, i as int),
            first_error(rs.subrange(0, i as int)) is None,
        decreases stack@.len(),
    {
        let x = stack.pop().unwrap();
        assert(x == rs[i as int]);
        assert(rs.subrange(0, i + 1).drop_last() =~= rs.subrange(0, i as int));
        match x {
            Err(e) => {
                proof {
                    assert(rs.subrange(0, i + 1).last() == rs[i as int]);
                    assert(first_error(rs.subrange(0, i + 1)) == Some(e));
                    lemma_first_error_prefix(rs, i as int + 1);
                }
                return Err(e);
            },
            Ok(res) => {
                let ok = res.ran_successfully();
                worked.push(ok);
                assert(worked@ =~= commands_succeeded(rs).subrange(0, i + 1));
            },
        }
        i = i + 1;
    }
    assert(rs.subrange(0, i as int) =~= rs);
    assert(worked@ =~= commands_succeeded(rs));
    let mut outputs: Vec<String> = Vec::new();
    let mut j: usize = 0;
    while j < worked.len()
        invariant
            j <= worked@.len(),
            worked@ == commands_succeeded(rs),
            rs.len() <= pids@.len(),
            views(outputs@) == spec_killed_lines(pids@.subrange(0, j as int), worked@.subrange(0, j as int)),
        decreases worked@.len() - j,
    {
        let ok = worked[j];
        proof {
            let sub = pids@.subrange(0, j + 1);
            assert(sub.drop_last() =~= pids@.subrange(0, j as int));
            assert(sub.last() == pids@[j as int]);
            let ks = worked@.subrange(0, j + 1);
            assert(ks.drop_last() =~= worked@.subrange(0, j as int));
        }
        if ok {
            let line = concat3("Successfully killed pid '", pids[j].as_str(), "'");
            let ghost before = outputs@;
            outputs.push(line);
            assert(views(outputs@) =~= views(before).push(line@));
        }
        j = j + 1;
    }
    assert(worked@.subrange(0, j as int) =~= worked@);
    let output = join_strings(&outputs, "\n");
    Ok(ActionSuccess::success(Some(output)))
}

/// The first error of the first `n` results is the first error of all of them,
/// once one is found.
proof fn lemma_first_error_prefix(rs: Seq<DeckResult<SysCommandResult>>, n: int)
    requires
        0 < n <= rs.len(),
        first_error(rs.subrange(0, n)) is Some,
    ensures
        first_error(rs) == first_error(rs.subrange(0, n)),
    decreases rs.len() - n,
{
    if n < rs.len() {
        assert(rs.subrange(0, n + 1).drop_last() =~= rs.subrange(0, n));
        lemma_first_error_prefix(rs, n + 1);
    } else {
        assert(rs.subrange(0, n) =~= rs);
    }
}

/// Whether the kill commands run for `pids` were `cmds` with the results
/// `results`: one command per process in order, each the kill command of its
/// process, each result one of its command, stopping after the first command that
/// could not be run.
pub open spec fn kills_ran(pids: Seq<String>, cmds: Seq<SysCommand>, results: Seq<DeckResult<SysCommandResult>>) -> bool {
    &&& cmds.len() == results.len()
    &&& results.len() <= pids.len()
    &&& forall|j: int| 0 <= j < results.len() ==> is_kill_command(#[trigger] cmds[j], pids[j]@) && ran(cmds[j], results[j])
    &&& forall|j: int| 0 <= j < results.len() - 1 ==> #[trigger] results[j] is Ok
    &&& results.len() < pids.len() ==> results.len() > 0 && results.last() is Err
}

/// What killing `pids` one by one comes to, for some results of the kill commands.
pub open spec fn killed_as(pids: Seq<String>, r: DeckResult<ActionSuccess>) -> bool {
    exists|cmds: Seq<SysCommand>, results: Seq<DeckResult<SysCommandResult>>|
        #[trigger] kills_ran(pids, cmds, results) && spec_kill_report(pids, results, r)
}

/// Kills the processes one by one. When a kill command cannot be run at all, that
/// error ends the work; the message lists the processes that were killed. With no
/// process to kill, nothing is run and the message is empty. What each kill comes
/// to is not known here, so the contract says what holds of any results (see
/// `kill_report`).
pub fn kill_pids<R: ActualRunner>(log_channel: &LogChannel, log_level: LogType, runner: &R, pids: &Vec<String>) -> (r: DeckResult<ActionSuccess>)
    ensures
        killed_as(pids@, r),
        pids@.len() == 0 ==> (r matches Ok(s) && s.spec_message() matches Some(m) && m@.len() == 0),
{
    let mut results: Vec<DeckResult<SysCommandResult>> = Vec::new();
    let ghost mut cmds: Seq<SysCommand> = Seq::empty();
    let mut i: usize = 0;
    let mut stopped = false;
    while i < pids.len() && !stopped
        invariant
            i <= pids@.len(),
            results@.len() == i,
            cmds.len() == i,
            forall|j: int| 0 <= j < i ==> is_kill_command(#[trigger] cmds[j], pids@[j]@) && ran(cmds[j], results@[j]),
            forall|j: int| 0 <= j < i - 1 ==> #[trigger] results@[j] is Ok,
            !stopped ==> (i == 0 || results@[i - 1] is Ok),
            stopped ==> i > 0 && results@[i - 1] is Err,
        decreases pids@.len() - i,
    {
        let cmd = kill_command(log_channel, log_level, pids[i].as_str());
        let res = runner.run(&cmd);
        stopped = res.is_err();
        proof {
            cmds = cmds.push(cmd);
        }
        results.push(res);
        i = i + 1;
    }
    proof {
        assert(kills_ran(pids@, cmds, results@));
    }
    let ghost rs = results@;
    let r = kill_report(pids, results);
    proof {
        if pids@.len() == 0 {
            assert(rs.len() == 0);
            assert(pids@.subrange(0, 0) =~= Seq::<String>::empty());
        }
    }
    r
}

/// The command that runs a freshly downloaded executable: with a pseudo-terminal,
/// and with its output logged while it runs.
pub fn prepped_remote_executable_command(log_channel: &LogChannel, log_level: LogType, local_filename: &str) -> (r: SysCommand)
    ensures
        r.spec_cmd() == local_filename@,
        r.args@.len() == 0,
        r.spec_env().len() == 0,
        r.pty_needed,
        r.live_logging_desired,
        r.log_channel == *log_channel,
{
    let mut c = SysCommand::new(log_channel.duplicate(), log_level, local_filename, Vec::new());
    c.force_pty();
    c.enable_live_logging();
    c
}

} // verus!
