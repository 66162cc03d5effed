//! System commands: what is to be run and with which environment, what came back
//! from running it, and the runner that runs it.
use crate::actions::ActionSuccess;
use crate::command::LogType;
use crate::errors::{DeckResult, KnownError};
use crate::logging::LogChannel;
use crate::text::{clone_strings, owned, str_eq, views};
use vstd::prelude::*;
use vstd::string::StringSliceAdditionalSpecFns;

verus! {

/// The views of environment variable assignments.
pub open spec fn env_views(v: Seq<(String, String)>) -> Seq<(Seq<char>, Seq<char>)> {
    v.map_values(|p: (String, String)| (p.0@, p.1@))
}

/// A command to be run: the program, its arguments and extra environment variables,
/// and how it is to be run. It also carries the log channel and log level of the
/// context that asked for it, so that its output is logged there.
#[derive(Debug)]
pub struct SysCommand {
    pub log_channel: LogChannel,
    pub log_level: LogType,
    pub cmd: String,
    pub args: Vec<String>,
    pub desired_env_vars: Vec<(String, String)>,
    pub live_logging_desired: bool,
    pub pty_needed: bool,
}

impl SysCommand {
    /// The program run.
    pub open spec fn spec_cmd(self) -> Seq<char> {
        self.cmd@
    }

    /// The arguments handed to the program.
    pub open spec fn spec_args(self) -> Seq<Seq<char>> {
        views(self.args@)
    }

    /// The environment variables set for the program, in the order they were added.
    pub open spec fn spec_env(self) -> Seq<(Seq<char>, Seq<char>)> {
        env_views(self.desired_env_vars@)
    }

    /// Two commands are the same when they run the same program with the same
    /// arguments and environment.
    pub open spec fn same_as(self, other: SysCommand) -> bool {
        &&& self.spec_cmd() == other.spec_cmd()
        &&& self.spec_args() == other.spec_args()
        &&& self.spec_env() == other.spec_env()
    }

    /// A command that runs `cmd` with `args`, with no extra environment variables,
    /// without live logging and without a pseudo-terminal.
    pub fn new(log_channel: LogChannel, log_level: LogType, cmd: &str, args: Vec<String>) -> (r:
        SysCommand)
        ensures
            r.log_channel == log_channel,
            r.log_level == log_level,
            r.spec_cmd() == cmd@,
            r.args@ == args@,
            r.spec_env().len() == 0,
            !r.live_logging_desired,
            !r.pty_needed,
    {
        let r = SysCommand {
            log_channel,
            log_level,
            cmd: owned(cmd),
            args,
            desired_env_vars: Vec::new(),
            live_logging_desired: false,
            pty_needed: false,
        };
        assert(r.spec_env() =~= Seq::<(Seq<char>, Seq<char>)>::empty());
        r
    }

    /// Sets an environment variable for the command.
    pub fn env(&mut self, varname: &str, value: &str)
        ensures
            final(self).spec_env() == old(self).spec_env().push((varname@, value@)),
            final(self).cmd == old(self).cmd,
            final(self).args@ == old(self).args@,
            final(self).log_channel == old(self).log_channel,
            final(self).log_level == old(self).log_level,
            final(self).live_logging_desired == old(self).live_logging_desired,
            final(self).pty_needed == old(self).pty_needed,
    {
        self.desired_env_vars.push((owned(varname), owned(value)));
        assert(self.spec_env() =~= old(self).spec_env().push((varname@, value@)));
    }

    /// Asks for the command to be run in a pseudo-terminal.
    pub fn force_pty(&mut self)
        ensures
            final(self).pty_needed,
            final(self).cmd == old(self).cmd,
            final(self).args@ == old(self).args@,
            final(self).desired_env_vars@ == old(self).desired_env_vars@,
            final(self).log_channel == old(self).log_channel,
            final(self).log_level == old(self).log_level,
            final(self).live_logging_desired == old(self).live_logging_desired,
    {
        self.pty_needed = true;
    }

    /// Asks for the command's output to be logged while it runs.
    pub fn enable_live_logging(&mut self)
        ensures
            final(self).live_logging_desired,
            final(self).cmd == old(self).cmd,
            final(self).args@ == old(self).args@,
            final(self).desired_env_vars@ == old(self).desired_env_vars@,
            final(self).log_channel == old(self).log_channel,
            final(self).log_level == old(self).log_level,
            final(self).pty_needed == old(self).pty_needed,
    {
        self.live_logging_desired = true;
    }

    /// A copy of the command.
    pub fn duplicate(&self) -> (r: SysCommand)
        ensures
            r.log_channel == self.log_channel,
            r.log_level == self.log_level,
            r.cmd == self.cmd,
            r.args@ == self.args@,
            r.desired_env_vars@ == self.desired_env_vars@,
            r.live_logging_desired == self.live_logging_desired,
            r.pty_needed == self.pty_needed,
    {
        let mut env: Vec<(String, String)> = Vec::new();
        let mut i: usize = 0;
        while i < self.desired_env_vars.len()
            invariant
                i <= self.desired_env_vars@.len(),
                env@ == self.desired_env_vars@.subrange(0, i as int),
            decreases self.desired_env_vars@.len() - i,
        {
            let pair = &self.desired_env_vars[i];
            env.push((pair.0.clone(), pair.1.clone()));
            assert(self.desired_env_vars@.subrange(0, i + 1) =~= self.desired_env_vars@.subrange(
                0,
                i as int,
            ).push(self.desired_env_vars@[i as int]));
            i = i + 1;
        }
        assert(self.desired_env_vars@.subrange(0, self.desired_env_vars@.len() as int)
            =~= self.desired_env_vars@);
        SysCommand {
            log_channel: self.log_channel.duplicate(),
            log_level: self.log_level,
            cmd: self.cmd.clone(),
            args: clone_strings(&self.args),
            desired_env_vars: env,
            live_logging_desired: self.live_logging_desired,
            pty_needed: self.pty_needed,
        }
    }

    /// Whether two commands run the same program with the same arguments and environment.
    pub fn same_command(&self, other: &SysCommand) -> (r: bool)
        ensures
            r == self.same_as(*other),
    {
        if !str_eq(self.cmd.as_str(), other.cmd.as_str()) {
            return false;
        }
        if self.args.len() != other.args.len() || self.desired_env_vars.len()
            != other.desired_env_vars.len() {
            proof {
                if self.spec_args() == other.spec_args() {
                    assert(self.spec_args().len() == other.spec_args().len());
                }
                if self.spec_env() == other.spec_env() {
                    assert(self.spec_env().len() == other.spec_env().len());
                }
            }
            return false;
        }
        let mut i: usize = 0;
        while i < self.args.len()
            invariant
                i <= self.args@.len(),
                self.args@.len() == other.args@.len(),
                forall|j: int| 0 <= j < i ==> self.args@[j]@ == other.args@[j]@,
            decreases self.args@.len() - i,
        {
            if !str_eq(self.args[i].as_str(), other.args[i].as_str()) {
                assert(self.spec_args()[i as int] != other.spec_args()[i as int]);
                return false;
            }
            i = i + 1;
        }
        assert(self.spec_args() =~= other.spec_args());
        let mut k: usize = 0;
        while k < self.desired_env_vars.len()
            invariant
                k <= self.desired_env_vars@.len(),
                self.desired_env_vars@.len() == other.desired_env_vars@.len(),
                forall|j: int|
                    0 <= j < k ==> self.desired_env_vars@[j].0@ == other.desired_env_vars@[j].0@
                        && self.desired_env_vars@[j].1@ == other.desired_env_vars@[j].1@,
            decreases self.desired_env_vars@.len() - k,
        {
            let a = &self.desired_env_vars[k];
            let b = &other.desired_env_vars[k];
            if !str_eq(a.0.as_str(), b.0.as_str()) || !str_eq(a.1.as_str(), b.1.as_str()) {
                assert(self.spec_env()[k as int] != other.spec_env()[k as int]);
                return false;
            }
            k = k + 1;
        }
        assert(self.spec_env() =~= other.spec_env());
        true
    }
}

impl PartialEq for SysCommand {
    fn eq(&self, other: &Self) -> (r: bool) {
        self.same_command(other)
    }
}

impl vstd::std_specs::cmp::PartialEqSpecImpl for SysCommand {
    open spec fn obeys_eq_spec() -> bool {
        true
    }

    open spec fn eq_spec(&self, other: &SysCommand) -> bool {
        self.same_as(*other)
    }
}

/// What a finished process left: its exit code (none when a signal ended it) and
/// its output.
#[derive(Debug)]
pub struct ProcessOutput {
    pub exit_code: Option<i32>,
    pub stdout: Vec<u8>,
    pub stderr: Vec<u8>,
}

/// What decoding bytes as UTF-8 gives, with each invalid sequence replaced by U+FFFD.
pub uninterp spec fn spec_utf8_lossy(bytes: Seq<u8>) -> Seq<char>;

/// Calls `String::from_utf8_lossy`: decodes bytes as UTF-8, replacing each invalid
/// sequence by U+FFFD. Claimed: the result is the name applied to the bytes, and for
/// valid UTF-8 it is the plain decoding.
#[verifier::external_body]
pub(crate) fn utf8_lossy(bytes: &[u8]) -> (r: String)
    ensures
        r@ == spec_utf8_lossy(bytes@),
        vstd::utf8::valid_utf8(bytes@) ==> r@ == vstd::utf8::decode_utf8(bytes@),
{
    String::from_utf8_lossy(bytes).into_owned()
}

/// A command together with what running it left.
#[derive(Debug)]
pub struct SysCommandResult {
    sys_command: SysCommand,
    raw_output: ProcessOutput,
}

impl SysCommandResult {
    pub closed spec fn spec_command(self) -> SysCommand {
        self.sys_command
    }

    pub closed spec fn spec_output(self) -> ProcessOutput {
        self.raw_output
    }

    /// The command ended with exit code 0.
    pub open spec fn spec_success(self) -> bool {
        self.spec_output().exit_code == Some(0i32)
    }

    pub fn new(sys_command: SysCommand, output: ProcessOutput) -> (r: Self)
        ensures
            r.spec_command() == sys_command,
            r.spec_output() == output,
    {
        SysCommandResult { sys_command, raw_output: output }
    }

    /// The command that was run.
    pub fn sys_command(&self) -> (r: &SysCommand)
        ensures
            *r == self.spec_command(),
    {
        &self.sys_command
    }

    /// What the command left.
    pub fn raw_output(&self) -> (r: &ProcessOutput)
        ensures
            *r == self.spec_output(),
    {
        &self.raw_output
    }

    /// A result that a test hands back for a command that ran with the given exit code
    /// and output.
    pub fn fake_for_test(cmd: &str, args: Vec<String>, code: i32, stdout: &str, stderr: &str) -> (r:
        Self)
        ensures
            r.spec_command().spec_cmd() == cmd@,
            r.spec_command().args@ == args@,
            r.spec_output().exit_code == Some(code),
            r.spec_output().stdout@ == stdout.spec_bytes(),
            r.spec_output().stderr@ == stderr.spec_bytes(),
    {
        let sys_command = SysCommand::new(LogChannel::General, LogType::Warn, cmd, args);
        SysCommandResult {
            sys_command,
            raw_output: ProcessOutput {
                exit_code: Some(code),
                stdout: bytes_of(stdout),
                stderr: bytes_of(stderr),
            },
        }
    }

    /// A result for a command that succeeded with the given output.
    pub fn success_output(stdout: &str) -> (r: Self)
        ensures
            r.spec_success(),
            r.spec_output().stdout@ == stdout.spec_bytes(),
            r.spec_output().stderr@.len() == 0,
    {
        let mut args: Vec<String> = Vec::new();
        args.push(owned("you should not care about this"));
        let r = SysCommandResult::fake_for_test("nothingburger", args, 0, stdout, "");
        proof {
            reveal_strlit("");
            assert(""@.len() == 0);
            assert("".spec_bytes() =~= Seq::<u8>::empty());
        }
        r
    }

    /// A result for a command that succeeded without output.
    pub fn fake_success() -> (r: Self)
        ensures
            r.spec_success(),
            r.spec_output().stdout@.len() == 0,
    {
        let r = SysCommandResult::success_output("");
        proof {
            reveal_strlit("");
            assert(""@.len() == 0);
            assert("".spec_bytes() =~= Seq::<u8>::empty());
        }
        r
    }

    /// Whether the command ended with exit code 0.
    pub fn ran_successfully(&self) -> (r: bool)
        ensures
            r == self.spec_success(),
    {
        match self.raw_output.exit_code {
            Some(c) => c == 0,
            None => false,
        }
    }

    /// A copy of the result.
    pub fn duplicate(&self) -> (r: SysCommandResult)
        ensures
            r.spec_command().same_as(self.spec_command()),
            r.spec_output().exit_code == self.spec_output().exit_code,
            r.spec_output().stdout@ == self.spec_output().stdout@,
            r.spec_output().stderr@ == self.spec_output().stderr@,
    {
        let c = self.sys_command.duplicate();
        proof {
            assert(c.spec_args() == self.sys_command.spec_args());
            assert(c.spec_env() == self.sys_command.spec_env());
        }
        SysCommandResult {
            sys_command: c,
            raw_output: ProcessOutput {
                exit_code: self.raw_output.exit_code,
                stdout: clone_bytes(&self.raw_output.stdout),
                stderr: clone_bytes(&self.raw_output.stderr),
            },
        }
    }

    /// The success with the command's output as message when the command ended with
    /// exit code 0, and the failure holding the whole result otherwise.
    pub fn as_success(&self) -> (r: DeckResult<ActionSuccess>)
        ensures
            self.spec_success() ==> (r matches Ok(s) && s.spec_message() matches Some(m) && m@
                == spec_utf8_lossy(self.spec_output().stdout@)),
            !self.spec_success() ==> (r matches Err(KnownError::SystemCommandFailed(f))
                && f.spec_command().same_as(self.spec_command()) && f.spec_output().exit_code
                == self.spec_output().exit_code && f.spec_output().stdout@
                == self.spec_output().stdout@ && f.spec_output().stderr@
                == self.spec_output().stderr@),
    {
        if self.ran_successfully() {
            Ok(ActionSuccess::success(Some(utf8_lossy(self.raw_output.stdout.as_slice()))))
        } else {
            Err(KnownError::SystemCommandFailed(Box::new(self.duplicate())))
        }
    }
}

/// The bytes of a string slice (`str::as_bytes`).
pub fn bytes_of(s: &str) -> (r: Vec<u8>)
    ensures
        r@ == s.spec_bytes(),
{
    let b = s.as_bytes();
    let mut r: Vec<u8> = Vec::new();
    let mut i: usize = 0;
    while i < b.len()
        invariant
            i <= b@.len(),
            r@ == b@.subrange(0, i as int),
        decreases b@.len() - i,
    {
        r.push(b[i]);
        assert(b@.subrange(0, i + 1) =~= b@.subrange(0, i as int).push(b@[i as int]));
        i = i + 1;
    }
    assert(b@.subrange(0, b@.len() as int) =~= b@);
    r
}

pub fn clone_bytes(v: &Vec<u8>) -> (r: Vec<u8>)
    ensures
        r@ == v@,
{
    let mut r: Vec<u8> = Vec::new();
    let mut i: usize = 0;
    while i < v.len()
        invariant
            i <= v@.len(),
            r@ == v@.subrange(0, i as int),
        decreases v@.len() - i,
    {
        r.push(v[i]);
        assert(v@.subrange(0, i + 1) =~= v@.subrange(0, i as int).push(v@[i as int]));
        i = i + 1;
    }
    assert(v@.subrange(0, v@.len() as int) =~= v@);
    r
}

/// A line that a running command printed, on its standard output or its standard
/// error.
#[derive(Debug)]
pub enum LiveOutputLine {
    Stdout(String),
    Stderr(String),
}

/// What can be asked of a command that runs.
#[derive(Debug, Clone, Copy, PartialEq, Eq, Structural)]
pub enum LiveProcHandlingCommand {
    Kill,
}

/// A command that could not be started, with the reason.
#[derive(Debug)]
pub struct SysCommandRunError {
    pub cmd: SysCommand,
    pub error: String,
}

/// What runs system commands. The program implements it for the real system, and
/// tests implement it with fakes. What a command leaves depends on the system; the
/// one thing asked of an implementation is that a result it hands back is the
/// result of the command it was given.
pub trait ActualRunner {
    fn run(&self, sys_command: &SysCommand) -> (r: DeckResult<SysCommandResult>)
        ensures
            ran(*sys_command, r),
    ;
}

/// A result of running is that of the command: the same program, arguments and
/// environment.
pub open spec fn ran(cmd: SysCommand, result: DeckResult<SysCommandResult>) -> bool {
    result matches Ok(res) ==> res.spec_command().same_as(cmd)
}

/// What a command line is turned into before it is started: the program and its
/// arguments. A command that needs a pseudo-terminal is run through `script`.
pub open spec fn spec_launch_line(cmd: Seq<char>, args: Seq<Seq<char>>, pty: bool) -> (Seq<char>, Seq<Seq<char>>) {
    if pty {
        (
            "/usr/bin/script"@,
            seq![
                "-q"@,
                "-e"@,
                "--command"@,
                cmd + " "@ + crate::text::join(args, " "@),
                "/dev/null"@,
            ],
        )
    } else {
        (cmd, args)
    }
}

impl SysCommand {
    /// The program to start and the arguments to hand it.
    pub fn launch_line(&self) -> (r: (String, Vec<String>))
        ensures
            (r.0@, views(r.1@)) == spec_launch_line(self.spec_cmd(), self.spec_args(), self.pty_needed),
    {
        if self.pty_needed {
            let joined = crate::text::join_strings(&self.args, " ");
            let mut line = self.cmd.clone();
            crate::text::push_str(&mut line, " ");
            crate::text::push_str(&mut line, joined.as_str());
            let mut args: Vec<String> = Vec::new();
            args.push(owned("-q"));
            args.push(owned("-e"));
            args.push(owned("--command"));
            args.push(line);
            args.push(owned("/dev/null"));
            let r = (owned("/usr/bin/script"), args);
            assert(views(r.1@) =~= spec_launch_line(self.spec_cmd(), self.spec_args(), true).1);
            r
        } else {
            (self.cmd.clone(), clone_strings(&self.args))
        }
    }
}

/// A string quoted the way `Debug` quotes it.
pub open spec fn spec_quoted(s: Seq<char>) -> Seq<char> {
    seq!['"'] + crate::text::spec_escape(s) + seq!['"']
}

/// A list of strings written the way `Debug` writes it.
pub open spec fn spec_debug_list(v: Seq<Seq<char>>) -> Seq<char> {
    "["@ + crate::text::join(v.map_values(|s: Seq<char>| spec_quoted(s)), ", "@) + "]"@
}

/// Writes a list of strings the way `Debug` writes it.
pub fn debug_list(v: &Vec<String>) -> (r: String)
    ensures
        r@ == spec_debug_list(views(v@)),
{
    let mut quoted_items: Vec<String> = Vec::new();
    let mut i: usize = 0;
    while i < v.len()
        invariant
            i <= v@.len(),
            views(quoted_items@) == views(v@).subrange(0, i as int).map_values(
                |s: Seq<char>| spec_quoted(s),
            ),
        decreases v@.len() - i,
    {
        let q = crate::text::quoted(v[i].as_str());
        let ghost before = quoted_items@;
        quoted_items.push(q);
        assert(views(quoted_items@) =~= views(before).push(q@));
        assert(views(v@).subrange(0, i + 1) =~= views(v@).subrange(0, i as int).push(v@[i as int]@));
        assert(views(quoted_items@) =~= views(v@).subrange(0, i + 1).map_values(
            |s: Seq<char>| spec_quoted(s),
        ));
        i = i + 1;
    }
    assert(views(v@).subrange(0, v@.len() as int) =~= views(v@));
    let joined = crate::text::join_strings(&quoted_items, ", ");
    crate::text::concat3("[", joined.as_str(), "]")
}

/// How an exit is described: its code, or that a signal ended the process.
pub open spec fn spec_status_text(exit_code: Option<i32>) -> Seq<char> {
    match exit_code {
        Some(c) => "exit status: "@ + crate::text::spec_signed_decimal(c as int),
        None => "terminated by a signal"@,
    }
}

pub fn status_text(exit_code: Option<i32>) -> (r: String)
    ensures
        r@ == spec_status_text(exit_code),
{
    match exit_code {
        Some(c) => {
            let d = crate::text::i64_to_decimal(c as i64);
            crate::text::concat2("exit status: ", d.as_str())
        },
        None => owned("terminated by a signal"),
    }
}

impl SysCommandResult {
    pub open spec fn spec_as_string(self) -> Seq<char> {
        self.spec_command().spec_cmd() + " "@ + spec_debug_list(self.spec_command().spec_args())
            + "\nSTATUS: "@ + spec_status_text(self.spec_output().exit_code) + "\nSTDOUT:\""@
            + spec_utf8_lossy(self.spec_output().stdout@) + "\"\nSTDERR:\""@ + spec_utf8_lossy(
            self.spec_output().stderr@,
        ) + "\""@
    }

    /// A description of the command and of what it left, for error messages.
    pub fn as_string(&self) -> (r: String)
        ensures
            r@ == self.spec_as_string(),
    {
        let mut r = self.sys_command.cmd.clone();
        crate::text::push_str(&mut r, " ");
        let args = debug_list(&self.sys_command.args);
        crate::text::push_str(&mut r, args.as_str());
        crate::text::push_str(&mut r, "\nSTATUS: ");
        let status = status_text(self.raw_output.exit_code);
        crate::text::push_str(&mut r, status.as_str());
        crate::text::push_str(&mut r, "\nSTDOUT:\"");
        let out = utf8_lossy(self.raw_output.stdout.as_slice());
        crate::text::push_str(&mut r, out.as_str());
        crate::text::push_str(&mut r, "\"\nSTDERR:\"");
        let err = utf8_lossy(self.raw_output.stderr.as_slice());
        crate::text::push_str(&mut r, err.as_str());
        crate::text::push_str(&mut r, "\"");
        r
    }
}

} // verus!
