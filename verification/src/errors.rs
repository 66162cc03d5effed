//! The errors that decktricks knows about.
use crate::system_command::{SysCommandResult, SysCommandRunError};
use crate::text::{concat2, concat3, owned, push_str};
use vstd::prelude::*;
use vstd::string::StringSliceAdditionalSpecFns;

verus! {

pub type DeckResult<T> = Result<T, KnownError>;

/// Every error that an action can end with. Errors that come from elsewhere
/// (reading files, parsing, running commands) carry the text they were reported with.
#[derive(Debug)]
pub enum KnownError {
    ActionGated(String),
    ActionNotImplementedYet(&'static str),
    ActionNotPossible(&'static str),
    AddToSteamError(String),
    CommandLineParseError(String),
    ConfigParsing(String),
    ConfigRead(String),
    DeckyInstall(String),
    EmuDeckInstall(String),
    ErrorDuringRun(&'static str),
    NoAvailableActions(String),
    ProviderNotImplemented(String),
    RemoteScriptError(String),
    SeriousError(SeriousError),
    RawSystemFailureDONOTUSE(String),
    SystemCommandFailed(Box<SysCommandResult>),
    SystemCommandParse(String),
    SystemCommandRunFailure(Box<SysCommandRunError>),
    TestError(String),
    UnknownTrickID(String),
}

/// A plain error with a message.
#[derive(Debug)]
pub struct DecktricksError {
    pub message: String,
}

impl DecktricksError {
    pub fn new(message: String) -> (r: Self)
        ensures
            r.message == message,
    {
        DecktricksError { message }
    }
}

/// An error that should never happen, reported with a link to file an issue.
#[derive(Debug)]
pub struct SeriousError {
    pub error_type: String,
    pub location: String,
    pub message: String,
}

impl SeriousError {
    pub fn new(error_type: &str, location: &str, message: &str) -> (r: Self)
        ensures
            r.error_type@ == error_type@,
            r.location@ == location@,
            r.message@ == message@,
    {
        SeriousError {
            error_type: crate::text::owned(error_type),
            location: crate::text::owned(location),
            message: crate::text::owned(message),
        }
    }
}

/// Where the project lives.
pub const GITHUB_LINK: &'static str = "https://github.com/MrAwesome/decktricks";

/// Where issues are reported.
pub const GITHUB_ISSUES_LINK: &'static str = "https://github.com/MrAwesome/decktricks";

/// Bytes left as they are by percent-encoding: ASCII letters and digits, `-`, `.`, `_`, `~`.
pub open spec fn is_unreserved(b: u8) -> bool {
    (48 <= b <= 57) || (65 <= b <= 90) || (97 <= b <= 122) || b == 45 || b == 46 || b == 95
        || b == 126
}

/// An upper-case hexadecimal digit.
pub open spec fn hex_digit_upper(d: u8) -> char {
    if d < 10 {
        (48 + d) as char
    } else {
        (55 + d) as char
    }
}

/// Percent-encoding of bytes: unreserved bytes stay, every other byte becomes `%`
/// and two upper-case hexadecimal digits.
pub open spec fn spec_url_encode(b: Seq<u8>) -> Seq<char>
    decreases b.len(),
{
    if b.len() == 0 {
        Seq::empty()
    } else {
        let last = b.last();
        spec_url_encode(b.drop_last()) + if is_unreserved(last) {
            seq![last as char]
        } else {
            seq!['%', hex_digit_upper(last / 16), hex_digit_upper(last % 16)]
        }
    }
}

/// Calls `urlencoding::encode`, which percent-encodes every byte of the string's
/// UTF-8 encoding except ASCII letters, digits, `-`, `.`, `_` and `~`, with
/// upper-case hexadecimal digits. Claimed: the result is exactly that encoding.
#[verifier::external_body]
fn url_encode(s: &str) -> (r: String)
    ensures
        r@ == spec_url_encode(s.spec_bytes()),
{
    urlencoding::encode(s).into_owned()
}

/// Calls `std::backtrace::Backtrace::capture` and writes the backtrace out. Nothing
/// is claimed of the text: it depends on the program's state and environment.
#[verifier::external_body]
fn capture_backtrace() -> String {
    format!("{}", std::backtrace::Backtrace::capture())
}

impl SeriousError {
    pub open spec fn spec_issue_title(self) -> Seq<char> {
        "[USER] Error report: "@ + self.error_type@
    }

    pub open spec fn spec_issue_body(self, backtrace: Seq<char>) -> Seq<char> {
        "Error type: "@ + self.error_type@ + "\nError location: "@ + self.location@
            + "\nError message: "@ + self.message@ + "\nBacktrace: "@ + backtrace
            + "\n\n--------------------------------------------\nPlease give any additional information under this line:\n--------------------------------------------\n\n"@
    }

    /// The link that opens a new issue about this error, given a backtrace.
    pub open spec fn spec_link(self, backtrace: Seq<char>) -> Seq<char> {
        "https://github.com/MrAwesome/decktricks"@ + "/issues/new?title="@ + spec_url_encode(
            vstd::utf8::encode_utf8(self.spec_issue_title()),
        ) + "&body="@ + spec_url_encode(vstd::utf8::encode_utf8(self.spec_issue_body(backtrace)))
    }

    /// The link that opens a new issue about this error, with the given backtrace.
    pub fn link_with_backtrace(&self, backtrace: &str) -> (r: String)
        ensures
            r@ == self.spec_link(backtrace@),
    {
        let title = concat2("[USER] Error report: ", self.error_type.as_str());
        let mut body = concat2("Error type: ", self.error_type.as_str());
        push_str(&mut body, "\nError location: ");
        push_str(&mut body, self.location.as_str());
        push_str(&mut body, "\nError message: ");
        push_str(&mut body, self.message.as_str());
        push_str(&mut body, "\nBacktrace: ");
        push_str(&mut body, backtrace);
        push_str(&mut body, "\n\n--------------------------------------------\nPlease give any additional information under this line:\n--------------------------------------------\n\n");
        let mut r = concat2(GITHUB_LINK, "/issues/new?title=");
        let t = url_encode(title.as_str());
        push_str(&mut r, t.as_str());
        push_str(&mut r, "&body=");
        let b = url_encode(body.as_str());
        push_str(&mut r, b.as_str());
        proof {
            assert(title@ == self.spec_issue_title());
            assert(body@ =~= self.spec_issue_body(backtrace@));
        }
        r
    }

    /// The link that opens a new issue about this error, with the current backtrace.
    pub fn link(&self) -> (r: String)
        ensures
            exists|backtrace: Seq<char>| r@ == #[trigger] self.spec_link(backtrace),
    {
        let backtrace = capture_backtrace();
        self.link_with_backtrace(backtrace.as_str())
    }

    pub open spec fn spec_describe(self, backtrace: Seq<char>) -> Seq<char> {
        "!!! A very serious error has occurred. Please report this by clicking the following link: "@
            + self.spec_link(backtrace)
    }

    /// The message shown for this error.
    pub fn describe(&self) -> (r: String)
        ensures
            exists|backtrace: Seq<char>| r@ == #[trigger] self.spec_describe(backtrace),
    {
        let backtrace = capture_backtrace();
        let link = self.link_with_backtrace(backtrace.as_str());
        let r = concat2(
            "!!! A very serious error has occurred. Please report this by clicking the following link: ",
            link.as_str(),
        );
        assert(r@ == self.spec_describe(backtrace@));
        r
    }
}

impl KnownError {
    /// The message shown for an error that is not a serious error.
    pub open spec fn spec_describe(self) -> Seq<char> {
        match self {
            KnownError::ConfigParsing(m) => "Error parsing config: "@ + m@,
            KnownError::ConfigRead(m) => "Error reading config: "@ + m@,
            KnownError::CommandLineParseError(m) => "Error parsing command line: "@ + m@,
            KnownError::DeckyInstall(m) => "Error installing Decky: "@ + m@,
            KnownError::EmuDeckInstall(m) => "Error installing EmuDeck: "@ + m@,
            KnownError::SystemCommandParse(m) => "Error parsing system command: "@ + m@,
            KnownError::SystemCommandRunFailure(f) => "Error running system command: "@ + f.cmd.cmd@
                + ": "@ + f.error@,
            KnownError::SystemCommandFailed(res) => "System command failed: "@ + res.spec_as_string(),
            KnownError::RawSystemFailureDONOTUSE(m) => "System command error: "@ + m@,
            KnownError::UnknownTrickID(id) => "Unknown trick ID: "@ + id@,
            KnownError::NoAvailableActions(id) => "No actions available for \""@ + id@
                + "\". This is almost certainly a bug."@,
            KnownError::ActionGated(m) => m@,
            KnownError::ProviderNotImplemented(m) => m@,
            KnownError::TestError(m) => m@,
            KnownError::AddToSteamError(m) => m@,
            KnownError::RemoteScriptError(m) => m@,
            KnownError::ActionNotImplementedYet(m) => m@,
            KnownError::ActionNotPossible(m) => m@,
            KnownError::ErrorDuringRun(m) => m@,
            KnownError::SeriousError(_) => Seq::empty(),
        }
    }

    /// The message shown for this error.
    pub fn describe(&self) -> (r: String)
        ensures
            !(self is SeriousError) ==> r@ == self.spec_describe(),
            self matches KnownError::SeriousError(se) ==> exists|backtrace: Seq<char>|
                r@ == #[trigger] se.spec_describe(backtrace),
    {
        match self {
            KnownError::ConfigParsing(m) => concat2("Error parsing config: ", m.as_str()),
            KnownError::ConfigRead(m) => concat2("Error reading config: ", m.as_str()),
            KnownError::CommandLineParseError(m) => concat2("Error parsing command line: ", m.as_str()),
            KnownError::DeckyInstall(m) => concat2("Error installing Decky: ", m.as_str()),
            KnownError::EmuDeckInstall(m) => concat2("Error installing EmuDeck: ", m.as_str()),
            KnownError::SystemCommandParse(m) => concat2("Error parsing system command: ", m.as_str()),
            KnownError::SystemCommandRunFailure(f) => {
                let mut r = concat2("Error running system command: ", f.cmd.cmd.as_str());
                push_str(&mut r, ": ");
                push_str(&mut r, f.error.as_str());
                r
            },
            KnownError::SystemCommandFailed(res) => {
                let s = res.as_string();
                concat2("System command failed: ", s.as_str())
            },
            KnownError::RawSystemFailureDONOTUSE(m) => concat2("System command error: ", m.as_str()),
            KnownError::UnknownTrickID(id) => concat2("Unknown trick ID: ", id.as_str()),
            KnownError::NoAvailableActions(id) => concat3(
                "No actions available for \"",
                id.as_str(),
                "\". This is almost certainly a bug.",
            ),
            KnownError::ActionGated(m) | KnownError::ProviderNotImplemented(m)
            | KnownError::TestError(m) | KnownError::AddToSteamError(m)
            | KnownError::RemoteScriptError(m) => m.clone(),
            KnownError::ActionNotImplementedYet(m) | KnownError::ActionNotPossible(m)
            | KnownError::ErrorDuringRun(m) => owned(m),
            KnownError::SeriousError(se) => se.describe(),
        }
    }
}

} // verus!
