//! Log channels, log levels taken from the environment, and the console logger's state.
use crate::command::LogType;
use crate::text::{chars_of, find_str, first_occurrence, has_substring, occurs_at, owned, push_str, spec_decimal, str_eq,
    string_from_chars, u64_to_decimal};
use vstd::prelude::*;

verus! {

/// The log level used when none is asked for.
pub open spec fn spec_default_log_level() -> LogType {
    LogType::Warn
}

/// Where a message is logged: in general, for a trick, or nowhere.
#[derive(Debug, PartialEq, Eq, Hash)]
pub enum LogChannel {
    General,
    TrickID(String),
    IgnoreCompletelyAlways,
}

impl LogChannel {
    pub open spec fn spec_key(self) -> Seq<char> {
        match self {
            LogChannel::General => "general"@,
            LogChannel::TrickID(id) => if id@ == "general"@ {
                "trick-general"@
            } else if id@ == "ignore"@ {
                "trick-ignore"@
            } else if id@ == "all"@ {
                "trick-all"@
            } else {
                id@
            },
            LogChannel::IgnoreCompletelyAlways => "ignore"@,
        }
    }

    /// The key under which the channel's logs are kept. Tricks whose IDs are the names
    /// of special channels get a key of their own.
    pub fn to_key(&self) -> (r: String)
        ensures
            r@ == self.spec_key(),
    {
        match self {
            LogChannel::General => owned("general"),
            LogChannel::TrickID(trick_id) => {
                if str_eq(trick_id.as_str(), "general") {
                    owned("trick-general")
                } else if str_eq(trick_id.as_str(), "ignore") {
                    owned("trick-ignore")
                } else if str_eq(trick_id.as_str(), "all") {
                    owned("trick-all")
                } else {
                    trick_id.clone()
                }
            },
            LogChannel::IgnoreCompletelyAlways => owned("ignore"),
        }
    }

    pub fn duplicate(&self) -> (r: LogChannel)
        ensures
            r == *self,
    {
        match self {
            LogChannel::General => LogChannel::General,
            LogChannel::TrickID(id) => LogChannel::TrickID(id.clone()),
            LogChannel::IgnoreCompletelyAlways => LogChannel::IgnoreCompletelyAlways,
        }
    }
}

/// No trick's channel has the key of the general channel or of the ignored channel,
/// and the special channels keep their own keys.
pub proof fn law_trick_channels_never_shadow_special_channels(id: String)
    ensures
        LogChannel::TrickID(id).spec_key() != LogChannel::General.spec_key(),
        LogChannel::TrickID(id).spec_key() != LogChannel::IgnoreCompletelyAlways.spec_key(),
        LogChannel::TrickID(id).spec_key() != "all"@,
{
    reveal_strlit("general");
    reveal_strlit("ignore");
    reveal_strlit("all");
    reveal_strlit("trick-general");
    reveal_strlit("trick-ignore");
    reveal_strlit("trick-all");
    let k = LogChannel::TrickID(id).spec_key();
    if k == "general"@ {
        if id@ == "general"@ || id@ == "ignore"@ || id@ == "all"@ {
            assert(k.len() != "general"@.len() || k[0] != "general"@[0]);
        }
    }
    if k == "ignore"@ {
        if id@ == "general"@ || id@ == "ignore"@ || id@ == "all"@ {
            assert(k.len() != "ignore"@.len() || k[0] != "ignore"@[0]);
        }
    }
    if k == "all"@ {
        if id@ == "general"@ || id@ == "ignore"@ || id@ == "all"@ {
            assert(k.len() != "all"@.len());
        }
    }
}

/// The value of a decimal digit.
pub open spec fn digit_value(c: char) -> int {
    (c as int) - ('0' as int)
}

pub open spec fn is_digit(c: char) -> bool {
    '0' <= c && c <= '9'
}

/// The number that a string of decimal digits stands for.
pub open spec fn digits_value(s: Seq<char>) -> int
    decreases s.len(),
{
    if s.len() == 0 {
        0
    } else {
        digits_value(s.drop_last()) * 10 + digit_value(s.last())
    }
}

/// The string without a leading `+`.
pub open spec fn unsigned_part(s: Seq<char>) -> Seq<char> {
    if s.len() > 0 && s[0] == '+' {
        s.drop_first()
    } else {
        s
    }
}

pub open spec fn all_digits(d: Seq<char>) -> bool {
    forall|i: int| 0 <= i < d.len() ==> is_digit(#[trigger] d[i])
}

/// How `str::parse::<u8>` reads a string: an optional `+`, then one or more decimal
/// digits, standing for a number no greater than 255.
pub open spec fn spec_parse_u8(s: Seq<char>) -> Option<u8> {
    let d = unsigned_part(s);
    if d.len() == 0 || !all_digits(d) {
        None
    } else if digits_value(d) <= 255 {
        Some(digits_value(d) as u8)
    } else {
        None
    }
}

proof fn lemma_digits_value_nonneg(s: Seq<char>)
    requires
        forall|i: int| 0 <= i < s.len() ==> is_digit(s[i]),
    ensures
        digits_value(s) >= 0,
    decreases s.len(),
{
    if s.len() > 0 {
        lemma_digits_value_nonneg(s.drop_last());
    }
}

/// Reads a number from 0 to 255 the way `str::parse::<u8>` does.
pub fn parse_u8(s: &str) -> (r: Option<u8>)
    ensures
        r == spec_parse_u8(s@),
{
    let n = s.unicode_len();
    let mut i: usize = 0;
    if n > 0 && s.get_char(0) == '+' {
        i = 1;
    }
    let ghost d = unsigned_part(s@);
    assert(d =~= s@.subrange(i as int, n as int));
    if i == n {
        return None;
    }
    let start = i;
    let mut value: u32 = 0;
    let mut too_big = false;
    while i < n
        invariant
            start <= i <= n,
            n == s@.len(),
            d == s@.subrange(start as int, n as int),
            d == unsigned_part(s@),
            forall|j: int| start <= j < i ==> is_digit(s@[j]),
            !too_big ==> value as int == digits_value(s@.subrange(start as int, i as int)),
            !too_big ==> value <= 255,
            too_big ==> digits_value(s@.subrange(start as int, i as int)) > 255,
        decreases n - i,
    {
        let c = s.get_char(i);
        if !('0' <= c && c <= '9') {
            assert(d[i - start] == c);
            assert(0 <= i - start < d.len() && !is_digit(d[i - start]));
            return None;
        }
        let ghost prefix = s@.subrange(start as int, i as int);
        let ghost next = s@.subrange(start as int, i + 1);
        assert(next.drop_last() =~= prefix);
        assert(next.last() == c);
        proof {
            lemma_digits_value_nonneg(prefix);
        }
        if !too_big {
            let dv = (c as u32) - ('0' as u32);
            value = value * 10 + dv;
            if value > 255 {
                too_big = true;
            }
        } else {
            assert(digits_value(next) > 255) by (nonlinear_arith)
                requires
                    digits_value(next) == digits_value(prefix) * 10 + digit_value(c),
                    digits_value(prefix) > 255,
                    digit_value(c) >= 0,
            ;
        }
        i = i + 1;
    }
    assert(s@.subrange(start as int, n as int) =~= d);
    if too_big {
        None
    } else {
        Some(value as u8)
    }
}

/// The log level that the value of the `DECKTRICKS_LOG_LEVEL` environment variable
/// asks for, if it holds a number from 0 to 255.
pub fn check_log_level_env_var(value: Option<&str>) -> (r: Option<LogType>)
    ensures
        r == match value {
            Some(v) => match spec_parse_u8(v@) {
                Some(n) => Some(LogType::spec_from_level(n)),
                None => None,
            },
            None => None,
        },
{
    match value {
        Some(v) => match parse_u8(v) {
            Some(n) => Some(LogType::from(n)),
            None => None,
        },
        None => None,
    }
}

/// The current log level: the one asked for, else the default.
pub fn get_log_level(asked_for: Option<LogType>) -> (r: LogType)
    ensures
        r == match asked_for {
            Some(t) => t,
            None => spec_default_log_level(),
        },
{
    match asked_for {
        Some(t) => t,
        None => LogType::Warn,
    }
}

/// The state of the logger that prints to the console: its log level.
#[derive(Debug, Clone)]
pub struct DecktricksConsoleLogger {
    log_level: LogType,
}

impl DecktricksConsoleLogger {
    pub closed spec fn spec_log_level(self) -> LogType {
        self.log_level
    }

    pub fn new(log_level: LogType) -> (r: Self)
        ensures
            r.spec_log_level() == log_level,
    {
        DecktricksConsoleLogger { log_level }
    }

    pub fn get_log_level(&self) -> (r: LogType)
        ensures
            r == self.spec_log_level(),
    {
        self.log_level
    }

    pub fn set_log_level(&mut self, log_type: LogType)
        ensures
            final(self).spec_log_level() == log_type,
    {
        self.log_level = log_type;
    }
}

/// The part of a source file's path that is shown in log lines: what follows the
/// first `/` after the first occurrence of the repository's name, or the whole
/// path when there is no such part.
pub open spec fn spec_source_name(full: Seq<char>) -> Seq<char> {
    if has_substring(full, REPO_DIRECTORY_NAME@) {
        let i = choose|i: int| first_occurrence(full, REPO_DIRECTORY_NAME@, i);
        let after = full.skip(i + REPO_DIRECTORY_NAME@.len());
        if has_substring(after, "/"@) {
            let j = choose|j: int| first_occurrence(after, "/"@, j);
            after.skip(j + 1)
        } else {
            full
        }
    } else {
        full
    }
}

/// The name of the repository, by which source paths are shortened.
pub const REPO_DIRECTORY_NAME: &'static str = "decktricks";

proof fn lemma_first_occurrence_unique(s: Seq<char>, p: Seq<char>, i: int, j: int)
    requires
        first_occurrence(s, p, i),
        first_occurrence(s, p, j),
    ensures
        i == j,
{
    if i < j {
        assert(!occurs_at(s, p, i));
    } else if j < i {
        assert(!occurs_at(s, p, j));
    }
}

/// The part of a source file's path that is shown in log lines (see
/// `spec_source_name`).
pub fn source_name(full: &str) -> (r: String)
    ensures
        r@ == spec_source_name(full@),
{
    let cs = chars_of(full);
    let n = cs.len();
    match find_str(full, REPO_DIRECTORY_NAME) {
        None => owned(full),
        Some(i) => {
            proof {
                reveal_strlit("decktricks");
                assert(REPO_DIRECTORY_NAME@.len() == 10);
                assert(occurs_at(full@, REPO_DIRECTORY_NAME@, i as int));
                assert(i + 10 <= n);
                let c = choose|c: int| first_occurrence(full@, REPO_DIRECTORY_NAME@, c);
                lemma_first_occurrence_unique(full@, REPO_DIRECTORY_NAME@, i as int, c);
            }
            let after = string_from_chars(&cs, i + 10, n);
            assert(after@ =~= full@.skip(i + REPO_DIRECTORY_NAME@.len()));
            match find_str(after.as_str(), "/") {
                None => owned(full),
                Some(j) => {
                    proof {
                        reveal_strlit("/");
                        let c = choose|c: int| first_occurrence(after@, "/"@, c);
                        lemma_first_occurrence_unique(after@, "/"@, j as int, c);
                    }
                    let acs = chars_of(after.as_str());
                    let r = string_from_chars(&acs, j + 1, acs.len());
                    assert(r@ =~= after@.skip(j + 1));
                    r
                },
            }
        },
    }
}

/// The line logged for a message: the level's prefix, the channel's key, where in
/// the source it was logged, and the message between `{{{` and `}}}` on lines of
/// its own.
pub open spec fn spec_log_line(
    log_type: LogType,
    channel: LogChannel,
    source: Seq<char>,
    line: u32,
    column: u32,
    message: Seq<char>,
) -> Seq<char> {
    log_type.spec_prefix() + " <"@ + channel.spec_key() + "> "@ + spec_source_name(source) + ": "@
        + spec_decimal(line as nat) + ":"@ + spec_decimal(column as nat) + " {{{\n"@ + message + "\n}}}"@
}

/// The line to log for a message, or nothing when the current level does not show
/// messages of its level.
pub fn log_line(
    log_type: LogType,
    current_level: LogType,
    channel: &LogChannel,
    source: &str,
    line: u32,
    column: u32,
    message: &str,
) -> (r: Option<String>)
    ensures
        match r {
            Some(t) => log_type.level() <= current_level.level() && t@ == spec_log_line(
                log_type,
                *channel,
                source@,
                line,
                column,
                message@,
            ),
            None => log_type.level() > current_level.level(),
        },
{
    if !log_type.is_shown_at(current_level) {
        return None;
    }
    let mut t = owned(log_type.get_prefix_for());
    push_str(&mut t, " <");
    let key = channel.to_key();
    push_str(&mut t, key.as_str());
    push_str(&mut t, "> ");
    let name = source_name(source);
    push_str(&mut t, name.as_str());
    push_str(&mut t, ": ");
    let l = u64_to_decimal(line as u64);
    push_str(&mut t, l.as_str());
    push_str(&mut t, ":");
    let c = u64_to_decimal(column as u64);
    push_str(&mut t, c.as_str());
    push_str(&mut t, " {{{\n");
    push_str(&mut t, message);
    push_str(&mut t, "\n}}}");
    Some(t)
}

} // verus!
