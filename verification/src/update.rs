//! Checking an installation against its list of file hashes, to know whether an
//! update is needed.
//!
//! The list holds one line per file: the file's XXH64 hash in lowercase hex, two
//! spaces, and the file's name relative to the installation. The program reads the
//! list and the files; the decisions are made here, line by line.
use crate::text::{owned, push_char, spec_lines, string_from_chars, chars_of, views};
use crate::utils::{path_join, spec_path_join};
use std::hash::Hasher;
use vstd::prelude::*;

verus! {

/// Whether files need an update.
#[derive(Debug, Clone, Copy, PartialEq, Eq, Structural)]
pub enum HashCheckOutcome {
    UpdateNeeded,
    NoActionNeeded,
}

/// The XXH64 hash (seed 0) of some bytes.
pub uninterp spec fn spec_xxhash64(data: Seq<u8>) -> u64;

/// The XXH64 hash of some bytes (`twox_hash::XxHash64` with the default seed 0,
/// fed the bytes at once); the contract names the result.
#[verifier::external_body]
fn xxhash64(data: &[u8]) -> (r: u64)
    ensures
        r == spec_xxhash64(data@),
{
    let mut hasher = twox_hash::XxHash64::default();
    hasher.write(data);
    hasher.finish()
}

/// A hex digit in lowercase.
pub open spec fn hex_digit(d: nat) -> char {
    if d < 10 {
        (('0' as nat) + d) as char
    } else {
        (('a' as nat) + d - 10) as char
    }
}

/// A number in lowercase hex, with no leading zeros.
pub open spec fn spec_hex(n: nat) -> Seq<char>
    decreases n,
{
    if n < 16 {
        seq![hex_digit(n)]
    } else {
        spec_hex(n / 16).push(hex_digit(n % 16))
    }
}

fn hex_digit_exec(d: u64) -> (c: char)
    requires
        d < 16,
    ensures
        c == hex_digit(d as nat),
{
    if d < 10 {
        ((('0' as u8) + (d as u8)) as char)
    } else {
        ((('a' as u8) + (d as u8) - 10) as char)
    }
}

/// A number in lowercase hex, with no leading zeros (`{:X}`, then lowercased).
pub fn hex_lower(n: u64) -> (r: String)
    ensures
        r@ == spec_hex(n as nat),
    decreases n,
{
    if n < 16 {
        let mut r = String::new();
        push_char(&mut r, hex_digit_exec(n));
        assert(r@ =~= spec_hex(n as nat));
        r
    } else {
        let mut r = hex_lower(n / 16);
        push_char(&mut r, hex_digit_exec(n % 16));
        r
    }
}

/// The hash of a file's contents as the list writes it.
pub fn xxhash_hex(data: &[u8]) -> (r: String)
    ensures
        r@ == spec_hex(spec_xxhash64(data@) as nat),
{
    hex_lower(xxhash64(data))
}

/// Two spaces start at position `i`.
pub open spec fn two_spaces_at(s: Seq<char>, i: int) -> bool {
    0 <= i && i + 1 < s.len() && s[i] == ' ' && s[i + 1] == ' '
}

/// A line split at its last two spaces (`str::rsplit_once("  ")`): what comes
/// before them and what comes after.
pub open spec fn spec_rsplit_two_spaces(s: Seq<char>) -> Option<(Seq<char>, Seq<char>)> {
    if exists|i: int| #[trigger] two_spaces_at(s, i) {
        let i = choose|i: int| #[trigger] two_spaces_at(s, i) && forall|j: int| #[trigger] two_spaces_at(s, j) ==> j <= i;
        Some((s.subrange(0, i), s.subrange(i + 2, s.len() as int)))
    } else {
        None
    }
}

/// Splits a line at its last two spaces.
pub fn rsplit_two_spaces(line: &str) -> (r: Option<(String, String)>)
    ensures
        match spec_rsplit_two_spaces(line@) {
            Some((a, b)) => r matches Some((x, y)) && x@ == a && y@ == b,
            None => r is None,
        },
{
    let cs = chars_of(line);
    let n = cs.len();
    if n < 2 {
        assert forall|i: int| !#[trigger] two_spaces_at(line@, i) by {}
        return None;
    }
    let mut i: usize = n - 1;
    while i > 0
        invariant
            cs@ == line@,
            n == cs@.len(),
            n >= 2,
            0 <= i <= n - 1,
            forall|j: int| i <= j ==> !#[trigger] two_spaces_at(line@, j),
        decreases i,
    {
        let k = i - 1;
        if cs[k] == ' ' && cs[k + 1] == ' ' {
            assert(two_spaces_at(line@, k as int));
            let ghost c = choose|c: int| #[trigger] two_spaces_at(line@, c) && forall|j: int| #[trigger] two_spaces_at(line@, j) ==> j <= c;
            assert(forall|j: int| #[trigger] two_spaces_at(line@, j) ==> j <= k);
            assert(c == k);
            let a = string_from_chars(&cs, 0, k);
            let b = string_from_chars(&cs, k + 2, n);
            return Some((a, b));
        }
        i = k;
    }
    None
}

/// A path joined onto the installation's directory (`Path::join`): an absolute
/// path stays as it is.
pub open spec fn spec_target_path(target_dir: Seq<char>, name: Seq<char>) -> Seq<char> {
    if name.len() > 0 && name[0] == '/' {
        name
    } else {
        spec_path_join(target_dir, name)
    }
}

/// What a line of the list asks to check: the file's path and its expected hash;
/// or the error for a line that does not hold two spaces.
pub open spec fn spec_line_check(line: Seq<char>, target_dir: Seq<char>) -> Result<(Seq<char>, Seq<char>), Seq<char>> {
    match spec_rsplit_two_spaces(line) {
        Some((hash, name)) => Ok((spec_target_path(target_dir, name), hash)),
        None => Err("Failed to parse \"{line}\" in \"{hashes_filename}\"!"@),
    }
}

/// What a line of the list asks to check (see `spec_line_check`).
pub fn line_check(line: &str, target_dir: &str) -> (r: Result<(String, String), String>)
    ensures
        match spec_line_check(line@, target_dir@) {
            Ok((p, h)) => r matches Ok((x, y)) && x@ == p && y@ == h,
            Err(m) => r matches Err(e) && e@ == m,
        },
{
    match rsplit_two_spaces(line) {
        Some((hash, name)) => {
            let path = if name.unicode_len() > 0 && name.get_char(0) == '/' {
                name
            } else {
                path_join(target_dir, name.as_str())
            };
            Ok((path, hash))
        },
        None => Err(owned("Failed to parse \"{line}\" in \"{hashes_filename}\"!")),
    }
}

/// Whether a file is as the list expects: it could be read and its hash is the
/// expected one.
pub fn file_matches(expected_hash: &str, contents: Option<&[u8]>) -> (r: bool)
    ensures
        r == match contents {
            Some(d) => spec_hex(spec_xxhash64(d@) as nat) == expected_hash@,
            None => false,
        },
{
    match contents {
        Some(d) => {
            let h = xxhash_hex(d);
            crate::text::str_eq(h.as_str(), expected_hash)
        },
        None => false,
    }
}

/// Whether the installation needs an update, given the list's lines and, for each
/// line, the contents of its file (or none when the file is missing or cannot be
/// read). The lines are checked in order; the first malformed line is an error,
/// the first file that does not match asks for an update.
pub open spec fn spec_hash_check(lines: Seq<Seq<char>>, target_dir: Seq<char>, contents: Seq<Option<Seq<u8>>>) -> Result<HashCheckOutcome, Seq<char>>
    decreases lines.len(),
{
    if lines.len() == 0 {
        Ok(HashCheckOutcome::NoActionNeeded)
    } else {
        match spec_line_check(lines[0], target_dir) {
            Err(m) => Err(m),
            Ok((_, h)) => {
                let matched = contents.len() > 0 && match contents[0] {
                    Some(d) => spec_hex(spec_xxhash64(d) as nat) == h,
                    None => false,
                };
                if !matched {
                    Ok(HashCheckOutcome::UpdateNeeded)
                } else {
                    spec_hash_check(lines.drop_first(), target_dir, contents.drop_first())
                }
            },
        }
    }
}

/// Whether the installation needs an update (see `spec_hash_check`). `contents`
/// holds, for each line in order, what reading its file gave.
pub fn check_hashes(lines: &Vec<String>, target_dir: &str, contents: &Vec<Option<Vec<u8>>>) -> (r: Result<HashCheckOutcome, String>)
    requires
        contents@.len() == lines@.len(),
    ensures
        match spec_hash_check(views(lines@), target_dir@, contents@.map_values(|c: Option<Vec<u8>>| match c {
            Some(v) => Some(v@),
            None => None,
        })) {
            Ok(o) => r == Ok::<HashCheckOutcome, String>(o),
            Err(m) => r matches Err(e) && e@ == m,
        },
{
    let ghost cs = contents@.map_values(|c: Option<Vec<u8>>| match c {
        Some(v) => Some(v@),
        None => None,
    });
    let mut i: usize = 0;
    assert(views(lines@).skip(0) =~= views(lines@));
    assert(cs.skip(0) =~= cs);
    while i < lines.len()
        invariant
            i <= lines@.len(),
            contents@.len() == lines@.len(),
            cs == contents@.map_values(|c: Option<Vec<u8>>| match c {
                Some(v) => Some(v@),
                None => None,
            }),
            spec_hash_check(views(lines@), target_dir@, cs) == spec_hash_check(
                views(lines@).skip(i as int),
                target_dir@,
                cs.skip(i as int),
            ),
        decreases lines@.len() - i,
    {
        let ghost rest = views(lines@).skip(i as int);
        let ghost crest = cs.skip(i as int);
        assert(rest[0] == lines@[i as int]@);
        assert(rest.drop_first() =~= views(lines@).skip(i + 1));
        assert(crest.drop_first() =~= cs.skip(i + 1));
        match line_check(lines[i].as_str(), target_dir) {
            Err(e) => return Err(e),
            Ok((_, expected)) => {
                assert(crest.len() > 0 && crest[0] == cs[i as int]);
                let matched = match &contents[i] {
                    Some(d) => file_matches(expected.as_str(), Some(d.as_slice())),
                    None => false,
                };
                if !matched {
                    return Ok(HashCheckOutcome::UpdateNeeded);
                }
            },
        }
        i = i + 1;
    }
    assert(views(lines@).skip(i as int).len() == 0);
    Ok(HashCheckOutcome::NoActionNeeded)
}

/// The text of the list, when it could be read, split into lines; a list that
/// cannot be read asks for a full update.
pub fn hash_list_lines(text: Option<&str>) -> (r: Result<Vec<String>, HashCheckOutcome>)
    ensures
        match text {
            Some(t) => r matches Ok(v) && views(v@) == spec_lines(t@),
            None => r == Err::<Vec<String>, HashCheckOutcome>(HashCheckOutcome::UpdateNeeded),
        },
{
    match text {
        Some(t) => Ok(crate::text::lines(t)),
        None => Err(HashCheckOutcome::UpdateNeeded),
    }
}

/// Where an update is unpacked, under decktricks' directory.
pub fn get_update_tmpdir(decktricks_dir: &str) -> (r: String)
    ensures
        r@ == decktricks_dir@ + "/"@ + "tmp_update"@,
{
    crate::text::concat3(decktricks_dir, "/", "tmp_update")
}

/// Updating in place is not done yet: it reports so.
pub fn live_update() -> (r: Result<String, String>)
    ensures
        r matches Ok(s) && s@ == "placeholder"@,
{
    Ok(owned("placeholder"))
}

// ---------------------------------------------------------------------------
// Downloading the release
// ---------------------------------------------------------------------------

/// How many times a failed download is tried again.
pub const NUM_RETRIES: u8 = 5;

/// Where the stable release is downloaded from.
pub const DECKTRICKS_DOWNLOAD_URL: &'static str =
    "https://github.com/MrAwesome/decktricks/releases/download/stable/decktricks.tar.xz";

/// Two to the power `n`.
pub open spec fn doubled(n: nat) -> nat
    decreases n,
{
    if n == 0 {
        1
    } else {
        2 * doubled((n - 1) as nat)
    }
}

/// Where the retries of a download stand: how many are left, and how many seconds
/// to wait before the next one. The wait starts at one second and doubles after
/// each retry.
#[derive(Debug, Clone, Copy)]
pub struct DownloadRetries {
    retries_remaining: u8,
    wait_secs: u64,
}

/// What follows a failed download: wait and try again, or give up with a message.
#[derive(Debug)]
pub enum AfterFailure {
    Retry { wait_secs: u64, next: DownloadRetries },
    GiveUp(String),
}

impl DownloadRetries {
    #[verifier::type_invariant]
    spec fn wait_doubles(self) -> bool {
        self.retries_remaining <= NUM_RETRIES && self.wait_secs == doubled((NUM_RETRIES - self.retries_remaining) as nat)
    }

    pub closed spec fn remaining(self) -> nat {
        self.retries_remaining as nat
    }

    pub closed spec fn wait(self) -> nat {
        self.wait_secs as nat
    }

    /// Before the first try: every retry is left, and the first wait is a second.
    pub fn new() -> (r: Self)
        ensures
            r.remaining() == NUM_RETRIES,
            r.wait() == 1,
    {
        DownloadRetries { retries_remaining: NUM_RETRIES, wait_secs: 1 }
    }

    /// What follows a failed download whose error reads `error_text`: with no retry
    /// left, giving up; otherwise waiting, then trying again with one retry less and
    /// twice the wait.
    pub fn after_failure(self, error_text: &str) -> (r: AfterFailure)
        ensures
            self.remaining() == 0 ==> (r matches AfterFailure::GiveUp(m) && m@
                == "!!! Failed to update to new Decktricks version! Last error was:\n"@ + error_text@),
            self.remaining() > 0 ==> (r matches AfterFailure::Retry { wait_secs, next } && wait_secs == self.wait()
                && next.remaining() == self.remaining() - 1 && next.wait() == 2 * self.wait()),
    {
        proof {
            use_type_invariant(&self);
        }
        if self.retries_remaining == 0 {
            return AfterFailure::GiveUp(crate::text::concat2(
                "!!! Failed to update to new Decktricks version! Last error was:\n",
                error_text,
            ));
        }
        let ghost k = (NUM_RETRIES - self.retries_remaining) as nat;
        assert(self.wait_secs * 2 <= 32) by {
            assert(k <= 4);
            reveal_with_fuel(doubled, 5);
        }
        let next = DownloadRetries { retries_remaining: self.retries_remaining - 1, wait_secs: self.wait_secs * 2 };
        AfterFailure::Retry { wait_secs: self.wait_secs, next }
    }
}

} // verus!
