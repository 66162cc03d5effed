//! Adding tricks, or decktricks itself, to Steam as non-Steam shortcuts.
//!
//! Steam keeps the shortcuts of each user in a `shortcuts.vdf` file. The program
//! reads those files; here they are parsed, the shortcut is replaced or added, and
//! the bytes to write back are made.
use crate::actions::ActionSuccess;
use crate::errors::{DeckResult, KnownError};
use crate::logging::{all_digits, digit_value, digits_value, is_digit};
use crate::providers::emudeck_installer::{get_emudeck_binary_path, spec_emudeck_binary_path};
use crate::providers::geforce_now::{geforce_local_executable, spec_geforce_local_executable};
use crate::text::{has_suffix, spec_decimal, u64_to_decimal, clone_strings, concat2, concat3, contains_str, i64_to_decimal, join, join_strings,
    owned, push_str, quoted, spec_escape, spec_signed_decimal, str_eq, vec_contains_str, views};
use crate::tricks_config::{reversed, ProviderConfig, Trick};
use steam_shortcuts_util::Shortcut;
use vstd::prelude::*;

verus! {

/// Where the full app ID of the newest decktricks shortcut is written.
pub const DECKTRICKS_FULL_APPID_FILENAME: &'static str = "/tmp/decktricks_newest_full_steam_appid";

/// The tag of decktricks' own shortcut.
pub const DECKTRICKS_NAME_STRING: &'static str = "decktricks";

/// A non-Steam shortcut, field by field as `shortcuts.vdf` holds it.
#[derive(Debug)]
pub struct SteamShortcut {
    pub order: String,
    pub app_id: u32,
    pub app_name: String,
    pub exe: String,
    pub start_dir: String,
    pub icon: String,
    pub shortcut_path: String,
    pub launch_options: String,
    pub is_hidden: bool,
    pub allow_desktop_config: bool,
    pub allow_overlay: bool,
    pub open_vr: u32,
    pub dev_kit: u32,
    pub dev_kit_game_id: String,
    pub dev_kit_overrite_app_id: u32,
    pub last_play_time: u32,
    pub tags: Vec<String>,
}

/// The app ID that Steam gives a shortcut, computed from its target and name.
pub uninterp spec fn spec_steam_app_id(exe: Seq<char>, app_name: Seq<char>) -> u32;

/// The app ID of a shortcut (`steam_shortcuts_util::app_id_generator::calculate_app_id`).
/// The crate computes a CRC-32 checksum of the target followed by the name, with the
/// highest bit set; the contract names that result and states the set bit.
#[verifier::external_body]
fn steam_app_id(exe: &str, app_name: &str) -> (r: u32)
    ensures
        r == spec_steam_app_id(exe@, app_name@),
        r >= 0x8000_0000,
{
    steam_shortcuts_util::app_id_generator::calculate_app_id(exe, app_name)
}

/// What `shortcuts.vdf` bytes hold, when they can be parsed.
pub uninterp spec fn spec_parsed_shortcuts(bytes: Seq<u8>) -> Option<Seq<SteamShortcut>>;

/// Parses the bytes of a `shortcuts.vdf` file (`steam_shortcuts_util::parse_shortcuts`);
/// each shortcut is copied field by field. The contract names the result; on bytes
/// that do not parse, the crate's error message comes back.
#[verifier::external_body]
fn parse_shortcut_bytes(bytes: &[u8]) -> (r: Result<Vec<SteamShortcut>, String>)
    ensures
        match spec_parsed_shortcuts(bytes@) {
            Some(s) => r matches Ok(v) && v@ == s,
            None => r is Err,
        },
{
    match steam_shortcuts_util::parse_shortcuts(bytes) {
        Ok(v) => Ok(v.iter().map(|s| SteamShortcut::from_parts(s.order, s.app_id, s.app_name, s.exe,
            s.start_dir, s.icon, s.shortcut_path, s.launch_options, s.is_hidden, s.allow_desktop_config,
            s.allow_overlay, s.open_vr, s.dev_kit, s.dev_kit_game_id, s.dev_kit_overrite_app_id,
            s.last_play_time, &s.tags)).collect()),
        Err(e) => Err(e),
    }
}

/// The bytes of a `shortcuts.vdf` file that holds the given shortcuts.
pub uninterp spec fn spec_shortcut_file_bytes(shortcuts: Seq<SteamShortcut>) -> Seq<u8>;

/// The bytes of a `shortcuts.vdf` file holding the shortcuts in order
/// (`steam_shortcuts_util::shortcuts_to_bytes`); the contract names the result.
#[verifier::external_body]
fn shortcut_file_bytes(shortcuts: &Vec<SteamShortcut>) -> (r: Vec<u8>)
    ensures
        r@ == spec_shortcut_file_bytes(shortcuts@),
{
    let v: Vec<Shortcut> = shortcuts.iter().map(|s| Shortcut { order: &s.order, app_id: s.app_id,
        app_name: &s.app_name, exe: &s.exe, start_dir: &s.start_dir, icon: &s.icon,
        shortcut_path: &s.shortcut_path, launch_options: &s.launch_options, is_hidden: s.is_hidden,
        allow_desktop_config: s.allow_desktop_config, allow_overlay: s.allow_overlay,
        open_vr: s.open_vr, dev_kit: s.dev_kit, dev_kit_game_id: &s.dev_kit_game_id,
        dev_kit_overrite_app_id: s.dev_kit_overrite_app_id, last_play_time: s.last_play_time,
        tags: s.tags.iter().map(|t| t.as_str()).collect() }).collect();
    steam_shortcuts_util::shortcuts_to_bytes(&v)
}

/// The seconds since the Unix epoch, by the system clock (`SystemTime::now`),
/// truncated to 32 bits as Steam stores them. Nothing is stated of the result.
#[verifier::external_body]
fn current_unix_time() -> (r: u32) {
    std::time::SystemTime::now().duration_since(std::time::UNIX_EPOCH).map(|d| d.as_secs() as u32).unwrap_or(0)
}

impl SteamShortcut {
    /// A shortcut with the given fields.
    pub fn from_parts(
        order: &str,
        app_id: u32,
        app_name: &str,
        exe: &str,
        start_dir: &str,
        icon: &str,
        shortcut_path: &str,
        launch_options: &str,
        is_hidden: bool,
        allow_desktop_config: bool,
        allow_overlay: bool,
        open_vr: u32,
        dev_kit: u32,
        dev_kit_game_id: &str,
        dev_kit_overrite_app_id: u32,
        last_play_time: u32,
        tags: &Vec<&str>,
    ) -> (r: Self)
        ensures
            r.order@ == order@,
            r.app_id == app_id,
            r.app_name@ == app_name@,
            r.exe@ == exe@,
            r.start_dir@ == start_dir@,
            r.icon@ == icon@,
            r.shortcut_path@ == shortcut_path@,
            r.launch_options@ == launch_options@,
            r.is_hidden == is_hidden,
            r.allow_desktop_config == allow_desktop_config,
            r.allow_overlay == allow_overlay,
            r.open_vr == open_vr,
            r.dev_kit == dev_kit,
            r.dev_kit_game_id@ == dev_kit_game_id@,
            r.dev_kit_overrite_app_id == dev_kit_overrite_app_id,
            r.last_play_time == last_play_time,
            r.tags@.len() == tags@.len(),
            forall|i: int| 0 <= i < tags@.len() ==> #[trigger] r.tags@[i]@ == tags@[i]@,
    {
        let mut owned_tags: Vec<String> = Vec::new();
        let mut i: usize = 0;
        while i < tags.len()
            invariant
                i <= tags@.len(),
                owned_tags@.len() == i,
                forall|j: int| 0 <= j < i ==> #[trigger] owned_tags@[j]@ == tags@[j]@,
            decreases tags@.len() - i,
        {
            owned_tags.push(owned(tags[i]));
            i = i + 1;
        }
        SteamShortcut {
            order: owned(order),
            app_id,
            app_name: owned(app_name),
            exe: owned(exe),
            start_dir: owned(start_dir),
            icon: owned(icon),
            shortcut_path: owned(shortcut_path),
            launch_options: owned(launch_options),
            is_hidden,
            allow_desktop_config,
            allow_overlay,
            open_vr,
            dev_kit,
            dev_kit_game_id: owned(dev_kit_game_id),
            dev_kit_overrite_app_id,
            last_play_time,
            tags: owned_tags,
        }
    }

    /// A new shortcut the way `steam_shortcuts_util` makes one (`Shortcut::new`):
    /// the app ID computed from the target and name, shown, with the desktop
    /// configuration and the overlay allowed, no VR or dev kit settings, never
    /// played, and no tags.
    pub fn new(
        order: &str,
        app_name: &str,
        exe: &str,
        start_dir: &str,
        icon: &str,
        shortcut_path: &str,
        launch_options: &str,
    ) -> (r: Self)
        ensures
            r.order@ == order@,
            r.app_id == spec_steam_app_id(exe@, app_name@),
            r.app_name@ == app_name@,
            r.exe@ == exe@,
            r.start_dir@ == start_dir@,
            r.icon@ == icon@,
            r.shortcut_path@ == shortcut_path@,
            r.launch_options@ == launch_options@,
            !r.is_hidden,
            r.allow_desktop_config,
            r.allow_overlay,
            r.open_vr == 0,
            r.dev_kit == 0,
            r.dev_kit_game_id@.len() == 0,
            r.dev_kit_overrite_app_id == 0,
            r.last_play_time == 0,
            r.tags@.len() == 0,
    {
        SteamShortcut {
            order: owned(order),
            app_id: steam_app_id(exe, app_name),
            app_name: owned(app_name),
            exe: owned(exe),
            start_dir: owned(start_dir),
            icon: owned(icon),
            shortcut_path: owned(shortcut_path),
            launch_options: owned(launch_options),
            is_hidden: false,
            allow_desktop_config: true,
            allow_overlay: true,
            open_vr: 0,
            dev_kit: 0,
            dev_kit_game_id: String::new(),
            dev_kit_overrite_app_id: 0,
            last_play_time: 0,
            tags: Vec::new(),
        }
    }

    /// The shortcut is decktricks' own: it has the `decktricks` tag.
    pub fn is_decktricks_shortcut(&self) -> (r: bool)
        ensures
            r == contains_str(self.tags@, DECKTRICKS_NAME_STRING@),
    {
        vec_contains_str(&self.tags, DECKTRICKS_NAME_STRING)
    }

    /// The shortcut is that of the given trick: it has the trick's tag.
    pub fn is_existing_trick_shortcut(&self, trick_id: &str) -> (r: bool)
        ensures
            r == contains_str(self.tags@, spec_trick_tag(trick_id@)),
    {
        let tag = trick_tag(trick_id);
        vec_contains_str(&self.tags, tag.as_str())
    }

    pub fn duplicate(&self) -> (r: Self)
        ensures
            r.order == self.order,
            r.app_id == self.app_id,
            r.app_name == self.app_name,
            r.exe == self.exe,
            r.start_dir == self.start_dir,
            r.icon == self.icon,
            r.shortcut_path == self.shortcut_path,
            r.launch_options == self.launch_options,
            r.is_hidden == self.is_hidden,
            r.allow_desktop_config == self.allow_desktop_config,
            r.allow_overlay == self.allow_overlay,
            r.open_vr == self.open_vr,
            r.dev_kit == self.dev_kit,
            r.dev_kit_game_id == self.dev_kit_game_id,
            r.dev_kit_overrite_app_id == self.dev_kit_overrite_app_id,
            r.last_play_time == self.last_play_time,
            r.tags@ == self.tags@,
    {
        SteamShortcut {
            order: self.order.clone(),
            app_id: self.app_id,
            app_name: self.app_name.clone(),
            exe: self.exe.clone(),
            start_dir: self.start_dir.clone(),
            icon: self.icon.clone(),
            shortcut_path: self.shortcut_path.clone(),
            launch_options: self.launch_options.clone(),
            is_hidden: self.is_hidden,
            allow_desktop_config: self.allow_desktop_config,
            allow_overlay: self.allow_overlay,
            open_vr: self.open_vr,
            dev_kit: self.dev_kit,
            dev_kit_game_id: self.dev_kit_game_id.clone(),
            dev_kit_overrite_app_id: self.dev_kit_overrite_app_id,
            last_play_time: self.last_play_time,
            tags: clone_strings(&self.tags),
        }
    }
}

/// The tag of a trick's shortcut.
pub open spec fn spec_trick_tag(trick_id: Seq<char>) -> Seq<char> {
    "decktricks-"@ + trick_id
}

/// The tag of a trick's shortcut.
pub fn trick_tag(trick_id: &str) -> (r: String)
    ensures
        r@ == spec_trick_tag(trick_id@),
{
    concat2("decktricks-", trick_id)
}

/// The full (64-bit) app ID that Steam uses for a shortcut's short app ID.
pub open spec fn spec_full_appid(appid_short: u32) -> int {
    appid_short as int * 0x1_0000_0000 + 0x0200_0000
}

/// The full (64-bit) app ID that Steam uses for a shortcut's short app ID: the short
/// ID in the upper half, `0x02000000` in the lower.
pub fn get_full_appid(appid_short: u32) -> (r: u64)
    ensures
        r == spec_full_appid(appid_short),
{
    let s: u64 = appid_short as u64;
    let r: u64 = (s << 32u64) | 0x0200_0000u64;
    assert(r == s * 0x1_0000_0000 + 0x0200_0000) by (bit_vector)
        requires
            s < 0x1_0000_0000,
            r == (s << 32u64) | 0x0200_0000u64,
    ;
    r
}

// ---------------------------------------------------------------------------
// Order numbers
// ---------------------------------------------------------------------------

/// How `str::parse::<i64>` reads a string: an optional sign, then one or more
/// decimal digits, standing for a number in the range of `i64`.
pub open spec fn spec_parse_i64(s: Seq<char>) -> Option<i64> {
    let negative = s.len() > 0 && s[0] == '-';
    let d = if s.len() > 0 && (s[0] == '+' || s[0] == '-') {
        s.drop_first()
    } else {
        s
    };
    if d.len() == 0 || !all_digits(d) {
        None
    } else {
        let v = if negative {
            -digits_value(d)
        } else {
            digits_value(d)
        };
        if i64::MIN <= v <= i64::MAX {
            Some(v as i64)
        } else {
            None
        }
    }
}

proof fn lemma_digits_value_nonneg(s: Seq<char>)
    requires
        all_digits(s),
    ensures
        digits_value(s) >= 0,
    decreases s.len(),
{
    if s.len() > 0 {
        assert(all_digits(s.drop_last())) by {
            assert forall|i: int| 0 <= i < s.drop_last().len() implies is_digit(
                #[trigger] s.drop_last()[i],
            ) by {
                assert(s.drop_last()[i] == s[i]);
            }
        }
        lemma_digits_value_nonneg(s.drop_last());
    }
}

/// Reads a number the way `str::parse::<i64>` does.
pub fn parse_i64(s: &str) -> (r: Option<i64>)
    ensures
        r == spec_parse_i64(s@),
{
    let n = s.unicode_len();
    let mut i: usize = 0;
    let mut negative = false;
    if n > 0 && (s.get_char(0) == '+' || s.get_char(0) == '-') {
        negative = s.get_char(0) == '-';
        i = 1;
    }
    let ghost d = if s@.len() > 0 && (s@[0] == '+' || s@[0] == '-') {
        s@.drop_first()
    } else {
        s@
    };
    assert(d =~= s@.subrange(i as int, n as int));
    if i == n {
        return None;
    }
    let start = i;
    let mut value: u128 = 0;
    let mut too_big = false;
    while i < n
        invariant
            start <= i <= n,
            n == s@.len(),
            d == s@.subrange(start as int, n as int),
            d == (if s@.len() > 0 && (s@[0] == '+' || s@[0] == '-') {
                s@.drop_first()
            } else {
                s@
            }),
            negative == (s@.len() > 0 && s@[0] == '-'),
            forall|j: int| start <= j < i ==> is_digit(s@[j]),
            !too_big ==> value as int == digits_value(s@.subrange(start as int, i as int)),
            !too_big ==> value <= 0x8000_0000_0000_0000,
            too_big ==> digits_value(s@.subrange(start as int, i as int)) > 0x8000_0000_0000_0000,
        decreases n - i,
    {
        let c = s.get_char(i);
        if !('0' <= c && c <= '9') {
            assert(d[i - start] == c);
            assert(0 <= i - start < d.len() && !is_digit(d[i - start]));
            return None;
        }
        let ghost prefix = s@.subrange(start as int, i as int);
        let ghost next = s@.subrange(start as int, i + 1);
        assert(next.drop_last() =~= prefix);
        assert(next.last() == c);
        proof {
            assert(all_digits(prefix)) by {
                assert forall|j: int| 0 <= j < prefix.len() implies is_digit(#[trigger] prefix[j]) by {
                    assert(prefix[j] == s@[start + j]);
                }
            }
            lemma_digits_value_nonneg(prefix);
        }
        if !too_big {
            let dv = (c as u32) - ('0' as u32);
            value = value * 10 + dv as u128;
            if value > 0x8000_0000_0000_0000 {
                too_big = true;
            }
        } else {
            assert(digits_value(next) > 0x8000_0000_0000_0000) by (nonlinear_arith)
                requires
                    digits_value(next) == digits_value(prefix) * 10 + digit_value(c),
                    digits_value(prefix) > 0x8000_0000_0000_0000,
                    digit_value(c) >= 0,
            ;
        }
        i = i + 1;
    }
    assert(s@.subrange(start as int, n as int) =~= d);
    assert(all_digits(d)) by {
        assert forall|j: int| 0 <= j < d.len() implies is_digit(#[trigger] d[j]) by {
            assert(d[j] == s@[start + j]);
        }
    }
    if too_big {
        None
    } else if negative {
        if value == 0x8000_0000_0000_0000 {
            Some(i64::MIN)
        } else {
            Some(-(value as i64))
        }
    } else if value > 0x7fff_ffff_ffff_ffff {
        None
    } else {
        Some(value as i64)
    }
}

/// The order number of a shortcut, as it is compared: its order read as a number,
/// or 999 when it is not one.
pub open spec fn spec_order_value(s: SteamShortcut) -> i64 {
    match spec_parse_i64(s.order@) {
        Some(v) => v,
        None => 999,
    }
}

/// The highest order number among the shortcuts, if there are any.
pub open spec fn spec_max_order(shortcuts: Seq<SteamShortcut>) -> Option<i64>
    decreases shortcuts.len(),
{
    if shortcuts.len() == 0 {
        None
    } else {
        let v = spec_order_value(shortcuts.last());
        match spec_max_order(shortcuts.drop_last()) {
            Some(m) => Some(if m < v { v } else { m }),
            None => Some(v),
        }
    }
}

/// The order number for a new shortcut: one more than the highest order number
/// in the file, so that it is unique, or 0 in an empty file.
pub open spec fn spec_desired_order_num(shortcuts: Seq<SteamShortcut>) -> Seq<char> {
    match spec_max_order(shortcuts) {
        Some(m) => spec_signed_decimal(m + 1),
        None => spec_signed_decimal(0),
    }
}

/// No shortcut's order reads as the highest `i64`, so that one more than the
/// highest order number is a number too.
pub open spec fn orders_below_max(shortcuts: Seq<SteamShortcut>) -> bool {
    forall|i: int| 0 <= i < shortcuts.len() ==> #[trigger] spec_order_value(shortcuts[i]) < i64::MAX
}

proof fn lemma_max_order_below(shortcuts: Seq<SteamShortcut>)
    requires
        orders_below_max(shortcuts),
    ensures
        spec_max_order(shortcuts) matches Some(m) ==> m < i64::MAX,
    decreases shortcuts.len(),
{
    if shortcuts.len() > 0 {
        assert(orders_below_max(shortcuts.drop_last())) by {
            assert forall|i: int| 0 <= i < shortcuts.drop_last().len() implies #[trigger] spec_order_value(
                shortcuts.drop_last()[i],
            ) < i64::MAX by {
                assert(shortcuts.drop_last()[i] == shortcuts[i]);
            }
        }
        assert(spec_order_value(shortcuts[shortcuts.len() - 1]) < i64::MAX);
        lemma_max_order_below(shortcuts.drop_last());
    }
}

/// The order number given to a new shortcut, as a number.
pub open spec fn spec_new_order_value(shortcuts: Seq<SteamShortcut>) -> int {
    match spec_max_order(shortcuts) {
        Some(m) => m + 1,
        None => 0,
    }
}

proof fn lemma_max_order_bounds(shortcuts: Seq<SteamShortcut>)
    ensures
        shortcuts.len() > 0 <==> spec_max_order(shortcuts) is Some,
        spec_max_order(shortcuts) matches Some(m) ==> forall|i: int|
            0 <= i < shortcuts.len() ==> #[trigger] spec_order_value(shortcuts[i]) <= m,
    decreases shortcuts.len(),
{
    if shortcuts.len() > 0 {
        let rest = shortcuts.drop_last();
        lemma_max_order_bounds(rest);
        let m = spec_max_order(shortcuts)->0;
        assert forall|i: int| 0 <= i < shortcuts.len() implies #[trigger] spec_order_value(shortcuts[i]) <= m by {
            if i < shortcuts.len() - 1 {
                assert(shortcuts[i] == rest[i]);
                if rest.len() > 0 {
                    assert(spec_order_value(rest[i]) <= spec_max_order(rest)->0);
                }
            }
        }
    }
}

/// The order number of a new shortcut is above that of every shortcut in the file,
/// so that it is unique; it is written in decimal.
pub proof fn law_new_order_above_all(shortcuts: Seq<SteamShortcut>)
    ensures
        forall|i: int| 0 <= i < shortcuts.len() ==> #[trigger] spec_order_value(shortcuts[i]) < spec_new_order_value(shortcuts),
        spec_desired_order_num(shortcuts) == spec_signed_decimal(spec_new_order_value(shortcuts)),
{
    lemma_max_order_bounds(shortcuts);
}

/// The order number for a new shortcut (see `spec_desired_order_num`).
pub fn get_desired_order_num(shortcuts: &Vec<SteamShortcut>) -> (r: String)
    requires
        orders_below_max(shortcuts@),
    ensures
        r@ == spec_desired_order_num(shortcuts@),
{
    let mut max: Option<i64> = None;
    let mut i: usize = 0;
    while i < shortcuts.len()
        invariant
            i <= shortcuts@.len(),
            max == spec_max_order(shortcuts@.subrange(0, i as int)),
        decreases shortcuts@.len() - i,
    {
        let v = match parse_i64(shortcuts[i].order.as_str()) {
            Some(v) => v,
            None => 999,
        };
        proof {
            let sub = shortcuts@.subrange(0, i + 1);
            assert(sub.drop_last() =~= shortcuts@.subrange(0, i as int));
            assert(sub.last() == shortcuts@[i as int]);
        }
        max = match max {
            Some(m) => Some(if m < v { v } else { m }),
            None => Some(v),
        };
        i = i + 1;
    }
    assert(shortcuts@.subrange(0, shortcuts@.len() as int) =~= shortcuts@);
    proof {
        lemma_max_order_below(shortcuts@);
    }
    match max {
        Some(m) => i64_to_decimal(m + 1),
        None => i64_to_decimal(0),
    }
}

// ---------------------------------------------------------------------------
// What is added
// ---------------------------------------------------------------------------

/// What a trick's shortcut launches, and how it is shown.
#[derive(Debug)]
pub struct TrickAddToSteamContext {
    pub trick_id: String,
    pub app_name: String,
    pub exe: String,
    pub start_dir: String,
    pub icon: String,
    pub shortcut_path: String,
    pub launch_options: String,
}

/// What is added to Steam: decktricks itself, or a trick.
#[derive(Debug)]
pub enum AddToSteamTarget {
    Decktricks,
    Specific(TrickAddToSteamContext),
}

/// Whether `path` can be what looking up `name` finds on a Unix system: an
/// absolute name is found as it is; a bare name (no `/`) is found as a directory of
/// `$PATH` joined with the name, which ends with `/` and the name (or is the name,
/// for an empty entry of `$PATH`); a relative name with a `/` is made absolute
/// against the current directory, and nothing is stated of it.
pub open spec fn found_by_lookup(name: Seq<char>, path: Seq<char>) -> bool {
    if name.len() > 0 && name[0] == '/' {
        path == name
    } else if !name.contains('/') {
        path == name || has_suffix(path, "/"@ + name)
    } else {
        true
    }
}

/// Finds a program in `$PATH` (`which::which`), as text. Which file is found
/// depends on the environment and the disk; the contract states only how the path
/// found is made from the name (`which`'s finder returns an absolute name as it is
/// and joins each directory of `$PATH` with a bare name, without making it
/// canonical; `to_string_lossy` keeps the name's characters, which are valid
/// UTF-8). On failure, the crate's error message comes back; nothing is stated of it.
#[verifier::external_body]
fn which_binary(binary_name: &str) -> (r: Result<String, String>)
    ensures
        r matches Ok(p) ==> found_by_lookup(binary_name@, p@),
{
    match which::which(binary_name) {
        Ok(p) => Ok(p.to_string_lossy().to_string()),
        Err(e) => Err(e.to_string()),
    }
}

/// Where a program is, found in `$PATH`, or the error naming it.
pub open spec fn spec_which_result(binary_name: Seq<char>, found: Result<String, String>) -> Result<Seq<char>, Seq<char>> {
    match found {
        Ok(p) => Ok(p@),
        Err(e) => Err("Failed to find a binary matching "@ + binary_name + " in $PATH! Error: "@ + e@),
    }
}

/// The arguments of a command, one after the other with spaces between them.
pub open spec fn spec_launch_options(args: Option<Vec<String>>) -> Seq<char> {
    match args {
        Some(a) => join(views(a@), " "@),
        None => Seq::empty(),
    }
}

/// Whether the context says how to add the trick to Steam: the trick's ID, display
/// name and icon; and by kind of provider, what is launched. A Flatpak application
/// is run by `flatpak` from `/usr/bin`; EmuDeck and GeForce NOW are launched from
/// their place under the home directory; a command is launched from where `$PATH`
/// finds it (`found`), in its own directory or `/usr/bin`, with its arguments.
pub open spec fn made_context(trick: Trick, homedir: Seq<char>, found: Seq<char>, c: TrickAddToSteamContext) -> bool {
    &&& c.trick_id == trick.id
    &&& c.app_name == trick.display_name
    &&& c.icon@ == match trick.icon {
        Some(i) => i@,
        None => Seq::empty(),
    }
    &&& c.shortcut_path@.len() == 0
    &&& match trick.provider_config {
        ProviderConfig::Flatpak(f) => c.exe@ == "\"/usr/bin/flatpak\""@ && c.start_dir@ == "/usr/bin"@
            && c.launch_options@ == "\"run\" \"--branch=stable\" \"--arch=x86_64\" \""@ + f.id@ + "\""@,
        ProviderConfig::EmuDeckInstaller(_) => c.exe@ == "\""@ + spec_emudeck_binary_path(homedir) + "\""@
            && c.start_dir@ == "/usr/bin"@ && c.launch_options@.len() == 0,
        ProviderConfig::GeForceInstaller(_) => c.exe@ == "\""@ + spec_geforce_local_executable(homedir)
            + "\""@ && c.start_dir@ == "/usr/bin"@ && c.launch_options@.len() == 0,
        ProviderConfig::SimpleCommand(sc) => c.exe@ == "\""@ + found + "\""@ && c.start_dir@ == match sc.execution_dir {
            Some(d) => d@,
            None => "/usr/bin"@,
        } && c.launch_options@ == spec_launch_options(sc.args),
        ProviderConfig::SystemdRun(d) => c.exe@ == "\""@ + found + "\""@ && c.start_dir@ == match d.execution_dir {
            Some(x) => x@,
            None => "/usr/bin"@,
        } && c.launch_options@ == spec_launch_options(d.args),
        ProviderConfig::DeckyInstaller(_) => false,
    }
}

/// What making the context of a trick comes to, given where `$PATH` finds its
/// command: Decky cannot be added to Steam; a command that `$PATH` does not have
/// cannot be either; otherwise the context is made.
pub open spec fn context_result(trick: Trick, homedir: Seq<char>, found: Result<String, String>, r: DeckResult<TrickAddToSteamContext>) -> bool {
    match trick.provider_config {
        ProviderConfig::DeckyInstaller(_) => r matches Err(KnownError::AddToSteamError(m)) && m@
            == "Decky is automatically added to Steam! You should never see this error, please report it."@,
        _ => match spec_path_command(trick) {
            Some(cmd) => match spec_which_result(cmd, found) {
                Err(e) => r matches Err(KnownError::AddToSteamError(m)) && m@ == e,
                Ok(p) => r matches Ok(c) && made_context(trick, homedir, p, c),
            },
            None => r matches Ok(c) && made_context(trick, homedir, Seq::empty(), c),
        },
    }
}

/// What `$PATH` gave for the trick is a lookup of the command that it launches,
/// when it launches one.
pub open spec fn looked_up(trick: Trick, found: Result<String, String>) -> bool {
    match spec_path_command(trick) {
        Some(cmd) => found matches Ok(p) ==> found_by_lookup(cmd, p@),
        None => true,
    }
}

/// The command that a trick launches through `$PATH`, if it has one.
pub open spec fn spec_path_command(trick: Trick) -> Option<Seq<char>> {
    match trick.provider_config {
        ProviderConfig::SimpleCommand(sc) => Some(sc.command@),
        ProviderConfig::SystemdRun(d) => Some(d.command@),
        _ => None,
    }
}

fn join_opt_args(args: &Option<Vec<String>>) -> (r: String)
    ensures
        r@ == spec_launch_options(*args),
{
    match args {
        Some(a) => join_strings(a, " "),
        None => String::new(),
    }
}

fn dir_or_usr_bin(dir: &Option<String>) -> (r: String)
    ensures
        r@ == match *dir {
            Some(d) => d@,
            None => "/usr/bin"@,
        },
{
    match dir {
        Some(d) => d.clone(),
        None => owned("/usr/bin"),
    }
}

impl TrickAddToSteamContext {
    /// How to add a trick to Steam, given where `$PATH` finds the trick's command
    /// (which matters only for tricks that launch a command). Decky cannot be added:
    /// it adds itself. A command that `$PATH` does not have cannot be added either.
    pub fn try_from_with(trick: &Trick, homedir: &str, found: Result<String, String>) -> (r: DeckResult<Self>)
        ensures
            context_result(*trick, homedir@, found, r),
    {
        let trick_id = trick.id.clone();
        let app_name = trick.display_name.clone();
        let icon = match &trick.icon {
            Some(i) => i.clone(),
            None => String::new(),
        };
        let shortcut_path = String::new();
        match &trick.provider_config {
            ProviderConfig::Flatpak(f) => {
                let mut launch_options = owned("\"run\" \"--branch=stable\" \"--arch=x86_64\" \"");
                push_str(&mut launch_options, f.id.as_str());
                push_str(&mut launch_options, "\"");
                Ok(TrickAddToSteamContext {
                    trick_id,
                    app_name,
                    exe: owned("\"/usr/bin/flatpak\""),
                    start_dir: owned("/usr/bin"),
                    icon,
                    shortcut_path,
                    launch_options,
                })
            },
            ProviderConfig::DeckyInstaller(_) => Err(KnownError::AddToSteamError(owned(
                "Decky is automatically added to Steam! You should never see this error, please report it.",
            ))),
            ProviderConfig::EmuDeckInstaller(_) => {
                let path = get_emudeck_binary_path(homedir);
                Ok(TrickAddToSteamContext {
                    trick_id,
                    app_name,
                    exe: concat3("\"", path.as_str(), "\""),
                    start_dir: owned("/usr/bin"),
                    icon,
                    shortcut_path,
                    launch_options: String::new(),
                })
            },
            ProviderConfig::GeForceInstaller(_) => {
                let path = geforce_local_executable(homedir);
                Ok(TrickAddToSteamContext {
                    trick_id,
                    app_name,
                    exe: concat3("\"", path.as_str(), "\""),
                    start_dir: owned("/usr/bin"),
                    icon,
                    shortcut_path,
                    launch_options: String::new(),
                })
            },
            ProviderConfig::SimpleCommand(sc) => match found {
                Err(e) => Err(KnownError::AddToSteamError(which_error(sc.command.as_str(), e.as_str()))),
                Ok(p) => Ok(TrickAddToSteamContext {
                    trick_id,
                    app_name,
                    exe: concat3("\"", p.as_str(), "\""),
                    start_dir: dir_or_usr_bin(&sc.execution_dir),
                    icon,
                    shortcut_path,
                    launch_options: join_opt_args(&sc.args),
                }),
            },
            ProviderConfig::SystemdRun(d) => match found {
                Err(e) => Err(KnownError::AddToSteamError(which_error(d.command.as_str(), e.as_str()))),
                Ok(p) => Ok(TrickAddToSteamContext {
                    trick_id,
                    app_name,
                    exe: concat3("\"", p.as_str(), "\""),
                    start_dir: dir_or_usr_bin(&d.execution_dir),
                    icon,
                    shortcut_path,
                    launch_options: join_opt_args(&d.args),
                }),
            },
        }
    }

    /// How to add a trick to Steam; for a trick that launches a command, `$PATH`
    /// is searched for it.
    /// Where `$PATH` finds a command is not known here, so the contract says what
    /// holds of any answer (see `try_from_with`).
    pub fn try_from(trick: &Trick, homedir: &str) -> (r: DeckResult<Self>)
        ensures
            exists|found: Result<String, String>| #[trigger] context_result(*trick, homedir@, found, r)
                && looked_up(*trick, found),
            trick.provider_config is DeckyInstaller ==> r matches Err(KnownError::AddToSteamError(_)),
            spec_path_command(*trick) is None && !(trick.provider_config is DeckyInstaller) ==> (r matches Ok(c) && made_context(*trick, homedir@, Seq::empty(), c)),
            r matches Ok(c) ==> exists|found: Seq<char>| made_context(*trick, homedir@, found, c),
            r matches Err(e) ==> e is AddToSteamError,
    {
        let found = match &trick.provider_config {
            ProviderConfig::SimpleCommand(sc) => which_binary(sc.command.as_str()),
            ProviderConfig::SystemdRun(d) => which_binary(d.command.as_str()),
            _ => Ok(String::new()),
        };
        let ghost f = found;
        assert(looked_up(*trick, f));
        let r = TrickAddToSteamContext::try_from_with(trick, homedir, found);
        assert(context_result(*trick, homedir@, f, r));
        r
    }
}

fn which_error(binary_name: &str, e: &str) -> (r: String)
    ensures
        r@ == "Failed to find a binary matching "@ + binary_name@ + " in $PATH! Error: "@ + e@,
{
    let mut r = concat3("Failed to find a binary matching ", binary_name, " in $PATH! Error: ");
    push_str(&mut r, e);
    r
}

impl AddToSteamTarget {
    /// The name by which the target is reported.
    pub open spec fn spec_name(self) -> Seq<char> {
        match self {
            AddToSteamTarget::Decktricks => "Decktricks"@,
            AddToSteamTarget::Specific(c) => c.app_name@,
        }
    }

    /// The name by which the target is reported.
    pub fn name(&self) -> (r: String)
        ensures
            r@ == self.spec_name(),
    {
        match self {
            AddToSteamTarget::Decktricks => owned("Decktricks"),
            AddToSteamTarget::Specific(c) => c.app_name.clone(),
        }
    }

    /// A shortcut is this target's: it has the target's tag.
    pub open spec fn tags_shortcut(self, s: SteamShortcut) -> bool {
        match self {
            AddToSteamTarget::Decktricks => contains_str(s.tags@, DECKTRICKS_NAME_STRING@),
            AddToSteamTarget::Specific(c) => contains_str(s.tags@, spec_trick_tag(c.trick_id@)),
        }
    }

    /// Whether a shortcut is this target's.
    pub fn is_target_of(&self, s: &SteamShortcut) -> (r: bool)
        ensures
            r == self.tags_shortcut(*s),
    {
        match self {
            AddToSteamTarget::Decktricks => s.is_decktricks_shortcut(),
            AddToSteamTarget::Specific(c) => s.is_existing_trick_shortcut(c.trick_id.as_str()),
        }
    }
}

/// Where decktricks' launcher script lives, under the given home directory.
pub open spec fn spec_decktricks_bindir(homedir: Seq<char>) -> Seq<char> {
    homedir + "/.local/share/decktricks/bin"@
}

/// Whether the shortcut is the new one for the target: made as `Shortcut::new`
/// makes one, with the given order number, last played at the given time, and with
/// the target's tag as its only tag. Decktricks' shortcut launches its GUI script;
/// a trick's launches what its context says.
pub open spec fn made_shortcut(s: SteamShortcut, target: AddToSteamTarget, order: Seq<char>, now: u32, homedir: Seq<char>) -> bool {
    let (app_name, exe, start_dir, icon, shortcut_path, launch_options, tag) = match target {
        AddToSteamTarget::Decktricks => (
            "Decktricks"@,
            spec_decktricks_bindir(homedir) + "/decktricks-gui.sh"@,
            spec_decktricks_bindir(homedir),
            Seq::<char>::empty(),
            Seq::<char>::empty(),
            Seq::<char>::empty(),
            DECKTRICKS_NAME_STRING@,
        ),
        AddToSteamTarget::Specific(c) => (c.app_name@, c.exe@, c.start_dir@, c.icon@, c.shortcut_path@, c.launch_options@, spec_trick_tag(c.trick_id@)),
    };
    &&& s.order@ == order
    &&& s.app_id == spec_steam_app_id(exe, app_name)
    &&& s.app_name@ == app_name
    &&& s.exe@ == exe
    &&& s.start_dir@ == start_dir
    &&& s.icon@ == icon
    &&& s.shortcut_path@ == shortcut_path
    &&& s.launch_options@ == launch_options
    &&& !s.is_hidden && s.allow_desktop_config && s.allow_overlay
    &&& s.open_vr == 0 && s.dev_kit == 0 && s.dev_kit_game_id@.len() == 0 && s.dev_kit_overrite_app_id == 0
    &&& s.last_play_time == now
    &&& views(s.tags@) == seq![tag]
}

/// The new shortcut for the target (see `made_shortcut`).
pub fn create_shortcut(target: &AddToSteamTarget, desired_order_num: &str, now: u32, homedir: &str) -> (r: SteamShortcut)
    ensures
        made_shortcut(r, *target, desired_order_num@, now, homedir@),
{
    match target {
        AddToSteamTarget::Decktricks => {
            let bindir = concat2(homedir, "/.local/share/decktricks/bin");
            let exe = concat2(bindir.as_str(), "/decktricks-gui.sh");
            let mut s = SteamShortcut::new(desired_order_num, "Decktricks", exe.as_str(), bindir.as_str(), "", "", "");
            proof {
                reveal_strlit("");
            }
            s.last_play_time = now;
            let mut tags: Vec<String> = Vec::new();
            tags.push(owned(DECKTRICKS_NAME_STRING));
            assert(views(tags@) =~= seq![DECKTRICKS_NAME_STRING@]);
            s.tags = tags;
            assert(s.order@ == desired_order_num@);
            assert(s.app_id == spec_steam_app_id(spec_decktricks_bindir(homedir@) + "/decktricks-gui.sh"@, "Decktricks"@));
            assert(s.icon@ == Seq::<char>::empty());
            assert(s.last_play_time == now);
            assert(views(s.tags@) == seq![DECKTRICKS_NAME_STRING@]);
            s
        },
        AddToSteamTarget::Specific(c) => {
            let mut s = SteamShortcut::new(
                desired_order_num,
                c.app_name.as_str(),
                c.exe.as_str(),
                c.start_dir.as_str(),
                c.icon.as_str(),
                c.shortcut_path.as_str(),
                c.launch_options.as_str(),
            );
            s.last_play_time = now;
            let mut tags: Vec<String> = Vec::new();
            tags.push(trick_tag(c.trick_id.as_str()));
            assert(views(tags@) =~= seq![spec_trick_tag(c.trick_id@)]);
            s.tags = tags;
            s
        },
    }
}

// ---------------------------------------------------------------------------
// The shortcut files
// ---------------------------------------------------------------------------

/// Where Steam keeps the data of its users, under the given home directory.
pub open spec fn spec_userdata_path(homedir: Seq<char>) -> Seq<char> {
    homedir + "/.local/share/Steam/userdata"@
}

/// Where Steam keeps the data of its users, under the given home directory.
pub fn get_userdata_path(homedir: &str) -> (r: String)
    ensures
        r@ == spec_userdata_path(homedir@),
{
    concat2(homedir, "/.local/share/Steam/userdata")
}

/// A directory of Steam's user data that belongs to a user: its name is all ASCII
/// digits, and not `0`.
pub open spec fn spec_is_steam_userid(name: Seq<char>) -> bool {
    (forall|i: int| 0 <= i < name.len() ==> '0' <= #[trigger] name[i] <= '9') && name != "0"@
}

/// Whether a directory of Steam's user data belongs to a user.
pub fn is_steam_userid(name: &str) -> (r: bool)
    ensures
        r == spec_is_steam_userid(name@),
{
    let n = name.unicode_len();
    let mut i: usize = 0;
    while i < n
        invariant
            i <= n,
            n == name@.len(),
            forall|j: int| 0 <= j < i ==> '0' <= #[trigger] name@[j] <= '9',
        decreases n - i,
    {
        let c = name.get_char(i);
        if !('0' <= c && c <= '9') {
            return false;
        }
        i = i + 1;
    }
    !str_eq(name, "0")
}

/// The Steam users among the directories of Steam's user data, in the given
/// order; finding none is an error when it must not happen.
pub fn get_steam_userids(dir_names: &Vec<String>, fail_if_not_found: bool) -> (r: DeckResult<Vec<String>>)
    ensures
        match r {
            Ok(ids) => views(ids@) == views(dir_names@).filter(|n: Seq<char>| spec_is_steam_userid(n))
                && !(ids@.len() == 0 && fail_if_not_found),
            Err(e) => views(dir_names@).filter(|n: Seq<char>| spec_is_steam_userid(n)).len() == 0
                && fail_if_not_found && (e matches KnownError::AddToSteamError(m) && m@
                == "No Steam user directory found!"@),
        },
{
    let ghost pred = |n: Seq<char>| spec_is_steam_userid(n);
    let mut ids: Vec<String> = Vec::new();
    let mut i: usize = 0;
    while i < dir_names.len()
        invariant
            i <= dir_names@.len(),
            pred == (|n: Seq<char>| spec_is_steam_userid(n)),
            views(ids@) == views(dir_names@.subrange(0, i as int)).filter(pred),
        decreases dir_names@.len() - i,
    {
        proof {
            let sub = views(dir_names@.subrange(0, i + 1));
            assert(sub.drop_last() =~= views(dir_names@.subrange(0, i as int)));
            assert(sub.last() == dir_names@[i as int]@);
            reveal(Seq::filter);
        }
        if is_steam_userid(dir_names[i].as_str()) {
            let ghost before = ids@;
            ids.push(dir_names[i].clone());
            assert(views(ids@) =~= views(before).push(dir_names@[i as int]@));
        }
        i = i + 1;
    }
    assert(dir_names@.subrange(0, dir_names@.len() as int) =~= dir_names@);
    if ids.len() == 0 && fail_if_not_found {
        Err(KnownError::AddToSteamError(owned("No Steam user directory found!")))
    } else {
        Ok(ids)
    }
}

/// Where a Steam user's shortcuts are kept.
pub open spec fn spec_shortcuts_file(userdata_path: Seq<char>, userid: Seq<char>) -> Seq<char> {
    userdata_path + "/"@ + userid + "/config/shortcuts.vdf"@
}

/// Where a Steam user's shortcuts are kept.
pub fn shortcuts_file(userdata_path: &str, userid: &str) -> (r: String)
    ensures
        r@ == spec_shortcuts_file(userdata_path@, userid@),
{
    let mut r = concat3(userdata_path, "/", userid);
    push_str(&mut r, "/config/shortcuts.vdf");
    r
}

/// The shortcuts that a file's contents hold. A file that could not be read holds
/// none, unless it must be there; an empty file holds none; contents that do not
/// parse are an error. `read` is what reading the file gave: its bytes, or the
/// description of the error.
pub fn get_current_shortcuts_from_file(filename: &str, read: Result<Vec<u8>, String>, fail_if_not_found: bool) -> (r: DeckResult<Vec<SteamShortcut>>)
    ensures
        match read {
            Err(e) => if fail_if_not_found {
                r matches Err(KnownError::AddToSteamError(m)) && m@ == "Failed to read shortcuts from "@
                    + filename@ + ": "@ + e@
            } else {
                r matches Ok(v) && v@.len() == 0
            },
            Ok(bytes) => if bytes@.len() == 0 {
                r matches Ok(v) && v@.len() == 0
            } else {
                match spec_parsed_shortcuts(bytes@) {
                    Some(s) => r matches Ok(v) && v@ == s,
                    None => r matches Err(KnownError::AddToSteamError(m)) && exists|pe: Seq<char>|
                        m@ == "Error parsing shortcuts from "@ + filename@ + ": "@ + seq!['"']
                            + #[trigger] spec_escape(pe) + seq!['"'],
                }
            },
        },
{
    match read {
        Err(e) => {
            if fail_if_not_found {
                let mut m = concat3("Failed to read shortcuts from ", filename, ": ");
                push_str(&mut m, e.as_str());
                Err(KnownError::AddToSteamError(m))
            } else {
                Ok(Vec::new())
            }
        },
        Ok(bytes) => {
            if bytes.len() == 0 {
                Ok(Vec::new())
            } else {
                match parse_shortcut_bytes(bytes.as_slice()) {
                    Ok(v) => Ok(v),
                    Err(pe) => {
                        let q = quoted(pe.as_str());
                        let mut m = concat3("Error parsing shortcuts from ", filename, ": ");
                        push_str(&mut m, q.as_str());
                        assert(m@ == "Error parsing shortcuts from "@ + filename@ + ": "@ + seq!['"']
                            + spec_escape(pe@) + seq!['"']);
                        Err(KnownError::AddToSteamError(m))
                    },
                }
            }
        },
    }
}

/// The shortcuts of all the files, file after file.
pub open spec fn spec_all_shortcuts(files: Seq<(String, Vec<SteamShortcut>)>) -> Seq<SteamShortcut>
    decreases files.len(),
{
    if files.len() == 0 {
        Seq::empty()
    } else {
        spec_all_shortcuts(files.drop_last()) + files.last().1@
    }
}

/// Every shortcut that Steam's users have.
#[derive(Debug)]
pub struct AllKnownSteamShortcutsContext {
    pub shortcuts: Vec<SteamShortcut>,
}

impl AllKnownSteamShortcutsContext {
    /// The shortcuts of all the files, file after file.
    pub fn from_files(files: Vec<(String, Vec<SteamShortcut>)>) -> (r: Self)
        ensures
            r.shortcuts@ == spec_all_shortcuts(files@),
    {
        let ghost all = files@;
        let mut shortcuts: Vec<SteamShortcut> = Vec::new();
        let mut rest = reversed(files);
        let ghost mut f: int = 0;
        while rest.len() > 0
            invariant
                0 <= f <= all.len(),
                rest@.len() + f == all.len(),
                forall|k: int| 0 <= k < rest@.len() ==> rest@[k] == all[all.len() - 1 - k],
                shortcuts@ == spec_all_shortcuts(all.subrange(0, f)),
            decreases rest@.len(),
        {
            let (_, file_shortcuts) = rest.pop().unwrap();
            let ghost fs = file_shortcuts@;
            assert(fs == all[f].1@);
            let ghost before = shortcuts@;
            let mut items = reversed(file_shortcuts);
            let ghost mut i: int = 0;
            while items.len() > 0
                invariant
                    0 <= i <= fs.len(),
                    items@.len() + i == fs.len(),
                    forall|k: int| 0 <= k < items@.len() ==> items@[k] == fs[fs.len() - 1 - k],
                    shortcuts@ == before + fs.subrange(0, i),
                decreases items@.len(),
            {
                let s = items.pop().unwrap();
                shortcuts.push(s);
                assert(fs.subrange(0, i + 1) =~= fs.subrange(0, i).push(fs[i]));
                proof {
                    i = i + 1;
                }
            }
            proof {
                assert(fs.subrange(0, i) =~= fs);
                let sub = all.subrange(0, f + 1);
                assert(sub.drop_last() =~= all.subrange(0, f));
                assert(sub.last() == all[f]);
                f = f + 1;
            }
        }
        assert(all.subrange(0, all.len() as int) =~= all);
        AllKnownSteamShortcutsContext { shortcuts }
    }

    /// One of the shortcuts is the trick's.
    pub open spec fn has_shortcut_for(self, trick_id: Seq<char>) -> bool {
        exists|i: int| 0 <= i < self.shortcuts@.len() && contains_str(
            #[trigger] self.shortcuts@[i].tags@,
            spec_trick_tag(trick_id),
        )
    }

    /// Whether one of the shortcuts is the trick's.
    pub fn trick_has_existing_shortcut(&self, trick_id: &str) -> (r: bool)
        ensures
            r == self.has_shortcut_for(trick_id@),
    {
        let mut i: usize = 0;
        while i < self.shortcuts.len()
            invariant
                i <= self.shortcuts@.len(),
                forall|j: int| 0 <= j < i ==> !contains_str(#[trigger] self.shortcuts@[j].tags@, spec_trick_tag(trick_id@)),
            decreases self.shortcuts@.len() - i,
        {
            if self.shortcuts[i].is_existing_trick_shortcut(trick_id) {
                return true;
            }
            i = i + 1;
        }
        false
    }

    /// The tricks, among those given, that one of the shortcuts is for, in the
    /// given order.
    pub fn tricks_in_steam(&self, trick_ids: &Vec<String>) -> (r: Vec<String>)
        ensures
            r@ == trick_ids@.filter(|t: String| self.has_shortcut_for(t@)),
    {
        let ghost pred = |t: String| self.has_shortcut_for(t@);
        let mut r: Vec<String> = Vec::new();
        let mut j: usize = 0;
        while j < trick_ids.len()
            invariant
                j <= trick_ids@.len(),
                pred == (|t: String| self.has_shortcut_for(t@)),
                r@ == trick_ids@.subrange(0, j as int).filter(pred),
            decreases trick_ids@.len() - j,
        {
            proof {
                let sub = trick_ids@.subrange(0, j + 1);
                assert(sub.drop_last() =~= trick_ids@.subrange(0, j as int));
                assert(sub.last() == trick_ids@[j as int]);
                reveal(Seq::filter);
            }
            if self.trick_has_existing_shortcut(trick_ids[j].as_str()) {
                r.push(trick_ids[j].clone());
            }
            j = j + 1;
        }
        assert(trick_ids@.subrange(0, trick_ids@.len() as int) =~= trick_ids@);
        r
    }
}

// ---------------------------------------------------------------------------
// Adding
// ---------------------------------------------------------------------------

/// The shortcuts of a file that stay: all but the target's.
pub open spec fn spec_kept(shortcuts: Seq<SteamShortcut>, target: AddToSteamTarget) -> Seq<SteamShortcut> {
    shortcuts.filter(|s: SteamShortcut| !target.tags_shortcut(s))
}

/// The app ID of decktricks' own shortcut, under the given home directory.
pub open spec fn spec_decktricks_app_id(homedir: Seq<char>) -> u32 {
    spec_steam_app_id(spec_decktricks_bindir(homedir) + "/decktricks-gui.sh"@, "Decktricks"@)
}

/// Whether the bytes are those of a shortcut file whose target's shortcuts were
/// replaced by a new one at the end, with the next free order number.
pub open spec fn rewritten(
    bytes: Seq<u8>,
    shortcuts: Seq<SteamShortcut>,
    target: AddToSteamTarget,
    now: u32,
    homedir: Seq<char>,
) -> bool {
    exists|list: Seq<SteamShortcut>|
        #[trigger] spec_shortcut_file_bytes(list) == bytes && list.len() == spec_kept(shortcuts, target).len() + 1
            && list.drop_last() == spec_kept(shortcuts, target) && made_shortcut(
            list.last(),
            target,
            spec_desired_order_num(spec_kept(shortcuts, target)),
            now,
            homedir,
        )
}

/// What adding to Steam writes: the new bytes of each shortcut file, and, when
/// decktricks itself is added, the full app ID of its new shortcut as text.
#[derive(Debug)]
pub struct SteamWrites {
    pub shortcut_files: Vec<(String, Vec<u8>)>,
    pub full_appid: Option<String>,
}

proof fn lemma_kept_below_max(shortcuts: Seq<SteamShortcut>, target: AddToSteamTarget)
    requires
        orders_below_max(shortcuts),
    ensures
        orders_below_max(spec_kept(shortcuts, target)),
{
    let pred = |s: SteamShortcut| !target.tags_shortcut(s);
    let kept = shortcuts.filter(pred);
    assert forall|i: int| 0 <= i < kept.len() implies #[trigger] spec_order_value(kept[i]) < i64::MAX by {
        assert(kept.contains(kept[i]));
        shortcuts.lemma_filter_contains_rev(pred, kept[i]);
        let j = choose|j: int| 0 <= j < shortcuts.len() && shortcuts[j] == kept[i];
        assert(spec_order_value(shortcuts[j]) < i64::MAX);
    }
}

/// Adds the target to every Steam user's shortcuts. For each file, in order, the
/// target's shortcuts are taken out and a new one is put at the end, with one more
/// than the highest order number that stays; the file's new bytes are made. For
/// decktricks itself the full app ID of its new shortcut is written too, and with
/// no file to add it to, that is an error. `now` is when the shortcut was last
/// played: the time it is added.
pub fn add_to_steam_plan(target: &AddToSteamTarget, files: Vec<(String, Vec<SteamShortcut>)>, now: u32, homedir: &str) -> (r: DeckResult<(SteamWrites, ActionSuccess)>)
    requires
        forall|f: int| 0 <= f < files@.len() ==> orders_below_max(#[trigger] files@[f].1@),
    ensures
        r is Err <==> (target is Decktricks && files@.len() == 0),
        r matches Err(e) ==> (e matches KnownError::AddToSteamError(m) && m@
            == "Did not add Decktricks to Steam, so cannot write to file!"@),
        r matches Ok((w, s)) ==> {
            &&& w.shortcut_files@.len() == files@.len()
            &&& forall|f: int|
                0 <= f < files@.len() ==> #[trigger] w.shortcut_files@[f].0 == files@[f].0 && rewritten(
                    w.shortcut_files@[f].1@,
                    files@[f].1@,
                    *target,
                    now,
                    homedir@,
                )
            &&& match target {
                AddToSteamTarget::Decktricks => w.full_appid matches Some(a) && a@ == spec_decimal(
                    spec_full_appid(spec_decktricks_app_id(homedir@)) as nat,
                ),
                AddToSteamTarget::Specific(_) => w.full_appid is None,
            }
            &&& s.spec_message() matches Some(m) && m@ == "Successfully added \""@ + target.spec_name()
                + "\" to Steam."@
        },
{
    let ghost all = files@;
    let _count = files.len();
    let mut shortcut_files: Vec<(String, Vec<u8>)> = Vec::new();
    let mut newest_app_id: Option<u32> = None;
    let mut rest = reversed(files);
    let mut f: usize = 0;
    while rest.len() > 0
        invariant
            f <= all.len(),
            all.len() <= usize::MAX,
            rest@.len() + f == all.len(),
            forall|k: int| 0 <= k < rest@.len() ==> rest@[k] == all[all.len() - 1 - k],
            forall|g: int| 0 <= g < all.len() ==> orders_below_max(#[trigger] all[g].1@),
            shortcut_files@.len() == f,
            forall|g: int|
                0 <= g < f ==> #[trigger] shortcut_files@[g].0 == all[g].0 && rewritten(
                    shortcut_files@[g].1@,
                    all[g].1@,
                    *target,
                    now,
                    homedir@,
                ),
            f == 0 <==> newest_app_id is None,
            target is Decktricks ==> (newest_app_id matches Some(a) ==> a == spec_decktricks_app_id(homedir@)),
        decreases rest@.len(),
    {
        let (filename, shortcuts) = rest.pop().unwrap();
        let ghost fs = shortcuts@;
        assert(fs == all[f as int].1@);
        let ghost pred = |s: SteamShortcut| !target.tags_shortcut(s);
        let mut kept: Vec<SteamShortcut> = Vec::new();
        let mut items = reversed(shortcuts);
        let ghost mut i: int = 0;
        while items.len() > 0
            invariant
                0 <= i <= fs.len(),
                items@.len() + i == fs.len(),
                forall|k: int| 0 <= k < items@.len() ==> items@[k] == fs[fs.len() - 1 - k],
                pred == (|s: SteamShortcut| !target.tags_shortcut(s)),
                kept@ == fs.subrange(0, i).filter(pred),
            decreases items@.len(),
        {
            let s = items.pop().unwrap();
            proof {
                let sub = fs.subrange(0, i + 1);
                assert(sub.drop_last() =~= fs.subrange(0, i));
                assert(sub.last() == s);
                reveal(Seq::filter);
            }
            if !target.is_target_of(&s) {
                kept.push(s);
            }
            proof {
                i = i + 1;
            }
        }
        proof {
            assert(fs.subrange(0, i) =~= fs);
            lemma_kept_below_max(fs, *target);
        }
        let ghost kept_before = kept@;
        let order = get_desired_order_num(&kept);
        let new_shortcut = create_shortcut(target, order.as_str(), now, homedir);
        newest_app_id = Some(new_shortcut.app_id);
        kept.push(new_shortcut);
        let bytes = shortcut_file_bytes(&kept);
        proof {
            assert(kept@.drop_last() =~= kept_before);
            assert(spec_shortcut_file_bytes(kept@) == bytes@);
        }
        shortcut_files.push((filename, bytes));
        f = f + 1;
    }
    let full_appid = match target {
        AddToSteamTarget::Decktricks => match newest_app_id {
            Some(a) => Some(u64_to_decimal(get_full_appid(a))),
            None => {
                return Err(KnownError::AddToSteamError(owned("Did not add Decktricks to Steam, so cannot write to file!")));
            },
        },
        AddToSteamTarget::Specific(_) => None,
    };
    let name = target.name();
    let message = concat3("Successfully added \"", name.as_str(), "\" to Steam.");
    Ok((SteamWrites { shortcut_files, full_appid }, ActionSuccess::success(Some(message))))
}

/// Adds the target to every Steam user's shortcuts now (see `add_to_steam_plan`);
/// the new shortcut is last played at the current time.
pub fn add_to_steam(target: &AddToSteamTarget, files: Vec<(String, Vec<SteamShortcut>)>, homedir: &str) -> (r: DeckResult<(SteamWrites, ActionSuccess)>)
    requires
        forall|f: int| 0 <= f < files@.len() ==> orders_below_max(#[trigger] files@[f].1@),
    ensures
        r is Err <==> (target is Decktricks && files@.len() == 0),
        r matches Err(e) ==> (e matches KnownError::AddToSteamError(m) && m@
            == "Did not add Decktricks to Steam, so cannot write to file!"@),
        r matches Ok((w, s)) ==> exists|now: u32| #[trigger] all_rewritten(w.shortcut_files@, files@, *target, now, homedir@),
        r matches Ok((w, s)) ==> match target {
            AddToSteamTarget::Decktricks => w.full_appid matches Some(a) && a@ == spec_decimal(
                spec_full_appid(spec_decktricks_app_id(homedir@)) as nat,
            ),
            AddToSteamTarget::Specific(_) => w.full_appid is None,
        },
        r matches Ok((w, s)) ==> (s.spec_message() matches Some(m) && m@ == "Successfully added \""@
            + target.spec_name() + "\" to Steam."@),
{
    let now = current_unix_time();
    let r = add_to_steam_plan(target, files, now, homedir);
    proof {
        if r is Ok {
            assert(all_rewritten(r->Ok_0.0.shortcut_files@, files@, *target, now, homedir@));
        }
    }
    r
}

/// Every file was rewritten for the target (see `rewritten`).
pub open spec fn all_rewritten(
    written: Seq<(String, Vec<u8>)>,
    files: Seq<(String, Vec<SteamShortcut>)>,
    target: AddToSteamTarget,
    now: u32,
    homedir: Seq<char>,
) -> bool {
    &&& written.len() == files.len()
    &&& forall|f: int|
        0 <= f < files.len() ==> #[trigger] written[f].0 == files[f].0 && rewritten(
            written[f].1@,
            files[f].1@,
            target,
            now,
            homedir,
        )
}

/// The target's shortcuts in a file.
pub open spec fn target_count(shortcuts: Seq<SteamShortcut>, target: AddToSteamTarget) -> nat {
    shortcuts.filter(|s: SteamShortcut| target.tags_shortcut(s)).len()
}

/// After adding, a file holds exactly one shortcut of the target: the new one, at
/// the end. Adding again replaces it rather than adding a second.
pub proof fn law_one_shortcut_per_target(
    bytes: Seq<u8>,
    shortcuts: Seq<SteamShortcut>,
    target: AddToSteamTarget,
    now: u32,
    homedir: Seq<char>,
    list: Seq<SteamShortcut>,
)
    requires
        spec_shortcut_file_bytes(list) == bytes,
        list.len() == spec_kept(shortcuts, target).len() + 1,
        list.drop_last() == spec_kept(shortcuts, target),
        made_shortcut(list.last(), target, spec_desired_order_num(spec_kept(shortcuts, target)), now, homedir),
    ensures
        target_count(list, target) == 1,
        target.tags_shortcut(list.last()),
{
    let pred = |s: SteamShortcut| target.tags_shortcut(s);
    let kept_pred = |s: SteamShortcut| !target.tags_shortcut(s);
    let kept = shortcuts.filter(kept_pred);
    let last = list.last();
    assert(views(last.tags@) =~= seq![match target {
        AddToSteamTarget::Decktricks => DECKTRICKS_NAME_STRING@,
        AddToSteamTarget::Specific(c) => spec_trick_tag(c.trick_id@),
    }]);
    assert(last.tags@[0]@ == views(last.tags@)[0]);
    assert(target.tags_shortcut(last));
    assert forall|i: int| 0 <= i < kept.len() implies !pred(#[trigger] kept[i]) by {
        shortcuts.lemma_filter_pred(kept_pred, i);
    }
    assert(kept.filter(pred) =~= Seq::<SteamShortcut>::empty()) by {
        lemma_filter_none(kept, pred);
    }
    assert(list =~= kept.push(last));
    reveal(Seq::filter);
    assert(list.drop_last() =~= kept);
    assert(list.filter(pred) == kept.filter(pred).push(last));
}

proof fn lemma_filter_none(s: Seq<SteamShortcut>, pred: spec_fn(SteamShortcut) -> bool)
    requires
        forall|i: int| 0 <= i < s.len() ==> !pred(#[trigger] s[i]),
    ensures
        s.filter(pred) =~= Seq::<SteamShortcut>::empty(),
    decreases s.len(),
{
    reveal(Seq::filter);
    if s.len() > 0 {
        assert forall|i: int| 0 <= i < s.drop_last().len() implies !pred(#[trigger] s.drop_last()[i]) by {
            assert(s.drop_last()[i] == s[i]);
        }
        lemma_filter_none(s.drop_last(), pred);
        assert(!pred(s[s.len() - 1]));
    }
}

} // verus!
