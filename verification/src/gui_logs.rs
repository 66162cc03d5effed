//! The logs that a graphical interface shows: entries kept per log channel, put
//! in order for display, or turned into text for a dump.
use crate::command::LogType;
use crate::logging::LogChannel;
use crate::text::{join, join_strings, str_eq, lemma_lt_asymmetric, lemma_lt_irreflexive, lemma_lt_total,
    lemma_lt_transitive, seq_lt, str_lt, views};
use vstd::prelude::*;

verus! {

/// A log entry: when it was made (as a count of ticks of a clock that only goes
/// forward), its level and its text.
#[derive(Debug)]
pub struct StoredLogEntry {
    pub timestamp: u64,
    pub log_type: LogType,
    pub text: String,
}

impl StoredLogEntry {
    /// The text shown for the entry: its text alone.
    pub fn to_string(&self) -> (r: String)
        ensures
            r@ == self.text@,
    {
        self.text.clone()
    }
}

/// The order of entries: by time, then by level, then by text.
pub open spec fn entry_lt(a: StoredLogEntry, b: StoredLogEntry) -> bool {
    ||| a.timestamp < b.timestamp
    ||| (a.timestamp == b.timestamp && a.log_type.level() < b.log_type.level())
    ||| (a.timestamp == b.timestamp && a.log_type.level() == b.log_type.level() && seq_lt(a.text@, b.text@))
}

proof fn lemma_entry_lt_transitive(a: StoredLogEntry, b: StoredLogEntry, c: StoredLogEntry)
    requires
        entry_lt(a, b),
        entry_lt(b, c),
    ensures
        entry_lt(a, c),
{
    if a.timestamp == b.timestamp && b.timestamp == c.timestamp && a.log_type.level() == b.log_type.level()
        && b.log_type.level() == c.log_type.level() {
        lemma_lt_transitive(a.text@, b.text@, c.text@);
    }
}

proof fn lemma_entry_lt_asymmetric(a: StoredLogEntry, b: StoredLogEntry)
    requires
        entry_lt(a, b),
    ensures
        !entry_lt(b, a),
{
    if a.timestamp == b.timestamp && a.log_type.level() == b.log_type.level() {
        lemma_lt_asymmetric(a.text@, b.text@);
    }
}

/// Whether `a` comes before `b`.
fn entry_lt_exec(a: &StoredLogEntry, b: &StoredLogEntry) -> (r: bool)
    ensures
        r == entry_lt(*a, *b),
{
    let la = a.log_type.as_level();
    let lb = b.log_type.as_level();
    a.timestamp < b.timestamp || (a.timestamp == b.timestamp && la < lb) || (a.timestamp == b.timestamp
        && la == lb && str_lt(a.text.as_str(), b.text.as_str()))
}

/// The entries are in order: none comes before one placed ahead of it.
pub open spec fn sorted_entries(s: Seq<StoredLogEntry>) -> bool {
    forall|i: int, j: int| 0 <= i < j < s.len() ==> !entry_lt(#[trigger] s[j], #[trigger] s[i])
}

/// The entries in order (see `entry_lt`): the same entries, each as often.
pub fn sort_entries(v: Vec<StoredLogEntry>) -> (r: Vec<StoredLogEntry>)
    ensures
        sorted_entries(r@),
        r@.to_multiset() == v@.to_multiset(),
{
    broadcast use vstd::multiset::group_multiset_axioms;
    let ghost orig = v@;
    let mut rest = v;
    let mut r: Vec<StoredLogEntry> = Vec::new();
    proof {
        vstd::seq_lib::to_multiset_len(r@);
        vstd::multiset::lemma_multiset_empty_len(r@.to_multiset());
        assert(r@.to_multiset().add(rest@.to_multiset()) =~= orig.to_multiset());
    }
    while rest.len() > 0
        invariant
            sorted_entries(r@),
            r@.to_multiset().add(rest@.to_multiset()) == orig.to_multiset(),
        decreases rest@.len(),
    {
        let ghost before_rest = rest@;
        let x = rest.pop().unwrap();
        proof {
            assert(before_rest =~= rest@.push(x));
            vstd::seq_lib::to_multiset_build(rest@, x);
        }
        let mut k: usize = 0;
        while k < r.len() && !entry_lt_exec(&x, &r[k])
            invariant
                k <= r@.len(),
                forall|j: int| 0 <= j < k ==> !entry_lt(x, #[trigger] r@[j]),
            decreases r@.len() - k,
        {
            k = k + 1;
        }
        let ghost old_r = r@;
        r.insert(k, x);
        proof {
            let nr = r@;
            assert(nr =~= old_r.insert(k as int, x));
            vstd::seq_lib::to_multiset_insert(old_r, k as int, x);
            assert forall|i: int, j: int| 0 <= i < j < nr.len() implies !entry_lt(#[trigger] nr[j], #[trigger] nr[i]) by {
                if j < k {
                    assert(nr[i] == old_r[i] && nr[j] == old_r[j]);
                } else if j == k {
                    assert(nr[i] == old_r[i]);
                } else if i == k {
                    assert(nr[j] == old_r[j - 1]);
                    if entry_lt(old_r[j - 1], x) {
                        assert(entry_lt(x, old_r[k as int]));
                        if j - 1 > k {
                            assert(!entry_lt(old_r[j - 1], old_r[k as int]));
                            lemma_entry_lt_transitive(old_r[j - 1], x, old_r[k as int]);
                        } else {
                            lemma_entry_lt_asymmetric(x, old_r[k as int]);
                        }
                    }
                } else if i < k {
                    assert(nr[i] == old_r[i] && nr[j] == old_r[j - 1]);
                } else {
                    assert(nr[i] == old_r[i - 1] && nr[j] == old_r[j - 1]);
                }
            }
            assert(r@.to_multiset().add(rest@.to_multiset()) =~= old_r.to_multiset().add(
                before_rest.to_multiset(),
            ));
        }
    }
    proof {
        vstd::seq_lib::to_multiset_len(rest@);
        vstd::multiset::lemma_multiset_empty_len(rest@.to_multiset());
        assert(r@.to_multiset().add(rest@.to_multiset()) =~= r@.to_multiset());
    }
    r
}

/// The logs of a graphical interface, put in order: every entry in order of time,
/// the general channel's entries, and each trick's entries by trick ID.
#[derive(Debug)]
pub struct ParsedLogsLatest {
    pub all: Vec<StoredLogEntry>,
    pub general: Vec<StoredLogEntry>,
    pub tricks: Vec<(String, Vec<StoredLogEntry>)>,
}

/// The logs of a graphical interface as text, for a dump.
#[derive(Debug)]
pub struct ParsedLogsForDumps {
    pub all: String,
    pub general: String,
    pub tricks: Vec<(String, String)>,
}

/// The trick IDs are in strictly increasing order.
pub open spec fn sorted_by_key<V>(s: Seq<(String, V)>) -> bool {
    forall|i: int, j: int| 0 <= i < j < s.len() ==> seq_lt(#[trigger] s[i].0@, #[trigger] s[j].0@)
}

/// The channels' entries, one channel after the other.
pub open spec fn all_entries_of(channels: Seq<(LogChannel, Vec<StoredLogEntry>)>) -> Seq<StoredLogEntry>
    decreases channels.len(),
{
    if channels.len() == 0 {
        Seq::empty()
    } else {
        all_entries_of(channels.drop_last()) + channels.last().1@
    }
}

/// The channels of tricks, with their entries, in the order given.
pub open spec fn trick_channels_of(channels: Seq<(LogChannel, Vec<StoredLogEntry>)>) -> Seq<(Seq<char>, Seq<StoredLogEntry>)>
    decreases channels.len(),
{
    if channels.len() == 0 {
        Seq::empty()
    } else {
        let rest = trick_channels_of(channels.drop_last());
        match channels.last().0 {
            LogChannel::TrickID(id) => rest.push((id@, channels.last().1@)),
            _ => rest,
        }
    }
}

/// The entries of the general channel: those of its last appearance, or none.
pub open spec fn general_entries_of(channels: Seq<(LogChannel, Vec<StoredLogEntry>)>) -> Seq<StoredLogEntry>
    decreases channels.len(),
{
    if channels.len() == 0 {
        Seq::empty()
    } else {
        match channels.last().0 {
            LogChannel::General => channels.last().1@,
            _ => general_entries_of(channels.drop_last()),
        }
    }
}

/// Two channels are the same channel.
pub open spec fn same_channel(a: LogChannel, b: LogChannel) -> bool {
    match (a, b) {
        (LogChannel::General, LogChannel::General) => true,
        (LogChannel::TrickID(x), LogChannel::TrickID(y)) => x@ == y@,
        (LogChannel::IgnoreCompletelyAlways, LogChannel::IgnoreCompletelyAlways) => true,
        _ => false,
    }
}

/// The list holds exactly the channels of tricks, each once, with their entries.
pub open spec fn lists_trick_channels(tricks: Seq<(String, Vec<StoredLogEntry>)>, channels: Seq<(LogChannel, Vec<StoredLogEntry>)>) -> bool {
    &&& forall|i: int| 0 <= i < tricks.len() ==> channel_listed(channels, #[trigger] tricks[i])
    &&& forall|k: int| 0 <= k < channels.len() ==> trick_listed(tricks, #[trigger] channels[k])
}

/// The trick's entries are those of one of the channels.
pub open spec fn channel_listed(channels: Seq<(LogChannel, Vec<StoredLogEntry>)>, t: (String, Vec<StoredLogEntry>)) -> bool {
    exists|k: int| 0 <= k < channels.len() && channels[k].0 == LogChannel::TrickID(t.0) && channels[k].1@ == t.1@
}

/// A trick's channel is in the list, with its entries.
pub open spec fn trick_listed(tricks: Seq<(String, Vec<StoredLogEntry>)>, c: (LogChannel, Vec<StoredLogEntry>)) -> bool {
    c.0 matches LogChannel::TrickID(id) ==> exists|i: int| 0 <= i < tricks.len() && tricks[i].0 == id && tricks[i].1@ == c.1@
}

/// Puts a trick's channel into the list, in order of trick IDs.
fn insert_by_id<V>(v: &mut Vec<(String, V)>, item: (String, V))
    requires
        sorted_by_key(old(v)@),
        forall|i: int| 0 <= i < old(v)@.len() ==> #[trigger] old(v)@[i].0@ != item.0@,
    ensures
        sorted_by_key(final(v)@),
        exists|k: int| 0 <= k <= old(v)@.len() && final(v)@ == old(v)@.insert(k, item),
{
    let ghost old_v = v@;
    let mut k: usize = 0;
    while k < v.len() && str_lt(v[k].0.as_str(), item.0.as_str())
        invariant
            k <= v@.len(),
            v@ == old_v,
            forall|j: int| 0 <= j < k ==> seq_lt(#[trigger] v@[j].0@, item.0@),
        decreases v@.len() - k,
    {
        k = k + 1;
    }
    let ghost key = item.0@;
    proof {
        if k < old_v.len() {
            lemma_lt_total(old_v[k as int].0@, item.0@);
            assert(old_v[k as int].0@ != key);
            assert(seq_lt(key, old_v[k as int].0@));
        }
        assert forall|j: int| 0 <= j < k implies seq_lt(#[trigger] old_v[j].0@, key) by {}
    }
    v.insert(k, item);
    proof {
        assert(v@ =~= old_v.insert(k as int, item));
        assert forall|i: int, j: int| 0 <= i < j < v@.len() implies seq_lt(#[trigger] v@[i].0@, #[trigger] v@[j].0@) by {
            if i < k && j == k {
                assert(v@[i] == old_v[i]);
                assert(seq_lt(old_v[i].0@, key));
            } else if i < k && j > k {
                assert(v@[i] == old_v[i] && v@[j] == old_v[j - 1]);
                lemma_lt_transitive(old_v[i].0@, key, old_v[k as int].0@);
                if j - 1 > k {
                    lemma_lt_transitive(old_v[i].0@, old_v[k as int].0@, old_v[j - 1].0@);
                }
            } else if i == k {
                assert(v@[j] == old_v[j - 1]);
                if j - 1 > k {
                    lemma_lt_transitive(key, old_v[k as int].0@, old_v[j - 1].0@);
                }
            } else if i > k {
                assert(v@[i] == old_v[i - 1] && v@[j] == old_v[j - 1]);
            }
        }
    }
}

/// Puts the kept logs in order for display. `channels` holds each channel once,
/// with its entries in the order they were made. Every entry comes in `all`, in
/// order (see `entry_lt`); the general channel's entries come in `general`; each
/// trick's channel comes in `tricks`, in order of trick IDs.
pub fn prep_logs_for_display(channels: Vec<(LogChannel, Vec<StoredLogEntry>)>) -> (r: ParsedLogsLatest)
    requires
        forall|i: int, j: int|
            0 <= i < j < channels@.len() ==> !same_channel(#[trigger] channels@[i].0, #[trigger] channels@[j].0),
    ensures
        sorted_entries(r.all@),
        r.all@.to_multiset() == all_entries_of(channels@).to_multiset(),
        r.general@ == general_entries_of(channels@),
        sorted_by_key(r.tricks@),
        lists_trick_channels(r.tricks@, channels@),
{
    broadcast use vstd::multiset::group_multiset_axioms;
    let ghost orig = channels@;
    let mut all: Vec<StoredLogEntry> = Vec::new();
    let mut general: Vec<StoredLogEntry> = Vec::new();
    let mut tricks: Vec<(String, Vec<StoredLogEntry>)> = Vec::new();
    let mut rest = crate::tricks_config::reversed(channels);
    let ghost mut n: int = 0;
    while rest.len() > 0
        invariant
            0 <= n <= orig.len(),
            rest@.len() + n == orig.len(),
            forall|k: int| 0 <= k < rest@.len() ==> rest@[k] == orig[orig.len() - 1 - k],
            forall|i: int, j: int| 0 <= i < j < orig.len() ==> !same_channel(#[trigger] orig[i].0, #[trigger] orig[j].0),
            all@ == all_entries_of(orig.subrange(0, n)),
            general@ == general_entries_of(orig.subrange(0, n)),
            sorted_by_key(tricks@),
            lists_trick_channels(tricks@, orig.subrange(0, n)),
        decreases rest@.len(),
    {
        let (channel, entries) = rest.pop().unwrap();
        let ghost sub = orig.subrange(0, n + 1);
        proof {
            assert(sub.drop_last() =~= orig.subrange(0, n));
            assert(sub.last() == orig[n]);
            assert(orig[n] == (channel, entries));
        }
        let mut i: usize = 0;
        let ghost all_before = all@;
        while i < entries.len()
            invariant
                i <= entries@.len(),
                all@ == all_before + entries@.subrange(0, i as int),
            decreases entries@.len() - i,
        {
            all.push(entries[i].clone_entry());
            assert(entries@.subrange(0, i + 1) =~= entries@.subrange(0, i as int).push(entries@[i as int]));
            i = i + 1;
        }
        assert(entries@.subrange(0, entries@.len() as int) =~= entries@);
        proof {
            if !(channel is TrickID) {
                let prev = orig.subrange(0, n);
                assert forall|k: int| 0 <= k < sub.len() implies trick_listed(tricks@, #[trigger] sub[k]) by {
                    if k < n {
                        assert(sub[k] == prev[k]);
                        assert(trick_listed(tricks@, prev[k]));
                    }
                }
                assert forall|i: int| 0 <= i < tricks@.len() implies channel_listed(sub, #[trigger] tricks@[i]) by {
                    assert(channel_listed(prev, tricks@[i]));
                    let k = choose|k: int| 0 <= k < prev.len() && prev[k].0 == LogChannel::TrickID(tricks@[i].0)
                        && prev[k].1@ == tricks@[i].1@;
                    assert(sub[k] == prev[k]);
                }
            }
        }
        match channel {
            LogChannel::General => {
                general = entries;
            },
            LogChannel::TrickID(trick_id) => {
                let ghost before = tricks@;
                let ghost prev = orig.subrange(0, n);
                proof {
                    assert forall|i: int| 0 <= i < before.len() implies #[trigger] before[i].0@ != trick_id@ by {
                        assert(channel_listed(prev, before[i]));
                        let k = choose|k: int| 0 <= k < prev.len() && prev[k].0 == LogChannel::TrickID(before[i].0)
                            && prev[k].1@ == before[i].1@;
                        if before[i].0@ == trick_id@ {
                            assert(orig[k] == prev[k]);
                            assert(same_channel(orig[k].0, orig[n].0));
                        }
                    }
                }
                let ghost item = (trick_id, entries);
                insert_by_id(&mut tricks, (trick_id, entries));
                proof {
                    let pos = choose|k: int| 0 <= k <= before.len() && tricks@ == before.insert(k, item);
                    assert forall|i: int| 0 <= i < tricks@.len() implies channel_listed(sub, #[trigger] tricks@[i]) by {
                        if i == pos {
                            assert(sub[n].0 == LogChannel::TrickID(tricks@[i].0));
                        } else {
                            let bi = if i < pos { i } else { i - 1 };
                            assert(tricks@[i] == before[bi]);
                            assert(channel_listed(prev, before[bi]));
                            let k = choose|k: int| 0 <= k < prev.len() && prev[k].0 == LogChannel::TrickID(before[bi].0)
                                && prev[k].1@ == before[bi].1@;
                            assert(sub[k] == prev[k]);
                        }
                    }
                    assert forall|k: int| 0 <= k < sub.len() implies trick_listed(tricks@, #[trigger] sub[k]) by {
                        if k == n {
                            assert(tricks@[pos] == item);
                        } else {
                            assert(sub[k] == prev[k]);
                            assert(trick_listed(before, prev[k]));
                            if let LogChannel::TrickID(id) = sub[k].0 {
                                let i = choose|i: int| 0 <= i < before.len() && before[i].0 == id && before[i].1@ == prev[k].1@;
                                if i < pos {
                                    assert(tricks@[i] == before[i]);
                                } else {
                                    assert(tricks@[i + 1] == before[i]);
                                }
                            }
                        }
                    }
                }
            },
            LogChannel::IgnoreCompletelyAlways => {},
        }
        proof {
            n = n + 1;
        }
    }
    assert(orig.subrange(0, n) =~= orig);
    let all = sort_entries(all);
    ParsedLogsLatest { all, general, tricks }
}

impl StoredLogEntry {
    /// A copy of the entry.
    pub fn clone_entry(&self) -> (r: Self)
        ensures
            r == *self,
    {
        StoredLogEntry { timestamp: self.timestamp, log_type: self.log_type, text: self.text.clone() }
    }
}

/// The texts of entries, one per line.
pub open spec fn spec_entries_text(entries: Seq<StoredLogEntry>) -> Seq<char> {
    join(entries.map_values(|e: StoredLogEntry| e.text@), "\n"@)
}

/// The texts of entries, one per line.
pub fn entries_text(entries: &Vec<StoredLogEntry>) -> (r: String)
    ensures
        r@ == spec_entries_text(entries@),
{
    let mut texts: Vec<String> = Vec::new();
    let mut i: usize = 0;
    while i < entries.len()
        invariant
            i <= entries@.len(),
            views(texts@) == entries@.subrange(0, i as int).map_values(|e: StoredLogEntry| e.text@),
        decreases entries@.len() - i,
    {
        let ghost before = texts@;
        texts.push(entries[i].to_string());
        assert(views(texts@) =~= views(before).push(entries@[i as int].text@));
        assert(views(texts@) =~= entries@.subrange(0, i + 1).map_values(|e: StoredLogEntry| e.text@));
        i = i + 1;
    }
    assert(entries@.subrange(0, entries@.len() as int) =~= entries@);
    join_strings(&texts, "\n")
}

/// The trick's text is that of one of the channels.
pub open spec fn dump_listed(channels: Seq<(LogChannel, Vec<StoredLogEntry>)>, d: (String, String)) -> bool {
    exists|k: int| 0 <= k < channels.len() && channels[k].0 == LogChannel::TrickID(d.0) && d.1@ == spec_entries_text(channels[k].1@)
}

/// A trick's channel has its text in the dump.
pub open spec fn dump_has(tricks: Seq<(String, String)>, c: (LogChannel, Vec<StoredLogEntry>)) -> bool {
    c.0 matches LogChannel::TrickID(id) ==> exists|i: int| 0 <= i < tricks.len() && tricks[i].0 == id && tricks[i].1@ == spec_entries_text(c.1@)
}

/// Turns the kept logs into text for a dump: every entry's text in order (see
/// `entry_lt`), one per line; the general channel's; and each trick's, in order
/// of trick IDs. `channels` holds each channel once, with its entries in the order
/// they were made.
pub fn prep_logs_for_dump(channels: Vec<(LogChannel, Vec<StoredLogEntry>)>) -> (r: ParsedLogsForDumps)
    requires
        forall|i: int, j: int|
            0 <= i < j < channels@.len() ==> !same_channel(#[trigger] channels@[i].0, #[trigger] channels@[j].0),
    ensures
        exists|sorted: Seq<StoredLogEntry>|
            #[trigger] sorted_entries(sorted) && sorted.to_multiset() == all_entries_of(channels@).to_multiset()
                && r.all@ == spec_entries_text(sorted),
        r.general@ == spec_entries_text(general_entries_of(channels@)),
        sorted_by_key(r.tricks@),
        forall|i: int| 0 <= i < r.tricks@.len() ==> dump_listed(channels@, #[trigger] r.tricks@[i]),
        forall|k: int| 0 <= k < channels@.len() ==> dump_has(r.tricks@, #[trigger] channels@[k]),
{
    let ghost input = channels@;
    let parsed = prep_logs_for_display(channels);
    let all = entries_text(&parsed.all);
    let general = entries_text(&parsed.general);
    let mut tricks: Vec<(String, String)> = Vec::new();
    let mut i: usize = 0;
    while i < parsed.tricks.len()
        invariant
            i <= parsed.tricks@.len(),
            sorted_by_key(parsed.tricks@),
            lists_trick_channels(parsed.tricks@, input),
            tricks@.len() == i,
            forall|j: int| 0 <= j < i ==> #[trigger] tricks@[j].0 == parsed.tricks@[j].0 && tricks@[j].1@
                == spec_entries_text(parsed.tricks@[j].1@),
        decreases parsed.tricks@.len() - i,
    {
        let text = entries_text(&parsed.tricks[i].1);
        tricks.push((parsed.tricks[i].0.clone(), text));
        i = i + 1;
    }
    proof {
        assert forall|a: int, b: int| 0 <= a < b < tricks@.len() implies seq_lt(#[trigger] tricks@[a].0@, #[trigger] tricks@[b].0@) by {
            assert(seq_lt(parsed.tricks@[a].0@, parsed.tricks@[b].0@));
        }
        assert forall|j: int| 0 <= j < tricks@.len() implies dump_listed(input, #[trigger] tricks@[j]) by {
            assert(channel_listed(input, parsed.tricks@[j]));
        }
        assert forall|k: int| 0 <= k < input.len() implies dump_has(tricks@, #[trigger] input[k]) by {
            assert(trick_listed(parsed.tricks@, input[k]));
            if let LogChannel::TrickID(id) = input[k].0 {
                let i = choose|i: int| 0 <= i < parsed.tricks@.len() && parsed.tricks@[i].0 == id
                    && parsed.tricks@[i].1@ == input[k].1@;
                assert(tricks@[i].0 == id);
                assert(tricks@[i].1@ == spec_entries_text(parsed.tricks@[i].1@));
            }
        }
        assert(sorted_entries(parsed.all@));
    }
    ParsedLogsForDumps { all, general, tricks }
}

// ---------------------------------------------------------------------------
// The log store
// ---------------------------------------------------------------------------

/// Each channel comes at most once.
pub open spec fn distinct_channels(v: Seq<(LogChannel, Vec<StoredLogEntry>)>) -> bool {
    forall|i: int, j: int| 0 <= i < j < v.len() ==> !same_channel(#[trigger] v[i].0, #[trigger] v[j].0)
}

/// The channel has a place in the list.
pub open spec fn has_channel(v: Seq<(LogChannel, Vec<StoredLogEntry>)>, c: LogChannel) -> bool {
    exists|i: int| 0 <= i < v.len() && same_channel(#[trigger] v[i].0, c)
}

/// The entries kept for a channel: those in its place in the list, or none.
pub open spec fn entries_for(v: Seq<(LogChannel, Vec<StoredLogEntry>)>, c: LogChannel) -> Seq<StoredLogEntry> {
    if has_channel(v, c) {
        v[choose|i: int| 0 <= i < v.len() && same_channel(#[trigger] v[i].0, c)].1@
    } else {
        Seq::empty()
    }
}

proof fn lemma_entries_at(v: Seq<(LogChannel, Vec<StoredLogEntry>)>, c: LogChannel, i: int)
    requires
        distinct_channels(v),
        0 <= i < v.len(),
        same_channel(v[i].0, c),
    ensures
        entries_for(v, c) == v[i].1@,
{
    assert(has_channel(v, c));
    let j = choose|j: int| 0 <= j < v.len() && same_channel(#[trigger] v[j].0, c);
    assert(same_channel(v[i].0, v[j].0));
    if i < j {
        assert(!same_channel(v[i].0, v[j].0));
    } else if j < i {
        assert(!same_channel(v[j].0, v[i].0));
    }
}

/// Whether two channels are the same channel.
pub fn is_same_channel(a: &LogChannel, b: &LogChannel) -> (r: bool)
    ensures
        r == same_channel(*a, *b),
{
    match (a, b) {
        (LogChannel::General, LogChannel::General) => true,
        (LogChannel::TrickID(x), LogChannel::TrickID(y)) => str_eq(x.as_str(), y.as_str()),
        (LogChannel::IgnoreCompletelyAlways, LogChannel::IgnoreCompletelyAlways) => true,
        _ => false,
    }
}

/// Adds an entry at the end of a channel's entries; a channel not yet in the list
/// is added at its end.
fn append_entry(v: &mut Vec<(LogChannel, Vec<StoredLogEntry>)>, c: LogChannel, e: StoredLogEntry)
    requires
        distinct_channels(old(v)@),
    ensures
        distinct_channels(final(v)@),
        forall|k: LogChannel| #[trigger] entries_for(final(v)@, k) == if same_channel(k, c) {
            entries_for(old(v)@, k).push(e)
        } else {
            entries_for(old(v)@, k)
        },
{
    let ghost old_v = v@;
    let mut i: usize = 0;
    while i < v.len() && !is_same_channel(&v[i].0, &c)
        invariant
            v@ == old_v,
            i <= v@.len(),
            forall|j: int| 0 <= j < i ==> !same_channel(#[trigger] v@[j].0, c),
        decreases v@.len() - i,
    {
        i = i + 1;
    }
    if i < v.len() {
        let (ch, mut entries) = v.remove(i);
        entries.push(e);
        v.insert(i, (ch, entries));
        proof {
            assert(v@ =~= old_v.update(i as int, (old_v[i as int].0, v@[i as int].1)));
            assert(distinct_channels(v@)) by {
                assert forall|a: int, b: int| 0 <= a < b < v@.len() implies !same_channel(#[trigger] v@[a].0, #[trigger] v@[b].0) by {
                    assert(!same_channel(old_v[a].0, old_v[b].0));
                }
            }
            assert forall|k: LogChannel| #[trigger] entries_for(v@, k) == if same_channel(k, c) {
                entries_for(old_v, k).push(e)
            } else {
                entries_for(old_v, k)
            } by {
                if same_channel(k, c) {
                    lemma_entries_at(v@, k, i as int);
                    lemma_entries_at(old_v, k, i as int);
                } else if has_channel(old_v, k) {
                    let j = choose|j: int| 0 <= j < old_v.len() && same_channel(#[trigger] old_v[j].0, k);
                    lemma_entries_at(old_v, k, j);
                    assert(j != i);
                    lemma_entries_at(v@, k, j);
                } else {
                    assert(!has_channel(v@, k));
                }
            }
        }
        return;
    }
    let ghost ch = c;
    v.push((c, vec![e]));
    proof {
        let n = old_v.len() as int;
        assert(v@ =~= old_v.push((ch, v@[n].1)));
        assert(v@[n].1@ =~= seq![e]);
        assert(distinct_channels(v@)) by {
            assert forall|a: int, b: int| 0 <= a < b < v@.len() implies !same_channel(#[trigger] v@[a].0, #[trigger] v@[b].0) by {
                if b == n {
                    assert(!same_channel(old_v[a].0, ch));
                }
            }
        }
        assert forall|k: LogChannel| #[trigger] entries_for(v@, k) == if same_channel(k, ch) {
            entries_for(old_v, k).push(e)
        } else {
            entries_for(old_v, k)
        } by {
            if same_channel(k, ch) {
                lemma_entries_at(v@, k, n);
                assert(!has_channel(old_v, k)) by {
                    if has_channel(old_v, k) {
                        let j = choose|j: int| 0 <= j < old_v.len() && same_channel(#[trigger] old_v[j].0, k);
                        assert(same_channel(old_v[j].0, ch));
                    }
                }
                assert(seq![e] =~= Seq::<StoredLogEntry>::empty().push(e));
            } else if has_channel(old_v, k) {
                let j = choose|j: int| 0 <= j < old_v.len() && same_channel(#[trigger] old_v[j].0, k);
                lemma_entries_at(old_v, k, j);
                lemma_entries_at(v@, k, j);
            } else {
                assert(!has_channel(v@, k));
            }
        }
    }
}

/// The two lists hold the same channels with the same entries, place by place.
pub open spec fn same_logs(a: Seq<(LogChannel, Vec<StoredLogEntry>)>, b: Seq<(LogChannel, Vec<StoredLogEntry>)>) -> bool {
    &&& a.len() == b.len()
    &&& forall|i: int| 0 <= i < a.len() ==> #[trigger] a[i].0 == b[i].0 && a[i].1@ == b[i].1@
}

proof fn lemma_same_logs_agree(a: Seq<(LogChannel, Vec<StoredLogEntry>)>, b: Seq<(LogChannel, Vec<StoredLogEntry>)>)
    requires
        same_logs(a, b),
    ensures
        all_entries_of(a) == all_entries_of(b),
        general_entries_of(a) == general_entries_of(b),
    decreases a.len(),
{
    if a.len() > 0 {
        lemma_same_logs_agree(a.drop_last(), b.drop_last());
        assert(a.last().0 == b.last().0);
    }
}

/// A copy of the kept logs.
fn copy_logs(v: &Vec<(LogChannel, Vec<StoredLogEntry>)>) -> (r: Vec<(LogChannel, Vec<StoredLogEntry>)>)
    ensures
        same_logs(r@, v@),
{
    let mut r: Vec<(LogChannel, Vec<StoredLogEntry>)> = Vec::new();
    let mut i: usize = 0;
    while i < v.len()
        invariant
            i <= v@.len(),
            r@.len() == i,
            forall|j: int| 0 <= j < i ==> #[trigger] r@[j].0 == v@[j].0 && r@[j].1@ == v@[j].1@,
        decreases v@.len() - i,
    {
        let entries = &v[i].1;
        let mut copy: Vec<StoredLogEntry> = Vec::new();
        let mut j: usize = 0;
        while j < entries.len()
            invariant
                j <= entries@.len(),
                copy@ == entries@.subrange(0, j as int),
            decreases entries@.len() - j,
        {
            copy.push(entries[j].clone_entry());
            assert(entries@.subrange(0, j + 1) =~= entries@.subrange(0, j as int).push(entries@[j as int]));
            j = j + 1;
        }
        assert(entries@.subrange(0, entries@.len() as int) =~= entries@);
        r.push((v[i].0.duplicate(), copy));
        i = i + 1;
    }
    r
}

/// The logs kept by a graphical interface, per channel: the entries not yet shown,
/// and every entry ever stored.
pub struct LogStorage {
    pending_logs: Vec<(LogChannel, Vec<StoredLogEntry>)>,
    all_stored_logs: Vec<(LogChannel, Vec<StoredLogEntry>)>,
}

impl LogStorage {
    #[verifier::type_invariant]
    spec fn channels_once(self) -> bool {
        distinct_channels(self.pending_logs@) && distinct_channels(self.all_stored_logs@)
    }

    /// The entries not yet shown, per channel.
    pub closed spec fn pending(self) -> Seq<(LogChannel, Vec<StoredLogEntry>)> {
        self.pending_logs@
    }

    /// Every entry ever stored, per channel.
    pub closed spec fn all_stored(self) -> Seq<(LogChannel, Vec<StoredLogEntry>)> {
        self.all_stored_logs@
    }

    /// Nothing stored yet.
    pub fn new() -> (r: Self)
        ensures
            r.pending().len() == 0,
            r.all_stored().len() == 0,
    {
        LogStorage { pending_logs: Vec::new(), all_stored_logs: Vec::new() }
    }

    /// Stores a message of a channel, made at `now`: it is added at the end of the
    /// channel's entries, both among those not yet shown and among all of them.
    pub fn store(&mut self, channel: LogChannel, log_type: LogType, text: String, now: u64)
        ensures
            forall|k: LogChannel| #[trigger] entries_for(final(self).pending(), k) == if same_channel(k, channel) {
                entries_for(old(self).pending(), k).push(StoredLogEntry { timestamp: now, log_type, text })
            } else {
                entries_for(old(self).pending(), k)
            },
            forall|k: LogChannel| #[trigger] entries_for(final(self).all_stored(), k) == if same_channel(k, channel) {
                entries_for(old(self).all_stored(), k).push(StoredLogEntry { timestamp: now, log_type, text })
            } else {
                entries_for(old(self).all_stored(), k)
            },
    {
        proof {
            use_type_invariant(&*self);
        }
        let entry = StoredLogEntry { timestamp: now, log_type, text: text.clone() };
        let kept = StoredLogEntry { timestamp: now, log_type, text };
        let mut pending: Vec<(LogChannel, Vec<StoredLogEntry>)> = Vec::new();
        std::mem::swap(&mut pending, &mut self.pending_logs);
        append_entry(&mut pending, channel.duplicate(), entry);
        self.pending_logs = pending;
        let mut all: Vec<(LogChannel, Vec<StoredLogEntry>)> = Vec::new();
        std::mem::swap(&mut all, &mut self.all_stored_logs);
        append_entry(&mut all, channel, kept);
        self.all_stored_logs = all;
    }

    /// The entries not yet shown, put in order for display (see
    /// `prep_logs_for_display`); they count as shown from then on. All stored
    /// entries stay.
    pub fn get_latest_logs_and_wipe(&mut self) -> (r: ParsedLogsLatest)
        ensures
            final(self).pending().len() == 0,
            final(self).all_stored() == old(self).all_stored(),
            sorted_entries(r.all@),
            r.all@.to_multiset() == all_entries_of(old(self).pending()).to_multiset(),
            r.general@ == general_entries_of(old(self).pending()),
            sorted_by_key(r.tricks@),
            lists_trick_channels(r.tricks@, old(self).pending()),
    {
        proof {
            use_type_invariant(&*self);
        }
        let mut pending: Vec<(LogChannel, Vec<StoredLogEntry>)> = Vec::new();
        std::mem::swap(&mut pending, &mut self.pending_logs);
        prep_logs_for_display(pending)
    }

    /// Every stored entry as text for a dump (see `prep_logs_for_dump`).
    pub fn get_all_logs_for_dump(&self) -> (r: ParsedLogsForDumps)
        ensures
            exists|sorted: Seq<StoredLogEntry>|
                #[trigger] sorted_entries(sorted) && sorted.to_multiset() == all_entries_of(self.all_stored()).to_multiset()
                    && r.all@ == spec_entries_text(sorted),
            r.general@ == spec_entries_text(general_entries_of(self.all_stored())),
            sorted_by_key(r.tricks@),
            forall|i: int| 0 <= i < r.tricks@.len() ==> dump_listed(self.all_stored(), #[trigger] r.tricks@[i]),
            forall|k: int| 0 <= k < self.all_stored().len() ==> dump_has(r.tricks@, #[trigger] self.all_stored()[k]),
    {
        proof {
            use_type_invariant(self);
        }
        let copy = copy_logs(&self.all_stored_logs);
        let ghost c = copy@;
        let ghost orig = self.all_stored_logs@;
        proof {
            lemma_same_logs_agree(c, orig);
            assert(distinct_channels(c)) by {
                assert forall|i: int, j: int| 0 <= i < j < c.len() implies !same_channel(#[trigger] c[i].0, #[trigger] c[j].0) by {
                    assert(!same_channel(orig[i].0, orig[j].0));
                }
            }
        }
        let r = prep_logs_for_dump(copy);
        proof {
            assert forall|i: int| 0 <= i < r.tricks@.len() implies dump_listed(orig, #[trigger] r.tricks@[i]) by {
                assert(dump_listed(c, r.tricks@[i]));
                let k = choose|k: int| 0 <= k < c.len() && c[k].0 == LogChannel::TrickID(r.tricks@[i].0)
                    && r.tricks@[i].1@ == spec_entries_text(c[k].1@);
                assert(orig[k].0 == c[k].0);
            }
            assert forall|k: int| 0 <= k < orig.len() implies dump_has(r.tricks@, #[trigger] orig[k]) by {
                assert(dump_has(r.tricks@, c[k]));
                assert(c[k].0 == orig[k].0 && c[k].1@ == orig[k].1@);
            }
        }
        r
    }
}

proof fn lemma_general_entries(p: Seq<(LogChannel, Vec<StoredLogEntry>)>)
    requires
        distinct_channels(p),
    ensures
        general_entries_of(p) == entries_for(p, LogChannel::General),
    decreases p.len(),
{
    if p.len() > 0 {
        let n = p.len() - 1;
        if p.last().0 is General {
            lemma_entries_at(p, LogChannel::General, n);
        } else {
            let q = p.drop_last();
            lemma_general_entries(q);
            if has_channel(q, LogChannel::General) {
                let j = choose|j: int| 0 <= j < q.len() && same_channel(#[trigger] q[j].0, LogChannel::General);
                lemma_entries_at(q, LogChannel::General, j);
                lemma_entries_at(p, LogChannel::General, j);
            } else {
                assert(!has_channel(p, LogChannel::General)) by {
                    if has_channel(p, LogChannel::General) {
                        let j = choose|j: int| 0 <= j < p.len() && same_channel(#[trigger] p[j].0, LogChannel::General);
                        assert(j != n);
                        assert(q[j] == p[j]);
                    }
                }
            }
        }
    }
}

/// What the interface shows of the logs not yet shown is what was stored for them:
/// the general entries are the general channel's, each trick listed shows its
/// channel's entries, and every trick channel with entries is listed.
pub proof fn law_shown_logs_are_the_stored_ones(
    pending: Seq<(LogChannel, Vec<StoredLogEntry>)>,
    tricks: Seq<(String, Vec<StoredLogEntry>)>,
)
    requires
        distinct_channels(pending),
        lists_trick_channels(tricks, pending),
    ensures
        general_entries_of(pending) == entries_for(pending, LogChannel::General),
        forall|i: int| 0 <= i < tricks.len() ==> #[trigger] tricks[i].1@ == entries_for(pending, LogChannel::TrickID(tricks[i].0)),
        forall|id: String| #[trigger] has_channel(pending, LogChannel::TrickID(id)) ==> exists|i: int| 0 <= i < tricks.len() && tricks[i].0@ == id@,
{
    lemma_general_entries(pending);
    assert forall|i: int| 0 <= i < tricks.len() implies #[trigger] tricks[i].1@ == entries_for(pending, LogChannel::TrickID(tricks[i].0)) by {
        assert(channel_listed(pending, tricks[i]));
        let k = choose|k: int| 0 <= k < pending.len() && pending[k].0 == LogChannel::TrickID(tricks[i].0)
            && pending[k].1@ == tricks[i].1@;
        lemma_entries_at(pending, LogChannel::TrickID(tricks[i].0), k);
    }
    assert forall|id: String| #[trigger] has_channel(pending, LogChannel::TrickID(id)) implies exists|i: int|
        0 <= i < tricks.len() && tricks[i].0@ == id@ by {
        let k = choose|k: int| 0 <= k < pending.len() && same_channel(#[trigger] pending[k].0, LogChannel::TrickID(id));
        assert(trick_listed(tricks, pending[k]));
    }
}

} // verus!
