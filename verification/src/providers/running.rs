//! Finding the processes that decktricks started, from the environment variables
//! that `ps eww` lists for each process.
use crate::text::{has_prefix, has_substring, lines, spec_lines, spec_words, split_whitespace,
    strip_prefix, views, concat2, contains, owned};
use vstd::prelude::*;

verus! {

/// The environment variable that marks processes started for a trick.
pub const PID_ENV_STRING: &'static str = "DECKTRICKS_TRICK_ID";

/// The environment variable that marks processes installing a trick.
pub const INSTALLING_ENV_STRING: &'static str = "DECKTRICKS_IS_INSTALLING";

/// The trick ID that a line's words name: the rest of the first word that starts
/// with `desired`.
pub open spec fn first_tagged(words: Seq<Seq<char>>, desired: Seq<char>) -> Option<Seq<char>>
    decreases words.len(),
{
    if words.len() == 0 {
        None
    } else if has_prefix(words[0], desired) {
        Some(words[0].skip(desired.len() as int))
    } else {
        first_tagged(words.drop_first(), desired)
    }
}

/// The process IDs by trick ID that the lines of `ps eww` output show: a line that
/// holds `desired` names a trick in its first word starting with `desired`, and the
/// line's first word is the process ID.
pub open spec fn procs_map(ls: Seq<Seq<char>>, desired: Seq<char>) -> Map<Seq<char>, Seq<Seq<char>>>
    decreases ls.len(),
{
    if ls.len() == 0 {
        Map::empty()
    } else {
        let m = procs_map(ls.drop_last(), desired);
        let line = ls.last();
        let words = spec_words(line);
        if has_substring(line, desired) && words.len() > 0 {
            match first_tagged(words, desired) {
                Some(tid) => m.insert(
                    tid,
                    (if m.contains_key(tid) {
                        m[tid]
                    } else {
                        Seq::empty()
                    }).push(words[0]),
                ),
                None => m,
            }
        } else {
            m
        }
    }
}

/// A line's words name the trick `id` exactly when `desired` followed by `id` is one
/// of the words and no earlier word starts with `desired`.
pub proof fn law_first_tagged_word_names_the_trick(words: Seq<Seq<char>>, desired: Seq<char>, id: Seq<char>)
    ensures
        first_tagged(words, desired) == Some(id) <==> exists|i: int|
            0 <= i < words.len() && #[trigger] words[i] == desired + id && forall|j: int|
                0 <= j < i ==> !has_prefix(#[trigger] words[j], desired),
        first_tagged(words, desired) is None <==> forall|j: int|
            0 <= j < words.len() ==> !has_prefix(#[trigger] words[j], desired),
    decreases words.len(),
{
    if words.len() > 0 {
        law_first_tagged_word_names_the_trick(words.drop_first(), desired, id);
        let rest = words.drop_first();
        if has_prefix(words[0], desired) {
            assert(has_prefix(words[0], desired) <==> words[0].subrange(0, desired.len() as int) == desired && desired.len() <= words[0].len());
            assert(words[0] =~= desired + words[0].skip(desired.len() as int));
            if first_tagged(words, desired) == Some(id) {
                assert(words[0] == desired + id);
            }
            if exists|i: int| 0 <= i < words.len() && #[trigger] words[i] == desired + id && forall|j: int|
                0 <= j < i ==> !has_prefix(#[trigger] words[j], desired) {
                let i = choose|i: int| 0 <= i < words.len() && #[trigger] words[i] == desired + id && forall|j: int|
                    0 <= j < i ==> !has_prefix(#[trigger] words[j], desired);
                if i > 0 {
                    assert(!has_prefix(words[0], desired));
                }
                assert((desired + id).skip(desired.len() as int) =~= id);
            }
        } else {
            assert forall|i: int| 0 <= i < rest.len() implies rest[i] == words[i + 1] by {}
            if first_tagged(words, desired) == Some(id) {
                let k = choose|k: int| 0 <= k < rest.len() && #[trigger] rest[k] == desired + id && forall|j: int|
                    0 <= j < k ==> !has_prefix(#[trigger] rest[j], desired);
                assert(words[k + 1] == desired + id);
                assert forall|j: int| 0 <= j < k + 1 implies !has_prefix(#[trigger] words[j], desired) by {
                    if j > 0 {
                        assert(words[j] == rest[j - 1]);
                    }
                }
            }
            if exists|i: int| 0 <= i < words.len() && #[trigger] words[i] == desired + id && forall|j: int|
                0 <= j < i ==> !has_prefix(#[trigger] words[j], desired) {
                let i = choose|i: int| 0 <= i < words.len() && #[trigger] words[i] == desired + id && forall|j: int|
                    0 <= j < i ==> !has_prefix(#[trigger] words[j], desired);
                if i == 0 {
                    assert((desired + id).subrange(0, desired.len() as int) =~= desired);
                }
                assert(rest[i - 1] == desired + id);
                assert forall|j: int| 0 <= j < i - 1 implies !has_prefix(#[trigger] rest[j], desired) by {
                    assert(rest[j] == words[j + 1]);
                }
            }
            if forall|j: int| 0 <= j < words.len() ==> !has_prefix(#[trigger] words[j], desired) {
                assert forall|j: int| 0 <= j < rest.len() implies !has_prefix(#[trigger] rest[j], desired) by {
                    assert(rest[j] == words[j + 1]);
                }
            }
            if forall|j: int| 0 <= j < rest.len() ==> !has_prefix(#[trigger] rest[j], desired) {
                assert forall|j: int| 0 <= j < words.len() implies !has_prefix(#[trigger] words[j], desired) by {
                    if j > 0 {
                        assert(words[j] == rest[j - 1]);
                    }
                }
            }
        }
    }
}

/// The trick that a line of `ps eww` output names, if any: for a line that holds
/// `desired` and has words, the rest of its first word that starts with `desired`.
pub open spec fn line_trick(line: Seq<char>, desired: Seq<char>) -> Option<Seq<char>> {
    if has_substring(line, desired) && spec_words(line).len() > 0 {
        first_tagged(spec_words(line), desired)
    } else {
        None
    }
}

/// The process ID that a line gives to the trick `id`: the line's first word, when
/// the line names `id`.
pub open spec fn pid_for_trick(id: Seq<char>, desired: Seq<char>) -> spec_fn(Seq<char>) -> Option<Seq<char>> {
    |line: Seq<char>| if line_trick(line, desired) == Some(id) { Some(spec_words(line)[0]) } else { None }
}

/// Every line that names a trick counts: a trick is listed exactly when some line
/// names it, and its process IDs are the first words of all the lines that name
/// it, in the order of the lines.
pub proof fn law_every_line_naming_a_trick_counts(ls: Seq<Seq<char>>, desired: Seq<char>, id: Seq<char>)
    ensures
        procs_map(ls, desired).contains_key(id) <==> ls.filter_map(pid_for_trick(id, desired)).len() > 0,
        procs_map(ls, desired).contains_key(id) ==> procs_map(ls, desired)[id] == ls.filter_map(
            pid_for_trick(id, desired),
        ),
    decreases ls.len(),
{
    if ls.len() > 0 {
        law_every_line_naming_a_trick_counts(ls.drop_last(), desired, id);
        let f = pid_for_trick(id, desired);
        let rest = ls.drop_last().filter_map(f);
        assert(ls.filter_map(f) == match f(ls.last()) {
            Some(x) => rest + seq![x],
            None => rest,
        });
    }
}

/// The entries hold exactly the map: one entry per key, with its values.
pub open spec fn entries_agree(v: Seq<(String, Vec<String>)>, m: Map<Seq<char>, Seq<Seq<char>>>) -> bool {
    &&& forall|i: int| 0 <= i < v.len() ==> #[trigger] m.contains_key(v[i].0@) && m[v[i].0@]
        == views(v[i].1@)
    &&& forall|k: Seq<char>| #[trigger]
        m.contains_key(k) ==> exists|i: int| 0 <= i < v.len() && v[i].0@ == k
    &&& forall|i: int, j: int| 0 <= i < j < v.len() ==> v[i].0@ != v[j].0@
}

/// The processes started for each trick.
#[derive(Debug)]
pub struct RunningProgramSystemContext {
    pub tricks_to_running_pids: Vec<(String, Vec<String>)>,
}

fn first_tagged_exec(words: &Vec<String>, desired: &str) -> (r: Option<String>)
    ensures
        match first_tagged(views(words@), desired@) {
            Some(t) => r matches Some(s) && s@ == t,
            None => r is None,
        },
{
    let mut i: usize = 0;
    assert(views(words@).skip(0) =~= views(words@));
    while i < words.len()
        invariant
            i <= words@.len(),
            first_tagged(views(words@), desired@) == first_tagged(views(words@).skip(i as int), desired@),
        decreases words@.len() - i,
    {
        let ghost rest = views(words@).skip(i as int);
        assert(rest[0] == words@[i as int]@);
        assert(rest.drop_first() =~= views(words@).skip(i + 1));
        match strip_prefix(words[i].as_str(), desired) {
            Some(tid) => {
                return Some(tid);
            },
            None => {},
        }
        i = i + 1;
    }
    assert(views(words@).skip(i as int).len() == 0);
    None
}

impl RunningProgramSystemContext {
    pub open spec fn wf(self) -> bool {
        forall|i: int, j: int|
            0 <= i < j < self.tricks_to_running_pids@.len()
                ==> self.tricks_to_running_pids@[i].0@ != self.tricks_to_running_pids@[j].0@
    }

    /// No process of any trick.
    pub fn empty() -> (r: Self)
        ensures
            r.tricks_to_running_pids@.len() == 0,
    {
        RunningProgramSystemContext { tricks_to_running_pids: Vec::new() }
    }

    /// The processes of each trick that `ps eww` output shows, marked by the given
    /// environment variable. No output means no processes.
    pub fn from_ps_output(output: Option<&str>, env_var: &str) -> (r: Self)
        ensures
            r.wf(),
            entries_agree(
                r.tricks_to_running_pids@,
                match output {
                    Some(o) => procs_map(spec_lines(o@), env_var@ + "="@),
                    None => Map::empty(),
                },
            ),
    {
        let mut v: Vec<(String, Vec<String>)> = Vec::new();
        match output {
            None => {
                return RunningProgramSystemContext { tricks_to_running_pids: v };
            },
            Some(o) => {
                let desired = concat2(env_var, "=");
                let ls = lines(o);
                let mut i: usize = 0;
                while i < ls.len()
                    invariant
                        i <= ls@.len(),
                        views(ls@) == spec_lines(o@),
                        desired@ == env_var@ + "="@,
                        entries_agree(v@, procs_map(views(ls@).subrange(0, i as int), desired@)),
                    decreases ls@.len() - i,
                {
                    let ghost sub = views(ls@).subrange(0, i + 1);
                    let ghost m = procs_map(views(ls@).subrange(0, i as int), desired@);
                    assert(sub.drop_last() =~= views(ls@).subrange(0, i as int));
                    assert(sub.last() == ls@[i as int]@);
                    let line = ls[i].as_str();
                    if contains(line, desired.as_str()) {
                        let words = split_whitespace(line);
                        if words.len() > 0 {
                            match first_tagged_exec(&words, desired.as_str()) {
                                Some(tid) => {
                                    let pid = words[0].clone();
                                    assert(pid@ == spec_words(line@)[0]);
                                    add_pid(&mut v, tid, pid, Ghost(m));
                                },
                                None => {},
                            }
                        }
                    }
                    i = i + 1;
                }
                assert(views(ls@).subrange(0, ls@.len() as int) =~= views(ls@));
            },
        }
        RunningProgramSystemContext { tricks_to_running_pids: v }
    }

    pub open spec fn spec_get(self, trick_id: Seq<char>) -> Option<Seq<Seq<char>>> {
        if exists|i: int|
            0 <= i < self.tricks_to_running_pids@.len() && self.tricks_to_running_pids@[i].0@
                == trick_id {
            let i = choose|i: int|
                0 <= i < self.tricks_to_running_pids@.len() && self.tricks_to_running_pids@[i].0@
                    == trick_id;
            Some(views(self.tricks_to_running_pids@[i].1@))
        } else {
            None
        }
    }

    /// The processes started for a trick, if any were found.
    pub fn get(&self, trick_id: &str) -> (r: Option<Vec<String>>)
        requires
            self.wf(),
        ensures
            match self.spec_get(trick_id@) {
                Some(pids) => r matches Some(v) && views(v@) == pids,
                None => r is None,
            },
    {
        let mut i: usize = 0;
        while i < self.tricks_to_running_pids.len()
            invariant
                i <= self.tricks_to_running_pids@.len(),
                self.wf(),
                forall|j: int| 0 <= j < i ==> self.tricks_to_running_pids@[j].0@ != trick_id@,
            decreases self.tricks_to_running_pids@.len() - i,
        {
            if crate::text::str_eq(self.tricks_to_running_pids[i].0.as_str(), trick_id) {
                let r = crate::text::clone_strings(&self.tricks_to_running_pids[i].1);
                proof {
                    let k = choose|k: int|
                        0 <= k < self.tricks_to_running_pids@.len()
                            && self.tricks_to_running_pids@[k].0@ == trick_id@;
                    let ghost t = self.tricks_to_running_pids@;
                    assert(t[i as int].0@ == trick_id@);
                    if k < i {
                        assert(t[k].0@ != t[i as int].0@);
                    } else if k > i {
                        assert(t[i as int].0@ != t[k].0@);
                    }
                    assert(k == i);
                }
                return Some(r);
            }
            i = i + 1;
        }
        None
    }
}

fn add_pid(v: &mut Vec<(String, Vec<String>)>, tid: String, pid: String, Ghost(m): Ghost<Map<Seq<char>, Seq<Seq<char>>>>)
    requires
        entries_agree(old(v)@, m),
    ensures
        entries_agree(
            final(v)@,
            m.insert(
                tid@,
                (if m.contains_key(tid@) {
                    m[tid@]
                } else {
                    Seq::empty()
                }).push(pid@),
            ),
        ),
{
    let ghost m2 = m.insert(
        tid@,
        (if m.contains_key(tid@) {
            m[tid@]
        } else {
            Seq::empty()
        }).push(pid@),
    );
    let ghost old_v = v@;
    let mut i: usize = 0;
    while i < v.len()
        invariant
            i <= v@.len(),
            v@ == old_v,
            entries_agree(old_v, m),
            m2 == m.insert(
                tid@,
                (if m.contains_key(tid@) {
                    m[tid@]
                } else {
                    Seq::empty()
                }).push(pid@),
            ),
            forall|j: int| 0 <= j < i ==> v@[j].0@ != tid@,
        decreases v@.len() - i,
    {
        if crate::text::str_eq(v[i].0.as_str(), tid.as_str()) {
            let mut entry = v.remove(i);
            let ghost old_pids = entry.1@;
            assert(m.contains_key(old_v[i as int].0@));
            entry.1.push(pid);
            assert(views(entry.1@) =~= views(old_pids).push(pid@));
            v.insert(i, entry);
            proof {
                assert forall|k: int| 0 <= k < v@.len() implies #[trigger] m2.contains_key(v@[k].0@)
                    && m2[v@[k].0@] == views(v@[k].1@) by {
                    if k != i {
                        assert(v@[k] == old_v[k]);
                        assert(m.contains_key(old_v[k].0@));
                        if k < i {
                            assert(old_v[k].0@ != old_v[i as int].0@);
                        } else {
                            assert(old_v[i as int].0@ != old_v[k].0@);
                        }
                    } else {
                        assert(v@[k].1@ == entry.1@);
                        assert(v@[k].0@ == tid@);
                    }
                }
                assert forall|key: Seq<char>| #[trigger] m2.contains_key(key) implies exists|k: int|
                    0 <= k < v@.len() && v@[k].0@ == key by {
                    if key == tid@ {
                        assert(v@[i as int].0@ == key);
                    } else {
                        let k = choose|k: int| 0 <= k < old_v.len() && old_v[k].0@ == key;
                        assert(v@[k].0@ == key);
                    }
                }
                assert forall|a: int, b: int| 0 <= a < b < v@.len() implies v@[a].0@ != v@[b].0@ by {
                    assert(v@[a].0@ == old_v[a].0@);
                    assert(v@[b].0@ == old_v[b].0@);
                }
            }
            return;
        }
        i = i + 1;
    }
    proof {
        if m.contains_key(tid@) {
            let k = choose|k: int| 0 <= k < old_v.len() && old_v[k].0@ == tid@;
            assert(false);
        }
    }
    let mut pids: Vec<String> = Vec::new();
    pids.push(pid);
    assert(views(pids@) =~= Seq::<Seq<char>>::empty().push(pid@));
    v.push((tid, pids));
    proof {
        assert forall|key: Seq<char>| #[trigger] m2.contains_key(key) implies exists|k: int|
            0 <= k < v@.len() && v@[k].0@ == key by {
            if key == tid@ {
                assert(v@[old_v.len() as int].0@ == key);
            } else {
                let k = choose|k: int| 0 <= k < old_v.len() && old_v[k].0@ == key;
                assert(v@[k].0@ == key);
            }
        }
    }
}

} // verus!
