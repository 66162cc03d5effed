//! Following a log file while a command runs. The process that follows the file
//! lives in the program and hands each line it reads to a watcher; here is what
//! the watcher makes of the lines that arrived, and the stand-in used when there
//! is no file to follow.
use crate::text::{join, join_strings, push_char, push_str, views};
use vstd::prelude::*;

verus! {

/// What arrived since the last look: the chunks one after the other, or nothing
/// when no text arrived.
pub fn drained_text(chunks: &Vec<String>) -> (r: Option<String>)
    ensures
        match r {
            Some(t) => t@ == join(views(chunks@), Seq::empty()) && t@.len() > 0,
            None => join(views(chunks@), Seq::empty()).len() == 0,
        },
{
    let out = join_strings(chunks, "");
    proof {
        reveal_strlit("");
        assert(""@ =~= Seq::<char>::empty());
    }
    if out.unicode_len() == 0 {
        None
    } else {
        Some(out)
    }
}

/// The text that a look hands back for the lines that arrived since the last
/// look: each line followed by a line break, in order of arrival.
pub open spec fn lines_text(lines: Seq<Seq<char>>) -> Seq<char>
    decreases lines.len(),
{
    if lines.len() == 0 {
        Seq::empty()
    } else {
        lines_text(lines.drop_last()) + lines.last() + seq!['\n']
    }
}

/// What a look hands back: nothing when no line arrived, else their text.
pub open spec fn latest_of(lines: Seq<Seq<char>>) -> Option<Seq<char>> {
    if lines.len() == 0 {
        None
    } else {
        Some(lines_text(lines))
    }
}

/// A look at a watcher whose lines were `before` handed back `result` and left
/// the lines `after`: what arrived came back, and nothing is left.
pub open spec fn looked(before: Seq<Seq<char>>, result: Option<Seq<char>>, after: Seq<Seq<char>>) -> bool {
    &&& result == latest_of(before)
    &&& after == Seq::<Seq<char>>::empty()
}

/// A watcher that collects the lines read from a followed file until the next look.
#[derive(Debug)]
pub struct TailWatcherInner {
    lines: Vec<String>,
}

impl TailWatcherInner {
    /// The lines that arrived since the last look, in order of arrival.
    pub closed spec fn spec_lines(self) -> Seq<Seq<char>> {
        views(self.lines@)
    }

    /// A watcher to which no line has arrived yet.
    pub fn empty() -> (r: Self)
        ensures
            r.spec_lines() == Seq::<Seq<char>>::empty(),
    {
        let r = TailWatcherInner { lines: Vec::new() };
        assert(r.spec_lines() =~= Seq::<Seq<char>>::empty());
        r
    }

    /// A line read from the file arrives.
    pub fn receive(&mut self, line: &str)
        ensures
            final(self).spec_lines() == old(self).spec_lines().push(line@),
    {
        self.lines.push(crate::text::owned(line));
        assert(self.spec_lines() =~= old(self).spec_lines().push(line@));
    }

    /// Everything that arrived since the last look: the lines in order of arrival,
    /// each followed by a line break, or nothing when no line arrived. The lines
    /// are consumed.
    pub fn get_latest(&mut self) -> (r: Option<String>)
        ensures
            looked(
                old(self).spec_lines(),
                match r {
                    Some(t) => Some(t@),
                    None => None,
                },
                final(self).spec_lines(),
            ),
    {
        let ghost lines = self.spec_lines();
        let mut out = String::new();
        let mut i: usize = 0;
        while i < self.lines.len()
            invariant
                i <= self.lines@.len(),
                lines == views(self.lines@),
                out@ == lines_text(lines.subrange(0, i as int)),
            decreases self.lines@.len() - i,
        {
            proof {
                assert(lines.subrange(0, i + 1).drop_last() =~= lines.subrange(0, i as int));
                assert(lines.subrange(0, i + 1).last() == self.lines@[i as int]@);
            }
            push_str(&mut out, self.lines[i].as_str());
            push_char(&mut out, '\n');
            i = i + 1;
        }
        assert(lines.subrange(0, i as int) =~= lines);
        let none_arrived = self.lines.len() == 0;
        self.lines = Vec::new();
        assert(self.spec_lines() =~= Seq::<Seq<char>>::empty());
        if none_arrived {
            None
        } else {
            Some(out)
        }
    }
}

/// A second look with no new line in between finds nothing: whatever arrived
/// before the first look came back from it and is gone.
pub proof fn law_second_look_finds_nothing(
    lines: Seq<Seq<char>>,
    first: Option<Seq<char>>,
    between: Seq<Seq<char>>,
    second: Option<Seq<char>>,
    after: Seq<Seq<char>>,
)
    requires
        looked(lines, first, between),
        looked(between, second, after),
    ensures
        first == latest_of(lines),
        second is None,
{
}

/// Lines that arrive one after the other come back from the next look in the
/// order they arrived, each with its line break: the text of the earlier lines,
/// then the new line.
pub proof fn law_lines_in_arrival_order(lines: Seq<Seq<char>>, line: Seq<char>)
    ensures
        latest_of(lines.push(line)) == Some(lines_text(lines) + line + seq!['\n']),
{
    assert(lines.push(line).drop_last() =~= lines);
}

/// A watcher that hands out one error text, once.
#[derive(Debug)]
pub struct TailWatcherFake {
    err_text: Option<String>,
}

impl TailWatcherFake {
    pub closed spec fn spec_pending(self) -> Option<String> {
        self.err_text
    }

    /// A watcher holding the given text; an empty text holds nothing.
    pub fn new(maybe_err_text: &str) -> (r: Self)
        ensures
            match r.spec_pending() {
                Some(t) => t@ == maybe_err_text@ && maybe_err_text@.len() > 0,
                None => maybe_err_text@.len() == 0,
            },
    {
        let err_text = if maybe_err_text.unicode_len() == 0 {
            None
        } else {
            Some(crate::text::owned(maybe_err_text))
        };
        TailWatcherFake { err_text }
    }

    /// The text, if it was not handed out yet; after this the watcher holds nothing.
    pub fn get_latest(&mut self) -> (r: Option<String>)
        ensures
            r == old(self).spec_pending(),
            final(self).spec_pending() is None,
    {
        let r = self.err_text.take();
        r
    }
}

} // verus!
