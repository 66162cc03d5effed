//! What the graphical interface decides: how the tricks of each category are laid
//! out, which button gets the focus first, what pressing a button does, and how a
//! button is refreshed. The interface itself only draws what is decided here.
use crate::actions::{typed_action_of, ActionSuccess, SpecificActionID, TypedAction};
use crate::command::{Action, DecktricksCommand, LogType};
use crate::errors::{DeckResult, GITHUB_ISSUES_LINK};
use crate::gui_logs::{ParsedLogsLatest, StoredLogEntry};
use crate::text::{concat3, join, join_strings, lemma_lt_irreflexive, lemma_lt_total, lemma_lt_transitive, owned, push_str, seq_lt,
    str_lt, views};
use crate::tricks_status::{first_with_key, same_status, ActionDisplayStatus, AllTricksStatus, TrickStatus};
use vstd::prelude::*;

verus! {

// ---------------------------------------------------------------------------
// Order of the tricks in a category
// ---------------------------------------------------------------------------

/// Entry `i` is shown before entry `j`: by name, and, among equal names, in the
/// order in which they were given (a stable sort by name).
pub open spec fn shown_before(names: Seq<Seq<char>>, i: int, j: int) -> bool {
    seq_lt(names[i], names[j]) || (names[i] == names[j] && i < j)
}

/// `order` lists every position of `names` once, in the order in which they are shown.
pub open spec fn is_display_order(names: Seq<Seq<char>>, order: Seq<usize>) -> bool {
    &&& order.len() == names.len()
    &&& forall|k: int| 0 <= k < order.len() ==> #[trigger] order[k] < names.len()
    &&& forall|k: int, l: int|
        0 <= k < l < order.len() ==> shown_before(names, #[trigger] order[k] as int, #[trigger] order[l] as int)
}

/// Position `i` is listed.
pub open spec fn lists_position(order: Seq<usize>, i: int) -> bool {
    exists|k: int| 0 <= k < order.len() && order[k] == i
}

/// In the order in which tricks are shown, each trick is shown once: no position
/// comes twice, and every position comes.
pub proof fn law_display_order_shows_each_once(names: Seq<Seq<char>>, order: Seq<usize>)
    requires
        is_display_order(names, order),
    ensures
        forall|k: int, l: int| 0 <= k < l < order.len() ==> #[trigger] order[k] != #[trigger] order[l],
        forall|i: int| 0 <= i < names.len() ==> #[trigger] lists_position(order, i),
{
    assert forall|k: int, l: int| 0 <= k < l < order.len() implies #[trigger] order[k] != #[trigger] order[l] by {
        assert(shown_before(names, order[k] as int, order[l] as int));
        lemma_lt_irreflexive(names[order[k] as int]);
    }
    let s = order.map_values(|x: usize| x as int);
    assert(s.no_duplicates()) by {
        assert forall|k: int, l: int| 0 <= k < s.len() && 0 <= l < s.len() && k != l implies s[k] != s[l] by {
            if k < l {
                assert(order[k] != order[l]);
            } else {
                assert(order[l] != order[k]);
            }
        }
    }
    s.unique_seq_to_set();
    let range = vstd::set_lib::set_int_range(0, names.len() as int);
    vstd::set_lib::lemma_int_range(0, names.len() as int);
    assert(s.to_set().subset_of(range)) by {
        assert forall|x: int| s.to_set().contains(x) implies range.contains(x) by {
            let k = choose|k: int| 0 <= k < s.len() && s[k] == x;
            assert(order[k] < names.len());
        }
    }
    vstd::seq_lib::seq_to_set_is_finite(s);
    vstd::set_lib::lemma_subset_equality(s.to_set(), range);
    assert forall|i: int| 0 <= i < names.len() implies #[trigger] lists_position(order, i) by {
        assert(range.contains(i));
        assert(s.to_set().contains(i));
        let k = choose|k: int| 0 <= k < s.len() && s[k] == i;
        assert(order[k] == i);
    }
}

/// The positions of the names in the order in which they are shown: by name, equal
/// names in the order given.
pub fn display_order(names: &Vec<String>) -> (r: Vec<usize>)
    ensures
        is_display_order(names@.map_values(|s: String| s@), r@),
{
    let ghost ns = names@.map_values(|s: String| s@);
    let mut order: Vec<usize> = Vec::new();
    let mut i: usize = 0;
    while i < names.len()
        invariant
            i <= names@.len(),
            ns == names@.map_values(|s: String| s@),
            order@.len() == i,
            forall|k: int| 0 <= k < order@.len() ==> #[trigger] order@[k] < i,
            forall|k: int, l: int|
                0 <= k < l < order@.len() ==> shown_before(ns, #[trigger] order@[k] as int, #[trigger] order@[l] as int),
        decreases names@.len() - i,
    {
        let mut p: usize = 0;
        while p < order.len() && !str_lt(names[i].as_str(), names[order[p]].as_str())
            invariant
                i < names@.len(),
                ns == names@.map_values(|s: String| s@),
                p <= order@.len(),
                forall|k: int| 0 <= k < order@.len() ==> #[trigger] order@[k] < i,
                forall|k: int| 0 <= k < p ==> !seq_lt(ns[i as int], ns[#[trigger] order@[k] as int]),
            decreases order@.len() - p,
        {
            p = p + 1;
        }
        let ghost old_order = order@;
        order.insert(p, i);
        proof {
            assert forall|k: int, l: int| 0 <= k < l < order@.len() implies shown_before(
                ns,
                #[trigger] order@[k] as int,
                #[trigger] order@[l] as int,
            ) by {
                if l == p as int {
                    let o = old_order[k] as int;
                    assert(!seq_lt(ns[i as int], ns[o]));
                    lemma_lt_total(ns[i as int], ns[o]);
                } else if k == p as int {
                    let o = old_order[l - 1] as int;
                    assert(seq_lt(ns[i as int], ns[old_order[p as int] as int]));
                    if l - 1 > p {
                        assert(shown_before(ns, old_order[p as int] as int, o));
                        if seq_lt(ns[old_order[p as int] as int], ns[o]) {
                            lemma_lt_transitive(ns[i as int], ns[old_order[p as int] as int], ns[o]);
                        }
                    }
                } else if k < p {
                    if l > p {
                        assert(shown_before(ns, old_order[k] as int, old_order[l - 1] as int));
                    }
                } else {
                    assert(shown_before(ns, old_order[k - 1] as int, old_order[l - 1] as int));
                }
            }
        }
        i = i + 1;
    }
    order
}

/// The name shown for each trick of a list.
pub open spec fn display_names(tricks: Seq<(String, TrickStatus)>) -> Seq<Seq<char>> {
    tricks.map_values(|t: (String, TrickStatus)| t.1.trick.display_name@)
}

/// `rows` show the tricks at the positions that `order` lists, one after the other.
pub open spec fn rows_follow(rows: Seq<(String, TrickStatus)>, tricks: Seq<(String, TrickStatus)>, order: Seq<usize>) -> bool {
    &&& rows.len() == order.len()
    &&& forall|k: int|
        0 <= k < rows.len() ==> #[trigger] rows[k].0@ == tricks[order[k] as int].0@ && same_status(
            rows[k].1,
            tricks[order[k] as int].1,
        )
}

/// `rows` are the tricks, each once, in the order in which they are shown.
pub open spec fn in_display_order(rows: Seq<(String, TrickStatus)>, tricks: Seq<(String, TrickStatus)>) -> bool {
    exists|order: Seq<usize>| #[trigger] is_display_order(display_names(tricks), order) && rows_follow(rows, tricks, order)
}

/// The tricks of a list in the order in which they are shown: by display name,
/// tricks of equal names in the order given.
pub fn sort_by_display_name(tricks: &Vec<(String, TrickStatus)>) -> (r: Vec<(String, TrickStatus)>)
    ensures
        in_display_order(r@, tricks@),
{
    let mut names: Vec<String> = Vec::new();
    let mut k: usize = 0;
    while k < tricks.len()
        invariant
            k <= tricks@.len(),
            names@.len() == k,
            forall|j: int| 0 <= j < k ==> #[trigger] names@[j]@ == tricks@[j].1.trick.display_name@,
        decreases tricks@.len() - k,
    {
        names.push(tricks[k].1.trick.display_name.clone());
        k = k + 1;
    }
    assert(names@.map_values(|s: String| s@) =~= display_names(tricks@));
    let order = display_order(&names);
    let mut rows: Vec<(String, TrickStatus)> = Vec::new();
    let mut k: usize = 0;
    while k < order.len()
        invariant
            k <= order@.len(),
            order@.len() == tricks@.len(),
            forall|j: int| 0 <= j < order@.len() ==> #[trigger] order@[j] < tricks@.len(),
            rows@.len() == k,
            forall|j: int|
                0 <= j < k ==> #[trigger] rows@[j].0@ == tricks@[order@[j] as int].0@ && same_status(
                    rows@[j].1,
                    tricks@[order@[j] as int].1,
                ),
        decreases order@.len() - k,
    {
        let e = &tricks[order[k]];
        rows.push((e.0.clone(), e.1.duplicate()));
        k = k + 1;
    }
    assert(rows_follow(rows@, tricks@, order@));
    rows
}

// ---------------------------------------------------------------------------
// Layout of the categories
// ---------------------------------------------------------------------------

/// The tab whose first available button has the focus when the interface starts.
pub const FIRST_FOCUSED_TAB: usize = 1;

/// One tab of the interface: a category and its tricks as shown.
#[derive(Debug)]
pub struct CategoryTab {
    pub category_id: String,
    pub rows: Vec<(String, TrickStatus)>,
}

/// The tabs of the interface and the button that has the focus first, given as a
/// row and an action in the tab `FIRST_FOCUSED_TAB`.
#[derive(Debug)]
pub struct CategoriesLayout {
    pub tabs: Vec<CategoryTab>,
    pub first_button: Option<(usize, usize)>,
}

/// The action `a` of row `r` exists.
pub open spec fn has_button(rows: Seq<(String, TrickStatus)>, r: int, a: int) -> bool {
    0 <= r < rows.len() && 0 <= a < rows[r].1.actions@.len()
}

/// No button before action `a` of row `r` (row by row, each row from its first
/// action) can be pressed.
pub open spec fn none_available_before(rows: Seq<(String, TrickStatus)>, r: int, a: int) -> bool {
    forall|i: int, b: int|
        #![trigger rows[i].1.actions@[b]]
        has_button(rows, i, b) && (i < r || (i == r && b < a)) ==> !rows[i].1.actions@[b].is_available
}

/// The first button of the rows that can be pressed, if any.
pub open spec fn is_first_available(rows: Seq<(String, TrickStatus)>, found: Option<(usize, usize)>) -> bool {
    match found {
        Some((r, a)) => has_button(rows, r as int, a as int) && rows[r as int].1.actions@[a as int].is_available
            && none_available_before(rows, r as int, a as int),
        None => none_available_before(rows, rows.len() as int, 0),
    }
}

/// The first button of the rows that can be pressed: its row and its place in the row.
pub fn first_available(rows: &Vec<(String, TrickStatus)>) -> (r: Option<(usize, usize)>)
    ensures
        is_first_available(rows@, r),
{
    let mut i: usize = 0;
    while i < rows.len()
        invariant
            i <= rows@.len(),
            none_available_before(rows@, i as int, 0),
        decreases rows@.len() - i,
    {
        let actions = &rows[i].1.actions;
        let mut b: usize = 0;
        while b < actions.len()
            invariant
                i < rows@.len(),
                actions@ == rows@[i as int].1.actions@,
                b <= actions@.len(),
                none_available_before(rows@, i as int, b as int),
            decreases actions@.len() - b,
        {
            if actions[b].is_available {
                return Some((i, b));
            }
            b = b + 1;
        }
        i = i + 1;
    }
    None
}

/// Every category as a tab with its tricks in the order in which they are shown,
/// and the first button that can be pressed in the tab `FIRST_FOCUSED_TAB`.
pub fn layout_categories(map: &Vec<(String, Vec<(String, TrickStatus)>)>) -> (r: CategoriesLayout)
    ensures
        r.tabs@.len() == map@.len(),
        forall|c: int|
            0 <= c < map@.len() ==> (#[trigger] r.tabs@[c]).category_id@ == map@[c].0@ && in_display_order(
                r.tabs@[c].rows@,
                map@[c].1@,
            ),
        map@.len() > FIRST_FOCUSED_TAB ==> is_first_available(r.tabs@[FIRST_FOCUSED_TAB as int].rows@, r.first_button),
        map@.len() <= FIRST_FOCUSED_TAB ==> r.first_button is None,
{
    let mut tabs: Vec<CategoryTab> = Vec::new();
    let mut c: usize = 0;
    while c < map.len()
        invariant
            c <= map@.len(),
            tabs@.len() == c,
            forall|d: int|
                0 <= d < c ==> (#[trigger] tabs@[d]).category_id@ == map@[d].0@ && in_display_order(
                    tabs@[d].rows@,
                    map@[d].1@,
                ),
        decreases map@.len() - c,
    {
        let rows = sort_by_display_name(&map[c].1);
        tabs.push(CategoryTab { category_id: map[c].0.clone(), rows });
        c = c + 1;
    }
    let first_button = if tabs.len() > FIRST_FOCUSED_TAB {
        first_available(&tabs[FIRST_FOCUSED_TAB].rows)
    } else {
        None
    };
    CategoriesLayout { tabs, first_button }
}

// ---------------------------------------------------------------------------
// Buttons
// ---------------------------------------------------------------------------

/// The command-line action that takes an action of the given kind on a trick.
pub open spec fn spec_action_for(kind: SpecificActionID, trick_id: String) -> Action {
    match kind {
        SpecificActionID::Run => Action::Run { id: trick_id },
        SpecificActionID::Install => Action::Install { id: trick_id },
        SpecificActionID::Kill => Action::Kill { id: trick_id },
        SpecificActionID::Uninstall => Action::Uninstall { id: trick_id },
        SpecificActionID::AddToSteam => Action::AddToSteam { id: trick_id },
        SpecificActionID::Update => Action::Update { id: Some(trick_id) },
        SpecificActionID::Info => Action::Info { id: trick_id },
    }
}

/// The command-line action that takes an action of the given kind on a trick.
pub fn action_for(kind: SpecificActionID, trick_id: String) -> (r: Action)
    ensures
        r == spec_action_for(kind, trick_id),
{
    let id = trick_id;
    match kind {
        SpecificActionID::Run => Action::Run { id },
        SpecificActionID::Install => Action::Install { id },
        SpecificActionID::Kill => Action::Kill { id },
        SpecificActionID::Uninstall => Action::Uninstall { id },
        SpecificActionID::AddToSteam => Action::AddToSteam { id },
        SpecificActionID::Update => Action::Update { id: Some(id) },
        SpecificActionID::Info => Action::Info { id },
    }
}

/// The command run for an action's button takes the action of that button's kind,
/// on that button's trick: read back as a typed action, it is the specific action
/// of the same kind on the same trick.
pub proof fn law_button_action_is_its_kind(kind: SpecificActionID, trick_id: String, t: TypedAction)
    requires
        typed_action_of(spec_action_for(kind, trick_id), t),
    ensures
        t matches TypedAction::Specific(s) && SpecificActionID::spec_of(s) == kind && s.spec_id() == trick_id,
{
}

/// What pressing an action's button does.
#[derive(Debug)]
pub enum ButtonPress {
    /// Opens a window with the trick's name as title and its description as text.
    ShowInfo { title: String, text: String },
    /// Runs the command in the background; when `announce_added_to_steam` holds, the
    /// interface is told first that the trick is being added to Steam.
    Run { command: DecktricksCommand, announce_added_to_steam: bool },
}

/// What pressing the button of an action does: the info action opens a window; any
/// other action runs as a command whose output is shown in the logs (at log level
/// `Info`), and adding to Steam is announced.
pub fn press(info: &ActionDisplayStatus) -> (r: ButtonPress)
    ensures
        match r {
            ButtonPress::ShowInfo { title, text } => info.action_id == SpecificActionID::Info && title@
                == info.trick.display_name@ && text@ == info.trick.description@,
            ButtonPress::Run { command, announce_added_to_steam } => {
                &&& info.action_id != SpecificActionID::Info
                &&& command.action == spec_action_for(info.action_id, info.trick.id)
                &&& !command.gather_context_on_specific_actions
                &&& command.config is None
                &&& command.log_level == Some(LogType::Info)
                &&& announce_added_to_steam == (info.action_id == SpecificActionID::AddToSteam)
            },
        },
{
    if info.action_id == SpecificActionID::Info {
        return ButtonPress::ShowInfo {
            title: info.trick.display_name.clone(),
            text: info.trick.description.clone(),
        };
    }
    let mut command = DecktricksCommand::new(action_for(info.action_id, info.trick.id.clone()));
    command.log_level = Some(LogType::Info);
    ButtonPress::Run { command, announce_added_to_steam: info.action_id == SpecificActionID::AddToSteam }
}

/// How a button looks: its identifier, its text, and whether it can be pressed, is
/// under way or is done.
#[derive(Debug)]
pub struct ButtonAppearance {
    pub identifier: String,
    pub display_text: String,
    pub is_available: bool,
    pub is_ongoing: bool,
    pub is_completed: bool,
}

/// How the button of an action looks.
pub fn appearance(info: &ActionDisplayStatus) -> (r: ButtonAppearance)
    ensures
        r.identifier@ == info.action_id.spec_name(),
        r.display_text@ == info.action_id.spec_display_name(info.is_ongoing, info.is_completed),
        r.is_available == info.is_available,
        r.is_ongoing == info.is_ongoing,
        r.is_completed == info.is_completed,
{
    ButtonAppearance {
        identifier: info.action_id.to_string(),
        display_text: owned(info.action_id.get_display_name(info.is_ongoing, info.is_completed)),
        is_available: info.is_available,
        is_ongoing: info.is_ongoing,
        is_completed: info.is_completed,
    }
}

/// The message when a button's trick is no longer known.
pub open spec fn spec_trick_not_found(trick_id: Seq<char>) -> Seq<char> {
    "Trick \""@ + trick_id + "\" not found! This is a serious error, please report it at "@
        + GITHUB_ISSUES_LINK@ + "!"@
}

/// The message when a button's action is no longer listed for its trick.
pub open spec fn spec_action_not_found(kind: SpecificActionID, trick_id: Seq<char>) -> Seq<char> {
    "Action \""@ + kind.spec_name() + "\" status for \""@ + trick_id
        + "\" not found! This is a serious error, please report it at "@ + GITHUB_ISSUES_LINK@ + "!"@
}

/// Action `b` is the first of the kind.
pub open spec fn first_of_kind(actions: Seq<ActionDisplayStatus>, kind: SpecificActionID, b: int) -> bool {
    &&& 0 <= b < actions.len()
    &&& actions[b].action_id == kind
    &&& forall|c: int| 0 <= c < b ==> #[trigger] actions[c].action_id != kind
}

/// The new status of a button, looked up by its trick and its action: that of the
/// first entry for the trick and of its first action of the kind. When either is
/// missing, the error says which.
pub fn refreshed_status(info: &ActionDisplayStatus, all: &AllTricksStatus) -> (r: Result<ActionDisplayStatus, String>)
    ensures
        match r {
            Ok(a) => exists|i: int, b: int|
                #[trigger] first_with_key(all.spec_entries(), info.trick.id@, i) && #[trigger] first_of_kind(
                    all.spec_entries()[i].1.actions@,
                    info.action_id,
                    b,
                ) && a == all.spec_entries()[i].1.actions@[b],
            Err(m) => {
                ||| (forall|i: int| 0 <= i < all.spec_entries().len() ==> #[trigger] all.spec_entries()[i].0@
                    != info.trick.id@) && m@ == spec_trick_not_found(info.trick.id@)
                ||| exists|i: int|
                    #[trigger] first_with_key(all.spec_entries(), info.trick.id@, i) && (forall|b: int|
                        0 <= b < all.spec_entries()[i].1.actions@.len() ==> (
                        #[trigger] all.spec_entries()[i].1.actions@[b]).action_id != info.action_id)
                        && m@ == spec_action_not_found(info.action_id, info.trick.id@)
            },
        },
{
    let trick_id = info.trick.id.as_str();
    let ts = match all.get(trick_id) {
        Some(ts) => ts,
        None => {
            let mut m = concat3("Trick \"", trick_id, "\" not found! This is a serious error, please report it at ");
            push_str(&mut m, GITHUB_ISSUES_LINK);
            push_str(&mut m, "!");
            return Err(m);
        },
    };
    let ghost i = choose|i: int| #[trigger] first_with_key(all.spec_entries(), trick_id@, i)
        && all.spec_entries()[i].1 == *ts;
    let mut b: usize = 0;
    while b < ts.actions.len()
        invariant
            b <= ts.actions@.len(),
            trick_id@ == info.trick.id@,
            first_with_key(all.spec_entries(), trick_id@, i),
            all.spec_entries()[i].1 == *ts,
            forall|c: int| 0 <= c < b ==> #[trigger] ts.actions@[c].action_id != info.action_id,
        decreases ts.actions@.len() - b,
    {
        if ts.actions[b].action_id == info.action_id {
            assert(first_of_kind(all.spec_entries()[i].1.actions@, info.action_id, b as int));
            return Ok(ts.actions[b].duplicate());
        }
        b = b + 1;
    }
    assert(first_with_key(all.spec_entries(), info.trick.id@, i));
    let kind = info.action_id.to_string();
    let mut m = concat3("Action \"", kind.as_str(), "\" status for \"");
    push_str(&mut m, trick_id);
    push_str(&mut m, "\" not found! This is a serious error, please report it at ");
    push_str(&mut m, GITHUB_ISSUES_LINK);
    push_str(&mut m, "!");
    Err(m)
}

// ---------------------------------------------------------------------------
// Commands run from the interface
// ---------------------------------------------------------------------------

/// The messages of the successes, in order; a success without a message gives an
/// empty line.
pub open spec fn success_messages(results: Seq<DeckResult<ActionSuccess>>) -> Seq<Seq<char>>
    decreases results.len(),
{
    if results.len() == 0 {
        Seq::empty()
    } else {
        let rest = success_messages(results.drop_last());
        match results.last() {
            Ok(s) => rest.push(
                match s.spec_message() {
                    Some(m) => m@,
                    None => Seq::empty(),
                },
            ),
            Err(_) => rest,
        }
    }
}

/// What a command run from the interface gives back: the messages of its results,
/// one per line, or nothing when one of them is an error.
pub fn command_output(results: &Vec<DeckResult<ActionSuccess>>) -> (r: Option<String>)
    ensures
        match r {
            Some(out) => (forall|i: int| 0 <= i < results@.len() ==> #[trigger] results@[i] is Ok) && out@
                == join(success_messages(results@), "\n"@),
            None => exists|i: int| 0 <= i < results@.len() && #[trigger] results@[i] is Err,
        },
{
    let mut outputs: Vec<String> = Vec::new();
    let mut i: usize = 0;
    while i < results.len()
        invariant
            i <= results@.len(),
            forall|j: int| 0 <= j < i ==> #[trigger] results@[j] is Ok,
            views(outputs@) == success_messages(results@.subrange(0, i as int)),
        decreases results@.len() - i,
    {
        proof {
            let sub = results@.subrange(0, i + 1);
            assert(sub.drop_last() =~= results@.subrange(0, i as int));
            assert(sub.last() == results@[i as int]);
        }
        match &results[i] {
            Ok(s) => {
                outputs.push(s.get_message_or_blank());
                proof {
                    assert(views(outputs@) =~= views(outputs@.drop_last()).push(outputs@.last()@));
                }
            },
            Err(_) => {
                return None;
            },
        }
        i = i + 1;
    }
    assert(results@.subrange(0, results@.len() as int) =~= results@);
    Some(join_strings(&outputs, "\n"))
}

// ---------------------------------------------------------------------------
// Log tabs
// ---------------------------------------------------------------------------

/// The log tabs to fill, in order, each with the entries to add to it: all entries,
/// the general channel, the updater's text as one `Info` entry made at `now` when
/// there is one, then each trick's channel.
pub fn log_tabs(parsed: ParsedLogsLatest, updates: Option<String>, now: u64) -> (r: Vec<(String, Vec<StoredLogEntry>)>)
    ensures
        ({
            let off: int = if updates is Some { 3 } else { 2 };
            &&& r@.len() == off + parsed.tricks@.len()
            &&& r@[0].0@ == "all"@ && r@[0].1@ == parsed.all@
            &&& r@[1].0@ == "general"@ && r@[1].1@ == parsed.general@
            &&& updates matches Some(text) ==> r@[2].0@ == "updates"@ && r@[2].1@ == seq![
                StoredLogEntry { timestamp: now, log_type: LogType::Info, text },
            ]
            &&& forall|k: int| 0 <= k < parsed.tricks@.len() ==> #[trigger] r@[off + k] == parsed.tricks@[k]
        }),
{
    let ParsedLogsLatest { all, general, tricks } = parsed;
    let ghost tricks_before = tricks@;
    let mut tricks = tricks;
    let mut r: Vec<(String, Vec<StoredLogEntry>)> = Vec::new();
    r.push((owned("all"), all));
    r.push((owned("general"), general));
    match updates {
        Some(text) => {
            r.push((owned("updates"), vec![StoredLogEntry { timestamp: now, log_type: LogType::Info, text }]));
        },
        None => {},
    }
    let ghost before = r@;
    r.append(&mut tricks);
    assert(r@ =~= before + tricks_before);
    r
}

} // verus!
