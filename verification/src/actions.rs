//! Actions taken on tricks, and the general actions that are not about a single trick.
use crate::command::{Action, SteamSubcommand};
use crate::text::{clone_strings, owned};
use crate::tricks_config::{clone_opt_string, clone_opt_strings, same_opt_strings};
use vstd::hash_map::StringHashMap;
use vstd::prelude::*;

verus! {

/// The outcome of an action that went well, with an optional message for the user.
#[derive(Debug)]
pub struct ActionSuccess {
    message: Option<String>,
}

impl ActionSuccess {
    pub closed spec fn spec_message(self) -> Option<String> {
        self.message
    }

    /// A success with the given message.
    pub fn new(msg: Option<String>) -> (r: Self)
        ensures
            r.spec_message() == msg,
    {
        ActionSuccess { message: msg }
    }

    /// A success with the given message.
    pub fn success(msg: Option<String>) -> (r: Self)
        ensures
            r.spec_message() == msg,
    {
        ActionSuccess { message: msg }
    }

    /// The message, if there is one.
    pub fn get_message(&self) -> (r: Option<String>)
        ensures
            r == self.spec_message(),
    {
        clone_opt_string(&self.message)
    }

    /// The message, or an empty string when there is none.
    pub fn get_message_or_blank(&self) -> (r: String)
        ensures
            r@ == match self.spec_message() {
                Some(m) => m@,
                None => Seq::<char>::empty(),
            },
    {
        match &self.message {
            Some(m) => m.clone(),
            None => String::new(),
        }
    }
}

/// The action that can be taken on a single trick, without the trick.
/// The order of the variants is the order in which actions are shown to the user.
#[derive(Debug, Clone, Copy, PartialEq, Eq, Structural, Hash)]
pub enum SpecificActionID {
    Install,
    Run,
    AddToSteam,
    Update,
    Uninstall,
    Kill,
    Info,
}

/// All actions that can be taken on a trick, in the order they are shown.
pub open spec fn spec_all_variants() -> Seq<SpecificActionID> {
    seq![
        SpecificActionID::Install,
        SpecificActionID::Run,
        SpecificActionID::AddToSteam,
        SpecificActionID::Update,
        SpecificActionID::Uninstall,
        SpecificActionID::Kill,
        SpecificActionID::Info,
    ]
}

impl SpecificActionID {
    /// All actions that can be taken on a trick, in the order they are shown.
    pub fn all_variants() -> (r: Vec<SpecificActionID>)
        ensures
            r@ == spec_all_variants(),
    {
        let r = vec![
            SpecificActionID::Install,
            SpecificActionID::Run,
            SpecificActionID::AddToSteam,
            SpecificActionID::Update,
            SpecificActionID::Uninstall,
            SpecificActionID::Kill,
            SpecificActionID::Info,
        ];
        assert(r@ =~= spec_all_variants());
        r
    }

    /// The identifier of the action, in the kebab case of the command line.
    pub open spec fn spec_name(self) -> Seq<char> {
        match self {
            SpecificActionID::Install => "install"@,
            SpecificActionID::Run => "run"@,
            SpecificActionID::AddToSteam => "add-to-steam"@,
            SpecificActionID::Update => "update"@,
            SpecificActionID::Uninstall => "uninstall"@,
            SpecificActionID::Kill => "kill"@,
            SpecificActionID::Info => "info"@,
        }
    }

    /// The name shown on the action's button.
    pub open spec fn spec_display_name(self, is_ongoing: bool, is_completed: bool) -> Seq<char> {
        match self {
            SpecificActionID::Run => if is_ongoing {
                "Running"@
            } else {
                "Run"@
            },
            SpecificActionID::AddToSteam => if is_completed {
                "Added"@
            } else {
                "Add To Steam"@
            },
            SpecificActionID::Install => if is_ongoing {
                "Installing"@
            } else {
                "Install"@
            },
            SpecificActionID::Uninstall => if is_ongoing {
                "Uninstalling"@
            } else {
                "Uninstall"@
            },
            SpecificActionID::Update => if is_ongoing {
                "Updating"@
            } else {
                "Update"@
            },
            SpecificActionID::Kill => "Kill"@,
            SpecificActionID::Info => "Info"@,
        }
    }

    /// The identifier of the action, as a static string.
    pub fn as_static_str(&self) -> (r: &'static str)
        ensures
            r@ == self.spec_name(),
    {
        match self {
            SpecificActionID::Install => "install",
            SpecificActionID::Run => "run",
            SpecificActionID::AddToSteam => "add-to-steam",
            SpecificActionID::Update => "update",
            SpecificActionID::Uninstall => "uninstall",
            SpecificActionID::Kill => "kill",
            SpecificActionID::Info => "info",
        }
    }

    /// The identifier of the action, in the kebab case of the command line.
    pub fn to_string(&self) -> (r: String)
        ensures
            r@ == self.spec_name(),
    {
        owned(self.as_static_str())
    }

    /// The name shown on the action's button, which depends on whether the action is
    /// going on or has been completed.
    pub fn get_display_name(&self, is_ongoing: bool, is_completed: bool) -> (r: &'static str)
        ensures
            r@ == self.spec_display_name(is_ongoing, is_completed),
    {
        match self {
            SpecificActionID::Run => if is_ongoing {
                "Running"
            } else {
                "Run"
            },
            SpecificActionID::AddToSteam => if is_completed {
                "Added"
            } else {
                "Add To Steam"
            },
            SpecificActionID::Install => if is_ongoing {
                "Installing"
            } else {
                "Install"
            },
            SpecificActionID::Uninstall => if is_ongoing {
                "Uninstalling"
            } else {
                "Uninstall"
            },
            SpecificActionID::Update => if is_ongoing {
                "Updating"
            } else {
                "Update"
            },
            SpecificActionID::Kill => "Kill",
            SpecificActionID::Info => "Info",
        }
    }

    /// Each action's identifier paired with its resting display name, in the order
    /// of the actions.
    pub fn get_display_name_pairs() -> (r: Vec<(String, &'static str)>)
        ensures
            r@.len() == spec_all_variants().len(),
            forall|i: int|
                0 <= i < r@.len() ==> r@[i].0@ == spec_all_variants()[i].spec_name() && r@[i].1@
                    == spec_all_variants()[i].spec_display_name(false, false),
    {
        let all = SpecificActionID::all_variants();
        let mut r: Vec<(String, &'static str)> = Vec::new();
        let mut i: usize = 0;
        while i < all.len()
            invariant
                i <= all@.len(),
                all@ == spec_all_variants(),
                r@.len() == i,
                forall|j: int|
                    0 <= j < i ==> r@[j].0@ == spec_all_variants()[j].spec_name() && r@[j].1@
                        == spec_all_variants()[j].spec_display_name(false, false),
            decreases all@.len() - i,
        {
            let v = all[i];
            r.push((v.to_string(), v.get_display_name(false, false)));
            i = i + 1;
        }
        r
    }

    /// The identifiers of all actions mapped to their resting display names.
    pub fn get_display_name_mapping() -> (r: StringHashMap<&'static str>)
        ensures
            maps_display_names(r@, spec_all_variants().len() as int),
    {
        let pairs = SpecificActionID::get_display_name_pairs();
        let mut m: StringHashMap<&'static str> = StringHashMap::new();
        let mut i: usize = 0;
        while i < pairs.len()
            invariant
                i <= pairs@.len(),
                pairs@.len() == spec_all_variants().len(),
                forall|j: int|
                    0 <= j < pairs@.len() ==> #[trigger] pairs@[j].0@ == spec_all_variants()[j].spec_name() && pairs@[j].1@
                        == spec_all_variants()[j].spec_display_name(false, false),
                maps_display_names(m@, i as int),
            decreases pairs@.len() - i,
        {
            let (k, v) = (pairs[i].0.clone(), pairs[i].1);
            let ghost old_m = m@;
            proof {
                assert(pairs@[i as int].0@ == spec_all_variants()[i as int].spec_name());
                lemma_insert_display_name(old_m, i as int, k@, v);
            }
            m.insert(k, v);
            i = i + 1;
        }
        m
    }

    /// The action of this kind on the given trick.
    pub fn as_action(&self, trick_id: String) -> (r: SpecificAction)
        ensures
            r.spec_id() == trick_id,
            SpecificActionID::spec_of(r) == *self,
    {
        let id = trick_id;
        match self {
            SpecificActionID::Run => SpecificAction::Run { id },
            SpecificActionID::Install => SpecificAction::Install { id },
            SpecificActionID::Kill => SpecificAction::Kill { id },
            SpecificActionID::Uninstall => SpecificAction::Uninstall { id },
            SpecificActionID::AddToSteam => SpecificAction::AddToSteam { id },
            SpecificActionID::Info => SpecificAction::Info { id },
            SpecificActionID::Update => SpecificAction::Update { id },
        }
    }

    /// The kind of an action.
    pub open spec fn spec_of(action: SpecificAction) -> SpecificActionID {
        match action {
            SpecificAction::Run { .. } => SpecificActionID::Run,
            SpecificAction::Install { .. } => SpecificActionID::Install,
            SpecificAction::Kill { .. } => SpecificActionID::Kill,
            SpecificAction::Uninstall { .. } => SpecificActionID::Uninstall,
            SpecificAction::AddToSteam { .. } => SpecificActionID::AddToSteam,
            SpecificAction::Info { .. } => SpecificActionID::Info,
            SpecificAction::Update { .. } => SpecificActionID::Update,
        }
    }

    /// The kind of an action.
    pub fn of(action: &SpecificAction) -> (r: SpecificActionID)
        ensures
            r == SpecificActionID::spec_of(*action),
    {
        match action {
            SpecificAction::Run { .. } => SpecificActionID::Run,
            SpecificAction::Install { .. } => SpecificActionID::Install,
            SpecificAction::Kill { .. } => SpecificActionID::Kill,
            SpecificAction::Uninstall { .. } => SpecificActionID::Uninstall,
            SpecificAction::AddToSteam { .. } => SpecificActionID::AddToSteam,
            SpecificAction::Info { .. } => SpecificActionID::Info,
            SpecificAction::Update { .. } => SpecificActionID::Update,
        }
    }
}

/// The map holds the first `n` actions, each under its identifier with its resting
/// display name, and nothing else.
pub open spec fn maps_display_names(m: Map<Seq<char>, &'static str>, n: int) -> bool {
    &&& forall|j: int|
        0 <= j < n ==> m.contains_key(#[trigger] spec_all_variants()[j].spec_name()) && m[spec_all_variants()[j].spec_name()]@
            == spec_all_variants()[j].spec_display_name(false, false)
    &&& forall|k: Seq<char>| #[trigger] m.contains_key(k) ==> exists|j: int| 0 <= j < n && k == #[trigger] spec_all_variants()[j].spec_name()
}

proof fn lemma_insert_display_name(m: Map<Seq<char>, &'static str>, i: int, key: Seq<char>, v: &'static str)
    requires
        0 <= i < spec_all_variants().len(),
        maps_display_names(m, i),
        key == spec_all_variants()[i].spec_name(),
        v@ == spec_all_variants()[i].spec_display_name(false, false),
    ensures
        maps_display_names(m.insert(key, v), i + 1),
{
    let m2 = m.insert(key, v);
    assert forall|j: int| 0 <= j < i + 1 implies m2.contains_key(#[trigger] spec_all_variants()[j].spec_name())
        && m2[spec_all_variants()[j].spec_name()]@ == spec_all_variants()[j].spec_display_name(false, false) by {
        if j < i {
            law_action_names_distinct(spec_all_variants()[j], spec_all_variants()[i]);
        }
    }
    assert forall|k: Seq<char>| #[trigger] m2.contains_key(k) implies exists|j: int| 0 <= j < i + 1 && k == #[trigger] spec_all_variants()[j].spec_name() by {
        if k == key {
            assert(k == spec_all_variants()[i].spec_name());
        } else {
            let j = choose|j: int| 0 <= j < i && k == #[trigger] spec_all_variants()[j].spec_name();
            assert(k == spec_all_variants()[j].spec_name());
        }
    }
}

/// Making the action of a kind on a trick, then asking for its kind and its trick,
/// gives back the kind and the trick.
pub proof fn law_as_action_round_trip(kind: SpecificActionID, trick_id: String, action: SpecificAction)
    requires
        action.spec_id() == trick_id,
        SpecificActionID::spec_of(action) == kind,
    ensures
        action == match kind {
            SpecificActionID::Run => SpecificAction::Run { id: trick_id },
            SpecificActionID::Install => SpecificAction::Install { id: trick_id },
            SpecificActionID::Kill => SpecificAction::Kill { id: trick_id },
            SpecificActionID::Uninstall => SpecificAction::Uninstall { id: trick_id },
            SpecificActionID::AddToSteam => SpecificAction::AddToSteam { id: trick_id },
            SpecificActionID::Info => SpecificAction::Info { id: trick_id },
            SpecificActionID::Update => SpecificAction::Update { id: trick_id },
        },
{
}

/// Every action shown to the user has its own identifier.
pub proof fn law_action_names_distinct(a: SpecificActionID, b: SpecificActionID)
    requires
        a != b,
    ensures
        a.spec_name() != b.spec_name(),
{
    reveal_strlit("install");
    reveal_strlit("run");
    reveal_strlit("add-to-steam");
    reveal_strlit("update");
    reveal_strlit("uninstall");
    reveal_strlit("kill");
    reveal_strlit("info");
    if a.spec_name() == b.spec_name() {
        let n = a.spec_name();
        assert(n.len() == b.spec_name().len());
        assert(n[0] == b.spec_name()[0]);
        assert(n[n.len() - 1] == b.spec_name()[n.len() - 1]);
    }
}

/// An action on a single trick.
#[derive(Debug)]
pub enum SpecificAction {
    Run { id: String },
    Install { id: String },
    Kill { id: String },
    Uninstall { id: String },
    AddToSteam { id: String },
    Update { id: String },
    /// Needs no provider: it only reads the configuration.
    Info { id: String },
}

impl SpecificAction {
    pub open spec fn spec_id(self) -> String {
        match self {
            SpecificAction::Run { id } => id,
            SpecificAction::Install { id } => id,
            SpecificAction::Kill { id } => id,
            SpecificAction::Uninstall { id } => id,
            SpecificAction::AddToSteam { id } => id,
            SpecificAction::Update { id } => id,
            SpecificAction::Info { id } => id,
        }
    }

    /// The ID of the trick the action is taken on.
    pub fn id(&self) -> (r: &str)
        ensures
            r@ == self.spec_id()@,
    {
        match self {
            SpecificAction::Run { id } | SpecificAction::Install { id } | SpecificAction::Kill {
                id,
            } | SpecificAction::Uninstall { id } | SpecificAction::AddToSteam { id }
            | SpecificAction::Update { id } | SpecificAction::Info { id } => id.as_str(),
        }
    }

    /// The info action on a trick.
    pub fn as_info(id: &str) -> (r: SpecificAction)
        ensures
            r matches SpecificAction::Info { id: i } && i@ == id@,
    {
        SpecificAction::Info { id: owned(id) }
    }

    pub fn duplicate(&self) -> (r: SpecificAction)
        ensures
            r == *self,
    {
        match self {
            SpecificAction::Run { id } => SpecificAction::Run { id: id.clone() },
            SpecificAction::Install { id } => SpecificAction::Install { id: id.clone() },
            SpecificAction::Kill { id } => SpecificAction::Kill { id: id.clone() },
            SpecificAction::Uninstall { id } => SpecificAction::Uninstall { id: id.clone() },
            SpecificAction::AddToSteam { id } => SpecificAction::AddToSteam { id: id.clone() },
            SpecificAction::Update { id } => SpecificAction::Update { id: id.clone() },
            SpecificAction::Info { id } => SpecificAction::Info { id: id.clone() },
        }
    }
}

/// An action that is not about a single trick.
#[derive(Debug)]
pub enum GeneralAction {
    List { installed: bool },
    UpdateAll,
    Actions { id: Option<String>, json: bool },
    GetConfig,
    Version { verbose: bool },
    Steam { _steam_subcommand: SteamSubcommand },
    GetActionDisplayNameMapping,
    RunSystemCommand { command: String, args: Option<Vec<String>> },
    DebugSteamShortcuts { filename: Option<String> },
    AddDecktricksToSteam,
}

/// An action, sorted into those about one trick and those about none.
#[derive(Debug)]
pub enum TypedAction {
    Specific(SpecificAction),
    General(GeneralAction),
}

pub fn clone_steam_subcommand(s: &SteamSubcommand) -> (r: SteamSubcommand)
    ensures
        r == *s,
{
    match s {
        SteamSubcommand::Restart => SteamSubcommand::Restart,
        SteamSubcommand::RunGameID { full_game_id } => SteamSubcommand::RunGameID {
            full_game_id: full_game_id.clone(),
        },
        SteamSubcommand::WaitForDecktricksShortcutRelaunch =>
            SteamSubcommand::WaitForDecktricksShortcutRelaunch,
    }
}

/// The typed action that a command line action stands for.
pub open spec fn typed_action_of(a: Action, t: TypedAction) -> bool {
    match a {
        Action::Run { id } => t == TypedAction::Specific(SpecificAction::Run { id }),
        Action::Kill { id } => t == TypedAction::Specific(SpecificAction::Kill { id }),
        Action::Info { id } => t == TypedAction::Specific(SpecificAction::Info { id }),
        Action::Install { id } => t == TypedAction::Specific(SpecificAction::Install { id }),
        Action::AddToSteam { id } => t == TypedAction::Specific(SpecificAction::AddToSteam { id }),
        Action::Uninstall { id } => t == TypedAction::Specific(SpecificAction::Uninstall { id }),
        Action::Update { id: Some(id) } => t == TypedAction::Specific(SpecificAction::Update { id }),
        Action::Update { id: None } => t == TypedAction::General(GeneralAction::UpdateAll),
        Action::List { installed } => t == TypedAction::General(GeneralAction::List { installed }),
        Action::Actions { id, json } => t == TypedAction::General(
            GeneralAction::Actions { id, json },
        ),
        Action::GetConfig => t == TypedAction::General(GeneralAction::GetConfig),
        Action::Version { verbose } => t == TypedAction::General(
            GeneralAction::Version { verbose },
        ),
        Action::Steam { _steam_subcommand } => t == TypedAction::General(
            GeneralAction::Steam { _steam_subcommand },
        ),
        Action::GetActionDisplayNameMapping => t == TypedAction::General(
            GeneralAction::GetActionDisplayNameMapping,
        ),
        Action::RunSystemCommand { command, args } => t matches TypedAction::General(
            GeneralAction::RunSystemCommand { command: c, args: a2 },
        ) && c == command && same_opt_strings(a2, args),
        Action::DebugSteamShortcuts { filename } => t == TypedAction::General(
            GeneralAction::DebugSteamShortcuts { filename },
        ),
        Action::AddDecktricksToSteam => t == TypedAction::General(
            GeneralAction::AddDecktricksToSteam,
        ),
    }
}

impl TypedAction {
    /// Sorts a command line action into one about a trick or one about none.
    pub fn from_action(action: &Action) -> (r: TypedAction)
        ensures
            typed_action_of(*action, r),
            (r is Specific) == crate::command::is_trick_action(*action),
    {
        match action {
            Action::Run { id } => TypedAction::Specific(SpecificAction::Run { id: id.clone() }),
            Action::Kill { id } => TypedAction::Specific(SpecificAction::Kill { id: id.clone() }),
            Action::Info { id } => TypedAction::Specific(SpecificAction::Info { id: id.clone() }),
            Action::Install { id } => TypedAction::Specific(
                SpecificAction::Install { id: id.clone() },
            ),
            Action::AddToSteam { id } => TypedAction::Specific(
                SpecificAction::AddToSteam { id: id.clone() },
            ),
            Action::Uninstall { id } => TypedAction::Specific(
                SpecificAction::Uninstall { id: id.clone() },
            ),
            Action::Update { id: Some(id) } => TypedAction::Specific(
                SpecificAction::Update { id: id.clone() },
            ),
            Action::Update { id: None } => TypedAction::General(GeneralAction::UpdateAll),
            Action::List { installed } => TypedAction::General(
                GeneralAction::List { installed: *installed },
            ),
            Action::Actions { id, json } => TypedAction::General(
                GeneralAction::Actions { id: clone_opt_string(id), json: *json },
            ),
            Action::GetConfig => TypedAction::General(GeneralAction::GetConfig),
            Action::Version { verbose } => TypedAction::General(
                GeneralAction::Version { verbose: *verbose },
            ),
            Action::Steam { _steam_subcommand } => TypedAction::General(
                GeneralAction::Steam { _steam_subcommand: clone_steam_subcommand(_steam_subcommand) },
            ),
            Action::GetActionDisplayNameMapping => TypedAction::General(
                GeneralAction::GetActionDisplayNameMapping,
            ),
            Action::RunSystemCommand { command, args } => TypedAction::General(
                GeneralAction::RunSystemCommand {
                    command: command.clone(),
                    args: clone_opt_strings(args),
                },
            ),
            Action::DebugSteamShortcuts { filename } => TypedAction::General(
                GeneralAction::DebugSteamShortcuts { filename: clone_opt_string(filename) },
            ),
            Action::AddDecktricksToSteam => TypedAction::General(
                GeneralAction::AddDecktricksToSteam,
            ),
        }
    }
}

} // verus!
