//! The configuration of tricks: what each trick is, how it is provided, and the
//! loader that holds all known tricks, one per trick ID, in order of their IDs.
use crate::errors::KnownError;
use crate::text::{clone_strings, lemma_lt_asymmetric, lemma_lt_irreflexive, lemma_lt_total,
    lemma_lt_transitive, owned, push_str, seq_lt, str_eq, str_lt};
use vstd::prelude::*;

verus! {

pub type TrickID = String;

pub type CategoryID = String;

/// The configuration file's contents: the known categories and the tricks.
#[derive(Debug)]
pub struct TricksConfig {
    pub known_categories: Vec<CategoryID>,
    pub tricks: Vec<Trick>,
}

/// A trick: usually a package that can be installed or run.
#[derive(Debug)]
pub struct Trick {
    pub id: String,
    pub provider_config: ProviderConfig,
    pub display_name: String,
    pub description: String,
    pub always_present_on_steamdeck: Option<bool>,
    pub icon: Option<String>,
    pub categories: Vec<String>,
}

/// How a trick is provided.
#[derive(Debug)]
pub enum ProviderConfig {
    Flatpak(Flatpak),
    DeckyInstaller(DeckyInstaller),
    EmuDeckInstaller(EmuDeckInstaller),
    GeForceInstaller(GeForceInstaller),
    SimpleCommand(SimpleCommand),
    SystemdRun(SystemdRun),
}

#[derive(Debug)]
pub struct Flatpak {
    pub id: String,
}

#[derive(Debug)]
pub struct SimpleCommand {
    pub command: String,
    pub args: Option<Vec<String>>,
    pub execution_dir: Option<String>,
}

#[derive(Debug)]
pub struct SystemdRun {
    pub unit_id: String,
    pub command: String,
    pub args: Option<Vec<String>>,
    pub execution_dir: Option<String>,
    pub is_system: Option<bool>,
}

#[derive(Debug)]
pub struct DeckyInstaller;

#[derive(Debug)]
pub struct EmuDeckInstaller;

#[derive(Debug)]
pub struct GeForceInstaller;

/// Two optional lists of strings hold the same strings.
pub open spec fn same_opt_strings(a: Option<Vec<String>>, b: Option<Vec<String>>) -> bool {
    match (a, b) {
        (None, None) => true,
        (Some(x), Some(y)) => x@ == y@,
        _ => false,
    }
}

/// Two provider configurations say the same.
pub open spec fn same_provider_config(a: ProviderConfig, b: ProviderConfig) -> bool {
    match (a, b) {
        (ProviderConfig::Flatpak(x), ProviderConfig::Flatpak(y)) => x.id == y.id,
        (ProviderConfig::DeckyInstaller(_), ProviderConfig::DeckyInstaller(_)) => true,
        (ProviderConfig::EmuDeckInstaller(_), ProviderConfig::EmuDeckInstaller(_)) => true,
        (ProviderConfig::GeForceInstaller(_), ProviderConfig::GeForceInstaller(_)) => true,
        (ProviderConfig::SimpleCommand(x), ProviderConfig::SimpleCommand(y)) => {
            &&& x.command == y.command
            &&& same_opt_strings(x.args, y.args)
            &&& x.execution_dir == y.execution_dir
        },
        (ProviderConfig::SystemdRun(x), ProviderConfig::SystemdRun(y)) => {
            &&& x.unit_id == y.unit_id
            &&& x.command == y.command
            &&& same_opt_strings(x.args, y.args)
            &&& x.execution_dir == y.execution_dir
            &&& x.is_system == y.is_system
        },
        _ => false,
    }
}

/// Two tricks say the same.
pub open spec fn same_trick(a: Trick, b: Trick) -> bool {
    &&& a.id == b.id
    &&& same_provider_config(a.provider_config, b.provider_config)
    &&& a.display_name == b.display_name
    &&& a.description == b.description
    &&& a.always_present_on_steamdeck == b.always_present_on_steamdeck
    &&& a.icon == b.icon
    &&& a.categories@ == b.categories@
}

pub fn clone_opt_string(o: &Option<String>) -> (r: Option<String>)
    ensures
        r == *o,
{
    match o {
        Some(s) => Some(s.clone()),
        None => None,
    }
}

pub fn clone_opt_strings(o: &Option<Vec<String>>) -> (r: Option<Vec<String>>)
    ensures
        same_opt_strings(r, *o),
{
    match o {
        Some(v) => Some(clone_strings(v)),
        None => None,
    }
}

impl ProviderConfig {
    pub fn duplicate(&self) -> (r: ProviderConfig)
        ensures
            same_provider_config(r, *self),
    {
        match self {
            ProviderConfig::Flatpak(f) => ProviderConfig::Flatpak(Flatpak { id: f.id.clone() }),
            ProviderConfig::DeckyInstaller(_) => ProviderConfig::DeckyInstaller(DeckyInstaller),
            ProviderConfig::EmuDeckInstaller(_) => ProviderConfig::EmuDeckInstaller(
                EmuDeckInstaller,
            ),
            ProviderConfig::GeForceInstaller(_) => ProviderConfig::GeForceInstaller(
                GeForceInstaller,
            ),
            ProviderConfig::SimpleCommand(c) => ProviderConfig::SimpleCommand(
                SimpleCommand {
                    command: c.command.clone(),
                    args: clone_opt_strings(&c.args),
                    execution_dir: clone_opt_string(&c.execution_dir),
                },
            ),
            ProviderConfig::SystemdRun(c) => ProviderConfig::SystemdRun(
                SystemdRun {
                    unit_id: c.unit_id.clone(),
                    command: c.command.clone(),
                    args: clone_opt_strings(&c.args),
                    execution_dir: clone_opt_string(&c.execution_dir),
                    is_system: c.is_system,
                },
            ),
        }
    }

    pub open spec fn spec_kind_name(self) -> Seq<char> {
        match self {
            ProviderConfig::Flatpak(_) => "Flatpak"@,
            ProviderConfig::DeckyInstaller(_) => "DeckyInstaller"@,
            ProviderConfig::EmuDeckInstaller(_) => "EmuDeckInstaller"@,
            ProviderConfig::GeForceInstaller(_) => "GeForceInstaller"@,
            ProviderConfig::SimpleCommand(_) => "SimpleCommand"@,
            ProviderConfig::SystemdRun(_) => "SystemdRun"@,
        }
    }

    /// The name of the kind of provider, as it is displayed.
    pub fn kind_name(&self) -> (r: &'static str)
        ensures
            r@ == self.spec_kind_name(),
    {
        match self {
            ProviderConfig::Flatpak(_) => "Flatpak",
            ProviderConfig::DeckyInstaller(_) => "DeckyInstaller",
            ProviderConfig::EmuDeckInstaller(_) => "EmuDeckInstaller",
            ProviderConfig::GeForceInstaller(_) => "GeForceInstaller",
            ProviderConfig::SimpleCommand(_) => "SimpleCommand",
            ProviderConfig::SystemdRun(_) => "SystemdRun",
        }
    }
}

impl Trick {
    pub fn duplicate(&self) -> (r: Trick)
        ensures
            same_trick(r, *self),
    {
        Trick {
            id: self.id.clone(),
            provider_config: self.provider_config.duplicate(),
            display_name: self.display_name.clone(),
            description: self.description.clone(),
            always_present_on_steamdeck: self.always_present_on_steamdeck,
            icon: clone_opt_string(&self.icon),
            categories: clone_strings(&self.categories),
        }
    }

    /// A trick used in tests: a simple command with empty fields.
    pub fn test() -> (r: Trick)
        ensures
            r.id@ == "trick_for_test"@,
            r.provider_config matches ProviderConfig::SimpleCommand(c) && c.command@.len() == 0
                && c.args is None && c.execution_dir is None,
            r.categories@.len() == 0,
            r.display_name@.len() == 0,
            r.description@.len() == 0,
            r.always_present_on_steamdeck is None,
            r.icon is None,
    {
        Trick {
            id: owned("trick_for_test"),
            provider_config: ProviderConfig::SimpleCommand(
                SimpleCommand { command: String::new(), args: None, execution_dir: None },
            ),
            categories: Vec::new(),
            display_name: String::new(),
            description: String::new(),
            always_present_on_steamdeck: None,
            icon: None,
        }
    }
}

impl SystemdRun {
    pub fn duplicate(&self) -> (r: SystemdRun)
        ensures
            r.unit_id == self.unit_id,
            r.command == self.command,
            same_opt_strings(r.args, self.args),
            r.execution_dir == self.execution_dir,
            r.is_system == self.is_system,
    {
        SystemdRun {
            unit_id: self.unit_id.clone(),
            command: self.command.clone(),
            args: clone_opt_strings(&self.args),
            execution_dir: clone_opt_string(&self.execution_dir),
            is_system: self.is_system,
        }
    }

    pub open spec fn spec_args(self) -> Seq<Seq<char>> {
        let base = seq!["--user"@, "--collect"@];
        let with_dir = match self.execution_dir {
            Some(dir) => base.push("--working-directory="@ + dir@),
            None => base,
        };
        let with_unit = with_dir.push("--unit="@ + self.unit_id@).push(self.command@);
        match self.args {
            Some(args) => with_unit + crate::text::views(args@),
            None => with_unit,
        }
    }

    /// Starting the trick hands `systemd-run` first `--user --collect`, then the
    /// working directory when one is configured, then the unit's name, then the
    /// trick's own command followed by exactly its configured arguments, in order.
    pub proof fn law_args_end_with_command_and_its_args(self)
        ensures
            ({
                let a = match self.args {
                    Some(x) => crate::text::views(x@),
                    None => Seq::<Seq<char>>::empty(),
                };
                let s = self.spec_args();
                let d: int = if self.execution_dir is Some { 1 } else { 0 };
                &&& s.len() == 4 + d + a.len()
                &&& s[0] == "--user"@
                &&& s[1] == "--collect"@
                &&& (self.execution_dir matches Some(dir) ==> s[2] == "--working-directory="@ + dir@)
                &&& s[2 + d] == "--unit="@ + self.unit_id@
                &&& s[3 + d] == self.command@
                &&& s.subrange(4 + d, s.len() as int) == a
            }),
    {
        let a = match self.args {
            Some(x) => crate::text::views(x@),
            None => Seq::<Seq<char>>::empty(),
        };
        let s = self.spec_args();
        let d: int = if self.execution_dir is Some { 1 } else { 0 };
        assert(s.subrange(4 + d, s.len() as int) =~= a);
    }

    /// The arguments handed to `systemd-run` to start this trick.
    pub fn get_as_args(&self) -> (r: Vec<String>)
        ensures
            crate::text::views(r@) == self.spec_args(),
    {
        let mut args: Vec<String> = Vec::new();
        args.push(owned("--user"));
        args.push(owned("--collect"));
        let ghost base = seq!["--user"@, "--collect"@];
        assert(crate::text::views(args@) =~= base);
        if let Some(ex) = &self.execution_dir {
            let mut dir_arg = owned("--working-directory=");
            push_str(&mut dir_arg, ex.as_str());
            args.push(dir_arg);
        }
        let mut unit_arg = owned("--unit=");
        push_str(&mut unit_arg, self.unit_id.as_str());
        args.push(unit_arg);
        args.push(self.command.clone());
        let ghost with_unit = crate::text::views(args@);
        if let Some(cmd_args) = &self.args {
            let mut i: usize = 0;
            while i < cmd_args.len()
                invariant
                    i <= cmd_args@.len(),
                    crate::text::views(args@) == with_unit + crate::text::views(
                        cmd_args@.subrange(0, i as int),
                    ),
                decreases cmd_args@.len() - i,
            {
                let ghost prev = args@;
                args.push(cmd_args[i].clone());
                assert(crate::text::views(args@) =~= crate::text::views(prev).push(
                    cmd_args@[i as int]@,
                ));
                assert(crate::text::views(cmd_args@.subrange(0, i + 1)) =~= crate::text::views(
                    cmd_args@.subrange(0, i as int),
                ).push(cmd_args@[i as int]@));
                assert(crate::text::views(args@) =~= with_unit + crate::text::views(
                    cmd_args@.subrange(0, i + 1),
                ));
                i = i + 1;
            }
            assert(cmd_args@.subrange(0, cmd_args@.len() as int) =~= cmd_args@);
        }
        proof {
            assert(crate::text::views(args@) =~= self.spec_args());
        }
        args
    }
}

// ---------------------------------------------------------------------------
// Loading tricks
// ---------------------------------------------------------------------------

/// The tricks that a list of configured tricks leaves, by trick ID. Tricks are
/// taken in order of their display names (in the order they were configured among
/// equal names), and for each ID the last one taken stays.
pub open spec fn chosen(tricks: Seq<Trick>) -> Map<Seq<char>, Trick>
    decreases tricks.len(),
{
    if tricks.len() == 0 {
        Map::empty()
    } else {
        let m = chosen(tricks.drop_last());
        let t = tricks.last();
        if m.contains_key(t.id@) && seq_lt(t.display_name@, m[t.id@].display_name@) {
            m
        } else {
            m.insert(t.id@, t)
        }
    }
}

/// The tricks are in strictly increasing order of their IDs.
pub open spec fn sorted_by_id(tricks: Seq<Trick>) -> bool {
    forall|i: int, j: int| 0 <= i < j < tricks.len() ==> seq_lt(tricks[i].id@, tricks[j].id@)
}

/// The sequence holds exactly the tricks of the map, one for each key.
pub open spec fn lists_map(tricks: Seq<Trick>, m: Map<Seq<char>, Trick>) -> bool {
    &&& forall|i: int| 0 <= i < tricks.len() ==> #[trigger] m.contains_key(tricks[i].id@)
        && m[tricks[i].id@] == tricks[i]
    &&& forall|k: Seq<char>| #[trigger]
        m.contains_key(k) ==> exists|i: int| 0 <= i < tricks.len() && tricks[i].id@ == k
}

/// All known tricks, one per trick ID in order of the IDs, and the known categories.
#[derive(Debug)]
pub struct TricksLoader {
    tricks: Vec<Trick>,
    categories: Vec<CategoryID>,
}

impl TricksLoader {
    pub closed spec fn wf(self) -> bool {
        sorted_by_id(self.tricks@)
    }

    pub closed spec fn spec_tricks(self) -> Seq<Trick> {
        self.tricks@
    }

    pub closed spec fn spec_categories(self) -> Seq<String> {
        self.categories@
    }

    /// Builds the loader from a configuration: for each trick ID, the trick that
    /// comes last in order of display names stays, and tricks are kept in order of
    /// their IDs.
    pub fn from_config(config: TricksConfig) -> (r: TricksLoader)
        ensures
            r.wf(),
            lists_map(r.spec_tricks(), chosen(config.tricks@)),
            r.spec_categories() == config.known_categories@,
    {
        let TricksConfig { known_categories, tricks: configured } = config;
        let ghost all = configured@;
        assert(all.len() == configured.len());
        let mut tricks: Vec<Trick> = Vec::new();
        let mut rest = reversed(configured);
        let mut n: usize = 0;
        assert(all.subrange(0, 0) =~= Seq::<Trick>::empty());
        while rest.len() > 0
            invariant
                n <= all.len(),
                all.len() <= usize::MAX,
                rest@.len() + n == all.len(),
                forall|k: int| 0 <= k < rest@.len() ==> rest@[k] == all[all.len() - 1 - k],
                sorted_by_id(tricks@),
                lists_map(tricks@, chosen(all.subrange(0, n as int))),
            decreases rest@.len(),
        {
            let t = rest.pop().unwrap();
            assert(t == all[n as int]);
            let ghost before = tricks@;
            let ghost m = chosen(all.subrange(0, n as int));
            proof {
                assert(all.subrange(0, n + 1).drop_last() =~= all.subrange(0, n as int));
                assert(all.subrange(0, n + 1).last() == t);
            }
            insert_chosen(&mut tricks, t, Ghost(m));
            n = n + 1;
        }
        assert(all.subrange(0, n as int) =~= all);
        TricksLoader { tricks, categories: known_categories }
    }

    /// A loader with no tricks and no categories, for when no configuration can be had.
    pub fn empty_last_fallback_dangerous() -> (r: TricksLoader)
        ensures
            r.wf(),
            r.spec_tricks().len() == 0,
            r.spec_categories().len() == 0,
    {
        TricksLoader { tricks: Vec::new(), categories: Vec::new() }
    }

    /// A well-formed loader holds its tricks in strictly increasing order of their IDs.
    pub proof fn lemma_in_id_order(self)
        requires
            self.wf(),
        ensures
            sorted_by_id(self.spec_tricks()),
    {
    }

    /// A well-formed loader has one trick per ID.
    pub proof fn lemma_unique_ids(self)
        requires
            self.wf(),
        ensures
            forall|i: int, j: int|
                0 <= i < self.spec_tricks().len() && 0 <= j < self.spec_tricks().len() && i != j
                    ==> #[trigger] self.spec_tricks()[i].id@ != #[trigger] self.spec_tricks()[j].id@,
    {
        assert forall|i: int, j: int|
            0 <= i < self.spec_tricks().len() && 0 <= j < self.spec_tricks().len() && i != j implies #[trigger] self.spec_tricks()[i].id@
                != #[trigger] self.spec_tricks()[j].id@ by {
            if i < j {
                assert(seq_lt(self.tricks@[i].id@, self.tricks@[j].id@));
                lemma_lt_irreflexive(self.tricks@[i].id@);
            } else {
                assert(seq_lt(self.tricks@[j].id@, self.tricks@[i].id@));
                lemma_lt_irreflexive(self.tricks@[j].id@);
            }
        }
    }

    /// The trick with the given ID.
    pub fn get_trick(&self, maybe_id: &str) -> (r: Result<&Trick, KnownError>)
        ensures
            r matches Ok(t) ==> (exists|i: int|
                0 <= i < self.spec_tricks().len() && self.spec_tricks()[i] == *t) && t.id@
                == maybe_id@,
            r is Err <==> forall|i: int|
                0 <= i < self.spec_tricks().len() ==> self.spec_tricks()[i].id@ != maybe_id@,
            r matches Err(e) ==> e matches KnownError::UnknownTrickID(id) && id@ == maybe_id@,
    {
        let mut i: usize = 0;
        while i < self.tricks.len()
            invariant
                i <= self.tricks@.len(),
                forall|j: int| 0 <= j < i ==> self.tricks@[j].id@ != maybe_id@,
            decreases self.tricks@.len() - i,
        {
            if str_eq(self.tricks[i].id.as_str(), maybe_id) {
                return Ok(&self.tricks[i]);
            }
            i = i + 1;
        }
        Err(KnownError::UnknownTrickID(owned(maybe_id)))
    }

    /// All tricks, in order of their IDs.
    pub fn get_all_tricks(&self) -> (r: &Vec<Trick>)
        ensures
            r@ == self.spec_tricks(),
            self.wf() ==> sorted_by_id(r@),
    {
        &self.tricks
    }

    /// The tricks paired with their IDs, in order of the IDs.
    pub fn get_btreemap(&self) -> (r: Vec<(TrickID, &Trick)>)
        ensures
            r@.len() == self.spec_tricks().len(),
            forall|i: int|
                0 <= i < r@.len() ==> r@[i].0 == self.spec_tricks()[i].id && *r@[i].1
                    == self.spec_tricks()[i],
    {
        let mut r: Vec<(TrickID, &Trick)> = Vec::new();
        let mut i: usize = 0;
        while i < self.tricks.len()
            invariant
                i <= self.tricks@.len(),
                r@.len() == i,
                forall|j: int|
                    0 <= j < i ==> r@[j].0 == self.tricks@[j].id && *r@[j].1 == self.tricks@[j],
            decreases self.tricks@.len() - i,
        {
            let t = &self.tricks[i];
            r.push((t.id.clone(), t));
            i = i + 1;
        }
        r
    }

    /// The known categories.
    pub fn get_all_categories(&self) -> (r: Vec<CategoryID>)
        ensures
            r@ == self.spec_categories(),
    {
        clone_strings(&self.categories)
    }
}

/// The elements of a vector in reverse order.
pub fn reversed<T>(v: Vec<T>) -> (r: Vec<T>)
    ensures
        r@.len() == v@.len(),
        forall|k: int| 0 <= k < v@.len() ==> r@[k] == v@[v@.len() - 1 - k],
{
    let ghost orig = v@;
    let mut v = v;
    let mut r: Vec<T> = Vec::new();
    while v.len() > 0
        invariant
            r@.len() + v@.len() == orig.len(),
            v@ == orig.subrange(0, v@.len() as int),
            forall|k: int| 0 <= k < r@.len() ==> r@[k] == orig[orig.len() - 1 - k],
        decreases v@.len(),
    {
        let x = v.pop().unwrap();
        r.push(x);
    }
    r
}

/// Inserts a newly configured trick into the tricks kept so far.
fn insert_chosen(tricks: &mut Vec<Trick>, t: Trick, Ghost(m): Ghost<Map<Seq<char>, Trick>>)
    requires
        sorted_by_id(old(tricks)@),
        lists_map(old(tricks)@, m),
    ensures
        sorted_by_id(final(tricks)@),
        lists_map(
            final(tricks)@,
            if m.contains_key(t.id@) && seq_lt(t.display_name@, m[t.id@].display_name@) {
                m
            } else {
                m.insert(t.id@, t)
            },
        ),
{
    let ghost old_tricks = tricks@;
    let mut k: usize = 0;
    while k < tricks.len() && str_lt(tricks[k].id.as_str(), t.id.as_str())
        invariant
            k <= tricks@.len(),
            tricks@ == old_tricks,
            forall|j: int| 0 <= j < k ==> seq_lt(tricks@[j].id@, t.id@),
        decreases tricks@.len() - k,
    {
        k = k + 1;
    }
    // Every trick from position k on has an ID at least that of t.
    assert forall|j: int| k <= j < tricks@.len() implies !seq_lt(tricks@[j].id@, t.id@) by {
        if j > k {
            if seq_lt(tricks@[j].id@, t.id@) {
                lemma_lt_asymmetric(tricks@[k as int].id@, tricks@[j].id@);
                lemma_lt_total(tricks@[k as int].id@, t.id@);
                if seq_lt(t.id@, tricks@[k as int].id@) {
                    lemma_lt_transitive(t.id@, tricks@[k as int].id@, tricks@[j].id@);
                    lemma_lt_asymmetric(t.id@, tricks@[j].id@);
                } else if tricks@[k as int].id@ == t.id@ {
                    lemma_lt_asymmetric(t.id@, tricks@[j].id@);
                }
            }
        }
    }
    if k < tricks.len() && str_eq(tricks[k].id.as_str(), t.id.as_str()) {
        assert(m.contains_key(old_tricks[k as int].id@));
        assert(m.contains_key(t.id@) && m[t.id@] == old_tricks[k as int]);
        if str_lt(t.display_name.as_str(), tricks[k].display_name.as_str()) {
            return;
        }
        tricks.set(k, t);
        proof {
            let m2 = m.insert(t.id@, t);
            assert forall|i: int| 0 <= i < tricks@.len() implies #[trigger] m2.contains_key(
                tricks@[i].id@,
            ) && m2[tricks@[i].id@] == tricks@[i] by {
                if i != k {
                    assert(old_tricks[i].id@ != t.id@) by {
                        if i < k {
                            lemma_lt_irreflexive(t.id@);
                        } else {
                            lemma_lt_irreflexive(t.id@);
                        }
                    }
                }
            }
            assert forall|key: Seq<char>| #[trigger]
                m2.contains_key(key) implies exists|i: int|
                0 <= i < tricks@.len() && tricks@[i].id@ == key by {
                if key == t.id@ {
                    assert(tricks@[k as int].id@ == key);
                } else {
                    let i = choose|i: int| 0 <= i < old_tricks.len() && old_tricks[i].id@ == key;
                    assert(tricks@[i].id@ == key);
                }
            }
        }
    } else {
        proof {
            if m.contains_key(t.id@) {
                let i = choose|i: int| 0 <= i < old_tricks.len() && old_tricks[i].id@ == t.id@;
                if i < k {
                    lemma_lt_irreflexive(t.id@);
                } else if i > k {
                    lemma_lt_total(old_tricks[k as int].id@, t.id@);
                    lemma_lt_transitive(t.id@, old_tricks[k as int].id@, old_tricks[i].id@);
                    lemma_lt_irreflexive(t.id@);
                }
            }
            assert(!m.contains_key(t.id@));
            if k < old_tricks.len() {
                lemma_lt_total(old_tricks[k as int].id@, t.id@);
                assert(seq_lt(t.id@, old_tricks[k as int].id@));
            }
        }
        tricks.insert(k, t);
        proof {
            let m2 = m.insert(t.id@, t);
            assert forall|i: int, j: int| 0 <= i < j < tricks@.len() implies seq_lt(
                tricks@[i].id@,
                tricks@[j].id@,
            ) by {
                if i < k && j == k {
                } else if i < k && j > k {
                    lemma_lt_transitive(old_tricks[i].id@, t.id@, old_tricks[k as int].id@);
                    if j - 1 > k {
                        lemma_lt_transitive(
                            old_tricks[i].id@,
                            old_tricks[k as int].id@,
                            old_tricks[j - 1].id@,
                        );
                    }
                } else if i == k {
                    if j - 1 > k {
                        lemma_lt_transitive(
                            t.id@,
                            old_tricks[k as int].id@,
                            old_tricks[j - 1].id@,
                        );
                    }
                } else {
                }
            }
            assert forall|i: int| 0 <= i < tricks@.len() implies #[trigger] m2.contains_key(
                tricks@[i].id@,
            ) && m2[tricks@[i].id@] == tricks@[i] by {
                if i < k {
                    assert(old_tricks[i].id@ != t.id@) by {
                        lemma_lt_irreflexive(t.id@);
                    }
                } else if i > k {
                    assert(old_tricks[i - 1].id@ != t.id@) by {
                        lemma_lt_irreflexive(t.id@);
                    }
                }
            }
            assert forall|key: Seq<char>| #[trigger]
                m2.contains_key(key) implies exists|i: int|
                0 <= i < tricks@.len() && tricks@[i].id@ == key by {
                if key == t.id@ {
                    assert(tricks@[k as int].id@ == key);
                } else {
                    let i = choose|i: int| 0 <= i < old_tricks.len() && old_tricks[i].id@ == key;
                    if i < k {
                        assert(tricks@[i].id@ == key);
                    } else {
                        assert(tricks@[i + 1].id@ == key);
                    }
                }
            }
        }
    }
}

} // verus!
