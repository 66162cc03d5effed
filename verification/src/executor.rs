//! The executor: it holds the tricks, what is known of the system, and takes the
//! actions that commands ask for.
//!
//! Actions run their system commands through the runner. What an action leaves
//! for the program (fetching an installer, editing Steam's shortcuts, showing
//! things that are serialised) comes back as an outcome.
use crate::actions::{spec_all_variants, typed_action_of, ActionSuccess, GeneralAction, SpecificAction,
    SpecificActionID, TypedAction, clone_steam_subcommand};
use crate::add_to_steam::{context_result, AddToSteamTarget, TrickAddToSteamContext};
use crate::command::{Action, DecktricksCommand, LogType, SteamSubcommand};
use crate::context::{GeneralExecutionContext, SpecificExecutionContext};
use crate::errors::{DeckResult, KnownError};
use crate::logging::LogChannel;
use crate::providers::dyn_provider::{built_for, checks_for, spec_gated_message, DynTrickProvider};
use crate::providers::flatpak::{ran_update_all, update_all, update_all_result};
use crate::providers::system_context::{gathered_from_answers, FullSystemContext};
use crate::providers::{finished_as, perform, ActionPlan, ActionStep, RemoteRun};
use crate::system_command::{ran, ActualRunner, SysCommand, SysCommandResult};
use crate::utils::{killed_as, output_of, spec_output_of};
use crate::text::{concat2, contains_str, join, join_strings, owned, push_str, sort_strings, sorted_strs, views,
    clone_strings};
use crate::tricks_config::{same_trick, Trick, TricksLoader};
use crate::tricks_status::{copies, has_key, in_category, last_index, lemma_last_index, shows, sorted_keys, trick_key, AllTricksStatus,
    TrickStatus};
use vstd::prelude::*;

verus! {

/// Whether the executor runs once for one command, or on and on for a GUI.
#[derive(Debug, Clone, Copy, PartialEq, Eq, Structural)]
pub enum ExecutorMode {
    Continuous,
    OnceOff,
}

/// What taking an action came to: the action is over, or the program has work to
/// do to finish it.
#[derive(Debug)]
pub enum ActionOutcome {
    /// The action is over.
    Finished(DeckResult<ActionSuccess>),
    /// Fetch an executable and run it, then finish as it says.
    Fetch(RemoteRun),
    /// Add the target to Steam's shortcuts.
    AddToSteam(AddToSteamTarget),
    /// Show the trick's configuration.
    ShowTrickInfo(Trick),
    /// Show the available actions of each trick as JSON.
    ActionsAsJson(Vec<(String, Vec<SpecificActionID>)>),
    /// Show the configuration.
    ShowConfig,
    /// Show the version.
    ShowVersion { verbose: bool },
    /// Show the display name of each action as JSON.
    ShowDisplayNameMapping,
    /// Show the shortcuts that Steam has, from the given file or from every user's.
    DebugSteamShortcuts(Option<String>),
    /// Talk to Steam.
    Steam(SteamSubcommand),
}

/// Whether the system must be inspected before a command is run: always when the
/// executor runs on and on, and when it runs once, unless the command's action
/// needs no knowledge of the system.
pub open spec fn spec_needs_system_context(mode: ExecutorMode, maybe_command: Option<&DecktricksCommand>) -> bool {
    match maybe_command {
        Some(c) => !(mode == ExecutorMode::OnceOff && c.action.spec_does_not_need_system_context(
            c.gather_context_on_specific_actions,
        )),
        None => true,
    }
}

/// The system is always inspected when the executor runs continuously or runs no
/// command; a single command skips it only for what needs no knowledge of the
/// system: listing tricks, listing actions and updating everything always
/// inspect it.
pub proof fn law_listing_always_inspects(mode: ExecutorMode, c: DecktricksCommand)
    ensures
        mode == ExecutorMode::Continuous ==> spec_needs_system_context(mode, Some(&c)),
        spec_needs_system_context(mode, None),
        c.action is List ==> spec_needs_system_context(mode, Some(&c)),
        c.action is Actions ==> spec_needs_system_context(mode, Some(&c)),
        c.action matches Action::Update { id: None } ==> spec_needs_system_context(mode, Some(&c)),
        !spec_needs_system_context(mode, Some(&c)) ==> mode == ExecutorMode::OnceOff && (c.action is Info
            || c.action is GetConfig || (c.gather_context_on_specific_actions && (c.action is Run
            || c.action is Install || c.action is Kill || c.action is Uninstall || c.action is AddToSteam
            || c.action matches Action::Update { id: Some(_) }))),
{
}

/// Whether the system must be inspected before a command is run.
pub fn needs_system_context(mode: ExecutorMode, maybe_command: Option<&DecktricksCommand>) -> (r: bool)
    ensures
        r == spec_needs_system_context(mode, maybe_command),
{
    match maybe_command {
        Some(c) => {
            let once = match mode {
                ExecutorMode::OnceOff => true,
                ExecutorMode::Continuous => false,
            };
            !(once && c.action.does_not_need_system_context(c.gather_context_on_specific_actions))
        },
        None => true,
    }
}

/// The tricks to use: those of the configuration file asked for, when it could be
/// loaded; else the default ones, when they could be; else none.
pub fn choose_loader(from_path: Option<DeckResult<TricksLoader>>, from_default: DeckResult<TricksLoader>) -> (r: TricksLoader)
    ensures
        match from_path {
            Some(Ok(l)) => r == l,
            _ => match from_default {
                Ok(l) => r == l,
                Err(_) => r.spec_tricks().len() == 0 && r.spec_categories().len() == 0,
            },
        },
{
    match from_path {
        Some(Ok(l)) => l,
        _ => match from_default {
            Ok(l) => l,
            Err(_) => TricksLoader::empty_last_fallback_dangerous(),
        },
    }
}

/// The log level of a command: the one that the environment asks for, else the
/// one of the command, else the executor's.
pub fn execution_log_level(env_level: Option<LogType>, command_level: Option<LogType>, default: LogType) -> (r: LogType)
    ensures
        r == match env_level {
            Some(l) => l,
            None => match command_level {
                Some(l) => l,
                None => default,
            },
        },
{
    match env_level {
        Some(l) => l,
        None => match command_level {
            Some(l) => l,
            None => default,
        },
    }
}

/// The IDs of the tricks to list: all of them, or those installed.
pub open spec fn spec_listed(tricks: Seq<Trick>, installed_only: bool, full: FullSystemContext) -> Seq<Seq<char>>
    decreases tricks.len(),
{
    if tricks.len() == 0 {
        Seq::empty()
    } else {
        let rest = spec_listed(tricks.drop_last(), installed_only, full);
        let t = tricks.last();
        if !installed_only || checks_for(t, full).installed {
            rest.push(t.id@)
        } else {
            rest
        }
    }
}

/// How the actions available for a trick are listed: the trick's ID, then each
/// action's identifier on a line of its own, indented.
pub open spec fn spec_actions_entry(trick_id: Seq<char>, actions: Seq<SpecificActionID>) -> Seq<char> {
    trick_id + ":\n  "@ + join(actions.map_values(|a: SpecificActionID| a.spec_name()), "\n  "@)
}

/// The available actions of a trick in the given system.
pub open spec fn spec_available(t: Trick, full: FullSystemContext) -> Seq<SpecificActionID> {
    spec_all_variants().filter(|id: SpecificActionID| checks_for(t, full).allows(id))
}

/// Two tricks that say the same have the same checks.
pub proof fn lemma_checks_for_same(a: Trick, b: Trick, full: FullSystemContext)
    requires
        same_trick(a, b),
    ensures
        checks_for(a, full) == checks_for(b, full),
{
}

/// The tricks and their contexts that everything is done with.
#[derive(Debug)]
pub struct Executor {
    pub mode: ExecutorMode,
    pub loader: TricksLoader,
    pub full_ctx: FullSystemContext,
    pub homedir: String,
    pub current_log_level: LogType,
}

impl Executor {
    pub open spec fn wf(self) -> bool {
        &&& self.full_ctx.procs_ctx.wf()
        &&& self.full_ctx.installing_ctx.wf()
        &&& self.loader.wf()
    }

    pub fn with(
        mode: ExecutorMode,
        loader: TricksLoader,
        full_ctx: FullSystemContext,
        homedir: String,
        current_log_level: LogType,
    ) -> (r: Self)
        requires
            full_ctx.procs_ctx.wf(),
            full_ctx.installing_ctx.wf(),
            loader.wf(),
        ensures
            r.wf(),
            r.mode == mode,
            r.loader == loader,
            r.full_ctx == full_ctx,
            r.homedir == homedir,
            r.current_log_level == current_log_level,
    {
        Executor { mode, loader, full_ctx, homedir, current_log_level }
    }

    /// An executor for the given tricks. The system is inspected unless the command
    /// needs no knowledge of it (see `spec_needs_system_context`); a system that
    /// cannot be inspected is taken to have nothing installed.
    pub fn create_with_gather<R: ActualRunner>(
        mode: ExecutorMode,
        current_log_level: LogType,
        runner: &R,
        maybe_command: Option<&DecktricksCommand>,
        loader: TricksLoader,
        homedir: String,
        in_ci_container: bool,
        tricks_in_steam: Vec<String>,
    ) -> (r: Self)
        requires
            loader.wf(),
        ensures
            r.wf(),
            r.mode == mode,
            r.loader == loader,
            r.current_log_level == current_log_level,
            !spec_needs_system_context(mode, maybe_command) ==> r.full_ctx.flatpak_ctx.installed@.len()
                == 0 && r.full_ctx.tricks_in_steam@.len() == 0,
            !spec_needs_system_context(mode, maybe_command) ==> r.full_ctx.is_empty(),
            spec_needs_system_context(mode, maybe_command) ==> exists|gathered: DeckResult<FullSystemContext>|
                #[trigger] gathered_from_answers(gathered, in_ci_container, LogChannel::General, homedir@, loader.spec_tricks())
                    && match gathered {
                    Ok(c) => r.full_ctx == c && c.tricks_in_steam == tricks_in_steam,
                    Err(_) => r.full_ctx.is_empty(),
                },
    {
        let gather_ctx = GeneralExecutionContext::new(current_log_level);
        let full_ctx = if needs_system_context(mode, maybe_command) {
            match FullSystemContext::gather_with(
                &gather_ctx,
                runner,
                loader.get_all_tricks(),
                homedir.as_str(),
                in_ci_container,
                tricks_in_steam,
            ) {
                Ok(c) => c,
                Err(_) => FullSystemContext::empty(),
            }
        } else {
            FullSystemContext::empty()
        };
        Executor::with(mode, loader, full_ctx, homedir, current_log_level)
    }

    /// Inspects the system again, as the executor would: the context gathered, with
    /// the given tricks that Steam has shortcuts for, or, when the system cannot be
    /// inspected, a context where nothing is installed. What the system answers is
    /// not known here, so the contract says what holds of any answer.
    pub fn get_new_system_context<R: ActualRunner>(&self, runner: &R, in_ci_container: bool, tricks_in_steam: Vec<String>) -> (r: FullSystemContext)
        ensures
            r.procs_ctx.wf(),
            r.installing_ctx.wf(),
            exists|gathered: DeckResult<FullSystemContext>|
                #[trigger] gathered_from_answers(gathered, in_ci_container, LogChannel::General, self.homedir@, self.loader.spec_tricks())
                    && match gathered {
                    Ok(c) => r == c && c.tricks_in_steam == tricks_in_steam,
                    Err(_) => r.is_empty(),
                },
    {
        let gather_ctx = GeneralExecutionContext::new(self.current_log_level);
        match FullSystemContext::gather_with(
            &gather_ctx,
            runner,
            self.loader.get_all_tricks(),
            self.homedir.as_str(),
            in_ci_container,
            tricks_in_steam,
        ) {
            Ok(c) => c,
            Err(_) => FullSystemContext::empty(),
        }
    }

    /// Replaces what is known of the system.
    pub fn update_system_context(&mut self, full_ctx: FullSystemContext)
        requires
            old(self).wf(),
            full_ctx.procs_ctx.wf(),
            full_ctx.installing_ctx.wf(),
        ensures
            final(self).wf(),
            final(self).full_ctx == full_ctx,
            final(self).loader == old(self).loader,
            final(self).mode == old(self).mode,
            final(self).homedir == old(self).homedir,
            final(self).current_log_level == old(self).current_log_level,
    {
        self.full_ctx = full_ctx;
    }

    /// The context of an action on a trick: what the system shows of the trick
    /// being installed or added to Steam comes with it.
    fn context_for(&self, trick: &Trick, action: SpecificAction, level: LogType) -> (r: SpecificExecutionContext)
        requires
            self.wf(),
        ensures
            same_trick(r.trick, *trick),
            r.action == action,
            r.current_log_level == level,
            r.is_installing == self.full_ctx.installing_ctx.spec_get(trick.id@) is Some,
            r.is_added_to_steam == contains_str(self.full_ctx.tricks_in_steam@, trick.id@),
    {
        let is_installing = self.full_ctx.is_installing(trick.id.as_str());
        let is_added_to_steam = self.full_ctx.is_added_to_steam(trick.id.as_str());
        SpecificExecutionContext::new(trick.duplicate(), action, level, is_installing, is_added_to_steam)
    }

    /// The IDs of all tricks, or of the installed ones, one per line, in order of
    /// the IDs.
    pub fn list_tricks(&self, installed_only: bool) -> (r: String)
        requires
            self.wf(),
        ensures
            r@ == join(spec_listed(self.loader.spec_tricks(), installed_only, self.full_ctx), "\n"@),
    {
        let tricks = self.loader.get_all_tricks();
        let mut names: Vec<String> = Vec::new();
        let mut i: usize = 0;
        while i < tricks.len()
            invariant
                self.wf(),
                tricks@ == self.loader.spec_tricks(),
                i <= tricks@.len(),
                views(names@) == spec_listed(tricks@.subrange(0, i as int), installed_only, self.full_ctx),
            decreases tricks@.len() - i,
        {
            let t = &tricks[i];
            proof {
                let sub = tricks@.subrange(0, i + 1);
                assert(sub.drop_last() =~= tricks@.subrange(0, i as int));
                assert(sub.last() == *t);
            }
            let keep = if installed_only {
                let ctx = self.context_for(t, SpecificAction::as_info(t.id.as_str()), LogType::Debug);
                let provider = DynTrickProvider::new(ctx, &self.full_ctx);
                proof {
                    lemma_checks_for_same(provider.spec_ctx().trick, *t, self.full_ctx);
                }
                provider.checks().installed
            } else {
                true
            };
            if keep {
                let ghost before = names@;
                names.push(t.id.clone());
                assert(views(names@) =~= views(before).push(t.id@));
            }
            i = i + 1;
        }
        assert(tricks@.subrange(0, tricks@.len() as int) =~= tricks@);
        join_strings(&names, "\n")
    }

    /// The providers of all tricks, in order of the trick IDs, each with what the
    /// system shows of its trick.
    pub fn get_all_providers(&self) -> (r: Vec<DynTrickProvider>)
        requires
            self.wf(),
        ensures
            r@.len() == self.loader.spec_tricks().len(),
            forall|i: int|
                0 <= i < r@.len() ==> same_trick((#[trigger] r@[i]).spec_ctx().trick, self.loader.spec_tricks()[i])
                    && r@[i].spec_checks() == checks_for(self.loader.spec_tricks()[i], self.full_ctx)
                    && built_for(r@[i].spec_ctx(), self.full_ctx, r@[i])
                    && r@[i].spec_ctx().is_installing == self.full_ctx.installing_ctx.spec_get(
                    self.loader.spec_tricks()[i].id@,
                ) is Some && r@[i].spec_ctx().is_added_to_steam == contains_str(
                    self.full_ctx.tricks_in_steam@,
                    self.loader.spec_tricks()[i].id@,
                ),
    {
        let tricks = self.loader.get_all_tricks();
        let mut providers: Vec<DynTrickProvider> = Vec::new();
        let mut i: usize = 0;
        while i < tricks.len()
            invariant
                self.wf(),
                tricks@ == self.loader.spec_tricks(),
                i <= tricks@.len(),
                providers@.len() == i,
                forall|j: int|
                    0 <= j < i ==> same_trick((#[trigger] providers@[j]).spec_ctx().trick, tricks@[j])
                        && providers@[j].spec_checks() == checks_for(tricks@[j], self.full_ctx)
                        && built_for(providers@[j].spec_ctx(), self.full_ctx, providers@[j])
                        && providers@[j].spec_ctx().is_installing == self.full_ctx.installing_ctx.spec_get(
                        tricks@[j].id@,
                    ) is Some && providers@[j].spec_ctx().is_added_to_steam == contains_str(
                        self.full_ctx.tricks_in_steam@,
                        tricks@[j].id@,
                    ),
            decreases tricks@.len() - i,
        {
            let t = &tricks[i];
            let ctx = self.context_for(t, SpecificAction::as_info(t.id.as_str()), LogType::Debug);
            let provider = DynTrickProvider::new(ctx, &self.full_ctx);
            proof {
                lemma_checks_for_same(provider.spec_ctx().trick, *t, self.full_ctx);
            }
            providers.push(provider);
            i = i + 1;
        }
        providers
    }

    /// The entry is under the ID of one of the tricks and shows what the system
    /// shows of it.
    pub open spec fn shows_entry(self, e: (String, TrickStatus)) -> bool {
        exists|j: int|
            0 <= j < self.loader.spec_tricks().len() && #[trigger] self.loader.spec_tricks()[j].id@ == e.0@
                && shown_as(e.1, self.loader.spec_tricks()[j], self.full_ctx)
    }

    /// One entry per trick, in order of the trick IDs, each showing what the system
    /// shows of its trick.
    pub open spec fn all_statuses(self, entries: Seq<(String, TrickStatus)>) -> bool {
        &&& sorted_keys(entries)
        &&& forall|i: int| 0 <= i < entries.len() ==> self.shows_entry(#[trigger] entries[i])
        &&& forall|j: int|
            0 <= j < self.loader.spec_tricks().len() ==> has_key(entries, #[trigger] self.loader.spec_tricks()[j].id@)
    }

    /// How every trick is shown: one entry per trick, in order of the trick IDs,
    /// each showing what the system shows of its trick.
    pub fn get_all_tricks_status(&self) -> (r: AllTricksStatus)
        requires
            self.wf(),
        ensures
            self.all_statuses(r.spec_entries()),
    {
        let providers = self.get_all_providers();
        let ghost ps = providers@;
        let r = AllTricksStatus::new(providers);
        proof {
            assert forall|i: int| 0 <= i < r.spec_entries().len() implies self.shows_entry(#[trigger] r.spec_entries()[i]) by {
                let e = r.spec_entries()[i];
                let k = e.0@;
                let j = last_index(ps, k);
                assert(0 <= j);
                lemma_last_index(ps, k);
                assert(j < ps.len());
                assert(shows(e.1, ps[j]));
                assert(trick_key(ps[j]) == k);
                let t = self.loader.spec_tricks()[j];
                assert(same_trick(ps[j].spec_ctx().trick, t));
                assert(t.id@ == k);
                assert(shown_as(e.1, t, self.full_ctx));
            }
            assert forall|j: int| 0 <= j < self.loader.spec_tricks().len() implies has_key(
                r.spec_entries(),
                #[trigger] self.loader.spec_tricks()[j].id@,
            ) by {
                assert(has_key(r.spec_entries(), trick_key(ps[j])));
            }
        }
        r
    }

    /// How every trick is shown, under `all` and then under each known category.
    pub fn get_full_map_for_all_categories(&self) -> (r: Vec<(String, Vec<(String, TrickStatus)>)>)
        requires
            self.wf(),
        ensures
            r@.len() == self.loader.spec_categories().len() + 1,
            r@[0].0@ == "all"@,
            forall|c: int|
                0 <= c < self.loader.spec_categories().len() ==> (#[trigger] r@[c + 1]).0@
                    == self.loader.spec_categories()[c]@,
            exists|entries: Seq<(String, TrickStatus)>|
                #[trigger] self.all_statuses(entries) && copies(r@[0].1@, entries) && forall|c: int|
                    0 <= c < self.loader.spec_categories().len() ==> copies(
                        (#[trigger] r@[c + 1]).1@,
                        entries.filter(|e: (String, TrickStatus)| in_category(e, self.loader.spec_categories()[c]@)),
                    ),
    {
        let status = self.get_all_tricks_status();
        status.get_full_map_for_categories(self.loader.get_all_categories())
    }

    /// Whether `r` holds the actions available for each trick, in order of the trick
    /// IDs, or for the trick with the given ID only (an unknown ID is an error).
    pub open spec fn actions_found(self, only: Option<Seq<char>>, r: DeckResult<Vec<(String, Vec<SpecificActionID>)>>) -> bool {
        match only {
            None => r matches Ok(v) && v@.len() == self.loader.spec_tricks().len() && forall|i: int|
                0 <= i < v@.len() ==> (#[trigger] v@[i]).0@ == self.loader.spec_tricks()[i].id@
                    && v@[i].1@ == spec_available(self.loader.spec_tricks()[i], self.full_ctx),
            Some(id) => if exists|i: int|
                0 <= i < self.loader.spec_tricks().len() && #[trigger] self.loader.spec_tricks()[i].id@
                    == id {
                r matches Ok(v) && v@.len() == 1 && v@[0].0@ == id && exists|i: int|
                    0 <= i < self.loader.spec_tricks().len() && #[trigger] self.loader.spec_tricks()[i].id@
                        == id && v@[0].1@ == spec_available(self.loader.spec_tricks()[i], self.full_ctx)
            } else {
                r matches Err(KnownError::UnknownTrickID(x)) && x@ == id
            },
        }
    }

    /// The actions available for each trick, in order of the trick IDs, or for the
    /// trick with the given ID only.
    pub fn available_actions(&self, only: Option<&str>) -> (r: DeckResult<Vec<(String, Vec<SpecificActionID>)>>)
        requires
            self.wf(),
        ensures
            self.actions_found(
                match only {
                    Some(id) => Some(id@),
                    None => None,
                },
                r,
            ),
    {
        match only {
            Some(id) => {
                let t = match self.loader.get_trick(id) {
                    Ok(t) => t,
                    Err(e) => return Err(e),
                };
                let ctx = self.context_for(t, SpecificAction::as_info(id), LogType::Debug);
                let provider = DynTrickProvider::new(ctx, &self.full_ctx);
                proof {
                    lemma_checks_for_same(provider.spec_ctx().trick, *t, self.full_ctx);
                }
                let actions = provider.get_available_actions();
                let mut v: Vec<(String, Vec<SpecificActionID>)> = Vec::new();
                v.push((owned(id), actions));
                Ok(v)
            },
            None => {
                let tricks = self.loader.get_all_tricks();
                let mut v: Vec<(String, Vec<SpecificActionID>)> = Vec::new();
                let mut i: usize = 0;
                while i < tricks.len()
                    invariant
                        self.wf(),
                        tricks@ == self.loader.spec_tricks(),
                        i <= tricks@.len(),
                        v@.len() == i,
                        forall|j: int|
                            0 <= j < i ==> (#[trigger] v@[j]).0@ == tricks@[j].id@ && v@[j].1@
                                == spec_available(tricks@[j], self.full_ctx),
                    decreases tricks@.len() - i,
                {
                    let t = &tricks[i];
                    let ctx = self.context_for(t, SpecificAction::as_info(t.id.as_str()), LogType::Debug);
                    let provider = DynTrickProvider::new(ctx, &self.full_ctx);
                    proof {
                        lemma_checks_for_same(provider.spec_ctx().trick, *t, self.full_ctx);
                    }
                    v.push((t.id.clone(), provider.get_available_actions()));
                    i = i + 1;
                }
                Ok(v)
            },
        }
    }

    /// What taking an action on a trick means right now: an unknown trick is an
    /// error; an action that the trick's provider does not allow is refused; else
    /// the provider's plan, with the provider and the action's context.
    pub fn plan_specific(&self, action: &SpecificAction, level: LogType) -> (r: (Option<SpecificExecutionContext>, DeckResult<(DynTrickProvider, ActionPlan)>))
        requires
            self.wf(),
        ensures
            (forall|i: int| 0 <= i < self.loader.spec_tricks().len() ==> #[trigger] self.loader.spec_tricks()[i].id@
                != action.spec_id()@) ==> (r.0 is None && (r.1 matches Err(KnownError::UnknownTrickID(x)) && x@
                == action.spec_id()@)),
            forall|i: int| 0 <= i < self.loader.spec_tricks().len() && #[trigger] self.loader.spec_tricks()[i].id@
                == action.spec_id()@ ==> {
                let t = self.loader.spec_tricks()[i];
                let kind = SpecificActionID::spec_of(*action);
                &&& r.0 matches Some(c) && same_trick(c.trick, t) && c.action == *action && c.current_log_level == level
                &&& !checks_for(t, self.full_ctx).allows(kind) ==> (r.1 matches Err(KnownError::ActionGated(m))
                    && m@ == spec_gated_message(kind, t.id@))
                &&& checks_for(t, self.full_ctx).allows(kind) ==> (r.1 matches Ok((p, plan)) && same_trick(
                    p.spec_ctx().trick,
                    t,
                ) && p.spec_checks() == checks_for(t, self.full_ctx) && built_for(p.spec_ctx(), self.full_ctx, p)
                    && p.spec_ctx().action == *action && p.spec_ctx().current_log_level == level && p.planned(kind, plan))
            },
    {
        let t = match self.loader.get_trick(action.id()) {
            Ok(t) => t,
            Err(e) => return (None, Err(e)),
        };
        proof {
            self.loader.lemma_unique_ids();
        }
        let ctx = self.context_for(t, action.duplicate(), level);
        let result_ctx = ctx.duplicate();
        let provider = DynTrickProvider::new(ctx, &self.full_ctx);
        proof {
            lemma_checks_for_same(provider.spec_ctx().trick, *t, self.full_ctx);
        }
        let kind = SpecificActionID::of(action);
        if provider.can_id(&kind) {
            let plan = provider.plan(kind);
            (Some(result_ctx), Ok((provider, plan)))
        } else {
            let mut m = concat2("Action '", kind.to_string().as_str());
            push_str(&mut m, "' is not possible on trick '");
            push_str(&mut m, t.id.as_str());
            push_str(&mut m, "' right now. Is it installed/running? HINT: (Try 'actions')");
            (Some(result_ctx), Err(KnownError::ActionGated(m)))
        }
    }

    /// Takes an action on a trick (see `plan_specific`): the provider's plan is
    /// carried out through the runner; showing the trick and adding it to Steam
    /// are left to the program.
    /// Whether `r` is what taking the action on a trick comes to, as far as it does not
    /// rest on running commands: an unknown trick is an error; an action that the
    /// trick's provider does not allow is refused; info shows the trick.
    pub open spec fn specific_outcome(self, action: SpecificAction, r: (Option<SpecificExecutionContext>, ActionOutcome)) -> bool {
        &&& (forall|i: int| 0 <= i < self.loader.spec_tricks().len() ==> #[trigger] self.loader.spec_tricks()[i].id@
            != action.spec_id()@) ==> (r.0 is None && (r.1 matches ActionOutcome::Finished(Err(KnownError::UnknownTrickID(x))) && x@
            == action.spec_id()@))
        &&& forall|i: int| 0 <= i < self.loader.spec_tricks().len() && #[trigger] self.loader.spec_tricks()[i].id@
            == action.spec_id()@ ==> {
            let t = self.loader.spec_tricks()[i];
            let kind = SpecificActionID::spec_of(action);
            &&& r.0 matches Some(c) && same_trick(c.trick, t)
            &&& !checks_for(t, self.full_ctx).allows(kind) ==> (r.1 matches ActionOutcome::Finished(Err(KnownError::ActionGated(m)))
                && m@ == spec_gated_message(kind, t.id@))
            &&& (checks_for(t, self.full_ctx).allows(kind) && kind == SpecificActionID::Info) ==> (r.1 matches ActionOutcome::ShowTrickInfo(shown)
                && same_trick(shown, t))
            &&& checks_for(t, self.full_ctx).allows(kind) ==> exists|p: DynTrickProvider, plan: ActionPlan|
                same_trick(p.spec_ctx().trick, t) && p.spec_checks() == checks_for(t, self.full_ctx)
                    && built_for(p.spec_ctx(), self.full_ctx, p) && p.spec_ctx().action == action
                    && #[trigger] p.planned(kind, plan) && #[trigger] self.plan_outcome(plan, t, r.1)
        }
    }

    /// Whether the outcome is what carrying out the plan for the trick comes to: a
    /// refusal ends the action with its error; a command's result is finished as
    /// planned (see `finish_command`); killing reports each process killed; a fetch
    /// is handed to the program; adding to Steam gives the trick's shortcut context,
    /// or the error of making it; info shows the trick.
    pub open spec fn plan_outcome(self, plan: ActionPlan, t: Trick, o: ActionOutcome) -> bool {
        match plan {
            ActionPlan::Refuse(e) => o == ActionOutcome::Finished(Err::<ActionSuccess, KnownError>(e)),
            ActionPlan::Command(c, on_success) => o matches ActionOutcome::Finished(res) && exists|
                result: DeckResult<SysCommandResult>,
            | ran(c, result) && #[trigger] finished_as(result, on_success, res),
            ActionPlan::KillPids(pids) => o matches ActionOutcome::Finished(res) && killed_as(pids@, res),
            ActionPlan::Remote(rr) => o == ActionOutcome::Fetch(rr),
            ActionPlan::AddToSteam => exists|c: DeckResult<TrickAddToSteamContext>, found: Result<String, String>|
                #[trigger] context_result(t, self.homedir@, found, c) && match c {
                    Ok(ctx) => o == ActionOutcome::AddToSteam(AddToSteamTarget::Specific(ctx)),
                    Err(e) => o == ActionOutcome::Finished(Err::<ActionSuccess, KnownError>(e)),
                },
            ActionPlan::Info => o matches ActionOutcome::ShowTrickInfo(shown) && same_trick(shown, t),
        }
    }

    pub fn do_specific<R: ActualRunner>(&self, action: &SpecificAction, level: LogType, runner: &R) -> (r: (Option<SpecificExecutionContext>, ActionOutcome))
        requires
            self.wf(),
        ensures
            self.specific_outcome(*action, r),
            r.0 matches Some(c) ==> c.action == *action && c.current_log_level == level,
    {
        let (ctx, planned) = self.plan_specific(action, level);
        let (provider, plan) = match planned {
            Ok(pp) => pp,
            Err(e) => return (ctx, ActionOutcome::Finished(Err(e))),
        };
        let ghost g_plan = plan;
        let ghost pt = provider.spec_ctx().trick;
        let pctx = provider.get_ctx();
        let step = perform(plan, &pctx.log_channel, pctx.current_log_level, runner);
        let outcome = match step {
            ActionStep::Finished(res) => ActionOutcome::Finished(res),
            ActionStep::Fetch(rr) => ActionOutcome::Fetch(rr),
            ActionStep::Info => ActionOutcome::ShowTrickInfo(provider.get_trick().duplicate()),
            ActionStep::AddToSteam => {
                let made = TrickAddToSteamContext::try_from(provider.get_trick(), self.homedir.as_str());
                let ghost g_made = made;
                let o = match made {
                    Ok(c) => ActionOutcome::AddToSteam(AddToSteamTarget::Specific(c)),
                    Err(e) => ActionOutcome::Finished(Err(e)),
                };
                proof {
                    let found = choose|found: Result<String, String>| #[trigger] context_result(pt, self.homedir@, found, g_made);
                    assert(context_result(pt, self.homedir@, found, g_made));
                }
                o
            },
        };
        proof {
            assert(self.plan_outcome(g_plan, pt, outcome));
            let kind = SpecificActionID::spec_of(*action);
            assert forall|i: int| 0 <= i < self.loader.spec_tricks().len() && #[trigger] self.loader.spec_tricks()[i].id@
                == action.spec_id()@ implies (checks_for(self.loader.spec_tricks()[i], self.full_ctx).allows(kind)
                ==> exists|p: DynTrickProvider, plan: ActionPlan|
                same_trick(p.spec_ctx().trick, self.loader.spec_tricks()[i]) && p.spec_checks() == checks_for(
                    self.loader.spec_tricks()[i],
                    self.full_ctx,
                ) && built_for(p.spec_ctx(), self.full_ctx, p) && p.spec_ctx().action == *action
                && #[trigger] p.planned(kind, plan) && #[trigger] self.plan_outcome(plan, self.loader.spec_tricks()[i], outcome)) by {
                let t = self.loader.spec_tricks()[i];
                self.lemma_plan_outcome_same_trick(g_plan, pt, t, outcome);
            }
        }
        (ctx, outcome)
    }

    proof fn lemma_plan_outcome_same_trick(self, plan: ActionPlan, a: Trick, b: Trick, o: ActionOutcome)
        requires
            same_trick(a, b),
            self.plan_outcome(plan, a, o),
        ensures
            self.plan_outcome(plan, b, o),
    {
        match plan {
            ActionPlan::Info => {
                let shown = o->ShowTrickInfo_0;
                assert(same_trick(shown, b));
            },
            ActionPlan::AddToSteam => {
                let (c, found) = choose|c: DeckResult<TrickAddToSteamContext>, found: Result<String, String>|
                    #[trigger] context_result(a, self.homedir@, found, c) && match c {
                        Ok(ctx) => o == ActionOutcome::AddToSteam(AddToSteamTarget::Specific(ctx)),
                        Err(e) => o == ActionOutcome::Finished(Err::<ActionSuccess, KnownError>(e)),
                    };
                assert(context_result(b, self.homedir@, found, c));
            },
            _ => {},
        }
    }

    /// Whether the outcome is what the general action comes to (see `do_general`).
    pub open spec fn general_outcome(self, action: GeneralAction, o: ActionOutcome) -> bool {
        match action {
            GeneralAction::List { installed } => o matches ActionOutcome::Finished(Ok(s))
                && s.spec_message() matches Some(m) && m@ == join(
                spec_listed(self.loader.spec_tricks(), installed, self.full_ctx),
                "\n"@,
            ),
            GeneralAction::Actions { id, json } => {
                &&& exists|found: DeckResult<Vec<(String, Vec<SpecificActionID>)>>|
                    #[trigger] self.actions_found(opt_view(id), found) && match found {
                        Err(e) => o == ActionOutcome::Finished(Err(e)),
                        Ok(pairs) => if json {
                            o == ActionOutcome::ActionsAsJson(pairs)
                        } else {
                            o matches ActionOutcome::Finished(Ok(s)) && s.spec_message() matches Some(m)
                                && spec_listing_of(m@, spec_pair_entries(pairs@))
                        },
                    }
                &&& (id is None && !json) ==> (o matches ActionOutcome::Finished(Ok(s)) && s.spec_message() matches Some(m)
                    && spec_listing_of(m@, self.all_entries()))
            },
            GeneralAction::GetConfig => o is ShowConfig,
            GeneralAction::Version { verbose } => o matches ActionOutcome::ShowVersion { verbose: v } && v == verbose,
            GeneralAction::GetActionDisplayNameMapping => o is ShowDisplayNameMapping,
            GeneralAction::DebugSteamShortcuts { filename } => o matches ActionOutcome::DebugSteamShortcuts(f) && f == filename,
            GeneralAction::AddDecktricksToSteam => o matches ActionOutcome::AddToSteam(t) && t is Decktricks,
            GeneralAction::Steam { _steam_subcommand } => o matches ActionOutcome::Steam(sub) && sub == _steam_subcommand,
            GeneralAction::UpdateAll => o matches ActionOutcome::Finished(res) && exists|
                first: DeckResult<SysCommandResult>,
                second: DeckResult<SysCommandResult>,
            | ran_update_all(first) && ran_update_all(second) && #[trigger] update_all_result(first, second, res),
            GeneralAction::RunSystemCommand { command, args } => o matches ActionOutcome::Finished(res) && exists|
                result: DeckResult<SysCommandResult>,
            |
                (result matches Ok(x) ==> x.spec_command().spec_cmd() == command@ && x.spec_command().spec_args()
                    == match args {
                    Some(a) => views(a@),
                    None => Seq::<Seq<char>>::empty(),
                } && x.spec_command().spec_env().len() == 0) && #[trigger] spec_output_of(result, res),
        }
    }

    /// The listing entry of every trick, in order of the trick IDs.
    pub open spec fn all_entries(self) -> Seq<Seq<char>> {
        Seq::new(
            self.loader.spec_tricks().len(),
            |i: int| spec_actions_entry(self.loader.spec_tricks()[i].id@, spec_available(self.loader.spec_tricks()[i], self.full_ctx)),
        )
    }

    /// Takes an action that is not about a single trick. Listing, listing the
    /// available actions, updating everything and running a system command are
    /// done here; the rest is left to the program.
    pub fn do_general<R: ActualRunner>(&self, action: GeneralAction, level: LogType, runner: &R) -> (r: Vec<ActionOutcome>)
        requires
            self.wf(),
        ensures
            r@.len() == 1,
            self.general_outcome(action, r@[0]),
    {
        let outcome = match action {
            GeneralAction::List { installed } => {
                let text = self.list_tricks(installed);
                ActionOutcome::Finished(Ok(ActionSuccess::success(Some(text))))
            },
            GeneralAction::UpdateAll => {
                let ctx = GeneralExecutionContext::new(level);
                ActionOutcome::Finished(update_all(&ctx, runner))
            },
            GeneralAction::Actions { id, json } => {
                let found = match &id {
                    Some(i) => self.available_actions(Some(i.as_str())),
                    None => self.available_actions(None),
                };
                match found {
                    Err(e) => ActionOutcome::Finished(Err(e)),
                    Ok(pairs) => if json {
                        ActionOutcome::ActionsAsJson(pairs)
                    } else {
                        let text = actions_listing(&pairs);
                        proof {
                            if id is None {
                                assert(spec_pair_entries(pairs@) =~= self.all_entries());
                            }
                        }
                        ActionOutcome::Finished(Ok(ActionSuccess::success(Some(text))))
                    },
                }
            },
            GeneralAction::GetConfig => ActionOutcome::ShowConfig,
            GeneralAction::Version { verbose } => ActionOutcome::ShowVersion { verbose },
            GeneralAction::Steam { _steam_subcommand } => ActionOutcome::Steam(_steam_subcommand),
            GeneralAction::GetActionDisplayNameMapping => ActionOutcome::ShowDisplayNameMapping,
            GeneralAction::RunSystemCommand { command, args } => {
                let ctx = GeneralExecutionContext::new(level);
                let ghost wanted = match &args {
                    Some(a) => views(a@),
                    None => Seq::<Seq<char>>::empty(),
                };
                let a = match args {
                    Some(a) => a,
                    None => Vec::new(),
                };
                assert(views(a@) =~= wanted);
                let cmd = ctx.sys_command(command.as_str(), a);
                assert(cmd.spec_args() =~= wanted);
                let result = runner.run(&cmd);
                let ghost gr = result;
                let res = output_of(result);
                assert(gr matches Ok(x) ==> x.spec_command().spec_cmd() == command@ && x.spec_command().spec_args()
                    == wanted && x.spec_command().spec_env().len() == 0);
                assert(spec_output_of(gr, res));
                ActionOutcome::Finished(res)
            },
            GeneralAction::DebugSteamShortcuts { filename } => ActionOutcome::DebugSteamShortcuts(filename),
            GeneralAction::AddDecktricksToSteam => ActionOutcome::AddToSteam(AddToSteamTarget::Decktricks),
        };
        let mut r: Vec<ActionOutcome> = Vec::new();
        r.push(outcome);
        r
    }

    /// Runs a command: the action it asks for is taken at the log level that the
    /// environment asks for, else the command's, else the executor's.
    pub fn execute<R: ActualRunner>(&self, command: &DecktricksCommand, env_log_level: Option<LogType>, runner: &R) -> (r: (Option<SpecificExecutionContext>, Vec<ActionOutcome>))
        requires
            self.wf(),
        ensures
            r.1@.len() == 1,
            !crate::command::is_trick_action(command.action) ==> r.0 is None,
            ({
                let level = match env_log_level {
                    Some(l) => l,
                    None => match command.log_level {
                        Some(l) => l,
                        None => self.current_log_level,
                    },
                };
                forall|t: TypedAction| #[trigger] typed_action_of(command.action, t) ==> match t {
                    TypedAction::Specific(a) => self.specific_outcome(a, (r.0, r.1@[0])) && (r.0 matches Some(c)
                        ==> c.action == a && c.current_log_level == level),
                    TypedAction::General(g) => self.general_outcome(g, r.1@[0]),
                }
            }),
    {
        let level = execution_log_level(env_log_level, command.log_level, self.current_log_level);
        match TypedAction::from_action(&command.action) {
            TypedAction::Specific(a) => {
                let (ctx, outcome) = self.do_specific(&a, level, runner);
                let mut v: Vec<ActionOutcome> = Vec::new();
                v.push(outcome);
                (ctx, v)
            },
            TypedAction::General(g) => (None, self.do_general(g, level, runner)),
        }
    }
}

/// The status shows what the system shows of the trick: every action in the order
/// in which actions are shown, available when the trick's provider allows it,
/// under way when the trick is being installed (for installing) or runs (for
/// running), and done when the trick was added to Steam (for adding it to Steam).
pub open spec fn shown_as(ts: TrickStatus, t: Trick, full: FullSystemContext) -> bool {
    &&& same_trick(*ts.trick, t)
    &&& ts.actions@.len() == spec_all_variants().len()
    &&& forall|j: int|
        0 <= j < ts.actions@.len() ==> {
            let a = #[trigger] ts.actions@[j];
            let checks = checks_for(t, full);
            &&& a.trick == ts.trick
            &&& a.action_id == spec_all_variants()[j]
            &&& a.is_available == checks.allows(a.action_id)
            &&& a.is_ongoing == ((a.action_id == SpecificActionID::Install && full.installing_ctx.spec_get(t.id@) is Some)
                || (a.action_id == SpecificActionID::Run && checks.running))
            &&& a.is_completed == (a.action_id == SpecificActionID::AddToSteam && contains_str(full.tricks_in_steam@, t.id@))
        }
}

/// The characters of an optional string.
pub open spec fn opt_view(o: Option<String>) -> Option<Seq<char>> {
    match o {
        Some(s) => Some(s@),
        None => None,
    }
}

/// Whether the text lists the entries: the entries in order, each on its own line.
pub open spec fn spec_listing_of(text: Seq<char>, entries: Seq<Seq<char>>) -> bool {
    exists|sorted: Seq<Seq<char>>|
        #[trigger] sorted_strs(sorted) && sorted.len() == entries.len() && sorted.to_multiset()
            == entries.to_multiset() && text == join(sorted, "\n"@)
}

/// The listing of one trick's available actions (see `spec_actions_entry`).
pub fn actions_entry(trick_id: &str, actions: &Vec<SpecificActionID>) -> (r: String)
    ensures
        r@ == spec_actions_entry(trick_id@, actions@),
{
    let mut names: Vec<String> = Vec::new();
    let mut i: usize = 0;
    while i < actions.len()
        invariant
            i <= actions@.len(),
            views(names@) == actions@.subrange(0, i as int).map_values(|a: SpecificActionID| a.spec_name()),
        decreases actions@.len() - i,
    {
        let ghost before = names@;
        names.push(actions[i].to_string());
        assert(views(names@) =~= views(before).push(actions@[i as int].spec_name()));
        assert(views(names@) =~= actions@.subrange(0, i + 1).map_values(|a: SpecificActionID| a.spec_name()));
        i = i + 1;
    }
    assert(actions@.subrange(0, actions@.len() as int) =~= actions@);
    let joined = join_strings(&names, "\n  ");
    let mut r = concat2(trick_id, ":\n  ");
    push_str(&mut r, joined.as_str());
    r
}

/// The entry of each trick with its available actions.
pub open spec fn spec_pair_entries(pairs: Seq<(String, Vec<SpecificActionID>)>) -> Seq<Seq<char>> {
    Seq::new(pairs.len(), |i: int| spec_actions_entry(pairs[i].0@, pairs[i].1@))
}

/// The listing of the available actions of tricks: each trick's entry, the
/// entries in order, one after the other on their own lines.
pub fn actions_listing(pairs: &Vec<(String, Vec<SpecificActionID>)>) -> (r: String)
    ensures
        spec_listing_of(r@, spec_pair_entries(pairs@)),
{
    let mut entries: Vec<String> = Vec::new();
    let mut i: usize = 0;
    while i < pairs.len()
        invariant
            i <= pairs@.len(),
            views(entries@) == Seq::new(i as nat, |k: int| spec_actions_entry(pairs@[k].0@, pairs@[k].1@)),
        decreases pairs@.len() - i,
    {
        let e = actions_entry(pairs[i].0.as_str(), &pairs[i].1);
        let ghost before = entries@;
        entries.push(e);
        assert(views(entries@) =~= views(before).push(e@));
        assert(views(entries@) =~= Seq::new((i + 1) as nat, |k: int| spec_actions_entry(pairs@[k].0@, pairs@[k].1@)));
        i = i + 1;
    }
    let sorted = sort_strings(entries);
    proof {
        vstd::seq_lib::to_multiset_len(views(sorted@));
        vstd::seq_lib::to_multiset_len(views(entries@));
    }
    join_strings(&sorted, "\n")
}

} // verus!
