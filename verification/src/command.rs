//! The commands that decktricks understands: the canonical list of actions, the
//! global flags that come with them, and the log levels.
use vstd::prelude::*;

verus! {

/// How much is logged. Levels are ordered: a message of a level is shown when the
/// current level is at least as verbose.
#[derive(Debug, Clone, Copy, PartialEq, Eq, Structural)]
pub enum LogType {
    Error,
    Warn,
    Log,
    Info,
    Debug,
}

impl LogType {
    /// The numeric level: `Error` is 0 and `Debug` is 4.
    pub open spec fn level(self) -> u8 {
        match self {
            LogType::Error => 0,
            LogType::Warn => 1,
            LogType::Log => 2,
            LogType::Info => 3,
            LogType::Debug => 4,
        }
    }

    pub open spec fn spec_prefix(self) -> Seq<char> {
        match self {
            LogType::Error => "[ERROR]"@,
            LogType::Warn => "[WARN]"@,
            LogType::Log => "[LOG]"@,
            LogType::Info => "[INFO]"@,
            LogType::Debug => "[DEBUG]"@,
        }
    }

    /// The level that a number stands for; numbers above 4 mean `Debug`.
    pub open spec fn spec_from_level(level: u8) -> LogType {
        if level == 0 {
            LogType::Error
        } else if level == 1 {
            LogType::Warn
        } else if level == 2 {
            LogType::Log
        } else if level == 3 {
            LogType::Info
        } else {
            LogType::Debug
        }
    }

    /// The numeric level of a log type.
    pub fn as_level(self) -> (r: u8)
        ensures
            r == self.level(),
    {
        match self {
            LogType::Error => 0,
            LogType::Warn => 1,
            LogType::Log => 2,
            LogType::Info => 3,
            LogType::Debug => 4,
        }
    }

    /// The prefix printed in front of messages of this type.
    pub fn get_prefix_for(self) -> (r: &'static str)
        ensures
            r@ == self.spec_prefix(),
    {
        match self {
            LogType::Error => "[ERROR]",
            LogType::Warn => "[WARN]",
            LogType::Log => "[LOG]",
            LogType::Info => "[INFO]",
            LogType::Debug => "[DEBUG]",
        }
    }

    /// Whether a message of this type is shown when the current level is `current`.
    pub fn is_shown_at(self, current: LogType) -> (r: bool)
        ensures
            r == (self.level() <= current.level()),
    {
        self.as_level() <= current.as_level()
    }
}

impl From<u8> for LogType {
    fn from(log_level: u8) -> (r: LogType) {
        if log_level == 0 {
            LogType::Error
        } else if log_level == 1 {
            LogType::Warn
        } else if log_level == 2 {
            LogType::Log
        } else if log_level == 3 {
            LogType::Info
        } else {
            LogType::Debug
        }
    }
}

impl vstd::std_specs::convert::FromSpecImpl<u8> for LogType {
    open spec fn obeys_from_spec() -> bool {
        true
    }

    open spec fn from_spec(v: u8) -> LogType {
        LogType::spec_from_level(v)
    }
}

/// Turning a log type into its number and back gives the same log type.
pub proof fn law_log_level_round_trip(t: LogType)
    ensures
        LogType::spec_from_level(t.level()) == t,
{
}

/// Subcommands that talk to Steam.
#[derive(Debug, Clone)]
pub enum SteamSubcommand {
    Restart,
    RunGameID { full_game_id: String },
    WaitForDecktricksShortcutRelaunch,
}

/// The canonical list of actions that can be taken, directly parsed from the
/// command line and the entry point for any other user interface.
#[derive(Debug)]
pub enum Action {
    Run { id: String },
    Install { id: String },
    Kill { id: String },
    Uninstall { id: String },
    AddToSteam { id: String },
    Info { id: String },
    /// Works both globally and for a specific trick.
    Update { id: Option<String> },
    List { installed: bool },
    Actions { id: Option<String>, json: bool },
    GetConfig,
    Version { verbose: bool },
    Steam { _steam_subcommand: SteamSubcommand },
    GetActionDisplayNameMapping,
    RunSystemCommand { command: String, args: Option<Vec<String>> },
    DebugSteamShortcuts { filename: Option<String> },
    AddDecktricksToSteam,
}

/// Whether an action is one of those taken on a single trick.
pub open spec fn is_trick_action(a: Action) -> bool {
    ||| a is Run
    ||| a is Install
    ||| a is Kill
    ||| a is Uninstall
    ||| a is AddToSteam
    ||| a is Info
    ||| (a matches Action::Update { id } && id is Some)
}

impl Action {
    /// Whether the system needs not be inspected before the action is taken: for
    /// `info` and `get-config`, and, when asked for, for any action on a single trick.
    pub open spec fn spec_does_not_need_system_context(
        self,
        gather_context_on_specific_actions: bool,
    ) -> bool {
        (self is Info || self is GetConfig) || (gather_context_on_specific_actions
            && is_trick_action(self))
    }

    pub fn does_not_need_system_context(&self, gather_context_on_specific_actions: bool) -> (r:
        bool)
        ensures
            r == self.spec_does_not_need_system_context(gather_context_on_specific_actions),
    {
        let simple = match self {
            Action::Info { .. } | Action::GetConfig => true,
            _ => false,
        };
        simple || (gather_context_on_specific_actions && self.is_trick_action())
    }

    /// Whether this action is taken on a single trick.
    pub fn is_trick_action(&self) -> (r: bool)
        ensures
            r == is_trick_action(*self),
    {
        match self {
            Action::Run { .. } | Action::Install { .. } | Action::Kill { .. } | Action::Uninstall {
                ..
            } | Action::AddToSteam { .. } | Action::Info { .. } => true,
            Action::Update { id } => id.is_some(),
            _ => false,
        }
    }
}

/// Only showing a trick's information and showing the configuration skip
/// inspecting the system, and, when asked for, the actions on one trick (running,
/// installing, killing, uninstalling, adding to Steam, updating one trick); listing,
/// showing actions, updating everything and all other actions always inspect it.
pub proof fn law_only_info_config_and_asked_single_trick_actions_skip_inspection(a: Action, gather_on_specific: bool)
    ensures
        a.spec_does_not_need_system_context(gather_on_specific) ==> ({
            ||| a is Info
            ||| a is GetConfig
            ||| gather_on_specific && (a is Run || a is Install || a is Kill || a is Uninstall || a is AddToSteam
                || a matches Action::Update { id: Some(_) })
        }),
        (a is Info || a is GetConfig) ==> a.spec_does_not_need_system_context(gather_on_specific),
        a is List ==> !a.spec_does_not_need_system_context(gather_on_specific),
        a is Actions ==> !a.spec_does_not_need_system_context(gather_on_specific),
        a matches Action::Update { id: None } ==> !a.spec_does_not_need_system_context(gather_on_specific),
{
}

/// A full command: the action and the global flags that come with it.
#[derive(Debug)]
pub struct DecktricksCommand {
    /// The action to take, such as "run" or "install".
    pub action: Action,
    /// Whether to gather system context before running an action on a single trick.
    pub gather_context_on_specific_actions: bool,
    /// Path of a config file that replaces the default one.
    pub config: Option<String>,
    /// Log level for this command; defaults to that of the executor.
    pub log_level: Option<LogType>,
}

impl DecktricksCommand {
    /// A command with the given action and no flags set.
    pub fn new(action: Action) -> (r: Self)
        ensures
            r.action == action,
            !r.gather_context_on_specific_actions,
            r.config is None,
            r.log_level is None,
    {
        DecktricksCommand { action, gather_context_on_specific_actions: false, config: None, log_level: None }
    }
}

} // verus!
