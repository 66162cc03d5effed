//! The first form of the command line: a few actions on tricks, and listing.
use vstd::prelude::*;

verus! {

/// The command line: one action.
#[derive(Debug)]
pub struct Cli {
    pub command: Action,
}

/// The actions of the first command line.
#[derive(Debug)]
pub enum Action {
    Run { id: String },
    Install { id: String },
    Kill { id: String },
    Uninstall { id: String },
    AddToSteam { name: Option<String>, id: String },
    Info { id: String },
    List { installed: bool },
}

impl Action {
    /// The ID of the trick that the action is about; listing is about none.
    pub fn get_trick_id(&self) -> (r: Option<&str>)
        ensures
            match *self {
                Action::Run { id } | Action::Install { id } | Action::Kill { id } | Action::Uninstall {
                    id,
                } | Action::AddToSteam { id, .. } | Action::Info { id } => r matches Some(s) && s@
                    == id@,
                Action::List { .. } => r is None,
            },
    {
        match self {
            Action::Run { id } | Action::Kill { id } | Action::Info { id } | Action::Install { id }
            | Action::AddToSteam { id, .. } | Action::Uninstall { id } => Some(id.as_str()),
            Action::List { .. } => None,
        }
    }
}

/// The actions that can be taken on a trick, as first named.
#[derive(Debug, Clone, Copy, PartialEq, Eq, Structural)]
pub enum TrickActionID {
    Run,
    Install,
    Kill,
    Uninstall,
    AddToSteam,
    Info,
}

/// The actions that are about no trick, as first named.
#[derive(Debug, Clone, Copy, PartialEq, Eq, Structural)]
pub enum GeneralActionID {
    List,
}

/// Either kind of action.
#[derive(Debug, Clone, Copy, PartialEq, Eq, Structural)]
pub enum ActionID {
    Individual(TrickActionID),
    General(GeneralActionID),
}

} // verus!
