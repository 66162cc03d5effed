//! The contexts in which actions run: the general one, and the one of an action on
//! a single trick. A context says where logs go and how much is logged, and the
//! commands it asks for carry both.
use crate::actions::SpecificAction;
use crate::command::LogType;
use crate::logging::LogChannel;
use crate::system_command::SysCommand;
use crate::tricks_config::{same_trick, Trick};
use vstd::prelude::*;

verus! {

/// The context of work that is not about a single trick.
#[derive(Debug)]
pub struct GeneralExecutionContext {
    pub log_channel: LogChannel,
    pub current_log_level: LogType,
}

/// The context of an action on a single trick.
#[derive(Debug)]
pub struct SpecificExecutionContext {
    pub trick: Trick,
    pub action: SpecificAction,
    pub log_channel: LogChannel,
    pub current_log_level: LogType,
    /// Whether the system showed the trick being installed.
    pub is_installing: bool,
    /// Whether the system showed the trick added to Steam.
    pub is_added_to_steam: bool,
}

/// Either context.
#[derive(Debug)]
pub enum ExecutionContext {
    General(GeneralExecutionContext),
    Specific(SpecificExecutionContext),
}

impl GeneralExecutionContext {
    /// A general context logging at the given level in the general channel.
    pub fn new(current_log_level: LogType) -> (r: Self)
        ensures
            r.log_channel == LogChannel::General,
            r.current_log_level == current_log_level,
    {
        GeneralExecutionContext { log_channel: LogChannel::General, current_log_level }
    }

    /// A general context for tests: logs warnings in the general channel.
    pub fn test() -> (r: Self)
        ensures
            r.log_channel == LogChannel::General,
            r.current_log_level == LogType::Warn,
    {
        GeneralExecutionContext::new(LogType::Warn)
    }

    /// A command run in this context.
    pub fn sys_command(&self, cmd: &str, args: Vec<String>) -> (r: SysCommand)
        ensures
            r.log_channel == self.log_channel,
            r.log_level == self.current_log_level,
            r.spec_cmd() == cmd@,
            r.args@ == args@,
            r.spec_env().len() == 0,
            !r.live_logging_desired,
            !r.pty_needed,
    {
        SysCommand::new(self.log_channel.duplicate(), self.current_log_level, cmd, args)
    }

    pub fn duplicate(&self) -> (r: Self)
        ensures
            r == *self,
    {
        GeneralExecutionContext {
            log_channel: self.log_channel.duplicate(),
            current_log_level: self.current_log_level,
        }
    }
}

impl SpecificExecutionContext {
    /// The context of an action on a trick; it logs in the trick's channel.
    pub fn new(
        trick: Trick,
        action: SpecificAction,
        current_log_level: LogType,
        is_installing: bool,
        is_added_to_steam: bool,
    ) -> (r: Self)
        ensures
            r.trick == trick,
            r.action == action,
            r.log_channel == LogChannel::TrickID(trick.id),
            r.current_log_level == current_log_level,
            r.is_installing == is_installing,
            r.is_added_to_steam == is_added_to_steam,
    {
        let log_channel = LogChannel::TrickID(trick.id.clone());
        SpecificExecutionContext {
            action,
            log_channel,
            trick,
            current_log_level,
            is_installing,
            is_added_to_steam,
        }
    }

    /// A context for tests: the info action on the given trick, logging warnings.
    pub fn test(trick: Trick) -> (r: Self)
        ensures
            r.trick == trick,
            r.log_channel == LogChannel::TrickID(trick.id),
            r.current_log_level == LogType::Warn,
            !r.is_installing,
            !r.is_added_to_steam,
    {
        SpecificExecutionContext::new(
            trick,
            SpecificAction::as_info("FAKE_FOR_TEST"),
            LogType::Warn,
            false,
            false,
        )
    }

    /// A command run in this context.
    pub fn sys_command(&self, cmd: &str, args: Vec<String>) -> (r: SysCommand)
        ensures
            r.log_channel == self.log_channel,
            r.log_level == self.current_log_level,
            r.spec_cmd() == cmd@,
            r.args@ == args@,
            r.spec_env().len() == 0,
            !r.live_logging_desired,
            !r.pty_needed,
    {
        SysCommand::new(self.log_channel.duplicate(), self.current_log_level, cmd, args)
    }

    /// A command with no arguments run in this context.
    pub fn sys_command_no_args(&self, cmd: &str) -> (r: SysCommand)
        ensures
            r.log_channel == self.log_channel,
            r.log_level == self.current_log_level,
            r.spec_cmd() == cmd@,
            r.args@.len() == 0,
            r.spec_env().len() == 0,
            !r.live_logging_desired,
            !r.pty_needed,
    {
        self.sys_command(cmd, Vec::new())
    }

    pub fn duplicate(&self) -> (r: Self)
        ensures
            same_trick(r.trick, self.trick),
            r.action == self.action,
            r.log_channel == self.log_channel,
            r.current_log_level == self.current_log_level,
            r.is_installing == self.is_installing,
            r.is_added_to_steam == self.is_added_to_steam,
    {
        SpecificExecutionContext {
            trick: self.trick.duplicate(),
            action: self.action.duplicate(),
            log_channel: self.log_channel.duplicate(),
            current_log_level: self.current_log_level,
            is_installing: self.is_installing,
            is_added_to_steam: self.is_added_to_steam,
        }
    }
}

impl ExecutionContext {
    pub open spec fn spec_log_channel(self) -> LogChannel {
        match self {
            ExecutionContext::General(g) => g.log_channel,
            ExecutionContext::Specific(s) => s.log_channel,
        }
    }

    pub open spec fn spec_log_level(self) -> LogType {
        match self {
            ExecutionContext::General(g) => g.current_log_level,
            ExecutionContext::Specific(s) => s.current_log_level,
        }
    }

    /// Where the context's logs go.
    pub fn get_log_channel(&self) -> (r: &LogChannel)
        ensures
            *r == self.spec_log_channel(),
    {
        match self {
            ExecutionContext::General(g) => &g.log_channel,
            ExecutionContext::Specific(s) => &s.log_channel,
        }
    }

    /// How much the context logs.
    pub fn get_current_log_level(&self) -> (r: LogType)
        ensures
            r == self.spec_log_level(),
    {
        match self {
            ExecutionContext::General(g) => g.current_log_level,
            ExecutionContext::Specific(s) => s.current_log_level,
        }
    }

    /// A general context logging at the given level, for work done before any action.
    pub fn internal_get_for_logging(current_log_level: LogType) -> (r: Self)
        ensures
            r == ExecutionContext::General(
                GeneralExecutionContext { log_channel: LogChannel::General, current_log_level },
            ),
    {
        ExecutionContext::General(GeneralExecutionContext::new(current_log_level))
    }

    /// A command run in this context.
    pub fn sys_command(&self, cmd: &str, args: Vec<String>) -> (r: SysCommand)
        ensures
            r.log_channel == self.spec_log_channel(),
            r.log_level == self.spec_log_level(),
            r.spec_cmd() == cmd@,
            r.args@ == args@,
            r.spec_env().len() == 0,
            !r.live_logging_desired,
            !r.pty_needed,
    {
        SysCommand::new(self.get_log_channel().duplicate(), self.get_current_log_level(), cmd, args)
    }
}

} // verus!
