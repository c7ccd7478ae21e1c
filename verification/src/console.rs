//! Configuration of the console writer, and how it colors and routes messages.

use vstd::prelude::*;

use crate::def::{CRITICAL, DEBUG, ERROR, EXCEPTION, INFO, NOTSET, SUCCESS, TRACE, WARNING};
use crate::filter::check_filter;
use crate::filter::filter_valid;

verus! {

/// What reaches the console writer: a message (level, domain, message), a
/// request to confirm that what came before is printed, or the end.
#[derive(Debug)]
pub enum ConsoleTypeEnum {
    Message((u8, String, String)),
    Sync,
    Stop,
}

/// Where the console writer prints.
#[derive(Debug, Clone, Copy, PartialEq, Eq, Structural)]
pub enum ConsoleTargetEnum {
    StdOut,
    StdErr,
    /// Standard output below `ERROR`, standard error from `ERROR` on.
    Both,
}

#[derive(Debug)]
pub struct ConsoleWriterConfig {
    pub enabled: bool,
    pub level: u8,
    pub domain_filter: Option<String>,
    pub message_filter: Option<String>,
    pub colors: bool,
    pub target: ConsoleTargetEnum,
    pub debug: u8,
}

impl ConsoleWriterConfig {
    pub fn new(level: u8, colors: bool) -> (r: Self)
        ensures
            r.enabled,
            r.level == level,
            r.domain_filter is None,
            r.message_filter is None,
            r.colors == colors,
            r.target == ConsoleTargetEnum::StdOut,
            r.debug == 0,
    {
        Self {
            enabled: true,
            level,
            domain_filter: None,
            message_filter: None,
            colors,
            target: ConsoleTargetEnum::StdOut,
            debug: 0,
        }
    }

    pub fn duplicate(&self) -> (r: Self)
        ensures
            r == *self,
    {
        Self {
            enabled: self.enabled,
            level: self.level,
            domain_filter: crate::def::clone_opt_string(&self.domain_filter),
            message_filter: crate::def::clone_opt_string(&self.message_filter),
            colors: self.colors,
            target: self.target,
            debug: self.debug,
        }
    }

    /// Sets the domain filter after checking that it is a valid regular
    /// expression; on refusal nothing changes.
    pub fn set_domain_filter(&mut self, domain_filter: Option<String>) -> (r: Result<
        (),
        regex::Error,
    >)
        ensures
            r is Ok <==> filter_valid(domain_filter),
            r is Ok ==> *final(self) == (Self { domain_filter, ..*old(self) }),
            r is Err ==> *final(self) == *old(self),
    {
        match check_filter(&domain_filter) {
            Ok(()) => {
                self.domain_filter = domain_filter;
                Ok(())
            },
            Err(e) => Err(e),
        }
    }

    /// Sets the message filter after checking that it is a valid regular
    /// expression; on refusal nothing changes.
    pub fn set_message_filter(&mut self, message_filter: Option<String>) -> (r: Result<
        (),
        regex::Error,
    >)
        ensures
            r is Ok <==> filter_valid(message_filter),
            r is Ok ==> *final(self) == (Self { message_filter, ..*old(self) }),
            r is Err ==> *final(self) == *old(self),
    {
        match check_filter(&message_filter) {
            Ok(()) => {
                self.message_filter = message_filter;
                Ok(())
            },
            Err(e) => Err(e),
        }
    }
}

impl Default for ConsoleWriterConfig {
    fn default() -> (r: Self)
        ensures
            r == ConsoleWriterConfig::new_spec(NOTSET, false),
    {
        Self {
            enabled: true,
            level: NOTSET,
            domain_filter: None,
            message_filter: None,
            colors: false,
            target: ConsoleTargetEnum::StdOut,
            debug: 0,
        }
    }
}

impl ConsoleWriterConfig {
    pub open spec fn new_spec(level: u8, colors: bool) -> Self {
        Self {
            enabled: true,
            level,
            domain_filter: None,
            message_filter: None,
            colors,
            target: ConsoleTargetEnum::StdOut,
            debug: 0,
        }
    }
}

/// Foreground colors of colored console output.
#[derive(Debug, Clone, Copy, PartialEq, Eq, Structural)]
pub enum ConsoleColor {
    White,
    Blue,
    Green,
    Cyan,
    Yellow,
    Magenta,
    Red,
}

pub open spec fn level_color_spec(level: u8) -> ConsoleColor {
    if level == TRACE {
        ConsoleColor::White
    } else if level == DEBUG {
        ConsoleColor::Blue
    } else if level == INFO {
        ConsoleColor::Green
    } else if level == SUCCESS {
        ConsoleColor::Cyan
    } else if level == WARNING {
        ConsoleColor::Yellow
    } else if level == ERROR {
        ConsoleColor::Magenta
    } else if level == CRITICAL || level == EXCEPTION {
        ConsoleColor::Red
    } else {
        ConsoleColor::White
    }
}

/// The color a message of `level` is printed in.
pub fn level_color(level: u8) -> (r: ConsoleColor)
    ensures
        r == level_color_spec(level),
{
    if level == TRACE {
        ConsoleColor::White
    } else if level == DEBUG {
        ConsoleColor::Blue
    } else if level == INFO {
        ConsoleColor::Green
    } else if level == SUCCESS {
        ConsoleColor::Cyan
    } else if level == WARNING {
        ConsoleColor::Yellow
    } else if level == ERROR {
        ConsoleColor::Magenta
    } else if level == CRITICAL || level == EXCEPTION {
        ConsoleColor::Red
    } else {
        ConsoleColor::White
    }
}

/// Whether a message of `level` goes to standard error.
pub fn uses_stderr(target: ConsoleTargetEnum, level: u8) -> (r: bool)
    ensures
        r == match target {
            ConsoleTargetEnum::StdOut => false,
            ConsoleTargetEnum::StdErr => true,
            ConsoleTargetEnum::Both => level >= ERROR,
        },
{
    match target {
        ConsoleTargetEnum::StdOut => false,
        ConsoleTargetEnum::StdErr => true,
        ConsoleTargetEnum::Both => level >= ERROR,
    }
}

} // verus!
