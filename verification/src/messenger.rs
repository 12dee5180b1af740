//! Decides which console messages a run should print.
//!
//! The decisions are pure: each method hands back the message when the
//! run's flags call for printing it, and `None` otherwise. The unverified
//! binary does the actual printing.

use vstd::prelude::*;

use crate::Args;

verus! {

/// The run's message policy, captured from the request's flags.
pub struct Messenger {
    pub args: Args,
}

impl Messenger {
    /// Captures the request whose flags govern the messages.
    pub fn new(args: Args) -> (m: Messenger)
        ensures
            m.args == args,
    {
        Messenger { args }
    }

    /// A debug message: printed only in debug mode, and never when silent.
    pub fn debug(&self, formatted_string: String) -> (out: Option<String>)
        ensures
            out == if !self.args.silent && self.args.debug {
                Option::Some(formatted_string)
            } else {
                Option::<String>::None
            },
    {
        if self.args.silent {
            return None;
        }
        if self.args.debug {
            Some(formatted_string)
        } else {
            None
        }
    }

    /// A stats message: printed unless stats are off, and never when silent.
    pub fn stats(&self, formatted_string: String) -> (out: Option<String>)
        ensures
            out == if !self.args.silent && !self.args.no_stats {
                Option::Some(formatted_string)
            } else {
                Option::<String>::None
            },
    {
        if self.args.silent {
            return None;
        }
        if !self.args.no_stats {
            Some(formatted_string)
        } else {
            None
        }
    }

    /// The silent-mode message: printed only when silent.
    pub fn silent(&self, formatted_string: String) -> (out: Option<String>)
        ensures
            out == if self.args.silent {
                Option::Some(formatted_string)
            } else {
                Option::<String>::None
            },
    {
        if self.args.silent {
            Some(formatted_string)
        } else {
            None
        }
    }
}

} // verus!
