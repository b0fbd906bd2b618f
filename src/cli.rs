//! The command line alone: an action and its arguments, with no calendar
//! settings.
use vstd::prelude::*;

use crate::code::same_text;
use crate::config::{action_word, pick_action_word, trailing, trailing_args};

verus! {

/// What the program is asked to do.
#[derive(Clone, Copy, Debug, PartialEq, Eq, Structural)]
pub enum Action {
    Setup,
    Search,
    Schedule,
    Help,
}

/// The action that a word names: `setup`, `search`, `schedule` (or its short
/// form `sche`), and help for any other word.
pub open spec fn action_named(word: Seq<char>) -> Action {
    if word == "setup"@ {
        Action::Setup
    } else if word == "search"@ {
        Action::Search
    } else if word == "schedule"@ || word == "sche"@ {
        Action::Schedule
    } else {
        Action::Help
    }
}

impl Action {
    /// The action that `string` names.
    pub fn new(string: String) -> (r: Action)
        ensures
            r == action_named(string@),
    {
        let word = string.as_str();
        if same_text(word, "setup") {
            Action::Setup
        } else if same_text(word, "search") {
            Action::Search
        } else if same_text(word, "schedule") || same_text(word, "sche") {
            Action::Schedule
        } else {
            Action::Help
        }
    }
}

/// The chosen action and its arguments.
#[derive(Clone, Debug, PartialEq, Eq)]
pub struct Config {
    pub action: Action,
    pub args: Option<Vec<String>>,
}

impl Config {
    /// The configuration for the command line `args`: the program first, then
    /// the action word (help when missing), then its arguments.
    pub fn build(args: Vec<String>) -> (r: Config)
        ensures
            r.action == action_named(action_word(args.deep_view())),
            r.args matches Some(v) ==> trailing(args@) == Some(v@),
            r.args is None ==> trailing(args@) is None,
    {
        let action = Action::new(pick_action_word(&args));
        Config { action, args: trailing_args(&args) }
    }
}

} // verus!
