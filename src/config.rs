//! The action chosen on the command line, and the settings of the calendar
//! into which shifts are scheduled.
use vstd::prelude::*;

use crate::code::same_text;

verus! {

/// What the program is asked to do.
#[derive(Clone, Copy, Debug, PartialEq, Eq, Structural)]
pub enum Action {
    Search,
    Schedule,
    Help,
}

/// The action that a word names; any word but `search` and `schedule` asks
/// for help.
pub open spec fn action_named(word: Seq<char>) -> Action {
    if word == "search"@ {
        Action::Search
    } else if word == "schedule"@ {
        Action::Schedule
    } else {
        Action::Help
    }
}

/// The word that names the action: the second command-line argument (the
/// first is the program), or `help` when there is none.
pub open spec fn action_word(args: Seq<Seq<char>>) -> Seq<char> {
    if args.len() >= 2 {
        args[1]
    } else {
        "help"@
    }
}

/// The arguments after the program and the action word; `None` when there
/// are none.
pub open spec fn trailing(args: Seq<String>) -> Option<Seq<String>> {
    if args.len() <= 2 {
        None
    } else {
        Some(args.subrange(2, args.len() as int))
    }
}

/// The arguments after the program and the action word, or `None` when there
/// are none.
pub fn trailing_args(args: &Vec<String>) -> (r: Option<Vec<String>>)
    ensures
        r matches Some(v) ==> trailing(args@) == Some(v@),
        r is None ==> trailing(args@) is None,
{
    if args.len() <= 2 {
        return None;
    }
    let mut rest: Vec<String> = Vec::new();
    let mut i: usize = 2;
    while i < args.len()
        invariant
            2 <= i <= args.len(),
            rest@ =~= args@.subrange(2, i as int),
        decreases args.len() - i,
    {
        rest.push(args[i].clone());
        i += 1;
    }
    Some(rest)
}

/// The word that names the action, as [`action_word`] says.
pub fn pick_action_word(args: &Vec<String>) -> (r: String)
    ensures
        r@ == action_word(args.deep_view()),
{
    if args.len() >= 2 {
        args[1].clone()
    } else {
        String::from_str("help")
    }
}

impl Action {
    /// The action that `string` names.
    pub fn new(string: String) -> (r: Action)
        ensures
            r == action_named(string@),
    {
        let word = string.as_str();
        if same_text(word, "search") {
            Action::Search
        } else if same_text(word, "schedule") {
            Action::Schedule
        } else {
            Action::Help
        }
    }
}

/// The chosen action with its arguments, and where and how scheduled shifts
/// are written into the calendar.
#[derive(Clone, Debug, PartialEq, Eq)]
pub struct Config {
    pub action: Option<Action>,
    pub args: Option<Vec<String>>,
    pub calendar_id: String,
    pub event_name: String,
    pub address: String,
    pub timezone: String,
}

impl Config {
    /// The configuration for the command line `args` (the program first,
    /// then the action word, then its arguments), with the calendar settings
    /// of `stored`; the action and arguments of `stored` are not used.
    pub fn build(args: Vec<String>, stored: Config) -> (r: Config)
        ensures
            r.action == Some(action_named(action_word(args.deep_view()))),
            r.args matches Some(v) ==> trailing(args@) == Some(v@),
            r.args is None ==> trailing(args@) is None,
            r.calendar_id == stored.calendar_id,
            r.event_name == stored.event_name,
            r.address == stored.address,
            r.timezone == stored.timezone,
    {
        let action = Some(Action::new(pick_action_word(&args)));
        let rest = trailing_args(&args);
        Config {
            action,
            args: rest,
            calendar_id: stored.calendar_id,
            event_name: stored.event_name,
            address: stored.address,
            timezone: stored.timezone,
        }
    }
}

} // verus!
