//! The fixed tables of the command line: which spellings name an action and
//! which name an option.
//!
//! A spelling is a flag with its dashes removed (`add` for `--add`, `a` for
//! `-a`). The two tables are independent: a spelling is looked up in both.

use vstd::prelude::*;
use vstd::string::*;
use crate::text::{matches_word, to_chars};

verus! {

/// What an invocation asks the journal to do.
#[derive(Debug, Clone, Copy, PartialEq, Eq, Structural)]
pub enum BAction {
    Add,
    List,
    /// No action was named and no text was given. Kept apart from `List`:
    /// the caller shows a usage banner only for this one.
    ListDefault,
    Remove,
    Help,
    Version,
}

/// The action table: the action that the spelling `s` selects, if any.
pub open spec fn action_of_spelling(s: Seq<char>) -> Option<BAction> {
    if s == "a"@ || s == "add"@ {
        Some(BAction::Add)
    } else if s == "l"@ || s == "list"@ {
        Some(BAction::List)
    } else if s == "r"@ || s == "remove"@ {
        Some(BAction::Remove)
    } else if s == "h"@ || s == "help"@ {
        Some(BAction::Help)
    } else if s == "v"@ || s == "version"@ || s == "V"@ {
        Some(BAction::Version)
    } else {
        None
    }
}

/// The action that `s` selects when it stands on the command line as a bare
/// word, without dashes. Only the long names are action words.
pub open spec fn action_of_word(s: Seq<char>) -> Option<BAction> {
    if s == "add"@ {
        Some(BAction::Add)
    } else if s == "list"@ {
        Some(BAction::List)
    } else if s == "remove"@ {
        Some(BAction::Remove)
    } else if s == "help"@ {
        Some(BAction::Help)
    } else if s == "version"@ {
        Some(BAction::Version)
    } else {
        None
    }
}

/// The option table: the canonical name of the option that the spelling `s`
/// selects, and whether that option takes the following argument as its
/// value.
pub open spec fn option_of_spelling(s: Seq<char>) -> Option<(Seq<char>, bool)> {
    if s == "o"@ || s == "output"@ {
        Some(("output"@, true))
    } else if s == "f"@ || s == "format"@ {
        Some(("format"@, true))
    } else {
        None
    }
}

/// Every action word selects, as a bare word, the action that it selects as
/// a flag.
pub proof fn lemma_word_agrees_with_flag(s: Seq<char>)
    requires
        action_of_word(s) is Some,
    ensures
        action_of_spelling(s) == action_of_word(s),
{
    reveal_strlit("a");
    reveal_strlit("l");
    reveal_strlit("r");
    reveal_strlit("h");
    reveal_strlit("v");
    reveal_strlit("V");
    reveal_strlit("add");
    reveal_strlit("list");
    reveal_strlit("remove");
    reveal_strlit("help");
    reveal_strlit("version");
    assert("add"@.len() == 3 && "list"@.len() == 4 && "remove"@.len() == 6);
    assert("help"@.len() == 4 && "version"@.len() == 7);
}

/// No flag or word selects `ListDefault`: it only ever stands for "nothing
/// was asked".
pub proof fn lemma_list_default_is_never_named(s: Seq<char>)
    ensures
        action_of_spelling(s) != Some(BAction::ListDefault),
        action_of_word(s) != Some(BAction::ListDefault),
{
}

pub(crate) fn action_from_chars(v: &[char]) -> (r: Option<BAction>)
    ensures
        r == action_of_spelling(v@),
{
    if matches_word(v, "a") || matches_word(v, "add") {
        Some(BAction::Add)
    } else if matches_word(v, "l") || matches_word(v, "list") {
        Some(BAction::List)
    } else if matches_word(v, "r") || matches_word(v, "remove") {
        Some(BAction::Remove)
    } else if matches_word(v, "h") || matches_word(v, "help") {
        Some(BAction::Help)
    } else if matches_word(v, "v") || matches_word(v, "version") || matches_word(v, "V") {
        Some(BAction::Version)
    } else {
        None
    }
}

pub(crate) fn word_from_chars(v: &[char]) -> (r: Option<BAction>)
    ensures
        r == action_of_word(v@),
{
    if matches_word(v, "add") {
        Some(BAction::Add)
    } else if matches_word(v, "list") {
        Some(BAction::List)
    } else if matches_word(v, "remove") {
        Some(BAction::Remove)
    } else if matches_word(v, "help") {
        Some(BAction::Help)
    } else if matches_word(v, "version") {
        Some(BAction::Version)
    } else {
        None
    }
}

pub(crate) fn option_from_chars(v: &[char]) -> (r: Option<(&'static str, bool)>)
    ensures
        match r {
            Some((name, takes_value)) => option_of_spelling(v@) == Some((name@, takes_value)),
            None => option_of_spelling(v@) is None,
        },
{
    if matches_word(v, "o") || matches_word(v, "output") {
        Some(("output", true))
    } else if matches_word(v, "f") || matches_word(v, "format") {
        Some(("format", true))
    } else {
        None
    }
}

/// Looks the spelling `flag` up in the action table.
pub fn get_action_from_flag(flag: &str) -> (r: Option<BAction>)
    ensures
        r == action_of_spelling(flag@),
{
    let v = to_chars(flag);
    action_from_chars(v.as_slice())
}

/// Looks the spelling `flag` up in the option table. The result holds the
/// option's canonical name and whether it takes a value.
pub fn get_flag_from_flag(flag: &str) -> (r: Option<(&'static str, bool)>)
    ensures
        match r {
            Some((name, takes_value)) => option_of_spelling(flag@) == Some((name@, takes_value)),
            None => option_of_spelling(flag@) is None,
        },
{
    let v = to_chars(flag);
    option_from_chars(v.as_slice())
}

} // verus!
