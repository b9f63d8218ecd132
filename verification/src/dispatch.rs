//! From the resolved invocation to what the program does next.

use vstd::prelude::*;
use vstd::string::*;
use crate::bargs::BArgs;
use crate::registry::BAction;
use crate::scan::ResolvedArgs;
use crate::text::same_text;

verus! {

/// What the program is to do.
#[derive(Debug, PartialEq, Eq)]
pub enum Command {
    ShowVersion,
    /// List today's entries, after a short note on usage where that fits.
    ListToday,
    ShowHelp,
    /// Add an entry with this text.
    Add(String),
    /// Remove the entry with this short identifier.
    Remove(String),
    /// List the entries of the day that the invocation names, or today's.
    List,
    /// `Add` or `Remove` was asked for without the text it needs.
    MissingText(BAction),
}

/// A [`Command`] as contracts see it.
pub enum Task {
    ShowVersion,
    ListToday,
    ShowHelp,
    Add(Seq<char>),
    Remove(Seq<char>),
    List,
    MissingText(BAction),
}

impl View for Command {
    type V = Task;

    open spec fn view(&self) -> Task {
        match self {
            Command::ShowVersion => Task::ShowVersion,
            Command::ListToday => Task::ListToday,
            Command::ShowHelp => Task::ShowHelp,
            Command::Add(text) => Task::Add(text@),
            Command::Remove(quickid) => Task::Remove(quickid@),
            Command::List => Task::List,
            Command::MissingText(action) => Task::MissingText(*action),
        }
    }
}

/// The task that a resolved invocation stands for.
pub open spec fn task_of(args: ResolvedArgs) -> Task {
    match args.action {
        BAction::Version => Task::ShowVersion,
        BAction::ListDefault => Task::ListToday,
        BAction::Help => Task::ShowHelp,
        BAction::Add => match args.input {
            Some(text) => Task::Add(text),
            None => Task::MissingText(BAction::Add),
        },
        BAction::Remove => match args.input {
            Some(quickid) => Task::Remove(quickid),
            None => Task::MissingText(BAction::Remove),
        },
        BAction::List => Task::List,
    }
}

/// What the program is to do for the resolved invocation `args`.
pub fn command(args: &BArgs) -> (r: Command)
    ensures
        r@ == task_of(args@),
{
    match args.action {
        BAction::Version => Command::ShowVersion,
        BAction::ListDefault => Command::ListToday,
        BAction::Help => Command::ShowHelp,
        BAction::Add => match &args.input {
            Some(text) => Command::Add(text.clone()),
            None => Command::MissingText(BAction::Add),
        },
        BAction::Remove => match &args.input {
            Some(quickid) => Command::Remove(quickid.clone()),
            None => Command::MissingText(BAction::Remove),
        },
        BAction::List => Command::List,
    }
}

/// Whether a setting from the environment switches something on: it does
/// when it is `true` or `1`.
pub open spec fn switches_on(value: Option<Seq<char>>) -> bool {
    value == Some("true"@) || value == Some("1"@)
}

/// Whether a setting from the environment switches something off: it does
/// when it is `false` or `0`.
pub open spec fn switches_off(value: Option<Seq<char>>) -> bool {
    value == Some("false"@) || value == Some("0"@)
}

/// Whether the setting `value`, absent when the variable is not set,
/// switches something on.
pub fn setting_is_on(value: &Option<String>) -> (r: bool)
    ensures
        r == switches_on(value.deep_view()),
{
    match value {
        Some(word) => same_text(word.as_str(), "true") || same_text(word.as_str(), "1"),
        None => false,
    }
}

/// Whether the setting `value`, absent when the variable is not set,
/// switches something off.
pub fn setting_is_off(value: &Option<String>) -> (r: bool)
    ensures
        r == switches_off(value.deep_view()),
{
    match value {
        Some(word) => same_text(word.as_str(), "false") || same_text(word.as_str(), "0"),
        None => false,
    }
}

/// The short note on usage is shown before today's list only on a terminal,
/// and not when the user has switched it off.
pub fn shows_usage(terminal: bool, usage_setting: &Option<String>) -> (r: bool)
    ensures
        r == (terminal && !switches_off(usage_setting.deep_view())),
{
    terminal && !setting_is_off(usage_setting)
}

} // verus!
