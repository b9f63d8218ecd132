//! The resolution engine as a mathematical model.
//!
//! The arguments are read once, left to right, starting after the program
//! name. Each one is a long flag (`--name`), a cluster of one-letter flags
//! (`-abc`), or a word. The pass keeps a [`ScanState`]; [`resolve`] is the
//! whole interpretation, from the raw arguments and the piped text to the
//! resolved record. The executable parser is proved equal to it.

use vstd::prelude::*;
use crate::registry::{action_of_spelling, action_of_word, option_of_spelling, BAction};
use crate::text::{decimal, trim};

verus! {

/// A complaint about one flag. None of them stops the pass.
pub enum Warning {
    /// The spelling is in neither table.
    UnknownFlag(Seq<char>),
    /// The option takes a value, and the next argument is missing or is
    /// itself a flag.
    MissingValue(Seq<char>),
    /// The option takes a value but does not stand last in its cluster; the
    /// number is its position in the cluster.
    ValueFlagNotLast(Seq<char>, int),
}

/// What the pass has gathered so far.
pub struct ScanState {
    /// The action, once a flag or a word has settled it.
    pub action: Option<BAction>,
    /// The options without a value that were given.
    pub flags: Set<Seq<char>>,
    /// The options with a value, each with the value it was given last.
    pub flag_args: Map<Seq<char>, Seq<char>>,
    /// The text gathered so far.
    pub input: Option<Seq<char>>,
    /// The warnings, in the order in which they arose.
    pub warnings: Seq<Warning>,
}

/// The outcome of an invocation.
pub struct ResolvedArgs {
    pub action: BAction,
    pub flags: Set<Seq<char>>,
    pub flag_args: Map<Seq<char>, Seq<char>>,
    pub input: Option<Seq<char>>,
    pub warnings: Seq<Warning>,
}

pub open spec fn starts_with_dash(tok: Seq<char>) -> bool {
    tok.len() >= 1 && tok[0] == '-'
}

/// A long flag starts with two dashes and holds no space. The space rule
/// lets a note that happens to begin with dashes pass as text.
pub open spec fn is_long_flag(tok: Seq<char>) -> bool {
    tok.len() >= 2 && tok[0] == '-' && tok[1] == '-' && !tok.contains(' ')
}

/// A cluster starts with one dash only and holds no space.
pub open spec fn is_short_cluster(tok: Seq<char>) -> bool {
    starts_with_dash(tok) && !(tok.len() >= 2 && tok[1] == '-') && !tok.contains(' ')
}

/// Anything that is no flag is a word: an action word or text.
pub open spec fn is_word(tok: Seq<char>) -> bool {
    !is_long_flag(tok) && !is_short_cluster(tok)
}

/// The state before the first argument is read; `seed` is the piped text.
pub open spec fn start_state(seed: Option<Seq<char>>) -> ScanState {
    ScanState {
        action: None,
        flags: Set::empty(),
        flag_args: Map::empty(),
        input: seed,
        warnings: Seq::empty(),
    }
}

pub open spec fn with_action(st: ScanState, found: Option<BAction>) -> ScanState {
    match found {
        Some(a) => ScanState { action: Some(a), ..st },
        None => st,
    }
}

pub open spec fn with_warning(st: ScanState, w: Warning) -> ScanState {
    ScanState { warnings: st.warnings.push(w), ..st }
}

/// Text is gathered with one space between the pieces.
pub open spec fn append_input(st: ScanState, tok: Seq<char>) -> ScanState {
    ScanState {
        input: match st.input {
            Some(text) => Some(text + seq![' '] + tok),
            None => Some(tok),
        },
        ..st
    }
}

/// Whether the argument after position `i` can serve as a value: it exists
/// and does not start with a dash.
pub open spec fn next_is_value(args: Seq<Seq<char>>, i: int) -> bool {
    i + 1 < args.len() && !starts_with_dash(args[i + 1])
}

/// One spelling, found in the argument at position `i`, looked up in both
/// tables. `label` names the flag in warnings about a value, `position` is
/// the spelling's place in its cluster, and `is_last` says whether a value
/// may follow it. The result is the new state and whether the next argument
/// was taken as the value.
pub open spec fn apply_spelling(
    args: Seq<Seq<char>>,
    i: int,
    st: ScanState,
    spelling: Seq<char>,
    label: Seq<char>,
    position: int,
    is_last: bool,
) -> (ScanState, bool) {
    let found = action_of_spelling(spelling);
    let st1 = with_action(st, found);
    match option_of_spelling(spelling) {
        Some((name, takes_value)) => {
            if takes_value && is_last {
                if next_is_value(args, i) {
                    (ScanState { flag_args: st1.flag_args.insert(name, args[i + 1]), ..st1 }, true)
                } else {
                    (with_warning(st1, Warning::MissingValue(label)), false)
                }
            } else if takes_value {
                (with_warning(st1, Warning::ValueFlagNotLast(label, position)), false)
            } else {
                (ScanState { flags: st1.flags.insert(name), ..st1 }, false)
            }
        },
        None => {
            if found is Some {
                (st1, false)
            } else {
                (with_warning(st1, Warning::UnknownFlag(spelling)), false)
            }
        },
    }
}

/// The letters of `cluster` from position `x` on, each as a spelling of its
/// own. `taken` says whether an earlier letter took the next argument.
pub open spec fn scan_cluster(
    args: Seq<Seq<char>>,
    i: int,
    cluster: Seq<char>,
    x: int,
    st: ScanState,
    taken: bool,
) -> (ScanState, bool)
    decreases cluster.len() - x,
{
    if x < 0 || x >= cluster.len() {
        (st, taken)
    } else {
        let (st1, used) = apply_spelling(
            args,
            i,
            st,
            seq![cluster[x]],
            cluster,
            x,
            x + 1 == cluster.len(),
        );
        scan_cluster(args, i, cluster, x + 1, st1, taken || used)
    }
}

/// A word. While no action is settled, an action word settles it and is not
/// text; any other word settles `Add` and is text. Once an action is
/// settled every word is text.
pub open spec fn take_word(st: ScanState, tok: Seq<char>) -> ScanState {
    if st.action is None {
        match action_of_word(tok) {
            Some(a) => ScanState { action: Some(a), ..st },
            None => append_input(ScanState { action: Some(BAction::Add), ..st }, tok),
        }
    } else {
        append_input(st, tok)
    }
}

/// The argument at position `i`: the new state, and whether the argument
/// after it was taken as a value.
pub open spec fn step(args: Seq<Seq<char>>, i: int, st: ScanState) -> (ScanState, bool) {
    let tok = args[i];
    if is_long_flag(tok) {
        apply_spelling(args, i, st, tok.skip(2), tok.skip(2), 0, true)
    } else if is_short_cluster(tok) {
        scan_cluster(args, i, tok.skip(1), 0, st, false)
    } else {
        (take_word(st, tok), false)
    }
}

/// The pass from position `i` to the end.
pub open spec fn scan(args: Seq<Seq<char>>, i: int, st: ScanState) -> ScanState
    decreases args.len() + 1 - i,
{
    if i < 0 || i >= args.len() {
        st
    } else {
        let (st1, used) = step(args, i, st);
        scan(
            args,
            if used {
                i + 2
            } else {
                i + 1
            },
            st1,
        )
    }
}

/// The action of an invocation that named none: text means `Add`, even
/// empty text; no text means `ListDefault`.
pub open spec fn default_action(input: Option<Seq<char>>) -> BAction {
    if input is Some {
        BAction::Add
    } else {
        BAction::ListDefault
    }
}

pub open spec fn finish(st: ScanState) -> ResolvedArgs {
    ResolvedArgs {
        action: match st.action {
            Some(a) => a,
            None => default_action(st.input),
        },
        flags: st.flags,
        flag_args: st.flag_args,
        input: st.input,
        warnings: st.warnings,
    }
}

/// The interpretation of an invocation: `args` with the program name at
/// position 0, and the piped text if there was any. The piped text is
/// trimmed and stands before the words of the command line.
pub open spec fn resolve(args: Seq<Seq<char>>, piped: Option<Seq<char>>) -> ResolvedArgs {
    let seed = match piped {
        Some(text) => Some(trim(text)),
        None => None,
    };
    finish(scan(args, 1, start_state(seed)))
}

/// The line that tells the user about `w`.
pub open spec fn warning_text(w: Warning) -> Seq<char> {
    match w {
        Warning::UnknownFlag(spelling) => "Warning: Unknown flag: "@ + spelling,
        Warning::MissingValue(label) => "Warning: Flag "@ + label + " requires an argument"@,
        Warning::ValueFlagNotLast(label, position) => "Warning: Flag "@ + label
            + " requires an argument, so must be the last argument in the list "@ + decimal(
            position as nat,
        ) + " "@ + decimal(label.len()),
    }
}

} // verus!
