//! What holds of every invocation, proved of the model in [`crate::scan`], and
//! what holds of trimmed text.

use vstd::prelude::*;
use crate::registry::{action_of_spelling, action_of_word, option_of_spelling, BAction};
use crate::scan::{
    apply_spelling, is_long_flag, is_short_cluster, is_word, next_is_value, resolve, scan,
    scan_cluster, start_state, step, take_word, with_action, ResolvedArgs, ScanState, Warning,
};
use crate::text::{is_whitespace, join_words, trim, trim_end, trim_start};

verus! {

/// With the program name alone and nothing piped in, the outcome is
/// `ListDefault` without text, options or warnings.
pub proof fn lemma_bare_invocation(args: Seq<Seq<char>>)
    requires
        args.len() == 1,
    ensures
        resolve(args, None) == (ResolvedArgs {
            action: BAction::ListDefault,
            flags: Set::empty(),
            flag_args: Map::empty(),
            input: None,
            warnings: Seq::empty(),
        }),
{
}

/// The text that words leave behind: `seed` if there was piped text, then
/// the words, all joined by single spaces.
pub open spec fn gathered(seed: Option<Seq<char>>, words: Seq<Seq<char>>) -> Option<Seq<char>> {
    match seed {
        Some(text) => if words.len() == 0 {
            Some(text)
        } else {
            Some(text + seq![' '] + join_words(words))
        },
        None => if words.len() == 0 {
            None
        } else {
            Some(join_words(words))
        },
    }
}

proof fn lemma_gathered_grows(seed: Option<Seq<char>>, words: Seq<Seq<char>>, tok: Seq<char>)
    ensures
        gathered(seed, words.push(tok)) == match gathered(seed, words) {
            Some(text) => Some(text + seq![' '] + tok),
            None => Some(tok),
        },
{
    assert(words.push(tok).drop_last() =~= words);
}

/// Once an action is settled, a run of words is gathered as text and
/// nothing else changes.
proof fn lemma_scan_words(args: Seq<Seq<char>>, i: int, st: ScanState, seed: Option<Seq<char>>)
    requires
        1 <= i <= args.len(),
        st.action is Some,
        st.input == gathered(seed, args.subrange(1, i)),
        forall|j: int| i <= j < args.len() ==> is_word(#[trigger] args[j]),
    ensures
        scan(args, i, st) == (ScanState {
            input: gathered(seed, args.subrange(1, args.len() as int)),
            ..st
        }),
    decreases args.len() - i,
{
    if i < args.len() {
        let st1 = take_word(st, args[i]);
        assert(args.subrange(1, i + 1) =~= args.subrange(1, i).push(args[i]));
        lemma_gathered_grows(seed, args.subrange(1, i), args[i]);
        lemma_scan_words(args, i + 1, st1, seed);
    }
}

/// An invocation that holds words only, the first of which is no action
/// word, adds: the action is `Add`, and the text is the piped text, if any,
/// followed by the words in their order, joined by single spaces. There are
/// no options and no warnings.
pub proof fn lemma_words_only_adds(args: Seq<Seq<char>>, piped: Option<Seq<char>>)
    requires
        args.len() >= 2,
        forall|j: int| 1 <= j < args.len() ==> is_word(#[trigger] args[j]),
        action_of_word(args[1]) is None,
    ensures
        resolve(args, piped) == (ResolvedArgs {
            action: BAction::Add,
            flags: Set::empty(),
            flag_args: Map::empty(),
            input: gathered(
                match piped {
                    Some(text) => Some(trim(text)),
                    None => None,
                },
                args.subrange(1, args.len() as int),
            ),
            warnings: Seq::empty(),
        }),
{
    let seed = match piped {
        Some(text) => Some(trim(text)),
        None => None,
    };
    let st0 = start_state(seed);
    let st1 = take_word(st0, args[1]);
    lemma_gathered_grows(seed, Seq::empty(), args[1]);
    lemma_scan_words(args, 2, st1, seed);
}

/// The same, for an invocation without piped text: the text is exactly the
/// words joined by single spaces.
pub proof fn lemma_words_only_adds_joined(args: Seq<Seq<char>>)
    requires
        args.len() >= 2,
        forall|j: int| 1 <= j < args.len() ==> is_word(#[trigger] args[j]),
        action_of_word(args[1]) is None,
    ensures
        resolve(args, None).action == BAction::Add,
        resolve(args, None).input == Some(join_words(args.subrange(1, args.len() as int))),
{
    lemma_words_only_adds(args, None);
}

/// The outcome is a function of the characters of the arguments and of the
/// piped text: equal inputs give equal outcomes.
pub proof fn lemma_resolve_is_a_function(
    args1: Seq<Seq<char>>,
    piped1: Option<Seq<char>>,
    args2: Seq<Seq<char>>,
    piped2: Option<Seq<char>>,
)
    requires
        args1.len() == args2.len(),
        forall|j: int| 0 <= j < args1.len() ==> args1[j] =~= args2[j],
        piped1 is Some <==> piped2 is Some,
        piped1 is Some ==> piped1->0 =~= piped2->0,
    ensures
        resolve(args1, piped1) == resolve(args2, piped2),
{
    assert(args1 =~= args2);
}

/// A long flag whose spelling is in neither table is reported and skipped:
/// the state gains one warning and nothing else, and no argument is taken as
/// its value.
pub proof fn lemma_unknown_long_flag_is_skipped(args: Seq<Seq<char>>, i: int, st: ScanState)
    requires
        0 <= i < args.len(),
        is_long_flag(args[i]),
        action_of_spelling(args[i].skip(2)) is None,
        option_of_spelling(args[i].skip(2)) is None,
    ensures
        step(args, i, st) == (
            ScanState { warnings: st.warnings.push(Warning::UnknownFlag(args[i].skip(2))), ..st },
            false,
        ),
{
}

/// An unknown long flag followed by one word that is no action word: the
/// word becomes the text, the action is `Add`, and the flag is reported.
pub proof fn lemma_unknown_flag_then_word(args: Seq<Seq<char>>)
    requires
        args.len() == 3,
        is_long_flag(args[1]),
        action_of_spelling(args[1].skip(2)) is None,
        option_of_spelling(args[1].skip(2)) is None,
        is_word(args[2]),
        action_of_word(args[2]) is None,
    ensures
        resolve(args, None) == (ResolvedArgs {
            action: BAction::Add,
            flags: Set::empty(),
            flag_args: Map::empty(),
            input: Some(args[2]),
            warnings: seq![Warning::UnknownFlag(args[1].skip(2))],
        }),
{
    let st0 = start_state(None);
    lemma_unknown_long_flag_is_skipped(args, 1, st0);
    let st1 = step(args, 1, st0).0;
    let st2 = take_word(st1, args[2]);
    assert(scan(args, 3, st2) == st2);
    assert(scan(args, 2, st1) == st2);
}

/// What no part of the pass undoes: text, once there, stays; and the
/// settled action is never `ListDefault`.
pub open spec fn carries_on(before: ScanState, after: ScanState) -> bool {
    &&& before.input is Some ==> after.input is Some
    &&& before.action != Some(BAction::ListDefault) ==> after.action != Some(
        BAction::ListDefault,
    )
}

proof fn lemma_cluster_carries_on(
    args: Seq<Seq<char>>,
    i: int,
    cluster: Seq<char>,
    x: int,
    st: ScanState,
    taken: bool,
)
    ensures
        carries_on(st, scan_cluster(args, i, cluster, x, st, taken).0),
    decreases cluster.len() - x,
{
    if 0 <= x < cluster.len() {
        let (st1, used) = apply_spelling(
            args,
            i,
            st,
            seq![cluster[x]],
            cluster,
            x,
            x + 1 == cluster.len(),
        );
        lemma_cluster_carries_on(args, i, cluster, x + 1, st1, taken || used);
    }
}

proof fn lemma_scan_carries_on(args: Seq<Seq<char>>, i: int, st: ScanState)
    ensures
        carries_on(st, scan(args, i, st)),
    decreases args.len() + 1 - i,
{
    if 0 <= i < args.len() {
        let (st1, used) = step(args, i, st);
        if !is_long_flag(args[i]) && is_short_cluster(args[i]) {
            lemma_cluster_carries_on(args, i, args[i].skip(1), 0, st, false);
        }
        lemma_scan_carries_on(
            args,
            if used {
                i + 2
            } else {
                i + 1
            },
            st1,
        );
    }
}

/// `ListDefault` stands for an invocation that named no action and gave no
/// text: whenever it is the outcome, there is no text, and nothing was
/// piped in.
pub proof fn lemma_list_default_has_no_text(args: Seq<Seq<char>>, piped: Option<Seq<char>>)
    requires
        resolve(args, piped).action == BAction::ListDefault,
    ensures
        resolve(args, piped).input is None,
        piped is None,
{
    let seed = match piped {
        Some(text) => Some(trim(text)),
        None => None,
    };
    lemma_scan_carries_on(args, 1, start_state(seed));
}

/// Text is absent only when nothing was piped in; and with text present
/// the action is never `ListDefault`.
pub proof fn lemma_piped_text_is_kept(args: Seq<Seq<char>>, piped: Option<Seq<char>>)
    requires
        piped is Some,
    ensures
        resolve(args, piped).input is Some,
        resolve(args, piped).action != BAction::ListDefault,
{
    let seed = match piped {
        Some(text) => Some(trim(text)),
        None => None,
    };
    lemma_scan_carries_on(args, 1, start_state(seed));
}

proof fn lemma_cluster_keeps_text(
    args: Seq<Seq<char>>,
    i: int,
    cluster: Seq<char>,
    x: int,
    st: ScanState,
    taken: bool,
)
    ensures
        scan_cluster(args, i, cluster, x, st, taken).0.input == st.input,
    decreases cluster.len() - x,
{
    if 0 <= x < cluster.len() {
        let (st1, used) = apply_spelling(
            args,
            i,
            st,
            seq![cluster[x]],
            cluster,
            x,
            x + 1 == cluster.len(),
        );
        lemma_cluster_keeps_text(args, i, cluster, x + 1, st1, taken || used);
    }
}

/// Flags never touch the text: whatever a long flag or a cluster does, the
/// text gathered so far stays as it is.
pub proof fn lemma_flag_keeps_text(args: Seq<Seq<char>>, i: int, st: ScanState)
    requires
        0 <= i < args.len(),
        !is_word(args[i]),
    ensures
        step(args, i, st).0.input == st.input,
{
    if !is_long_flag(args[i]) {
        lemma_cluster_keeps_text(args, i, args[i].skip(1), 0, st, false);
    }
}

/// A long flag for an option that takes a value, followed by an argument
/// that does not start with a dash: the argument becomes the value of the
/// option, under the option's canonical name, and is never read as text.
/// The pass goes on behind it.
pub proof fn lemma_value_is_not_text(
    args: Seq<Seq<char>>,
    i: int,
    st: ScanState,
    name: Seq<char>,
)
    requires
        0 <= i < args.len(),
        is_long_flag(args[i]),
        option_of_spelling(args[i].skip(2)) == Some((name, true)),
        next_is_value(args, i),
    ensures
        step(args, i, st) == (
            ScanState {
                action: with_action(st, action_of_spelling(args[i].skip(2))).action,
                flag_args: st.flag_args.insert(name, args[i + 1]),
                ..st
            },
            true,
        ),
        scan(args, i, st) == scan(args, i + 2, step(args, i, st).0),
{
}

proof fn lemma_trim_start_shape(s: Seq<char>) -> (a: int)
    ensures
        0 <= a <= s.len(),
        trim_start(s) == s.skip(a),
        a < s.len() ==> !is_whitespace(s[a]),
    decreases s.len(),
{
    if s.len() > 0 && is_whitespace(s.first()) {
        let a = lemma_trim_start_shape(s.drop_first());
        a + 1
    } else {
        0
    }
}

proof fn lemma_trim_end_shape(s: Seq<char>) -> (b: int)
    ensures
        0 <= b <= s.len(),
        trim_end(s) == s.take(b),
        b > 0 ==> !is_whitespace(s[b - 1]),
    decreases s.len(),
{
    if s.len() > 0 && is_whitespace(s.last()) {
        let b = lemma_trim_end_shape(s.drop_last());
        b
    } else {
        s.len() as int
    }
}

/// Trimmed text is a stretch of the text it was made from, and neither
/// starts nor ends with white space.
pub proof fn lemma_trim_has_clean_ends(s: Seq<char>)
    ensures
        exists|a: int, b: int| 0 <= a <= b <= s.len() && trim(s) == s.subrange(a, b),
        trim(s).len() > 0 ==> !is_whitespace(trim(s).first()) && !is_whitespace(trim(s).last()),
{
    let a = lemma_trim_start_shape(s);
    let rest = s.skip(a);
    let n = lemma_trim_end_shape(rest);
    assert(0 <= a <= a + n <= s.len() && trim(s) == s.subrange(a, a + n));
}

/// Text without white space at its ends is left as it is; so trimming
/// twice changes nothing more.
pub proof fn lemma_trim_twice(s: Seq<char>)
    ensures
        trim(trim(s)) == trim(s),
{
    lemma_trim_has_clean_ends(s);
}

} // verus!
