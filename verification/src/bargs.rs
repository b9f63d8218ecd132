//! The argument parser: from the raw arguments of an invocation to its
//! resolved action, options, text and warnings.

use vstd::prelude::*;
use vstd::string::*;
use vstd::hash_map::StringHashMap;
use vstd::slice::slice_subrange;
use crate::registry::{action_from_chars, option_from_chars, word_from_chars, BAction};
use crate::scan::{
    append_input, apply_spelling, is_long_flag, is_short_cluster, resolve, scan, scan_cluster,
    start_state, starts_with_dash, take_word, warning_text, with_warning, ResolvedArgs,
    ScanState, Warning,
};
use crate::text::{contains_char, decimal_text, to_chars, trim, trim_text};

verus! {

/// A complaint about one flag; see [`Warning`] for the meaning of each.
#[derive(Debug, PartialEq, Eq)]
pub enum BWarning {
    UnknownFlag(String),
    MissingValue(String),
    ValueFlagNotLast(String, usize),
}

impl View for BWarning {
    type V = Warning;

    open spec fn view(&self) -> Warning {
        match self {
            BWarning::UnknownFlag(s) => Warning::UnknownFlag(s@),
            BWarning::MissingValue(s) => Warning::MissingValue(s@),
            BWarning::ValueFlagNotLast(s, x) => Warning::ValueFlagNotLast(s@, *x as int),
        }
    }
}

impl BWarning {
    /// The line that tells the user about this warning.
    pub fn message(&self) -> (r: String)
        ensures
            r@ == warning_text(self@),
    {
        match self {
            BWarning::UnknownFlag(spelling) => {
                "Warning: Unknown flag: ".to_owned().concat(spelling.as_str())
            },
            BWarning::MissingValue(label) => {
                "Warning: Flag ".to_owned().concat(label.as_str()).concat(" requires an argument")
            },
            BWarning::ValueFlagNotLast(label, position) => {
                let count: usize = label.as_str().unicode_len();
                "Warning: Flag ".to_owned().concat(label.as_str()).concat(
                    " requires an argument, so must be the last argument in the list ",
                ).concat(decimal_text(*position).as_str()).concat(" ").concat(
                    decimal_text(count).as_str(),
                )
            },
        }
    }
}

/// The resolved invocation.
pub struct BArgs {
    /// The arguments as they were given, program name included.
    pub args: Vec<String>,
    pub action: BAction,
    pub flags: StringHashMap<bool>,
    pub flag_args: StringHashMap<String>,
    pub input: Option<String>,
    pub warnings: Vec<BWarning>,
}

impl View for BArgs {
    type V = ResolvedArgs;

    open spec fn view(&self) -> ResolvedArgs {
        ResolvedArgs {
            action: self.action,
            flags: self.flags@.dom(),
            flag_args: self.flag_args@.map_values(|v: String| v@),
            input: self.input.deep_view(),
            warnings: self.warnings@.map_values(|w: BWarning| w@),
        }
    }
}

/// What a parser of the command line offers.
pub trait BJournRunner: Sized + View<V = ResolvedArgs> {
    /// Interprets `args`, whose first element is the program name, together
    /// with the text that was piped in, if any. Never fails: what cannot be
    /// understood is reported in the warnings and skipped.
    fn parse(args: Vec<String>, input_txt: Option<String>) -> (r: Self)
        ensures
            r@ == resolve(args.deep_view(), input_txt.deep_view()),
    ;

    /// Whether the option `flag`, one without a value, was given.
    fn has_flag(&self, flag: &str) -> (b: bool)
        ensures
            b == self@.flags.contains(flag@),
    ;

    /// The value that was given for the option `flag`, if any.
    fn flag_arg(&self, flag: &str) -> (r: Option<String>)
        ensures
            r.deep_view() == if self@.flag_args.contains_key(flag@) {
                Some(self@.flag_args[flag@])
            } else {
                None
            },
    ;
}

struct Scanner {
    action: Option<BAction>,
    flags: StringHashMap<bool>,
    flag_args: StringHashMap<String>,
    input: Option<String>,
    warnings: Vec<BWarning>,
}

fn str_starts_with_dash(s: &str) -> (b: bool)
    ensures
        b == starts_with_dash(s@),
{
    !s.is_empty() && s.get_char(0) == '-'
}

impl Scanner {
    spec fn model(&self) -> ScanState {
        ScanState {
            action: self.action,
            flags: self.flags@.dom(),
            flag_args: self.flag_args@.map_values(|v: String| v@),
            input: self.input.deep_view(),
            warnings: self.warnings@.map_values(|w: BWarning| w@),
        }
    }

    fn new(seed: Option<String>) -> (s: Self)
        ensures
            s.model() == start_state(seed.deep_view()),
    {
        let s = Scanner {
            action: None,
            flags: StringHashMap::new(),
            flag_args: StringHashMap::new(),
            input: seed,
            warnings: Vec::new(),
        };
        assert(s.model().flag_args =~= Map::empty());
        assert(s.model().warnings =~= Seq::empty());
        s
    }

    fn warn(&mut self, w: BWarning)
        ensures
            final(self).model() == with_warning(old(self).model(), w@),
    {
        self.warnings.push(w);
        assert(self.model().warnings =~= old(self).model().warnings.push(w@));
    }

    /// Looks up the spelling `chars[from..to]` of the argument at `i`.
    fn apply(
        &mut self,
        args: &Vec<String>,
        i: usize,
        chars: &[char],
        start: usize,
        from: usize,
        to: usize,
    ) -> (used: bool)
        requires
            i < args.len(),
            chars@ == args[i as int]@,
            start <= from <= to <= chars@.len(),
        ensures
            (final(self).model(), used) == apply_spelling(
                args.deep_view(),
                i as int,
                old(self).model(),
                chars@.subrange(from as int, to as int),
                chars@.skip(start as int),
                from - start,
                to == chars@.len(),
            ),
            used ==> i + 1 < args.len(),
    {
        let spelling = slice_subrange(chars, from, to);
        let found = action_from_chars(spelling);
        if let Some(a) = found {
            self.action = Some(a);
        }
        let arg = args[i].as_str();
        match option_from_chars(spelling) {
            Some((name, takes_value)) => {
                if takes_value && to == chars.len() {
                    if i + 1 < args.len() && !str_starts_with_dash(args[i + 1].as_str()) {
                        let value = args[i + 1].clone();
                        self.flag_args.insert(name.to_owned(), value);
                        assert(self.model().flag_args =~= old(self).model().flag_args.insert(
                            name@,
                            args[i + 1]@,
                        ));
                        true
                    } else {
                        let label = arg.substring_char(start, chars.len()).to_owned();
                        self.warn(BWarning::MissingValue(label));
                        false
                    }
                } else if takes_value {
                    let label = arg.substring_char(start, chars.len()).to_owned();
                    self.warn(BWarning::ValueFlagNotLast(label, from - start));
                    false
                } else {
                    self.flags.insert(name.to_owned(), true);
                    false
                }
            },
            None => {
                if found.is_none() {
                    let unknown = arg.substring_char(from, to).to_owned();
                    self.warn(BWarning::UnknownFlag(unknown));
                }
                false
            },
        }
    }

    /// The letters of the cluster that the argument at `i` holds.
    fn cluster(&mut self, args: &Vec<String>, i: usize, chars: &[char]) -> (used: bool)
        requires
            i < args.len(),
            chars@ == args[i as int]@,
            chars@.len() >= 1,
        ensures
            (final(self).model(), used) == scan_cluster(
                args.deep_view(),
                i as int,
                chars@.skip(1),
                0,
                old(self).model(),
                false,
            ),
            used ==> i + 1 < args.len(),
    {
        let n: usize = chars.len();
        let mut x: usize = 1;
        let mut taken = false;
        while x < n
            invariant
                i < args.len(),
                chars@ == args[i as int]@,
                n == chars@.len(),
                1 <= x <= n,
                taken ==> i + 1 < args.len(),
                scan_cluster(
                    args.deep_view(),
                    i as int,
                    chars@.skip(1),
                    x - 1,
                    self.model(),
                    taken,
                ) == scan_cluster(
                    args.deep_view(),
                    i as int,
                    chars@.skip(1),
                    0,
                    old(self).model(),
                    false,
                ),
            decreases n - x,
        {
            assert(chars@.subrange(x as int, x + 1) =~= seq![chars@.skip(1)[x - 1]]);
            let used = self.apply(args, i, chars, 1, x, x + 1);
            taken = taken || used;
            x += 1;
        }
        taken
    }

    fn append(&mut self, tok: &str)
        ensures
            final(self).model() == append_input(old(self).model(), tok@),
    {
        let next = match self.input.take() {
            Some(text) => {
                proof {
                    reveal_strlit(" ");
                }
                assert(" "@ =~= seq![' ']);
                text.concat(" ").concat(tok)
            },
            None => tok.to_owned(),
        };
        self.input = Some(next);
    }

    /// A word, whose characters are `chars`.
    fn word(&mut self, tok: &str, chars: &[char])
        requires
            chars@ == tok@,
        ensures
            final(self).model() == take_word(old(self).model(), tok@),
    {
        if self.action.is_none() {
            match word_from_chars(chars) {
                Some(a) => {
                    self.action = Some(a);
                    return ;
                },
                None => {
                    self.action = Some(BAction::Add);
                },
            }
        }
        self.append(tok);
    }
}

fn chars_are_long_flag(chars: &[char]) -> (b: bool)
    ensures
        b == is_long_flag(chars@),
{
    chars.len() >= 2 && chars[0] == '-' && chars[1] == '-' && !contains_char(chars, ' ')
}

fn chars_are_short_cluster(chars: &[char]) -> (b: bool)
    ensures
        b == is_short_cluster(chars@),
{
    chars.len() >= 1 && chars[0] == '-' && !(chars.len() >= 2 && chars[1] == '-') && !contains_char(
        chars,
        ' ',
    )
}

impl BJournRunner for BArgs {
    fn parse(args: Vec<String>, input_txt: Option<String>) -> (r: Self)
        ensures
            r@ == resolve(args.deep_view(), input_txt.deep_view()),
            r.args == args,
    {
        let seed = match &input_txt {
            Some(text) => Some(trim_text(text.as_str())),
            None => None,
        };
        let ghost begin = start_state(seed.deep_view());
        let mut sc = Scanner::new(seed);
        // Nothing on the command line and nothing piped in: there is nothing to read.
        if args.len() == 1 && sc.input.is_none() {
            return BArgs {
                args,
                action: BAction::ListDefault,
                flags: sc.flags,
                flag_args: sc.flag_args,
                input: sc.input,
                warnings: sc.warnings,
            };
        }
        let mut i: usize = 1;
        while i < args.len()
            invariant
                1 <= i,
                i <= args.len() || i == 1,
                scan(args.deep_view(), i as int, sc.model()) == scan(args.deep_view(), 1, begin),
            decreases args.len() - i,
        {
            let tok = args[i].as_str();
            let chars_vec = to_chars(tok);
            let chars = chars_vec.as_slice();
            let used = if chars_are_long_flag(chars) {
                sc.apply(&args, i, chars, 2, 2, chars.len())
            } else if chars_are_short_cluster(chars) {
                sc.cluster(&args, i, chars)
            } else {
                sc.word(tok, chars);
                false
            };
            i = if used {
                i + 2
            } else {
                i + 1
            };
        }
        let action = match sc.action {
            Some(a) => a,
            None => if sc.input.is_some() {
                BAction::Add
            } else {
                BAction::ListDefault
            },
        };
        BArgs {
            args,
            action,
            flags: sc.flags,
            flag_args: sc.flag_args,
            input: sc.input,
            warnings: sc.warnings,
        }
    }

    fn has_flag(&self, flag: &str) -> (b: bool)
        ensures
            b == self.flags@.contains_key(flag@),
    {
        self.flags.contains_key(flag)
    }

    fn flag_arg(&self, flag: &str) -> (r: Option<String>)
        ensures
            match r {
                Some(value) => self.flag_args@.contains_key(flag@) && value@
                    == self.flag_args@[flag@]@,
                None => !self.flag_args@.contains_key(flag@),
            },
    {
        match self.flag_args.get(flag) {
            Some(value) => Some(value.clone()),
            None => None,
        }
    }
}

/// Lines as they were read from a pipe, put back together: each line is
/// followed by a line feed.
pub open spec fn joined_lines(lines: Seq<Seq<char>>) -> Seq<char>
    decreases lines.len(),
{
    if lines.len() == 0 {
        Seq::empty()
    } else {
        joined_lines(lines.drop_last()) + lines.last() + seq!['\n']
    }
}

/// The piped text that counts: the lines put together, unless they hold
/// nothing but white space, in which case the pipe is taken as absent.
pub open spec fn piped_text(lines: Seq<Seq<char>>) -> Option<Seq<char>> {
    let buffer = joined_lines(lines);
    if trim(buffer).len() > 0 {
        Some(buffer)
    } else {
        None
    }
}

/// Interprets an invocation from what the process was given: its arguments
/// and the lines that were piped into it (none when it was started from a
/// terminal).
pub fn parse_args(args_input: Vec<String>, stdin_lines: Vec<String>) -> (r: BArgs)
    ensures
        r@ == resolve(args_input.deep_view(), piped_text(stdin_lines.deep_view())),
        r.args == args_input,
{
    let mut input_buffer = String::new();
    let mut k: usize = 0;
    while k < stdin_lines.len()
        invariant
            k <= stdin_lines.len(),
            input_buffer@ == joined_lines(stdin_lines.deep_view().take(k as int)),
        decreases stdin_lines.len() - k,
    {
        proof {
            reveal_strlit("\n");
            let done = stdin_lines.deep_view().take(k + 1);
            assert(done.drop_last() =~= stdin_lines.deep_view().take(k as int));
        }
        input_buffer.append(stdin_lines[k].as_str());
        input_buffer.append("\n");
        k += 1;
    }
    assert(stdin_lines.deep_view().take(k as int) =~= stdin_lines.deep_view());
    if !trim_text(input_buffer.as_str()).as_str().is_empty() {
        let input_txt = Some(input_buffer);
        return BArgs::parse(args_input, input_txt);
    }
    let input_txt: Option<String> = None;
    BArgs::parse(args_input, input_txt)
}

} // verus!
