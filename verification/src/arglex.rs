//! A small command-line lexer: raw arguments become a stream of positional,
//! short-option and long-option tokens.

use vstd::prelude::*;
use vstd::string::*;

verus! {

/// One lexical unit of a command line.
#[derive(Debug, Clone, PartialEq, Eq)]
pub enum Arg {
    Positional(String),
    Short(String),
    Long(String),
}

/// The mathematical value of an [`Arg`].
pub enum Token {
    Positional(Seq<char>),
    Short(Seq<char>),
    Long(Seq<char>),
}

impl View for Arg {
    type V = Token;

    open spec fn view(&self) -> Token {
        match self {
            Arg::Positional(text) => Token::Positional(text@),
            Arg::Short(text) => Token::Short(text@),
            Arg::Long(text) => Token::Long(text@),
        }
    }
}

/// The text of every string of a sequence.
pub open spec fn texts(strings: Seq<String>) -> Seq<Seq<char>> {
    strings.map_values(|s: String| s@)
}

/// The value of every token of a sequence.
pub open spec fn tokens_of(args: Seq<Arg>) -> Seq<Token> {
    args.map_values(|a: Arg| a@)
}

/// The position of the first `c` in `s`, or the length of `s` where it holds none.
pub open spec fn first_index(s: Seq<char>, c: char) -> int
    decreases s.len(),
{
    if s.len() == 0 || s[0] == c {
        0
    } else {
        1 + first_index(s.drop_first(), c)
    }
}

/// `first_index` is in range, nothing before it is `c`, and `c` stands at it
/// when it is inside the sequence.
pub proof fn lemma_first_index(s: Seq<char>, c: char)
    ensures
        0 <= first_index(s, c) <= s.len(),
        forall|j: int| 0 <= j < first_index(s, c) ==> s[j] != c,
        first_index(s, c) < s.len() ==> s[first_index(s, c)] == c,
    decreases s.len(),
{
    if s.len() == 0 || s[0] == c {
    } else {
        let t = s.drop_first();
        lemma_first_index(t, c);
        assert forall|j: int| 0 <= j < first_index(s, c) implies s[j] != c by {
            if j > 0 {
                assert(s[j] == t[j - 1]);
            }
        }
        assert(s[first_index(s, c)] == t[first_index(t, c)] || first_index(s, c) >= s.len());
    }
}

/// Whether the raw argument is the bare delimiter `--`.
pub open spec fn is_delimiter(raw: Seq<char>) -> bool {
    raw.len() == 2 && raw[0] == '-' && raw[1] == '-'
}

/// The token that one raw argument opens with, and the value attached to it.
pub open spec fn split_arg(raw: Seq<char>, delimited: bool) -> (Token, Option<Seq<char>>) {
    let n = raw.len() as int;
    if delimited || n == 0 || raw[0] != '-' || n == 1 {
        (Token::Positional(raw), None)
    } else if raw[1] == '-' {
        let eq = first_index(raw, '=');
        if n == 2 {
            (Token::Positional(raw), None)
        } else if eq < n {
            (Token::Long(raw.subrange(2, eq)), Some(raw.subrange(eq + 1, n)))
        } else {
            (Token::Long(raw.subrange(2, n)), None)
        }
    } else if n > 2 {
        (Token::Short(raw.subrange(1, 2)), Some(raw.subrange(2, n)))
    } else {
        (Token::Short(raw.subrange(1, 2)), None)
    }
}

/// A token followed by its attached value, if it has one, as a positional.
pub open spec fn with_attached(token: Token, attached: Option<Seq<char>>) -> Seq<Token> {
    match attached {
        Some(value) => seq![token, Token::Positional(value)],
        None => seq![token],
    }
}

/// The one or two tokens that a raw argument stands for.
pub open spec fn arg_tokens(raw: Seq<char>, delimited: bool) -> Seq<Token> {
    with_attached(split_arg(raw, delimited).0, split_arg(raw, delimited).1)
}

/// Whether a bare `--` stands among the first `k` raw arguments.
pub open spec fn delimited_at(raws: Seq<Seq<char>>, k: int) -> bool {
    exists|j: int| 0 <= j < k && j < raws.len() && is_delimiter(#[trigger] raws[j])
}

/// The tokens of the first `k` raw arguments.
pub open spec fn lex_prefix(raws: Seq<Seq<char>>, k: int) -> Seq<Token>
    decreases k,
{
    if k <= 0 {
        Seq::empty()
    } else {
        lex_prefix(raws, k - 1) + arg_tokens(raws[k - 1], delimited_at(raws, k - 1))
    }
}

/// The tokens of a whole command line.
pub open spec fn lex_spec(raws: Seq<Seq<char>>) -> Seq<Token> {
    lex_prefix(raws, raws.len() as int)
}

/// The dash-prefixed form in which a token was written.
pub open spec fn rendered(token: Token) -> Seq<char> {
    match token {
        Token::Positional(text) => text,
        Token::Short(text) => seq!['-'] + text,
        Token::Long(text) => seq!['-', '-'] + text,
    }
}

/// The raw arguments as positionals, each verbatim.
pub open spec fn positionals(raws: Seq<Seq<char>>) -> Seq<Token> {
    raws.map_values(|raw: Seq<char>| Token::Positional(raw))
}

/// The first `k` raw arguments give at least `k` and at most `2 * k` tokens.
pub proof fn lemma_lex_prefix_len(raws: Seq<Seq<char>>, k: int)
    requires
        0 <= k <= raws.len(),
    ensures
        k <= lex_prefix(raws, k).len() <= 2 * k,
    decreases k,
{
    if k > 0 {
        lemma_lex_prefix_len(raws, k - 1);
    }
}

/// Lexing never drops an argument: a command line gives at least as many
/// tokens as it has raw arguments, and at most twice as many.
pub proof fn lemma_lex_len(raws: Seq<Seq<char>>)
    ensures
        raws.len() <= lex_spec(raws).len() <= 2 * raws.len(),
{
    lemma_lex_prefix_len(raws, raws.len() as int);
}

/// From a bare `--` on, every raw argument is one positional token that
/// holds it verbatim, whatever dashes it begins with: up to any later
/// position `k`, the tokens are those of the arguments before the `--`,
/// then the `--` and what follows it as positionals.
pub proof fn lemma_lex_after_delimiter(raws: Seq<Seq<char>>, i: int, k: int)
    requires
        0 <= i < k <= raws.len(),
        is_delimiter(raws[i]),
    ensures
        lex_prefix(raws, k) == lex_prefix(raws, i) + positionals(raws.subrange(i, k)),
    decreases k,
{
    if k == i + 1 {
        assert(positionals(raws.subrange(i, k)) =~= seq![Token::Positional(raws[i])]);
    } else {
        lemma_lex_after_delimiter(raws, i, k - 1);
        assert(delimited_at(raws, k - 1));
        assert(positionals(raws.subrange(i, k)) =~= positionals(raws.subrange(i, k - 1)).push(
            Token::Positional(raws[k - 1]),
        ));
    }
    assert(lex_prefix(raws, k) =~= lex_prefix(raws, i) + positionals(raws.subrange(i, k)));
}

/// A command line that holds a bare `--` lexes to the tokens of what stands
/// before it, followed by the `--` and everything after it as positionals.
pub proof fn lemma_lex_delimited(raws: Seq<Seq<char>>, i: int)
    requires
        0 <= i < raws.len(),
        is_delimiter(raws[i]),
    ensures
        lex_spec(raws) == lex_prefix(raws, i) + positionals(raws.subrange(i, raws.len() as int)),
{
    lemma_lex_after_delimiter(raws, i, raws.len() as int);
}

/// An option written as `--name=value` lexes to the long option `name`
/// followed by the positional `value`, for every name without `=`.
pub proof fn lemma_long_with_value(name: Seq<char>, value: Seq<char>)
    requires
        forall|j: int| 0 <= j < name.len() ==> name[j] != '=',
    ensures
        arg_tokens(seq!['-', '-'] + name + seq!['='] + value, false) == seq![
            Token::Long(name),
            Token::Positional(value),
        ],
{
    let raw = seq!['-', '-'] + name + seq!['='] + value;
    let at = 2 + name.len() as int;
    lemma_first_index(raw, '=');
    assert(raw[at] == '=');
    assert(forall|j: int| 2 <= j < at ==> raw[j] == name[j - 2]);
    assert(raw[0] == '-' && raw[1] == '-');
    assert(first_index(raw, '=') == at);
    assert(raw.subrange(2, at) =~= name);
    assert(raw.subrange(at + 1, raw.len() as int) =~= value);
}

/// An option written as `-cvalue` lexes to the short option `c` followed by
/// the positional `value`, for every code but the dash and every value that
/// is not empty.
pub proof fn lemma_short_with_value(code: char, value: Seq<char>)
    requires
        code != '-',
        value.len() > 0,
    ensures
        arg_tokens(seq!['-', code] + value, false) == seq![
            Token::Short(seq![code]),
            Token::Positional(value),
        ],
{
    let raw = seq!['-', code] + value;
    assert(raw[0] == '-' && raw[1] == code);
    assert(raw.subrange(1, 2) =~= seq![code]);
    assert(raw.subrange(2, raw.len() as int) =~= value);
}

/// The tokens of the first `k` raw arguments do not depend on what follows
/// them.
pub proof fn lemma_lex_prefix_of_front(raws: Seq<Seq<char>>, cut: int, k: int)
    requires
        0 <= k <= cut <= raws.len(),
    ensures
        lex_prefix(raws.subrange(0, cut), k) == lex_prefix(raws, k),
    decreases k,
{
    if k > 0 {
        let front = raws.subrange(0, cut);
        lemma_lex_prefix_of_front(raws, cut, k - 1);
        assert(front[k - 1] == raws[k - 1]);
        if delimited_at(raws, k - 1) {
            let j = choose|j: int| 0 <= j < k - 1 && j < raws.len() && is_delimiter(#[trigger] raws[j]);
            assert(is_delimiter(front[j]));
        }
        if delimited_at(front, k - 1) {
            let j = choose|j: int|
                0 <= j < k - 1 && j < front.len() && is_delimiter(#[trigger] front[j]);
            assert(is_delimiter(raws[j]));
        }
    }
}

impl Arg {
    /// The token as the user wrote it, dashes included.
    pub fn render(&self) -> (text: String)
        ensures
            text@ == rendered(self@),
    {
        proof {
            reveal_strlit("-");
            reveal_strlit("--");
            assert("-"@ =~= seq!['-']);
            assert("--"@ =~= seq!['-', '-']);
        }
        match self {
            Arg::Positional(text) => text.clone(),
            Arg::Short(text) => String::from_str("-").concat(text.as_str()),
            Arg::Long(text) => String::from_str("--").concat(text.as_str()),
        }
    }
}

/// Finds the first `c` in `s`.
pub fn find_char(s: &str, c: char) -> (found: Option<usize>)
    ensures
        match found {
            Some(i) => i < s@.len() && i == first_index(s@, c) && s@[i as int] == c,
            None => first_index(s@, c) == s@.len(),
        },
{
    let n = s.unicode_len();
    let mut i: usize = 0;
    proof {
        lemma_first_index(s@, c);
    }
    while i < n
        invariant
            n == s@.len(),
            i <= n,
            forall|j: int| 0 <= j < i ==> s@[j] != c,
            0 <= first_index(s@, c) <= s@.len(),
            forall|j: int| 0 <= j < first_index(s@, c) ==> s@[j] != c,
            first_index(s@, c) < s@.len() ==> s@[first_index(s@, c)] == c,
        decreases n - i,
    {
        if s.get_char(i) == c {
            return Some(i);
        }
        i += 1;
    }
    None
}

/// Lexes one raw argument. `delimited` says whether a bare `--` came before
/// it, and is set when this argument is one.
pub fn arg_of(raw_arg: String, delimited: &mut bool) -> (parts: (Arg, Option<String>))
    ensures
        *final(delimited) == (*old(delimited) || is_delimiter(raw_arg@)),
        parts.0@ == split_arg(raw_arg@, *old(delimited)).0,
        parts.1 is Some == split_arg(raw_arg@, *old(delimited)).1 is Some,
        parts.1 is Some ==> parts.1->0@ == split_arg(raw_arg@, *old(delimited)).1->0,
{
    let s = raw_arg.as_str();
    let n = s.unicode_len();
    if *delimited || n == 0 || s.get_char(0) != '-' || n == 1 {
        (Arg::Positional(raw_arg), None)
    } else if s.get_char(1) == '-' {
        if n == 2 {
            *delimited = true;
            (Arg::Positional(raw_arg), None)
        } else {
            match find_char(s, '=') {
                Some(i) => {
                    let name = String::from_str(s.substring_char(2, i));
                    let value = String::from_str(s.substring_char(i + 1, n));
                    (Arg::Long(name), Some(value))
                },
                None => (Arg::Long(String::from_str(s.substring_char(2, n))), None),
            }
        }
    } else {
        let code = String::from_str(s.substring_char(1, 2));
        if n > 2 {
            (Arg::Short(code), Some(String::from_str(s.substring_char(2, n))))
        } else {
            (Arg::Short(code), None)
        }
    }
}

/// Lexes a command line: every raw argument gives one token, and a second,
/// positional one where a value was attached to an option.
pub fn lex(raw_args: Vec<String>) -> (args: Vec<Arg>)
    ensures
        tokens_of(args@) == lex_spec(texts(raw_args@)),
        raw_args.len() <= args.len() <= 2 * raw_args.len(),
{
    let mut args: Vec<Arg> = Vec::new();
    let mut delimited = false;
    let mut i: usize = 0;
    let ghost raws = texts(raw_args@);
    while i < raw_args.len()
        invariant
            i <= raw_args.len(),
            raws == texts(raw_args@),
            tokens_of(args@) =~= lex_prefix(raws, i as int),
            delimited == delimited_at(raws, i as int),
            i <= args.len() <= 2 * i,
        decreases raw_args.len() - i,
    {
        let raw_arg = raw_args[i].clone();
        let ghost before = args@;
        let ghost was = delimited;
        assert(raw_arg@ == raws[i as int]);
        let (arg, rest) = arg_of(raw_arg, &mut delimited);
        args.push(arg);
        if let Some(rest) = rest {
            args.push(Arg::Positional(rest));
        }
        proof {
            assert(tokens_of(args@) =~= tokens_of(before) + arg_tokens(raws[i as int], was));
            if delimited {
                if was {
                    let j = choose|j: int| 0 <= j < i && j < raws.len() && is_delimiter(#[trigger] raws[j]);
                    assert(is_delimiter(raws[j]));
                } else {
                    assert(is_delimiter(raws[i as int]));
                }
            }
        }
        i += 1;
    }
    args
}

} // verus!
