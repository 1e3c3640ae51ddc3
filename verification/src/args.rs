//! The option interpreter: it walks the lexed tokens and fills the record of
//! what the user asked for.

use crate::arglex::{
    arg_tokens, delimited_at, is_delimiter, lemma_lex_after_delimiter,
    lemma_lex_prefix_of_front, lemma_long_with_value, lemma_short_with_value, lex, lex_prefix,
    lex_spec, positionals, rendered, texts, tokens_of, Arg, Token,
};
use crate::error::{ArgError, ArgErrorKind, Failure};
use crate::text::{opt_text, same_text};
use vstd::prelude::*;
use vstd::string::*;

verus! {

/// What the user asked for.
#[derive(Debug, Clone, PartialEq, Eq)]
pub struct Args {
    pub access: bool,
    pub no_create: bool,
    pub date: Option<String>,
    pub no_dereference: bool,
    pub modification: bool,
    pub reference: Option<String>,
    pub timestamp: Option<String>,
    pub time: Option<String>,
    pub files: Vec<String>,
}

/// The mathematical value of an [`Args`].
pub struct Record {
    pub access: bool,
    pub no_create: bool,
    pub date: Option<Seq<char>>,
    pub no_dereference: bool,
    pub modification: bool,
    pub reference: Option<Seq<char>>,
    pub timestamp: Option<Seq<char>>,
    pub time: Option<Seq<char>>,
    pub files: Seq<Seq<char>>,
}

impl View for Args {
    type V = Record;

    open spec fn view(&self) -> Record {
        Record {
            access: self.access,
            no_create: self.no_create,
            date: opt_text(self.date),
            no_dereference: self.no_dereference,
            modification: self.modification,
            reference: opt_text(self.reference),
            timestamp: opt_text(self.timestamp),
            time: opt_text(self.time),
            files: texts(self.files@),
        }
    }
}

/// The record before any token was read: nothing set, no file named.
pub open spec fn empty_record() -> Record {
    Record {
        access: false,
        no_create: false,
        date: None,
        no_dereference: false,
        modification: false,
        reference: None,
        timestamp: None,
        time: None,
        files: Seq::empty(),
    }
}

impl Args {
    /// The record before any token was read.
    pub fn new() -> (args: Args)
        ensures
            args@ == empty_record(),
    {
        let args = Args {
            access: false,
            no_create: false,
            date: None,
            no_dereference: false,
            modification: false,
            reference: None,
            timestamp: None,
            time: None,
            files: Vec::new(),
        };
        assert(texts(args.files@) =~= Seq::empty());
        args
    }
}

/// What a token means to the interpreter.
#[derive(Debug, Clone, Copy, PartialEq, Eq, Structural)]
pub enum Meaning {
    /// The delimiter `--`, which names no file.
    Delimiter,
    /// A file to touch.
    File,
    Access,
    NoCreate,
    NoDereference,
    Modification,
    /// The four options that take the next token as their value.
    Date,
    Reference,
    Timestamp,
    Time,
    Help,
    Version,
    Unknown,
}

/// The meaning of each token.
pub open spec fn meaning(token: Token) -> Meaning {
    match token {
        Token::Positional(text) => if text == "--"@ {
            Meaning::Delimiter
        } else {
            Meaning::File
        },
        Token::Short(code) => if code == "a"@ {
            Meaning::Access
        } else if code == "c"@ {
            Meaning::NoCreate
        } else if code == "d"@ {
            Meaning::Date
        } else if code == "h"@ {
            Meaning::NoDereference
        } else if code == "m"@ {
            Meaning::Modification
        } else if code == "r"@ {
            Meaning::Reference
        } else if code == "t"@ {
            Meaning::Timestamp
        } else {
            Meaning::Unknown
        },
        Token::Long(name) => if name == "no-create"@ {
            Meaning::NoCreate
        } else if name == "date"@ {
            Meaning::Date
        } else if name == "no-dereference"@ {
            Meaning::NoDereference
        } else if name == "reference"@ {
            Meaning::Reference
        } else if name == "timestamp"@ {
            Meaning::Timestamp
        } else if name == "time"@ {
            Meaning::Time
        } else if name == "version"@ {
            Meaning::Version
        } else if name == "help"@ {
            Meaning::Help
        } else {
            Meaning::Unknown
        },
    }
}

/// Whether an option of this meaning takes the next token as its value.
pub open spec fn takes_value(m: Meaning) -> bool {
    m == Meaning::Date || m == Meaning::Reference || m == Meaning::Timestamp || m == Meaning::Time
}

/// The record after a token that stands alone: a file or a flag.
pub open spec fn after_plain(rec: Record, m: Meaning, token: Token) -> Record {
    match m {
        Meaning::File => Record { files: rec.files.push(rendered(token)), ..rec },
        Meaning::Access => Record { access: true, ..rec },
        Meaning::NoCreate => Record { no_create: true, ..rec },
        Meaning::NoDereference => Record { no_dereference: true, ..rec },
        Meaning::Modification => Record { modification: true, ..rec },
        _ => rec,
    }
}

/// The record after an option that took `value`.
pub open spec fn after_value(rec: Record, m: Meaning, value: Seq<char>) -> Record {
    match m {
        Meaning::Date => Record { date: Some(value), ..rec },
        Meaning::Reference => Record { reference: Some(value), ..rec },
        Meaning::Timestamp => Record { timestamp: Some(value), ..rec },
        Meaning::Time => Record { time: Some(value), ..rec },
        _ => rec,
    }
}

/// The failure that ends the walk at a token of this meaning, for the three
/// meanings that end it.
pub open spec fn stop(m: Meaning, token: Token) -> Failure {
    match m {
        Meaning::Help => Failure { kind: ArgErrorKind::HelpRequested, subject: Seq::empty() },
        Meaning::Version => Failure { kind: ArgErrorKind::VersionRequested, subject: Seq::empty() },
        _ => Failure { kind: ArgErrorKind::UnknownArgument, subject: rendered(token) },
    }
}

/// The failure for an option whose value is missing.
pub open spec fn missing_value() -> Failure {
    Failure { kind: ArgErrorKind::MissingValue, subject: Seq::empty() }
}

/// The walk over the tokens from position `pos` on, with `rec` gathered so
/// far: the final record, or the first failure in the order of the tokens.
pub open spec fn interpret_from(tokens: Seq<Token>, pos: int, rec: Record) -> Result<
    Record,
    Failure,
>
    decreases tokens.len() - pos,
{
    if pos < 0 || pos >= tokens.len() {
        Ok(rec)
    } else {
        let token = tokens[pos];
        let m = meaning(token);
        if takes_value(m) {
            if pos + 1 < tokens.len() && tokens[pos + 1] is Positional {
                interpret_from(tokens, pos + 2, after_value(rec, m, rendered(tokens[pos + 1])))
            } else {
                Err(missing_value())
            }
        } else if m == Meaning::Help || m == Meaning::Version || m == Meaning::Unknown {
            Err(stop(m, token))
        } else {
            interpret_from(tokens, pos + 1, after_plain(rec, m, token))
        }
    }
}

/// What a stream of tokens asks for.
pub open spec fn interpret(tokens: Seq<Token>) -> Result<Record, Failure> {
    interpret_from(tokens, 0, empty_record())
}

/// What a command line asks for.
pub open spec fn parse_spec(raws: Seq<Seq<char>>) -> Result<Record, Failure> {
    interpret(lex_spec(raws))
}

/// Whether an outcome of the interpreter is the one that the model gives.
pub open spec fn agrees(got: Result<Args, ArgError>, want: Result<Record, Failure>) -> bool {
    match got {
        Ok(args) => want == Ok::<Record, Failure>(args@),
        Err(e) => want == Err::<Record, Failure>(e@),
    }
}

/// A date attached to `-d` and a date written after `--date=` ask for the
/// same: either command line gives the record in which the date is that
/// value and nothing else is set.
pub proof fn lemma_date_forms_agree(value: Seq<char>)
    requires
        value.len() > 0,
    ensures
        parse_spec(seq!["-d"@ + value]) == Ok::<Record, Failure>(
            Record { date: Some(value), ..empty_record() },
        ),
        parse_spec(seq!["--date="@ + value]) == parse_spec(seq!["-d"@ + value]),
{
    reveal_strlit("-d");
    reveal_strlit("--date=");
    reveal_strlit("a");
    reveal_strlit("c");
    reveal_strlit("d");
    reveal_strlit("no-create");
    reveal_strlit("date");
    let want = Ok::<Record, Failure>(Record { date: Some(value), ..empty_record() });
    let short = seq!["-d"@ + value];
    let long = seq!["--date="@ + value];
    let short_tokens = seq![Token::Short("d"@), Token::Positional(value)];
    let long_tokens = seq![Token::Long("date"@), Token::Positional(value)];
    assert(lex_spec(short) == short_tokens) by {
        reveal_with_fuel(lex_prefix, 2);
        lemma_short_with_value('d', value);
        assert("-d"@ + value =~= seq!['-', 'd'] + value);
        assert("d"@ =~= seq!['d']);
        assert(!delimited_at(short, 0));
        assert(lex_prefix(short, 1) =~= arg_tokens(short[0], false));
    }
    assert(lex_spec(long) == long_tokens) by {
        reveal_with_fuel(lex_prefix, 2);
        lemma_long_with_value("date"@, value);
        assert("--date="@ + value =~= seq!['-', '-'] + "date"@ + seq!['='] + value);
        assert(!delimited_at(long, 0));
        assert(lex_prefix(long, 1) =~= arg_tokens(long[0], false));
    }
    assert(interpret(short_tokens) == want) by {
        reveal_with_fuel(interpret_from, 3);
        assert("d"@[0] == 'd' && "a"@[0] == 'a' && "c"@[0] == 'c');
        assert(meaning(short_tokens[0]) == Meaning::Date);
    }
    assert(interpret(long_tokens) == want) by {
        reveal_with_fuel(interpret_from, 3);
        assert(meaning(long_tokens[0]) == Meaning::Date);
    }
}

/// The files that a run of positionals names: each of them but the bare
/// `--`, in order.
pub open spec fn operands(raws: Seq<Seq<char>>) -> Seq<Seq<char>>
    decreases raws.len(),
{
    if raws.len() == 0 {
        Seq::empty()
    } else if raws[0] == "--"@ {
        operands(raws.drop_first())
    } else {
        seq![raws[0]] + operands(raws.drop_first())
    }
}

/// The record with more files at the end of its list.
pub open spec fn with_files(rec: Record, more: Seq<Seq<char>>) -> Record {
    Record { files: rec.files + more, ..rec }
}

/// A walk that has reached a run of positionals that ends the stream adds
/// their operands to the files, and cannot fail.
pub proof fn lemma_walk_over_positionals(
    head: Seq<Token>,
    raws: Seq<Seq<char>>,
    from: int,
    rec: Record,
)
    requires
        0 <= from <= raws.len(),
    ensures
        interpret_from(head + positionals(raws), head.len() + from, rec) == Ok::<Record, Failure>(
            with_files(rec, operands(raws.subrange(from, raws.len() as int))),
        ),
    decreases raws.len() - from,
{
    let tokens = head + positionals(raws);
    let rest = raws.subrange(from, raws.len() as int);
    if from == raws.len() {
        assert(rest =~= Seq::empty());
        assert(with_files(rec, operands(rest)).files =~= rec.files);
    } else {
        let token = tokens[head.len() + from];
        assert(token == Token::Positional(raws[from]));
        let m = meaning(token);
        let next = after_plain(rec, m, token);
        lemma_walk_over_positionals(head, raws, from + 1, next);
        assert(rest.drop_first() =~= raws.subrange(from + 1, raws.len() as int));
        assert(rest[0] == raws[from]);
        assert(with_files(next, operands(rest.drop_first())).files =~= with_files(
            rec,
            operands(rest),
        ).files);
    }
}

/// A walk over a stream whose first part ends in a positional goes through
/// that part as it would if nothing followed it.
pub proof fn lemma_walk_through_head(head: Seq<Token>, tail: Seq<Token>, pos: int, rec: Record)
    requires
        0 <= pos <= head.len(),
        head.len() > 0,
        head.last() is Positional,
    ensures
        interpret_from(head + tail, pos, rec) == match interpret_from(head, pos, rec) {
            Ok(reached) => interpret_from(head + tail, head.len() as int, reached),
            Err(e) => Err(e),
        },
    decreases head.len() - pos,
{
    let tokens = head + tail;
    if pos < head.len() {
        let token = head[pos];
        assert(tokens[pos] == token);
        let m = meaning(token);
        if takes_value(m) {
            assert(pos + 1 < head.len());
            assert(tokens[pos + 1] == head[pos + 1]);
            if head[pos + 1] is Positional {
                lemma_walk_through_head(
                    head,
                    tail,
                    pos + 2,
                    after_value(rec, m, rendered(head[pos + 1])),
                );
            }
        } else if m == Meaning::Help || m == Meaning::Version || m == Meaning::Unknown {
        } else {
            lemma_walk_through_head(head, tail, pos + 1, after_plain(rec, m, token));
        }
    }
}

/// Everything that follows a bare `--` on the command line is a file to
/// touch, whatever dashes it begins with, and cannot make the command line
/// fail: the outcome is that of the arguments up to the `--`, with the
/// operands after it added to the files.
pub proof fn lemma_files_after_delimiter(raws: Seq<Seq<char>>, i: int)
    requires
        0 <= i < raws.len(),
        is_delimiter(raws[i]),
    ensures
        parse_spec(raws) == match parse_spec(raws.subrange(0, i + 1)) {
            Ok(reached) => Ok(
                with_files(reached, operands(raws.subrange(i + 1, raws.len() as int))),
            ),
            Err(e) => Err(e),
        },
{
    let n = raws.len() as int;
    let front = raws.subrange(0, i + 1);
    let back = raws.subrange(i + 1, n);
    let head = lex_spec(front);
    assert(head == lex_prefix(raws, i + 1)) by {
        lemma_lex_prefix_of_front(raws, i + 1, i + 1);
    }
    assert(head.len() > 0 && head.last() == Token::Positional(raws[i])) by {
        lemma_lex_after_delimiter(raws, i, i + 1);
        assert(positionals(raws.subrange(i, i + 1)) =~= seq![Token::Positional(raws[i])]);
    }
    assert(lex_spec(raws) == head + positionals(back)) by {
        if i + 1 < n {
            lemma_lex_after_delimiter(raws, i, n);
            lemma_lex_after_delimiter(raws, i, i + 1);
            assert(positionals(raws.subrange(i, n)) =~= positionals(raws.subrange(i, i + 1))
                + positionals(back));
        } else {
            assert(positionals(back) =~= Seq::empty());
            assert(head + positionals(back) =~= head);
        }
    }
    lemma_walk_through_head(head, positionals(back), 0, empty_record());
    match interpret_from(head, 0, empty_record()) {
        Ok(reached) => {
            lemma_walk_over_positionals(head, back, 0, reached);
            assert(back.subrange(0, back.len() as int) =~= back);
        },
        Err(_) => {},
    }
}

/// The meaning of a token.
pub fn meaning_of(arg: &Arg) -> (m: Meaning)
    ensures
        m == meaning(arg@),
{
    match arg {
        Arg::Positional(text) => if same_text(text.as_str(), "--") {
            Meaning::Delimiter
        } else {
            Meaning::File
        },
        Arg::Short(code) => {
            let code = code.as_str();
            if same_text(code, "a") {
                Meaning::Access
            } else if same_text(code, "c") {
                Meaning::NoCreate
            } else if same_text(code, "d") {
                Meaning::Date
            } else if same_text(code, "h") {
                Meaning::NoDereference
            } else if same_text(code, "m") {
                Meaning::Modification
            } else if same_text(code, "r") {
                Meaning::Reference
            } else if same_text(code, "t") {
                Meaning::Timestamp
            } else {
                Meaning::Unknown
            }
        },
        Arg::Long(name) => {
            let name = name.as_str();
            if same_text(name, "no-create") {
                Meaning::NoCreate
            } else if same_text(name, "date") {
                Meaning::Date
            } else if same_text(name, "no-dereference") {
                Meaning::NoDereference
            } else if same_text(name, "reference") {
                Meaning::Reference
            } else if same_text(name, "timestamp") {
                Meaning::Timestamp
            } else if same_text(name, "time") {
                Meaning::Time
            } else if same_text(name, "version") {
                Meaning::Version
            } else if same_text(name, "help") {
                Meaning::Help
            } else {
                Meaning::Unknown
            }
        },
    }
}

/// Takes the value of an option: the token at the cursor, which must be a
/// positional. The cursor moves past the token that was looked at.
pub fn get_arg_to(tokens: &Vec<Arg>, cursor: &mut usize) -> (value: Result<String, ArgError>)
    ensures
        *old(cursor) < tokens.len() ==> *final(cursor) == *old(cursor) + 1,
        *old(cursor) >= tokens.len() ==> *final(cursor) == *old(cursor),
        match value {
            Ok(text) => *old(cursor) < tokens.len() && tokens[*old(cursor) as int]@
                == Token::Positional(text@),
            Err(e) => e@ == missing_value() && !(*old(cursor) < tokens.len()
                && tokens[*old(cursor) as int]@ is Positional),
        },
{
    if *cursor < tokens.len() {
        let at = *cursor;
        *cursor = at + 1;
        if let Arg::Positional(value) = &tokens[at] {
            return Ok(value.clone());
        }
    }
    Err(ArgError::plain(ArgErrorKind::MissingValue))
}

/// The error for an option that the tool does not know.
pub fn unknown_argument(arg: &Arg) -> (e: ArgError)
    ensures
        e@ == (Failure { kind: ArgErrorKind::UnknownArgument, subject: rendered(arg@) }),
{
    ArgError::new(ArgErrorKind::UnknownArgument, arg.render())
}

/// Interprets a stream of tokens: files and flags are gathered in order, an
/// option that takes a value consumes the token after it, and the first
/// token that cannot be accepted ends the walk with its error.
pub fn interpret_tokens(tokens: &Vec<Arg>) -> (outcome: Result<Args, ArgError>)
    ensures
        agrees(outcome, interpret(tokens_of(tokens@))),
{
    let mut rec = Args::new();
    let mut pos: usize = 0;
    let ghost toks = tokens_of(tokens@);
    while pos < tokens.len()
        invariant
            pos <= tokens.len(),
            toks == tokens_of(tokens@),
            interpret(toks) == interpret_from(toks, pos as int, rec@),
        decreases tokens.len() - pos,
    {
        let arg = &tokens[pos];
        let m = meaning_of(arg);
        let ghost before = rec@;
        assert(toks[pos as int] == arg@);
        pos += 1;
        match m {
            Meaning::Delimiter => {},
            Meaning::File => {
                let mut files = rec.files;
                files.push(arg.render());
                rec.files = files;
                assert(rec@.files =~= before.files.push(rendered(arg@)));
            },
            Meaning::Access => {
                rec.access = true;
            },
            Meaning::NoCreate => {
                rec.no_create = true;
            },
            Meaning::NoDereference => {
                rec.no_dereference = true;
            },
            Meaning::Modification => {
                rec.modification = true;
            },
            Meaning::Help => {
                return Err(ArgError::plain(ArgErrorKind::HelpRequested));
            },
            Meaning::Version => {
                return Err(ArgError::plain(ArgErrorKind::VersionRequested));
            },
            Meaning::Unknown => {
                return Err(unknown_argument(arg));
            },
            _ => {
                let ghost at = pos as int;
                let value = match get_arg_to(tokens, &mut pos) {
                    Ok(value) => value,
                    Err(e) => {
                        return Err(e);
                    },
                };
                assert(toks[at] == tokens[at]@);
                match m {
                    Meaning::Date => {
                        rec.date = Some(value);
                    },
                    Meaning::Reference => {
                        rec.reference = Some(value);
                    },
                    Meaning::Timestamp => {
                        rec.timestamp = Some(value);
                    },
                    _ => {
                        rec.time = Some(value);
                    },
                }
            },
        }
    }
    Ok(rec)
}

/// Lexes and interprets a command line.
pub fn parse(args: Vec<String>) -> (outcome: Result<Args, ArgError>)
    ensures
        agrees(outcome, parse_spec(texts(args@))),
{
    let tokens = lex(args);
    interpret_tokens(&tokens)
}

} // verus!
