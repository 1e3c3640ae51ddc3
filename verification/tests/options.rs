use touch::args::{get_arg_to, interpret_tokens, meaning_of, parse, unknown_argument, Args, Meaning};
use touch::arglex::{lex, Arg};
use touch::error::{ArgError, ArgErrorKind, HELP, VERSION};
use touch::resolve::{change_flags, ChangeFlags};

fn raw(items: &[&str]) -> Vec<String> {
    items.iter().map(|s| s.to_string()).collect()
}

fn kind_of(items: &[&str]) -> ArgErrorKind {
    parse(raw(items)).unwrap_err().kind
}

#[test]
fn new_record_is_empty() {
    let a = Args::new();
    assert!(!a.access && !a.no_create && !a.no_dereference && !a.modification);
    assert_eq!(a.date, None);
    assert_eq!(a.reference, None);
    assert_eq!(a.timestamp, None);
    assert_eq!(a.time, None);
    assert!(a.files.is_empty());
}

#[test]
fn parse_one_file_changes_both_times() {
    let args = parse(raw(&["file"])).unwrap();
    let mut want = Args::new();
    want.files = raw(&["file"]);
    assert_eq!(args, want);
    assert_eq!(
        change_flags(&args),
        Ok(ChangeFlags { access: true, modification: true })
    );
}

#[test]
fn access_and_modification_are_mutually_exclusive() {
    let args = parse(raw(&["-a", "-m", "file"])).unwrap();
    assert!(args.access && args.modification);
    let e = change_flags(&args).unwrap_err();
    assert_eq!(e.kind, ArgErrorKind::MutuallyExclusive);
    assert_eq!(e.message(), "-a and -m are mutually exclusive");
}

#[test]
fn attached_and_equals_forms_resolve_alike() {
    let a = parse(raw(&["-dMON"])).unwrap();
    let b = parse(raw(&["--date=MON"])).unwrap();
    let c = parse(raw(&["-d", "MON"])).unwrap();
    let d = parse(raw(&["--date", "MON"])).unwrap();
    assert_eq!(a.date, Some("MON".to_string()));
    assert_eq!(a, b);
    assert_eq!(a, c);
    assert_eq!(a, d);
}

#[test]
fn parse_gathers_everything_in_order() {
    let args = parse(raw(&[
        "-a", "one", "-c", "-h", "-r", "ref", "-t", "01011200", "--time", "atime", "two", "--",
        "-m", "one",
    ]))
    .unwrap();
    assert!(args.access);
    assert!(args.no_create);
    assert!(args.no_dereference);
    assert!(!args.modification);
    assert_eq!(args.reference, Some("ref".to_string()));
    assert_eq!(args.timestamp, Some("01011200".to_string()));
    assert_eq!(args.time, Some("atime".to_string()));
    assert_eq!(args.date, None);
    assert_eq!(args.files, raw(&["one", "two", "-m", "one"]));
}

#[test]
fn parse_long_flags() {
    let args = parse(raw(&[
        "--no-create",
        "--no-dereference",
        "--reference=r",
        "--timestamp",
        "01011200",
        "-m",
    ]))
    .unwrap();
    assert!(args.no_create && args.no_dereference && args.modification && !args.access);
    assert_eq!(args.reference, Some("r".to_string()));
    assert_eq!(args.timestamp, Some("01011200".to_string()));
    assert!(args.files.is_empty());
}

#[test]
fn a_later_value_replaces_an_earlier_one() {
    let args = parse(raw(&["-d", "x", "--date=y"])).unwrap();
    assert_eq!(args.date, Some("y".to_string()));
}

#[test]
fn the_delimiter_names_no_file() {
    let args = parse(raw(&["--", "-a"])).unwrap();
    assert!(!args.access);
    assert_eq!(args.files, raw(&["-a"]));
    assert!(parse(raw(&["--"])).unwrap().files.is_empty());
}

#[test]
fn a_value_is_never_read_as_a_flag() {
    let args = parse(raw(&["-r", "-", "f"])).unwrap();
    assert_eq!(args.reference, Some("-".to_string()));
    assert_eq!(args.files, raw(&["f"]));
    let args = parse(raw(&["-d", "--", "-a"])).unwrap();
    assert_eq!(args.date, Some("--".to_string()));
    assert_eq!(args.files, raw(&["-a"]));
}

#[test]
fn missing_value_is_an_error() {
    assert_eq!(kind_of(&["-d"]), ArgErrorKind::MissingValue);
    assert_eq!(kind_of(&["f", "--time"]), ArgErrorKind::MissingValue);
    assert_eq!(kind_of(&["-r", "-a"]), ArgErrorKind::MissingValue);
    assert_eq!(kind_of(&["-t", "--date=x"]), ArgErrorKind::MissingValue);
    let e = parse(raw(&["-d"])).unwrap_err();
    assert_eq!(e.message(), "an argument must be supplied");
}

#[test]
fn unknown_options_are_named() {
    let e = parse(raw(&["f", "-x"])).unwrap_err();
    assert_eq!(e.kind, ArgErrorKind::UnknownArgument);
    assert_eq!(e.subject, "-x");
    assert_eq!(e.message(), "unknown argument -x");
    let e = parse(raw(&["--bogus"])).unwrap_err();
    assert_eq!(e.message(), "unknown argument --bogus");
    let e = parse(raw(&["--a"])).unwrap_err();
    assert_eq!(e.message(), "unknown argument --a");
    assert_eq!(kind_of(&["-T"]), ArgErrorKind::UnknownArgument);
}

#[test]
fn the_first_failure_in_order_wins() {
    assert_eq!(kind_of(&["-x", "--help"]), ArgErrorKind::UnknownArgument);
    assert_eq!(kind_of(&["--help", "-x"]), ArgErrorKind::HelpRequested);
    assert_eq!(kind_of(&["--version", "-d"]), ArgErrorKind::VersionRequested);
}

#[test]
fn help_and_version_are_requests() {
    let help = parse(raw(&["f", "--help"])).unwrap_err();
    assert_eq!(help.kind, ArgErrorKind::HelpRequested);
    assert!(help.is_request());
    assert_eq!(help.message(), HELP);
    let version = parse(raw(&["--version"])).unwrap_err();
    assert!(version.is_request());
    assert_eq!(version.message(), VERSION);
    assert_eq!(version.message(), "touch version 1.0.0");
    assert!(!ArgError::plain(ArgErrorKind::MissingFiles).is_request());
    assert_eq!(
        ArgError::plain(ArgErrorKind::MissingFiles).message(),
        "must specify at least one file"
    );
}

#[test]
fn meanings_of_tokens() {
    assert_eq!(meaning_of(&Arg::Positional("--".to_string())), Meaning::Delimiter);
    assert_eq!(meaning_of(&Arg::Positional("-".to_string())), Meaning::File);
    assert_eq!(meaning_of(&Arg::Short("h".to_string())), Meaning::NoDereference);
    assert_eq!(meaning_of(&Arg::Long("help".to_string())), Meaning::Help);
    assert_eq!(meaning_of(&Arg::Long("h".to_string())), Meaning::Unknown);
    assert_eq!(meaning_of(&Arg::Short("help".to_string())), Meaning::Unknown);
    assert_eq!(meaning_of(&Arg::Long("time".to_string())), Meaning::Time);
    assert_eq!(meaning_of(&Arg::Short("".to_string())), Meaning::Unknown);
}

#[test]
fn get_arg_to_moves_past_what_it_looked_at() {
    let tokens = lex(raw(&["-d", "v", "-a"]));
    let mut cursor = 1;
    assert_eq!(get_arg_to(&tokens, &mut cursor), Ok("v".to_string()));
    assert_eq!(cursor, 2);
    let e = get_arg_to(&tokens, &mut cursor).unwrap_err();
    assert_eq!(e.kind, ArgErrorKind::MissingValue);
    assert_eq!(cursor, 3);
    assert!(get_arg_to(&tokens, &mut cursor).is_err());
    assert_eq!(cursor, 3);
}

#[test]
fn unknown_argument_renders_the_token() {
    let e = unknown_argument(&Arg::Long("what".to_string()));
    assert_eq!(e, ArgError::new(ArgErrorKind::UnknownArgument, "--what".to_string()));
}

#[test]
fn interpret_tokens_agrees_with_parse() {
    let input = raw(&["-a", "-dX", "f", "--", "-g"]);
    assert_eq!(interpret_tokens(&lex(input.clone())), parse(input));
}
