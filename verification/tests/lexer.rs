use touch::arglex::{arg_of, find_char, lex, Arg};

fn raw(items: &[&str]) -> Vec<String> {
    items.iter().map(|s| s.to_string()).collect()
}

fn pos(s: &str) -> Arg {
    Arg::Positional(s.to_string())
}

fn short(s: &str) -> Arg {
    Arg::Short(s.to_string())
}

fn long(s: &str) -> Arg {
    Arg::Long(s.to_string())
}

#[test]
fn lex_of_nothing_is_empty() {
    assert_eq!(lex(vec![]), vec![]);
}

#[test]
fn lex_delimiter_alone() {
    assert_eq!(lex(raw(&["--"])), vec![pos("--")]);
}

#[test]
fn lex_forces_positionals_after_delimiter() {
    assert_eq!(lex(raw(&["--", "-a"])), vec![pos("--"), pos("-a")]);
    assert_eq!(
        lex(raw(&["-a", "--", "--date=x", "-", "--", "f"])),
        vec![short("a"), pos("--"), pos("--date=x"), pos("-"), pos("--"), pos("f")]
    );
}

#[test]
fn lex_attached_short_value() {
    assert_eq!(lex(raw(&["-dMON"])), vec![short("d"), pos("MON")]);
}

#[test]
fn lex_long_value_after_equals() {
    assert_eq!(lex(raw(&["--date=MON"])), vec![long("date"), pos("MON")]);
}

#[test]
fn lex_splits_at_the_first_equals() {
    assert_eq!(lex(raw(&["--a=b=c"])), vec![long("a"), pos("b=c")]);
    assert_eq!(lex(raw(&["--=x"])), vec![long(""), pos("x")]);
    assert_eq!(lex(raw(&["--name="])), vec![long("name"), pos("")]);
}

#[test]
fn lex_plain_forms() {
    assert_eq!(lex(raw(&["-"])), vec![pos("-")]);
    assert_eq!(lex(raw(&[""])), vec![pos("")]);
    assert_eq!(lex(raw(&["file.txt"])), vec![pos("file.txt")]);
    assert_eq!(lex(raw(&["-a"])), vec![short("a")]);
    assert_eq!(lex(raw(&["--no-create"])), vec![long("no-create")]);
    assert_eq!(lex(raw(&["a=b"])), vec![pos("a=b")]);
    assert_eq!(lex(raw(&["-a=b"])), vec![short("a"), pos("=b")]);
}

#[test]
fn lex_counts_characters_not_bytes() {
    assert_eq!(lex(raw(&["-\u{e9}x"])), vec![short("\u{e9}"), pos("x")]);
    assert_eq!(lex(raw(&["--\u{e9}=\u{fc}"])), vec![long("\u{e9}"), pos("\u{fc}")]);
}

#[test]
fn lex_attached_dashes_do_not_delimit() {
    assert_eq!(lex(raw(&["-d--", "-a"])), vec![short("d"), pos("--"), short("a")]);
    assert_eq!(lex(raw(&["--x=--", "-a"])), vec![long("x"), pos("--"), short("a")]);
}

#[test]
fn lex_gives_at_least_one_token_per_argument() {
    let input = raw(&["-a", "-dMON", "--x=y", "f", "--", "-q", "--z=w"]);
    let n = input.len();
    let tokens = lex(input.clone());
    assert_eq!(tokens.len(), 9);
    assert!(tokens.len() >= n && tokens.len() <= 2 * n);
    assert_eq!(lex(input.clone()), lex(input));
}

#[test]
fn arg_of_sets_the_flag_at_the_delimiter_only() {
    let mut delimited = false;
    assert_eq!(arg_of("-a".to_string(), &mut delimited), (short("a"), None));
    assert!(!delimited);
    assert_eq!(arg_of("--".to_string(), &mut delimited), (pos("--"), None));
    assert!(delimited);
    assert_eq!(arg_of("-a".to_string(), &mut delimited), (pos("-a"), None));
    assert!(delimited);
    let mut fresh = false;
    assert_eq!(
        arg_of("--k=v".to_string(), &mut fresh),
        (long("k"), Some("v".to_string()))
    );
    assert!(!fresh);
}

#[test]
fn find_char_gives_the_first_place() {
    assert_eq!(find_char("a=b=c", '='), Some(1));
    assert_eq!(find_char("abc", '='), None);
    assert_eq!(find_char("", '='), None);
    assert_eq!(find_char("\u{e9}\u{e9}=", '='), Some(2));
}

#[test]
fn render_restores_the_dashes() {
    assert_eq!(pos("f").render(), "f");
    assert_eq!(short("x").render(), "-x");
    assert_eq!(long("bogus").render(), "--bogus");
}
