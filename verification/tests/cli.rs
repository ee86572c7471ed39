use ferox_cli::collect::collect;
use ferox_cli::parse::parse;
use ferox_cli::schema::catalog_defect_free;
use ferox_cli::schema::initialize;
use ferox_cli::values::CollectedValue;
use ferox_cli::values::ParseError;

fn toks(words: &[&str]) -> Vec<String> {
    words.iter().map(|w| w.to_string()).collect()
}

fn strings(words: &[&str]) -> Vec<String> {
    words.iter().map(|w| w.to_string()).collect()
}

#[test]
fn catalog_is_defect_free() {
    let cat = initialize();
    assert!(catalog_defect_free(&cat));
    assert_eq!(cat.args.len(), 19);
    assert_eq!(cat.name, "feroxbuster");
}

#[test]
fn many_styles_repeated_flag() {
    let cat = initialize();
    let r = collect(&cat, &toks(&["-x", "pdf", "-x", "js", "-x", "html"])).unwrap();
    let cfg = ferox_cli::parse::ResolvedConfiguration { values: r };
    match cfg.value_of(&cat, "extensions").unwrap() {
        CollectedValue::Values(vs) => assert_eq!(*vs, strings(&["pdf", "js", "html"])),
        other => panic!("unexpected value: {:?}", other),
    }
}

#[test]
fn many_styles_space_separated() {
    let cat = initialize();
    let r = collect(&cat, &toks(&["-x", "pdf", "js", "html"])).unwrap();
    let cfg = ferox_cli::parse::ResolvedConfiguration { values: r };
    match cfg.value_of(&cat, "extensions").unwrap() {
        CollectedValue::Values(vs) => assert_eq!(*vs, strings(&["pdf", "js", "html"])),
        other => panic!("unexpected value: {:?}", other),
    }
}

#[test]
fn many_styles_delimiter_separated() {
    let cat = initialize();
    let r = collect(&cat, &toks(&["-x", "pdf,js,html"])).unwrap();
    let cfg = ferox_cli::parse::ResolvedConfiguration { values: r };
    match cfg.value_of(&cat, "extensions").unwrap() {
        CollectedValue::Values(vs) => assert_eq!(*vs, strings(&["pdf", "js", "html"])),
        other => panic!("unexpected value: {:?}", other),
    }
}

#[test]
fn many_styles_all_agree() {
    let cat = initialize();
    let a = collect(&cat, &toks(&["-x", "pdf", "-x", "js", "-x", "html"])).unwrap();
    let b = collect(&cat, &toks(&["-x", "pdf", "js", "html"])).unwrap();
    let c = collect(&cat, &toks(&["-x", "pdf,js,html"])).unwrap();
    let d = collect(&cat, &toks(&["-x", "pdf", "-x", "js,html"])).unwrap();
    assert_eq!(a, b);
    assert_eq!(b, c);
    assert_eq!(c, d);
}

#[test]
fn url_and_stdin_both_absent_is_missing_url() {
    let cat = initialize();
    let r = parse(&cat, &toks(&["-x", "pdf"]));
    assert_eq!(r.unwrap_err(), ParseError::MissingRequiredArgument("url".to_string()));
}

#[test]
fn stdin_alone_satisfies_url_requirement() {
    let cat = initialize();
    let r = parse(&cat, &toks(&["--stdin"]));
    assert!(r.is_ok());
}

#[test]
fn url_alone_succeeds() {
    let cat = initialize();
    let r = parse(&cat, &toks(&["-u", "http://127.1"]));
    assert!(r.is_ok());
}

#[test]
fn url_and_stdin_together_conflict() {
    let cat = initialize();
    let r = parse(&cat, &toks(&["-u", "http://127.1", "--stdin"]));
    assert_eq!(
        r.unwrap_err(),
        ParseError::ConflictingArguments("url".to_string(), "stdin".to_string())
    );
}

#[test]
fn doubled_short_flag_counts_two() {
    let cat = initialize();
    let r = collect(&cat, &toks(&["-vv"])).unwrap();
    let cfg = ferox_cli::parse::ResolvedConfiguration { values: r };
    assert_eq!(*cfg.value_of(&cat, "verbosity").unwrap(), CollectedValue::Count(2));
}

#[test]
fn two_long_occurrences_count_two() {
    let cat = initialize();
    let r = collect(&cat, &toks(&["--verbosity", "--verbosity"])).unwrap();
    let cfg = ferox_cli::parse::ResolvedConfiguration { values: r };
    assert_eq!(*cfg.value_of(&cat, "verbosity").unwrap(), CollectedValue::Count(2));
}

#[test]
fn mixed_count_styles_add_up() {
    let cat = initialize();
    let r = collect(&cat, &toks(&["-v", "-vv"])).unwrap();
    let cfg = ferox_cli::parse::ResolvedConfiguration { values: r };
    assert_eq!(*cfg.value_of(&cat, "verbosity").unwrap(), CollectedValue::Count(3));
}

#[test]
fn one_arity_last_write_wins() {
    let cat = initialize();
    let r = collect(&cat, &toks(&["-t", "50", "-t", "200"])).unwrap();
    let cfg = ferox_cli::parse::ResolvedConfiguration { values: r };
    assert_eq!(
        *cfg.value_of(&cat, "threads").unwrap(),
        CollectedValue::Single("200".to_string())
    );
    let r2 = collect(&cat, &toks(&["--threads", "1", "--threads", "2"])).unwrap();
    let cfg2 = ferox_cli::parse::ResolvedConfiguration { values: r2 };
    assert_eq!(
        *cfg2.value_of(&cat, "threads").unwrap(),
        CollectedValue::Single("2".to_string())
    );
}

#[test]
fn unknown_long_flag_is_rejected() {
    let cat = initialize();
    let r = parse(&cat, &toks(&["--bogus"]));
    assert_eq!(r.unwrap_err(), ParseError::UnknownArgument("--bogus".to_string()));
}

#[test]
fn unknown_short_flag_is_rejected() {
    let cat = initialize();
    let r = parse(&cat, &toks(&["-z"]));
    assert_eq!(r.unwrap_err(), ParseError::UnknownArgument("-z".to_string()));
}

#[test]
fn bare_double_dash_is_unknown() {
    let cat = initialize();
    let r = parse(&cat, &toks(&["--"]));
    assert_eq!(r.unwrap_err(), ParseError::UnknownArgument("--".to_string()));
}

#[test]
fn plain_token_without_context_is_unexpected() {
    let cat = initialize();
    let r = parse(&cat, &toks(&["wordlist.txt"]));
    assert_eq!(r.unwrap_err(), ParseError::UnexpectedValue("wordlist.txt".to_string()));
}

#[test]
fn single_dash_is_a_plain_value() {
    let cat = initialize();
    let r = parse(&cat, &toks(&["-"]));
    assert_eq!(r.unwrap_err(), ParseError::UnexpectedValue("-".to_string()));
}

#[test]
fn one_arity_flag_at_end_misses_value() {
    let cat = initialize();
    let r = parse(&cat, &toks(&["-t"]));
    assert_eq!(r.unwrap_err(), ParseError::MissingValueForArgument("threads".to_string()));
}

#[test]
fn many_arity_flag_at_end_misses_value() {
    let cat = initialize();
    let r = parse(&cat, &toks(&["-u"]));
    assert_eq!(r.unwrap_err(), ParseError::MissingValueForArgument("url".to_string()));
}

#[test]
fn many_arity_flag_followed_by_flag_misses_value() {
    let cat = initialize();
    let r = parse(&cat, &toks(&["-u", "-x", "pdf"]));
    assert_eq!(r.unwrap_err(), ParseError::MissingValueForArgument("url".to_string()));
}

#[test]
fn cluster_of_switches_sets_each() {
    let cat = initialize();
    let r = collect(&cat, &toks(&["-nq"])).unwrap();
    let cfg = ferox_cli::parse::ResolvedConfiguration { values: r };
    assert_eq!(*cfg.value_of(&cat, "norecursion").unwrap(), CollectedValue::Count(1));
    assert_eq!(*cfg.value_of(&cat, "quiet").unwrap(), CollectedValue::Count(1));
}

#[test]
fn cluster_may_end_with_value_flag() {
    let cat = initialize();
    let r = collect(&cat, &toks(&["-qt", "50"])).unwrap();
    let cfg = ferox_cli::parse::ResolvedConfiguration { values: r };
    assert_eq!(*cfg.value_of(&cat, "quiet").unwrap(), CollectedValue::Count(1));
    assert_eq!(
        *cfg.value_of(&cat, "threads").unwrap(),
        CollectedValue::Single("50".to_string())
    );
}

#[test]
fn value_flag_inside_cluster_misses_value() {
    let cat = initialize();
    let r = parse(&cat, &toks(&["-tq"]));
    assert_eq!(r.unwrap_err(), ParseError::MissingValueForArgument("threads".to_string()));
}

#[test]
fn status_codes_split_on_comma() {
    let cat = initialize();
    let r = collect(&cat, &toks(&["-s", "200,301", "302"])).unwrap();
    let cfg = ferox_cli::parse::ResolvedConfiguration { values: r };
    match cfg.value_of(&cat, "statuscodes").unwrap() {
        CollectedValue::Values(vs) => assert_eq!(*vs, strings(&["200", "301", "302"])),
        other => panic!("unexpected value: {:?}", other),
    }
}

#[test]
fn worked_example_end_to_end() {
    let cat = initialize();
    let r = parse(
        &cat,
        &toks(&["-u", "http://127.1", "-x", "pdf", "-x", "js,html", "-x", "php", "txt",
            "json,docx"]),
    )
    .unwrap();
    match r.value_of(&cat, "extensions").unwrap() {
        CollectedValue::Values(vs) => {
            assert_eq!(*vs, strings(&["pdf", "js", "html", "php", "txt", "json", "docx"]))
        },
        other => panic!("unexpected value: {:?}", other),
    }
    match r.value_of(&cat, "url").unwrap() {
        CollectedValue::Values(vs) => assert_eq!(*vs, strings(&["http://127.1"])),
        other => panic!("unexpected value: {:?}", other),
    }
    assert_eq!(*r.value_of(&cat, "stdin").unwrap(), CollectedValue::Missing);
}

#[test]
fn lookup_of_undeclared_name_is_none() {
    let cat = initialize();
    let r = parse(&cat, &toks(&["--stdin"])).unwrap();
    assert!(r.value_of(&cat, "nosuch").is_none());
}

#[test]
fn unseen_arguments_are_missing() {
    let cat = initialize();
    let r = parse(&cat, &toks(&["--stdin"])).unwrap();
    assert_eq!(*r.value_of(&cat, "wordlist").unwrap(), CollectedValue::Missing);
    assert_eq!(*r.value_of(&cat, "proxy").unwrap(), CollectedValue::Missing);
}

#[test]
fn empty_token_stream_fails_only_validation() {
    let cat = initialize();
    let r = parse(&cat, &toks(&[]));
    assert_eq!(r.unwrap_err(), ParseError::MissingRequiredArgument("url".to_string()));
}
