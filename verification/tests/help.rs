use ferox_cli::render::error_message;
use ferox_cli::render::render_full_help;
use ferox_cli::render::render_usage_error;
use ferox_cli::render::render_version;
use ferox_cli::schema::initialize;
use ferox_cli::values::ParseError;

const LONG_FORMS: [&str; 19] = [
    "--wordlist",
    "--url",
    "--threads",
    "--depth",
    "--timeout",
    "--verbosity",
    "--proxy",
    "--statuscodes",
    "--quiet",
    "--output",
    "--useragent",
    "--redirects",
    "--insecure",
    "--extensions",
    "--headers",
    "--norecursion",
    "--addslash",
    "--stdin",
    "--sizefilter",
];

#[test]
fn full_help_lists_each_argument_once_in_order() {
    let cat = initialize();
    let help = render_full_help(&cat);
    let epilogue_at = help.find("NOTE:").expect("epilogue missing");
    let options = &help[..epilogue_at];
    // The long-form field of every option line starts at column 8; collect
    // the fields in rendering order.
    let mut rendered: Vec<String> = Vec::new();
    for line in options.lines() {
        if line.len() > 8 && line[8..].starts_with("--") {
            let field: String = line[8..].chars().take_while(|c| *c != ' ').collect();
            rendered.push(field);
        }
    }
    let declared: Vec<String> = LONG_FORMS.iter().map(|l| l.to_string()).collect();
    assert_eq!(rendered, declared);
}

#[test]
fn full_help_reproduces_epilogue_verbatim() {
    let cat = initialize();
    let help = render_full_help(&cat);
    assert!(help.ends_with(cat.epilogue.as_str()));
    assert!(help.contains("./feroxbuster -u http://127.1 -x pdf -x js,html -x php txt json,docx"));
    assert!(help.contains("Ludicrous speed... go!"));
}

#[test]
fn full_help_header_lines() {
    let cat = initialize();
    let help = render_full_help(&cat);
    assert!(help.starts_with("feroxbuster 0.1.0\nepi (@epi052)\n"));
    assert!(help.contains("A fast, simple, recursive content discovery tool written in Rust"));
    assert!(help.contains("\n\nOPTIONS:\n"));
}

#[test]
fn one_help_line_rendered_exactly() {
    let cat = initialize();
    let help = render_full_help(&cat);
    assert!(help.contains("    -w, --wordlist <FILE>  Path to the wordlist\n"));
    assert!(help.contains("        --stdin  Read url(s) from STDIN\n"));
}

#[test]
fn version_line_is_name_and_version() {
    let cat = initialize();
    assert_eq!(render_version(&cat), "feroxbuster 0.1.0\n");
}

#[test]
fn error_messages_name_the_offenders() {
    assert_eq!(
        error_message(&ParseError::UnknownArgument("--bogus".to_string())),
        "error: found unknown argument '--bogus'"
    );
    assert_eq!(
        error_message(&ParseError::UnexpectedValue("stray".to_string())),
        "error: found unexpected value 'stray'"
    );
    assert_eq!(
        error_message(&ParseError::MissingValueForArgument("threads".to_string())),
        "error: no value supplied for argument 'threads'"
    );
    assert_eq!(
        error_message(&ParseError::MissingRequiredArgument("url".to_string())),
        "error: missing required argument 'url'"
    );
    assert_eq!(
        error_message(&ParseError::ConflictingArguments("url".to_string(), "stdin".to_string())),
        "error: argument 'url' cannot be used with 'stdin'"
    );
}

#[test]
fn usage_error_holds_message_and_synopsis() {
    let cat = initialize();
    let text = render_usage_error(&cat, &ParseError::MissingRequiredArgument("url".to_string()));
    assert_eq!(
        text,
        "error: missing required argument 'url'\n\nUSAGE:\n    feroxbuster [OPTIONS]\n"
    );
}
