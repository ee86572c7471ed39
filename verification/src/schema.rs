//! The argument catalog: one `ArgSpec` per declared flag, plus program
//! metadata.  The catalog is built once by `initialize` and is read-only
//! afterwards.

use vstd::prelude::*;

verus! {

/// How many value tokens an argument consumes.
#[derive(Clone, Copy, PartialEq, Eq, Structural, Debug)]
pub enum Arity {
    /// A value-less switch; occurrences are tallied.
    NoValue,
    /// Exactly one following token; a later occurrence overwrites.
    One,
    /// One or more following tokens, accumulated in encounter order.
    Many,
}

/// A cross-argument rule attached to the argument that declares it.
#[derive(Debug)]
pub enum Constraint {
    /// The argument must be present.
    Required,
    /// The argument must be present unless the named other one is.
    RequiredUnless(String),
    /// The argument must not be present together with the named other one.
    ConflictsWith(String),
}

/// Mathematical model of a `Constraint`.
pub ghost enum ConstraintV {
    Required,
    RequiredUnless(Seq<char>),
    ConflictsWith(Seq<char>),
}

impl View for Constraint {
    type V = ConstraintV;

    open spec fn view(&self) -> ConstraintV {
        match self {
            Constraint::Required => ConstraintV::Required,
            Constraint::RequiredUnless(n) => ConstraintV::RequiredUnless(n@),
            Constraint::ConflictsWith(n) => ConstraintV::ConflictsWith(n@),
        }
    }
}

impl DeepView for Constraint {
    type V = ConstraintV;

    open spec fn deep_view(&self) -> ConstraintV {
        self.view()
    }
}

/// One declared argument.
#[derive(Debug)]
pub struct ArgSpec {
    /// Canonical name, the unique key of the argument.
    pub name: String,
    /// Optional short form: a single character, written `-c`.
    pub short: Option<String>,
    /// Optional long form, written `--word`.
    pub long: Option<String>,
    /// How many value tokens the argument consumes.
    pub arity: Arity,
    /// Whether repeated occurrence is counted rather than value-collecting.
    pub counted: bool,
    /// Whether each consumed token is additionally split on a comma.
    pub delim: bool,
    /// Placeholder shown for the value in help output.
    pub value_name: Option<String>,
    /// Free-text help description.
    pub help: String,
    /// Documented default value; informational only, never enforced.
    pub default_desc: Option<String>,
    /// Cross-argument rules declared by this argument.
    pub constraints: Vec<Constraint>,
}

/// Mathematical model of an `ArgSpec`.
#[verifier::ext_equal]
pub ghost struct ArgSpecV {
    pub name: Seq<char>,
    pub short: Option<Seq<char>>,
    pub long: Option<Seq<char>>,
    pub arity: Arity,
    pub counted: bool,
    pub delim: bool,
    pub value_name: Option<Seq<char>>,
    pub help: Seq<char>,
    pub default_desc: Option<Seq<char>>,
    pub constraints: Seq<ConstraintV>,
}

pub open spec fn view_opt_string(o: Option<String>) -> Option<Seq<char>> {
    match o {
        Option::Some(s) => Option::Some(s@),
        Option::None => Option::None,
    }
}

pub open spec fn view_opt_str(o: Option<&str>) -> Option<Seq<char>> {
    match o {
        Option::Some(s) => Option::Some(s@),
        Option::None => Option::None,
    }
}

impl View for ArgSpec {
    type V = ArgSpecV;

    open spec fn view(&self) -> ArgSpecV {
        ArgSpecV {
            name: self.name@,
            short: view_opt_string(self.short),
            long: view_opt_string(self.long),
            arity: self.arity,
            counted: self.counted,
            delim: self.delim,
            value_name: view_opt_string(self.value_name),
            help: self.help@,
            default_desc: view_opt_string(self.default_desc),
            constraints: self.constraints.deep_view(),
        }
    }
}

impl DeepView for ArgSpec {
    type V = ArgSpecV;

    open spec fn deep_view(&self) -> ArgSpecV {
        self.view()
    }
}

/// The immutable catalog: program metadata plus the declared arguments in
/// declaration order.
#[derive(Debug)]
pub struct Catalog {
    pub name: String,
    pub version: String,
    pub author: String,
    pub about: String,
    /// Literal text shown after standard help, reproduced verbatim.
    pub epilogue: String,
    pub args: Vec<ArgSpec>,
}

/// Mathematical model of a `Catalog`.
#[verifier::ext_equal]
pub ghost struct CatalogV {
    pub name: Seq<char>,
    pub version: Seq<char>,
    pub author: Seq<char>,
    pub about: Seq<char>,
    pub epilogue: Seq<char>,
    pub args: Seq<ArgSpecV>,
}

impl View for Catalog {
    type V = CatalogV;

    open spec fn view(&self) -> CatalogV {
        CatalogV {
            name: self.name@,
            version: self.version@,
            author: self.author@,
            about: self.about@,
            epilogue: self.epilogue@,
            args: self.args.deep_view(),
        }
    }
}

// ---------------------------------------------------------------------------
// Searching the catalog
// ---------------------------------------------------------------------------

/// First index at or after `i` whose argument satisfies `p`.
pub open spec fn find_from(args: Seq<ArgSpecV>, p: spec_fn(ArgSpecV) -> bool, i: int) -> Option<int>
    decreases args.len() - i,
{
    if i < 0 || i >= args.len() {
        Option::None
    } else if p(args[i]) {
        Option::Some(i)
    } else {
        find_from(args, p, i + 1)
    }
}

pub proof fn lemma_find_from_props(args: Seq<ArgSpecV>, p: spec_fn(ArgSpecV) -> bool, i: int)
    requires
        0 <= i <= args.len(),
    ensures
        match find_from(args, p, i) {
            Option::Some(j) => i <= j < args.len() && p(args[j]) && forall|k: int|
                i <= k < j ==> !p(args[k]),
            Option::None => forall|k: int| i <= k < args.len() ==> !p(args[k]),
        },
    decreases args.len() - i,
{
    if i < args.len() && !p(args[i]) {
        lemma_find_from_props(args, p, i + 1);
    }
}

pub open spec fn by_name(n: Seq<char>) -> spec_fn(ArgSpecV) -> bool {
    |a: ArgSpecV| a.name == n
}

pub open spec fn by_long(l: Seq<char>) -> spec_fn(ArgSpecV) -> bool {
    |a: ArgSpecV| a.long == Option::Some(l)
}

pub open spec fn by_short(c: char) -> spec_fn(ArgSpecV) -> bool {
    |a: ArgSpecV| a.short == Option::Some(seq![c])
}

/// First argument whose canonical name is `n`.
pub open spec fn find_name(args: Seq<ArgSpecV>, n: Seq<char>) -> Option<int> {
    find_from(args, by_name(n), 0)
}

/// First argument whose long form is `l`.
pub open spec fn find_long(args: Seq<ArgSpecV>, l: Seq<char>) -> Option<int> {
    find_from(args, by_long(l), 0)
}

/// First argument whose short form is the character `c`.
pub open spec fn find_short(args: Seq<ArgSpecV>, c: char) -> Option<int> {
    find_from(args, by_short(c), 0)
}

// ---------------------------------------------------------------------------
// Well-formedness
// ---------------------------------------------------------------------------

/// Whether some argument carries the canonical name `n`.
pub open spec fn has_name(args: Seq<ArgSpecV>, n: Seq<char>) -> bool {
    exists|j: int| 0 <= j < args.len() && #[trigger] args[j].name == n
}

/// A declared name can be found by `find_name`.
pub proof fn lemma_has_name_find(args: Seq<ArgSpecV>, n: Seq<char>)
    ensures
        has_name(args, n) <==> (find_name(args, n) is Some),
{
    lemma_find_from_props(args, by_name(n), 0);
    if has_name(args, n) {
        let j = choose|j: int| 0 <= j < args.len() && #[trigger] args[j].name == n;
        assert(by_name(n)(args[j]));
        if find_name(args, n) is None {
            assert(!by_name(n)(args[j]));
        }
    } else {
        if find_name(args, n) is Some {
            let j = find_name(args, n)->Some_0;
            assert(by_name(n)(args[j]));
        }
    }
}

/// Every name a constraint refers to exists in the catalog.
pub open spec fn constraint_ok(args: Seq<ArgSpecV>, c: ConstraintV) -> bool {
    match c {
        ConstraintV::Required => true,
        ConstraintV::RequiredUnless(o) => has_name(args, o),
        ConstraintV::ConflictsWith(o) => has_name(args, o),
    }
}

pub open spec fn constraints_ok(args: Seq<ArgSpecV>, cs: Seq<ConstraintV>) -> bool {
    forall|k: int| 0 <= k < cs.len() ==> constraint_ok(args, #[trigger] cs[k])
}

/// Internal consistency of a single declaration.
pub open spec fn arg_ok(a: ArgSpecV) -> bool {
    &&& a.name.len() > 0
    &&& (a.short matches Option::Some(s) ==> s.len() == 1 && s[0] != '-')
    &&& (a.long matches Option::Some(l) ==> l.len() > 0 && l[0] != '-')
    &&& (a.short is Some || a.long is Some)
}

/// No shared canonical name, short form, or long form between `a` and `b`.
pub open spec fn distinct_forms(a: ArgSpecV, b: ArgSpecV) -> bool {
    &&& a.name != b.name
    &&& !(a.short is Some && b.short is Some && a.short == b.short)
    &&& !(a.long is Some && b.long is Some && a.long == b.long)
}

/// Well-formedness of the whole catalog: every declaration is internally
/// consistent, no two share a name or a form, and every constraint refers to
/// a declared argument.
pub open spec fn wf_args(args: Seq<ArgSpecV>) -> bool {
    &&& forall|i: int| 0 <= i < args.len() ==> arg_ok(#[trigger] args[i])
    &&& forall|i: int| 0 <= i < args.len() ==> constraints_ok(args, (#[trigger] args[i]).constraints)
    &&& forall|i: int, j: int|
        0 <= i < j < args.len() ==> distinct_forms(#[trigger] args[i], #[trigger] args[j])
}


// ---------------------------------------------------------------------------
// The concrete catalog
// ---------------------------------------------------------------------------

pub open spec fn arg_v(
    name: Seq<char>,
    short: Option<Seq<char>>,
    long: Option<Seq<char>>,
    arity: Arity,
    counted: bool,
    delim: bool,
    value_name: Option<Seq<char>>,
    help: Seq<char>,
    default_desc: Option<Seq<char>>,
    constraints: Seq<ConstraintV>,
) -> ArgSpecV {
    ArgSpecV {
        name,
        short,
        long,
        arity,
        counted,
        delim,
        value_name,
        help,
        default_desc,
        constraints,
    }
}

fn opt_string(o: Option<&str>) -> (r: Option<String>)
    ensures
        view_opt_string(r) == view_opt_str(o),
{
    match o {
        Option::Some(s) => Option::Some(String::from_str(s)),
        Option::None => Option::None,
    }
}

/// Builds one declaration from its parts.
pub fn make_arg(
    name: &str,
    short: Option<&str>,
    long: Option<&str>,
    arity: Arity,
    counted: bool,
    delim: bool,
    value_name: Option<&str>,
    help: &str,
    default_desc: Option<&str>,
    constraints: Vec<Constraint>,
) -> (a: ArgSpec)
    ensures
        a@ == (ArgSpecV {
            name: name@,
            short: view_opt_str(short),
            long: view_opt_str(long),
            arity,
            counted,
            delim,
            value_name: view_opt_str(value_name),
            help: help@,
            default_desc: view_opt_str(default_desc),
            constraints: constraints.deep_view(),
        }),
{
    let a = ArgSpec {
        name: String::from_str(name),
        short: opt_string(short),
        long: opt_string(long),
        arity,
        counted,
        delim,
        value_name: opt_string(value_name),
        help: String::from_str(help),
        default_desc: opt_string(default_desc),
        constraints,
    };
    proof {
        assert(a@ =~~= (ArgSpecV {
            name: name@,
            short: view_opt_str(short),
            long: view_opt_str(long),
            arity,
            counted,
            delim,
            value_name: view_opt_str(value_name),
            help: help@,
            default_desc: view_opt_str(default_desc),
            constraints: a.constraints.deep_view(),
        }));
    }
    a
}

/// The declared arguments, in declaration order.
pub open spec fn ferox_args() -> Seq<ArgSpecV> {
    seq![
        arg_v("wordlist"@, Option::Some("w"@), Option::Some("wordlist"@), Arity::One, false, false,
            Option::Some("FILE"@), "Path to the wordlist"@, Option::None, seq![]),
        arg_v("url"@, Option::Some("u"@), Option::Some("url"@), Arity::Many, false, true,
            Option::Some("URL"@), "The target URL(s) (required, unless --stdin used)"@,
            Option::None, seq![ConstraintV::RequiredUnless("stdin"@), ConstraintV::ConflictsWith("stdin"@)]),
        arg_v("threads"@, Option::Some("t"@), Option::Some("threads"@), Arity::One, false, false,
            Option::Some("THREADS"@), "Number of concurrent threads (default: 50)"@, Option::Some("50"@), seq![]),
        arg_v("depth"@, Option::Some("d"@), Option::Some("depth"@), Arity::One, false, false,
            Option::Some("RECURSION_DEPTH"@),
            "Maximum recursion depth, a depth of 0 is infinite recursion (default: 4)"@, Option::Some("4"@), seq![]),
        arg_v("timeout"@, Option::Some("T"@), Option::Some("timeout"@), Arity::One, false, false,
            Option::Some("SECONDS"@),
            "Number of seconds before a request times out (default: 7)"@, Option::Some("7"@), seq![]),
        arg_v("verbosity"@, Option::Some("v"@), Option::Some("verbosity"@), Arity::NoValue, true, false,
            Option::None, "Increase verbosity level (use -vv or more for greater effect)"@, Option::None, seq![]),
        arg_v("proxy"@, Option::Some("p"@), Option::Some("proxy"@), Arity::One, false, false,
            Option::Some("PROXY"@),
            "Proxy to use for requests (ex: http(s)://host:port, socks5://host:port)"@, Option::None, seq![]),
        arg_v("statuscodes"@, Option::Some("s"@), Option::Some("statuscodes"@), Arity::Many, false, true,
            Option::Some("STATUS_CODE"@),
            "Status Codes of interest (default: 200 204 301 302 307 308 401 403 405)"@, Option::Some("200 204 301 302 307 308 401 403 405"@), seq![]),
        arg_v("quiet"@, Option::Some("q"@), Option::Some("quiet"@), Arity::NoValue, false, false,
            Option::None,
            "Only print URLs; Don't print status codes, response size, running config, etc..."@, Option::None, seq![]),
        arg_v("output"@, Option::Some("o"@), Option::Some("output"@), Arity::One, false, false,
            Option::Some("FILE"@), "Output file to write results to (default: stdout)"@, Option::Some("stdout"@), seq![]),
        arg_v("useragent"@, Option::Some("a"@), Option::Some("useragent"@), Arity::One, false, false,
            Option::Some("USER_AGENT"@), "Sets the User-Agent (default: feroxbuster/VERSION)"@, Option::Some("feroxbuster/VERSION"@), seq![]),
        arg_v("redirects"@, Option::Some("r"@), Option::Some("redirects"@), Arity::NoValue, false, false,
            Option::None, "Follow redirects"@, Option::None, seq![]),
        arg_v("insecure"@, Option::Some("k"@), Option::Some("insecure"@), Arity::NoValue, false, false,
            Option::None, "Disables TLS certificate validation"@, Option::None, seq![]),
        arg_v("extensions"@, Option::Some("x"@), Option::Some("extensions"@), Arity::Many, false, true,
            Option::Some("FILE_EXTENSION"@),
            "File extension(s) to search for (ex: -x php -x pdf js)"@, Option::None, seq![]),
        arg_v("headers"@, Option::Some("H"@), Option::Some("headers"@), Arity::Many, false, true,
            Option::Some("HEADER"@),
            "Specify HTTP headers (ex: -H Header:val 'stuff: things')"@, Option::None, seq![]),
        arg_v("norecursion"@, Option::Some("n"@), Option::Some("norecursion"@), Arity::NoValue, false, false,
            Option::None, "Do not scan recursively"@, Option::None, seq![]),
        arg_v("addslash"@, Option::Some("f"@), Option::Some("addslash"@), Arity::NoValue, false, false,
            Option::None, "Append / to each request"@, Option::None, seq![]),
        arg_v("stdin"@, Option::None, Option::Some("stdin"@), Arity::NoValue, false, false,
            Option::None, "Read url(s) from STDIN"@, Option::None, seq![ConstraintV::ConflictsWith("url"@)]),
        arg_v("sizefilters"@, Option::Some("S"@), Option::Some("sizefilter"@), Arity::Many, false, true,
            Option::Some("SIZE"@),
            "Filter out messages of a particular size (ex: -S 5120 -S 4927,1970)"@, Option::None, seq![]),
    ]
}

/// The whole catalog, metadata included.
pub open spec fn ferox_catalog() -> CatalogV {
    CatalogV {
        name: "feroxbuster"@,
        version: "0.1.0"@,
        author: "epi (@epi052)"@,
        about: "A fast, simple, recursive content discovery tool written in Rust"@,
        epilogue: ferox_epilogue(),
        args: ferox_args(),
    }
}

pub open spec fn ferox_epilogue() -> Seq<char> {
    r#"NOTE:
    Options that take multiple values are very flexible.  Consider the following ways of specifying
    extensions:
        ./feroxbuster -u http://127.1 -x pdf -x js,html -x php txt json,docx

    The command above adds .pdf, .js, .html, .php, .txt, .json, and .docx to each url

    All of the methods above (multiple flags, space separated, comma separated, etc...) are valid
    and interchangeable.  The same goes for urls, headers, status codes, and size filters.

EXAMPLES:
    Multiple headers:
        ./feroxbuster -u http://127.1 -H Accept:application/json "Authorization: Bearer {token}"

    IPv6, non-recursive scan with INFO-level logging enabled:
        ./feroxbuster -u http://[::1] --norecursion -vv

    Read urls from STDIN; pipe only resulting urls out to another tool
        cat targets | ./feroxbuster --stdin --quiet -s 200 301 302 --redirects -x js | fff -s 200 -o js-files

    Proxy traffic through Burp
        ./feroxbuster -u http://127.1 --insecure -p http://127.0.0.1:8080

    Ludicrous speed... go!
        ./feroxbuster -u http://127.1 -t 200
    "#@
}

/// Builds the command line interface's configuration: the full argument
/// catalog of the tool, with its metadata and epilogue.
pub fn initialize() -> (c: Catalog)
    ensures
        c@ == ferox_catalog(),
{
    let mut args: Vec<ArgSpec> = Vec::new();
    args.push(make_arg("wordlist", Option::Some("w"), Option::Some("wordlist"), Arity::One, false,
        false, Option::Some("FILE"), "Path to the wordlist", Option::None, Vec::new()));
    let mut url_cs: Vec<Constraint> = Vec::new();
    url_cs.push(Constraint::RequiredUnless(String::from_str("stdin")));
    url_cs.push(Constraint::ConflictsWith(String::from_str("stdin")));
    args.push(make_arg("url", Option::Some("u"), Option::Some("url"), Arity::Many, false, true,
        Option::Some("URL"), "The target URL(s) (required, unless --stdin used)", Option::None,
        url_cs));
    args.push(make_arg("threads", Option::Some("t"), Option::Some("threads"), Arity::One, false,
        false, Option::Some("THREADS"), "Number of concurrent threads (default: 50)", Option::Some("50"), Vec::new()));
    args.push(make_arg("depth", Option::Some("d"), Option::Some("depth"), Arity::One, false, false,
        Option::Some("RECURSION_DEPTH"),
        "Maximum recursion depth, a depth of 0 is infinite recursion (default: 4)", Option::Some("4"), Vec::new()));
    args.push(make_arg("timeout", Option::Some("T"), Option::Some("timeout"), Arity::One, false,
        false, Option::Some("SECONDS"),
        "Number of seconds before a request times out (default: 7)", Option::Some("7"), Vec::new()));
    args.push(make_arg("verbosity", Option::Some("v"), Option::Some("verbosity"), Arity::NoValue,
        true, false, Option::None,
        "Increase verbosity level (use -vv or more for greater effect)", Option::None, Vec::new()));
    args.push(make_arg("proxy", Option::Some("p"), Option::Some("proxy"), Arity::One, false, false,
        Option::Some("PROXY"),
        "Proxy to use for requests (ex: http(s)://host:port, socks5://host:port)", Option::None, Vec::new()));
    args.push(make_arg("statuscodes", Option::Some("s"), Option::Some("statuscodes"), Arity::Many,
        false, true, Option::Some("STATUS_CODE"),
        "Status Codes of interest (default: 200 204 301 302 307 308 401 403 405)", Option::Some("200 204 301 302 307 308 401 403 405"), Vec::new()));
    args.push(make_arg("quiet", Option::Some("q"), Option::Some("quiet"), Arity::NoValue, false,
        false, Option::None,
        "Only print URLs; Don't print status codes, response size, running config, etc...",
        Option::None, Vec::new()));
    args.push(make_arg("output", Option::Some("o"), Option::Some("output"), Arity::One, false,
        false, Option::Some("FILE"), "Output file to write results to (default: stdout)",
        Option::Some("stdout"), Vec::new()));
    args.push(make_arg("useragent", Option::Some("a"), Option::Some("useragent"), Arity::One,
        false, false, Option::Some("USER_AGENT"),
        "Sets the User-Agent (default: feroxbuster/VERSION)", Option::Some("feroxbuster/VERSION"), Vec::new()));
    args.push(make_arg("redirects", Option::Some("r"), Option::Some("redirects"), Arity::NoValue,
        false, false, Option::None, "Follow redirects", Option::None, Vec::new()));
    args.push(make_arg("insecure", Option::Some("k"), Option::Some("insecure"), Arity::NoValue,
        false, false, Option::None, "Disables TLS certificate validation", Option::None, Vec::new()));
    args.push(make_arg("extensions", Option::Some("x"), Option::Some("extensions"), Arity::Many,
        false, true, Option::Some("FILE_EXTENSION"),
        "File extension(s) to search for (ex: -x php -x pdf js)", Option::None, Vec::new()));
    args.push(make_arg("headers", Option::Some("H"), Option::Some("headers"), Arity::Many, false,
        true, Option::Some("HEADER"),
        "Specify HTTP headers (ex: -H Header:val 'stuff: things')", Option::None, Vec::new()));
    args.push(make_arg("norecursion", Option::Some("n"), Option::Some("norecursion"),
        Arity::NoValue, false, false, Option::None, "Do not scan recursively", Option::None, Vec::new()));
    args.push(make_arg("addslash", Option::Some("f"), Option::Some("addslash"), Arity::NoValue,
        false, false, Option::None, "Append / to each request", Option::None, Vec::new()));
    let mut stdin_cs: Vec<Constraint> = Vec::new();
    stdin_cs.push(Constraint::ConflictsWith(String::from_str("url")));
    args.push(make_arg("stdin", Option::None, Option::Some("stdin"), Arity::NoValue, false, false,
        Option::None, "Read url(s) from STDIN", Option::None, stdin_cs));
    args.push(make_arg("sizefilters", Option::Some("S"), Option::Some("sizefilter"), Arity::Many,
        false, true, Option::Some("SIZE"),
        "Filter out messages of a particular size (ex: -S 5120 -S 4927,1970)", Option::None,
        Vec::new()));
    let c = Catalog {
        name: String::from_str("feroxbuster"),
        version: String::from_str("0.1.0"),
        author: String::from_str("epi (@epi052)"),
        about: String::from_str("A fast, simple, recursive content discovery tool written in Rust"),
        epilogue: String::from_str(r#"NOTE:
    Options that take multiple values are very flexible.  Consider the following ways of specifying
    extensions:
        ./feroxbuster -u http://127.1 -x pdf -x js,html -x php txt json,docx

    The command above adds .pdf, .js, .html, .php, .txt, .json, and .docx to each url

    All of the methods above (multiple flags, space separated, comma separated, etc...) are valid
    and interchangeable.  The same goes for urls, headers, status codes, and size filters.

EXAMPLES:
    Multiple headers:
        ./feroxbuster -u http://127.1 -H Accept:application/json "Authorization: Bearer {token}"

    IPv6, non-recursive scan with INFO-level logging enabled:
        ./feroxbuster -u http://[::1] --norecursion -vv

    Read urls from STDIN; pipe only resulting urls out to another tool
        cat targets | ./feroxbuster --stdin --quiet -s 200 301 302 --redirects -x js | fff -s 200 -o js-files

    Proxy traffic through Burp
        ./feroxbuster -u http://127.1 --insecure -p http://127.0.0.1:8080

    Ludicrous speed... go!
        ./feroxbuster -u http://127.1 -t 200
    "#),
        args,
    };
    proof {
        assert(c@.args =~~= ferox_args());
        assert(c@ =~~= ferox_catalog());
    }
    c
}


// ---------------------------------------------------------------------------
// The startup consistency check
// ---------------------------------------------------------------------------

fn arg_ok_exec(a: &ArgSpec) -> (r: bool)
    ensures
        r == arg_ok(a@),
{
    let name_ok = a.name.as_str().unicode_len() > 0;
    let short_ok = match &a.short {
        Option::Some(s) => s.as_str().unicode_len() == 1 && s.as_str().get_char(0) != '-',
        Option::None => true,
    };
    let long_ok = match &a.long {
        Option::Some(l) => l.as_str().unicode_len() > 0 && l.as_str().get_char(0) != '-',
        Option::None => true,
    };
    let has_form = a.short.is_some() || a.long.is_some();
    name_ok && short_ok && long_ok && has_form
}

fn distinct_forms_exec(a: &ArgSpec, b: &ArgSpec) -> (r: bool)
    ensures
        r == distinct_forms(a@, b@),
{
    let name_ok = !crate::util::str_eq(a.name.as_str(), b.name.as_str());
    let short_ok = match (&a.short, &b.short) {
        (Option::Some(x), Option::Some(y)) => !crate::util::str_eq(x.as_str(), y.as_str()),
        _ => true,
    };
    let long_ok = match (&a.long, &b.long) {
        (Option::Some(x), Option::Some(y)) => !crate::util::str_eq(x.as_str(), y.as_str()),
        _ => true,
    };
    name_ok && short_ok && long_ok
}

/// Finds the argument declared under the canonical name `n`.
pub fn find_name_idx(args: &Vec<ArgSpec>, n: &str) -> (r: Option<usize>)
    ensures
        match r {
            Option::Some(j) => find_name(args.deep_view(), n@) == Option::Some(j as int),
            Option::None => find_name(args.deep_view(), n@) is None,
        },
{
    let ghost av = args.deep_view();
    let mut i: usize = 0;
    while i < args.len()
        invariant
            i <= args.len(),
            av == args.deep_view(),
            av.len() == args.len(),
            find_from(av, by_name(n@), 0) == find_from(av, by_name(n@), i as int),
        decreases args.len() - i,
    {
        if crate::util::str_eq(args[i].name.as_str(), n) {
            proof {
                assert(by_name(n@)(av[i as int]));
            }
            return Option::Some(i);
        }
        proof {
            assert(!by_name(n@)(av[i as int]));
        }
        i = i + 1;
    }
    Option::None
}

fn constraint_ok_exec(args: &Vec<ArgSpec>, c: &Constraint) -> (r: bool)
    ensures
        r == constraint_ok(args.deep_view(), c@),
{
    match c {
        Constraint::Required => true,
        Constraint::RequiredUnless(o) => {
            let f = find_name_idx(args, o.as_str());
            proof {
                lemma_has_name_find(args.deep_view(), o@);
            }
            f.is_some()
        },
        Constraint::ConflictsWith(o) => {
            let f = find_name_idx(args, o.as_str());
            proof {
                lemma_has_name_find(args.deep_view(), o@);
            }
            f.is_some()
        },
    }
}

fn constraints_ok_exec(args: &Vec<ArgSpec>, cs: &Vec<Constraint>) -> (r: bool)
    ensures
        r == constraints_ok(args.deep_view(), cs.deep_view()),
{
    let mut k: usize = 0;
    while k < cs.len()
        invariant
            k <= cs.len(),
            forall|x: int| 0 <= x < k ==> constraint_ok(args.deep_view(), #[trigger] cs.deep_view()[x]),
        decreases cs.len() - k,
    {
        if !constraint_ok_exec(args, &cs[k]) {
            proof {
                assert(!constraint_ok(args.deep_view(), cs.deep_view()[k as int]));
            }
            return false;
        }
        k = k + 1;
    }
    true
}

/// The startup assertion on the catalog: decides whether the declarations
/// are free of schema defects (duplicate forms, dangling constraint
/// references, malformed declarations).
pub fn catalog_defect_free(c: &Catalog) -> (r: bool)
    ensures
        r == wf_args(c@.args),
{
    let ghost av = c.args.deep_view();
    let n = c.args.len();
    let mut i: usize = 0;
    while i < n
        invariant
            i <= n,
            n == c.args.len(),
            av == c.args.deep_view(),
            av.len() == n,
            forall|x: int| 0 <= x < i ==> arg_ok(#[trigger] av[x]),
            forall|x: int| 0 <= x < i ==> constraints_ok(av, (#[trigger] av[x]).constraints),
            forall|x: int, y: int| 0 <= x < y < n && x < i ==> distinct_forms(av[x], av[y]),
        decreases n - i,
    {
        proof {
            assert(av[i as int] == c.args[i as int]@);
        }
        if !arg_ok_exec(&c.args[i]) {
            proof {
                if wf_args(av) {
                    assert(arg_ok(av[i as int]));
                }
            }
            return false;
        }
        if !constraints_ok_exec(&c.args, &c.args[i].constraints) {
            proof {
                assert(av[i as int].constraints == c.args[i as int].constraints.deep_view());
                if wf_args(av) {
                    assert(constraints_ok(av, av[i as int].constraints));
                }
            }
            return false;
        }
        let mut j: usize = i + 1;
        while j < n
            invariant
                i < j <= n,
                n == c.args.len(),
                av == c.args.deep_view(),
                av.len() == n,
                forall|y: int| i < y < j ==> distinct_forms(av[i as int], #[trigger] av[y]),
            decreases n - j,
        {
            if !distinct_forms_exec(&c.args[i], &c.args[j]) {
                proof {
                    assert(av[i as int] == c.args[i as int]@);
                    assert(av[j as int] == c.args[j as int]@);
                    if wf_args(av) {
                        assert(distinct_forms(av[i as int], av[j as int]));
                    }
                }
                return false;
            }
            j = j + 1;
        }
        i = i + 1;
    }
    true
}

} // verus!
