//! The help/usage renderer: pure functions from the catalog (and possibly a
//! failure) to formatted text.  Full help lists every declared argument in
//! declaration order and reproduces the epilogue verbatim.

use vstd::prelude::*;

use crate::schema::ArgSpec;
use crate::schema::ArgSpecV;
use crate::schema::Catalog;
use crate::schema::CatalogV;
use crate::values::ErrModel;
use crate::values::ParseError;

verus! {

pub open spec fn short_part(a: ArgSpecV) -> Seq<char> {
    match a.short {
        Option::Some(s) => "-"@ + s + ", "@,
        Option::None => "    "@,
    }
}

pub open spec fn long_part(a: ArgSpecV) -> Seq<char> {
    match a.long {
        Option::Some(l) => "--"@ + l,
        Option::None => Seq::empty(),
    }
}

pub open spec fn value_part(a: ArgSpecV) -> Seq<char> {
    match a.value_name {
        Option::Some(v) => " <"@ + v + ">"@,
        Option::None => Seq::empty(),
    }
}

/// One argument's help line: short form, long form, value placeholder, and
/// the help text.
pub open spec fn help_line(a: ArgSpecV) -> Seq<char> {
    "    "@ + short_part(a) + long_part(a) + value_part(a) + "  "@ + a.help + "\n"@
}

/// All argument lines, in declaration order.
pub open spec fn args_block(args: Seq<ArgSpecV>) -> Seq<char>
    decreases args.len(),
{
    if args.len() == 0 {
        Seq::empty()
    } else {
        help_line(args[0]) + args_block(args.skip(1))
    }
}

/// Program name, version, author and about lines, then the options heading.
pub open spec fn header_text(c: CatalogV) -> Seq<char> {
    c.name + " "@ + c.version + "\n"@ + c.author + "\n"@ + c.about + "\n\nOPTIONS:\n"@
}

/// Full help: header, every argument once in declaration order, then the
/// epilogue reproduced character for character.
pub open spec fn full_help_text(c: CatalogV) -> Seq<char> {
    header_text(c) + args_block(c.args) + c.epilogue
}

/// Version mode: program name and version string only.
pub open spec fn version_text(c: CatalogV) -> Seq<char> {
    c.name + " "@ + c.version + "\n"@
}

/// The one-line usage synopsis.
pub open spec fn usage_text(c: CatalogV) -> Seq<char> {
    "USAGE:\n    "@ + c.name + " [OPTIONS]\n"@
}

/// The message for one failure, naming the offending argument(s).
pub open spec fn error_text(e: ErrModel) -> Seq<char> {
    match e {
        ErrModel::UnknownArgument(t) => "error: found unknown argument '"@ + t + "'"@,
        ErrModel::UnexpectedValue(t) => "error: found unexpected value '"@ + t + "'"@,
        ErrModel::MissingValueForArgument(n) => "error: no value supplied for argument '"@ + n
            + "'"@,
        ErrModel::MissingRequiredArgument(n) => "error: missing required argument '"@ + n + "'"@,
        ErrModel::ConflictingArguments(a, b) => "error: argument '"@ + a
            + "' cannot be used with '"@ + b + "'"@,
    }
}

/// Error mode: the failure, then the usage synopsis.
pub open spec fn usage_error_text(c: CatalogV, e: ErrModel) -> Seq<char> {
    error_text(e) + "\n\n"@ + usage_text(c)
}

/// The argument block splits around any one argument: its line stands at
/// the position given by declaration order, between the lines of the
/// arguments declared before and after it.
pub proof fn lemma_args_block_concat(x: Seq<ArgSpecV>, y: Seq<ArgSpecV>)
    ensures
        args_block(x + y) == args_block(x) + args_block(y),
    decreases x.len(),
{
    if x.len() == 0 {
        assert(x + y =~= y);
        assert(args_block(x) + args_block(y) =~= args_block(y));
    } else {
        assert((x + y).len() > 0);
        assert((x + y)[0] == x[0]);
        assert((x + y).skip(1) =~= x.skip(1) + y);
        lemma_args_block_concat(x.skip(1), y);
        assert(args_block(x + y) =~= args_block(x) + args_block(y));
    }
}

// ---------------------------------------------------------------------------
// Executable renderers
// ---------------------------------------------------------------------------

/// Renders one argument's help line.
fn render_arg_line(a: &ArgSpec) -> (r: String)
    ensures
        r@ == help_line(a@),
{
    let mut out = String::from_str("    ");
    match &a.short {
        Option::Some(s) => {
            out.append("-");
            out.append(s.as_str());
            out.append(", ");
        },
        Option::None => {
            out.append("    ");
        },
    }
    match &a.long {
        Option::Some(l) => {
            out.append("--");
            out.append(l.as_str());
        },
        Option::None => {},
    }
    match &a.value_name {
        Option::Some(v) => {
            out.append(" <");
            out.append(v.as_str());
            out.append(">");
        },
        Option::None => {},
    }
    out.append("  ");
    out.append(a.help.as_str());
    out.append("\n");
    proof {
        assert(out@ =~= help_line(a@));
    }
    out
}

/// Renders the full help: header, one line per declared argument in
/// declaration order, then the epilogue verbatim.
pub fn render_full_help(cat: &Catalog) -> (r: String)
    ensures
        r@ == full_help_text(cat@),
{
    let ghost av = cat@.args;
    let mut out = cat.name.clone();
    out.append(" ");
    out.append(cat.version.as_str());
    out.append("\n");
    out.append(cat.author.as_str());
    out.append("\n");
    out.append(cat.about.as_str());
    out.append("\n\nOPTIONS:\n");
    proof {
        assert(out@ =~= header_text(cat@));
        assert(av.take(0) =~= Seq::<ArgSpecV>::empty());
        assert(out@ =~= header_text(cat@) + args_block(av.take(0)));
    }
    let mut i: usize = 0;
    while i < cat.args.len()
        invariant
            i <= cat.args.len(),
            av == cat@.args,
            av.len() == cat.args.len(),
            out@ == header_text(cat@) + args_block(av.take(i as int)),
        decreases cat.args.len() - i,
    {
        let line = render_arg_line(&cat.args[i]);
        out.append(line.as_str());
        proof {
            assert(av.take(i as int + 1) =~= av.take(i as int) + seq![av[i as int]]);
            lemma_args_block_concat(av.take(i as int), seq![av[i as int]]);
            assert(seq![av[i as int]].skip(1) =~= Seq::<ArgSpecV>::empty());
            assert(args_block(seq![av[i as int]]) =~= help_line(av[i as int])
                + args_block(Seq::<ArgSpecV>::empty()));
            assert(args_block(seq![av[i as int]]) =~= help_line(av[i as int]));
            assert(line@ == help_line(av[i as int]));
            assert(out@ =~= header_text(cat@) + args_block(av.take(i as int + 1)));
        }
        i = i + 1;
    }
    out.append(cat.epilogue.as_str());
    proof {
        assert(av.take(av.len() as int) =~= av);
        assert(out@ =~= full_help_text(cat@));
    }
    out
}

/// Renders the version line.
pub fn render_version(cat: &Catalog) -> (r: String)
    ensures
        r@ == version_text(cat@),
{
    let mut out = cat.name.clone();
    out.append(" ");
    out.append(cat.version.as_str());
    out.append("\n");
    proof {
        assert(out@ =~= version_text(cat@));
    }
    out
}

/// Renders one failure's message.
pub fn error_message(e: &ParseError) -> (r: String)
    ensures
        r@ == error_text(e@),
{
    let mut out: String;
    match e {
        ParseError::UnknownArgument(t) => {
            out = String::from_str("error: found unknown argument '");
            out.append(t.as_str());
            out.append("'");
        },
        ParseError::UnexpectedValue(t) => {
            out = String::from_str("error: found unexpected value '");
            out.append(t.as_str());
            out.append("'");
        },
        ParseError::MissingValueForArgument(n) => {
            out = String::from_str("error: no value supplied for argument '");
            out.append(n.as_str());
            out.append("'");
        },
        ParseError::MissingRequiredArgument(n) => {
            out = String::from_str("error: missing required argument '");
            out.append(n.as_str());
            out.append("'");
        },
        ParseError::ConflictingArguments(a, b) => {
            out = String::from_str("error: argument '");
            out.append(a.as_str());
            out.append("' cannot be used with '");
            out.append(b.as_str());
            out.append("'");
        },
    }
    proof {
        assert(out@ =~= error_text(e@));
    }
    out
}

/// Renders the error-mode output: the failure, then the usage synopsis.
pub fn render_usage_error(cat: &Catalog, e: &ParseError) -> (r: String)
    ensures
        r@ == usage_error_text(cat@, e@),
{
    let mut out = error_message(e);
    out.append("\n\n");
    out.append("USAGE:\n    ");
    out.append(cat.name.as_str());
    out.append(" [OPTIONS]\n");
    proof {
        assert(out@ =~= usage_error_text(cat@, e@));
    }
    out
}

} // verus!
