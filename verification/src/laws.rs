//! The library's general guarantees, stated and proved over the collector,
//! validator and renderer specifications.

use vstd::prelude::*;

use crate::collect::CollState;
use crate::collect::PendingV;
use crate::collect::collect_from;
use crate::collect::collect_spec;
use crate::collect::init_state;
use crate::collect::is_flag_like;
use crate::collect::is_long_tok;
use crate::collect::step;
use crate::schema::ArgSpecV;
use crate::schema::Arity;
use crate::schema::ConstraintV;
use crate::schema::find_long;
use crate::schema::find_short;
use crate::validate::check_constraint;
use crate::validate::first_violation_from;
use crate::validate::present_by_name;
use crate::validate::validate_from;
use crate::validate::validate_spec;
use crate::values::present;
use crate::values::ErrModel;
use crate::values::ValModel;

verus! {

/// The raw token for a long form: the flag prefix doubled, then the word.
pub open spec fn long_flag_tok(l: Seq<char>) -> Seq<char> {
    "--"@ + l
}

/// A `One`-arity argument given twice keeps the second occurrence's value:
/// whatever two value tokens follow the two flags, the final configuration
/// holds the later one.
pub proof fn lemma_one_arity_last_wins(
    args: Seq<ArgSpecV>,
    j: int,
    l: Seq<char>,
    v1: Seq<char>,
    v2: Seq<char>,
)
    requires
        find_long(args, l) == Option::Some(j),
        0 <= j < args.len(),
        args[j].arity is One,
        l.len() > 0,
    ensures
        collect_spec(args, seq![long_flag_tok(l), v1, long_flag_tok(l), v2]) == Result::Ok::<
            _,
            ErrModel,
        >(init_state(args.len()).vals.update(j, ValModel::Single(v2))),
{
    reveal_strlit("--");
    let t = long_flag_tok(l);
    let toks = seq![t, v1, t, v2];
    let st0 = init_state(args.len());
    assert(t[0] == '-' && t[1] == '-' && t.len() >= 2);
    assert(is_long_tok(t) && is_flag_like(t));
    assert(t.skip(2) =~= l);
    let st1 = CollState { vals: st0.vals, pending: PendingV::WantOne(j) };
    assert(step(args, st0, t) == Result::Ok::<_, ErrModel>(st1));
    let st2 = CollState { vals: st0.vals.update(j, ValModel::Single(v1)), pending: PendingV::Idle };
    assert(step(args, st1, v1) == Result::Ok::<_, ErrModel>(st2));
    let st3 = CollState { vals: st2.vals, pending: PendingV::WantOne(j) };
    assert(step(args, st2, t) == Result::Ok::<_, ErrModel>(st3));
    let st4 = CollState {
        vals: st2.vals.update(j, ValModel::Single(v2)),
        pending: PendingV::Idle,
    };
    assert(step(args, st3, v2) == Result::Ok::<_, ErrModel>(st4));
    assert(toks.skip(1) =~= seq![v1, t, v2]);
    assert(seq![v1, t, v2].skip(1) =~= seq![t, v2]);
    assert(seq![t, v2].skip(1) =~= seq![v2]);
    assert(seq![v2].skip(1) =~= Seq::<Seq<char>>::empty());
    assert(collect_from(args, st0, toks) == collect_from(args, st1, seq![v1, t, v2]));
    assert(collect_from(args, st1, seq![v1, t, v2]) == collect_from(args, st2, seq![t, v2]));
    assert(collect_from(args, st2, seq![t, v2]) == collect_from(args, st3, seq![v2]));
    assert(collect_from(args, st3, seq![v2]) == collect_from(
        args,
        st4,
        Seq::<Seq<char>>::empty(),
    ));
    assert(collect_from(args, st4, Seq::<Seq<char>>::empty()) == Result::Ok::<_, ErrModel>(
        st4.vals,
    ));
    assert(collect_spec(args, toks) == Result::Ok::<_, ErrModel>(st4.vals));
    assert(st4.vals =~= init_state(args.len()).vals.update(j, ValModel::Single(v2)));
}

/// A count-type argument given as a doubled short flag counts two
/// occurrences; given as two separate long-flag occurrences it also counts
/// two.
pub proof fn lemma_count_two_ways(args: Seq<ArgSpecV>, j: int, c: char, l: Seq<char>)
    requires
        find_short(args, c) == Option::Some(j),
        find_long(args, l) == Option::Some(j),
        0 <= j < args.len(),
        args[j].arity is NoValue,
        c != '-',
        l.len() > 0,
    ensures
        collect_spec(args, seq![seq!['-', c, c]]) == Result::Ok::<_, ErrModel>(
            init_state(args.len()).vals.update(j, ValModel::Count(2)),
        ),
        collect_spec(args, seq![long_flag_tok(l), long_flag_tok(l)]) == Result::Ok::<_, ErrModel>(
            init_state(args.len()).vals.update(j, ValModel::Count(2)),
        ),
{
    let st0 = init_state(args.len());
    let target = st0.vals.update(j, ValModel::Count(2));
    // Doubled short flag: one cluster token, two tallies.
    let ts = seq!['-', c, c];
    assert(is_flag_like(ts) && !is_long_tok(ts));
    let vals1 = st0.vals.update(j, crate::collect::bump_val(st0.vals[j]));
    assert(st0.vals[j] == ValModel::Missing);
    assert(vals1[j] == ValModel::Count(1));
    let vals2 = vals1.update(j, crate::collect::bump_val(vals1[j]));
    assert(vals2 =~= target);
    assert(crate::collect::short_steps(args, vals2, ts, 3) == Result::Ok::<_, ErrModel>((
        vals2,
        PendingV::Idle,
    )));
    assert(ts[1] == c && ts[2] == c);
    assert(crate::collect::short_steps(args, st0.vals, ts, 1) == crate::collect::short_steps(
        args,
        vals1,
        ts,
        2,
    ));
    assert(crate::collect::short_steps(args, vals1, ts, 2) == crate::collect::short_steps(
        args,
        vals2,
        ts,
        3,
    ));
    assert(crate::collect::short_steps(args, st0.vals, ts, 1) == Result::Ok::<_, ErrModel>((
        vals2,
        PendingV::Idle,
    )));
    let st1 = CollState { vals: vals2, pending: PendingV::Idle };
    assert(step(args, st0, ts) == Result::Ok::<_, ErrModel>(st1));
    assert(seq![ts].skip(1) =~= Seq::<Seq<char>>::empty());
    assert(collect_from(args, st0, seq![ts]) == collect_from(
        args,
        st1,
        Seq::<Seq<char>>::empty(),
    ));
    assert(collect_spec(args, seq![ts]) == Result::Ok::<_, ErrModel>(vals2));
    // Two separate long occurrences.
    reveal_strlit("--");
    let t = long_flag_tok(l);
    assert(t[0] == '-' && t[1] == '-' && t.len() >= 2);
    assert(is_long_tok(t) && is_flag_like(t));
    assert(t.skip(2) =~= l);
    let stl1 = CollState { vals: vals1, pending: PendingV::Idle };
    assert(step(args, st0, t) == Result::Ok::<_, ErrModel>(stl1));
    let stl2 = CollState { vals: vals2, pending: PendingV::Idle };
    assert(step(args, stl1, t) == Result::Ok::<_, ErrModel>(stl2));
    assert(seq![t, t].skip(1) =~= seq![t]);
    assert(seq![t].skip(1) =~= Seq::<Seq<char>>::empty());
    assert(collect_from(args, st0, seq![t, t]) == collect_from(args, stl1, seq![t]));
    assert(collect_from(args, stl1, seq![t]) == collect_from(
        args,
        stl2,
        Seq::<Seq<char>>::empty(),
    ));
    assert(collect_spec(args, seq![t, t]) == Result::Ok::<_, ErrModel>(vals2));
}

/// A token that looks like a long flag but matches no declared long form
/// fails the whole parse at once with `UnknownArgument`; no configuration
/// is produced, whatever tokens follow.
pub proof fn lemma_unknown_flag_rejected(
    cat: crate::schema::CatalogV,
    t: Seq<char>,
    rest: Seq<Seq<char>>,
)
    requires
        is_long_tok(t),
        t.len() > 2,
        find_long(cat.args, t.skip(2)) is None,
    ensures
        collect_spec(cat.args, seq![t] + rest) == Result::Err::<Seq<ValModel>, _>(
            ErrModel::UnknownArgument(t),
        ),
        crate::parse::parse_spec(cat, seq![t] + rest) == Result::Err::<Seq<ValModel>, _>(
            ErrModel::UnknownArgument(t),
        ),
{
    let toks = seq![t] + rest;
    let st0 = init_state(cat.args.len());
    assert(toks.len() > 0);
    assert(toks[0] == t);
    assert(t.skip(2).len() > 0);
    assert(step(cat.args, st0, t) == Result::Err::<CollState, _>(ErrModel::UnknownArgument(t)));
    assert(collect_spec(cat.args, toks) == Result::Err::<Seq<ValModel>, _>(
        ErrModel::UnknownArgument(t),
    ));
}

/// A short token whose first cluster character matches no declared short
/// form is rejected the same way, whatever tokens follow.
pub proof fn lemma_unknown_short_flag_rejected(
    cat: crate::schema::CatalogV,
    t: Seq<char>,
    rest: Seq<Seq<char>>,
)
    requires
        is_flag_like(t),
        !is_long_tok(t),
        find_short(cat.args, t[1]) is None,
    ensures
        collect_spec(cat.args, seq![t] + rest) == Result::Err::<Seq<ValModel>, _>(
            ErrModel::UnknownArgument(t),
        ),
        crate::parse::parse_spec(cat, seq![t] + rest) == Result::Err::<Seq<ValModel>, _>(
            ErrModel::UnknownArgument(t),
        ),
{
    let toks = seq![t] + rest;
    let st0 = init_state(cat.args.len());
    assert(toks.len() > 0);
    assert(toks[0] == t);
    assert(crate::collect::short_steps(cat.args, st0.vals, t, 1) == Result::Err::<
        (Seq<ValModel>, PendingV),
        _,
    >(ErrModel::UnknownArgument(t)));
    assert(step(cat.args, st0, t) == Result::Err::<CollState, _>(ErrModel::UnknownArgument(t)));
    assert(collect_spec(cat.args, toks) == Result::Err::<Seq<ValModel>, _>(
        ErrModel::UnknownArgument(t),
    ));
}

/// All three input stylings of a delimiter-splitting `Many` argument are
/// equivalent: a repeated flag, space-separated tokens after one flag, and
/// one delimiter-joined token collect the same values in the same order.
pub proof fn lemma_many_styles_equivalent(
    args: Seq<ArgSpecV>,
    j: int,
    l: Seq<char>,
    v1: Seq<char>,
    v2: Seq<char>,
)
    requires
        find_long(args, l) == Option::Some(j),
        0 <= j < args.len(),
        args[j].arity is Many,
        args[j].delim,
        l.len() > 0,
        v1.len() > 0,
        v1[0] != '-',
        v2.len() > 0,
        v2[0] != '-',
    ensures
        collect_spec(args, seq![long_flag_tok(l), v1, v2]) == Result::Ok::<_, ErrModel>(
            init_state(args.len()).vals.update(
                j,
                ValModel::Values(
                    crate::util::split_on(v1, ',') + crate::util::split_on(v2, ','),
                ),
            ),
        ),
        collect_spec(args, seq![long_flag_tok(l), v1, long_flag_tok(l), v2]) == collect_spec(
            args,
            seq![long_flag_tok(l), v1, v2],
        ),
        collect_spec(args, seq![long_flag_tok(l), v1 + seq![','] + v2]) == collect_spec(
            args,
            seq![long_flag_tok(l), v1, v2],
        ),
{
    reveal_strlit("--");
    let t = long_flag_tok(l);
    let st0 = init_state(args.len());
    let s1 = crate::util::split_on(v1, ',');
    let s2 = crate::util::split_on(v2, ',');
    assert(t[0] == '-' && t[1] == '-' && t.len() >= 2);
    assert(is_long_tok(t) && is_flag_like(t));
    assert(t.skip(2) =~= l);
    assert(crate::collect::delim_char() == ',');
    let target = st0.vals.update(j, ValModel::Values(s1 + s2));
    // One flag, two space-separated tokens.
    let st1 = CollState { vals: st0.vals, pending: PendingV::InMany(j, false) };
    assert(step(args, st0, t) == Result::Ok::<_, ErrModel>(st1));
    assert(!is_flag_like(v1));
    let va = st0.vals.update(j, ValModel::Values(Seq::empty() + s1));
    let st2 = CollState { vals: va, pending: PendingV::InMany(j, true) };
    assert(crate::collect::prev_items(st0.vals[j]) =~= Seq::<Seq<char>>::empty());
    assert(crate::collect::append_items(args, st0.vals, j, v1) =~= va);
    assert(step(args, st1, v1) == Result::Ok::<_, ErrModel>(st2));
    assert(!is_flag_like(v2));
    let vb = va.update(j, ValModel::Values((Seq::empty() + s1) + s2));
    let st3 = CollState { vals: vb, pending: PendingV::InMany(j, true) };
    assert(crate::collect::prev_items(va[j]) =~= Seq::empty() + s1);
    assert(crate::collect::append_items(args, va, j, v2) =~= vb);
    assert(step(args, st2, v2) == Result::Ok::<_, ErrModel>(st3));
    let ta = seq![t, v1, v2];
    assert(ta.skip(1) =~= seq![v1, v2]);
    assert(seq![v1, v2].skip(1) =~= seq![v2]);
    assert(seq![v2].skip(1) =~= Seq::<Seq<char>>::empty());
    assert(collect_from(args, st0, ta) == collect_from(args, st1, seq![v1, v2]));
    assert(collect_from(args, st1, seq![v1, v2]) == collect_from(args, st2, seq![v2]));
    assert(collect_from(args, st2, seq![v2]) == collect_from(
        args,
        st3,
        Seq::<Seq<char>>::empty(),
    ));
    assert(collect_from(args, st3, Seq::<Seq<char>>::empty()) == Result::Ok::<_, ErrModel>(vb));
    assert(collect_spec(args, ta) == Result::Ok::<_, ErrModel>(vb));
    assert(vb =~= target);
    // The flag repeated before the second token.
    let tb = seq![t, v1, t, v2];
    let sb3 = CollState { vals: va, pending: PendingV::InMany(j, false) };
    assert(step(args, st2, t) == Result::Ok::<_, ErrModel>(sb3));
    assert(step(args, sb3, v2) == Result::Ok::<_, ErrModel>(st3));
    assert(tb.skip(1) =~= seq![v1, t, v2]);
    assert(seq![v1, t, v2].skip(1) =~= seq![t, v2]);
    assert(seq![t, v2].skip(1) =~= seq![v2]);
    assert(collect_from(args, st0, tb) == collect_from(args, st1, seq![v1, t, v2]));
    assert(collect_from(args, st1, seq![v1, t, v2]) == collect_from(args, st2, seq![t, v2]));
    assert(collect_from(args, st2, seq![t, v2]) == collect_from(args, sb3, seq![v2]));
    assert(collect_from(args, sb3, seq![v2]) == collect_from(
        args,
        st3,
        Seq::<Seq<char>>::empty(),
    ));
    assert(collect_spec(args, tb) == Result::Ok::<_, ErrModel>(vb));
    // One delimiter-joined token.
    let vj = v1 + seq![','] + v2;
    crate::util::lemma_split_append(v1, v2, ',');
    assert(crate::util::split_on(vj, ',') == s1 + s2);
    assert(vj.len() > 0 && vj[0] == v1[0]);
    assert(!is_flag_like(vj));
    let vc = st0.vals.update(j, ValModel::Values(Seq::empty() + (s1 + s2)));
    let sc2 = CollState { vals: vc, pending: PendingV::InMany(j, true) };
    assert(crate::collect::append_items(args, st0.vals, j, vj) =~= vc);
    assert(step(args, st1, vj) == Result::Ok::<_, ErrModel>(sc2));
    let tc = seq![t, vj];
    assert(tc.skip(1) =~= seq![vj]);
    assert(seq![vj].skip(1) =~= Seq::<Seq<char>>::empty());
    assert(collect_from(args, st0, tc) == collect_from(args, st1, seq![vj]));
    assert(collect_from(args, st1, seq![vj]) == collect_from(
        args,
        sc2,
        Seq::<Seq<char>>::empty(),
    ));
    assert(collect_from(args, sc2, Seq::<Seq<char>>::empty()) == Result::Ok::<_, ErrModel>(vc));
    assert(vc =~= vb);
    assert(collect_spec(args, tc) == Result::Ok::<_, ErrModel>(vb));
}

/// `find_name` locates `url` in the concrete catalog.
proof fn lemma_ferox_find_url()
    ensures
        crate::schema::find_name(crate::schema::ferox_args(), "url"@) == Option::Some(1int),
{
    reveal_strlit("wordlist");
    reveal_strlit("url");
    let a = crate::schema::ferox_args();
    crate::schema::lemma_find_from_props(a, crate::schema::by_name("url"@), 0);
    assert(a[1].name == "url"@);
    assert(a[0].name != "url"@);
    assert(crate::schema::by_name("url"@)(a[1]));
    match crate::schema::find_name(a, "url"@) {
        Option::Some(j) => {
            assert(crate::schema::by_name("url"@)(a[j]));
            if j > 1 {
                assert(!crate::schema::by_name("url"@)(a[1]));
            }
            if j == 0 {
                assert(a[0].name == "url"@);
            }
        },
        Option::None => {
            assert(!crate::schema::by_name("url"@)(a[1]));
        },
    }
}

/// `find_name` locates `stdin` in the concrete catalog.
proof fn lemma_ferox_find_stdin()
    ensures
        crate::schema::find_name(crate::schema::ferox_args(), "stdin"@) == Option::Some(17int),
{
    reveal_strlit("wordlist");
    reveal_strlit("url");
    reveal_strlit("threads");
    reveal_strlit("depth");
    reveal_strlit("timeout");
    reveal_strlit("verbosity");
    reveal_strlit("proxy");
    reveal_strlit("statuscodes");
    reveal_strlit("quiet");
    reveal_strlit("output");
    reveal_strlit("useragent");
    reveal_strlit("redirects");
    reveal_strlit("insecure");
    reveal_strlit("extensions");
    reveal_strlit("headers");
    reveal_strlit("norecursion");
    reveal_strlit("addslash");
    reveal_strlit("stdin");
    reveal_strlit("sizefilters");
    let a = crate::schema::ferox_args();
    crate::schema::lemma_find_from_props(a, crate::schema::by_name("stdin"@), 0);
    assert(a[17].name == "stdin"@);
    assert(a[0].name != "stdin"@);
    assert(a[1].name != "stdin"@);
    assert(a[2].name != "stdin"@);
    assert(a[3].name != "stdin"@) by {
        if a[3].name == "stdin"@ {
            assert("depth"@[0] == "stdin"@[0]);
        }
    }
    assert(a[4].name != "stdin"@);
    assert(a[5].name != "stdin"@);
    assert(a[6].name != "stdin"@) by {
        if a[6].name == "stdin"@ {
            assert("proxy"@[0] == "stdin"@[0]);
        }
    }
    assert(a[7].name != "stdin"@);
    assert(a[8].name != "stdin"@) by {
        if a[8].name == "stdin"@ {
            assert("quiet"@[0] == "stdin"@[0]);
        }
    }
    assert(a[9].name != "stdin"@);
    assert(a[10].name != "stdin"@);
    assert(a[11].name != "stdin"@);
    assert(a[12].name != "stdin"@);
    assert(a[13].name != "stdin"@);
    assert(a[14].name != "stdin"@);
    assert(a[15].name != "stdin"@);
    assert(a[16].name != "stdin"@);
    assert(crate::schema::by_name("stdin"@)(a[17]));
    match crate::schema::find_name(a, "stdin"@) {
        Option::Some(j) => {
            assert(crate::schema::by_name("stdin"@)(a[j]));
            if j > 17 {
                assert(!crate::schema::by_name("stdin"@)(a[17]));
            }
            if j < 17 {
                assert(a[j].name != "stdin"@);
            }
        },
        Option::None => {
            assert(!crate::schema::by_name("stdin"@)(a[17]));
        },
    }
}

/// The required/conflicting rules between `url` and `stdin`, over any set
/// of collected values for the concrete catalog: both absent fails with
/// `url` missing, either alone satisfies the pair, and both present is a
/// conflict reported as `(url, stdin)`.
#[verifier::rlimit(60)]
pub proof fn lemma_url_stdin_rules(vals: Seq<ValModel>)
    requires
        vals.len() == crate::schema::ferox_args().len(),
    ensures
        !present(vals[1]) && !present(vals[17]) ==> validate_spec(crate::schema::ferox_args(), vals)
            == Option::Some(ErrModel::MissingRequiredArgument("url"@)),
        !present(vals[1]) && present(vals[17]) ==> validate_spec(crate::schema::ferox_args(), vals)
            is None,
        present(vals[1]) && present(vals[17]) ==> validate_spec(crate::schema::ferox_args(), vals)
            == Option::Some(ErrModel::ConflictingArguments("url"@, "stdin"@)),
{
    let a = crate::schema::ferox_args();
    lemma_ferox_find_url();
    lemma_ferox_find_stdin();
    assert(a[1].name == "url"@);
    assert(a[17].name == "stdin"@);
    assert(a[1].constraints[0] == ConstraintV::RequiredUnless("stdin"@));
    assert(a[1].constraints[1] == ConstraintV::ConflictsWith("stdin"@));
    assert(a[17].constraints[0] == ConstraintV::ConflictsWith("url"@));
    assert(present_by_name(a, vals, "stdin"@) == present(vals[17]));
    assert(present_by_name(a, vals, "url"@) == present(vals[1]));
    assert(first_violation_from(a, vals, 0, 0) is None);
    assert(validate_from(a, vals, 0) == validate_from(a, vals, 1));
    if !present(vals[1]) && !present(vals[17]) {
        let e = ErrModel::MissingRequiredArgument("url"@);
        assert(check_constraint(a, vals, 1, a[1].constraints[0]) == Option::Some(e));
        assert(first_violation_from(a, vals, 1, 0) == Option::Some(e));
        assert(validate_from(a, vals, 1) == Option::Some(e));
    }
    if !present(vals[1]) && present(vals[17]) {
        assert(check_constraint(a, vals, 1, a[1].constraints[0]) is None);
        assert(check_constraint(a, vals, 1, a[1].constraints[1]) is None);
        assert(first_violation_from(a, vals, 1, 2) is None);
        assert(first_violation_from(a, vals, 1, 1) is None);
        assert(first_violation_from(a, vals, 1, 0) is None);
        assert(validate_from(a, vals, 1) == validate_from(a, vals, 2));
        assert(first_violation_from(a, vals, 2, 0) is None);
        assert(validate_from(a, vals, 2) == validate_from(a, vals, 3));
        assert(first_violation_from(a, vals, 3, 0) is None);
        assert(validate_from(a, vals, 3) == validate_from(a, vals, 4));
        assert(first_violation_from(a, vals, 4, 0) is None);
        assert(validate_from(a, vals, 4) == validate_from(a, vals, 5));
        assert(first_violation_from(a, vals, 5, 0) is None);
        assert(validate_from(a, vals, 5) == validate_from(a, vals, 6));
        assert(first_violation_from(a, vals, 6, 0) is None);
        assert(validate_from(a, vals, 6) == validate_from(a, vals, 7));
        assert(first_violation_from(a, vals, 7, 0) is None);
        assert(validate_from(a, vals, 7) == validate_from(a, vals, 8));
        assert(first_violation_from(a, vals, 8, 0) is None);
        assert(validate_from(a, vals, 8) == validate_from(a, vals, 9));
        assert(first_violation_from(a, vals, 9, 0) is None);
        assert(validate_from(a, vals, 9) == validate_from(a, vals, 10));
        assert(first_violation_from(a, vals, 10, 0) is None);
        assert(validate_from(a, vals, 10) == validate_from(a, vals, 11));
        assert(first_violation_from(a, vals, 11, 0) is None);
        assert(validate_from(a, vals, 11) == validate_from(a, vals, 12));
        assert(first_violation_from(a, vals, 12, 0) is None);
        assert(validate_from(a, vals, 12) == validate_from(a, vals, 13));
        assert(first_violation_from(a, vals, 13, 0) is None);
        assert(validate_from(a, vals, 13) == validate_from(a, vals, 14));
        assert(first_violation_from(a, vals, 14, 0) is None);
        assert(validate_from(a, vals, 14) == validate_from(a, vals, 15));
        assert(first_violation_from(a, vals, 15, 0) is None);
        assert(validate_from(a, vals, 15) == validate_from(a, vals, 16));
        assert(first_violation_from(a, vals, 16, 0) is None);
        assert(validate_from(a, vals, 16) == validate_from(a, vals, 17));
        assert(first_violation_from(a, vals, 18, 0) is None);
        assert(validate_from(a, vals, 18) == validate_from(a, vals, 19));
        assert(check_constraint(a, vals, 17, a[17].constraints[0]) is None);
        assert(first_violation_from(a, vals, 17, 1) is None);
        assert(first_violation_from(a, vals, 17, 0) is None);
        assert(validate_from(a, vals, 17) == validate_from(a, vals, 18));
        assert(validate_from(a, vals, 19) is None);
    }
    if present(vals[1]) && present(vals[17]) {
        let e = ErrModel::ConflictingArguments("url"@, "stdin"@);
        assert(check_constraint(a, vals, 1, a[1].constraints[0]) is None);
        assert(check_constraint(a, vals, 1, a[1].constraints[1]) == Option::Some(e));
        assert(first_violation_from(a, vals, 1, 1) == Option::Some(e));
        assert(first_violation_from(a, vals, 1, 0) == Option::Some(e));
        assert(validate_from(a, vals, 1) == Option::Some(e));
    }
}

/// Full help holds every declared argument exactly once, in declaration
/// order: it splits, around any argument, into the lines of those declared
/// before, its own line, the lines of those declared after, and then the
/// epilogue, reproduced character for character as the text's suffix.
pub proof fn lemma_full_help_layout(c: crate::schema::CatalogV, i: int)
    requires
        0 <= i < c.args.len(),
    ensures
        crate::render::full_help_text(c) == crate::render::header_text(c)
            + crate::render::args_block(c.args.take(i)) + crate::render::help_line(c.args[i])
            + crate::render::args_block(c.args.skip(i + 1)) + c.epilogue,
        crate::render::full_help_text(c).subrange(
            crate::render::full_help_text(c).len() - c.epilogue.len(),
            crate::render::full_help_text(c).len() as int,
        ) == c.epilogue,
{
    let pre = c.args.take(i);
    let mid = seq![c.args[i]];
    let post = c.args.skip(i + 1);
    assert(c.args =~= pre + mid + post);
    crate::render::lemma_args_block_concat(pre + mid, post);
    crate::render::lemma_args_block_concat(pre, mid);
    assert(mid.skip(1) =~= Seq::<ArgSpecV>::empty());
    assert(crate::render::args_block(mid) =~= crate::render::help_line(c.args[i])
        + crate::render::args_block(Seq::<ArgSpecV>::empty()));
    assert(crate::render::args_block(mid) =~= crate::render::help_line(c.args[i]));
    assert(crate::render::args_block(c.args) == crate::render::args_block(pre + mid)
        + crate::render::args_block(post));
    assert(crate::render::full_help_text(c) =~= crate::render::header_text(c)
        + crate::render::args_block(pre) + crate::render::help_line(c.args[i])
        + crate::render::args_block(post) + c.epilogue);
    let full = crate::render::full_help_text(c);
    assert(full.subrange(full.len() - c.epilogue.len(), full.len() as int) =~= c.epilogue);
}

} // verus!
