//! The value collector: walks the raw token stream once, left to right,
//! recognizing flag markers and routing value tokens to the argument they
//! follow.  The executable collector is proved equal to the recursive
//! specification `collect_spec`.

use vstd::prelude::*;

use crate::schema::ArgSpec;
use crate::schema::ArgSpecV;
use crate::schema::Arity;
use crate::schema::Catalog;
use crate::schema::by_long;
use crate::schema::by_short;
use crate::schema::find_from;
use crate::schema::find_long;
use crate::schema::find_short;
use crate::util::split_on;
use crate::util::split_delim;
use crate::util::str_eq;
use crate::values::CollectedValue;
use crate::values::ErrModel;
use crate::values::ParseError;
use crate::values::ValModel;

verus! {

/// The delimiter on which `Many`-arity arguments split each raw token.
pub open spec fn delim_char() -> char {
    ','
}

/// A token that opens with the flag prefix; `-` alone is a plain value.
pub open spec fn is_flag_like(t: Seq<char>) -> bool {
    t.len() >= 2 && t[0] == '-'
}

/// A long-form token `--word`.
pub open spec fn is_long_tok(t: Seq<char>) -> bool {
    t.len() >= 2 && t[0] == '-' && t[1] == '-'
}

/// What the collector still owes after the tokens seen so far.
pub ghost enum PendingV {
    /// Nothing open.
    Idle,
    /// A `One`-arity argument's flag was seen; its value token is next.
    WantOne(int),
    /// A `Many`-arity argument is collecting; the flag tells whether it has
    /// received at least one value token in this invocation.
    InMany(int, bool),
}

/// Executable pending state, mirroring `PendingV`.
pub enum Pending {
    Idle,
    WantOne(usize),
    InMany(usize, bool),
}

impl View for Pending {
    type V = PendingV;

    open spec fn view(&self) -> PendingV {
        match self {
            Pending::Idle => PendingV::Idle,
            Pending::WantOne(j) => PendingV::WantOne(*j as int),
            Pending::InMany(j, got) => PendingV::InMany(*j as int, *got),
        }
    }
}

/// Collector state: one slot per declared argument, plus the open context.
#[verifier::ext_equal]
pub ghost struct CollState {
    pub vals: Seq<ValModel>,
    pub pending: PendingV,
}

/// Occurrence counts saturate at the machine word; they cannot overflow.
pub open spec fn bump(n: nat) -> nat {
    if n < usize::MAX {
        n + 1
    } else {
        n
    }
}

pub open spec fn bump_val(v: ValModel) -> ValModel {
    ValModel::Count(
        match v {
            ValModel::Count(n) => bump(n),
            _ => 1,
        },
    )
}

/// Values already collected in a slot.
pub open spec fn prev_items(v: ValModel) -> Seq<Seq<char>> {
    match v {
        ValModel::Values(vs) => vs,
        _ => Seq::empty(),
    }
}

/// What one recognized flag does to the state.
pub open spec fn apply_flag(args: Seq<ArgSpecV>, vals: Seq<ValModel>, j: int) -> (Seq<ValModel>, PendingV) {
    match args[j].arity {
        Arity::NoValue => (vals.update(j, bump_val(vals[j])), PendingV::Idle),
        Arity::One => (vals, PendingV::WantOne(j)),
        Arity::Many => (vals, PendingV::InMany(j, false)),
    }
}

/// A long token `--name` selects the argument with that long form.
pub open spec fn long_step(args: Seq<ArgSpecV>, vals: Seq<ValModel>, t: Seq<char>) -> Result<
    (Seq<ValModel>, PendingV),
    ErrModel,
> {
    let name = t.skip(2);
    if name.len() == 0 {
        Result::Err(ErrModel::UnknownArgument(t))
    } else {
        match find_long(args, name) {
            Option::Some(j) => Result::Ok(apply_flag(args, vals, j)),
            Option::None => Result::Err(ErrModel::UnknownArgument(t)),
        }
    }
}

/// A short cluster `-abc`, processed character by character from position
/// `k`.  A value-less flag is tallied and the cluster continues; a
/// value-taking flag must be the cluster's last character.
pub open spec fn short_steps(
    args: Seq<ArgSpecV>,
    vals: Seq<ValModel>,
    t: Seq<char>,
    k: int,
) -> Result<(Seq<ValModel>, PendingV), ErrModel>
    decreases t.len() - k,
{
    if k < 0 || k >= t.len() {
        Result::Ok((vals, PendingV::Idle))
    } else {
        match find_short(args, t[k]) {
            Option::None => Result::Err(ErrModel::UnknownArgument(t)),
            Option::Some(j) => match args[j].arity {
                Arity::NoValue => short_steps(args, vals.update(j, bump_val(vals[j])), t, k + 1),
                _ => if k == t.len() - 1 {
                    Result::Ok(apply_flag(args, vals, j))
                } else {
                    Result::Err(ErrModel::MissingValueForArgument(args[j].name))
                },
            },
        }
    }
}

pub open spec fn flag_step(args: Seq<ArgSpecV>, vals: Seq<ValModel>, t: Seq<char>) -> Result<
    (Seq<ValModel>, PendingV),
    ErrModel,
> {
    if is_long_tok(t) {
        long_step(args, vals, t)
    } else {
        short_steps(args, vals, t, 1)
    }
}

/// Appends one raw value token to a collecting `Many` slot, splitting it on
/// the delimiter when the argument asks for that.
pub open spec fn append_items(
    args: Seq<ArgSpecV>,
    vals: Seq<ValModel>,
    j: int,
    t: Seq<char>,
) -> Seq<ValModel> {
    let new = if args[j].delim {
        split_on(t, delim_char())
    } else {
        seq![t]
    };
    vals.update(j, ValModel::Values(prev_items(vals[j]) + new))
}

pub open spec fn to_state(r: Result<(Seq<ValModel>, PendingV), ErrModel>) -> Result<
    CollState,
    ErrModel,
> {
    match r {
        Result::Ok((vals, pending)) => Result::Ok(CollState { vals, pending }),
        Result::Err(e) => Result::Err(e),
    }
}

/// One token's effect on the collector state.
pub open spec fn step(args: Seq<ArgSpecV>, st: CollState, t: Seq<char>) -> Result<
    CollState,
    ErrModel,
> {
    match st.pending {
        PendingV::WantOne(j) => Result::Ok(
            CollState { vals: st.vals.update(j, ValModel::Single(t)), pending: PendingV::Idle },
        ),
        PendingV::InMany(j, got) => if is_flag_like(t) {
            if !got {
                Result::Err(ErrModel::MissingValueForArgument(args[j].name))
            } else {
                to_state(flag_step(args, st.vals, t))
            }
        } else {
            Result::Ok(
                CollState { vals: append_items(args, st.vals, j, t), pending: PendingV::InMany(j, true) },
            )
        },
        PendingV::Idle => if is_flag_like(t) {
            to_state(flag_step(args, st.vals, t))
        } else {
            Result::Err(ErrModel::UnexpectedValue(t))
        },
    }
}

/// End of the stream: an open value-taking flag still owes a value.
pub open spec fn finish(args: Seq<ArgSpecV>, st: CollState) -> Result<Seq<ValModel>, ErrModel> {
    match st.pending {
        PendingV::Idle => Result::Ok(st.vals),
        PendingV::WantOne(j) => Result::Err(ErrModel::MissingValueForArgument(args[j].name)),
        PendingV::InMany(j, got) => if got {
            Result::Ok(st.vals)
        } else {
            Result::Err(ErrModel::MissingValueForArgument(args[j].name))
        },
    }
}

pub open spec fn init_state(n: nat) -> CollState {
    CollState { vals: Seq::new(n, |i: int| ValModel::Missing), pending: PendingV::Idle }
}

pub open spec fn collect_from(args: Seq<ArgSpecV>, st: CollState, toks: Seq<Seq<char>>) -> Result<
    Seq<ValModel>,
    ErrModel,
>
    decreases toks.len(),
{
    if toks.len() == 0 {
        finish(args, st)
    } else {
        match step(args, st, toks[0]) {
            Result::Ok(st2) => collect_from(args, st2, toks.skip(1)),
            Result::Err(e) => Result::Err(e),
        }
    }
}

/// The collector's full specification: walk the tokens left to right from
/// the empty state, then close the stream.
pub open spec fn collect_spec(args: Seq<ArgSpecV>, toks: Seq<Seq<char>>) -> Result<
    Seq<ValModel>,
    ErrModel,
> {
    collect_from(args, init_state(args.len()), toks)
}

/// Indices held by the pending state stay inside the slot vector.
pub open spec fn pending_ok(p: PendingV, n: nat) -> bool {
    match p {
        PendingV::Idle => true,
        PendingV::WantOne(j) => 0 <= j < n,
        PendingV::InMany(j, got) => 0 <= j < n,
    }
}

// ---------------------------------------------------------------------------
// Executable collector
// ---------------------------------------------------------------------------

fn flag_like(t: &str) -> (r: bool)
    ensures
        r == is_flag_like(t@),
{
    t.unicode_len() >= 2 && t.get_char(0) == '-'
}

fn long_tok(t: &str) -> (r: bool)
    ensures
        r == is_long_tok(t@),
{
    t.unicode_len() >= 2 && t.get_char(0) == '-' && t.get_char(1) == '-'
}

fn find_long_idx(args: &Vec<ArgSpec>, name: &str) -> (r: Option<usize>)
    ensures
        match r {
            Option::Some(j) => find_long(args.deep_view(), name@) == Option::Some(j as int),
            Option::None => find_long(args.deep_view(), name@) is None,
        },
{
    let ghost av = args.deep_view();
    let mut i: usize = 0;
    while i < args.len()
        invariant
            i <= args.len(),
            av == args.deep_view(),
            av.len() == args.len(),
            find_from(av, by_long(name@), 0) == find_from(av, by_long(name@), i as int),
        decreases args.len() - i,
    {
        let hit = match &args[i].long {
            Option::Some(l) => str_eq(l.as_str(), name),
            Option::None => false,
        };
        proof {
            assert(av[i as int] == args[i as int]@);
            assert(hit == by_long(name@)(av[i as int]));
        }
        if hit {
            return Option::Some(i);
        }
        i = i + 1;
    }
    Option::None
}

fn find_short_idx(args: &Vec<ArgSpec>, c: char) -> (r: Option<usize>)
    ensures
        match r {
            Option::Some(j) => find_short(args.deep_view(), c) == Option::Some(j as int),
            Option::None => find_short(args.deep_view(), c) is None,
        },
{
    let ghost av = args.deep_view();
    let mut i: usize = 0;
    while i < args.len()
        invariant
            i <= args.len(),
            av == args.deep_view(),
            av.len() == args.len(),
            find_from(av, by_short(c), 0) == find_from(av, by_short(c), i as int),
        decreases args.len() - i,
    {
        let hit = match &args[i].short {
            Option::Some(s) => s.as_str().unicode_len() == 1 && s.as_str().get_char(0) == c,
            Option::None => false,
        };
        proof {
            assert(av[i as int] == args[i as int]@);
            if hit {
                let sv = args[i as int]@.short->Some_0;
                assert(sv =~= seq![c]);
            } else {
                if av[i as int].short is Some {
                    let sv = av[i as int].short->Some_0;
                    if sv == seq![c] {
                        assert(sv.len() == 1 && sv[0] == c);
                    }
                }
            }
            assert(hit == by_short(c)(av[i as int]));
        }
        if hit {
            return Option::Some(i);
        }
        i = i + 1;
    }
    Option::None
}

fn bump_exec(n: usize) -> (r: usize)
    ensures
        r as nat == bump(n as nat),
{
    if n < usize::MAX {
        n + 1
    } else {
        n
    }
}

/// Tallies one occurrence of the value-less argument in slot `j`.
fn bump_slot(vals: &mut Vec<CollectedValue>, j: usize)
    requires
        j < old(vals).len(),
    ensures
        final(vals).deep_view() == old(vals).deep_view().update(
            j as int,
            bump_val(old(vals).deep_view()[j as int]),
        ),
        final(vals).len() == old(vals).len(),
{
    let n: usize = match &vals[j] {
        CollectedValue::Count(c) => bump_exec(*c),
        _ => 1,
    };
    vals.set(j, CollectedValue::Count(n));
    proof {
        assert(vals.deep_view() =~= old(vals).deep_view().update(
            j as int,
            bump_val(old(vals).deep_view()[j as int]),
        ));
    }
}

/// Applies one recognized flag in slot `j` to the state.
fn apply_flag_exec(args: &Vec<ArgSpec>, vals: &mut Vec<CollectedValue>, j: usize) -> (p: Pending)
    requires
        j < args.len(),
        old(vals).len() == args.len(),
    ensures
        final(vals).len() == old(vals).len(),
        apply_flag(args.deep_view(), old(vals).deep_view(), j as int) == (final(vals).deep_view(), p@),
{
    match args[j].arity {
        Arity::NoValue => {
            bump_slot(vals, j);
            Pending::Idle
        },
        Arity::One => Pending::WantOne(j),
        Arity::Many => Pending::InMany(j, false),
    }
}

/// Routes one flag-like token: a long form, or a cluster of short forms.
fn handle_flag(args: &Vec<ArgSpec>, vals: &mut Vec<CollectedValue>, t: &str) -> (r: Result<
    Pending,
    ParseError,
>)
    requires
        is_flag_like(t@),
        old(vals).len() == args.len(),
    ensures
        final(vals).len() == old(vals).len(),
        match r {
            Result::Ok(p) => flag_step(args.deep_view(), old(vals).deep_view(), t@)
                == Result::Ok::<_, ErrModel>((final(vals).deep_view(), p@)),
            Result::Err(e) => flag_step(args.deep_view(), old(vals).deep_view(), t@)
                == Result::Err::<(Seq<ValModel>, PendingV), _>(e@),
        },
{
    let ghost av = args.deep_view();
    let n = t.unicode_len();
    if long_tok(t) {
        let name = t.substring_char(2, n);
        proof {
            assert(name@ =~= t@.skip(2));
        }
        if name.unicode_len() == 0 {
            return Result::Err(ParseError::UnknownArgument(String::from_str(t)));
        }
        match find_long_idx(args, name) {
            Option::Some(j) => {
                proof {
                    crate::schema::lemma_find_from_props(av, by_long(name@), 0);
                }
                let p = apply_flag_exec(args, vals, j);
                Result::Ok(p)
            },
            Option::None => Result::Err(ParseError::UnknownArgument(String::from_str(t))),
        }
    } else {
        let ghost vals0 = vals.deep_view();
        let mut k: usize = 1;
        proof {
            assert(!is_long_tok(t@));
        }
        while k < n
            invariant
                av == args.deep_view(),
                av.len() == args.len(),
                vals.len() == args.len(),
                old(vals).len() == args.len(),
                vals0 == old(vals).deep_view(),
                is_flag_like(t@),
                !is_long_tok(t@),
                n == t@.len(),
                1 <= k <= n,
                short_steps(av, vals0, t@, 1) == short_steps(av, vals.deep_view(), t@, k as int),
            decreases n - k,
        {
            let c = t.get_char(k);
            match find_short_idx(args, c) {
                Option::None => {
                    return Result::Err(ParseError::UnknownArgument(String::from_str(t)));
                },
                Option::Some(j) => {
                    proof {
                        crate::schema::lemma_find_from_props(av, by_short(t@[k as int]), 0);
                    }
                    match args[j].arity {
                        Arity::NoValue => {
                            bump_slot(vals, j);
                            k = k + 1;
                        },
                        _ => {
                            if k == n - 1 {
                                let p = apply_flag_exec(args, vals, j);
                                return Result::Ok(p);
                            } else {
                                return Result::Err(ParseError::MissingValueForArgument(
                                    args[j].name.clone(),
                                ));
                            }
                        },
                    }
                },
            }
        }
        Result::Ok(Pending::Idle)
    }
}

/// Clones a vector of strings; the model is unchanged.
fn clone_strings(v: &Vec<String>) -> (r: Vec<String>)
    ensures
        r.deep_view() == v.deep_view(),
{
    let mut r: Vec<String> = Vec::new();
    let mut i: usize = 0;
    while i < v.len()
        invariant
            i <= v.len(),
            r.len() == i,
            forall|x: int| 0 <= x < i ==> r@[x]@ == #[trigger] v@[x]@,
        decreases v.len() - i,
    {
        r.push(v[i].clone());
        i = i + 1;
    }
    proof {
        assert(r.deep_view() =~= v.deep_view());
    }
    r
}

/// Appends one raw value token to the collecting slot `j`.
fn append_slot(args: &Vec<ArgSpec>, vals: &mut Vec<CollectedValue>, j: usize, t: &str)
    requires
        j < args.len(),
        old(vals).len() == args.len(),
    ensures
        final(vals).len() == old(vals).len(),
        final(vals).deep_view() == append_items(args.deep_view(), old(vals).deep_view(), j as int, t@),
{
    let ghost prev = prev_items(old(vals).deep_view()[j as int]);
    let mut items: Vec<String> = match &vals[j] {
        CollectedValue::Values(vs) => clone_strings(vs),
        _ => Vec::new(),
    };
    proof {
        assert(items.deep_view() =~= prev);
    }
    let ghost plen = prev.len();
    if args[j].delim {
        let mut parts = split_delim(t, ',');
        let ghost gparts = parts.deep_view();
        let ghost full = prev + gparts;
        let mut x: usize = 0;
        proof {
            assert forall|y: int| 0 <= y < plen implies items@[y]@ == full[y] by {
                assert(items.deep_view()[y] == items@[y]@);
            }
        }
        while x < parts.len()
            invariant
                x <= parts.len(),
                gparts == parts.deep_view(),
                gparts.len() == parts.len(),
                full == prev + gparts,
                plen == prev.len(),
                items.len() == plen + x,
                forall|y: int| 0 <= y < plen + x ==> items@[y]@ == #[trigger] full[y],
            decreases parts.len() - x,
        {
            items.push(parts[x].clone());
            proof {
                assert(gparts[x as int] == parts@[x as int]@);
                assert(full[plen + x as int] == gparts[x as int]);
            }
            x = x + 1;
        }
        proof {
            assert(items.deep_view() =~= full);
        }
    } else {
        items.push(String::from_str(t));
        proof {
            assert(items.deep_view() =~= prev + seq![t@]);
        }
    }
    vals.set(j, CollectedValue::Values(items));
    proof {
        assert(vals.deep_view() =~= append_items(args.deep_view(), old(vals).deep_view(), j as int, t@));
    }
}

/// Walks the raw tokens once, producing one collected value per declared
/// argument, or the first collection error.
pub fn collect(cat: &Catalog, tokens: &Vec<String>) -> (r: Result<Vec<CollectedValue>, ParseError>)
    ensures
        match r {
            Result::Ok(vals) => collect_spec(cat@.args, tokens.deep_view()) == Result::Ok::<
                _,
                ErrModel,
            >(vals.deep_view()) && vals.len() == cat.args.len(),
            Result::Err(e) => collect_spec(cat@.args, tokens.deep_view()) == Result::Err::<
                Seq<ValModel>,
                _,
            >(e@),
        },
{
    let ghost av = cat@.args;
    let ghost toks = tokens.deep_view();
    let n_args = cat.args.len();
    let mut vals: Vec<CollectedValue> = Vec::new();
    let mut i: usize = 0;
    while i < n_args
        invariant
            i <= n_args,
            vals.len() == i,
            forall|x: int| 0 <= x < i ==> #[trigger] vals@[x]@ == ValModel::Missing,
        decreases n_args - i,
    {
        vals.push(CollectedValue::Missing);
        i = i + 1;
    }
    let mut pending = Pending::Idle;
    proof {
        assert(vals.deep_view() =~= init_state(av.len()).vals);
        assert(CollState { vals: vals.deep_view(), pending: pending@ } =~= init_state(av.len()));
        assert(toks.skip(0) =~= toks);
    }
    let mut idx: usize = 0;
    while idx < tokens.len()
        invariant
            idx <= tokens.len(),
            av == cat@.args,
            toks == tokens.deep_view(),
            toks.len() == tokens.len(),
            vals.len() == cat.args.len(),
            n_args == cat.args.len(),
            pending_ok(pending@, n_args as nat),
            collect_spec(av, toks) == collect_from(
                av,
                CollState { vals: vals.deep_view(), pending: pending@ },
                toks.skip(idx as int),
            ),
        decreases tokens.len() - idx,
    {
        let ghost st = CollState { vals: vals.deep_view(), pending: pending@ };
        let ghost rest = toks.skip(idx as int);
        proof {
            assert(rest.len() > 0);
            assert(rest[0] == toks[idx as int]);
            assert(rest.skip(1) =~= toks.skip(idx as int + 1));
            assert(tokens[idx as int]@ == toks[idx as int]);
        }
        let t: &String = &tokens[idx];
        match pending {
            Pending::WantOne(j) => {
                vals.set(j, CollectedValue::Single(t.clone()));
                pending = Pending::Idle;
                proof {
                    assert(vals.deep_view() =~= st.vals.update(j as int, ValModel::Single(toks[idx as int])));
                    assert(step(av, st, rest[0]) == Result::Ok::<_, ErrModel>(
                        CollState { vals: vals.deep_view(), pending: pending@ },
                    ));
                }
            },
            Pending::InMany(j, got) => {
                if flag_like(t.as_str()) {
                    if !got {
                        let e = ParseError::MissingValueForArgument(cat.args[j].name.clone());
                        proof {
                            assert(step(av, st, rest[0]) == Result::Err::<CollState, _>(e@));
                        }
                        return Result::Err(e);
                    }
                    match handle_flag(&cat.args, &mut vals, t.as_str()) {
                        Result::Ok(p) => {
                            pending = p;
                            proof {
                                assert(step(av, st, rest[0]) == Result::Ok::<_, ErrModel>(
                                    CollState { vals: vals.deep_view(), pending: pending@ },
                                ));
                            }
                        },
                        Result::Err(e) => {
                            proof {
                                assert(step(av, st, rest[0]) == Result::Err::<CollState, _>(e@));
                            }
                            return Result::Err(e);
                        },
                    }
                } else {
                    append_slot(&cat.args, &mut vals, j, t.as_str());
                    pending = Pending::InMany(j, true);
                    proof {
                        assert(step(av, st, rest[0]) == Result::Ok::<_, ErrModel>(
                            CollState { vals: vals.deep_view(), pending: pending@ },
                        ));
                    }
                }
            },
            Pending::Idle => {
                if flag_like(t.as_str()) {
                    match handle_flag(&cat.args, &mut vals, t.as_str()) {
                        Result::Ok(p) => {
                            pending = p;
                            proof {
                                assert(step(av, st, rest[0]) == Result::Ok::<_, ErrModel>(
                                    CollState { vals: vals.deep_view(), pending: pending@ },
                                ));
                            }
                        },
                        Result::Err(e) => {
                            proof {
                                assert(step(av, st, rest[0]) == Result::Err::<CollState, _>(e@));
                            }
                            return Result::Err(e);
                        },
                    }
                } else {
                    let e = ParseError::UnexpectedValue(t.clone());
                    proof {
                        assert(step(av, st, rest[0]) == Result::Err::<CollState, _>(e@));
                    }
                    return Result::Err(e);
                }
            },
        }
        proof {
            lemma_pending_stays_ok(av, st, rest[0], CollState { vals: vals.deep_view(), pending: pending@ });
        }
        idx = idx + 1;
    }
    proof {
        assert(toks.skip(toks.len() as int).len() == 0);
    }
    match pending {
        Pending::Idle => Result::Ok(vals),
        Pending::WantOne(j) => Result::Err(ParseError::MissingValueForArgument(cat.args[j].name.clone())),
        Pending::InMany(j, got) => {
            if got {
                Result::Ok(vals)
            } else {
                Result::Err(ParseError::MissingValueForArgument(cat.args[j].name.clone()))
            }
        },
    }
}

/// A successful step leaves the pending index inside the slot vector.
proof fn lemma_pending_stays_ok(args: Seq<ArgSpecV>, st: CollState, t: Seq<char>, st2: CollState)
    requires
        pending_ok(st.pending, st.vals.len()),
        st2.vals.len() == st.vals.len(),
        args.len() == st.vals.len(),
        step(args, st, t) == Result::Ok::<_, ErrModel>(st2),
    ensures
        pending_ok(st2.pending, st2.vals.len()),
{
    match st.pending {
        PendingV::WantOne(_) => {},
        PendingV::InMany(j, got) => {
            if is_flag_like(t) {
                lemma_flag_step_pending(args, st.vals, t);
            }
        },
        PendingV::Idle => {
            if is_flag_like(t) {
                lemma_flag_step_pending(args, st.vals, t);
            }
        },
    }
}

/// A successful flag step yields an in-range pending index.
proof fn lemma_flag_step_pending(args: Seq<ArgSpecV>, vals: Seq<ValModel>, t: Seq<char>)
    requires
        args.len() == vals.len(),
    ensures
        (flag_step(args, vals, t) matches Result::Ok((v2, p)) ==> v2.len() == vals.len()
            && pending_ok(p, vals.len())),
{
    if is_long_tok(t) {
        let name = t.skip(2);
        if name.len() > 0 {
            crate::schema::lemma_find_from_props(args, by_long(name), 0);
        }
    } else {
        lemma_short_steps_pending(args, vals, t, 1);
    }
}

proof fn lemma_short_steps_pending(args: Seq<ArgSpecV>, vals: Seq<ValModel>, t: Seq<char>, k: int)
    requires
        args.len() == vals.len(),
    ensures
        (short_steps(args, vals, t, k) matches Result::Ok((v2, p)) ==> v2.len() == vals.len()
            && pending_ok(p, vals.len())),
    decreases t.len() - k,
{
    if 0 <= k < t.len() {
        crate::schema::lemma_find_from_props(args, by_short(t[k]), 0);
        match find_short(args, t[k]) {
            Option::Some(j) => {
                if args[j].arity is NoValue {
                    lemma_short_steps_pending(args, vals.update(j, bump_val(vals[j])), t, k + 1);
                }
            },
            Option::None => {},
        }
    }
}

} // verus!
