//! The constraint validator: runs after collection, against the full set of
//! collected values, and reports the first violation in catalog declaration
//! order.

use vstd::prelude::*;

use crate::schema::ArgSpec;
use crate::schema::ArgSpecV;
use crate::schema::Catalog;
use crate::schema::Constraint;
use crate::schema::ConstraintV;
use crate::schema::by_name;
use crate::schema::find_name;
use crate::schema::find_name_idx;
use crate::schema::lemma_find_from_props;
use crate::values::CollectedValue;
use crate::values::ErrModel;
use crate::values::ParseError;
use crate::values::ValModel;
use crate::values::present;

verus! {

/// Whether the argument declared under name `n` is present; a name that is
/// not declared counts as absent.
pub open spec fn present_by_name(args: Seq<ArgSpecV>, vals: Seq<ValModel>, n: Seq<char>) -> bool {
    match find_name(args, n) {
        Option::Some(j) => present(vals[j]),
        Option::None => false,
    }
}

/// The violation, if any, of one constraint declared by argument `i`.
pub open spec fn check_constraint(
    args: Seq<ArgSpecV>,
    vals: Seq<ValModel>,
    i: int,
    c: ConstraintV,
) -> Option<ErrModel> {
    match c {
        ConstraintV::Required => if !present(vals[i]) {
            Option::Some(ErrModel::MissingRequiredArgument(args[i].name))
        } else {
            Option::None
        },
        ConstraintV::RequiredUnless(o) => if !present(vals[i]) && !present_by_name(args, vals, o) {
            Option::Some(ErrModel::MissingRequiredArgument(args[i].name))
        } else {
            Option::None
        },
        ConstraintV::ConflictsWith(o) => if present(vals[i]) && present_by_name(args, vals, o) {
            Option::Some(ErrModel::ConflictingArguments(args[i].name, o))
        } else {
            Option::None
        },
    }
}

/// First violated constraint of argument `i`, from constraint index `k` on.
pub open spec fn first_violation_from(
    args: Seq<ArgSpecV>,
    vals: Seq<ValModel>,
    i: int,
    k: int,
) -> Option<ErrModel>
    decreases args[i].constraints.len() - k,
{
    if k < 0 || k >= args[i].constraints.len() {
        Option::None
    } else {
        match check_constraint(args, vals, i, args[i].constraints[k]) {
            Option::Some(e) => Option::Some(e),
            Option::None => first_violation_from(args, vals, i, k + 1),
        }
    }
}

/// First violation in catalog declaration order, from argument `i` on.
pub open spec fn validate_from(args: Seq<ArgSpecV>, vals: Seq<ValModel>, i: int) -> Option<ErrModel>
    decreases args.len() - i,
{
    if i < 0 || i >= args.len() {
        Option::None
    } else {
        match first_violation_from(args, vals, i, 0) {
            Option::Some(e) => Option::Some(e),
            Option::None => validate_from(args, vals, i + 1),
        }
    }
}

/// The validator's full specification: the first violation in catalog
/// declaration order, or nothing when every constraint holds.
pub open spec fn validate_spec(args: Seq<ArgSpecV>, vals: Seq<ValModel>) -> Option<ErrModel> {
    validate_from(args, vals, 0)
}

// ---------------------------------------------------------------------------
// Executable validator
// ---------------------------------------------------------------------------

fn present_exec(v: &CollectedValue) -> (r: bool)
    ensures
        r == present(v@),
{
    match v {
        CollectedValue::Missing => false,
        CollectedValue::Single(_) => true,
        CollectedValue::Values(vs) => vs.len() > 0,
        CollectedValue::Count(n) => *n > 0,
    }
}

fn present_by_name_exec(args: &Vec<ArgSpec>, vals: &Vec<CollectedValue>, n: &str) -> (r: bool)
    requires
        vals.len() == args.len(),
    ensures
        r == present_by_name(args.deep_view(), vals.deep_view(), n@),
{
    match find_name_idx(args, n) {
        Option::Some(j) => {
            proof {
                lemma_find_from_props(args.deep_view(), by_name(n@), 0);
            }
            present_exec(&vals[j])
        },
        Option::None => false,
    }
}

fn check_constraint_exec(
    args: &Vec<ArgSpec>,
    vals: &Vec<CollectedValue>,
    i: usize,
    c: &Constraint,
) -> (r: Option<ParseError>)
    requires
        vals.len() == args.len(),
        i < args.len(),
    ensures
        match r {
            Option::Some(e) => check_constraint(args.deep_view(), vals.deep_view(), i as int, c@)
                == Option::Some(e@),
            Option::None => check_constraint(args.deep_view(), vals.deep_view(), i as int, c@)
                is None,
        },
{
    match c {
        Constraint::Required => {
            if !present_exec(&vals[i]) {
                Option::Some(ParseError::MissingRequiredArgument(args[i].name.clone()))
            } else {
                Option::None
            }
        },
        Constraint::RequiredUnless(o) => {
            if !present_exec(&vals[i]) && !present_by_name_exec(args, vals, o.as_str()) {
                Option::Some(ParseError::MissingRequiredArgument(args[i].name.clone()))
            } else {
                Option::None
            }
        },
        Constraint::ConflictsWith(o) => {
            if present_exec(&vals[i]) && present_by_name_exec(args, vals, o.as_str()) {
                Option::Some(ParseError::ConflictingArguments(args[i].name.clone(), o.clone()))
            } else {
                Option::None
            }
        },
    }
}

/// Checks every declared constraint against the collected values and returns
/// the first violation in catalog declaration order, or nothing.
pub fn validate(cat: &Catalog, vals: &Vec<CollectedValue>) -> (r: Option<ParseError>)
    requires
        vals.len() == cat.args.len(),
    ensures
        match r {
            Option::Some(e) => validate_spec(cat@.args, vals.deep_view()) == Option::Some(e@),
            Option::None => validate_spec(cat@.args, vals.deep_view()) is None,
        },
{
    let ghost av = cat@.args;
    let ghost dv = vals.deep_view();
    let mut i: usize = 0;
    while i < cat.args.len()
        invariant
            i <= cat.args.len(),
            av == cat@.args,
            dv == vals.deep_view(),
            av.len() == cat.args.len(),
            vals.len() == cat.args.len(),
            validate_from(av, dv, 0) == validate_from(av, dv, i as int),
        decreases cat.args.len() - i,
    {
        let cs: &Vec<Constraint> = &cat.args[i].constraints;
        proof {
            assert(av[i as int] == cat.args[i as int]@);
            assert(av[i as int].constraints == cs.deep_view());
        }
        let mut k: usize = 0;
        while k < cs.len()
            invariant
                k <= cs.len(),
                i < cat.args.len(),
                av == cat@.args,
                dv == vals.deep_view(),
                av.len() == cat.args.len(),
                vals.len() == cat.args.len(),
                cs == cat.args[i as int].constraints,
                av[i as int].constraints == cs.deep_view(),
                cs.deep_view().len() == cs.len(),
                validate_from(av, dv, 0) == validate_from(av, dv, i as int),
                first_violation_from(av, dv, i as int, 0) == first_violation_from(
                    av,
                    dv,
                    i as int,
                    k as int,
                ),
            decreases cs.len() - k,
        {
            proof {
                assert(cs.deep_view()[k as int] == cs[k as int]@);
            }
            match check_constraint_exec(&cat.args, vals, i, &cs[k]) {
                Option::Some(e) => {
                    proof {
                        assert(first_violation_from(av, dv, i as int, k as int) == Option::Some(e@));
                        assert(validate_from(av, dv, i as int) == Option::Some(e@));
                    }
                    return Option::Some(e);
                },
                Option::None => {
                    k = k + 1;
                },
            }
        }
        proof {
            assert(first_violation_from(av, dv, i as int, cs.len() as int) is None);
            assert(validate_from(av, dv, i as int) == validate_from(av, dv, i as int + 1));
        }
        i = i + 1;
    }
    Option::None
}

} // verus!
