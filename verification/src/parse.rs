//! The whole parse operation: collect, then validate, then freeze the
//! resolved configuration.

use vstd::prelude::*;

use crate::collect::collect;
use crate::collect::collect_spec;
use crate::schema::Catalog;
use crate::schema::CatalogV;
use crate::schema::by_name;
use crate::schema::find_name;
use crate::schema::find_name_idx;
use crate::schema::lemma_find_from_props;
use crate::validate::validate;
use crate::validate::validate_spec;
use crate::values::CollectedValue;
use crate::values::ErrModel;
use crate::values::ParseError;
use crate::values::ValModel;

verus! {

/// The final, immutable mapping from declared argument to collected value,
/// one slot per catalog entry, in declaration order.
#[derive(Debug)]
pub struct ResolvedConfiguration {
    pub values: Vec<CollectedValue>,
}

impl View for ResolvedConfiguration {
    type V = Seq<ValModel>;

    open spec fn view(&self) -> Seq<ValModel> {
        self.values.deep_view()
    }
}

/// What a whole parse returns: the collected values when collection and
/// validation both succeed, otherwise the first error.
pub open spec fn parse_spec(cat: CatalogV, toks: Seq<Seq<char>>) -> Result<Seq<ValModel>, ErrModel> {
    match collect_spec(cat.args, toks) {
        Result::Err(e) => Result::Err(e),
        Result::Ok(vals) => match validate_spec(cat.args, vals) {
            Option::Some(e) => Result::Err(e),
            Option::None => Result::Ok(vals),
        },
    }
}

/// Parses the raw tokens against the catalog: collects values left to
/// right, then checks every cross-argument constraint.  Returns the frozen
/// configuration, or the first error; no partial configuration escapes.
pub fn parse(cat: &Catalog, tokens: &Vec<String>) -> (r: Result<ResolvedConfiguration, ParseError>)
    ensures
        match r {
            Result::Ok(cfg) => parse_spec(cat@, tokens.deep_view()) == Result::Ok::<_, ErrModel>(
                cfg@,
            ) && cfg.values.len() == cat.args.len(),
            Result::Err(e) => parse_spec(cat@, tokens.deep_view()) == Result::Err::<
                Seq<ValModel>,
                _,
            >(e@),
        },
{
    match collect(cat, tokens) {
        Result::Err(e) => Result::Err(e),
        Result::Ok(vals) => match validate(cat, &vals) {
            Option::Some(e) => Result::Err(e),
            Option::None => Result::Ok(ResolvedConfiguration { values: vals }),
        },
    }
}

impl ResolvedConfiguration {
    /// Looks a collected value up by the argument's canonical name.
    pub fn value_of<'a>(&'a self, cat: &Catalog, name: &str) -> (r: Option<&'a CollectedValue>)
        requires
            self.values.len() == cat.args.len(),
        ensures
            match find_name(cat@.args, name@) {
                Option::Some(j) => r matches Option::Some(v) && v@ == self@[j],
                Option::None => r is None,
            },
    {
        match find_name_idx(&cat.args, name) {
            Option::Some(j) => {
                proof {
                    lemma_find_from_props(cat@.args, by_name(name@), 0);
                }
                Option::Some(&self.values[j])
            },
            Option::None => Option::None,
        }
    }
}

} // verus!
