//! The generic filter: which generic parameters and constraint predicates of
//! the annotated type survive on the generated interface.

use vstd::prelude::*;
use crate::model::{
    contains_text, views, ConstraintPredicate, ConstraintPredicateView, GenericParameter,
    GenericParameterView, TransformError,
};
use crate::sequences::lemma_filter_prefix_step;

verus! {

/// A lifetime is always kept; a type or const parameter is kept unless its
/// name is erased.
pub open spec fn keeps_parameter(param: GenericParameterView, erased: Seq<Seq<char>>) -> bool {
    match param {
        GenericParameterView::Lifetime { .. } => true,
        GenericParameterView::TypeParameter { name, .. } => !erased.contains(name),
        GenericParameterView::ConstParameter { name, .. } => !erased.contains(name),
    }
}

pub open spec fn parameter_keeper(erased: Seq<Seq<char>>) -> spec_fn(GenericParameterView) -> bool {
    |param: GenericParameterView| keeps_parameter(param, erased)
}

/// The generic parameter list of the interface: the kept parameters, in the
/// order in which the type declares them.
pub open spec fn kept_generics(
    params: Seq<GenericParameterView>,
    erased: Seq<Seq<char>>,
) -> Seq<GenericParameterView> {
    params.filter(parameter_keeper(erased))
}

/// A lifetime predicate is always kept; a type predicate is kept unless the
/// text of its subject's path is erased.
pub open spec fn keeps_predicate(pred: ConstraintPredicateView, erased: Seq<Seq<char>>) -> bool {
    match pred {
        ConstraintPredicateView::LifetimePredicate { .. } => true,
        ConstraintPredicateView::TypePredicate { path: Some(text), .. } => !erased.contains(text),
        ConstraintPredicateView::TypePredicate { path: None, .. } => true,
    }
}

pub open spec fn predicate_keeper(erased: Seq<Seq<char>>) -> spec_fn(ConstraintPredicateView) -> bool {
    |pred: ConstraintPredicateView| keeps_predicate(pred, erased)
}

/// The constraint clause of the interface: the kept predicates, in the order
/// in which the type states them.
pub open spec fn kept_constraints(
    preds: Seq<ConstraintPredicateView>,
    erased: Seq<Seq<char>>,
) -> Seq<ConstraintPredicateView> {
    preds.filter(predicate_keeper(erased))
}

/// The subject of a type predicate that is no plain named path cannot be
/// matched against the erased names.
pub open spec fn is_unsupported(pred: ConstraintPredicateView) -> bool {
    match pred {
        ConstraintPredicateView::LifetimePredicate { .. } => false,
        ConstraintPredicateView::TypePredicate { path, .. } => path is None,
    }
}

pub open spec fn has_unsupported_subject(preds: Seq<ConstraintPredicateView>) -> bool {
    exists|i: int| 0 <= i < preds.len() && is_unsupported(#[trigger] preds[i])
}

pub fn filter_generics(params: &Vec<GenericParameter>, erased: &Vec<String>) -> (kept: Vec<
    GenericParameter,
>)
    ensures
        views(kept@) == kept_generics(views(params@), views(erased@)),
{
    let mut kept: Vec<GenericParameter> = Vec::new();
    let mut i: usize = 0;
    proof {
        reveal(Seq::filter);
        assert(views(kept@) =~= kept_generics(views(params@).take(0), views(erased@)));
    }
    while i < params.len()
        invariant
            i <= params.len(),
            views(kept@) == kept_generics(views(params@).take(i as int), views(erased@)),
        decreases params.len() - i,
    {
        let keep = match &params[i] {
            GenericParameter::Lifetime { .. } => true,
            GenericParameter::TypeParameter { name, .. } => !contains_text(erased, name),
            GenericParameter::ConstParameter { name, .. } => !contains_text(erased, name),
        };
        proof {
            lemma_filter_prefix_step(views(params@), i as int, parameter_keeper(views(erased@)));
        }
        if keep {
            let ghost before = kept@;
            kept.push(params[i].duplicate());
            assert(views(kept@) =~= views(before).push(params@[i as int]@));
        }
        i += 1;
    }
    assert(views(params@).take(params.len() as int) =~= views(params@));
    kept
}

pub fn filter_constraints(preds: &Vec<ConstraintPredicate>, erased: &Vec<String>) -> (result: Result<
    Vec<ConstraintPredicate>,
    TransformError,
>)
    ensures
        match result {
            Ok(kept) => !has_unsupported_subject(views(preds@)) && views(kept@) == kept_constraints(
                views(preds@),
                views(erased@),
            ),
            Err(error) => error == TransformError::UnsupportedConstraintSubject
                && has_unsupported_subject(views(preds@)),
        },
{
    let mut kept: Vec<ConstraintPredicate> = Vec::new();
    let mut i: usize = 0;
    proof {
        reveal(Seq::filter);
        assert(views(kept@) =~= kept_constraints(views(preds@).take(0), views(erased@)));
    }
    while i < preds.len()
        invariant
            i <= preds.len(),
            views(kept@) == kept_constraints(views(preds@).take(i as int), views(erased@)),
            forall|j: int| 0 <= j < i ==> !is_unsupported(#[trigger] views(preds@)[j]),
        decreases preds.len() - i,
    {
        let keep = match &preds[i] {
            ConstraintPredicate::LifetimePredicate { .. } => true,
            ConstraintPredicate::TypePredicate { path, .. } => match path {
                Some(text) => !contains_text(erased, text),
                None => {
                    assert(is_unsupported(views(preds@)[i as int]));
                    return Err(TransformError::UnsupportedConstraintSubject);
                },
            },
        };
        proof {
            lemma_filter_prefix_step(views(preds@), i as int, predicate_keeper(views(erased@)));
        }
        if keep {
            let ghost before = kept@;
            kept.push(preds[i].duplicate());
            assert(views(kept@) =~= views(before).push(preds@[i as int]@));
        }
        i += 1;
    }
    assert(views(preds@).take(preds.len() as int) =~= views(preds@));
    Ok(kept)
}

} // verus!
