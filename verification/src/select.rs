//! The method selector and rewriter: which methods of a collection are
//! promoted into the interface, and with what signature.

use vstd::prelude::*;
use crate::model::{
    contains_text, views, CollectionItem, CollectionItemView, MethodSignature,
    MethodSignatureView, Visibility,
};
use crate::sequences::lemma_filter_prefix_step;

verus! {

/// Some parameter's declared type is, as text, an erased name.
pub open spec fn mentions_erased(sig: MethodSignatureView, erased: Seq<Seq<char>>) -> bool {
    exists|k: int| 0 <= k < sig.parameters.len() && erased.contains((#[trigger] sig.parameters[k]).ty)
}

/// A method is promoted only if it is public, not const, has no foreign ABI
/// and takes no parameter of an erased type.
pub open spec fn is_eligible(sig: MethodSignatureView, erased: Seq<Seq<char>>) -> bool {
    &&& sig.visibility == Visibility::Public
    &&& !sig.is_const
    &&& !sig.has_foreign_abi
    &&& !mentions_erased(sig, erased)
}

pub open spec fn is_promoted(item: CollectionItemView, erased: Seq<Seq<char>>) -> bool {
    match item {
        CollectionItemView::Method { signature, .. } => is_eligible(signature, erased),
        CollectionItemView::Other { .. } => false,
    }
}

pub open spec fn promoter(erased: Seq<Seq<char>>) -> spec_fn(CollectionItemView) -> bool {
    |item: CollectionItemView| is_promoted(item, erased)
}

/// The predicate that requires the implementing type to be concrete.
pub open spec fn sized_predicate() -> Seq<char> {
    "Self: Sized"@
}

/// The signature as the interface declares it: a method without a receiver
/// gains the sizedness predicate at the end of its own constraint clause, and
/// nothing else changes.
pub open spec fn rewritten(sig: MethodSignatureView) -> MethodSignatureView {
    if sig.receiver is None {
        MethodSignatureView { constraints: sig.constraints.push(sized_predicate()), ..sig }
    } else {
        sig
    }
}

pub open spec fn rewritten_item(item: CollectionItemView) -> MethodSignatureView {
    match item {
        CollectionItemView::Method { signature, .. } => rewritten(signature),
        CollectionItemView::Other { .. } => arbitrary(),
    }
}

/// The rewritten signatures of the promoted methods, one for each, in
/// declaration order.
pub open spec fn promoted_signatures(
    items: Seq<CollectionItemView>,
    erased: Seq<Seq<char>>,
) -> Seq<MethodSignatureView> {
    items.filter(promoter(erased)).map_values(|item: CollectionItemView| rewritten_item(item))
}

pub fn takes_erased_type(sig: &MethodSignature, erased: &Vec<String>) -> (found: bool)
    ensures
        found == mentions_erased(sig@, views(erased@)),
{
    let mut k: usize = 0;
    while k < sig.parameters.len()
        invariant
            k <= sig.parameters.len(),
            forall|j: int| 0 <= j < k ==> !views(erased@).contains((#[trigger] sig@.parameters[j]).ty),
        decreases sig.parameters.len() - k,
    {
        if contains_text(erased, &sig.parameters[k].ty) {
            assert(views(erased@).contains(sig@.parameters[k as int].ty));
            return true;
        }
        k += 1;
    }
    false
}

pub fn is_eligible_method(sig: &MethodSignature, erased: &Vec<String>) -> (eligible: bool)
    ensures
        eligible == is_eligible(sig@, views(erased@)),
{
    let public = match sig.visibility {
        Visibility::Public => true,
        _ => false,
    };
    public && !sig.is_const && !sig.has_foreign_abi && !takes_erased_type(sig, erased)
}

pub fn rewrite_signature(sig: &MethodSignature) -> (out: MethodSignature)
    ensures
        out@ == rewritten(sig@),
{
    let mut out = sig.duplicate();
    if out.receiver.is_none() {
        let ghost before = out.constraints@;
        out.constraints.push("Self: Sized".to_owned());
        assert(views(out.constraints@) =~= views(before).push(sized_predicate()));
    }
    out
}

pub fn select_methods(items: &Vec<CollectionItem>, erased: &Vec<String>) -> (promoted: Vec<
    MethodSignature,
>)
    ensures
        views(promoted@) == promoted_signatures(views(items@), views(erased@)),
{
    let mut promoted: Vec<MethodSignature> = Vec::new();
    let mut i: usize = 0;
    proof {
        reveal(Seq::filter);
        assert(views(promoted@) =~= promoted_signatures(views(items@).take(0), views(erased@)));
    }
    while i < items.len()
        invariant
            i <= items.len(),
            views(promoted@) == promoted_signatures(views(items@).take(i as int), views(erased@)),
        decreases items.len() - i,
    {
        proof {
            lemma_filter_prefix_step(views(items@), i as int, promoter(views(erased@)));
        }
        let ghost chosen = views(items@).take(i as int).filter(promoter(views(erased@)));
        match &items[i] {
            CollectionItem::Method { signature, .. } => {
                if is_eligible_method(signature, erased) {
                    let ghost before = promoted@;
                    promoted.push(rewrite_signature(signature));
                    assert(views(promoted@) =~= views(before).push(rewritten(signature@)));
                    assert(chosen.push(views(items@)[i as int]).map_values(
                        |item: CollectionItemView| rewritten_item(item),
                    ) =~= chosen.map_values(|item: CollectionItemView| rewritten_item(item)).push(
                        rewritten(signature@),
                    ));
                }
            },
            CollectionItem::Other { .. } => {},
        }
        i += 1;
    }
    assert(views(items@).take(items.len() as int) =~= views(items@));
    promoted
}

} // verus!
