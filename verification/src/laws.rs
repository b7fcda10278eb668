//! What holds of every transformation, stated over the same spec functions
//! as the contracts and proved from them.

use vstd::prelude::*;
use crate::config::{is_classification, is_reserved, LexemeView, TokenView};
use crate::filter::{keeps_parameter, parameter_keeper};
use crate::model::{
    CallArgumentView, ConfigurationView, Expansion, GenericParameterView, Item,
    MethodCollectionView, MethodSignatureView, TransformError,
};
use crate::select::{is_promoted, promoter, rewritten, rewritten_item, sized_predicate};
use crate::sequences::{is_subsequence, lemma_filter_agree, lemma_filter_is_subsequence};
use crate::{conformance_of, interface_of, is_outcome};

verus! {

/// The generic parameters of the interface are taken from those of the
/// annotated type without reordering, and none of its type or const
/// parameters bears an erased name.
pub proof fn lemma_interface_generics(config: ConfigurationView, collection: MethodCollectionView)
    ensures
        is_subsequence(interface_of(config, collection).kept_generics, collection.generics),
        forall|j: int|
            0 <= j < interface_of(config, collection).kept_generics.len() ==> keeps_parameter(
                #[trigger] interface_of(config, collection).kept_generics[j],
                config.erased_params,
            ),
{
    let keeper = parameter_keeper(config.erased_params);
    let kept = interface_of(config, collection).kept_generics;
    lemma_filter_is_subsequence(collection.generics, keeper);
    assert forall|j: int| 0 <= j < kept.len() implies keeps_parameter(
        #[trigger] kept[j],
        config.erased_params,
    ) by {
        collection.generics.lemma_filter_pred(keeper, j);
    }
}

/// The name by which a generic parameter is matched.
pub open spec fn parameter_name(param: GenericParameterView) -> Seq<char> {
    match param {
        GenericParameterView::Lifetime { name, .. } => name,
        GenericParameterView::TypeParameter { name, .. } => name,
        GenericParameterView::ConstParameter { name, .. } => name,
    }
}

/// Where no lifetime of the type is named like an erased parameter, the
/// names of the interface's generic parameters and the erased names are
/// disjoint. A lifetime is never erased, so one that bears an erased name
/// would stay.
pub proof fn lemma_interface_generics_disjoint(
    config: ConfigurationView,
    collection: MethodCollectionView,
)
    requires
        forall|i: int|
            0 <= i < collection.generics.len() && (
            #[trigger] collection.generics[i]) is Lifetime ==> !config.erased_params.contains(
                parameter_name(collection.generics[i]),
            ),
    ensures
        forall|j: int|
            0 <= j < interface_of(config, collection).kept_generics.len()
                ==> !config.erased_params.contains(
                parameter_name(#[trigger] interface_of(config, collection).kept_generics[j]),
            ),
{
    let keeper = parameter_keeper(config.erased_params);
    let kept = interface_of(config, collection).kept_generics;
    assert forall|j: int| 0 <= j < kept.len() implies !config.erased_params.contains(
        parameter_name(#[trigger] kept[j]),
    ) by {
        collection.generics.lemma_filter_pred(keeper, j);
        assert(kept.contains(kept[j]));
        collection.generics.lemma_filter_contains_rev(keeper, kept[j]);
        let i = choose|i: int|
            0 <= i < collection.generics.len() && collection.generics[i] == kept[j];
        assert(collection.generics[i] == kept[j]);
    }
}

/// A parameter is on the interface exactly if the annotated type has it and
/// the configuration keeps it.
pub proof fn lemma_interface_generics_exact(
    config: ConfigurationView,
    collection: MethodCollectionView,
    param: GenericParameterView,
)
    ensures
        interface_of(config, collection).kept_generics.contains(param) <==> (
        collection.generics.contains(param) && keeps_parameter(param, config.erased_params)),
{
    let keeper = parameter_keeper(config.erased_params);
    let kept = collection.generics.filter(keeper);
    if kept.contains(param) {
        collection.generics.lemma_filter_contains_rev(keeper, param);
        let j = choose|j: int| 0 <= j < kept.len() && kept[j] == param;
        collection.generics.lemma_filter_pred(keeper, j);
    }
    if collection.generics.contains(param) && keeps_parameter(param, config.erased_params) {
        let i = choose|i: int| 0 <= i < collection.generics.len() && collection.generics[i] == param;
        collection.generics.lemma_filter_contains(keeper, i);
    }
}

/// The interface has one entry for each promoted method, in declaration
/// order: entry `j` is the rewritten signature of the `j`-th item that is a
/// public, non-const method without foreign ABI and without a parameter of an
/// erased type. No other item has an entry.
pub proof fn lemma_interface_methods(config: ConfigurationView, collection: MethodCollectionView)
    ensures
        ({
            let chosen = collection.items.filter(promoter(config.erased_params));
            let entries = interface_of(config, collection).method_signatures;
            &&& is_subsequence(chosen, collection.items)
            &&& entries.len() == chosen.len()
            &&& forall|j: int|
                0 <= j < chosen.len() ==> is_promoted(#[trigger] chosen[j], config.erased_params)
                    && entries[j] == rewritten_item(chosen[j])
            &&& forall|i: int|
                0 <= i < collection.items.len() && is_promoted(
                    collection.items[i],
                    config.erased_params,
                ) ==> chosen.contains(#[trigger] collection.items[i])
        }),
{
    let pick = promoter(config.erased_params);
    let chosen = collection.items.filter(pick);
    lemma_filter_is_subsequence(collection.items, pick);
    assert forall|j: int| 0 <= j < chosen.len() implies is_promoted(
        #[trigger] chosen[j],
        config.erased_params,
    ) by {
        collection.items.lemma_filter_pred(pick, j);
    }
    assert forall|i: int|
        0 <= i < collection.items.len() && is_promoted(
            collection.items[i],
            config.erased_params,
        ) implies chosen.contains(#[trigger] collection.items[i]) by {
        collection.items.lemma_filter_contains(pick, i);
    }
}

/// A method without a receiver gets one more constraint on the interface
/// than it had, the sizedness predicate, at the end; a method with a receiver
/// is declared as it was.
pub proof fn lemma_sizedness_added(sig: MethodSignatureView)
    ensures
        sig.receiver is None ==> rewritten(sig).constraints.len() == sig.constraints.len() + 1
            && rewritten(sig).constraints.last() == sized_predicate() && rewritten(
            sig,
        ).constraints.drop_last() == sig.constraints,
        sig.receiver is Some ==> rewritten(sig) == sig,
        rewritten(sig).qualifiers == sig.qualifiers,
        rewritten(sig).name == sig.name,
        rewritten(sig).receiver == sig.receiver,
        rewritten(sig).parameters == sig.parameters,
        rewritten(sig).generics == sig.generics,
        rewritten(sig).return_type == sig.return_type,
{
    if sig.receiver is None {
        assert(rewritten(sig).constraints.drop_last() =~= sig.constraints);
    }
}

/// The conformance block is declared for the type of the collection, with
/// its generic parameters and constraints as they stand, and refers to the
/// interface of the same configuration. It has one forwarding method for each
/// entry of the interface, with the entry's signature. Its body calls the method of the
/// same name and passes `self` first where there is a receiver, then every
/// parameter by its own pattern, in the order of the signature.
pub proof fn lemma_forwarding(config: ConfigurationView, collection: MethodCollectionView, j: int)
    requires
        0 <= j < interface_of(config, collection).method_signatures.len(),
    ensures
        ({
            let sig = interface_of(config, collection).method_signatures[j];
            let block = conformance_of(config, collection);
            let method = block.forwarding_methods[j];
            let shift: int = if sig.receiver is Some { 1 } else { 0 };
            &&& block.interface_name == interface_of(config, collection).name
            &&& block.generics == collection.generics
            &&& block.constraints == collection.constraints
            &&& block.target_type == collection.target_type
            &&& block.forwarding_methods.len() == interface_of(
                config,
                collection,
            ).method_signatures.len()
            &&& method.signature == sig
            &&& method.callee == sig.name
            &&& method.arguments.len() == sig.parameters.len() + shift
            &&& sig.receiver is Some ==> method.arguments[0] == CallArgumentView::Receiver
            &&& forall|k: int|
                0 <= k < sig.parameters.len() ==> #[trigger] method.arguments[k + shift]
                    == CallArgumentView::Pattern(sig.parameters[k].pattern)
        }),
{
}

/// A reserved word cannot name the interface: however the other words are
/// told apart, a configuration that begins with one is malformed.
pub proof fn lemma_reserved_name_is_refused(
    tokens: Seq<TokenView>,
    lexemes: Seq<LexemeView>,
    input: Item,
    result: Result<Expansion, TransformError>,
)
    requires
        tokens.len() > 0,
        tokens[0] is Word,
        is_reserved(tokens[0]->Word_0),
        is_classification(tokens, lexemes),
        is_outcome(result, lexemes, input),
    ensures
        result == Err::<Expansion, TransformError>(TransformError::MalformedConfiguration),
{
    assert(crate::config::classifies(tokens[0], lexemes[0]));
}

/// Two configurations applied to one collection promote the same methods,
/// provided that they agree on which methods take a parameter of an erased
/// type; the generic parameters of each interface go by its own erased names.
pub proof fn lemma_stacked_configurations(
    first: ConfigurationView,
    second: ConfigurationView,
    collection: MethodCollectionView,
)
    requires
        forall|i: int|
            0 <= i < collection.items.len() ==> is_promoted(
                #[trigger] collection.items[i],
                first.erased_params,
            ) == is_promoted(collection.items[i], second.erased_params),
    ensures
        interface_of(first, collection).method_signatures == interface_of(
            second,
            collection,
        ).method_signatures,
        forall|param: GenericParameterView| #[trigger]
            collection.generics.contains(param) ==> (interface_of(
                first,
                collection,
            ).kept_generics.contains(param) <==> keeps_parameter(param, first.erased_params)),
        forall|param: GenericParameterView| #[trigger]
            collection.generics.contains(param) ==> (interface_of(
                second,
                collection,
            ).kept_generics.contains(param) <==> keeps_parameter(param, second.erased_params)),
{
    assert forall|param: GenericParameterView| #[trigger]
        collection.generics.contains(param) implies (interface_of(
        first,
        collection,
    ).kept_generics.contains(param) <==> keeps_parameter(param, first.erased_params)) by {
        lemma_interface_generics_exact(first, collection, param);
    }
    assert forall|param: GenericParameterView| #[trigger]
        collection.generics.contains(param) implies (interface_of(
        second,
        collection,
    ).kept_generics.contains(param) <==> keeps_parameter(param, second.erased_params)) by {
        lemma_interface_generics_exact(second, collection, param);
    }
    lemma_filter_agree(
        collection.items,
        promoter(first.erased_params),
        promoter(second.erased_params),
    );
}

} // verus!
