//! Synthesises, from the method collection of a generic type, an interface
//! declaration over a chosen subset of its public methods and a conformance
//! block that forwards every promoted method to the annotated type.

use vstd::prelude::*;

pub mod config;
pub mod emit;
pub mod filter;
pub mod laws;
pub mod model;
pub mod select;
pub mod sequences;

use crate::config::{
    classify, configuration_of, is_classification, is_configuration, parse_configuration, Lexeme,
    LexemeView, Token,
};
use crate::emit::{conformance_for, emit_conformance, emit_interface};
use crate::filter::{
    filter_constraints, filter_generics, has_unsupported_subject, kept_constraints, kept_generics,
};
use crate::model::{
    views, Configuration, ConfigurationView, ConformanceBlockView, Expansion,
    InterfaceDeclarationView, Item, MethodCollection, MethodCollectionView, TransformError,
};
use crate::select::{promoted_signatures, select_methods};

verus! {

/// The interface that a configuration asks for of a method collection.
pub open spec fn interface_of(
    config: ConfigurationView,
    collection: MethodCollectionView,
) -> InterfaceDeclarationView {
    InterfaceDeclarationView {
        name: config.interface_name,
        kept_generics: kept_generics(collection.generics, config.erased_params),
        kept_constraints: kept_constraints(collection.constraints, config.erased_params),
        method_signatures: promoted_signatures(collection.items, config.erased_params),
    }
}

/// The conformance block that goes with `interface_of`: it is declared with
/// the generic parameters and constraints of the type as they stand, refers
/// to that interface and forwards exactly its methods.
pub open spec fn conformance_of(
    config: ConfigurationView,
    collection: MethodCollectionView,
) -> ConformanceBlockView {
    conformance_for(
        collection,
        config.interface_name,
        kept_generics(collection.generics, config.erased_params),
        promoted_signatures(collection.items, config.erased_params),
    )
}

/// Applies a parsed configuration to a method collection. The collection is
/// handed back untouched as the first segment of the output. The one failure
/// is a constraint predicate whose subject is no plain named path.
pub fn expand(config: &Configuration, collection: MethodCollection) -> (result: Result<
    Expansion,
    TransformError,
>)
    ensures
        match result {
            Ok(expansion) => {
                &&& !has_unsupported_subject(collection@.constraints)
                &&& expansion.passthrough == collection
                &&& expansion.interface@ == interface_of(config@, collection@)
                &&& expansion.conformance@ == conformance_of(config@, collection@)
            },
            Err(error) => error == TransformError::UnsupportedConstraintSubject
                && has_unsupported_subject(collection@.constraints),
        },
{
    let erased = &config.erased_params;
    let kept_constraints = match filter_constraints(&collection.constraints, erased) {
        Ok(kept) => kept,
        Err(error) => {
            return Err(error);
        },
    };
    let kept_generics = filter_generics(&collection.generics, erased);
    let signatures = select_methods(&collection.items, erased);
    let conformance = emit_conformance(
        &collection,
        config.interface_name.clone(),
        &kept_generics,
        &signatures,
    );
    let interface = emit_interface(
        config.interface_name.clone(),
        kept_generics,
        kept_constraints,
        signatures,
    );
    Ok(Expansion { passthrough: collection, interface, conformance })
}

/// The failure of a transformation, if it has one: the configuration is read
/// first, then the kind of the item, then its constraint clause.
pub open spec fn failure_of(lexemes: Seq<LexemeView>, input: Item) -> Option<TransformError> {
    if !is_configuration(lexemes) {
        Some(TransformError::MalformedConfiguration)
    } else {
        match input {
            Item::Other(_) => Some(TransformError::MalformedMethodCollection),
            Item::MethodCollection(collection) => if has_unsupported_subject(
                collection@.constraints,
            ) {
                Some(TransformError::UnsupportedConstraintSubject)
            } else {
                None
            },
        }
    }
}

/// What a successful transformation of `input` under the configuration
/// written as `lexemes` looks like.
pub open spec fn is_expansion_of(expansion: Expansion, lexemes: Seq<LexemeView>, input: Item) -> bool {
    &&& input is MethodCollection
    &&& expansion.passthrough == input->MethodCollection_0
    &&& expansion.interface@ == interface_of(configuration_of(lexemes), input->MethodCollection_0@)
    &&& expansion.conformance@ == conformance_of(
        configuration_of(lexemes),
        input->MethodCollection_0@,
    )
}

/// `result` is what the transformation of `input` under the configuration
/// written as `lexemes` gives: the failure where there is one, and else the
/// expansion.
pub open spec fn is_outcome(
    result: Result<Expansion, TransformError>,
    lexemes: Seq<LexemeView>,
    input: Item,
) -> bool {
    match result {
        Ok(expansion) => failure_of(lexemes, input) is None && is_expansion_of(
            expansion,
            lexemes,
            input,
        ),
        Err(error) => failure_of(lexemes, input) == Some(error),
    }
}

/// The transformation on a configuration whose words are already told apart.
pub fn transform(lexemes: &Vec<Lexeme>, input: Item) -> (result: Result<Expansion, TransformError>)
    ensures
        is_outcome(result, views(lexemes@), input),
{
    let config = match parse_configuration(lexemes) {
        Ok(config) => config,
        Err(error) => {
            return Err(error);
        },
    };
    match input {
        Item::MethodCollection(collection) => expand(&config, collection),
        Item::Other(_) => Err(TransformError::MalformedMethodCollection),
    }
}

/// The whole transformation: from the tokens of a configuration and the
/// annotated item to the item itself, the interface and the conformance
/// block. Which words are identifiers is for the host's parser to say, so
/// the result is that of `transform` on some classification of the tokens.
/// Whatever the classification, a successful result hands the collection
/// back as it came.
pub fn traitify(args: &Vec<Token>, input: Item) -> (result: Result<Expansion, TransformError>)
    ensures
        exists|lexemes: Seq<LexemeView>| #[trigger]
            is_classification(views(args@), lexemes) && is_outcome(result, lexemes, input),
        result matches Ok(expansion) ==> input is MethodCollection && expansion.passthrough
            == input->MethodCollection_0,
        input is Other ==> result is Err,
{
    let lexemes = classify(args);
    let result = transform(&lexemes, input);
    assert(is_classification(views(args@), views(lexemes@)) && is_outcome(
        result,
        views(lexemes@),
        input,
    ));
    result
}

} // verus!
