use traitify_core::config::{Delimiter, Lexeme};
use traitify_core::emit::{emit_conformance, emit_interface, forwarding_method, generic_argument};
use traitify_core::filter::{filter_constraints, filter_generics};
use traitify_core::model::{
    CallArgument, CollectionItem, Configuration, ConstraintPredicate, GenericArgument,
    GenericParameter, Item, MethodCollection, MethodSignature, Parameter, Receiver, ReceiverKind,
    TransformError, Visibility,
};
use traitify_core::select::select_methods;
use traitify_core::{expand, transform};

fn text(s: &str) -> String {
    s.to_string()
}

fn type_param(name: &str) -> GenericParameter {
    GenericParameter::TypeParameter { name: text(name), bounds: text("Copy") }
}

fn const_param(name: &str) -> GenericParameter {
    GenericParameter::ConstParameter { name: text(name), ty: text("usize") }
}

fn on(subject: &str) -> ConstraintPredicate {
    ConstraintPredicate::TypePredicate {
        binder: String::new(),
        subject: text(subject),
        path: Some(text(subject)),
        bounds: text("Default"),
    }
}

fn getter(name: &str, visibility: Visibility) -> MethodSignature {
    MethodSignature {
        qualifiers: text("unsafe"),
        name: text(name),
        receiver: Some(Receiver {
            kind: ReceiverKind::Reference,
            declaration: text("& 'a self"),
        }),
        parameters: vec![Parameter { attributes: String::new(), pattern: text("at"), ty: text("usize") }],
        generics: String::new(),
        constraints: Vec::new(),
        return_type: text("u8"),
        visibility,
        is_const: false,
        has_foreign_abi: false,
    }
}

fn sample() -> MethodCollection {
    MethodCollection {
        attributes: vec![text("# [allow (dead_code)]")],
        generics: vec![type_param("A"), const_param("N"), type_param("B")],
        constraints: vec![on("A"), on("B"), on("A")],
        target_type: text("Grid < A , N , B >"),
        items: vec![
            CollectionItem::Method { signature: getter("first", Visibility::Public), body: text("{ 0 }") },
            CollectionItem::Other { text: text("type Cell = A ;") },
            CollectionItem::Method { signature: getter("hidden", Visibility::Private), body: text("{ 1 }") },
            CollectionItem::Method { signature: getter("second", Visibility::Public), body: text("{ 2 }") },
        ],
    }
}

#[test]
fn generics_are_filtered_in_order() {
    let params = sample().generics;
    assert_eq!(filter_generics(&params, &vec![]), params);
    assert_eq!(filter_generics(&params, &vec![text("N")]), vec![type_param("A"), type_param("B")]);
    assert_eq!(filter_generics(&params, &vec![text("B"), text("A")]), vec![const_param("N")]);
    assert_eq!(filter_generics(&params, &vec![text("A"), text("N"), text("B")]), vec![]);
    assert_eq!(filter_generics(&vec![], &vec![text("A")]), vec![]);
}

#[test]
fn constraints_are_filtered_in_order() {
    let preds = sample().constraints;
    assert_eq!(filter_constraints(&preds, &vec![]), Ok(preds.clone()));
    assert_eq!(filter_constraints(&preds, &vec![text("A")]), Ok(vec![on("B")]));
    assert_eq!(filter_constraints(&preds, &vec![text("B")]), Ok(vec![on("A"), on("A")]));
    let lifetime = ConstraintPredicate::LifetimePredicate { text: text("'a : 'b") };
    assert_eq!(
        filter_constraints(&vec![lifetime.clone(), on("A")], &vec![text("A"), text("'a : 'b")]),
        Ok(vec![lifetime])
    );
}

#[test]
fn complex_subject_is_refused_wherever_it_stands() {
    let complex = ConstraintPredicate::TypePredicate {
        binder: String::new(),
        subject: text("& 'a A"),
        path: None,
        bounds: text("Default"),
    };
    for at in 0..3 {
        let mut preds = vec![on("A"), on("B")];
        preds.insert(at, complex.clone());
        assert_eq!(
            filter_constraints(&preds, &vec![text("A")]),
            Err(TransformError::UnsupportedConstraintSubject)
        );
    }
}

#[test]
fn methods_are_selected_in_declaration_order() {
    let items = sample().items;
    let promoted = select_methods(&items, &vec![text("N")]);
    assert_eq!(promoted, vec![getter("first", Visibility::Public), getter("second", Visibility::Public)]);
    assert_eq!(select_methods(&items, &vec![text("usize")]), vec![]);
}

#[test]
fn interface_is_assembled_from_its_parts() {
    let declaration = emit_interface(
        text("Dyn"),
        vec![type_param("A")],
        vec![on("A")],
        vec![getter("first", Visibility::Public)],
    );
    assert_eq!(declaration.name, "Dyn");
    assert_eq!(declaration.kept_generics, vec![type_param("A")]);
    assert_eq!(declaration.kept_constraints, vec![on("A")]);
    assert_eq!(declaration.method_signatures, vec![getter("first", Visibility::Public)]);
}

#[test]
fn conformance_refers_to_the_interface_by_its_kept_parameters() {
    let collection = sample();
    let kept = vec![
        GenericParameter::Lifetime { name: text("'a"), bounds: String::new() },
        type_param("A"),
        const_param("N"),
    ];
    let sigs = vec![getter("first", Visibility::Public)];
    let block = emit_conformance(&collection, text("Dyn"), &kept, &sigs);
    assert_eq!(block.generics, collection.generics);
    assert_eq!(block.constraints, collection.constraints);
    assert_eq!(block.target_type, "Grid < A , N , B >");
    assert_eq!(block.interface_name, "Dyn");
    assert_eq!(
        block.interface_arguments,
        vec![
            GenericArgument::Lifetime(text("'a")),
            GenericArgument::Type(text("A")),
            GenericArgument::Type(text("N")),
        ]
    );
    assert_eq!(block.forwarding_methods, vec![forwarding_method(&sigs[0])]);
    assert_eq!(generic_argument(&const_param("N")), GenericArgument::Type(text("N")));
}

#[test]
fn forwarding_method_of_a_static_method_passes_no_receiver() {
    let mut sig = getter("make", Visibility::Public);
    sig.receiver = None;
    let method = forwarding_method(&sig);
    assert_eq!(method.signature, sig);
    assert_eq!(method.callee, "make");
    assert_eq!(method.arguments, vec![CallArgument::Pattern(text("at"))]);
}

#[test]
fn expansion_of_a_parsed_configuration() {
    let config = Configuration { interface_name: text("GridDyn"), erased_params: vec![text("N"), text("B")] };
    let expansion = expand(&config, sample()).unwrap();
    assert_eq!(expansion.passthrough, sample());
    assert_eq!(expansion.interface.name, "GridDyn");
    assert_eq!(expansion.interface.kept_generics, vec![type_param("A")]);
    assert_eq!(expansion.interface.kept_constraints, vec![on("A"), on("A")]);
    assert_eq!(expansion.interface.method_signatures.len(), 2);
    assert_eq!(expansion.conformance.interface_name, "GridDyn");
    assert_eq!(expansion.conformance.interface_arguments, vec![GenericArgument::Type(text("A"))]);
    assert_eq!(expansion.conformance.forwarding_methods.len(), 2);
}

#[test]
fn transformation_of_classified_words() {
    let lexemes = vec![
        Lexeme::Identifier(text("GridDyn")),
        Lexeme::Punct(','),
        Lexeme::Keyword(text("dyn")),
        Lexeme::Punct('='),
        Lexeme::Open(Delimiter::Bracket),
        Lexeme::Identifier(text("N")),
        Lexeme::Close(Delimiter::Bracket),
    ];
    let config = Configuration { interface_name: text("GridDyn"), erased_params: vec![text("N")] };
    assert_eq!(
        transform(&lexemes, Item::MethodCollection(sample())),
        expand(&config, sample())
    );
    assert_eq!(
        transform(&lexemes, Item::Other(text("enum E { }"))),
        Err(TransformError::MalformedMethodCollection)
    );
    assert_eq!(
        transform(&lexemes[..6].to_vec(), Item::MethodCollection(sample())),
        Err(TransformError::MalformedConfiguration)
    );
}
