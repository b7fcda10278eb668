use traitify_core::config::{Delimiter, Token};
use traitify_core::model::{
    CallArgument, CollectionItem, ConstraintPredicate, Expansion, GenericArgument,
    GenericParameter, Item, MethodCollection, MethodSignature, Parameter, Receiver, ReceiverKind,
    TransformError, Visibility,
};
use traitify_core::traitify;

fn text(s: &str) -> String {
    s.to_string()
}

fn configuration(name: &str, erased: &[&str]) -> Vec<Token> {
    let mut tokens = vec![
        Token::Word(text(name)),
        Token::Punct(','),
        Token::Word(text("dyn")),
        Token::Punct('='),
        Token::Open(Delimiter::Bracket),
    ];
    for (i, param) in erased.iter().enumerate() {
        if i > 0 {
            tokens.push(Token::Punct(','));
        }
        tokens.push(Token::Word(text(param)));
    }
    tokens.push(Token::Close(Delimiter::Bracket));
    tokens
}

fn signature(
    name: &str,
    receiver: Option<ReceiverKind>,
    parameters: &[(&str, &str)],
    return_type: &str,
    visibility: Visibility,
) -> MethodSignature {
    MethodSignature {
        qualifiers: String::new(),
        name: text(name),
        receiver: receiver.map(declared),
        parameters: parameters
            .iter()
            .map(|(pattern, ty)| Parameter { attributes: String::new(), pattern: text(pattern), ty: text(ty) })
            .collect(),
        generics: String::new(),
        constraints: Vec::new(),
        return_type: text(return_type),
        visibility,
        is_const: false,
        has_foreign_abi: false,
    }
}

fn declared(kind: ReceiverKind) -> Receiver {
    let declaration = match kind {
        ReceiverKind::Value => "self",
        ReceiverKind::Reference => "& self",
        ReceiverKind::MutableReference => "& mut self",
    };
    Receiver { kind, declaration: text(declaration) }
}

fn method(signature: MethodSignature, body: &str) -> CollectionItem {
    CollectionItem::Method { signature, body: text(body) }
}

/// `impl<T: Default + Copy + Debug, const CAP: usize> Foo<T, CAP>` with its
/// two constraints on `T` and its five methods.
fn foo() -> MethodCollection {
    MethodCollection {
        attributes: Vec::new(),
        generics: vec![
            GenericParameter::TypeParameter {
                name: text("T"),
                bounds: text("Default + Copy + Debug"),
            },
            GenericParameter::ConstParameter { name: text("CAP"), ty: text("usize") },
        ],
        constraints: vec![
            ConstraintPredicate::TypePredicate {
                binder: String::new(),
                subject: text("T"),
                path: Some(text("T")),
                bounds: text("AddAssign < u8 >"),
            },
            ConstraintPredicate::TypePredicate {
                binder: String::new(),
                subject: text("T"),
                path: Some(text("T")),
                bounds: text("AddAssign < T >"),
            },
        ],
        target_type: text("Foo < T , CAP >"),
        items: vec![
            method(
                signature("new", None, &[], "Self", Visibility::Public),
                "{ Self { data : [T :: default () ; CAP] } }",
            ),
            method(
                signature(
                    "print_dbg",
                    Some(ReceiverKind::Reference),
                    &[],
                    "",
                    Visibility::Private,
                ),
                "{ dbg ! (self) ; }",
            ),
            method(
                signature(
                    "add_one",
                    Some(ReceiverKind::MutableReference),
                    &[],
                    "",
                    Visibility::Public,
                ),
                "{ for i in self . data . iter_mut () { * i += 1 ; } }",
            ),
            method(
                signature(
                    "add_n",
                    Some(ReceiverKind::MutableReference),
                    &[("n", "T")],
                    "",
                    Visibility::Public,
                ),
                "{ for i in self . data . iter_mut () { * i += n ; } }",
            ),
            method(
                signature("print_hello", None, &[], "", Visibility::Public),
                "{ println ! (\"Hello!\") ; }",
            ),
        ],
    }
}

fn expand_foo(name: &str, erased: &[&str]) -> Expansion {
    traitify(&configuration(name, erased), Item::MethodCollection(foo())).unwrap()
}

fn method_names(expansion: &Expansion) -> Vec<String> {
    expansion.interface.method_signatures.iter().map(|sig| sig.name.clone()).collect()
}

fn generic_names(expansion: &Expansion) -> Vec<String> {
    expansion
        .interface
        .kept_generics
        .iter()
        .map(|param| match param {
            GenericParameter::Lifetime { name, .. } => name.clone(),
            GenericParameter::TypeParameter { name, .. } => name.clone(),
            GenericParameter::ConstParameter { name, .. } => name.clone(),
        })
        .collect()
}

#[test]
fn compiles() {
    let by_cap = expand_foo("FooDynCap", &["CAP"]);
    assert_eq!(by_cap.interface.name, "FooDynCap");
    assert_eq!(generic_names(&by_cap), vec!["T"]);
    assert_eq!(method_names(&by_cap), vec!["new", "add_one", "add_n", "print_hello"]);
    assert_eq!(by_cap.conformance.interface_arguments, vec![GenericArgument::Type(text("T"))]);

    let by_t = expand_foo("FooDynT", &["T"]);
    assert_eq!(by_t.interface.name, "FooDynT");
    assert_eq!(generic_names(&by_t), vec!["CAP"]);
    assert_eq!(method_names(&by_t), vec!["new", "add_one", "print_hello"]);
    assert_eq!(by_t.conformance.interface_arguments, vec![GenericArgument::Type(text("CAP"))]);

    let by_all = expand_foo("FooDynAll", &["CAP", "T"]);
    assert_eq!(by_all.interface.name, "FooDynAll");
    assert!(generic_names(&by_all).is_empty());
    assert_eq!(method_names(&by_all), vec!["new", "add_one", "print_hello"]);
    assert!(by_all.conformance.interface_arguments.is_empty());

    for expansion in [&by_cap, &by_t, &by_all] {
        assert_eq!(expansion.passthrough, foo());
        assert_eq!(expansion.conformance.target_type, "Foo < T , CAP >");
        assert_eq!(expansion.conformance.interface_name, expansion.interface.name);
        assert_eq!(expansion.conformance.generics, foo().generics);
        assert_eq!(expansion.conformance.constraints, foo().constraints);
    }
}

#[test]
fn erasing_the_capacity_keeps_the_type_parameter() {
    let expansion = expand_foo("FooDynCap", &["CAP"]);
    assert_eq!(
        expansion.interface.kept_generics,
        vec![GenericParameter::TypeParameter {
            name: text("T"),
            bounds: text("Default + Copy + Debug"),
        }]
    );
    assert_eq!(expansion.interface.kept_constraints, foo().constraints);
    let sigs = &expansion.interface.method_signatures;
    assert_eq!(sigs[0].name, "new");
    assert_eq!(sigs[0].constraints, vec![text("Self: Sized")]);
    assert_eq!(sigs[0].return_type, "Self");
    assert_eq!(sigs[1].name, "add_one");
    assert_eq!(sigs[1].receiver, Some(declared(ReceiverKind::MutableReference)));
    assert!(sigs[1].constraints.is_empty());
    assert_eq!(sigs[3].name, "print_hello");
    assert_eq!(sigs[3].constraints, vec![text("Self: Sized")]);
}

#[test]
fn private_method_is_never_promoted() {
    let sets: [&[&str]; 5] = [&[], &["CAP"], &["T"], &["CAP", "T"], &["Other"]];
    for erased in sets {
        let expansion = expand_foo("Dyn", erased);
        assert!(!method_names(&expansion).contains(&text("print_dbg")));
        assert!(expansion.conformance.forwarding_methods.iter().all(|m| m.callee != "print_dbg"));
    }
}

#[test]
fn method_taking_an_erased_type_is_left_out_but_passed_through() {
    let expansion = expand_foo("FooDynT", &["T"]);
    assert!(!method_names(&expansion).contains(&text("add_n")));
    assert!(expansion.conformance.forwarding_methods.iter().all(|m| m.callee != "add_n"));
    assert_eq!(expansion.passthrough.items[3], foo().items[3]);
    assert_eq!(expansion.passthrough, foo());
}

#[test]
fn erased_constraints_are_dropped_from_the_interface() {
    let expansion = expand_foo("FooDynT", &["T"]);
    assert!(expansion.interface.kept_constraints.is_empty());
    assert_eq!(expansion.passthrough.constraints, foo().constraints);
}

#[test]
fn receiver_decides_the_sizedness_constraint() {
    let mut collection = foo();
    if let CollectionItem::Method { signature, .. } = &mut collection.items[2] {
        signature.constraints.push(text("T : Clone"));
    }
    if let CollectionItem::Method { signature, .. } = &mut collection.items[4] {
        signature.constraints.push(text("T : Clone"));
    }
    let expansion =
        traitify(&configuration("D", &[]), Item::MethodCollection(collection)).unwrap();
    for sig in &expansion.interface.method_signatures {
        let sized = sig.constraints.iter().filter(|c| c.as_str() == "Self: Sized").count();
        if sig.receiver.is_none() {
            assert_eq!(sized, 1);
            assert_eq!(sig.constraints.last().unwrap(), "Self: Sized");
        } else {
            assert_eq!(sized, 0);
        }
    }
    let add_one = &expansion.interface.method_signatures[1];
    assert_eq!(add_one.constraints, vec![text("T : Clone")]);
    let print_hello = &expansion.interface.method_signatures[3];
    assert_eq!(print_hello.constraints, vec![text("T : Clone"), text("Self: Sized")]);
}

#[test]
fn forwarding_passes_receiver_and_parameters_in_order() {
    let mut collection = foo();
    collection.items.push(method(
        signature(
            "combine",
            Some(ReceiverKind::Value),
            &[("left", "u8"), ("(a, b)", "(u8, u8)"), ("right", "u16")],
            "u32",
            Visibility::Public,
        ),
        "{ 0 }",
    ));
    let expansion =
        traitify(&configuration("D", &["CAP"]), Item::MethodCollection(collection)).unwrap();
    let methods = &expansion.conformance.forwarding_methods;
    assert_eq!(methods.len(), expansion.interface.method_signatures.len());
    for (method, sig) in methods.iter().zip(&expansion.interface.method_signatures) {
        assert_eq!(&method.signature, sig);
        assert_eq!(method.callee, sig.name);
    }
    assert_eq!(methods[0].callee, "new");
    assert!(methods[0].arguments.is_empty());
    assert_eq!(methods[2].callee, "add_n");
    assert_eq!(
        methods[2].arguments,
        vec![CallArgument::Receiver, CallArgument::Pattern(text("n"))]
    );
    assert_eq!(methods[4].callee, "combine");
    assert_eq!(
        methods[4].arguments,
        vec![
            CallArgument::Receiver,
            CallArgument::Pattern(text("left")),
            CallArgument::Pattern(text("(a, b)")),
            CallArgument::Pattern(text("right")),
        ]
    );
}

#[test]
fn stacked_configurations_promote_the_same_methods() {
    let mut collection = foo();
    collection.items.remove(3);
    let first = traitify(
        &configuration("First", &["CAP"]),
        Item::MethodCollection(collection.clone()),
    )
    .unwrap();
    let second = traitify(
        &configuration("Second", &["T"]),
        Item::MethodCollection(collection.clone()),
    )
    .unwrap();
    assert_eq!(first.interface.method_signatures, second.interface.method_signatures);
    assert_eq!(generic_names(&first), vec!["T"]);
    assert_eq!(generic_names(&second), vec!["CAP"]);
    assert_eq!(first.passthrough, collection);
    assert_eq!(second.passthrough, collection);
}

#[test]
fn passthrough_is_identical_under_every_configuration() {
    let sets: [&[&str]; 4] = [&[], &["CAP"], &["T", "CAP"], &["Missing"]];
    for erased in sets {
        assert_eq!(expand_foo("Any", erased).passthrough, foo());
    }
}

#[test]
fn unknown_erased_names_are_ignored() {
    let expansion = expand_foo("D", &["Missing", "Other"]);
    assert_eq!(expansion.interface.kept_generics, foo().generics);
    assert_eq!(expansion.interface.kept_constraints, foo().constraints);
    assert_eq!(method_names(&expansion), vec!["new", "add_one", "add_n", "print_hello"]);
}

#[test]
fn lifetimes_are_always_kept_and_order_is_preserved() {
    let mut collection = foo();
    collection.generics = vec![
        GenericParameter::Lifetime { name: text("'a"), bounds: text("'b") },
        GenericParameter::TypeParameter { name: text("A"), bounds: String::new() },
        GenericParameter::ConstParameter { name: text("N"), ty: text("usize") },
        GenericParameter::TypeParameter { name: text("B"), bounds: String::new() },
        GenericParameter::Lifetime { name: text("b"), bounds: String::new() },
        GenericParameter::TypeParameter { name: text("C"), bounds: String::new() },
    ];
    collection.constraints = vec![
        ConstraintPredicate::LifetimePredicate { text: text("'a : 'b") },
        ConstraintPredicate::TypePredicate {
            binder: String::new(),
            subject: text("A"),
            path: Some(text("A")),
            bounds: text("Copy"),
        },
        ConstraintPredicate::TypePredicate {
            binder: String::new(),
            subject: text("C"),
            path: Some(text("C")),
            bounds: text("Copy"),
        },
    ];
    let expansion =
        traitify(&configuration("D", &["A", "b", "N"]), Item::MethodCollection(collection))
            .unwrap();
    assert_eq!(generic_names(&expansion), vec!["'a", "B", "b", "C"]);
    assert_eq!(
        expansion.conformance.interface_arguments,
        vec![
            GenericArgument::Lifetime(text("'a")),
            GenericArgument::Type(text("B")),
            GenericArgument::Lifetime(text("b")),
            GenericArgument::Type(text("C")),
        ]
    );
    assert_eq!(
        expansion.interface.kept_constraints,
        vec![
            ConstraintPredicate::LifetimePredicate { text: text("'a : 'b") },
            ConstraintPredicate::TypePredicate {
                binder: String::new(),
                subject: text("C"),
                path: Some(text("C")),
                bounds: text("Copy"),
            },
        ]
    );
}

#[test]
fn const_and_foreign_methods_are_not_promoted() {
    let mut collection = foo();
    let mut constant = signature("zero", None, &[], "u8", Visibility::Public);
    constant.is_const = true;
    let mut foreign = signature("callback", None, &[], "", Visibility::Public);
    foreign.has_foreign_abi = true;
    let restricted = signature("inner", Some(ReceiverKind::Reference), &[], "", Visibility::Restricted);
    collection.items.insert(0, method(constant, "{ 0 }"));
    collection.items.insert(2, method(foreign, "{ }"));
    collection.items.push(method(restricted, "{ }"));
    collection.items.push(CollectionItem::Other { text: text("const LIMIT : usize = 4 ;") });
    let expansion =
        traitify(&configuration("D", &["CAP"]), Item::MethodCollection(collection)).unwrap();
    assert_eq!(method_names(&expansion), vec!["new", "add_one", "add_n", "print_hello"]);
}

#[test]
fn item_of_another_kind_is_rejected() {
    let result = traitify(&configuration("D", &["CAP"]), Item::Other(text("struct Foo ;")));
    assert_eq!(result, Err(TransformError::MalformedMethodCollection));
}

#[test]
fn complex_constraint_subject_is_unsupported() {
    let mut collection = foo();
    collection.constraints.push(ConstraintPredicate::TypePredicate {
        binder: String::new(),
        subject: text("[T ; CAP]"),
        path: None,
        bounds: text("Default"),
    });
    let result = traitify(&configuration("D", &["CAP"]), Item::MethodCollection(collection));
    assert_eq!(result, Err(TransformError::UnsupportedConstraintSubject));
}

#[test]
fn configuration_is_judged_before_the_item() {
    let tokens = vec![Token::Word(text("D"))];
    assert_eq!(
        traitify(&tokens, Item::Other(text("struct Foo ;"))),
        Err(TransformError::MalformedConfiguration)
    );
}

#[test]
fn reserved_word_cannot_name_the_interface() {
    for name in ["trait", "fn", "dyn", "Self", "_"] {
        let result = traitify(&configuration(name, &["CAP"]), Item::MethodCollection(foo()));
        assert_eq!(result, Err(TransformError::MalformedConfiguration));
    }
    let result = traitify(&configuration("D", &["CAP", "type"]), Item::MethodCollection(foo()));
    assert_eq!(result, Err(TransformError::MalformedConfiguration));
}
