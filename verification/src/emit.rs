//! The two emitters: they assemble the interface declaration and the
//! conformance block from what the filter and the selector produced.

use vstd::prelude::*;
use crate::model::{
    duplicate_parameters, duplicate_predicates, views, CallArgument, CallArgumentView,
    ConformanceBlock, ConformanceBlockView, ConstraintPredicate, ForwardingMethod,
    ForwardingMethodView, GenericArgument, GenericArgumentView, GenericParameter,
    GenericParameterView, InterfaceDeclaration, MethodCollection, MethodCollectionView,
    MethodSignature, MethodSignatureView, ParameterView,
};

verus! {

/// A kept parameter, used as an argument of the interface: it refers to
/// itself by name. A const parameter is passed as a path, like a type.
pub open spec fn argument_of(param: GenericParameterView) -> GenericArgumentView {
    match param {
        GenericParameterView::Lifetime { name, .. } => GenericArgumentView::Lifetime(name),
        GenericParameterView::TypeParameter { name, .. } => GenericArgumentView::Type(name),
        GenericParameterView::ConstParameter { name, .. } => GenericArgumentView::Type(name),
    }
}

pub open spec fn interface_arguments(kept: Seq<GenericParameterView>) -> Seq<GenericArgumentView> {
    kept.map_values(|param: GenericParameterView| argument_of(param))
}

/// The arguments of the forwarding call: `self` where the method has a
/// receiver, then the pattern of each parameter, in order.
pub open spec fn forwarded_arguments(sig: MethodSignatureView) -> Seq<CallArgumentView> {
    let passed = sig.parameters.map_values(|p: ParameterView| CallArgumentView::Pattern(p.pattern));
    if sig.receiver is Some {
        seq![CallArgumentView::Receiver] + passed
    } else {
        passed
    }
}

/// The forwarding method for a promoted signature: the same signature, and a
/// body that calls the method of the same name on the annotated type.
pub open spec fn forwarding_of(sig: MethodSignatureView) -> ForwardingMethodView {
    ForwardingMethodView { signature: sig, callee: sig.name, arguments: forwarded_arguments(sig) }
}

pub open spec fn forwarding_methods(sigs: Seq<MethodSignatureView>) -> Seq<ForwardingMethodView> {
    sigs.map_values(|sig: MethodSignatureView| forwarding_of(sig))
}

/// The conformance block of a collection for an interface: the header takes
/// over the collection's generic parameters, constraints and type; the
/// interface is applied to its own parameters; every signature is forwarded.
pub open spec fn conformance_for(
    collection: MethodCollectionView,
    interface_name: Seq<char>,
    kept: Seq<GenericParameterView>,
    sigs: Seq<MethodSignatureView>,
) -> ConformanceBlockView {
    ConformanceBlockView {
        generics: collection.generics,
        constraints: collection.constraints,
        target_type: collection.target_type,
        interface_name,
        interface_arguments: interface_arguments(kept),
        forwarding_methods: forwarding_methods(sigs),
    }
}

pub fn emit_interface(
    name: String,
    kept_generics: Vec<GenericParameter>,
    kept_constraints: Vec<ConstraintPredicate>,
    signatures: Vec<MethodSignature>,
) -> (declaration: InterfaceDeclaration)
    ensures
        declaration == (InterfaceDeclaration {
            name,
            kept_generics,
            kept_constraints,
            method_signatures: signatures,
        }),
{
    InterfaceDeclaration { name, kept_generics, kept_constraints, method_signatures: signatures }
}

pub fn generic_argument(param: &GenericParameter) -> (argument: GenericArgument)
    ensures
        argument@ == argument_of(param@),
{
    match param {
        GenericParameter::Lifetime { name, .. } => GenericArgument::Lifetime(name.clone()),
        GenericParameter::TypeParameter { name, .. } => GenericArgument::Type(name.clone()),
        GenericParameter::ConstParameter { name, .. } => GenericArgument::Type(name.clone()),
    }
}

pub fn forwarding_method(sig: &MethodSignature) -> (method: ForwardingMethod)
    ensures
        method@ == forwarding_of(sig@),
{
    let mut arguments: Vec<CallArgument> = Vec::new();
    if sig.receiver.is_some() {
        arguments.push(CallArgument::Receiver);
    }
    let ghost head = views(arguments@);
    let ghost passed = sig@.parameters.map_values(
        |p: ParameterView| CallArgumentView::Pattern(p.pattern),
    );
    assert(head =~= if sig.receiver is Some {
        seq![CallArgumentView::Receiver]
    } else {
        Seq::empty()
    });
    let mut k: usize = 0;
    while k < sig.parameters.len()
        invariant
            k <= sig.parameters.len(),
            passed.len() == sig.parameters.len(),
            passed == sig@.parameters.map_values(
                |p: ParameterView| CallArgumentView::Pattern(p.pattern),
            ),
            views(arguments@) == head + passed.take(k as int),
        decreases sig.parameters.len() - k,
    {
        let ghost before = arguments@;
        arguments.push(CallArgument::Pattern(sig.parameters[k].pattern.clone()));
        assert(views(arguments@) =~= views(before).push(passed[k as int]));
        assert(head + passed.take(k + 1) =~= (head + passed.take(k as int)).push(passed[k as int]));
        k += 1;
    }
    assert(passed.take(sig.parameters.len() as int) =~= passed);
    assert(head + passed =~= forwarded_arguments(sig@));
    ForwardingMethod { signature: sig.duplicate(), callee: sig.name.clone(), arguments }
}

pub fn emit_conformance(
    collection: &MethodCollection,
    interface_name: String,
    kept_generics: &Vec<GenericParameter>,
    signatures: &Vec<MethodSignature>,
) -> (block: ConformanceBlock)
    ensures
        block@ == conformance_for(
            collection@,
            interface_name@,
            views(kept_generics@),
            views(signatures@),
        ),
{
    let mut arguments: Vec<GenericArgument> = Vec::new();
    let mut i: usize = 0;
    while i < kept_generics.len()
        invariant
            i <= kept_generics.len(),
            views(arguments@) =~= interface_arguments(views(kept_generics@)).take(i as int),
        decreases kept_generics.len() - i,
    {
        let ghost before = arguments@;
        arguments.push(generic_argument(&kept_generics[i]));
        assert(views(arguments@) =~= views(before).push(argument_of(kept_generics@[i as int]@)));
        i += 1;
    }
    assert(views(arguments@) =~= interface_arguments(views(kept_generics@)));
    let mut methods: Vec<ForwardingMethod> = Vec::new();
    let mut j: usize = 0;
    while j < signatures.len()
        invariant
            j <= signatures.len(),
            views(methods@) =~= forwarding_methods(views(signatures@)).take(j as int),
        decreases signatures.len() - j,
    {
        let ghost before = methods@;
        methods.push(forwarding_method(&signatures[j]));
        assert(views(methods@) =~= views(before).push(forwarding_of(signatures@[j as int]@)));
        j += 1;
    }
    assert(views(methods@) =~= forwarding_methods(views(signatures@)));
    ConformanceBlock {
        generics: duplicate_parameters(&collection.generics),
        constraints: duplicate_predicates(&collection.constraints),
        target_type: collection.target_type.clone(),
        interface_name,
        interface_arguments: arguments,
        forwarding_methods: methods,
    }
}

} // verus!
