//! The data the transformation reads and produces, each type with its
//! mathematical view: text becomes a sequence of characters, a vector a
//! sequence of views.

use vstd::prelude::*;

verus! {

/// The views of the items of a sequence, in the same order.
pub open spec fn views<T: View>(items: Seq<T>) -> Seq<T::V> {
    items.map_values(|item: T| item@)
}

/// A compile-time placeholder on the type that owns the method collection.
#[derive(Debug, Clone, PartialEq, Eq)]
pub enum GenericParameter {
    Lifetime { name: String, bounds: String },
    TypeParameter { name: String, bounds: String },
    ConstParameter { name: String, ty: String },
}

pub enum GenericParameterView {
    Lifetime { name: Seq<char>, bounds: Seq<char> },
    TypeParameter { name: Seq<char>, bounds: Seq<char> },
    ConstParameter { name: Seq<char>, ty: Seq<char> },
}

impl View for GenericParameter {
    type V = GenericParameterView;

    open spec fn view(&self) -> GenericParameterView {
        match *self {
            GenericParameter::Lifetime { name, bounds } => GenericParameterView::Lifetime {
                name: name@,
                bounds: bounds@,
            },
            GenericParameter::TypeParameter { name, bounds } => GenericParameterView::TypeParameter {
                name: name@,
                bounds: bounds@,
            },
            GenericParameter::ConstParameter { name, ty } => GenericParameterView::ConstParameter {
                name: name@,
                ty: ty@,
            },
        }
    }
}

/// A requirement of the constraint clause. A type predicate holds its
/// subject as written, with the lifetimes bound in front of it, and the text
/// of the subject's path, by which it is matched; a subject that is no plain
/// named path has none.
#[derive(Debug, Clone, PartialEq, Eq)]
pub enum ConstraintPredicate {
    LifetimePredicate { text: String },
    TypePredicate { binder: String, subject: String, path: Option<String>, bounds: String },
}

pub enum ConstraintPredicateView {
    LifetimePredicate { text: Seq<char> },
    TypePredicate {
        binder: Seq<char>,
        subject: Seq<char>,
        path: Option<Seq<char>>,
        bounds: Seq<char>,
    },
}

impl View for ConstraintPredicate {
    type V = ConstraintPredicateView;

    open spec fn view(&self) -> ConstraintPredicateView {
        match *self {
            ConstraintPredicate::LifetimePredicate { text } => ConstraintPredicateView::LifetimePredicate {
                text: text@,
            },
            ConstraintPredicate::TypePredicate { binder, subject, path, bounds } => ConstraintPredicateView::TypePredicate {
                binder: binder@,
                subject: subject@,
                path: match path {
                    Some(text) => Some(text@),
                    None => None,
                },
                bounds: bounds@,
            },
        }
    }
}

/// How a method takes the instance it acts on.
#[derive(Debug, Clone, Copy, PartialEq, Eq)]
pub enum ReceiverKind {
    Value,
    Reference,
    MutableReference,
}

#[derive(Debug, Clone, Copy, PartialEq, Eq)]
pub enum Visibility {
    Public,
    Restricted,
    Private,
}

/// The receiver of a method: its kind, and the receiver as the method
/// declares it.
#[derive(Debug, Clone, PartialEq, Eq)]
pub struct Receiver {
    pub kind: ReceiverKind,
    pub declaration: String,
}

pub struct ReceiverView {
    pub kind: ReceiverKind,
    pub declaration: Seq<char>,
}

impl View for Receiver {
    type V = ReceiverView;

    open spec fn view(&self) -> ReceiverView {
        ReceiverView { kind: self.kind, declaration: self.declaration@ }
    }
}

/// One parameter of a method other than the receiver: its attributes, its
/// binding pattern and the text of its declared type.
#[derive(Debug, Clone, PartialEq, Eq)]
pub struct Parameter {
    pub attributes: String,
    pub pattern: String,
    pub ty: String,
}

pub struct ParameterView {
    pub attributes: Seq<char>,
    pub pattern: Seq<char>,
    pub ty: Seq<char>,
}

impl View for Parameter {
    type V = ParameterView;

    open spec fn view(&self) -> ParameterView {
        ParameterView { attributes: self.attributes@, pattern: self.pattern@, ty: self.ty@ }
    }
}

#[derive(Debug, Clone, PartialEq, Eq)]
pub struct MethodSignature {
    pub qualifiers: String,
    pub name: String,
    pub receiver: Option<Receiver>,
    pub parameters: Vec<Parameter>,
    pub generics: String,
    pub constraints: Vec<String>,
    pub return_type: String,
    pub visibility: Visibility,
    pub is_const: bool,
    pub has_foreign_abi: bool,
}

pub struct MethodSignatureView {
    pub qualifiers: Seq<char>,
    pub name: Seq<char>,
    pub receiver: Option<ReceiverView>,
    pub parameters: Seq<ParameterView>,
    pub generics: Seq<char>,
    pub constraints: Seq<Seq<char>>,
    pub return_type: Seq<char>,
    pub visibility: Visibility,
    pub is_const: bool,
    pub has_foreign_abi: bool,
}

impl View for MethodSignature {
    type V = MethodSignatureView;

    open spec fn view(&self) -> MethodSignatureView {
        MethodSignatureView {
            qualifiers: self.qualifiers@,
            name: self.name@,
            receiver: match self.receiver {
                Some(receiver) => Some(receiver@),
                None => None,
            },
            parameters: views(self.parameters@),
            generics: self.generics@,
            constraints: views(self.constraints@),
            return_type: self.return_type@,
            visibility: self.visibility,
            is_const: self.is_const,
            has_foreign_abi: self.has_foreign_abi,
        }
    }
}

/// One item of a method collection: a method with its body, or anything else
/// the collection may hold, which is carried through untouched.
#[derive(Debug, Clone, PartialEq, Eq)]
pub enum CollectionItem {
    Method { signature: MethodSignature, body: String },
    Other { text: String },
}

pub enum CollectionItemView {
    Method { signature: MethodSignatureView, body: Seq<char> },
    Other { text: Seq<char> },
}

impl View for CollectionItem {
    type V = CollectionItemView;

    open spec fn view(&self) -> CollectionItemView {
        match *self {
            CollectionItem::Method { signature, body } => CollectionItemView::Method {
                signature: signature@,
                body: body@,
            },
            CollectionItem::Other { text } => CollectionItemView::Other { text: text@ },
        }
    }
}

/// The full set of functions attached to one type, with the type's generic
/// parameters and constraint clause.
#[derive(Debug, Clone, PartialEq, Eq)]
pub struct MethodCollection {
    pub attributes: Vec<String>,
    pub generics: Vec<GenericParameter>,
    pub constraints: Vec<ConstraintPredicate>,
    pub target_type: String,
    pub items: Vec<CollectionItem>,
}

pub struct MethodCollectionView {
    pub attributes: Seq<Seq<char>>,
    pub generics: Seq<GenericParameterView>,
    pub constraints: Seq<ConstraintPredicateView>,
    pub target_type: Seq<char>,
    pub items: Seq<CollectionItemView>,
}

impl View for MethodCollection {
    type V = MethodCollectionView;

    open spec fn view(&self) -> MethodCollectionView {
        MethodCollectionView {
            attributes: views(self.attributes@),
            generics: views(self.generics@),
            constraints: views(self.constraints@),
            target_type: self.target_type@,
            items: views(self.items@),
        }
    }
}

/// What the host's structural parser made of the annotated item.
#[derive(Debug, Clone, PartialEq, Eq)]
pub enum Item {
    MethodCollection(MethodCollection),
    Other(String),
}

/// The validated configuration: the interface to generate and the names of
/// the generic parameters that must not appear on it.
#[derive(Debug, Clone, PartialEq, Eq)]
pub struct Configuration {
    pub interface_name: String,
    pub erased_params: Vec<String>,
}

pub struct ConfigurationView {
    pub interface_name: Seq<char>,
    pub erased_params: Seq<Seq<char>>,
}

impl View for Configuration {
    type V = ConfigurationView;

    open spec fn view(&self) -> ConfigurationView {
        ConfigurationView {
            interface_name: self.interface_name@,
            erased_params: views(self.erased_params@),
        }
    }
}

/// A named, bodiless collection of method signatures.
#[derive(Debug, Clone, PartialEq, Eq)]
pub struct InterfaceDeclaration {
    pub name: String,
    pub kept_generics: Vec<GenericParameter>,
    pub kept_constraints: Vec<ConstraintPredicate>,
    pub method_signatures: Vec<MethodSignature>,
}

pub struct InterfaceDeclarationView {
    pub name: Seq<char>,
    pub kept_generics: Seq<GenericParameterView>,
    pub kept_constraints: Seq<ConstraintPredicateView>,
    pub method_signatures: Seq<MethodSignatureView>,
}

impl View for InterfaceDeclaration {
    type V = InterfaceDeclarationView;

    open spec fn view(&self) -> InterfaceDeclarationView {
        InterfaceDeclarationView {
            name: self.name@,
            kept_generics: views(self.kept_generics@),
            kept_constraints: views(self.kept_constraints@),
            method_signatures: views(self.method_signatures@),
        }
    }
}

/// A generic argument of the interface reference in the conformance block.
#[derive(Debug, Clone, PartialEq, Eq)]
pub enum GenericArgument {
    Lifetime(String),
    Type(String),
}

pub enum GenericArgumentView {
    Lifetime(Seq<char>),
    Type(Seq<char>),
}

impl View for GenericArgument {
    type V = GenericArgumentView;

    open spec fn view(&self) -> GenericArgumentView {
        match *self {
            GenericArgument::Lifetime(name) => GenericArgumentView::Lifetime(name@),
            GenericArgument::Type(name) => GenericArgumentView::Type(name@),
        }
    }
}

/// One argument of a forwarding call.
#[derive(Debug, Clone, PartialEq, Eq)]
pub enum CallArgument {
    Receiver,
    Pattern(String),
}

pub enum CallArgumentView {
    Receiver,
    Pattern(Seq<char>),
}

impl View for CallArgument {
    type V = CallArgumentView;

    open spec fn view(&self) -> CallArgumentView {
        match *self {
            CallArgument::Receiver => CallArgumentView::Receiver,
            CallArgument::Pattern(pattern) => CallArgumentView::Pattern(pattern@),
        }
    }
}

/// A method of the conformance block: a signature and the single call into
/// the annotated type that makes up its body.
#[derive(Debug, Clone, PartialEq, Eq)]
pub struct ForwardingMethod {
    pub signature: MethodSignature,
    pub callee: String,
    pub arguments: Vec<CallArgument>,
}

pub struct ForwardingMethodView {
    pub signature: MethodSignatureView,
    pub callee: Seq<char>,
    pub arguments: Seq<CallArgumentView>,
}

impl View for ForwardingMethod {
    type V = ForwardingMethodView;

    open spec fn view(&self) -> ForwardingMethodView {
        ForwardingMethodView {
            signature: self.signature@,
            callee: self.callee@,
            arguments: views(self.arguments@),
        }
    }
}

/// The implementation that shows the annotated type to satisfy the interface.
#[derive(Debug, Clone, PartialEq, Eq)]
pub struct ConformanceBlock {
    pub generics: Vec<GenericParameter>,
    pub constraints: Vec<ConstraintPredicate>,
    pub target_type: String,
    pub interface_name: String,
    pub interface_arguments: Vec<GenericArgument>,
    pub forwarding_methods: Vec<ForwardingMethod>,
}

pub struct ConformanceBlockView {
    pub generics: Seq<GenericParameterView>,
    pub constraints: Seq<ConstraintPredicateView>,
    pub target_type: Seq<char>,
    pub interface_name: Seq<char>,
    pub interface_arguments: Seq<GenericArgumentView>,
    pub forwarding_methods: Seq<ForwardingMethodView>,
}

impl View for ConformanceBlock {
    type V = ConformanceBlockView;

    open spec fn view(&self) -> ConformanceBlockView {
        ConformanceBlockView {
            generics: views(self.generics@),
            constraints: views(self.constraints@),
            target_type: self.target_type@,
            interface_name: self.interface_name@,
            interface_arguments: views(self.interface_arguments@),
            forwarding_methods: views(self.forwarding_methods@),
        }
    }
}

/// The three segments of the output, in the order in which they are emitted.
#[derive(Debug, Clone, PartialEq, Eq)]
pub struct Expansion {
    pub passthrough: MethodCollection,
    pub interface: InterfaceDeclaration,
    pub conformance: ConformanceBlock,
}

/// Why a transformation produced no output.
#[derive(Debug, Clone, Copy, PartialEq, Eq)]
pub enum TransformError {
    MalformedConfiguration,
    MalformedMethodCollection,
    UnsupportedConstraintSubject,
}

/// Tells whether `text` is one of `names`.
pub fn contains_text(names: &Vec<String>, text: &String) -> (found: bool)
    ensures
        found == views(names@).contains(text@),
{
    let mut i: usize = 0;
    while i < names.len()
        invariant
            i <= names.len(),
            forall|j: int| 0 <= j < i ==> names@[j]@ != text@,
        decreases names.len() - i,
    {
        if names[i] == *text {
            assert(views(names@)[i as int] == text@);
            return true;
        }
        i += 1;
    }
    false
}

/// A copy of `texts`, item for item.
pub fn duplicate_texts(texts: &Vec<String>) -> (copy: Vec<String>)
    ensures
        copy@ == texts@,
{
    let mut copy: Vec<String> = Vec::new();
    let mut i: usize = 0;
    while i < texts.len()
        invariant
            i <= texts.len(),
            copy@ == texts@.take(i as int),
        decreases texts.len() - i,
    {
        copy.push(texts[i].clone());
        assert(copy@ =~= texts@.take(i + 1));
        i += 1;
    }
    assert(texts@.take(texts.len() as int) =~= texts@);
    copy
}

impl GenericParameter {
    /// A copy that Verus knows to be equal to `self`.
    pub fn duplicate(&self) -> (copy: GenericParameter)
        ensures
            copy == *self,
    {
        match self {
            GenericParameter::Lifetime { name, bounds } => GenericParameter::Lifetime {
                name: name.clone(),
                bounds: bounds.clone(),
            },
            GenericParameter::TypeParameter { name, bounds } => GenericParameter::TypeParameter {
                name: name.clone(),
                bounds: bounds.clone(),
            },
            GenericParameter::ConstParameter { name, ty } => GenericParameter::ConstParameter {
                name: name.clone(),
                ty: ty.clone(),
            },
        }
    }
}

impl ConstraintPredicate {
    /// A copy that Verus knows to be equal to `self`.
    pub fn duplicate(&self) -> (copy: ConstraintPredicate)
        ensures
            copy == *self,
    {
        match self {
            ConstraintPredicate::LifetimePredicate { text } => ConstraintPredicate::LifetimePredicate {
                text: text.clone(),
            },
            ConstraintPredicate::TypePredicate { binder, subject, path, bounds } => ConstraintPredicate::TypePredicate {
                binder: binder.clone(),
                subject: subject.clone(),
                path: match path {
                    Some(text) => Some(text.clone()),
                    None => None,
                },
                bounds: bounds.clone(),
            },
        }
    }
}

/// A copy of `params`, item for item.
pub fn duplicate_parameters(params: &Vec<GenericParameter>) -> (copy: Vec<GenericParameter>)
    ensures
        copy@ == params@,
{
    let mut copy: Vec<GenericParameter> = Vec::new();
    let mut i: usize = 0;
    while i < params.len()
        invariant
            i <= params.len(),
            copy@ == params@.take(i as int),
        decreases params.len() - i,
    {
        copy.push(params[i].duplicate());
        assert(copy@ =~= params@.take(i + 1));
        i += 1;
    }
    assert(params@.take(params.len() as int) =~= params@);
    copy
}

/// A copy of `preds`, item for item.
pub fn duplicate_predicates(preds: &Vec<ConstraintPredicate>) -> (copy: Vec<ConstraintPredicate>)
    ensures
        copy@ == preds@,
{
    let mut copy: Vec<ConstraintPredicate> = Vec::new();
    let mut i: usize = 0;
    while i < preds.len()
        invariant
            i <= preds.len(),
            copy@ == preds@.take(i as int),
        decreases preds.len() - i,
    {
        copy.push(preds[i].duplicate());
        assert(copy@ =~= preds@.take(i + 1));
        i += 1;
    }
    assert(preds@.take(preds.len() as int) =~= preds@);
    copy
}

impl Parameter {
    /// A copy that Verus knows to be equal to `self`.
    pub fn duplicate(&self) -> (copy: Parameter)
        ensures
            copy == *self,
    {
        Parameter {
            attributes: self.attributes.clone(),
            pattern: self.pattern.clone(),
            ty: self.ty.clone(),
        }
    }
}

impl MethodSignature {
    /// A copy with the same view as `self`.
    pub fn duplicate(&self) -> (copy: MethodSignature)
        ensures
            copy@ == self@,
    {
        let mut parameters: Vec<Parameter> = Vec::new();
        let mut i: usize = 0;
        while i < self.parameters.len()
            invariant
                i <= self.parameters.len(),
                parameters@ == self.parameters@.take(i as int),
            decreases self.parameters.len() - i,
        {
            parameters.push(self.parameters[i].duplicate());
            assert(parameters@ =~= self.parameters@.take(i + 1));
            i += 1;
        }
        assert(self.parameters@.take(self.parameters.len() as int) =~= self.parameters@);
        let receiver = match &self.receiver {
            Some(receiver) => Some(
                Receiver { kind: receiver.kind, declaration: receiver.declaration.clone() },
            ),
            None => None,
        };
        MethodSignature {
            qualifiers: self.qualifiers.clone(),
            name: self.name.clone(),
            receiver,
            parameters,
            generics: self.generics.clone(),
            constraints: duplicate_texts(&self.constraints),
            return_type: self.return_type.clone(),
            visibility: self.visibility,
            is_const: self.is_const,
            has_foreign_abi: self.has_foreign_abi,
        }
    }
}

} // verus!
