//! The data model: a closed description of the signature shapes the
//! generator understands, the validated form the synthesizers consume,
//! and the descriptors they produce.

use vstd::prelude::*;

verus! {

/// How a callable takes one of its inputs: owned, through a shared
/// reference, or through an exclusive reference.
#[derive(Clone, Copy, Debug, PartialEq, Eq, Structural)]
pub enum ParameterOwnership {
    ByValue,
    SharedRef,
    ExclusiveRef,
}

/// How a parameter is bound in the signature: a plain identifier, or
/// anything else (for instance a destructuring pattern).
#[derive(Clone, Debug, PartialEq, Eq)]
pub enum BindingShape {
    Simple(String),
    Other,
}

/// The shape of a parameter's declared type, reduced to the cases the
/// generator cares about: a simple named type, a reference to one, or
/// anything else (slices, tuples, generic instantiations, function
/// pointers).
#[derive(Clone, Debug, PartialEq, Eq)]
pub enum TypeShape {
    SimpleNamed(String),
    SharedRefOf(String),
    ExclusiveRefOf(String),
    Other,
}

/// One non-receiver input of a signature, before validation.
#[derive(Clone, Debug, PartialEq, Eq)]
pub struct RawParameter {
    pub binding: BindingShape,
    pub ty: TypeShape,
}

/// One input of a signature as the host frontend hands it over: either
/// a receiver (`self` in some ownership mode) or an ordinary parameter.
/// A receiver may appear anywhere in the raw list; the validator
/// rejects any position but the first.
#[derive(Clone, Debug, PartialEq, Eq)]
pub enum FnInput {
    Receiver(ParameterOwnership),
    Typed(RawParameter),
}

/// A callable's signature as handed over by the host frontend: its
/// name, its raw inputs in declaration order, and its modifiers. The
/// return type plays no role in harness generation and is not part of
/// the model.
#[derive(Clone, Debug, PartialEq, Eq)]
pub struct SignatureDescriptor {
    pub function_name: String,
    pub inputs: Vec<FnInput>,
    pub is_async: bool,
    pub is_unsafe: bool,
}

/// The receiver of a validated method signature.
#[derive(Clone, Copy, Debug, PartialEq, Eq, Structural)]
pub struct ReceiverDescriptor {
    pub ownership: ParameterOwnership,
}

/// One parameter of a validated signature: its identifier, the name of
/// the type behind any reference, and how the callable takes it.
#[derive(Clone, Debug, PartialEq, Eq)]
pub struct ParameterDescriptor {
    pub name: String,
    pub referent_type: String,
    pub ownership: ParameterOwnership,
}

/// A signature that passed every validation check: the receiver, if
/// any, is first and unique; every parameter is simply bound and simply
/// typed; and an enclosing type name is recorded whenever one was
/// supplied (it is always present when a receiver is).
#[derive(Clone, Debug, PartialEq, Eq)]
pub struct ValidatedSignature {
    pub function_name: String,
    pub enclosing: Option<String>,
    pub receiver: Option<ReceiverDescriptor>,
    pub parameters: Vec<ParameterDescriptor>,
}

impl ValidatedSignature {
    /// A validated signature never carries a receiver without the name
    /// of the type the method is implemented on.
    pub open spec fn wf(self) -> bool {
        self.receiver is Some ==> self.enclosing is Some
    }
}

/// The storage type of one aggregate field: the parameter's own type
/// for a by-value parameter, or the owned boxed counterpart for a
/// parameter taken by reference.
#[derive(Clone, Debug, PartialEq, Eq)]
pub enum FieldType {
    Plain(String),
    Boxed(String),
}

/// One field of the generated aggregate type.
#[derive(Clone, Debug, PartialEq, Eq)]
pub struct FieldDescriptor {
    pub name: String,
    pub ty: FieldType,
}

/// The generated aggregate type: one field per signature entry, in
/// receiver-then-parameter order. Every instance of the type is meant
/// to be decodable from a randomized byte stream and printable for
/// diagnostics; those two capabilities are attached uniformly by the
/// final emission step, not recorded per field.
///
/// Field names are unique as long as the host language has already
/// ruled out duplicate parameter identifiers and, for a method, a
/// parameter literally named `slf`; neither is re-checked here, and a
/// signature breaking the latter produces an aggregate with a
/// duplicated field name rather than an error.
#[derive(Clone, Debug, PartialEq, Eq)]
pub struct AggregateTypeDescriptor {
    pub name: String,
    pub fields: Vec<FieldDescriptor>,
}

/// How the adapter reconstructs the original call: a free function
/// call, a type-qualified call on the named enclosing type, or a
/// method call on the receiver field (whose original ownership mode is
/// recorded).
#[derive(Clone, Debug, PartialEq, Eq)]
pub enum CallKind {
    FreeFunction,
    AssociatedFunction(String),
    InstanceMethod(ParameterOwnership),
}

/// One argument expression of the reconstructed call, each reading the
/// named aggregate field: passed as is, reborrowed shared, or
/// reborrowed exclusive.
#[derive(Clone, Debug, PartialEq, Eq)]
pub enum ArgExpr {
    Direct(String),
    SharedReborrow(String),
    ExclusiveReborrow(String),
}

/// The generated adapter function: it takes one instance of the
/// aggregate type, performs the reconstructed call as its only
/// statement, discards the result, and returns nothing.
#[derive(Clone, Debug, PartialEq, Eq)]
pub struct CallAdapterDescriptor {
    pub name: String,
    pub input_type_name: String,
    pub callee: String,
    pub call_kind: CallKind,
    pub args: Vec<ArgExpr>,
}

/// The generated harness entry point, reduced to what the fuzzing
/// engine's callback registration needs: the fully qualified names of
/// the aggregate type and of the adapter function.
#[derive(Clone, Debug, PartialEq, Eq)]
pub struct HarnessDescriptor {
    pub aggregate_path: String,
    pub adapter_path: String,
}

/// Why a signature was rejected. Each variant corresponds to one
/// validation check; the checks run in a fixed order and the first
/// failing one decides the variant.
#[derive(Clone, Copy, Debug, PartialEq, Eq, Structural)]
pub enum Error {
    AsyncUnsupported,
    UnsafeUnsupported,
    EmptySignature,
    ComplexBindingPattern,
    UnsupportedArgumentShape,
    MultipleReceivers,
    MissingOrComplexSelfType,
}

impl Error {
    /// A short human-readable account of the rejection.
    pub fn message(&self) -> (r: &'static str)
        ensures
            r@ == self.message_spec(),
    {
        match self {
            Error::AsyncUnsupported => "async functions cannot be fuzzed",
            Error::UnsafeUnsupported => "unsafe functions cannot be fuzzed automatically",
            Error::EmptySignature => "a function without inputs gives the fuzzer nothing to vary",
            Error::ComplexBindingPattern => "parameters must be bound to plain identifiers",
            Error::UnsupportedArgumentShape => "parameter types must be simple named types or references to them",
            Error::MultipleReceivers => "a signature may have at most one receiver, in first position",
            Error::MissingOrComplexSelfType => "methods need a simple named enclosing type",
        }
    }

    /// The text that `message` returns for each variant.
    pub open spec fn message_spec(self) -> Seq<char> {
        match self {
            Error::AsyncUnsupported => "async functions cannot be fuzzed"@,
            Error::UnsafeUnsupported => "unsafe functions cannot be fuzzed automatically"@,
            Error::EmptySignature => "a function without inputs gives the fuzzer nothing to vary"@,
            Error::ComplexBindingPattern => "parameters must be bound to plain identifiers"@,
            Error::UnsupportedArgumentShape => "parameter types must be simple named types or references to them"@,
            Error::MultipleReceivers => "a signature may have at most one receiver, in first position"@,
            Error::MissingOrComplexSelfType => "methods need a simple named enclosing type"@,
        }
    }
}

} // verus!
