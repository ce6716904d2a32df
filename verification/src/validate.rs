//! Validation: deciding whether a raw signature falls in the supported
//! subset, and normalizing it when it does.
//!
//! The checks run in a fixed order and the first failing one decides
//! the error; a rejected signature yields no artifact at all.

use vstd::prelude::*;

use crate::model::BindingShape;
use crate::model::Error;
use crate::model::FnInput;
use crate::model::ParameterDescriptor;
use crate::model::ParameterOwnership;
use crate::model::ReceiverDescriptor;
use crate::model::SignatureDescriptor;
use crate::model::TypeShape;
use crate::model::ValidatedSignature;

verus! {

/// The input is either not a parameter, or bound to a plain identifier.
pub open spec fn binding_ok(x: FnInput) -> bool {
    x matches FnInput::Typed(p) ==> p.binding is Simple
}

/// The input is either not a parameter, or its type is a simple named
/// type or a reference to one.
pub open spec fn shape_ok(x: FnInput) -> bool {
    x matches FnInput::Typed(p) ==> !(p.ty is Other)
}

pub open spec fn all_bindings_ok(inputs: Seq<FnInput>) -> bool {
    forall|i: int| 0 <= i < inputs.len() ==> binding_ok(#[trigger] inputs[i])
}

pub open spec fn all_shapes_ok(inputs: Seq<FnInput>) -> bool {
    forall|i: int| 0 <= i < inputs.len() ==> shape_ok(#[trigger] inputs[i])
}

/// Every receiver, if any, stands in first position; this rules out
/// both a second receiver and a receiver after a parameter.
pub open spec fn receiver_only_first(inputs: Seq<FnInput>) -> bool {
    forall|i: int| 1 <= i < inputs.len() ==> !(#[trigger] inputs[i] is Receiver)
}

/// The signature opens with a receiver.
pub open spec fn has_receiver(inputs: Seq<FnInput>) -> bool {
    inputs.len() > 0 && inputs[0] is Receiver
}

/// The enclosing-type context as a value, abstracting over the
/// reference the executable entry points take.
pub open spec fn ctx_of(enclosing: Option<&TypeShape>) -> Option<TypeShape> {
    match enclosing {
        Some(t) => Some(*t),
        None => None,
    }
}

/// A context, when present, must be a simple named type.
pub open spec fn ctx_ok(ctx: Option<TypeShape>) -> bool {
    ctx matches Some(t) ==> t is SimpleNamed
}

/// The name of the enclosing type, when a simple one is present.
pub open spec fn ctx_name(ctx: Option<TypeShape>) -> Option<Seq<char>> {
    match ctx {
        Some(TypeShape::SimpleNamed(t)) => Some(t@),
        _ => None,
    }
}

/// The outcome of validation: the first failing check's error, or
/// `None` when the signature is supported. This is the single
/// definition every generation entry point is held to.
pub open spec fn validation_error(sig: SignatureDescriptor, ctx: Option<TypeShape>) -> Option<
    Error,
> {
    if sig.is_async {
        Some(Error::AsyncUnsupported)
    } else if sig.is_unsafe {
        Some(Error::UnsafeUnsupported)
    } else if sig.inputs@.len() == 0 {
        Some(Error::EmptySignature)
    } else if !all_bindings_ok(sig.inputs@) {
        Some(Error::ComplexBindingPattern)
    } else if !all_shapes_ok(sig.inputs@) {
        Some(Error::UnsupportedArgumentShape)
    } else if !receiver_only_first(sig.inputs@) {
        Some(Error::MultipleReceivers)
    } else if (has_receiver(sig.inputs@) && ctx is None) || !ctx_ok(ctx) {
        Some(Error::MissingOrComplexSelfType)
    } else {
        None
    }
}

/// Where parameter fields start in the aggregate: one when the
/// signature opens with a receiver, zero otherwise.
pub open spec fn receiver_offset(inputs: Seq<FnInput>) -> int {
    if has_receiver(inputs) {
        1int
    } else {
        0int
    }
}

/// The non-receiver inputs of a signature, in declaration order.
pub open spec fn param_list(inputs: Seq<FnInput>) -> Seq<FnInput> {
    if has_receiver(inputs) {
        inputs.skip(1)
    } else {
        inputs
    }
}

/// `d` is the normalized form of the raw input `x`: same identifier,
/// the type name behind any reference, and the matching ownership.
pub open spec fn describes_param(d: ParameterDescriptor, x: FnInput) -> bool {
    &&& x matches FnInput::Typed(p)
    &&& p.binding matches BindingShape::Simple(n) && d.name@ == n@
    &&& match p.ty {
        TypeShape::SimpleNamed(t) => d.ownership is ByValue && d.referent_type@ == t@,
        TypeShape::SharedRefOf(t) => d.ownership is SharedRef && d.referent_type@ == t@,
        TypeShape::ExclusiveRefOf(t) => d.ownership is ExclusiveRef && d.referent_type@ == t@,
        TypeShape::Other => false,
    }
}

/// `v` is the normalized form of the supported signature `sig` in
/// context `ctx`: same function name, the context's name recorded,
/// the receiver carried over, and one normalized parameter per raw
/// parameter, in order.
pub open spec fn validated_for(
    v: ValidatedSignature,
    sig: SignatureDescriptor,
    ctx: Option<TypeShape>,
) -> bool {
    &&& v.function_name@ == sig.function_name@
    &&& match ctx_name(ctx) {
        Some(n) => v.enclosing matches Some(e) && e@ == n,
        None => v.enclosing is None,
    }
    &&& if has_receiver(sig.inputs@) {
        &&& v.receiver matches Some(r)
        &&& sig.inputs@[0] matches FnInput::Receiver(o) && r.ownership == o
    } else {
        v.receiver is None
    }
    &&& v.parameters@.len() == param_list(sig.inputs@).len()
    &&& forall|i: int|
        0 <= i < v.parameters@.len() ==> describes_param(
            #[trigger] v.parameters@[i],
            param_list(sig.inputs@)[i],
        )
}

/// Checks a raw signature against the supported subset and normalizes
/// it. Exactly the signatures with `validation_error` `None` are
/// accepted; a rejected one comes back with the first failing check's
/// error and nothing else.
#[verifier::loop_isolation(false)]
pub fn validate(sig: &SignatureDescriptor, enclosing: Option<&TypeShape>) -> (r: Result<
    ValidatedSignature,
    Error,
>)
    ensures
        match r {
            Ok(v) => {
                &&& validation_error(*sig, ctx_of(enclosing)) is None
                &&& v.wf()
                &&& validated_for(v, *sig, ctx_of(enclosing))
            },
            Err(e) => validation_error(*sig, ctx_of(enclosing)) == Some(e),
        },
{
    if sig.is_async {
        return Err(Error::AsyncUnsupported);
    }
    if sig.is_unsafe {
        return Err(Error::UnsafeUnsupported);
    }
    let n = sig.inputs.len();
    if n == 0 {
        return Err(Error::EmptySignature);
    }
    let mut i: usize = 0;
    while i < n
        invariant
            forall|j: int| 0 <= j < i ==> binding_ok(#[trigger] sig.inputs@[j]),
        decreases n - i,
    {
        match &sig.inputs[i] {
            FnInput::Typed(p) => {
                match &p.binding {
                    BindingShape::Other => {
                        return Err(Error::ComplexBindingPattern);
                    },
                    BindingShape::Simple(_) => {},
                }
            },
            FnInput::Receiver(_) => {},
        }
        i = i + 1;
    }
    let mut i: usize = 0;
    while i < n
        invariant
            forall|j: int| 0 <= j < i ==> shape_ok(#[trigger] sig.inputs@[j]),
        decreases n - i,
    {
        match &sig.inputs[i] {
            FnInput::Typed(p) => {
                match &p.ty {
                    TypeShape::Other => {
                        return Err(Error::UnsupportedArgumentShape);
                    },
                    _ => {},
                }
            },
            FnInput::Receiver(_) => {},
        }
        i = i + 1;
    }
    let mut i: usize = 1;
    while i < n
        invariant
            1 <= i,
            forall|j: int| 1 <= j < i ==> !(#[trigger] sig.inputs@[j] is Receiver),
        decreases n - i,
    {
        match &sig.inputs[i] {
            FnInput::Receiver(_) => {
                return Err(Error::MultipleReceivers);
            },
            FnInput::Typed(_) => {},
        }
        i = i + 1;
    }
    let has_recv = match &sig.inputs[0] {
        FnInput::Receiver(_) => true,
        FnInput::Typed(_) => false,
    };
    match enclosing {
        Some(TypeShape::SimpleNamed(_)) => {},
        Some(_) => {
            return Err(Error::MissingOrComplexSelfType);
        },
        None => {
            if has_recv {
                return Err(Error::MissingOrComplexSelfType);
            }
        },
    }
    let enclosing_name: Option<String> = match enclosing {
        Some(TypeShape::SimpleNamed(t)) => Some(t.clone()),
        _ => None,
    };
    let receiver: Option<ReceiverDescriptor> = match &sig.inputs[0] {
        FnInput::Receiver(o) => Some(ReceiverDescriptor { ownership: *o }),
        FnInput::Typed(_) => None,
    };
    let start: usize = if has_recv {
        1
    } else {
        0
    };
    let mut parameters: Vec<ParameterDescriptor> = Vec::new();
    let mut i: usize = start;
    while i < n
        invariant
            start <= i <= n,
            parameters@.len() == i - start,
            forall|j: int|
                0 <= j < parameters@.len() ==> describes_param(
                    #[trigger] parameters@[j],
                    sig.inputs@[start + j],
                ),
        decreases n - i,
    {
        match &sig.inputs[i] {
            FnInput::Typed(p) => {
                let name: String = match &p.binding {
                    BindingShape::Simple(s) => s.clone(),
                    BindingShape::Other => vstd::pervasive::unreached(),
                };
                let d: ParameterDescriptor = match &p.ty {
                    TypeShape::SimpleNamed(t) => ParameterDescriptor {
                        name,
                        referent_type: t.clone(),
                        ownership: ParameterOwnership::ByValue,
                    },
                    TypeShape::SharedRefOf(t) => ParameterDescriptor {
                        name,
                        referent_type: t.clone(),
                        ownership: ParameterOwnership::SharedRef,
                    },
                    TypeShape::ExclusiveRefOf(t) => ParameterDescriptor {
                        name,
                        referent_type: t.clone(),
                        ownership: ParameterOwnership::ExclusiveRef,
                    },
                    TypeShape::Other => vstd::pervasive::unreached(),
                };
                parameters.push(d);
            },
            FnInput::Receiver(_) => vstd::pervasive::unreached(),
        }
        i = i + 1;
    }
    let v = ValidatedSignature {
        function_name: sig.function_name.clone(),
        enclosing: enclosing_name,
        receiver,
        parameters,
    };
    proof {
        assert forall|j: int| 0 <= j < v.parameters@.len() implies describes_param(
            #[trigger] v.parameters@[j],
            param_list(sig.inputs@)[j],
        ) by {
            assert(param_list(sig.inputs@)[j] == sig.inputs@[start + j]);
        }
    }
    Ok(v)
}

} // verus!

