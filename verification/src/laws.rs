//! The laws the generator obeys, stated over whole signatures and
//! proved from the contracts of validation and synthesis.

use vstd::prelude::*;

use crate::adapter::adapter_for;
use crate::adapter::arg_describes_input;
use crate::aggregate::aggregate_for;
use crate::aggregate::field_describes_input;
use crate::model::AggregateTypeDescriptor;
use crate::model::ArgExpr;
use crate::model::BindingShape;
use crate::model::CallAdapterDescriptor;
use crate::model::CallKind;
use crate::model::Error;
use crate::model::FieldDescriptor;
use crate::model::FieldType;
use crate::model::FnInput;
use crate::model::ParameterOwnership;
use crate::model::SignatureDescriptor;
use crate::model::TypeShape;
use crate::validate::all_bindings_ok;
use crate::validate::binding_ok;
use crate::validate::ctx_name;
use crate::validate::has_receiver;
use crate::validate::param_list;
use crate::validate::receiver_offset;
use crate::validate::validation_error;

verus! {

/// Every parameter of the signature is taken by value.
pub open spec fn all_params_by_value(inputs: Seq<FnInput>) -> bool {
    forall|i: int|
        0 <= i < inputs.len() ==> (#[trigger] inputs[i] matches FnInput::Typed(p) ==> p.ty
            is SimpleNamed)
}

/// What a by-value parameter contributes: a field with the parameter's
/// own name and unwrapped type, and an adapter argument passing that
/// field directly.
pub open spec fn by_value_entry(f: FieldDescriptor, a: ArgExpr, x: FnInput) -> bool {
    &&& x matches FnInput::Typed(p)
    &&& p.binding matches BindingShape::Simple(nm)
    &&& p.ty matches TypeShape::SimpleNamed(t)
    &&& f.name@ == nm@
    &&& f.ty matches FieldType::Plain(ft) && ft@ == t@
    &&& a matches ArgExpr::Direct(an) && an@ == nm@
}

/// For every supported signature all of whose parameters are taken by
/// value, the aggregate holds exactly one field per parameter, with
/// identical name and type and in declaration order, and the adapter's
/// positional arguments read exactly those fields, in the same order.
pub proof fn lemma_by_value_signature(
    agg: AggregateTypeDescriptor,
    d: CallAdapterDescriptor,
    sig: SignatureDescriptor,
    ctx: Option<TypeShape>,
)
    requires
        validation_error(sig, ctx) is None,
        aggregate_for(agg, sig, ctx),
        adapter_for(d, sig, ctx),
        all_params_by_value(sig.inputs@),
    ensures
        agg.fields@.len() == receiver_offset(sig.inputs@) + param_list(sig.inputs@).len(),
        d.args@.len() == param_list(sig.inputs@).len(),
        forall|i: int|
            0 <= i < param_list(sig.inputs@).len() ==> by_value_entry(
                agg.fields@[receiver_offset(sig.inputs@) + i],
                #[trigger] d.args@[i],
                param_list(sig.inputs@)[i],
            ),
{
    let off = receiver_offset(sig.inputs@);
    let params = param_list(sig.inputs@);
    assert forall|i: int| 0 <= i < params.len() implies by_value_entry(
        agg.fields@[off + i],
        #[trigger] d.args@[i],
        params[i],
    ) by {
        assert(params[i] == sig.inputs@[off + i]);
        assert(field_describes_input(agg.fields@[off + i], params[i]));
        assert(arg_describes_input(d.args@[i], params[i]));
    }
}

/// What a shared-reference parameter contributes: a field with the
/// parameter's name and the owned boxed counterpart of its referent
/// type, and an adapter argument reborrowing that field shared.
pub open spec fn shared_ref_entry(f: FieldDescriptor, a: ArgExpr, x: FnInput) -> bool {
    &&& x matches FnInput::Typed(p)
    &&& p.binding matches BindingShape::Simple(nm)
    &&& p.ty matches TypeShape::SharedRefOf(t)
    &&& f.name@ == nm@
    &&& f.ty matches FieldType::Boxed(ft) && ft@ == t@
    &&& a matches ArgExpr::SharedReborrow(an) && an@ == nm@
}

/// For every supported signature and every parameter of it taken by
/// shared reference, the matching aggregate field stores the owned
/// counterpart of the referent type and the matching adapter argument
/// is a shared reborrow of that field.
pub proof fn lemma_shared_ref_parameter(
    agg: AggregateTypeDescriptor,
    d: CallAdapterDescriptor,
    sig: SignatureDescriptor,
    ctx: Option<TypeShape>,
    i: int,
)
    requires
        validation_error(sig, ctx) is None,
        aggregate_for(agg, sig, ctx),
        adapter_for(d, sig, ctx),
        0 <= i < param_list(sig.inputs@).len(),
        param_list(sig.inputs@)[i] matches FnInput::Typed(p) && p.ty is SharedRefOf,
    ensures
        shared_ref_entry(
            agg.fields@[receiver_offset(sig.inputs@) + i],
            d.args@[i],
            param_list(sig.inputs@)[i],
        ),
{
    let off = receiver_offset(sig.inputs@);
    assert(field_describes_input(agg.fields@[off + i], param_list(sig.inputs@)[i]));
    assert(arg_describes_input(d.args@[i], param_list(sig.inputs@)[i]));
}

/// What an exclusive-reference parameter contributes: a field with the
/// parameter's name and the owned boxed counterpart of its referent
/// type, and an adapter argument reborrowing that field exclusively.
pub open spec fn exclusive_ref_entry(f: FieldDescriptor, a: ArgExpr, x: FnInput) -> bool {
    &&& x matches FnInput::Typed(p)
    &&& p.binding matches BindingShape::Simple(nm)
    &&& p.ty matches TypeShape::ExclusiveRefOf(t)
    &&& f.name@ == nm@
    &&& f.ty matches FieldType::Boxed(ft) && ft@ == t@
    &&& a matches ArgExpr::ExclusiveReborrow(an) && an@ == nm@
}

/// For every supported signature and every parameter of it taken by
/// exclusive reference, the matching aggregate field stores the owned
/// counterpart of the referent type and the matching adapter argument
/// is an exclusive reborrow of that field.
pub proof fn lemma_exclusive_ref_parameter(
    agg: AggregateTypeDescriptor,
    d: CallAdapterDescriptor,
    sig: SignatureDescriptor,
    ctx: Option<TypeShape>,
    i: int,
)
    requires
        validation_error(sig, ctx) is None,
        aggregate_for(agg, sig, ctx),
        adapter_for(d, sig, ctx),
        0 <= i < param_list(sig.inputs@).len(),
        param_list(sig.inputs@)[i] matches FnInput::Typed(p) && p.ty is ExclusiveRefOf,
    ensures
        exclusive_ref_entry(
            agg.fields@[receiver_offset(sig.inputs@) + i],
            d.args@[i],
            param_list(sig.inputs@)[i],
        ),
{
    let off = receiver_offset(sig.inputs@);
    assert(field_describes_input(agg.fields@[off + i], param_list(sig.inputs@)[i]));
    assert(arg_describes_input(d.args@[i], param_list(sig.inputs@)[i]));
}

/// For every supported method signature whose receiver is taken by
/// exclusive reference, the aggregate's first field is named `slf` and
/// stores the owned boxed counterpart of the enclosing type, and the
/// adapter performs a method call on that field with the receiver's
/// exclusive mode.
pub proof fn lemma_exclusive_receiver(
    agg: AggregateTypeDescriptor,
    d: CallAdapterDescriptor,
    sig: SignatureDescriptor,
    ctx: Option<TypeShape>,
)
    requires
        validation_error(sig, ctx) is None,
        aggregate_for(agg, sig, ctx),
        adapter_for(d, sig, ctx),
        has_receiver(sig.inputs@),
        sig.inputs@[0] == FnInput::Receiver(ParameterOwnership::ExclusiveRef),
    ensures
        agg.fields@[0].name@ == "slf"@,
        ctx_name(ctx) matches Some(t) && agg.fields@[0].ty matches FieldType::Boxed(ft) && ft@
            == t,
        d.call_kind == CallKind::InstanceMethod(ParameterOwnership::ExclusiveRef),
{
}

/// For every supported method signature whose receiver is taken by
/// value, the aggregate's receiver field stores the enclosing type
/// unwrapped, and the adapter still performs a method call on it.
pub proof fn lemma_by_value_receiver(
    agg: AggregateTypeDescriptor,
    d: CallAdapterDescriptor,
    sig: SignatureDescriptor,
    ctx: Option<TypeShape>,
)
    requires
        validation_error(sig, ctx) is None,
        aggregate_for(agg, sig, ctx),
        adapter_for(d, sig, ctx),
        has_receiver(sig.inputs@),
        sig.inputs@[0] == FnInput::Receiver(ParameterOwnership::ByValue),
    ensures
        agg.fields@[0].name@ == "slf"@,
        ctx_name(ctx) matches Some(t) && agg.fields@[0].ty matches FieldType::Plain(ft) && ft@
            == t,
        d.call_kind == CallKind::InstanceMethod(ParameterOwnership::ByValue),
{
}

/// The identifier a raw input binds, and nothing for a receiver or a
/// complex binding.
pub open spec fn input_name(x: FnInput) -> Seq<char> {
    match x {
        FnInput::Typed(p) => match p.binding {
            BindingShape::Simple(n) => n@,
            BindingShape::Other => Seq::empty(),
        },
        FnInput::Receiver(_) => Seq::empty(),
    }
}

/// For every supported signature whose parameter identifiers are
/// pairwise distinct and none of which is literally `slf`, the
/// aggregate's field names are pairwise distinct.
pub proof fn lemma_field_names_unique(
    agg: AggregateTypeDescriptor,
    sig: SignatureDescriptor,
    ctx: Option<TypeShape>,
)
    requires
        validation_error(sig, ctx) is None,
        aggregate_for(agg, sig, ctx),
        forall|i: int, j: int|
            0 <= i < j < param_list(sig.inputs@).len() ==> input_name(
                #[trigger] param_list(sig.inputs@)[i],
            ) != input_name(#[trigger] param_list(sig.inputs@)[j]),
        forall|i: int|
            0 <= i < param_list(sig.inputs@).len() ==> input_name(
                #[trigger] param_list(sig.inputs@)[i],
            ) != "slf"@,
    ensures
        forall|i: int, j: int|
            0 <= i < j < agg.fields@.len() ==> (#[trigger] agg.fields@[i]).name@ != (
            #[trigger] agg.fields@[j]).name@,
{
    let off = receiver_offset(sig.inputs@);
    let params = param_list(sig.inputs@);
    assert forall|i: int, j: int| 0 <= i < j < agg.fields@.len() implies (
    #[trigger] agg.fields@[i]).name@ != (#[trigger] agg.fields@[j]).name@ by {
        assert(field_describes_input(agg.fields@[j], params[j - off]));
        assert(agg.fields@[j].name@ == input_name(params[j - off]));
        if i < off {
            assert(agg.fields@[i].name@ == "slf"@);
        } else {
            assert(field_describes_input(agg.fields@[i], params[i - off]));
            assert(agg.fields@[i].name@ == input_name(params[i - off]));
        }
    }
}

/// A free function with no inputs at all is rejected as an empty
/// signature, whatever the context.
pub proof fn lemma_empty_signature(sig: SignatureDescriptor, ctx: Option<TypeShape>)
    requires
        !sig.is_async,
        !sig.is_unsafe,
        sig.inputs@.len() == 0,
    ensures
        validation_error(sig, ctx) == Some(Error::EmptySignature),
{
}

/// A signature marked async is rejected as such whatever its inputs
/// look like; one marked unsafe likewise, once the async check has
/// passed.
pub proof fn lemma_modifier_rejection(sig: SignatureDescriptor, ctx: Option<TypeShape>)
    ensures
        sig.is_async ==> validation_error(sig, ctx) == Some(Error::AsyncUnsupported),
        !sig.is_async && sig.is_unsafe ==> validation_error(sig, ctx) == Some(
            Error::UnsafeUnsupported,
        ),
{
}

/// A parameter bound by anything but a plain identifier is rejected as
/// a complex binding pattern, whatever the parameter types and the
/// receiver placement look like.
pub proof fn lemma_complex_binding(
    sig: SignatureDescriptor,
    ctx: Option<TypeShape>,
    i: int,
)
    requires
        !sig.is_async,
        !sig.is_unsafe,
        0 <= i < sig.inputs@.len(),
        sig.inputs@[i] matches FnInput::Typed(p) && p.binding is Other,
    ensures
        validation_error(sig, ctx) == Some(Error::ComplexBindingPattern),
{
    assert(!binding_ok(sig.inputs@[i]));
    assert(!all_bindings_ok(sig.inputs@));
}

} // verus!
