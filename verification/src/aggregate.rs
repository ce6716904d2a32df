//! Synthesis of the aggregate input type: one field per signature
//! entry, in receiver-then-parameter order, with referenced parameters
//! stored as their owned boxed counterparts.

use vstd::prelude::*;
use vstd::string::StringExecFns;

use crate::model::AggregateTypeDescriptor;
use crate::model::BindingShape;
use crate::model::Error;
use crate::model::FieldDescriptor;
use crate::model::FieldType;
use crate::model::FnInput;
use crate::model::ParameterDescriptor;
use crate::model::ParameterOwnership;
use crate::model::SignatureDescriptor;
use crate::model::TypeShape;
use crate::model::ValidatedSignature;
use crate::names::aggregate_name;
use crate::names::aggregate_name_spec;
use crate::names::opt_name_owned;
use crate::validate::ctx_name;
use crate::validate::ctx_of;
use crate::validate::describes_param;
use crate::validate::has_receiver;
use crate::validate::param_list;
use crate::validate::receiver_offset;
use crate::validate::validate;
use crate::validate::validation_error;

verus! {

/// The storage transform applied to one normalized parameter: a
/// by-value parameter keeps its own type, a referenced one is stored
/// boxed; the field carries the parameter's identifier.
pub open spec fn field_matches_param(f: FieldDescriptor, d: ParameterDescriptor) -> bool {
    &&& f.name@ == d.name@
    &&& match d.ownership {
        ParameterOwnership::ByValue => f.ty matches FieldType::Plain(t) && t@ == d.referent_type@,
        _ => f.ty matches FieldType::Boxed(t) && t@ == d.referent_type@,
    }
}

/// The receiver's field: always named `slf`, typed by the storage
/// transform against the enclosing type.
pub open spec fn receiver_field(
    f: FieldDescriptor,
    ownership: ParameterOwnership,
    enclosing: Seq<char>,
) -> bool {
    &&& f.name@ == "slf"@
    &&& match ownership {
        ParameterOwnership::ByValue => f.ty matches FieldType::Plain(t) && t@ == enclosing,
        _ => f.ty matches FieldType::Boxed(t) && t@ == enclosing,
    }
}

/// The aggregate built from a validated signature: the derived name,
/// the `slf` field first if and only if there is a receiver, then one
/// field per parameter, in order.
pub open spec fn aggregate_for_valid(agg: AggregateTypeDescriptor, v: ValidatedSignature) -> bool {
    let off: int = if v.receiver is Some {
        1int
    } else {
        0int
    };
    &&& agg.name@ == aggregate_name_spec(opt_name_owned(v.enclosing), v.function_name@)
    &&& agg.fields@.len() == off + v.parameters@.len()
    &&& (v.receiver matches Some(r) ==> v.enclosing matches Some(e) && receiver_field(
        agg.fields@[0],
        r.ownership,
        e@,
    ))
    &&& forall|i: int|
        off <= i < agg.fields@.len() ==> field_matches_param(
            #[trigger] agg.fields@[i],
            v.parameters@[i - off],
        )
}

/// The same correspondence stated against the raw signature entry the
/// parameter came from.
pub open spec fn field_describes_input(f: FieldDescriptor, x: FnInput) -> bool {
    &&& x matches FnInput::Typed(p)
    &&& p.binding matches BindingShape::Simple(nm) && f.name@ == nm@
    &&& match p.ty {
        TypeShape::SimpleNamed(t) => f.ty matches FieldType::Plain(ft) && ft@ == t@,
        TypeShape::SharedRefOf(t) => f.ty matches FieldType::Boxed(ft) && ft@ == t@,
        TypeShape::ExclusiveRefOf(t) => f.ty matches FieldType::Boxed(ft) && ft@ == t@,
        TypeShape::Other => false,
    }
}

/// The aggregate owed to a supported raw signature: derived name,
/// receiver field first when the signature opens with a receiver, and
/// one field per remaining input, in declaration order.
pub open spec fn aggregate_for(
    agg: AggregateTypeDescriptor,
    sig: SignatureDescriptor,
    ctx: Option<TypeShape>,
) -> bool {
    let params = param_list(sig.inputs@);
    let off = receiver_offset(sig.inputs@);
    &&& agg.name@ == aggregate_name_spec(ctx_name(ctx), sig.function_name@)
    &&& agg.fields@.len() == off + params.len()
    &&& (has_receiver(sig.inputs@) ==> {
        &&& sig.inputs@[0] matches FnInput::Receiver(o)
        &&& ctx_name(ctx) matches Some(t) && receiver_field(agg.fields@[0], o, t)
    })
    &&& forall|i: int|
        off <= i < agg.fields@.len() ==> field_describes_input(
            #[trigger] agg.fields@[i],
            params[i - off],
        )
}

/// Builds the aggregate type descriptor from a validated signature.
#[verifier::loop_isolation(false)]
pub fn synthesize_aggregate(v: &ValidatedSignature) -> (r: AggregateTypeDescriptor)
    requires
        v.wf(),
    ensures
        aggregate_for_valid(r, *v),
{
    let name = aggregate_name(v.enclosing.as_ref(), &v.function_name);
    let mut fields: Vec<FieldDescriptor> = Vec::new();
    match (&v.receiver, &v.enclosing) {
        (Some(r), Some(e)) => {
            let ty = match r.ownership {
                ParameterOwnership::ByValue => FieldType::Plain(e.clone()),
                _ => FieldType::Boxed(e.clone()),
            };
            fields.push(FieldDescriptor { name: "slf".to_owned(), ty });
        },
        _ => {},
    }
    let off = fields.len();
    let n = v.parameters.len();
    let mut i: usize = 0;
    while i < n
        invariant
            i <= n,
            fields@.len() == off + i,
            v.receiver matches Some(r) ==> v.enclosing matches Some(e) && receiver_field(
                fields@[0],
                r.ownership,
                e@,
            ),
            forall|j: int|
                off <= j < fields@.len() ==> field_matches_param(
                    #[trigger] fields@[j],
                    v.parameters@[j - off],
                ),
        decreases n - i,
    {
        let d = &v.parameters[i];
        let ty = match d.ownership {
            ParameterOwnership::ByValue => FieldType::Plain(d.referent_type.clone()),
            _ => FieldType::Boxed(d.referent_type.clone()),
        };
        fields.push(FieldDescriptor { name: d.name.clone(), ty });
        i = i + 1;
    }
    AggregateTypeDescriptor { name, fields }
}

/// Validates a raw signature and, when it is supported, builds the
/// aggregate type descriptor for it; a rejected signature yields the
/// first failing check's error instead.
pub fn fuzz_struct(sig: &SignatureDescriptor, enclosing: Option<&TypeShape>) -> (r: Result<
    AggregateTypeDescriptor,
    Error,
>)
    ensures
        match r {
            Ok(agg) => {
                &&& validation_error(*sig, ctx_of(enclosing)) is None
                &&& aggregate_for(agg, *sig, ctx_of(enclosing))
            },
            Err(e) => validation_error(*sig, ctx_of(enclosing)) == Some(e),
        },
{
    let v = match validate(sig, enclosing) {
        Ok(v) => v,
        Err(e) => {
            return Err(e);
        },
    };
    let agg = synthesize_aggregate(&v);
    proof {
        let ctx = ctx_of(enclosing);
        let params = param_list(sig.inputs@);
        let off = receiver_offset(sig.inputs@);
        assert((v.receiver is Some) == has_receiver(sig.inputs@));
        assert forall|i: int|
            off <= i < agg.fields@.len() implies field_describes_input(
            #[trigger] agg.fields@[i],
            params[i - off],
        ) by {
            assert(field_matches_param(agg.fields@[i], v.parameters@[i - off]));
            assert(describes_param(v.parameters@[i - off], params[i - off]));
        }
    }
    Ok(agg)
}

} // verus!
