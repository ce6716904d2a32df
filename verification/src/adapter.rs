//! Synthesis of the call adapter: the function that unpacks one
//! aggregate instance and performs the original call with the
//! ownership each argument was declared with, discarding the result.

use vstd::prelude::*;
use vstd::string::StringExecFns;

use crate::model::ArgExpr;
use crate::model::BindingShape;
use crate::model::CallAdapterDescriptor;
use crate::model::CallKind;
use crate::model::Error;
use crate::model::FnInput;
use crate::model::ParameterDescriptor;
use crate::model::ParameterOwnership;
use crate::model::SignatureDescriptor;
use crate::model::TypeShape;
use crate::model::ValidatedSignature;
use crate::names::adapter_name;
use crate::names::adapter_name_spec;
use crate::names::aggregate_name;
use crate::names::aggregate_name_spec;
use crate::names::opt_name_owned;
use crate::validate::ctx_name;
use crate::validate::ctx_of;
use crate::validate::describes_param;
use crate::validate::has_receiver;
use crate::validate::param_list;
use crate::validate::validate;
use crate::validate::validation_error;

verus! {

/// The call-site transform applied to one normalized parameter: a
/// by-value parameter is passed as the field itself, a referenced one
/// as a reborrow of the field with the original mutability.
pub open spec fn arg_matches_param(a: ArgExpr, d: ParameterDescriptor) -> bool {
    match d.ownership {
        ParameterOwnership::ByValue => a matches ArgExpr::Direct(n) && n@ == d.name@,
        ParameterOwnership::SharedRef => a matches ArgExpr::SharedReborrow(n) && n@ == d.name@,
        ParameterOwnership::ExclusiveRef => a matches ArgExpr::ExclusiveReborrow(n) && n@
            == d.name@,
    }
}

/// The call kind owed to a validated signature: a method call whenever
/// there is a receiver, otherwise a type-qualified call whenever an
/// enclosing type is named, otherwise a free call.
pub open spec fn call_kind_for_valid(k: CallKind, v: ValidatedSignature) -> bool {
    match v.receiver {
        Some(r) => k matches CallKind::InstanceMethod(o) && o == r.ownership,
        None => match v.enclosing {
            Some(t) => k matches CallKind::AssociatedFunction(n) && n@ == t@,
            None => k is FreeFunction,
        },
    }
}

/// The adapter built from a validated signature: the derived names,
/// the callee, the call kind, and one argument expression per
/// parameter, in order.
pub open spec fn adapter_for_valid(d: CallAdapterDescriptor, v: ValidatedSignature) -> bool {
    &&& d.name@ == adapter_name_spec(opt_name_owned(v.enclosing), v.function_name@)
    &&& d.input_type_name@ == aggregate_name_spec(opt_name_owned(v.enclosing), v.function_name@)
    &&& d.callee@ == v.function_name@
    &&& call_kind_for_valid(d.call_kind, v)
    &&& d.args@.len() == v.parameters@.len()
    &&& forall|i: int|
        0 <= i < d.args@.len() ==> arg_matches_param(#[trigger] d.args@[i], v.parameters@[i])
}

/// The same correspondence stated against the raw signature entry the
/// parameter came from.
pub open spec fn arg_describes_input(a: ArgExpr, x: FnInput) -> bool {
    &&& x matches FnInput::Typed(p)
    &&& p.binding matches BindingShape::Simple(nm) && match p.ty {
        TypeShape::SimpleNamed(_) => a matches ArgExpr::Direct(n) && n@ == nm@,
        TypeShape::SharedRefOf(_) => a matches ArgExpr::SharedReborrow(n) && n@ == nm@,
        TypeShape::ExclusiveRefOf(_) => a matches ArgExpr::ExclusiveReborrow(n) && n@ == nm@,
        TypeShape::Other => false,
    }
}

/// The call kind owed to a supported raw signature in its context.
pub open spec fn call_kind_for(
    k: CallKind,
    sig: SignatureDescriptor,
    ctx: Option<TypeShape>,
) -> bool {
    if has_receiver(sig.inputs@) {
        &&& sig.inputs@[0] matches FnInput::Receiver(o)
        &&& k matches CallKind::InstanceMethod(m) && m == o
    } else {
        match ctx_name(ctx) {
            Some(t) => k matches CallKind::AssociatedFunction(n) && n@ == t,
            None => k is FreeFunction,
        }
    }
}

/// The adapter owed to a supported raw signature: derived names, the
/// original function as callee, the call kind of its context, and one
/// argument expression per non-receiver input, in declaration order.
pub open spec fn adapter_for(
    d: CallAdapterDescriptor,
    sig: SignatureDescriptor,
    ctx: Option<TypeShape>,
) -> bool {
    let params = param_list(sig.inputs@);
    &&& d.name@ == adapter_name_spec(ctx_name(ctx), sig.function_name@)
    &&& d.input_type_name@ == aggregate_name_spec(ctx_name(ctx), sig.function_name@)
    &&& d.callee@ == sig.function_name@
    &&& call_kind_for(d.call_kind, sig, ctx)
    &&& d.args@.len() == params.len()
    &&& forall|i: int|
        0 <= i < d.args@.len() ==> arg_describes_input(#[trigger] d.args@[i], params[i])
}

/// The text of one argument expression.
pub open spec fn arg_text(a: ArgExpr) -> Seq<char> {
    match a {
        ArgExpr::Direct(n) => "input."@ + n@,
        ArgExpr::SharedReborrow(n) => "&*input."@ + n@,
        ArgExpr::ExclusiveReborrow(n) => "&mut *input."@ + n@,
    }
}

/// The text of an argument list, separated by comma and space.
pub open spec fn args_text(s: Seq<ArgExpr>) -> Seq<char>
    decreases s.len(),
{
    if s.len() == 0 {
        Seq::empty()
    } else if s.len() == 1 {
        arg_text(s[0])
    } else {
        args_text(s.drop_last()) + ", "@ + arg_text(s.last())
    }
}

/// What stands before the callee's name in the reconstructed call:
/// nothing for a free function, the enclosing type's qualification for
/// an associated function, and the parenthesized receiver field for a
/// method call.
pub open spec fn callee_prefix_text(k: CallKind) -> Seq<char> {
    match k {
        CallKind::FreeFunction => Seq::empty(),
        CallKind::AssociatedFunction(t) => t@ + "::"@,
        CallKind::InstanceMethod(_) => "(input.slf)."@,
    }
}

/// The full text of the adapter's single statement: the reconstructed
/// call, result discarded.
pub open spec fn adapter_body_text(d: CallAdapterDescriptor) -> Seq<char> {
    callee_prefix_text(d.call_kind) + d.callee@ + "("@ + args_text(d.args@) + ");"@
}

impl CallAdapterDescriptor {
    /// Renders the adapter's body — the one statement performing the
    /// reconstructed call — as source text.
    #[verifier::loop_isolation(false)]
    pub fn render_body(&self) -> (r: String)
        ensures
            r@ == adapter_body_text(*self),
    {
        let mut s: String = match &self.call_kind {
            CallKind::FreeFunction => String::new(),
            CallKind::AssociatedFunction(t) => {
                let mut q = t.clone();
                q.append("::");
                q
            },
            CallKind::InstanceMethod(_) => "(input.slf).".to_owned(),
        };
        s.append(self.callee.as_str());
        s.append("(");
        let ghost stem: Seq<char> = callee_prefix_text(self.call_kind) + self.callee@ + "("@;
        assert(s@ =~= stem + args_text(self.args@.take(0)));
        let n = self.args.len();
        let mut i: usize = 0;
        while i < n
            invariant
                i <= n,
                s@ == stem + args_text(self.args@.take(i as int)),
            decreases n - i,
        {
            if i > 0 {
                s.append(", ");
            }
            match &self.args[i] {
                ArgExpr::Direct(nm) => {
                    s.append("input.");
                    s.append(nm.as_str());
                },
                ArgExpr::SharedReborrow(nm) => {
                    s.append("&*input.");
                    s.append(nm.as_str());
                },
                ArgExpr::ExclusiveReborrow(nm) => {
                    s.append("&mut *input.");
                    s.append(nm.as_str());
                },
            }
            proof {
                let pre = self.args@.take(i as int);
                let cur = self.args@.take(i + 1 as int);
                assert(cur.drop_last() =~= pre);
                assert(cur.last() == self.args@[i as int]);
                if i == 0 {
                    assert(args_text(cur) == arg_text(self.args@[0]));
                } else {
                    assert(args_text(cur) == args_text(pre) + ", "@ + arg_text(
                        self.args@[i as int],
                    ));
                }
                assert(s@ =~= stem + args_text(cur));
            }
            i = i + 1;
        }
        proof {
            assert(self.args@.take(n as int) =~= self.args@);
        }
        s.append(");");
        proof {
            assert(s@ =~= adapter_body_text(*self));
        }
        s
    }
}

/// Builds the call adapter descriptor from a validated signature.
#[verifier::loop_isolation(false)]
pub fn synthesize_adapter(v: &ValidatedSignature) -> (r: CallAdapterDescriptor)
    requires
        v.wf(),
    ensures
        adapter_for_valid(r, *v),
{
    let name = adapter_name(v.enclosing.as_ref(), &v.function_name);
    let input_type_name = aggregate_name(v.enclosing.as_ref(), &v.function_name);
    let callee = v.function_name.clone();
    let call_kind: CallKind = match (&v.receiver, &v.enclosing) {
        (Some(r), _) => CallKind::InstanceMethod(r.ownership),
        (None, Some(t)) => CallKind::AssociatedFunction(t.clone()),
        (None, None) => CallKind::FreeFunction,
    };
    let n = v.parameters.len();
    let mut args: Vec<ArgExpr> = Vec::new();
    let mut i: usize = 0;
    while i < n
        invariant
            i <= n,
            args@.len() == i,
            forall|j: int|
                0 <= j < i ==> arg_matches_param(#[trigger] args@[j], v.parameters@[j]),
        decreases n - i,
    {
        let d = &v.parameters[i];
        let a = match d.ownership {
            ParameterOwnership::ByValue => ArgExpr::Direct(d.name.clone()),
            ParameterOwnership::SharedRef => ArgExpr::SharedReborrow(d.name.clone()),
            ParameterOwnership::ExclusiveRef => ArgExpr::ExclusiveReborrow(d.name.clone()),
        };
        args.push(a);
        i = i + 1;
    }
    CallAdapterDescriptor { name, input_type_name, callee, call_kind, args }
}

/// Validates a raw signature and, when it is supported, builds the
/// call adapter descriptor for it; a rejected signature yields the
/// first failing check's error instead.
pub fn fuzz_function(sig: &SignatureDescriptor, enclosing: Option<&TypeShape>) -> (r: Result<
    CallAdapterDescriptor,
    Error,
>)
    ensures
        match r {
            Ok(d) => {
                &&& validation_error(*sig, ctx_of(enclosing)) is None
                &&& adapter_for(d, *sig, ctx_of(enclosing))
            },
            Err(e) => validation_error(*sig, ctx_of(enclosing)) == Some(e),
        },
{
    let v = match validate(sig, enclosing) {
        Ok(v) => v,
        Err(e) => {
            return Err(e);
        },
    };
    let d = synthesize_adapter(&v);
    proof {
        let params = param_list(sig.inputs@);
        assert((v.receiver is Some) == has_receiver(sig.inputs@));
        assert forall|i: int|
            0 <= i < d.args@.len() implies arg_describes_input(
            #[trigger] d.args@[i],
            params[i],
        ) by {
            assert(arg_matches_param(d.args@[i], v.parameters@[i]));
            assert(describes_param(v.parameters@[i], params[i]));
        }
    }
    Ok(d)
}

} // verus!
