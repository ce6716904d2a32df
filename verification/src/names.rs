//! The naming scheme for generated symbols.
//!
//! Both generated names are keyed on the enclosing-type name (when
//! there is one) and the function name, in that order, so that two
//! functions of the same name attached to different enclosing types —
//! or one free and one method-scoped — never collide.

use vstd::prelude::*;
use vstd::string::StringExecFns;

verus! {

/// The name of the generated aggregate type.
pub open spec fn aggregate_name_spec(enclosing: Option<Seq<char>>, function_name: Seq<char>) -> Seq<
    char,
> {
    match enclosing {
        Some(t) => "__fuzz_struct_"@ + t + "_"@ + function_name,
        None => "__fuzz_struct_"@ + function_name,
    }
}

/// The name of the generated adapter function.
pub open spec fn adapter_name_spec(enclosing: Option<Seq<char>>, function_name: Seq<char>) -> Seq<
    char,
> {
    match enclosing {
        Some(t) => "__fuzz_"@ + t + "_"@ + function_name,
        None => "__fuzz_"@ + function_name,
    }
}

/// The view of an optional borrowed name.
pub open spec fn opt_name(o: Option<&String>) -> Option<Seq<char>> {
    match o {
        Some(s) => Some(s@),
        None => None,
    }
}

/// The view of an optional owned name.
pub open spec fn opt_name_owned(o: Option<String>) -> Option<Seq<char>> {
    match o {
        Some(s) => Some(s@),
        None => None,
    }
}

/// Two functions of the same name attached to different enclosing
/// types get different generated names, for the aggregate and for the
/// adapter alike.
pub proof fn lemma_names_distinct_enclosing(t1: Seq<char>, t2: Seq<char>, f: Seq<char>)
    requires
        t1 != t2,
    ensures
        aggregate_name_spec(Some(t1), f) != aggregate_name_spec(Some(t2), f),
        adapter_name_spec(Some(t1), f) != adapter_name_spec(Some(t2), f),
{
    let p1 = "__fuzz_struct_"@;
    let a1 = aggregate_name_spec(Some(t1), f);
    let a2 = aggregate_name_spec(Some(t2), f);
    if a1 == a2 {
        assert(a1 == p1 + t1 + "_"@ + f);
        assert(a2 == p1 + t2 + "_"@ + f);
        assert(a1.len() == p1.len() + t1.len() + "_"@.len() + f.len());
        assert(a2.len() == p1.len() + t2.len() + "_"@.len() + f.len());
        assert(t1.len() == t2.len());
        assert forall|i: int| 0 <= i < t1.len() implies t1[i] == t2[i] by {
            assert(a1[p1.len() + i] == t1[i]);
            assert(a2[p1.len() + i] == t2[i]);
        }
        assert(t1 =~= t2);
    }
    let p2 = "__fuzz_"@;
    let b1 = adapter_name_spec(Some(t1), f);
    let b2 = adapter_name_spec(Some(t2), f);
    if b1 == b2 {
        assert(b1 == p2 + t1 + "_"@ + f);
        assert(b2 == p2 + t2 + "_"@ + f);
        assert(b1.len() == p2.len() + t1.len() + "_"@.len() + f.len());
        assert(b2.len() == p2.len() + t2.len() + "_"@.len() + f.len());
        assert(t1.len() == t2.len());
        assert forall|i: int| 0 <= i < t1.len() implies t1[i] == t2[i] by {
            assert(b1[p2.len() + i] == t1[i]);
            assert(b2[p2.len() + i] == t2[i]);
        }
        assert(t1 =~= t2);
    }
}

/// A method-scoped function and a free function of the same name get
/// different generated names, as long as the enclosing type's name is
/// not empty.
pub proof fn lemma_names_distinct_free(t: Seq<char>, f: Seq<char>)
    requires
        t.len() > 0,
    ensures
        aggregate_name_spec(Some(t), f) != aggregate_name_spec(None, f),
        adapter_name_spec(Some(t), f) != adapter_name_spec(None, f),
{
    assert(aggregate_name_spec(Some(t), f).len() != aggregate_name_spec(None, f).len());
    assert(adapter_name_spec(Some(t), f).len() != adapter_name_spec(None, f).len());
}

/// Derives the aggregate type's name from the enclosing-type name, if
/// any, and the function name.
pub fn aggregate_name(enclosing: Option<&String>, function_name: &String) -> (r: String)
    ensures
        r@ == aggregate_name_spec(opt_name(enclosing), function_name@),
{
    let mut s = "__fuzz_struct_".to_owned();
    match enclosing {
        Some(t) => {
            s.append(t.as_str());
            s.append("_");
        },
        None => {},
    }
    s.append(function_name.as_str());
    s
}

/// Derives the adapter function's name from the enclosing-type name,
/// if any, and the function name.
pub fn adapter_name(enclosing: Option<&String>, function_name: &String) -> (r: String)
    ensures
        r@ == adapter_name_spec(opt_name(enclosing), function_name@),
{
    let mut s = "__fuzz_".to_owned();
    match enclosing {
        Some(t) => {
            s.append(t.as_str());
            s.append("_");
        },
        None => {},
    }
    s.append(function_name.as_str());
    s
}

} // verus!
