//! Emission of the harness entry point: the binding of the generated
//! aggregate and adapter, under their fully qualified names, into the
//! fuzzing engine's callback convention.

use vstd::prelude::*;
use vstd::string::StringExecFns;

use crate::model::AggregateTypeDescriptor;
use crate::model::CallAdapterDescriptor;
use crate::model::HarnessDescriptor;

verus! {

/// The text contributed by the module-path segments: `::<segment>` for
/// each, in order, and nothing for an empty path.
pub open spec fn segments_text(segs: Seq<Seq<char>>) -> Seq<char>
    decreases segs.len(),
{
    if segs.len() == 0 {
        Seq::empty()
    } else {
        segments_text(segs.drop_last()) + "::"@ + segs.last()
    }
}

/// A generated symbol's fully qualified reference: the crate
/// identifier, the module-path segments, and the symbol's own name,
/// joined by the path separator. An empty module path collapses to
/// `<crate>::<name>` with no trailing separator artifacts.
pub open spec fn qualified_path(
    crate_ident: Seq<char>,
    prefix: Seq<Seq<char>>,
    name: Seq<char>,
) -> Seq<char> {
    crate_ident + segments_text(prefix) + "::"@ + name
}

/// Joins a crate identifier, a module path and a symbol name into the
/// symbol's fully qualified reference.
#[verifier::loop_isolation(false)]
pub fn qualify(crate_ident: &String, module_prefix: &Vec<String>, name: &String) -> (r: String)
    ensures
        r@ == qualified_path(crate_ident@, module_prefix.deep_view(), name@),
{
    let mut s = crate_ident.clone();
    let n = module_prefix.len();
    let mut i: usize = 0;
    while i < n
        invariant
            i <= n,
            s@ == crate_ident@ + segments_text(module_prefix.deep_view().take(i as int)),
        decreases n - i,
    {
        s.append("::");
        s.append(module_prefix[i].as_str());
        proof {
            let pre = module_prefix.deep_view().take(i as int);
            let cur = module_prefix.deep_view().take(i + 1 as int);
            assert(cur.drop_last() =~= pre);
            assert(cur.last() == module_prefix.deep_view()[i as int]);
            assert(s@ =~= crate_ident@ + segments_text(cur));
        }
        i = i + 1;
    }
    proof {
        assert(module_prefix.deep_view().take(n as int) =~= module_prefix.deep_view());
    }
    s.append("::");
    s.append(name.as_str());
    s
}

/// Assembles the harness descriptor for a generated aggregate and
/// adapter: the two symbols' fully qualified references under the
/// given crate identifier and module path. All rejection has already
/// happened during validation; emission never fails.
pub fn fuzz_harness(
    adapter: &CallAdapterDescriptor,
    aggregate: &AggregateTypeDescriptor,
    module_prefix: &Vec<String>,
    crate_ident: &String,
) -> (r: HarnessDescriptor)
    ensures
        r.aggregate_path@ == qualified_path(
            crate_ident@,
            module_prefix.deep_view(),
            aggregate.name@,
        ),
        r.adapter_path@ == qualified_path(crate_ident@, module_prefix.deep_view(), adapter.name@),
{
    HarnessDescriptor {
        aggregate_path: qualify(crate_ident, module_prefix, &aggregate.name),
        adapter_path: qualify(crate_ident, module_prefix, &adapter.name),
    }
}

} // verus!
