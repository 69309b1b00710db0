//! What holds of selecting and snipping, whatever the module and the
//! options are.

use crate::module::{snipped_body, FunctionView, UNREACHABLE};
use crate::options::{texts, Options};
use crate::pattern::patterns_valid;
use crate::rewrite::snip_all;
use crate::select::selection;
use vstd::prelude::*;

verus! {

/// Snipping neither adds nor removes a function, and every function keeps
/// its index, its name, its signature, and its being local or imported
/// when only local functions are targets.
pub proof fn snip_preserves_signatures(m: Seq<FunctionView>, t: Set<int>, i: int)
    requires
        0 <= i < m.len(),
    ensures
        snip_all(m, t).len() == m.len(),
        snip_all(m, t)[i].signature == m[i].signature,
        snip_all(m, t)[i].signature.params == m[i].signature.params,
        snip_all(m, t)[i].signature.results == m[i].signature.results,
        snip_all(m, t)[i].name == m[i].name,
        m[i].is_local() ==> snip_all(m, t)[i].is_local(),
{
}

/// A function that is not a target is after snipping what it was before:
/// the same body, locals and code, and the same everything else.
pub proof fn snip_leaves_others(m: Seq<FunctionView>, t: Set<int>, i: int)
    requires
        0 <= i < m.len(),
        !t.contains(i),
    ensures
        snip_all(m, t)[i] == m[i],
        snip_all(m, t)[i].body == m[i].body,
{
}

/// A snipped function has no locals, and its code is the one opcode of
/// `unreachable`.
pub proof fn snip_body_shape(m: Seq<FunctionView>, t: Set<int>, i: int)
    requires
        0 <= i < m.len(),
        t.contains(i),
    ensures
        snip_all(m, t)[i].body == Some(snipped_body()),
        snip_all(m, t)[i].body.unwrap().locals.len() == 0,
        snip_all(m, t)[i].body.unwrap().code.len() == 1,
        snip_all(m, t)[i].body.unwrap().code[0] == UNREACHABLE,
{
}

/// Snipping the same targets a second time changes nothing.
pub proof fn snip_idempotent(m: Seq<FunctionView>, t: Set<int>)
    ensures
        snip_all(snip_all(m, t), t) == snip_all(m, t),
{
    assert(snip_all(snip_all(m, t), t) =~= snip_all(m, t));
}

/// The order in which two sets of targets are snipped does not matter, and
/// both together give what their union gives.
pub proof fn snip_order_independent(m: Seq<FunctionView>, s: Set<int>, t: Set<int>)
    ensures
        snip_all(snip_all(m, s), t) == snip_all(snip_all(m, t), s),
        snip_all(snip_all(m, s), t) == snip_all(m, s.union(t)),
{
    assert(snip_all(snip_all(m, s), t) =~= snip_all(m, s.union(t)));
    assert(snip_all(snip_all(m, t), s) =~= snip_all(m, s.union(t)));
}

/// After a run, the same names and patterns select the same functions, and
/// a second run leaves the module as the first one left it.
pub proof fn rerun_changes_nothing(
    m: Seq<FunctionView>,
    names: Seq<Seq<char>>,
    patterns: Seq<Seq<char>>,
)
    ensures
        selection(snip_all(m, selection(m, names, patterns)), names, patterns) == selection(
            m,
            names,
            patterns,
        ),
        snip_all(
            snip_all(m, selection(m, names, patterns)),
            selection(snip_all(m, selection(m, names, patterns)), names, patterns),
        ) == snip_all(m, selection(m, names, patterns)),
{
    let first = selection(m, names, patterns);
    let after = snip_all(m, first);
    assert(selection(after, names, patterns) =~= first);
    snip_idempotent(m, first);
}

/// An imported function is never selected, whatever its name, and neither
/// is a function without a name.
pub proof fn imports_never_selected(
    m: Seq<FunctionView>,
    names: Seq<Seq<char>>,
    patterns: Seq<Seq<char>>,
    i: int,
)
    requires
        0 <= i < m.len(),
        !m[i].is_local() || m[i].name is None,
    ensures
        !selection(m, names, patterns).contains(i),
{
}

/// Every selected index is that of a local function of the module.
pub proof fn selection_is_local(
    m: Seq<FunctionView>,
    names: Seq<Seq<char>>,
    patterns: Seq<Seq<char>>,
    i: int,
)
    requires
        selection(m, names, patterns).contains(i),
    ensures
        0 <= i < m.len(),
        m[i].is_local(),
        m[i].name is Some,
{
}

/// Options without names, without patterns and with both heuristics off
/// are valid, select nothing, and leave the module as it was.
pub proof fn empty_options_select_nothing(m: Seq<FunctionView>, options: Options)
    requires
        options.functions@.len() == 0,
        options.patterns@.len() == 0,
        !options.snip_rust_fmt_code,
        !options.snip_rust_panicking_code,
    ensures
        patterns_valid(options.effective_patterns()),
        selection(m, texts(options.functions@), options.effective_patterns())
            == Set::<int>::empty(),
        snip_all(
            m,
            selection(m, texts(options.functions@), options.effective_patterns()),
        ) == m,
{
    let names = texts(options.functions@);
    let patterns = options.effective_patterns();
    assert(patterns.len() == 0);
    assert(names.len() == 0);
    assert(selection(m, names, patterns) =~= Set::<int>::empty());
    assert(snip_all(m, Set::<int>::empty()) =~= m);
}

} // verus!
