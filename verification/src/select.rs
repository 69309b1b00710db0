//! Choosing the functions to snip.

use crate::error::SnipError;
use crate::module::{Function, FunctionView, Module};
use crate::options::{texts, Options};
use crate::pattern::{name_matches, patterns_valid, NameMatcher};
use crate::targets::TargetSet;
use vstd::prelude::*;

verus! {

/// Whether a function is to be snipped, given the exact names asked for
/// and whether a pattern matched its name: it is local, it has a name, and
/// the name was asked for or matched.
pub open spec fn is_target(f: FunctionView, names: Seq<Seq<char>>, hit: bool) -> bool {
    f.is_local() && f.name is Some && (names.contains(f.name.unwrap()) || hit)
}

/// Whether a function has a name that one of `patterns` matches as a whole.
pub open spec fn pattern_hit(f: FunctionView, patterns: Seq<Seq<char>>) -> bool {
    f.name is Some && name_matches(patterns, f.name.unwrap())
}

/// The indices of the functions of `m` that the names and patterns select.
pub open spec fn selection(
    m: Seq<FunctionView>,
    names: Seq<Seq<char>>,
    patterns: Seq<Seq<char>>,
) -> Set<int> {
    Set::new(|i: int| 0 <= i < m.len() && is_target(m[i], names, pattern_hit(m[i], patterns)))
}

/// Whether `name` is one of `names`.
pub fn is_listed(names: &Vec<String>, name: &String) -> (b: bool)
    ensures
        b == texts(names@).contains(name@),
{
    let mut j: usize = 0;
    while j < names.len()
        invariant
            j <= names@.len(),
            forall|k: int| 0 <= k < j ==> texts(names@)[k] != name@,
        decreases names@.len() - j,
    {
        if names[j] == *name {
            assert(texts(names@)[j as int] == name@);
            return true;
        }
        j += 1;
    }
    false
}

/// Decides `is_target` for one function.
pub fn wanted(f: &Function, names: &Vec<String>, hit: bool) -> (b: bool)
    ensures
        b == is_target(f@, texts(names@), hit),
{
    if !f.is_local() {
        return false;
    }
    match &f.name {
        None => false,
        Some(name) => hit || is_listed(names, name),
    }
}

/// For each function of the module, whether it has a name that the matcher
/// matches.
pub fn pattern_hits(module: &Module, matcher: &NameMatcher) -> (hits: Vec<bool>)
    ensures
        hits@.len() == module@.len(),
        forall|i: int|
            0 <= i < module@.len() ==> hits@[i] == pattern_hit(
                #[trigger] module@[i],
                matcher.patterns(),
            ),
{
    let mut hits: Vec<bool> = Vec::new();
    let mut i: usize = 0;
    while i < module.funcs.len()
        invariant
            i <= module@.len(),
            module@.len() == module.funcs@.len(),
            hits@.len() == i,
            forall|k: int|
                0 <= k < i ==> hits@[k] == pattern_hit(#[trigger] module@[k], matcher.patterns()),
        decreases module@.len() - i,
    {
        let hit = match &module.funcs[i].name {
            None => false,
            Some(name) => matcher.matches(name.as_str()),
        };
        hits.push(hit);
        i += 1;
    }
    hits
}

/// The functions to snip, given for each function whether a pattern
/// matched its name. The indices come in rising order.
pub fn select_with_hits(module: &Module, names: &Vec<String>, hits: &Vec<bool>) -> (t: TargetSet)
    requires
        hits@.len() == module@.len(),
    ensures
        t.wf(),
        forall|i: int|
            t@.contains(i) <==> 0 <= i < module@.len() && is_target(
                module@[i],
                texts(names@),
                hits@[i],
            ),
        forall|a: int, b: int| 0 <= a < b < t.order().len() ==> t.order()[a] < t.order()[b],
{
    let mut t = TargetSet::new();
    let mut i: usize = 0;
    while i < module.funcs.len()
        invariant
            i <= module@.len(),
            module@.len() == module.funcs@.len(),
            hits@.len() == module@.len(),
            t.wf(),
            forall|k: int|
                t@.contains(k) <==> 0 <= k < i && is_target(
                    module@[k],
                    texts(names@),
                    hits@[k],
                ),
            forall|a: int| 0 <= a < t.order().len() ==> t.order()[a] < i,
            forall|a: int, b: int| 0 <= a < b < t.order().len() ==> t.order()[a] < t.order()[b],
        decreases module@.len() - i,
    {
        if wanted(&module.funcs[i], names, hits[i]) {
            t.insert(i);
        }
        i += 1;
    }
    t
}

/// The functions that the options select: every local function with a
/// name that is listed in `functions` or matched as a whole by one of the
/// effective patterns. Imported functions and functions without a name are
/// never selected. The indices come in rising order. Fails, before
/// anything is selected, exactly when the effective patterns cannot be
/// compiled.
pub fn select(module: &Module, options: &Options) -> (r: Result<TargetSet, SnipError>)
    ensures
        r is Ok <==> patterns_valid(options.effective_patterns()),
        r matches Err(e) ==> e is Pattern,
        r matches Ok(t) ==> {
            &&& t.wf()
            &&& t@ == selection(module@, texts(options.functions@), options.effective_patterns())
            &&& forall|i: int| t@.contains(i) ==> 0 <= i < module@.len() && module@[i].is_local()
            &&& forall|a: int, b: int|
                0 <= a < b < t.order().len() ==> t.order()[a] < t.order()[b]
        },
{
    let matcher = match NameMatcher::new(options.all_patterns()) {
        Err(e) => {
            return Err(e);
        },
        Ok(m) => m,
    };
    let hits = pattern_hits(module, &matcher);
    let t = select_with_hits(module, &options.functions, &hits);
    assert(t@ =~= selection(module@, texts(options.functions@), options.effective_patterns()));
    Ok(t)
}

} // verus!
