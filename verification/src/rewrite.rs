//! Replacing the bodies of the chosen functions.

use crate::error::SnipError;
use crate::module::{snipped, snipped_body, FunctionView, Module};
use crate::options::{texts, Options};
use crate::pattern::patterns_valid;
use crate::select::{select, selection};
use crate::targets::{occurs, TargetSet};
use vstd::prelude::*;

verus! {

/// Whether `i` is the index of a local function of `m`.
pub open spec fn valid_target(m: Seq<FunctionView>, i: int) -> bool {
    0 <= i < m.len() && m[i].is_local()
}

/// Whether every index in `order` is a valid target.
pub open spec fn all_valid(m: Seq<FunctionView>, order: Seq<usize>) -> bool {
    forall|k: int| 0 <= k < order.len() ==> valid_target(m, (#[trigger] order[k]) as int)
}

/// The module with the functions at the indices in `t` snipped and the
/// others as they were.
pub open spec fn snip_all(m: Seq<FunctionView>, t: Set<int>) -> Seq<FunctionView> {
    Seq::new(
        m.len(),
        |i: int|
            if t.contains(i) {
                snipped(m[i])
            } else {
                m[i]
            },
    )
}

/// The position in the set's order of the first index that is not a valid
/// target, if there is one.
pub fn first_invalid(module: &Module, targets: &TargetSet) -> (r: Option<usize>)
    ensures
        r is None <==> all_valid(module@, targets.order()),
        r matches Some(k) ==> {
            &&& k < targets.order().len()
            &&& !valid_target(module@, targets.order()[k as int] as int)
            &&& all_valid(module@, targets.order().take(k as int))
        },
{
    let mut k: usize = 0;
    while k < targets.len()
        invariant
            k <= targets.order().len(),
            module@.len() == module.funcs@.len(),
            all_valid(module@, targets.order().take(k as int)),
        decreases targets.order().len() - k,
    {
        let index = targets.get(k);
        if index >= module.funcs.len() || !module.funcs[index].is_local() {
            return Some(k);
        }
        assert(all_valid(module@, targets.order().take(k + 1))) by {
            assert forall|j: int| 0 <= j < k + 1 implies valid_target(
                module@,
                (#[trigger] targets.order().take(k + 1)[j]) as int,
            ) by {
                if j < k {
                    assert(targets.order().take(k as int)[j] == targets.order()[j]);
                }
            }
        }
        k += 1;
    }
    assert(targets.order().take(k as int) =~= targets.order());
    None
}

/// Snips every function whose index is in `targets`.
///
/// All targets are checked before anything is changed. If one of them is
/// not the index of a local function, the module is left as it was and the
/// first such index, in the set's order, is reported. Otherwise each
/// target keeps its name and signature and gets the one-instruction body,
/// and every other function is left as it was; no function is added,
/// removed or moved.
pub fn snip(module: &mut Module, targets: &TargetSet) -> (r: Result<(), SnipError>)
    ensures
        r is Ok <==> all_valid(old(module)@, targets.order()),
        r is Ok ==> final(module)@ == snip_all(old(module)@, targets@),
        r matches Err(e) ==> {
            &&& *final(module) == *old(module)
            &&& exists|k: int|
                {
                    &&& 0 <= k < targets.order().len()
                    &&& e == SnipError::InvalidTarget(#[trigger] targets.order()[k])
                    &&& !valid_target(old(module)@, targets.order()[k] as int)
                    &&& all_valid(old(module)@, targets.order().take(k))
                }
        },
        final(module)@.len() == old(module)@.len(),
        forall|i: int|
            0 <= i < old(module)@.len() ==> {
                &&& (#[trigger] final(module)@[i]).signature == old(module)@[i].signature
                &&& final(module)@[i].name == old(module)@[i].name
                &&& final(module)@[i].is_local() == old(module)@[i].is_local()
            },
        forall|i: int|
            0 <= i < old(module)@.len() && !(r is Ok && targets@.contains(i))
                ==> #[trigger] final(module)@[i] == old(module)@[i],
        forall|i: int|
            0 <= i < old(module)@.len() && r is Ok && targets@.contains(i)
                ==> (#[trigger] final(module)@[i]).body == Some(snipped_body()),
{
    match first_invalid(module, targets) {
        Some(k) => {
            return Err(SnipError::InvalidTarget(targets.get(k)));
        },
        None => {},
    }
    let mut k: usize = 0;
    while k < targets.len()
        invariant
            k <= targets.order().len(),
            all_valid(old(module)@, targets.order()),
            module@.len() == old(module)@.len(),
            module@.len() == module.funcs@.len(),
            forall|i: int|
                0 <= i < module@.len() ==> #[trigger] module@[i] == (if occurs(
                    targets.order().take(k as int),
                    i,
                ) {
                    snipped(old(module)@[i])
                } else {
                    old(module)@[i]
                }),
        decreases targets.order().len() - k,
    {
        let index = targets.get(k);
        let ghost before = module@;
        let ghost taken = targets.order().take(k as int);
        assert(valid_target(old(module)@, targets.order()[k as int] as int));
        assert(before[index as int].is_local());
        let f = &mut module.funcs[index];
        f.snip();
        proof {
            let now = targets.order().take(k + 1);
            assert(now =~= taken.push(index));
            assert(now[k as int] == index);
            assert forall|i: int| 0 <= i < module@.len() implies #[trigger] module@[i] == (if occurs(
                now,
                i,
            ) {
                snipped(old(module)@[i])
            } else {
                old(module)@[i]
            }) by {
                if i == index as int {
                    assert(occurs(now, i));
                } else {
                    assert(module@[i] == before[i]);
                    if occurs(now, i) {
                        let j = choose|j: int| 0 <= j < now.len() && now[j] == i;
                        assert(j < k);
                        assert(taken[j] == i);
                    }
                    if occurs(taken, i) {
                        let j = choose|j: int| 0 <= j < taken.len() && taken[j] == i;
                        assert(now[j] == i);
                    }
                }
            }
        }
        k += 1;
    }
    assert(targets.order().take(k as int) =~= targets.order());
    assert(module@ =~= snip_all(old(module)@, targets@));
    assert forall|i: int| 0 <= i < module@.len() implies (#[trigger] module@[i]).is_local() == old(
        module,
    )@[i].is_local() by {
        if targets@.contains(i) {
            let j = choose|j: int| 0 <= j < targets.order().len() && targets.order()[j] == i;
            assert(valid_target(old(module)@, targets.order()[j] as int));
        }
    }
    Ok(())
}

/// Selects by `options` and snips what was selected.
///
/// Fails exactly when the effective patterns cannot be compiled, and then
/// leaves the module as it was. What the selection yields is always a
/// valid set of targets, so the rewriting itself cannot fail.
pub fn snip_with_options(module: &mut Module, options: &Options) -> (r: Result<(), SnipError>)
    ensures
        r is Ok <==> patterns_valid(options.effective_patterns()),
        r is Ok ==> final(module)@ == snip_all(
            old(module)@,
            selection(old(module)@, texts(options.functions@), options.effective_patterns()),
        ),
        r matches Err(e) ==> e is Pattern && *final(module) == *old(module),
{
    let targets = match select(module, options) {
        Err(e) => {
            return Err(e);
        },
        Ok(t) => t,
    };
    assert(all_valid(module@, targets.order())) by {
        assert forall|k: int| 0 <= k < targets.order().len() implies valid_target(
            module@,
            (#[trigger] targets.order()[k]) as int,
        ) by {
            assert(targets@.contains(targets.order()[k] as int));
        }
    }
    snip(module, &targets)
}

} // verus!
