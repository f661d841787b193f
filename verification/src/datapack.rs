//! Datapack request planning: a request is either a direct artifact or an
//! ordered selection of generator (category, name) pairs. Selection order is
//! preserved — it can change the generated archive — while duplicate pairs
//! are dropped before the service is called.

use vstd::prelude::*;
use crate::api::{Datapack, File, VanillaTweak};
use crate::resolver::ResolutionError;
use crate::strutil::str_eq;

verus! {

/// How one datapack request is satisfied.
#[derive(Debug)]
pub enum DatapackPlan {
    /// A direct artifact, fetched and verified as-is.
    Direct(File),
    /// One call to the generator service with these ordered selections.
    Compose(Vec<VanillaTweak>),
}

/// The pair a selection is identified by.
pub open spec fn tweak_key(t: VanillaTweak) -> (Seq<char>, Seq<char>) {
    (t.category@, t.name@)
}

/// Whether some selection in the sequence has this key.
pub open spec fn contains_key(ts: Seq<VanillaTweak>, k: (Seq<char>, Seq<char>)) -> bool {
    exists|i: int| 0 <= i < ts.len() && tweak_key(ts[i]) == k
}

/// The selections with every duplicated (category, name) pair dropped,
/// keeping the first occurrence and the order of first occurrences.
pub open spec fn spec_dedup(ts: Seq<VanillaTweak>) -> Seq<VanillaTweak>
    decreases ts.len(),
{
    if ts.len() == 0 {
        Seq::<VanillaTweak>::empty()
    } else {
        let front = spec_dedup(ts.drop_last());
        if contains_key(ts.drop_last(), tweak_key(ts.last())) {
            front
        } else {
            front.push(ts.last())
        }
    }
}

/// Whether a selection with the key of `t` stands among the first `upto`
/// selections.
fn tweak_in_prefix(ts: &Vec<VanillaTweak>, upto: usize, t: &VanillaTweak) -> (r: bool)
    requires
        upto <= ts@.len(),
    ensures
        r == contains_key(ts@.take(upto as int), tweak_key(*t)),
{
    let mut i: usize = 0;
    while i < upto
        invariant
            0 <= i <= upto <= ts@.len(),
            forall|j: int| 0 <= j < i ==> tweak_key(ts@[j]) != tweak_key(*t),
        decreases upto - i,
    {
        if str_eq(ts[i].category.as_str(), t.category.as_str()) && str_eq(
            ts[i].name.as_str(),
            t.name.as_str(),
        ) {
            proof {
                assert(tweak_key(ts@.take(upto as int)[i as int]) == tweak_key(*t));
            }
            return true;
        }
        i += 1;
    }
    proof {
        assert forall|j: int| 0 <= j < upto implies tweak_key(ts@.take(upto as int)[j])
            != tweak_key(*t) by {
            assert(ts@.take(upto as int)[j] == ts@[j]);
        }
    }
    false
}

/// Drops duplicated (category, name) pairs, keeping first occurrences in
/// order.
pub fn dedup_tweaks(ts: &Vec<VanillaTweak>) -> (r: Vec<VanillaTweak>)
    ensures
        r@ == spec_dedup(ts@),
{
    let n = ts.len();
    let mut out: Vec<VanillaTweak> = Vec::new();
    let mut i: usize = 0;
    while i < n
        invariant
            0 <= i <= n,
            n == ts@.len(),
            out@ == spec_dedup(ts@.take(i as int)),
        decreases n - i,
    {
        proof {
            let t = ts@.take(i + 1);
            assert(t.drop_last() =~= ts@.take(i as int));
            assert(t.last() == ts@[i as int]);
        }
        if !tweak_in_prefix(ts, i, &ts[i]) {
            out.push(ts[i].clone());
        }
        i += 1;
    }
    proof {
        assert(ts@.take(n as int) =~= ts@);
    }
    out
}

/// Plans one datapack request. Exactly one of the two forms must be present:
/// a direct artifact bypasses the generator entirely; a selection list goes
/// to the generator once, deduplicated but in order. Both present or both
/// absent is a malformed request, rejected before any network call.
pub fn plan_datapack(d: &Datapack) -> (r: Result<DatapackPlan, ResolutionError>)
    ensures
        match r {
            Ok(DatapackPlan::Direct(f)) => {
                &&& d.vanilla_tweaks is None
                &&& match d.file {
                    Some(df) => f == df,
                    None => false,
                }
            },
            Ok(DatapackPlan::Compose(ts)) => {
                &&& d.file is None
                &&& match d.vanilla_tweaks {
                    Some(sel) => ts@ == spec_dedup(sel@),
                    None => false,
                }
            },
            Err(e) => {
                &&& e == ResolutionError::MalformedRequest
                &&& (d.file is Some) == (d.vanilla_tweaks is Some)
            },
        },
{
    match (&d.file, &d.vanilla_tweaks) {
        (Some(f), None) => Ok(DatapackPlan::Direct(f.clone())),
        (None, Some(sel)) => Ok(DatapackPlan::Compose(dedup_tweaks(sel))),
        _ => Err(ResolutionError::MalformedRequest),
    }
}

} // verus!
