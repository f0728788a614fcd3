//! The selection engine: random picks over a non-empty language list.

use vstd::prelude::*;

use crate::languages::Language;
use crate::text::str_eq;

verus! {

/// Relies on rand's RngExt::random_range over the thread-local generator:
/// it returns a uniformly distributed value of the given range and panics
/// only when the range is empty.
#[verifier::external_body]
fn random_index(len: usize) -> (r: usize)
    requires
        len > 0,
    ensures
        r < len,
{
    rand::RngExt::random_range(&mut rand::rng(), 0..len)
}

/// Picks one entry of the list uniformly at random.
///
/// Over a list of size one this always returns that single element.
pub fn pick_one(list: &Vec<Language>) -> (r: Language)
    requires
        list@.len() > 0,
    ensures
        exists|i: int| 0 <= i < list@.len() && r == list@[i],
        list@.len() == 1 ==> r == list@[0],
{
    let i = random_index(list.len());
    list[i].clone()
}

/// Picks an entry whose name differs from `excluded`'s, uniformly among all
/// entries satisfying that condition. When every entry shares `excluded`'s
/// name there is no such entry, and `excluded` itself comes back rather than
/// a search that never ends.
pub fn pick_other_than(list: &Vec<Language>, excluded: &Language) -> (r: Language)
    requires
        list@.len() > 0,
    ensures
        (exists|i: int| 0 <= i < list@.len() && list@[i].name@ != excluded.name@) ==> (r.name@
            != excluded.name@ && exists|i: int| 0 <= i < list@.len() && r == list@[i]),
        (forall|i: int| 0 <= i < list@.len() ==> list@[i].name@ == excluded.name@) ==> r
            == *excluded,
{
    let mut candidates: Vec<usize> = Vec::new();
    let mut k: usize = 0;
    while k < list.len()
        invariant
            k <= list@.len(),
            forall|j: int|
                0 <= j < candidates@.len() ==> #[trigger] candidates@[j] < list@.len()
                    && list@[candidates@[j] as int].name@ != excluded.name@,
            candidates@.len() == 0 ==> forall|m: int|
                0 <= m < k ==> #[trigger] list@[m].name@ == excluded.name@,
        decreases list@.len() - k,
    {
        if !str_eq(list[k].name.as_str(), excluded.name.as_str()) {
            candidates.push(k);
        }
        k = k + 1;
    }
    if candidates.len() == 0 {
        excluded.clone()
    } else {
        let i = random_index(candidates.len());
        let c = candidates[i];
        list[c].clone()
    }
}

} // verus!
