//! Which watched assets a change on disk concerns.

use vstd::prelude::*;
use crate::text::str_eq;

verus! {

/// `found` lists, in rising order, exactly the places of `watched` that
/// hold `changed`.
pub open spec fn lists_matches(watched: Seq<Seq<char>>, changed: Seq<char>, found: Seq<usize>) -> bool {
    &&& forall|k: int| 0 <= k < found.len() ==> (#[trigger] found[k]) < watched.len() && watched[found[k] as int] == changed
    &&& forall|k: int, l: int| 0 <= k < l < found.len() ==> (#[trigger] found[k]) < (#[trigger] found[l])
    &&& forall|i: int| 0 <= i < watched.len() && (#[trigger] watched[i]) == changed ==> found.contains(i as usize)
}

/// The texts of a list of paths.
pub open spec fn path_texts(paths: Seq<String>) -> Seq<Seq<char>> {
    paths.map_values(|path: String| path@)
}

/// The places of `watched` whose path is `changed`: the assets that are to
/// be read anew after `changed` was written. Both sides are resolved paths.
pub fn changed_assets(watched: &[String], changed: &str) -> (r: Vec<usize>)
    ensures
        lists_matches(path_texts(watched@), changed@, r@),
{
    let ghost texts = path_texts(watched@);
    let mut found: Vec<usize> = Vec::new();
    let mut i: usize = 0;
    while i < watched.len()
        invariant
            i <= watched@.len(),
            texts == path_texts(watched@),
            forall|k: int| 0 <= k < found@.len() ==> (#[trigger] found@[k]) < i && texts[found@[k] as int] == changed@,
            forall|k: int, l: int| 0 <= k < l < found@.len() ==> (#[trigger] found@[k]) < (#[trigger] found@[l]),
            forall|j: int| 0 <= j < i && (#[trigger] texts[j]) == changed@ ==> found@.contains(j as usize),
        decreases watched@.len() - i,
    {
        if str_eq(watched[i].as_str(), changed) {
            let ghost before = found@;
            found.push(i);
            proof {
                assert(found@[before.len() as int] == i);
                assert forall|j: int| 0 <= j < i + 1 && (#[trigger] texts[j]) == changed@ implies found@.contains(j as usize) by {
                    if j < i {
                        let w = choose|w: int| 0 <= w < before.len() && before[w] == j as usize;
                        assert(found@[w] == j as usize);
                    }
                }
            }
        }
        i += 1;
    }
    found
}

} // verus!
