//! What the maps and sets of `.luarc.json` keep distinct, for the lists that hold them.

use vstd::prelude::*;

verus! {

/// No two entries of the list share a key.
pub open spec fn keys_distinct<K, V>(s: Seq<(K, V)>) -> bool {
    forall|i: int, j: int| 0 <= i < j < s.len() ==> s[i].0 != s[j].0
}

/// No two entries of the list share a key text.
pub open spec fn text_keys_distinct<V>(s: Seq<(String, V)>) -> bool {
    forall|i: int, j: int| 0 <= i < j < s.len() ==> s[i].0@ != s[j].0@
}

/// No text occurs twice in the list.
pub open spec fn texts_distinct(s: Seq<String>) -> bool {
    forall|i: int, j: int| 0 <= i < j < s.len() ==> s[i]@ != s[j]@
}

} // verus!
