//! Name-keyed lookup over association lists.
//!
//! Shaders and materials keep their named properties in insertion order, so
//! lookups scan for the first entry whose name matches.

use vstd::prelude::*;

verus! {

/// Relies on `<str as PartialEq>::eq`: equal exactly when the two string
/// slices hold the same characters.
#[verifier::external_body]
pub fn str_eq(a: &str, b: &str) -> (r: bool)
    ensures
        r == (a@ == b@),
{
    a == b
}

/// Index of the first key equal to `name`, or -1 when no key matches.
pub open spec fn spec_first_index(keys: Seq<Seq<char>>, name: Seq<char>) -> int
    decreases keys.len(),
{
    if keys.len() == 0 {
        -1
    } else if keys[0] == name {
        0
    } else {
        let rest = spec_first_index(keys.drop_first(), name);
        if rest < 0 {
            -1
        } else {
            rest + 1
        }
    }
}

/// A matching key preceded only by non-matching keys is the first match.
pub proof fn lemma_first_index_found(keys: Seq<Seq<char>>, name: Seq<char>, i: int)
    requires
        0 <= i < keys.len(),
        forall|j: int| 0 <= j < i ==> keys[j] != name,
        keys[i] == name,
    ensures
        spec_first_index(keys, name) == i,
    decreases keys.len(),
{
    if i > 0 {
        lemma_first_index_found(keys.drop_first(), name, i - 1);
    }
}

/// When no key matches, the lookup reports -1.
pub proof fn lemma_first_index_none(keys: Seq<Seq<char>>, name: Seq<char>)
    requires
        forall|j: int| 0 <= j < keys.len() ==> keys[j] != name,
    ensures
        spec_first_index(keys, name) == -1,
    decreases keys.len(),
{
    if keys.len() > 0 {
        lemma_first_index_none(keys.drop_first(), name);
    }
}

/// A lookup that reports -1 found no match anywhere.
pub proof fn lemma_first_index_not_found(keys: Seq<Seq<char>>, name: Seq<char>)
    requires
        spec_first_index(keys, name) == -1,
    ensures
        forall|j: int| 0 <= j < keys.len() ==> keys[j] != name,
    decreases keys.len(),
{
    if keys.len() > 0 {
        lemma_first_index_not_found(keys.drop_first(), name);
        assert forall|j: int| 0 <= j < keys.len() implies keys[j] != name by {
            if j > 0 {
                assert(keys.drop_first()[j - 1] == keys[j]);
            }
        }
    }
}

/// The first index is either -1 or a position holding `name`.
pub proof fn lemma_first_index_valid(keys: Seq<Seq<char>>, name: Seq<char>)
    ensures
        spec_first_index(keys, name) == -1 || (0 <= spec_first_index(keys, name) < keys.len()
            && keys[spec_first_index(keys, name)] == name),
    decreases keys.len(),
{
    if keys.len() > 0 && keys[0] != name {
        lemma_first_index_valid(keys.drop_first(), name);
    }
}

} // verus!
