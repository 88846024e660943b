//! Recipient allow-list filter.
//!
//! Each adapter instance owns a list of recipient identifiers. The reserved
//! sentinel entry `"*"` means "match any identifier": when it is present,
//! membership tests succeed for every identifier; otherwise membership is
//! exact, case-sensitive string equality.

use vstd::prelude::*;

verus! {

/// The match-any sentinel entry.
pub open spec fn wildcard() -> Seq<char> {
    "*"@
}

/// Whether an allow-list permits an identifier: true when the list holds
/// the sentinel, or when the identifier itself is an entry.
pub open spec fn allow_list_permits(list: Seq<Seq<char>>, id: Seq<char>) -> bool {
    list.contains(wildcard()) || list.contains(id)
}

/// A list holding the sentinel permits every identifier, the empty one and
/// identifiers that appear nowhere in the list included.
pub proof fn lemma_wildcard_permits_all(list: Seq<Seq<char>>, id: Seq<char>)
    requires
        list.contains(wildcard()),
    ensures
        allow_list_permits(list, id),
{
}

/// Without the sentinel, an identifier is permitted exactly when it is an
/// entry of the list: case-sensitive equality, no substring or prefix match.
pub proof fn lemma_no_wildcard_exact_match(list: Seq<Seq<char>>, id: Seq<char>)
    requires
        !list.contains(wildcard()),
    ensures
        allow_list_permits(list, id) <==> list.contains(id),
{
}

/// Decide whether `list` permits `id`.
pub fn is_allowed(list: &Vec<String>, id: &str) -> (r: bool)
    ensures
        r == allow_list_permits(list.deep_view(), id@),
{
    let star: String = "*".to_owned();
    let id_owned: String = id.to_owned();
    let ghost entries = list.deep_view();
    let mut i: usize = 0;
    while i < list.len()
        invariant
            entries == list.deep_view(),
            i <= list@.len(),
            forall|j: int|
                0 <= j < i ==> entries[j] != wildcard() && entries[j] != id@,
            star@ == wildcard(),
            id_owned@ == id@,
        decreases list@.len() - i,
    {
        proof {
            assert(entries[i as int] == list@[i as int]@);
        }
        if list[i] == star {
            proof {
                assert(entries.contains(wildcard()));
            }
            return true;
        }
        if list[i] == id_owned {
            proof {
                assert(entries.contains(id@));
            }
            return true;
        }
        i += 1;
    }
    proof {
        assert(forall|j: int| 0 <= j < entries.len() ==> entries[j] == list@[j]@);
        assert(!entries.contains(wildcard()));
        assert(!entries.contains(id@));
    }
    false
}

} // verus!
