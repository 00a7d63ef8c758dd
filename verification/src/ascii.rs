//! Comparison of texts without regard to the case of ASCII letters.

use vstd::prelude::*;
use vstd::std_specs::iter::IteratorSpec;

verus! {

/// The lower-case form of an ASCII capital letter; any other character is
/// left as it is.
pub open spec fn fold_char(c: char) -> char {
    if 'A' <= c && c <= 'Z' {
        ((c as u32) + 32) as char
    } else {
        c
    }
}

/// Whether two texts have the same length and agree, place by place, once
/// ASCII capitals are folded to lower case.
pub open spec fn same_ignoring_case(a: Seq<char>, b: Seq<char>) -> bool {
    &&& a.len() == b.len()
    &&& forall|i: int| 0 <= i < a.len() ==> fold_char(#[trigger] a[i]) == fold_char(b[i])
}

/// Agreement but for letter case is an equivalence: every text agrees with
/// itself, agreement does not depend on the order of the two texts, and two
/// texts that agree with a third agree with each other.
pub proof fn lemma_same_ignoring_case_is_equivalence(a: Seq<char>, b: Seq<char>, c: Seq<char>)
    ensures
        same_ignoring_case(a, a),
        same_ignoring_case(a, b) ==> same_ignoring_case(b, a),
        same_ignoring_case(a, b) && same_ignoring_case(b, c) ==> same_ignoring_case(a, c),
{
    if same_ignoring_case(a, b) {
        assert forall|i: int| 0 <= i < b.len() implies fold_char(#[trigger] b[i]) == fold_char(
            a[i],
        ) by {
            assert(fold_char(a[i]) == fold_char(b[i]));
        }
        if same_ignoring_case(b, c) {
            assert forall|i: int| 0 <= i < a.len() implies fold_char(#[trigger] a[i])
                == fold_char(c[i]) by {
                assert(fold_char(b[i]) == fold_char(c[i]));
            }
        }
    }
}

/// Folds one character to lower case.
pub fn to_lower(c: char) -> (folded: char)
    ensures
        folded == fold_char(c),
{
    if 'A' <= c && c <= 'Z' {
        let code: u8 = c as u8;
        (code + 32) as char
    } else {
        c
    }
}

/// Compares two texts without regard to the case of ASCII letters.
pub fn eq_ignore_ascii_case(a: &str, b: &str) -> (same: bool)
    ensures
        same == same_ignoring_case(a@, b@),
{
    let mut others = b.chars();
    for c in it: a.chars()
        invariant
            it.seq() == a@,
            it.index() <= b@.len(),
            others.obeys_prophetic_iter_laws(),
            others.remaining() == b@.skip(it.index() as int),
            forall|j: int| 0 <= j < it.index() ==> fold_char(#[trigger] a@[j]) == fold_char(b@[j]),
    {
        match others.next() {
            Some(d) => {
                if to_lower(c) != to_lower(d) {
                    return false;
                }
            },
            None => {
                return false;
            },
        }
    }
    others.next().is_none()
}

} // verus!
