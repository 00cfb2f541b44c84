//! Ordering of texts and counts, used to sort table columns.

use std::cmp::Ordering;
use vstd::prelude::*;
use vstd::string::*;
use crate::text::position;

verus! {

/// The reverse of an ordering.
pub open spec fn flipped(o: Ordering) -> Ordering {
    match o {
        Ordering::Less => Ordering::Greater,
        Ordering::Equal => Ordering::Equal,
        Ordering::Greater => Ordering::Less,
    }
}

/// Lexicographic comparison of `a` and `b` by characters, from position `i` on.
pub open spec fn order_from(a: Seq<char>, b: Seq<char>, i: int) -> Ordering
    decreases a.len() - i,
{
    if i >= a.len() {
        if i >= b.len() {
            Ordering::Equal
        } else {
            Ordering::Less
        }
    } else if i >= b.len() {
        Ordering::Greater
    } else if a[i] < b[i] {
        Ordering::Less
    } else if b[i] < a[i] {
        Ordering::Greater
    } else {
        order_from(a, b, i + 1)
    }
}

/// Lexicographic order of two texts by characters, which is the order of `String`s
/// (the byte order of UTF-8 agrees with the order of code points).
pub open spec fn text_order(a: Seq<char>, b: Seq<char>) -> Ordering {
    order_from(a, b, 0)
}

/// Numeric order of two counts.
pub open spec fn count_order(a: usize, b: usize) -> Ordering {
    if a < b {
        Ordering::Less
    } else if a == b {
        Ordering::Equal
    } else {
        Ordering::Greater
    }
}

/// Compares two texts lexicographically by characters.
pub fn compare_text(a: &str, b: &str) -> (o: Ordering)
    ensures
        o == text_order(a@, b@),
{
    let a_len = a.unicode_len();
    let b_len = b.unicode_len();
    let mut i: usize = 0;
    while i < a_len && i < b_len
        invariant
            a_len == a@.len(),
            b_len == b@.len(),
            i <= a_len,
            i <= b_len,
            text_order(a@, b@) == order_from(a@, b@, position(i)),
        decreases a_len - i,
    {
        let ca = a.get_char(i);
        let cb = b.get_char(i);
        if ca < cb {
            return Ordering::Less;
        } else if cb < ca {
            return Ordering::Greater;
        }
        i = i + 1;
    }
    if i < a_len {
        Ordering::Greater
    } else if i < b_len {
        Ordering::Less
    } else {
        Ordering::Equal
    }
}

/// Compares two counts.
pub fn compare_count(a: usize, b: usize) -> (o: Ordering)
    ensures
        o == count_order(a, b),
{
    if a < b {
        Ordering::Less
    } else if a == b {
        Ordering::Equal
    } else {
        Ordering::Greater
    }
}

proof fn lemma_order_from_flip(a: Seq<char>, b: Seq<char>, i: int)
    ensures
        order_from(a, b, i) == flipped(order_from(b, a, i)),
    decreases a.len() - i,
{
    if i < a.len() && i < b.len() && a[i] == b[i] {
        lemma_order_from_flip(a, b, i + 1);
    }
}

proof fn lemma_order_from_equal(a: Seq<char>, b: Seq<char>, i: int)
    requires
        0 <= i <= a.len(),
        i <= b.len(),
    ensures
        order_from(a, b, i) == Ordering::Equal <==> (a.len() == b.len() && forall|j: int|
            i <= j < a.len() ==> a[j] == b[j]),
    decreases a.len() - i,
{
    if i < a.len() && i < b.len() {
        lemma_order_from_equal(a, b, i + 1);
        if a[i] == b[i] {
            if a.len() == b.len() && (forall|j: int| i + 1 <= j < a.len() ==> a[j] == b[j]) {
                assert forall|j: int| i <= j < a.len() implies a[j] == b[j] by {
                    if j > i {
                        assert(i + 1 <= j);
                    }
                }
            }
        } else {
            assert(!(forall|j: int| i <= j < a.len() ==> a[j] == b[j])) by {
                assert(i <= i < a.len() && a[i] != b[i]);
            }
        }
    }
}

proof fn lemma_order_from_less_trans(a: Seq<char>, b: Seq<char>, c: Seq<char>, i: int)
    requires
        0 <= i,
        order_from(a, b, i) == Ordering::Less,
        order_from(b, c, i) == Ordering::Less,
    ensures
        order_from(a, c, i) == Ordering::Less,
    decreases a.len() - i,
{
    if i < a.len() && i < b.len() && i < c.len() && a[i] == b[i] && b[i] == c[i] {
        lemma_order_from_less_trans(a, b, c, i + 1);
    }
}

proof fn lemma_order_from_first_difference(a: Seq<char>, b: Seq<char>, i: int, k: int)
    requires
        0 <= i <= k,
        k <= a.len(),
        k <= b.len(),
        forall|j: int| i <= j < k ==> a[j] == b[j],
        (k == a.len() && k < b.len()) || (k < a.len() && k < b.len() && a[k] < b[k]),
    ensures
        order_from(a, b, i) == Ordering::Less,
    decreases k - i,
{
    if i < k {
        lemma_order_from_first_difference(a, b, i + 1, k);
    }
}

/// Law: texts are ordered lexicographically, character by character: a text comes
/// before every longer text that it begins, and before every text from which it
/// first differs by a smaller character.
pub proof fn law_text_order_lexicographic(a: Seq<char>, b: Seq<char>, k: int)
    requires
        0 <= k <= a.len(),
        k <= b.len(),
        forall|j: int| 0 <= j < k ==> a[j] == b[j],
    ensures
        k == a.len() && k < b.len() ==> text_order(a, b) == Ordering::Less,
        k < a.len() && k < b.len() && a[k] < b[k] ==> text_order(a, b) == Ordering::Less,
        k < a.len() && k < b.len() && b[k] < a[k] ==> text_order(a, b) == Ordering::Greater,
        k == b.len() && k < a.len() ==> text_order(a, b) == Ordering::Greater,
{
    if (k == a.len() && k < b.len()) || (k < a.len() && k < b.len() && a[k] < b[k]) {
        lemma_order_from_first_difference(a, b, 0, k);
    }
    if (k == b.len() && k < a.len()) || (k < a.len() && k < b.len() && b[k] < a[k]) {
        lemma_order_from_first_difference(b, a, 0, k);
        law_text_order_antisymmetric(a, b);
    }
}

/// Law: counts are ordered as numbers.
pub proof fn law_count_order_numeric(a: usize, b: usize)
    ensures
        a < b ==> count_order(a, b) == Ordering::Less,
        a == b ==> count_order(a, b) == Ordering::Equal,
        a > b ==> count_order(a, b) == Ordering::Greater,
{
}

/// Law: exchanging the two texts reverses their order.
pub proof fn law_text_order_antisymmetric(a: Seq<char>, b: Seq<char>)
    ensures
        text_order(a, b) == flipped(text_order(b, a)),
{
    lemma_order_from_flip(a, b, 0);
}

/// Law: two texts compare equal exactly when they are the same text.
pub proof fn law_text_order_equal(a: Seq<char>, b: Seq<char>)
    ensures
        text_order(a, b) == Ordering::Equal <==> a == b,
{
    lemma_order_from_equal(a, b, 0);
    if text_order(a, b) == Ordering::Equal {
        assert(a =~= b);
    }
}

/// Law: the order of texts is transitive.
pub proof fn law_text_order_transitive(a: Seq<char>, b: Seq<char>, c: Seq<char>)
    requires
        text_order(a, b) != Ordering::Greater,
        text_order(b, c) != Ordering::Greater,
    ensures
        text_order(a, c) != Ordering::Greater,
        text_order(a, b) == Ordering::Less || text_order(b, c) == Ordering::Less ==> text_order(a, c)
            == Ordering::Less,
{
    law_text_order_equal(a, b);
    law_text_order_equal(b, c);
    if text_order(a, b) == Ordering::Less && text_order(b, c) == Ordering::Less {
        lemma_order_from_less_trans(a, b, c, 0);
    }
}

} // verus!
