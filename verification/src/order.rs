//! The order of texts by their characters, first to last. It is also the order of their UTF-8
//! bytes.
use vstd::prelude::*;

use crate::text::to_chars;

verus! {

/// Whether `left` stands before `right`.
pub open spec fn precedes(left: Seq<char>, right: Seq<char>) -> bool {
    precedes_from(left, right, 0)
}

/// Whether `left` stands before `right` by the characters from `start` on.
pub open spec fn precedes_from(left: Seq<char>, right: Seq<char>, start: int) -> bool
    decreases left.len() - start,
{
    if start >= right.len() {
        false
    } else if start >= left.len() {
        true
    } else if left[start] != right[start] {
        left[start] < right[start]
    } else {
        precedes_from(left, right, start + 1)
    }
}

/// Whether each text stands before those after it, so that none occurs twice.
pub open spec fn ascending(texts: Seq<Seq<char>>) -> bool {
    forall|i: int, j: int| 0 <= i < j < texts.len() ==> precedes(#[trigger] texts[i], #[trigger] texts[j])
}

proof fn lemma_irreflexive_from(text: Seq<char>, start: int)
    ensures
        !precedes_from(text, text, start),
    decreases text.len() - start,
{
    if start < text.len() {
        lemma_irreflexive_from(text, start + 1);
    }
}

proof fn lemma_transitive_from(first: Seq<char>, second: Seq<char>, third: Seq<char>, start: int)
    requires
        precedes_from(first, second, start),
        precedes_from(second, third, start),
    ensures
        precedes_from(first, third, start),
    decreases first.len() - start,
{
    if start < first.len() && start < second.len() && start < third.len() && first[start]
        == second[start] && second[start] == third[start] {
        lemma_transitive_from(first, second, third, start + 1);
    }
}

proof fn lemma_total_from(left: Seq<char>, right: Seq<char>, start: int)
    requires
        0 <= start <= left.len(),
        start <= right.len(),
        left.take(start) == right.take(start),
    ensures
        left == right || precedes_from(left, right, start) || precedes_from(right, left, start),
    decreases left.len() - start,
{
    if start < left.len() && start < right.len() {
        if left[start] == right[start] {
            assert(left.take(start + 1) =~= left.take(start).push(left[start]));
            assert(right.take(start + 1) =~= right.take(start).push(right[start]));
            lemma_total_from(left, right, start + 1);
        }
    } else if left.len() == right.len() {
        assert(left =~= left.take(start));
        assert(right =~= right.take(start));
    }
}

/// No text stands before itself.
pub proof fn lemma_precedes_irreflexive(text: Seq<char>)
    ensures
        !precedes(text, text),
{
    lemma_irreflexive_from(text, 0);
}

/// The order is transitive.
pub proof fn lemma_precedes_transitive(first: Seq<char>, second: Seq<char>, third: Seq<char>)
    requires
        precedes(first, second),
        precedes(second, third),
    ensures
        precedes(first, third),
{
    lemma_transitive_from(first, second, third, 0);
}

/// Of two different texts one stands before the other.
pub proof fn lemma_precedes_total(left: Seq<char>, right: Seq<char>)
    ensures
        left == right || precedes(left, right) || precedes(right, left),
{
    assert(left.take(0) =~= right.take(0));
    lemma_total_from(left, right, 0);
}

/// Two ascending lists of the same texts are the same list.
pub proof fn lemma_ascending_unique(left: Seq<Seq<char>>, right: Seq<Seq<char>>)
    requires
        ascending(left),
        ascending(right),
        forall|text: Seq<char>| left.contains(text) <==> right.contains(text),
    ensures
        left == right,
    decreases left.len(),
{
    if left.len() == 0 {
        if right.len() > 0 {
            assert(right.contains(right[0]));
            assert(left.contains(right[0]));
        }
        assert(left =~= right);
    } else {
        assert(left.contains(left.last()));
        assert(right.contains(left.last()));
        let i = choose|i: int| 0 <= i < right.len() && right[i] == left.last();
        assert(right.contains(right.last()));
        assert(left.contains(right.last()));
        let j = choose|j: int| 0 <= j < left.len() && left[j] == right.last();
        if i < right.len() - 1 {
            assert(precedes(right[i], right[right.len() - 1]));
            lemma_precedes_irreflexive(left.last());
            if j < left.len() - 1 {
                assert(precedes(left[j], left[left.len() - 1]));
                lemma_precedes_transitive(left.last(), right.last(), left.last());
            }
        }
        assert(left.last() == right.last());
        let shorter_left = left.drop_last();
        let shorter_right = right.drop_last();
        assert forall|text: Seq<char>| shorter_left.contains(text) <==> shorter_right.contains(
            text,
        ) by {
            lemma_precedes_irreflexive(left.last());
            if shorter_left.contains(text) {
                let k = choose|k: int| 0 <= k < shorter_left.len() && shorter_left[k] == text;
                assert(precedes(left[k], left[left.len() - 1]));
                assert(left.contains(left[k]));
                let m = choose|m: int| 0 <= m < right.len() && right[m] == text;
                assert(m != right.len() - 1);
                assert(shorter_right[m] == text);
            }
            if shorter_right.contains(text) {
                let k = choose|k: int| 0 <= k < shorter_right.len() && shorter_right[k] == text;
                assert(precedes(right[k], right[right.len() - 1]));
                assert(right.contains(right[k]));
                let m = choose|m: int| 0 <= m < left.len() && left[m] == text;
                assert(m != left.len() - 1);
                assert(shorter_left[m] == text);
            }
        }
        lemma_ascending_unique(shorter_left, shorter_right);
        assert(left =~= shorter_left.push(left.last()));
        assert(right =~= shorter_right.push(right.last()));
    }
}

/// Tells whether `left` stands before `right`.
pub fn text_precedes(left: &str, right: &str) -> (result: bool)
    ensures
        result == precedes(left@, right@),
{
    let left_chars = to_chars(left);
    let right_chars = to_chars(right);
    let mut i: usize = 0;
    while i < left_chars.len() && i < right_chars.len() && left_chars[i] == right_chars[i]
        invariant
            left_chars@ == left@,
            right_chars@ == right@,
            i <= left_chars@.len(),
            i <= right_chars@.len(),
            precedes(left@, right@) == precedes_from(left@, right@, i as int),
        decreases left_chars@.len() - i,
    {
        i = i + 1;
    }
    if i >= right_chars.len() {
        false
    } else if i >= left_chars.len() {
        true
    } else {
        left_chars[i] < right_chars[i]
    }
}

} // verus!
