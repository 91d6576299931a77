//! Lists of texts and their mathematical views.

use vstd::prelude::*;
use vstd::string::*;

verus! {

/// The texts of a list of strings, each as its sequence of characters.
pub open spec fn texts(list: Seq<String>) -> Seq<Seq<char>> {
    Seq::new(list.len(), |i: int| list[i]@)
}

/// A copy of `list`: the same texts in the same order.
pub fn clone_texts(list: &Vec<String>) -> (copy: Vec<String>)
    ensures
        texts(copy@) == texts(list@),
{
    let mut copy: Vec<String> = Vec::new();
    let mut i: usize = 0;
    while i < list.len()
        invariant
            i <= list@.len(),
            copy@.len() == i,
            forall|k: int| 0 <= k < i ==> copy@[k]@ == list@[k]@,
        decreases list@.len() - i,
    {
        copy.push(list[i].clone());
        i += 1;
    }
    assert(texts(copy@) =~= texts(list@));
    copy
}

/// Whether `list` holds a string with the text of `wanted`.
pub open spec fn has_text(list: Seq<String>, wanted: Seq<char>) -> bool {
    exists|i: int| 0 <= i < list.len() && list[i]@ == wanted
}

/// Looks for a string with the text of `wanted` in `list`.
pub fn contains_text(list: &Vec<String>, wanted: &str) -> (found: bool)
    ensures
        found == has_text(list@, wanted@),
{
    let mut i: usize = 0;
    while i < list.len()
        invariant
            i <= list@.len(),
            forall|k: int| 0 <= k < i ==> list@[k]@ != wanted@,
        decreases list@.len() - i,
    {
        if str_eq(list[i].as_str(), wanted) {
            return true;
        }
        i += 1;
    }
    false
}

/// Whether two strings hold the same text.
pub fn str_eq(left: &str, right: &str) -> (same: bool)
    ensures
        same == (left@ == right@),
{
    String::from_str(left) == String::from_str(right)
}

/// The members of `list` without repetition: each of them once, at the
/// place where it comes first.
pub open spec fn distinct(list: Seq<Seq<char>>) -> Seq<Seq<char>>
    decreases list.len(),
{
    if list.len() == 0 {
        Seq::empty()
    } else if distinct(list.drop_last()).contains(list.last()) {
        distinct(list.drop_last())
    } else {
        distinct(list.drop_last()).push(list.last())
    }
}

/// Nothing occurs twice in `distinct(list)`, and it has the members of
/// `list` and no others.
pub proof fn lemma_distinct(list: Seq<Seq<char>>)
    ensures
        distinct(list).no_duplicates(),
        distinct(list).len() <= list.len(),
        forall|text: Seq<char>| distinct(list).contains(text) <==> list.contains(text),
    decreases list.len(),
{
    if list.len() > 0 {
        let front = list.drop_last();
        lemma_distinct(front);
        let kept = distinct(front);
        let all = distinct(list);
        assert forall|text: Seq<char>| all.contains(text) <==> list.contains(text) by {
            assert(kept.contains(text) <==> front.contains(text));
            if kept.contains(text) {
                let k = choose|k: int| 0 <= k < kept.len() && kept[k] == text;
                assert(all[k] == text);
                let j = choose|j: int| 0 <= j < front.len() && front[j] == text;
                assert(list[j] == text);
            } else if text == list.last() {
                assert(all[all.len() - 1] == text);
                assert(list[list.len() - 1] == text);
            } else {
                if all.contains(text) {
                    let k = choose|k: int| 0 <= k < all.len() && all[k] == text;
                    if k < kept.len() {
                        assert(kept[k] == text);
                    }
                }
                if list.contains(text) {
                    let j = choose|j: int| 0 <= j < list.len() && list[j] == text;
                    assert(front[j] == text);
                }
            }
        }
    }
}

/// Drops the repetitions from `list`: see `distinct`.
pub fn distinct_texts(list: Vec<String>) -> (kept: Vec<String>)
    ensures
        texts(kept@) == distinct(texts(list@)),
{
    let mut kept: Vec<String> = Vec::new();
    let mut i: usize = 0;
    assert(texts(list@).take(0) =~= Seq::empty());
    assert(texts(kept@) =~= Seq::empty());
    while i < list.len()
        invariant
            i <= list@.len(),
            texts(kept@) == distinct(texts(list@).take(i as int)),
        decreases list@.len() - i,
    {
        let ghost before = texts(kept@);
        let ghost seen = texts(list@).take(i as int);
        let ghost next = texts(list@).take(i as int + 1);
        assert(next.drop_last() =~= seen);
        assert(next.last() == list@[i as int]@);
        let known = contains_text(&kept, list[i].as_str());
        proof {
            let wanted = list@[i as int]@;
            if known {
                let k = choose|k: int| 0 <= k < kept@.len() && kept@[k]@ == wanted;
                assert(before[k] == wanted);
            }
            if before.contains(wanted) {
                let k = choose|k: int| 0 <= k < before.len() && before[k] == wanted;
                assert(kept@[k]@ == wanted);
            }
            assert(known == before.contains(wanted));
        }
        if !known {
            kept.push(list[i].clone());
            assert(texts(kept@) =~= before.push(list@[i as int]@));
        }
        i += 1;
    }
    assert(texts(list@).take(i as int) =~= texts(list@));
    kept
}

} // verus!
