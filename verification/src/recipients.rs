//! The subjects that a series is shared with, and what changes when the list
//! is replaced.

use crate::text::{holds_text, texts};
use vstd::prelude::*;

verus! {

/// The texts of `list` that `other` does not hold, in the order of `list`.
pub open spec fn without(list: Seq<Seq<char>>, other: Seq<Seq<char>>) -> Seq<Seq<char>>
    decreases list.len(),
{
    if list.len() == 0 {
        Seq::empty()
    } else if other.contains(list.last()) {
        without(list.drop_last(), other)
    } else {
        without(list.drop_last(), other).push(list.last())
    }
}

/// The texts of `list` that `other` does not hold. Where `list` holds
/// nothing twice, neither does the result.
pub fn difference(list: &Vec<String>, other: &Vec<String>) -> (r: Vec<String>)
    ensures
        texts(r@) == without(texts(list@), texts(other@)),
        texts(list@).no_duplicates() ==> texts(r@).no_duplicates(),
{
    proof {
        if texts(list@).no_duplicates() {
            lemma_without_no_duplicates(texts(list@), texts(other@));
        }
    }
    let mut r: Vec<String> = Vec::new();
    let mut i: usize = 0;
    assert(texts(list@).take(0) =~= Seq::empty());
    assert(texts(r@) =~= Seq::empty());
    while i < list.len()
        invariant
            i <= list@.len(),
            texts(r@) == without(texts(list@).take(i as int), texts(other@)),
        decreases list@.len() - i,
    {
        let ghost done = texts(list@).take(i + 1);
        assert(done.drop_last() =~= texts(list@).take(i as int));
        assert(done.last() == list@[i as int]@);
        if !holds_text(other, list[i].as_str()) {
            let ghost before = texts(r@);
            r.push(list[i].clone());
            assert(texts(r@) =~= before.push(list@[i as int]@));
        }
        i += 1;
    }
    assert(texts(list@).take(list@.len() as int) =~= texts(list@));
    r
}

/// What changes when the recipients `old` are replaced by `new`.
#[derive(Clone, Debug, PartialEq, Eq)]
pub struct RecipientDelta {
    /// The subjects that the series is newly shared with.
    pub to_add: Vec<String>,
    /// The subjects that it is no longer shared with.
    pub to_remove: Vec<String>,
}

/// What changes when the recipients `old` are replaced by `new`: those of
/// `new` that `old` does not hold are added, and those of `old` that `new`
/// does not hold are removed. Lists that hold nothing twice give lists that
/// hold nothing twice.
pub fn recipient_delta(old: &Vec<String>, new: &Vec<String>) -> (r: RecipientDelta)
    ensures
        texts(r.to_add@) == without(texts(new@), texts(old@)),
        texts(r.to_remove@) == without(texts(old@), texts(new@)),
        texts(new@).no_duplicates() ==> texts(r.to_add@).no_duplicates(),
        texts(old@).no_duplicates() ==> texts(r.to_remove@).no_duplicates(),
{
    RecipientDelta { to_add: difference(new, old), to_remove: difference(old, new) }
}

/// What is kept of `list` is in `list` and not in `other`, and nothing else
/// of `list` is left out.
pub proof fn lemma_without(list: Seq<Seq<char>>, other: Seq<Seq<char>>, x: Seq<char>)
    ensures
        without(list, other).contains(x) <==> (list.contains(x) && !other.contains(x)),
    decreases list.len(),
{
    if list.len() == 0 {
    } else {
        let rest = list.drop_last();
        lemma_without(rest, other, x);
        let kept = without(rest, other);
        if list.contains(x) {
            let i = choose|i: int| 0 <= i < list.len() && list[i] == x;
            if i < rest.len() {
                assert(rest[i] == x);
            }
        }
        if rest.contains(x) {
            let i = choose|i: int| 0 <= i < rest.len() && rest[i] == x;
            assert(list[i] == x);
        }
        if !other.contains(list.last()) {
            let all = kept.push(list.last());
            assert(all.last() == list.last());
            if kept.contains(x) {
                let i = choose|i: int| 0 <= i < kept.len() && kept[i] == x;
                assert(all[i] == x);
            }
            if all.contains(x) {
                let i = choose|i: int| 0 <= i < all.len() && all[i] == x;
                if i < kept.len() {
                    assert(kept[i] == x);
                }
            }
        }
        assert(list[list.len() - 1] == list.last());
    }
}

/// What is kept of a list that holds nothing twice holds nothing twice.
pub proof fn lemma_without_no_duplicates(list: Seq<Seq<char>>, other: Seq<Seq<char>>)
    requires
        list.no_duplicates(),
    ensures
        without(list, other).no_duplicates(),
    decreases list.len(),
{
    if list.len() > 0 {
        let rest = list.drop_last();
        let kept = without(rest, other);
        assert(rest.no_duplicates()) by {
            assert forall|i: int, j: int| 0 <= i < rest.len() && 0 <= j < rest.len() && i
                != j implies rest[i] != rest[j] by {
                assert(rest[i] == list[i] && rest[j] == list[j]);
            }
        }
        lemma_without_no_duplicates(rest, other);
        if !other.contains(list.last()) {
            lemma_without(rest, other, list.last());
            if rest.contains(list.last()) {
                let i = choose|i: int| 0 <= i < rest.len() && rest[i] == list.last();
                assert(list[i] == list[list.len() - 1]);
                assert(false);
            }
            let all = kept.push(list.last());
            assert forall|i: int, j: int| 0 <= i < all.len() && 0 <= j < all.len() && i
                != j implies all[i] != all[j] by {
                if i < kept.len() && j < kept.len() {
                    assert(all[i] == kept[i] && all[j] == kept[j]);
                } else if i < kept.len() {
                    assert(all[i] == kept[i]);
                    assert(kept.contains(kept[i]));
                } else {
                    assert(all[j] == kept[j]);
                    assert(kept.contains(kept[j]));
                }
            }
        }
    }
}

/// The recipients of the site, each with the mark that says whether it is
/// the first of the recipients of a series.
pub open spec fn marked(all: Seq<Seq<char>>, chosen: Seq<Seq<char>>) -> Seq<(Seq<char>, bool)> {
    Seq::new(all.len(), |i: int| (all[i], chosen.len() > 0 && chosen[0] == all[i]))
}

/// The views of marked recipients.
pub open spec fn marked_views(v: Seq<(String, bool)>) -> Seq<(Seq<char>, bool)> {
    Seq::new(v.len(), |i: int| (v[i].0@, v[i].1))
}

/// Marks, among all recipients, the one that heads the recipients of a
/// series.
pub fn mark_recipients(all: Vec<String>, chosen: &Vec<String>) -> (r: Vec<(String, bool)>)
    ensures
        marked_views(r@) == marked(texts(all@), texts(chosen@)),
{
    let mut r: Vec<(String, bool)> = Vec::new();
    let mut i: usize = 0;
    while i < all.len()
        invariant
            i <= all@.len(),
            r@.len() == i,
            forall|k: int|
                0 <= k < i ==> (#[trigger] r@[k]).0@ == all@[k]@ && r@[k].1 == (chosen@.len() > 0
                    && chosen@[0]@ == all@[k]@),
        decreases all@.len() - i,
    {
        let here = chosen.len() > 0 && crate::text::same_text(chosen[0].as_str(), all[i].as_str());
        r.push((all[i].clone(), here));
        i += 1;
    }
    assert(marked_views(r@) =~= marked(texts(all@), texts(chosen@)));
    r
}

} // verus!
