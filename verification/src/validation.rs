//! What a document must keep besides what its types enforce.
//!
//! Within one collection of texts in several languages, no language occurs
//! twice. Among the elements of one container, no short ID occurs twice.
//! The ID of an identifiable element is not empty, and no two identifiable
//! elements of one environment have the same ID. The types do not enforce
//! this on every edit; each element that can break it has a function
//! `is_consistent` that says whether it holds, for the element and for
//! everything below it.
use vstd::prelude::*;

verus! {

/// Whether no text occurs twice.
pub open spec fn distinct(texts: Seq<Seq<char>>) -> bool {
    forall|i: int, j: int| 0 <= i < j < texts.len() ==> texts[i] != texts[j]
}

/// The texts among `texts` that are there, in their order.
pub open spec fn present_texts(texts: Seq<Option<Seq<char>>>) -> Seq<Seq<char>>
    decreases texts.len(),
{
    if texts.len() == 0 {
        Seq::empty()
    } else {
        match texts.last() {
            Some(t) => present_texts(texts.drop_last()).push(t),
            None => present_texts(texts.drop_last()),
        }
    }
}

/// Whether no text occurs twice among `texts`.
pub fn all_distinct(texts: &Vec<&String>) -> (b: bool)
    ensures
        b == distinct(texts.deep_view()),
{
    let mut i: usize = 0;
    while i < texts.len()
        invariant
            i <= texts.len(),
            forall|a: int, b: int|
                0 <= a < b < texts.len() && a < i ==> texts.deep_view()[a] != texts.deep_view()[b],
        decreases texts.len() - i,
    {
        let mut j: usize = i + 1;
        while j < texts.len()
            invariant
                i < j <= texts.len(),
                forall|a: int, b: int|
                    0 <= a < b < texts.len() && a < i ==> texts.deep_view()[a]
                        != texts.deep_view()[b],
                forall|b: int| i < b < j ==> texts.deep_view()[i as int] != texts.deep_view()[b],
            decreases texts.len() - j,
        {
            if *texts[i] == *texts[j] {
                assert(texts.deep_view()[i as int] == texts.deep_view()[j as int]);
                return false;
            }
            j += 1;
        }
        i += 1;
    }
    true
}

/// Two texts that both occur in a collection of distinct texts, at
/// different places, are different.
pub proof fn lemma_distinct_apart(texts: Seq<Seq<char>>, i: int, j: int)
    requires
        distinct(texts),
        0 <= i < texts.len(),
        0 <= j < texts.len(),
        i != j,
    ensures
        texts[i] != texts[j],
{
    if i < j {
    } else {
        assert(texts[j] != texts[i]);
    }
}

/// A collection of distinct texts stays one when its last text is removed.
pub proof fn lemma_distinct_without_last(texts: Seq<Seq<char>>)
    requires
        distinct(texts),
        texts.len() > 0,
    ensures
        distinct(texts.drop_last()),
{
    let shorter = texts.drop_last();
    assert forall|i: int, j: int| 0 <= i < j < shorter.len() implies shorter[i] != shorter[j] by {
        assert(shorter[i] == texts[i]);
        assert(shorter[j] == texts[j]);
    }
}

} // verus!
