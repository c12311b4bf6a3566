//! Laws of the collections of the model.
//!
//! Every collection of the model is a sequence in the order of insertion. An
//! `add_*` function appends (`push`), a `remove_*` function removes at a
//! position (`remove`) where the position is below the length and changes
//! nothing otherwise. The laws below relate the two.
use vstd::prelude::*;

verus! {

/// Appending an item and then removing the last position gives back the item
/// and the collection as it was.
pub proof fn lemma_add_then_remove_last<T>(items: Seq<T>, item: T)
    ensures
        items.push(item).len() == items.len() + 1,
        items.push(item)[items.len() as int] == item,
        items.push(item).remove(items.len() as int) == items,
{
    assert(items.push(item).remove(items.len() as int) =~= items);
}

/// Removing position `index` shortens the collection by one, leaves what stood
/// before it in place and moves what stood after it one position down.
pub proof fn lemma_remove_shifts<T>(items: Seq<T>, index: int)
    requires
        0 <= index < items.len(),
    ensures
        items.remove(index).len() == items.len() - 1,
        forall|i: int| 0 <= i < index ==> items.remove(index)[i] == items[i],
        forall|i: int| index <= i < items.len() - 1 ==> items.remove(index)[i] == items[i + 1],
{
}

/// Appending keeps what was there, in its order, and puts the new item last.
pub proof fn lemma_add_keeps_order<T>(items: Seq<T>, item: T)
    ensures
        forall|i: int| 0 <= i < items.len() ==> items.push(item)[i] == items[i],
        items.push(item).last() == item,
{
}

} // verus!
