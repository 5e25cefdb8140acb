//! Records read one by one from a sequence of items, such as the lines of a
//! listing.

use vstd::prelude::*;

verus! {

/// What `read` makes of each of `items`, in their order, leaving out the
/// items of which it makes nothing.
pub open spec fn records_of<A, T>(items: Seq<A>, read: spec_fn(A) -> Option<T>) -> Seq<T>
    decreases items.len(),
{
    if items.len() == 0 {
        Seq::empty()
    } else {
        let before = records_of(items.drop_last(), read);
        match read(items.last()) {
            Some(record) => before.push(record),
            None => before,
        }
    }
}

/// Reading one more item adds its record, if it has one, after the others.
pub proof fn lemma_records_of_next<A, T>(items: Seq<A>, read: spec_fn(A) -> Option<T>, i: int)
    requires
        0 <= i < items.len(),
    ensures
        records_of(items.take(i + 1), read) == match read(items[i]) {
            Some(record) => records_of(items.take(i), read).push(record),
            None => records_of(items.take(i), read),
        },
{
    assert(items.take(i + 1).drop_last() == items.take(i));
}

} // verus!
