//! The persisted item list.
//!
//! A flat list of strings kept by the embedding application in a small JSON
//! file.  The list operations live here, verified; reading and writing the
//! file is the application's side.

use vstd::prelude::*;

verus! {

/// The persisted list of items.
pub struct Store {
    pub items: Vec<String>,
}

impl Default for Store {
    /// An empty store, used when nothing was persisted yet.
    fn default() -> (s: Store)
        ensures
            s.items@.len() == 0,
    {
        Store { items: Vec::new() }
    }
}

/// A copy of the items, in order.
pub fn list_items(store: &Store) -> (v: Vec<String>)
    ensures
        v@ == store.items@,
{
    let mut v: Vec<String> = Vec::new();
    let mut i: usize = 0;
    while i < store.items.len()
        invariant
            i <= store.items@.len(),
            v@ == store.items@.take(i as int),
        decreases store.items@.len() - i,
    {
        v.push(store.items[i].clone());
        i = i + 1;
        assert(v@ =~= store.items@.take(i as int));
    }
    assert(store.items@.take(store.items@.len() as int) =~= store.items@);
    v
}

/// Appends one item at the end of the list.
pub fn add_item(store: &mut Store, value: String)
    ensures
        final(store).items@ == old(store).items@.push(value),
{
    store.items.push(value);
}

/// Removes the item at `index`, keeping the order of the rest; an index
/// past the end changes nothing and is reported back as the error.
pub fn delete_item(store: &mut Store, index: usize) -> (r: Result<(), usize>)
    ensures
        index < old(store).items@.len() ==> r == Ok::<(), usize>(()) && final(store).items@ == old(
            store,
        ).items@.remove(index as int),
        index >= old(store).items@.len() ==> r == Err::<(), usize>(index) && final(store).items@
            == old(store).items@,
{
    if index < store.items.len() {
        store.items.remove(index);
        Ok(())
    } else {
        Err(index)
    }
}

} // verus!
