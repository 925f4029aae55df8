use vstd::prelude::*;

use std::collections::BTreeMap;

use crate::handle::NativeHandle;

verus! {

broadcast use {vstd::std_specs::btree::group_btree_axioms, vstd::laws_cmp::group_laws_cmp};

/// Completion callbacks that wait for the runtime, keyed by the identity of the
/// object they belong to. At most one waits per object: a later registration
/// replaces an earlier one. An entry leaves the table when the runtime fires it,
/// or when its owner is released first.
pub struct CallbackRegistry<V> {
    entries: BTreeMap<u64, V>,
}

impl<V> View for CallbackRegistry<V> {
    type V = Map<u64, V>;

    closed spec fn view(&self) -> Map<u64, V> {
        self.entries@
    }
}

impl<V> CallbackRegistry<V> {
    /// An empty table.
    pub fn new() -> (r: Self)
        ensures
            r@ == Map::<u64, V>::empty(),
    {
        CallbackRegistry { entries: BTreeMap::new() }
    }

    /// Stores `callback` for `handle`; one already waiting there is replaced and
    /// handed back, never run.
    pub fn register(&mut self, handle: NativeHandle, callback: V) -> (r: Option<V>)
        ensures
            final(self)@ == old(self)@.insert(handle@, callback),
            r == (if old(self)@.contains_key(handle@) {
                Some(old(self)@[handle@])
            } else {
                None
            }),
    {
        let key = handle.raw();
        self.entries.insert(key, callback)
    }

    /// What the runtime's completion signal does: takes the entry for `handle` out
    /// of the table and hands it over to be run once. With none waiting (it was
    /// cancelled, or never set) there is nothing to run.
    pub fn take(&mut self, handle: NativeHandle) -> (r: Option<V>)
        ensures
            final(self)@ == old(self)@.remove(handle@),
            r == (if old(self)@.contains_key(handle@) {
                Some(old(self)@[handle@])
            } else {
                None
            }),
    {
        let key = handle.raw();
        self.entries.remove(&key)
    }

    /// Drops, without running it, whatever waits for `handle`. An owner calls
    /// this before it releases the object.
    pub fn deregister(&mut self, handle: NativeHandle)
        ensures
            final(self)@ == old(self)@.remove(handle@),
    {
        let _ = self.take(handle);
    }

    /// Whether a callback waits for `handle`.
    pub fn is_registered(&self, handle: NativeHandle) -> (r: bool)
        ensures
            r == self@.contains_key(handle@),
    {
        let key = handle.raw();
        self.entries.contains_key(&key)
    }

    /// How many callbacks wait.
    pub fn len(&self) -> (r: usize)
        ensures
            r == self@.len(),
    {
        self.entries.len()
    }
}

} // verus!

verus! {

/// A callback registered for an object whose owner is released before the
/// runtime fires it never runs: after registering for `handle` and then
/// deregistering it (which releasing the owner does first), the completion
/// signal finds nothing to run.
pub proof fn lemma_released_owner_never_called_back<V>(table: Map<u64, V>, handle: u64, callback: V)
    ensures
        !table.insert(handle, callback).remove(handle).contains_key(handle),
{
}

/// Last registration wins: after registering `first` and then `second` for the
/// same handle, the completion signal runs `second`, the second registration
/// hands `first` back unrun, and nothing waits for the handle afterwards.
pub proof fn lemma_last_registration_wins<V>(table: Map<u64, V>, handle: u64, first: V, second: V)
    ensures
        table.insert(handle, first).contains_key(handle),
        table.insert(handle, first)[handle] == first,
        table.insert(handle, first).insert(handle, second).contains_key(handle),
        table.insert(handle, first).insert(handle, second)[handle] == second,
        !table.insert(handle, first).insert(handle, second).remove(handle).contains_key(handle),
{
}

/// Callbacks of other objects are untouched when one object's callback is
/// registered, fired or dropped.
pub proof fn lemma_other_handles_untouched<V>(table: Map<u64, V>, handle: u64, other: u64, callback: V)
    requires
        handle != other,
    ensures
        table.insert(handle, callback).contains_key(other) == table.contains_key(other),
        table.remove(handle).contains_key(other) == table.contains_key(other),
        table.contains_key(other) ==> table.insert(handle, callback)[other] == table[other]
            && table.remove(handle)[other] == table[other],
{
}

} // verus!
