//! Handles and the stores that hand them out

use vstd::prelude::*;

verus! {

/// An opaque, comparable reference to an object held by a [`Store`]
///
/// Two handles are equal exactly when they refer to the same stored object.
#[derive(Clone, Copy, Debug, PartialEq, Eq, Hash, Structural)]
pub struct Handle {
    pub id: usize,
}

/// An append-only arena of objects of one kind
///
/// Inserting an object never changes an object that was stored before, so a
/// handle keeps resolving to the same object for the lifetime of the store.
pub struct Store<T> {
    items: Vec<T>,
}

impl<T> Store<T> {
    /// The stored objects, in the order they were inserted
    pub closed spec fn view(&self) -> Seq<T> {
        self.items@
    }

    /// Whether `handle` resolves to an object of this store
    pub open spec fn contains(&self, handle: Handle) -> bool {
        handle.id < self@.len()
    }

    /// Create an empty store
    pub fn new() -> (r: Self)
        ensures
            r@ == Seq::<T>::empty(),
    {
        Store { items: Vec::new() }
    }

    /// The number of stored objects
    pub fn len(&self) -> (r: usize)
        ensures
            r == self@.len(),
    {
        self.items.len()
    }

    /// Insert an object, returning a fresh handle to it
    pub fn insert(&mut self, object: T) -> (r: Handle)
        ensures
            final(self)@ == old(self)@.push(object),
            r.id == old(self)@.len(),
    {
        let id = self.items.len();
        self.items.push(object);
        Handle { id }
    }

    /// Access the object that `handle` refers to
    pub fn resolve(&self, handle: Handle) -> (r: &T)
        requires
            self.contains(handle),
        ensures
            *r == self@[handle.id as int],
    {
        &self.items[handle.id]
    }
}

} // verus!
