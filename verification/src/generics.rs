//! The container of the lesson on generics.

use vstd::prelude::*;

verus! {

/// A collection that items are added to at the end and read from by place.
pub trait Container<T> {
    /// What the container holds, in the order in which it was added.
    spec fn items(&self) -> Seq<T>;

    /// Puts `item` behind the items that are there.
    fn add(&mut self, item: T)
        ensures
            final(self).items() == old(self).items().push(item),
    ;

    /// The item at place `index`, counted from zero, or `None` where the
    /// container has no such place.
    fn get(&self, index: usize) -> (found: Option<&T>)
        ensures
            index < self.items().len() ==> found == Some(&self.items()[index as int]),
            index >= self.items().len() ==> found is None,
    ;
}

impl<T> Container<T> for Vec<T> {
    open spec fn items(&self) -> Seq<T> {
        self@
    }

    fn add(&mut self, item: T) {
        self.push(item);
    }

    fn get(&self, index: usize) -> (found: Option<&T>) {
        if index < self.len() {
            Some(&self[index])
        } else {
            None
        }
    }
}

} // verus!
