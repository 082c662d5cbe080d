//! The items an entity carries, as listed in its level-editor field.

use vstd::prelude::*;

verus! {

/// The item names carried by one entity.
#[derive(Clone, Eq, PartialEq, Debug, Default)]
pub struct Items(Vec<String>);

impl Items {
    /// The carried item names, as sequences of characters.
    pub closed spec fn names(&self) -> Seq<Seq<char>> {
        self.0.deep_view()
    }

    /// Build from the names read out of the entity's item field, in order.
    pub fn from_names(names: Vec<String>) -> (items: Items)
        ensures
            items.names() == names.deep_view(),
    {
        Items(names)
    }

    /// How many items are carried.
    pub fn len(&self) -> (n: usize)
        ensures
            n == self.names().len(),
    {
        self.0.len()
    }

    /// The name of the item at position `i`.
    pub fn name_at(&self, i: usize) -> (name: &String)
        requires
            i < self.names().len(),
        ensures
            name@ == self.names()[i as int],
    {
        &self.0[i]
    }
}

} // verus!
