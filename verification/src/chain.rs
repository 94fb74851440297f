//! Static chains of objects of different types, the storage of the layouts.
//!
//! A chain starts with a `Chain` element holding the first object; every `Link` appends one
//! more object. The number of objects is fixed by the chain's type.

use vstd::prelude::*;

verus! {

/// Common interface of the elements of a chain.
pub trait ChainElement: Sized {
    /// The number of objects in the chain.
    spec fn spec_len() -> nat;

    /// A chain holds at least one object.
    proof fn lemma_len_positive()
        ensures
            Self::spec_len() >= 1,
    ;

    /// Appends `item` to the chain.
    fn append<T>(self, item: T) -> (r: Link<T, Self>)
        ensures
            r.object == item,
            r.parent == self,
    ;

    /// The number of objects in the chain.
    fn len(&self) -> (r: usize)
        requires
            Self::spec_len() <= usize::MAX,
        ensures
            r == Self::spec_len(),
    ;
}

/// A chain element that holds one more object than its parent.
#[derive(Clone, Copy)]
pub struct Link<V, C> {
    /// The rest of the chain.
    pub parent: C,
    /// The last object.
    pub object: V,
}

/// The first element of a chain.
#[derive(Clone, Copy)]
pub struct Chain<V> {
    /// The first object.
    pub object: V,
}

impl<V> Chain<V> {
    /// A chain of the single object `object`.
    pub fn new(object: V) -> (r: Chain<V>)
        ensures
            r.object == object,
    {
        Chain { object }
    }
}

impl<V> ChainElement for Chain<V> {
    open spec fn spec_len() -> nat {
        1
    }

    proof fn lemma_len_positive() {
    }

    fn append<T>(self, item: T) -> (r: Link<T, Self>) {
        Link { object: item, parent: self }
    }

    fn len(&self) -> (r: usize) {
        1
    }
}

impl<V, C: ChainElement> ChainElement for Link<V, C> {
    open spec fn spec_len() -> nat {
        C::spec_len() + 1
    }

    proof fn lemma_len_positive() {
    }

    fn append<T>(self, item: T) -> (r: Link<T, Self>) {
        Link { object: item, parent: self }
    }

    fn len(&self) -> (r: usize) {
        self.parent.len() + 1
    }
}

} // verus!
