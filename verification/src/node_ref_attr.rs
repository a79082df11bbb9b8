//! The attribute carrier for node references. A node-reference container is
//! handed to an element as an attribute; this wrapper pairs the container
//! with the element type it serves, so a reference can be distributed
//! across conditional rendering branches. The host-side attribute behaviour
//! (loading the element into the container when the element is built) lives
//! with the host adapter; the carrier itself only holds the container.

use vstd::prelude::*;
use core::marker::PhantomData;

verus! {

/// Pairs a node-reference container with the element type it serves.
#[derive(Debug)]
pub struct AnyNodeRefAttr<E, C> {
    container: C,
    ty: PhantomData<E>,
}

impl<E, C> AnyNodeRefAttr<E, C> {
    /// The container the carrier holds.
    pub closed spec fn spec_container(&self) -> C {
        self.container
    }

    /// The contained node-reference container.
    pub fn container(&self) -> (r: &C)
        ensures
            *r == self.spec_container(),
    {
        &self.container
    }
}

impl<E, C: Clone> Clone for AnyNodeRefAttr<E, C> {
    fn clone(&self) -> (r: Self) {
        AnyNodeRefAttr { container: self.container.clone(), ty: PhantomData }
    }
}

/// Constructs the attribute carrier for one node-reference container.
pub fn any_node_ref<E, C>(container: C) -> (r: AnyNodeRefAttr<E, C>)
    ensures
        r.spec_container() == container,
{
    AnyNodeRefAttr { container, ty: PhantomData }
}

} // verus!
