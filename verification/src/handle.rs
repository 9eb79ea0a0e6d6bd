//! Addresses as a foreign caller holds them, as plain values.
//!
//! A foreign caller passes raw addresses: of an object it owns, of an object
//! it lends for one call, or of a variable of its own that the call is to
//! fill. Each of them may be null. The types here say which of these an
//! argument is and what stands behind it, so that the contracts of the
//! boundary functions can speak of what is read and what is written.

use vstd::prelude::*;

verus! {

/// The address of an object: null, or one live object.
///
/// `Handle<T>` owns the object, as the caller does between the call that
/// created it and the call that destroys it. `Handle<&T>` lends it for the
/// length of one call.
#[derive(Debug, PartialEq, Eq)]
pub enum Handle<T> {
    /// The null address: no object.
    Null,
    /// The address of exactly one live object.
    Live(T),
}

/// The address of a caller's variable that a call may fill.
///
/// A contract that leaves a slot as it was says that nothing was written
/// through that address.
#[derive(Debug, PartialEq, Eq)]
pub enum OutSlot<V> {
    /// The null address: there is no variable to write to.
    Null,
    /// A variable that still holds whatever the caller left in it.
    Vacant,
    /// A variable that holds a value written by a boundary function.
    Filled(V),
}

impl<T> Handle<T> {
    /// Whether this is the null address.
    pub fn is_null(&self) -> (b: bool)
        ensures
            b == (*self is Null),
    {
        match self {
            Handle::Null => true,
            Handle::Live(_) => false,
        }
    }

    /// The same address, lent for reading.
    pub open spec fn spec_as_ref(&self) -> Handle<&T> {
        match self {
            Handle::Null => Handle::Null,
            Handle::Live(o) => Handle::Live(o),
        }
    }

    /// The same address, lent for reading: null stays null, and a live
    /// handle lends the object it owns.
    pub fn as_ref(&self) -> (h: Handle<&T>)
        ensures
            h == self.spec_as_ref(),
    {
        match self {
            Handle::Null => Handle::Null,
            Handle::Live(o) => Handle::Live(o),
        }
    }
}

impl<V> OutSlot<V> {
    /// Whether this is the null address.
    pub fn is_null(&self) -> (b: bool)
        ensures
            b == (*self is Null),
    {
        match self {
            OutSlot::Null => true,
            _ => false,
        }
    }
}

} // verus!
