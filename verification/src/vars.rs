//! A slot through which a printer reaches a variable that the instrumented
//! function keeps using.
use vstd::prelude::*;

verus! {

/// Refers to a variable while it is registered, and to nothing otherwise.
pub struct VarRef<'a, T>(pub Option<&'a T>);

impl<'a, T> VarRef<'a, T> {
    /// An empty slot.
    pub fn new() -> (r: Self)
        ensures
            r.0 == None::<&'a T>,
    {
        VarRef(None)
    }

    /// Makes the slot refer to `ptr`.
    pub fn set_ref(&mut self, ptr: &'a T)
        ensures
            final(self).0 == Some(ptr),
    {
        self.0 = Some(ptr);
    }

    /// Empties the slot.
    pub fn drop_ref(&mut self)
        ensures
            final(self).0 == None::<&'a T>,
    {
        self.0 = None;
    }

    /// The variable the slot refers to, if any.
    pub fn get(&self) -> (r: Option<&'a T>)
        ensures
            r == self.0,
    {
        self.0
    }
}

} // verus!
