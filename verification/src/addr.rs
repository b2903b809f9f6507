//! Contract addresses.
use vstd::prelude::*;

verus! {

/// A human-readable contract or account address, as the chain hands it out.
#[derive(Debug, PartialEq, Eq)]
pub struct Addr {
    pub address: String,
}

impl View for Addr {
    type V = Seq<char>;

    open spec fn view(&self) -> Seq<char> {
        self.address@
    }
}

impl Addr {
    /// Wraps `address` without validating it.
    pub fn unchecked(address: String) -> (r: Addr)
        ensures
            r.address == address,
    {
        Addr { address }
    }

    /// The address as text.
    pub fn as_str(&self) -> (r: &str)
        ensures
            r@ == self@,
    {
        self.address.as_str()
    }

    /// The address as an owned string.
    pub fn to_string(&self) -> (r: String)
        ensures
            r == self.address,
    {
        self.address.clone()
    }
}

impl Clone for Addr {
    fn clone(&self) -> (r: Addr)
        ensures
            r == *self,
    {
        Addr { address: self.address.clone() }
    }
}

} // verus!
