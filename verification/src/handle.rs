//! The handle wrapper: an address into foreign memory together with the tag
//! that says whether this wrapper must release what the address names.

use vstd::prelude::*;
use crate::status::Failure;

verus! {

/// A wrapped foreign handle. The address is never null. A wrapper with
/// `owned` set is the one party that releases the object; a wrapper without
/// it is a view into an object that somebody else releases.
///
/// The type is neither `Clone` nor `Copy`: a second wrapper for the same
/// address comes only from `from_raw`, and who asks for a second owner there
/// says so in plain sight.
#[derive(Debug)]
pub struct Handle {
    addr: usize,
    owned: bool,
}

impl Handle {
    #[verifier::type_invariant]
    spec fn never_null(self) -> bool {
        self.addr != 0
    }

    /// The wrapped address.
    pub closed spec fn addr(&self) -> usize {
        self.addr
    }

    /// The ownership tag.
    pub closed spec fn owned(&self) -> bool {
        self.owned
    }

    /// Wraps a raw address. A null address is refused.
    pub fn from_raw(addr: usize, owned: bool) -> (result: Result<Handle, Failure>)
        ensures
            addr == 0 <==> result is Err,
            result matches Ok(handle) ==> handle.addr() == addr && handle.owned() == owned,
            result matches Err(failure) ==> failure is NullHandle,
    {
        if addr == 0 {
            Err(Failure::NullHandle)
        } else {
            Ok(Handle { addr, owned })
        }
    }

    /// The address, to hand to an operation that only reads the object.
    pub fn as_ptr(&self) -> (addr: usize)
        ensures
            addr == self.addr(),
            addr != 0,
    {
        proof {
            use_type_invariant(self);
        }
        self.addr
    }

    /// The address, to hand to an operation that may change the object.
    pub fn as_mut_ptr(&mut self) -> (addr: usize)
        ensures
            addr == old(self).addr(),
            addr != 0,
            *final(self) == *old(self),
    {
        proof {
            use_type_invariant(&*self);
        }
        self.addr
    }

    /// Whether this wrapper must release the object.
    pub fn is_owned(&self) -> (owned: bool)
        ensures
            owned == self.owned(),
    {
        self.owned
    }

    /// Ends the wrapper's life. The result is the address on which the
    /// destroy function of the object's kind is now due, or `None` for a
    /// view. The wrapper is consumed, so the obligation is handed out once.
    pub fn release(self) -> (due: Option<usize>)
        ensures
            self.owned() ==> due == Some(self.addr()),
            !self.owned() ==> due is None,
            self.addr() != 0,
    {
        proof {
            use_type_invariant(&self);
        }
        if self.owned {
            Some(self.addr)
        } else {
            None
        }
    }
}

} // verus!
