//! Initializers: the policies that fill a parameter's storage.

use vstd::prelude::*;
use crate::foreign::{Kind, ObjectView};
use crate::handle::Handle;
use crate::library::{message, Library};
use crate::status::Failure;
use crate::wrap::{made, wrap_reply, Wrap};

verus! {

/// An entity that wraps an initializer.
pub trait Initializer: Wrap {

}

/// The initializer that fills a tensor with one value.
#[derive(Debug)]
pub struct Constant {
    handle: Handle,
}

impl Wrap for Constant {
    closed spec fn handle(&self) -> Handle {
        self.handle
    }

    open spec fn kind() -> Kind {
        Kind::Initializer
    }

    fn from_raw(addr: usize, owned: bool) -> (result: Result<Self, Failure>) {
        match Handle::from_raw(addr, owned) {
            Ok(handle) => Ok(Constant { handle }),
            Err(failure) => Err(failure),
        }
    }

    fn as_ptr(&self) -> (addr: usize) {
        self.handle.as_ptr()
    }

    fn as_mut_ptr(&mut self) -> (addr: usize) {
        self.handle.as_mut_ptr()
    }

    fn is_owned(&self) -> (owned: bool) {
        self.handle.is_owned()
    }

    fn into_handle(self) -> (handle: Handle) {
        self.handle
    }

    fn object_kind() -> (kind: Kind) {
        Kind::Initializer
    }
}

impl Initializer for Constant {

}

impl Constant {
    /// Makes an initializer that fills a tensor with `value`, the bit
    /// pattern of a single-precision number, and owns it.
    pub fn new(lib: &mut Library, value: u32) -> (result: Result<Constant, Failure>)
        ensures
            final(lib)@ == old(lib)@.create(ObjectView::Initializer(value)),
            made(result, old(lib)@, old(lib)@.create_status()),
    {
        let reply: (u32, usize) = lib.create_constant_initializer(value);
        wrap_reply(reply, true, message(reply.0))
    }
}

} // verus!
