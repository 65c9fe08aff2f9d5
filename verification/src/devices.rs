//! The device entities.

use vstd::prelude::*;
use crate::device::Device;
use crate::foreign::{Kind, ObjectView};
use crate::handle::Handle;
use crate::library::{message, Library};
use crate::status::Failure;
use crate::wrap::{made, wrap_reply, Wrap};

verus! {

/// A device of any sort, as operations hand it out: mostly a view of a
/// device that another entity owns.
#[derive(Debug)]
pub struct AnyDevice {
    handle: Handle,
}

impl Wrap for AnyDevice {
    closed spec fn handle(&self) -> Handle {
        self.handle
    }

    open spec fn kind() -> Kind {
        Kind::Device
    }

    fn from_raw(addr: usize, owned: bool) -> (result: Result<Self, Failure>) {
        match Handle::from_raw(addr, owned) {
            Ok(handle) => Ok(AnyDevice { handle }),
            Err(failure) => Err(failure),
        }
    }

    fn as_ptr(&self) -> (addr: usize) {
        self.handle.as_ptr()
    }

    fn as_mut_ptr(&mut self) -> (addr: usize) {
        self.handle.as_mut_ptr()
    }

    fn is_owned(&self) -> (owned: bool) {
        self.handle.is_owned()
    }

    fn into_handle(self) -> (handle: Handle) {
        self.handle
    }

    fn object_kind() -> (kind: Kind) {
        Kind::Device
    }
}

impl Device for AnyDevice {

}

/// A device that computes on the host without any acceleration.
#[derive(Debug)]
pub struct Naive {
    handle: Handle,
}

impl Wrap for Naive {
    closed spec fn handle(&self) -> Handle {
        self.handle
    }

    open spec fn kind() -> Kind {
        Kind::Device
    }

    fn from_raw(addr: usize, owned: bool) -> (result: Result<Self, Failure>) {
        match Handle::from_raw(addr, owned) {
            Ok(handle) => Ok(Naive { handle }),
            Err(failure) => Err(failure),
        }
    }

    fn as_ptr(&self) -> (addr: usize) {
        self.handle.as_ptr()
    }

    fn as_mut_ptr(&mut self) -> (addr: usize) {
        self.handle.as_mut_ptr()
    }

    fn is_owned(&self) -> (owned: bool) {
        self.handle.is_owned()
    }

    fn into_handle(self) -> (handle: Handle) {
        self.handle
    }

    fn object_kind() -> (kind: Kind) {
        Kind::Device
    }
}

impl Device for Naive {

}

impl Naive {
    /// Makes a device and owns it.
    pub fn new(lib: &mut Library) -> (result: Result<Naive, Failure>)
        ensures
            final(lib)@ == old(lib)@.create(ObjectView::Device),
            made(result, old(lib)@, old(lib)@.create_status()),
    {
        let reply: (u32, usize) = lib.create_device();
        wrap_reply(reply, true, message(reply.0))
    }
}

} // verus!
