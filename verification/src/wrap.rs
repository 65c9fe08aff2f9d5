//! What every entity is: a wrapped handle to an object of one kind.

use vstd::prelude::*;
use crate::foreign::{message_text, Kind, LibraryView};
use crate::handle::Handle;
use crate::library::{message, Library};
use crate::status::{check_api_status, hard, recoverable, Failure, IoFailure, OK};

verus! {

/// An entity that wraps a handle to a foreign object.
pub trait Wrap: Sized {
    /// The wrapped handle.
    spec fn handle(&self) -> Handle;

    /// The kind of object that entities of this type wrap.
    spec fn kind() -> Kind;

    /// Wraps a raw address, as the owner of the object or as a view of it.
    /// A null address is refused.
    fn from_raw(addr: usize, owned: bool) -> (result: Result<Self, Failure>)
        ensures
            addr == 0 <==> result is Err,
            result matches Ok(wrapper) ==> wrapper.handle().addr() == addr
                && wrapper.handle().owned() == owned,
            result matches Err(failure) ==> failure is NullHandle,
    ;

    /// The address, to hand to an operation that only reads the object.
    fn as_ptr(&self) -> (addr: usize)
        ensures
            addr == self.handle().addr(),
            addr != 0,
    ;

    /// The address, to hand to an operation that may change the object.
    fn as_mut_ptr(&mut self) -> (addr: usize)
        ensures
            addr == old(self).handle().addr(),
            addr != 0,
            final(self).handle() == old(self).handle(),
    ;

    /// Whether this wrapper must release the object.
    fn is_owned(&self) -> (owned: bool)
        ensures
            owned == self.handle().owned(),
    ;

    /// Gives up the entity for its handle.
    fn into_handle(self) -> (handle: Handle)
        ensures
            handle == self.handle(),
    ;

    /// The kind of object that entities of this type wrap.
    fn object_kind() -> (kind: Kind)
        ensures
            kind == Self::kind(),
    ;
}

/// Whether `result` is what comes of an operation that answered `raw` with
/// the foreign message `message` and handed out `addr`: the failure that
/// arises from the word if it is not `OK`; the refusal of a null pointer if
/// `addr` is null; and else the wrapper of `addr` with the tag `owned`.
pub open spec fn wrapped<W: Wrap>(
    result: Result<W, Failure>,
    raw: u32,
    addr: usize,
    owned: bool,
    message: Seq<char>,
) -> bool {
    match result {
        Ok(wrapper) => {
            &&& raw == OK
            &&& addr != 0
            &&& wrapper.handle().addr() == addr
            &&& wrapper.handle().owned() == owned
        },
        Err(failure) => if raw == OK {
            addr == 0 && failure is NullHandle
        } else {
            failure.arises_from(raw, message)
        },
    }
}

/// Whether `result` is what the hard presentation makes of the word `raw`
/// that the function table answered with, and of the table's message for it.
pub open spec fn replied<T>(result: Result<T, Failure>, raw: u32) -> bool {
    hard(result, raw, message_text(raw))
}

/// Whether `result` is what the recoverable presentation makes, for the
/// file `path`, of the word `raw` that the function table answered with,
/// and of the table's message for it.
pub open spec fn saved_or_loaded(result: Result<(), IoFailure>, raw: u32, path: Seq<char>) -> bool {
    recoverable(result, raw, path, message_text(raw))
}

/// Whether `result` is what comes of a reply of the function table with
/// the word `raw` and the address `addr`, wrapped with the tag `owned`.
pub open spec fn wrapped_reply<W: Wrap>(
    result: Result<W, Failure>,
    raw: u32,
    addr: usize,
    owned: bool,
) -> bool {
    wrapped(result, raw, addr, owned, message_text(raw))
}

/// Whether `result` is the owner of the object that an operation made when
/// it found the state `before` and answered `raw`, or the failure that
/// arises from `raw`.
pub open spec fn made<W: Wrap>(result: Result<W, Failure>, before: LibraryView, raw: u32) -> bool {
    wrapped_reply(result, raw, before.created(raw), true)
}

/// Turns the reply of an operation that hands out an address into the
/// entity that wraps it.
pub fn wrap_reply<W: Wrap>(reply: (u32, usize), owned: bool, message: &str) -> (result: Result<
    W,
    Failure,
>)
    ensures
        wrapped(result, reply.0, reply.1, owned, message@),
{
    match check_api_status(reply.0, message) {
        Ok(_) => W::from_raw(reply.1, owned),
        Err(failure) => Err(failure),
    }
}

/// Ends the life of a wrapper. An owner has the destroy function of its
/// kind called on its address, once; a view has nothing called. The wrapper
/// is consumed either way.
pub fn release<W: Wrap>(lib: &mut Library, wrapper: W) -> (result: Result<(), Failure>)
    ensures
        wrapper.handle().owned() ==> {
            &&& final(lib)@ == old(lib)@.delete(wrapper.handle().addr(), W::kind())
            &&& replied(result, old(lib)@.delete_status(wrapper.handle().addr(), W::kind()))
        },
        !wrapper.handle().owned() ==> final(lib)@ == old(lib)@ && result is Ok,
{
    match wrapper.into_handle().release() {
        Some(addr) => {
            let raw: u32 = lib.delete(addr, W::object_kind());
            check_api_status(raw, message(raw))
        },
        None => Ok(()),
    }
}

} // verus!
