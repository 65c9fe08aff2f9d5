//! Devices, and the one default device that an operation works on when it
//! is given none.

use vstd::prelude::*;
use crate::library::{message, Library};
use crate::status::{check_api_status, Failure};
use crate::wrap::{replied, Wrap};

verus! {

/// An entity that wraps a device.
pub trait Device: Wrap {

}

/// The address that stands for an optional device at the boundary: the
/// null pointer for none.
pub open spec fn device_addr<D: Device>(device: Option<&D>) -> usize {
    match device {
        Some(device) => device.handle().addr(),
        None => 0,
    }
}

/// The address to hand over for an optional device.
pub fn device_ptr<D: Device>(device: Option<&D>) -> (addr: usize)
    ensures
        addr == device_addr(device),
{
    match device {
        Some(device) => device.as_ptr(),
        None => 0,
    }
}

/// Installs `device` as the default device, in place of the one installed
/// before. The default device is not owned by the table: the device must
/// stay alive for as long as it is the default.
pub fn set_default<D: Device>(lib: &mut Library, device: &mut D) -> (result: Result<(), Failure>)
    ensures
        final(device).handle() == old(device).handle(),
        final(lib)@ == old(lib)@.set_default_device(old(device).handle().addr()),
        replied(result, old(lib)@.set_default_device_status(old(device).handle().addr())),
{
    let raw: u32 = lib.set_default_device(device.as_mut_ptr());
    check_api_status(raw, message(raw))
}

} // verus!
