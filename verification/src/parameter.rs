//! The parameter entity: a trainable tensor with its value, its gradient,
//! its named statistics tensors and the device that backs it.

use vstd::prelude::*;
use crate::device::{device_addr, device_ptr, Device};
use crate::devices::AnyDevice;
use crate::foreign::{message_text, Kind, ObjectView};
use crate::handle::Handle;
use crate::initializers::Initializer;
use crate::library::{message, Library};
use crate::marshal::{flag, truth};
use crate::shape::Shape;
use crate::status::{check_api_status, from_api_status, io_result, Failure, IoFailure, OK};
use crate::tensor::Tensor;
use crate::wrap::{made, replied, saved_or_loaded, wrap_reply, wrapped_reply, Wrap};

verus! {

/// A trainable tensor. A parameter is invalid until it is given storage,
/// and an operation that needs storage fails on an invalid one.
#[derive(Debug)]
pub struct Parameter {
    handle: Handle,
}

impl Wrap for Parameter {
    closed spec fn handle(&self) -> Handle {
        self.handle
    }

    open spec fn kind() -> Kind {
        Kind::Parameter
    }

    fn from_raw(addr: usize, owned: bool) -> (result: Result<Self, Failure>) {
        match Handle::from_raw(addr, owned) {
            Ok(handle) => Ok(Parameter { handle }),
            Err(failure) => Err(failure),
        }
    }

    fn as_ptr(&self) -> (addr: usize) {
        self.handle.as_ptr()
    }

    fn as_mut_ptr(&mut self) -> (addr: usize) {
        self.handle.as_mut_ptr()
    }

    fn is_owned(&self) -> (owned: bool) {
        self.handle.is_owned()
    }

    fn into_handle(self) -> (handle: Handle) {
        self.handle
    }

    fn object_kind() -> (kind: Kind) {
        Kind::Parameter
    }
}

/// Whether `result` is what comes of an operation that answered `raw` and
/// handed out the view `view`: the view if the word is `OK`, and else the
/// failure that arises from the word.
pub open spec fn viewed(result: Result<&Tensor, Failure>, raw: u32, view: Option<&Tensor>) -> bool {
    match result {
        Ok(tensor) => raw == OK && view == Some(tensor),
        Err(failure) => if raw == OK {
            view is None && failure is NullHandle
        } else {
            failure.arises_from(raw, message_text(raw))
        },
    }
}

fn view_reply<'a>(reply: (u32, Option<&'a Tensor>)) -> (result: Result<&'a Tensor, Failure>)
    ensures
        viewed(result, reply.0, reply.1),
{
    match check_api_status(reply.0, message(reply.0)) {
        Ok(_) => match reply.1 {
            Some(tensor) => Ok(tensor),
            None => Err(Failure::NullHandle),
        },
        Err(failure) => Err(failure),
    }
}

impl Parameter {
    /// The address of the parameter.
    pub open spec fn addr(&self) -> usize {
        self.handle().addr()
    }

    /// Makes an invalid parameter.
    pub fn new(lib: &mut Library) -> (result: Result<Parameter, Failure>)
        ensures
            final(lib)@ == old(lib)@.create(ObjectView::Parameter(None)),
            made(result, old(lib)@, old(lib)@.create_status()),
    {
        let reply: (u32, usize) = lib.create_parameter();
        wrap_reply(reply, true, message(reply.0))
    }

    /// Makes an invalid parameter.
    pub fn default(lib: &mut Library) -> (result: Result<Parameter, Failure>)
        ensures
            final(lib)@ == old(lib)@.create(ObjectView::Parameter(None)),
            made(result, old(lib)@, old(lib)@.create_status()),
    {
        Parameter::new(lib)
    }

    /// Makes a parameter of shape `shape` that holds `value`, on the
    /// default device.
    pub fn from_values(lib: &mut Library, shape: &Shape, value: &[u32]) -> (result: Result<
        Parameter,
        Failure,
    >)
        ensures
            final(lib)@ == old(lib)@.create_parameter_with_values(shape@, value@, 0),
            made(
                result,
                old(lib)@,
                old(lib)@.create_parameter_with_values_status(shape@, value@, 0),
            ),
    {
        Parameter::from_values_on::<AnyDevice>(lib, shape, value, None)
    }

    /// Makes a parameter of shape `shape` that holds `value`, on `device`
    /// or, without one, on the default device.
    pub fn from_values_on<D: Device>(
        lib: &mut Library,
        shape: &Shape,
        value: &[u32],
        device: Option<&D>,
    ) -> (result: Result<Parameter, Failure>)
        ensures
            final(lib)@ == old(lib)@.create_parameter_with_values(
                shape@,
                value@,
                device_addr(device),
            ),
            made(
                result,
                old(lib)@,
                old(lib)@.create_parameter_with_values_status(shape@, value@, device_addr(device)),
            ),
    {
        let reply: (u32, usize) = lib.create_parameter_with_values(
            shape,
            value,
            device_ptr(device),
        );
        wrap_reply(reply, true, message(reply.0))
    }

    /// Makes a parameter of shape `shape` that `initializer` fills, on the
    /// default device.
    pub fn from_initializer<I: Initializer>(
        lib: &mut Library,
        shape: &Shape,
        initializer: &I,
    ) -> (result: Result<Parameter, Failure>)
        ensures
            final(lib)@ == old(lib)@.create_parameter_with_initializer(
                shape@,
                initializer.handle().addr(),
                0,
            ),
            made(
                result,
                old(lib)@,
                old(lib)@.create_parameter_with_initializer_status(
                    shape@,
                    initializer.handle().addr(),
                    0,
                ),
            ),
    {
        Parameter::from_initializer_on::<AnyDevice, I>(lib, shape, initializer, None)
    }

    /// Makes a parameter of shape `shape` that `initializer` fills, on
    /// `device` or, without one, on the default device.
    pub fn from_initializer_on<D: Device, I: Initializer>(
        lib: &mut Library,
        shape: &Shape,
        initializer: &I,
        device: Option<&D>,
    ) -> (result: Result<Parameter, Failure>)
        ensures
            final(lib)@ == old(lib)@.create_parameter_with_initializer(
                shape@,
                initializer.handle().addr(),
                device_addr(device),
            ),
            made(
                result,
                old(lib)@,
                old(lib)@.create_parameter_with_initializer_status(
                    shape@,
                    initializer.handle().addr(),
                    device_addr(device),
                ),
            ),
    {
        let reply: (u32, usize) = lib.create_parameter_with_initializer(
            shape,
            initializer.as_ptr(),
            device_ptr(device),
        );
        wrap_reply(reply, true, message(reply.0))
    }

    /// Gives the parameter new storage of shape `shape` that holds `value`,
    /// on the default device. What it held before is gone.
    pub fn init_by_values(&mut self, lib: &mut Library, shape: &Shape, value: &[u32]) -> (result:
        Result<(), Failure>)
        ensures
            final(self).handle() == old(self).handle(),
            final(lib)@ == old(lib)@.initialize_parameter_with_values(
                old(self).addr(),
                shape@,
                value@,
                0,
            ),
            replied(
                result,
                old(lib)@.initialize_parameter_with_values_status(
                    old(self).addr(),
                    shape@,
                    value@,
                    0,
                ),
            ),
    {
        self.init_by_values_on::<AnyDevice>(lib, shape, value, None)
    }

    /// Gives the parameter new storage of shape `shape` that holds `value`,
    /// on `device` or, without one, on the default device. What it held
    /// before is gone.
    pub fn init_by_values_on<D: Device>(
        &mut self,
        lib: &mut Library,
        shape: &Shape,
        value: &[u32],
        device: Option<&D>,
    ) -> (result: Result<(), Failure>)
        ensures
            final(self).handle() == old(self).handle(),
            final(lib)@ == old(lib)@.initialize_parameter_with_values(
                old(self).addr(),
                shape@,
                value@,
                device_addr(device),
            ),
            replied(
                result,
                old(lib)@.initialize_parameter_with_values_status(
                    old(self).addr(),
                    shape@,
                    value@,
                    device_addr(device),
                ),
            ),
    {
        let raw: u32 = lib.initialize_parameter_with_values(
            self.as_mut_ptr(),
            shape,
            value,
            device_ptr(device),
        );
        check_api_status(raw, message(raw))
    }

    /// Gives the parameter new storage of shape `shape` that `initializer`
    /// fills, on the default device. What it held before is gone.
    pub fn init_by_initializer<I: Initializer>(
        &mut self,
        lib: &mut Library,
        shape: &Shape,
        initializer: &I,
    ) -> (result: Result<(), Failure>)
        ensures
            final(self).handle() == old(self).handle(),
            final(lib)@ == old(lib)@.initialize_parameter_with_initializer(
                old(self).addr(),
                shape@,
                initializer.handle().addr(),
                0,
            ),
            replied(
                result,
                old(lib)@.initialize_parameter_with_initializer_status(
                    old(self).addr(),
                    shape@,
                    initializer.handle().addr(),
                    0,
                ),
            ),
    {
        self.init_by_initializer_on::<AnyDevice, I>(lib, shape, initializer, None)
    }

    /// Gives the parameter new storage of shape `shape` that `initializer`
    /// fills, on `device` or, without one, on the default device. What it
    /// held before is gone.
    pub fn init_by_initializer_on<D: Device, I: Initializer>(
        &mut self,
        lib: &mut Library,
        shape: &Shape,
        initializer: &I,
        device: Option<&D>,
    ) -> (result: Result<(), Failure>)
        ensures
            final(self).handle() == old(self).handle(),
            final(lib)@ == old(lib)@.initialize_parameter_with_initializer(
                old(self).addr(),
                shape@,
                initializer.handle().addr(),
                device_addr(device),
            ),
            replied(
                result,
                old(lib)@.initialize_parameter_with_initializer_status(
                    old(self).addr(),
                    shape@,
                    initializer.handle().addr(),
                    device_addr(device),
                ),
            ),
    {
        let raw: u32 = lib.initialize_parameter_with_initializer(
            self.as_mut_ptr(),
            shape,
            initializer.as_ptr(),
            device_ptr(device),
        );
        check_api_status(raw, message(raw))
    }

    /// Loads the parameter from the file `path`, with the saved statistics
    /// if `with_stats` is set, on the default device. A failure can be
    /// handled: it names the file and keeps the foreign message.
    pub fn load(&mut self, lib: &mut Library, path: &str, with_stats: bool) -> (result: Result<
        (),
        IoFailure,
    >)
        ensures
            final(self).handle() == old(self).handle(),
            final(lib)@ == old(lib)@.load_parameter(
                old(self).addr(),
                path@,
                if with_stats { 1u32 } else { 0u32 },
                0,
            ),
            saved_or_loaded(
                result,
                old(lib)@.load_parameter_status(old(self).addr(), path@, 0),
                path@,
            ),
    {
        self.load_on::<AnyDevice>(lib, path, with_stats, None)
    }

    /// Loads the parameter from the file `path`, with the saved statistics
    /// if `with_stats` is set, on `device` or, without one, on the default
    /// device. A failure can be handled: it names the file and keeps the
    /// foreign message.
    pub fn load_on<D: Device>(
        &mut self,
        lib: &mut Library,
        path: &str,
        with_stats: bool,
        device: Option<&D>,
    ) -> (result: Result<(), IoFailure>)
        ensures
            final(self).handle() == old(self).handle(),
            final(lib)@ == old(lib)@.load_parameter(
                old(self).addr(),
                path@,
                if with_stats { 1u32 } else { 0u32 },
                device_addr(device),
            ),
            saved_or_loaded(
                result,
                old(lib)@.load_parameter_status(old(self).addr(), path@, device_addr(device)),
                path@,
            ),
    {
        let raw: u32 = lib.load_parameter(
            self.as_mut_ptr(),
            path,
            flag(with_stats),
            device_ptr(device),
        );
        io_result(raw, path, message(raw))
    }

    /// Saves the value of the parameter to the file `path`, and its
    /// statistics too if `with_stats` is set. A failure can be handled: it
    /// names the file and keeps the foreign message.
    pub fn save(&self, lib: &mut Library, path: &str, with_stats: bool) -> (result: Result<
        (),
        IoFailure,
    >)
        ensures
            final(lib)@ == old(lib)@.save_parameter(
                self.addr(),
                path@,
                if with_stats { 1u32 } else { 0u32 },
            ),
            saved_or_loaded(result, old(lib)@.valid_status(self.addr()), path@),
    {
        let raw: u32 = lib.save_parameter(self.as_ptr(), path, flag(with_stats));
        io_result(raw, path, message(raw))
    }

    /// Whether the parameter holds storage.
    pub fn valid(&self, lib: &Library) -> (result: Result<bool, Failure>)
        ensures
            replied(result, lib@.parameter_status(self.addr())),
            result matches Ok(valid) ==> valid == lib@.valid(self.addr()),
    {
        let reply: (u32, u32) = lib.is_valid_parameter(self.as_ptr());
        match check_api_status(reply.0, message(reply.0)) {
            Ok(_) => Ok(truth(reply.1)),
            Err(failure) => Err(failure),
        }
    }

    /// Sets the gradient to zero. Its shape stays.
    pub fn reset_gradient(&mut self, lib: &mut Library) -> (result: Result<(), Failure>)
        ensures
            final(self).handle() == old(self).handle(),
            final(lib)@ == old(lib)@.reset_parameter_gradients(old(self).addr()),
            replied(result, old(lib)@.valid_status(old(self).addr())),
    {
        let raw: u32 = lib.reset_parameter_gradients(self.as_mut_ptr());
        check_api_status(raw, message(raw))
    }

    /// Adds a zero statistics tensor of shape `shape` under `name`. A name
    /// that the parameter already has is refused.
    pub fn add_stats(&mut self, lib: &mut Library, name: &str, shape: &Shape) -> (result: Result<
        (),
        Failure,
    >)
        ensures
            final(self).handle() == old(self).handle(),
            final(lib)@ == old(lib)@.add_stats_to_parameter(old(self).addr(), name@, shape@),
            replied(
                result,
                old(lib)@.add_stats_to_parameter_status(old(self).addr(), name@, shape@),
            ),
    {
        let raw: u32 = lib.add_stats_to_parameter(self.as_mut_ptr(), name, shape);
        check_api_status(raw, message(raw))
    }

    /// Whether the parameter keeps a statistics tensor under `name`.
    pub fn has_stats(&self, lib: &Library, name: &str) -> (result: Result<bool, Failure>)
        ensures
            replied(result, lib@.parameter_status(self.addr())),
            result matches Ok(has) ==> has == lib@.has_stats(self.addr(), name@),
    {
        let reply: (u32, u32) = lib.has_parameter_stats(self.as_ptr(), name);
        match check_api_status(reply.0, message(reply.0)) {
            Ok(_) => Ok(truth(reply.1)),
            Err(failure) => Err(failure),
        }
    }

    /// The shape of the parameter, as a value of its own.
    pub fn shape(&self, lib: &Library) -> (result: Result<Shape, Failure>)
        ensures
            replied(result, lib@.valid_status(self.addr())),
            result matches Ok(shape) ==> shape@ == lib@.storage(self.addr())->0.value.shape,
    {
        let reply: (u32, Option<Shape>) = lib.get_parameter_shape(self.as_ptr());
        match from_api_status(reply.0, reply.1, message(reply.0)) {
            Ok(Some(shape)) => Ok(shape),
            Ok(None) => Err(Failure::NullHandle),
            Err(status) => Err(Failure::from_status(status)),
        }
    }

    /// The device that backs the parameter, as a view: the device is not
    /// released through it.
    pub fn device(&self, lib: &Library) -> (result: Result<AnyDevice, Failure>)
        ensures
            wrapped_reply(result, lib@.valid_status(self.addr()), if lib@.valid(self.addr()) {
                    lib@.storage(self.addr())->0.device
                } else {
                    0
                }, false),
    {
        let reply: (u32, usize) = lib.get_device_from_parameter(self.as_ptr());
        wrap_reply(reply, false, message(reply.0))
    }

    /// The value of the parameter, as a view that lasts no longer than the
    /// borrow of the table.
    pub fn value<'a>(&self, lib: &'a Library) -> (result: Result<&'a Tensor, Failure>)
        ensures
            replied(result, lib@.valid_status(self.addr())),
            result matches Ok(tensor) ==> tensor@ == lib@.storage(self.addr())->0.value,
    {
        view_reply(lib.get_parameter_value(self.as_ptr()))
    }

    /// The gradient of the parameter, as a view that lasts no longer than
    /// the borrow of the table.
    pub fn gradient<'a>(&self, lib: &'a Library) -> (result: Result<&'a Tensor, Failure>)
        ensures
            replied(result, lib@.valid_status(self.addr())),
            result matches Ok(tensor) ==> tensor@ == lib@.storage(self.addr())->0.gradient,
    {
        view_reply(lib.get_parameter_gradient(self.as_ptr()))
    }

    /// The statistics tensor kept under `name`, as a view that lasts no
    /// longer than the borrow of the table.
    pub fn stats<'a>(&self, lib: &'a Library, name: &str) -> (result: Result<&'a Tensor, Failure>)
        ensures
            replied(result, lib@.get_parameter_stats_status(self.addr(), name@)),
            result matches Ok(tensor) ==> tensor@ == lib@.storage(self.addr())->0.stat(name@),
    {
        view_reply(lib.get_parameter_stats(self.as_ptr(), name))
    }
}

} // verus!
