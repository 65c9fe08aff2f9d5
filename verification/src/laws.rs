//! What holds of the entities whatever the state of the function table.
//! Each statement is about the functions on `LibraryView` that the
//! contracts of the entities' operations are written with.

use vstd::prelude::*;
use crate::foreign::{
    file_paths, first_index, lemma_first_index, lemma_first_index_range, stat_names, Kind,
    LibraryView, ObjectView,
};
use crate::parameter::Parameter;
use crate::shape::element_count;
use crate::status::{Failure, INVALID_ARGUMENT, OK};
use crate::tensor::{zeros, TensorView};
use crate::wrap::{made, Wrap};

verus! {

/// A parameter made from a shape and a buffer of as many values as the
/// shape has elements holds exactly these values under exactly this shape,
/// provided there is a live device to work on and room for one more object.
/// The parameter is the object at the next address, it is valid, and its
/// value and shape can be read.
pub proof fn law_values_are_kept(
    lib: LibraryView,
    shape: Seq<u32>,
    values: Seq<u32>,
    device: usize,
)
    requires
        values.len() == element_count(shape),
        lib.device_status(device) == OK,
        lib.create_status() == OK,
    ensures
        lib.create_parameter_with_values_status(shape, values, device) == OK,
        ({
            let after = lib.create_parameter_with_values(shape, values, device);
            let param = lib.next_addr();
            &&& after.valid_status(param) == OK
            &&& after.storage(param)->0.value == TensorView { shape, data: values }
        }),
{
}

/// Making a parameter from a buffer whose length is not the element count
/// of the shape fails as a shape mismatch, whatever else holds, and leaves
/// the table as it was.
pub proof fn law_wrong_length_is_refused(
    lib: LibraryView,
    shape: Seq<u32>,
    values: Seq<u32>,
    device: usize,
    result: Result<Parameter, Failure>,
)
    requires
        values.len() != element_count(shape),
        made(result, lib, lib.create_parameter_with_values_status(shape, values, device)),
    ensures
        lib.create_parameter_with_values_status(shape, values, device) == INVALID_ARGUMENT,
        result matches Err(Failure::ShapeMismatch(_)),
        lib.create_parameter_with_values(shape, values, device) == lib,
{
}

/// A parameter that was just made without storage is live and not valid.
pub proof fn law_new_is_invalid(lib: LibraryView)
    requires
        lib.create_status() == OK,
    ensures
        ({
            let after = lib.create(ObjectView::Parameter(None));
            let param = lib.next_addr();
            &&& after.parameter_status(param) == OK
            &&& !after.valid(param)
        }),
{
}

/// A parameter that was just made from values or by an initializer is valid.
pub proof fn law_made_is_valid(
    lib: LibraryView,
    shape: Seq<u32>,
    values: Seq<u32>,
    initializer: usize,
    device: usize,
)
    ensures
        lib.create_parameter_with_values_status(shape, values, device) == OK
            ==> lib.create_parameter_with_values(shape, values, device).valid(lib.next_addr()),
        lib.create_parameter_with_initializer_status(shape, initializer, device) == OK
            ==> lib.create_parameter_with_initializer(shape, initializer, device).valid(
            lib.next_addr(),
        ),
{
}

/// A parameter that was just initialized, from values or by an
/// initializer, is valid, whatever it held before.
pub proof fn law_initialized_is_valid(
    lib: LibraryView,
    param: usize,
    shape: Seq<u32>,
    values: Seq<u32>,
    initializer: usize,
    device: usize,
)
    ensures
        lib.initialize_parameter_with_values_status(param, shape, values, device) == OK
            ==> lib.initialize_parameter_with_values(param, shape, values, device).valid(param),
        lib.initialize_parameter_with_initializer_status(param, shape, initializer, device) == OK
            ==> lib.initialize_parameter_with_initializer(param, shape, initializer, device).valid(
            param,
        ),
{
}

/// Initializing a parameter discards what it held: the new gradient is
/// zero and no statistics are left.
pub proof fn law_initializing_discards(
    lib: LibraryView,
    param: usize,
    shape: Seq<u32>,
    values: Seq<u32>,
    device: usize,
)
    requires
        lib.initialize_parameter_with_values_status(param, shape, values, device) == OK,
    ensures
        ({
            let storage = lib.initialize_parameter_with_values(
                param,
                shape,
                values,
                device,
            ).storage(param)->0;
            &&& storage.value == TensorView { shape, data: values }
            &&& storage.gradient == TensorView { shape, data: zeros(values.len()) }
            &&& storage.stats.len() == 0
        }),
{
}

/// After the gradient of a valid parameter is reset, every element of the
/// gradient is zero, whatever it was before; the gradient keeps its shape
/// and its length, and the value and the statistics are untouched.
pub proof fn law_reset_gradient_is_zero(lib: LibraryView, param: usize)
    requires
        lib.valid(param),
    ensures
        lib.valid_status(param) == OK,
        ({
            let before = lib.storage(param)->0;
            let after = lib.reset_parameter_gradients(param);
            let storage = after.storage(param)->0;
            &&& after.valid_status(param) == OK
            &&& storage.gradient.shape == before.gradient.shape
            &&& storage.gradient.data.len() == before.gradient.data.len()
            &&& forall|i: int|
                0 <= i < storage.gradient.data.len() ==> storage.gradient.data[i] == 0
            &&& storage.value == before.value
            &&& storage.stats == before.stats
        }),
{
}

/// After a statistics tensor was added under a name, the parameter has
/// statistics under that name, and they are a zero tensor of the shape
/// given; under any other name it has statistics exactly if it had them
/// before, and they are what they were.
pub proof fn law_added_stats_are_there(
    lib: LibraryView,
    param: usize,
    name: Seq<char>,
    shape: Seq<u32>,
    other: Seq<char>,
)
    requires
        lib.add_stats_to_parameter_status(param, name, shape) == OK,
        other != name,
    ensures
        ({
            let after = lib.add_stats_to_parameter(param, name, shape);
            &&& after.has_stats(param, name)
            &&& after.get_parameter_stats_status(param, name) == OK
            &&& after.storage(param)->0.stat(name) == TensorView {
                shape,
                data: zeros(element_count(shape)),
            }
            &&& after.has_stats(param, other) == lib.has_stats(param, other)
            &&& lib.has_stats(param, other) ==> after.storage(param)->0.stat(other) == lib.storage(
                param,
            )->0.stat(other)
        }),
{
    let before = lib.storage(param)->0;
    let after = lib.add_stats_to_parameter(param, name, shape).storage(param)->0;
    let names = stat_names(before.stats);
    let grown = stat_names(after.stats);
    assert(grown =~= names.push(name));
    lemma_first_index_range(names, name);
    lemma_first_index(grown, name, names.len() as int);
    lemma_first_index_range(names, other);
    let i = first_index(names, other);
    if i < names.len() {
        lemma_first_index(grown, other, i);
    } else {
        lemma_first_index(grown, other, grown.len() as int);
    }
}

/// What was saved with its statistics comes back on loading with
/// statistics: the parameter that loads the file is valid and holds the
/// value and every statistics tensor of the parameter that was saved.
pub proof fn law_save_then_load(
    lib: LibraryView,
    saved: usize,
    loaded: usize,
    path: Seq<char>,
    device: usize,
)
    requires
        lib.valid(saved),
        lib.has(loaded, Kind::Parameter),
        lib.device_status(device) == OK,
    ensures
        lib.valid_status(saved) == OK,
        ({
            let written = lib.save_parameter(saved, path, 1);
            let after = written.load_parameter(loaded, path, 1, device);
            &&& written.load_parameter_status(loaded, path, device) == OK
            &&& after.valid(loaded)
            &&& after.storage(loaded)->0.value == lib.storage(saved)->0.value
            &&& after.storage(loaded)->0.stats == lib.storage(saved)->0.stats
        }),
{
    let file = lib.saved(saved, path, 1);
    let written = lib.save_parameter(saved, path, 1);
    let paths = file_paths(lib.files);
    let i = first_index(paths, path);
    lemma_first_index_range(paths, path);
    if i < paths.len() {
        assert(file_paths(written.files) =~= paths);
    } else {
        assert(file_paths(written.files) =~= paths.push(path));
        lemma_first_index(file_paths(written.files), path, i);
    }
    assert(written.file(path) == Some(file));
}

/// Destroying a live object once counts one release for its address and
/// ends its life; the counts of all other addresses stay. A second
/// destroy on the same address is refused, changes nothing, and the count
/// stays at one.
pub proof fn law_released_once(lib: LibraryView, addr: usize, kind: Kind, other: usize)
    requires
        lib.has(addr, kind),
        other != addr,
    ensures
        lib.release_count(addr) == 0,
        lib.delete_status(addr, kind) == OK,
        ({
            let after = lib.delete(addr, kind);
            &&& after.release_count(addr) == 1
            &&& !after.live(addr)
            &&& after.release_count(other) == lib.release_count(other)
            &&& after.live(other) == lib.live(other)
            &&& after.delete_status(addr, kind) != OK
            &&& after.delete(addr, kind) == after
        }),
{
}

/// No address is ever counted as released more than once.
pub proof fn law_never_released_twice(lib: LibraryView, addr: usize)
    ensures
        lib.release_count(addr) <= 1,
{
}

/// The default device is the one installed last: after two devices were
/// installed one after the other, a parameter made without a device is
/// backed by the second. The first device stays alive.
pub proof fn law_last_default_wins(
    lib: LibraryView,
    first: usize,
    second: usize,
    shape: Seq<u32>,
    values: Seq<u32>,
)
    requires
        lib.has(first, Kind::Device),
        lib.has(second, Kind::Device),
        values.len() == element_count(shape),
        lib.create_status() == OK,
    ensures
        lib.set_default_device_status(first) == OK,
        lib.set_default_device(first).set_default_device_status(second) == OK,
        ({
            let installed = lib.set_default_device(first).set_default_device(second);
            let after = installed.create_parameter_with_values(shape, values, 0);
            &&& installed.default_device == second
            &&& installed.has(first, Kind::Device)
            &&& installed.create_parameter_with_values_status(shape, values, 0) == OK
            &&& after.storage(lib.next_addr())->0.device == second
        }),
{
}

} // verus!
