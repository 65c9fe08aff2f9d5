//! The foreign function table, as far as this layer relies on it: objects
//! named by addresses, operations that answer with a raw status word and
//! hand results out through their second component, and a message for each
//! failing word.
//!
//! `Library` keeps the objects in memory. `LibraryView` is the same state as
//! a mathematical value, and each operation is stated as a function on it:
//! the word it answers with, and the state it leaves.

use vstd::prelude::*;
use crate::optimizers::Rule;
use crate::shape::element_count;
use crate::status::{Code, INVALID_ARGUMENT, NOT_SUPPORTED, OK, OUT_OF_MEMORY, RUNTIME_ERROR};
use crate::tensor::{constant, zeros, TensorView};

verus! {

/// The kinds of object that the table holds.
#[derive(Clone, Copy, Debug, PartialEq, Eq, Structural)]
pub enum Kind {
    Device,
    Initializer,
    Parameter,
    Optimizer,
}

/// A named statistics tensor of a parameter.
pub struct StatView {
    pub name: Seq<char>,
    pub tensor: TensorView,
}

/// What a parameter holds once it is valid.
pub struct StorageView {
    pub value: TensorView,
    pub gradient: TensorView,
    pub stats: Seq<StatView>,
    pub device: usize,
}

/// An object of the table.
pub enum ObjectView {
    Device,
    /// An initializer that fills a tensor with one value.
    Initializer(u32),
    /// A parameter; `None` while it holds no storage.
    Parameter(Option<StorageView>),
    Optimizer(Rule),
}

/// A place of the table: the object, and whether it was destroyed.
pub struct SlotView {
    pub object: ObjectView,
    pub released: bool,
}

/// What a saved parameter leaves behind under a path.
pub struct FileView {
    pub path: Seq<char>,
    pub value: TensorView,
    pub stats: Seq<StatView>,
}

/// The state of the function table. The object with address `a` is in
/// `slots[a - 1]`; address 0 is the null pointer. `default_device` is 0
/// until a default device is installed.
pub struct LibraryView {
    pub slots: Seq<SlotView>,
    pub default_device: usize,
    pub files: Seq<FileView>,
}

/// The position of the first of `keys` that equals `key`, or the length of
/// `keys` where none does.
pub open spec fn first_index(keys: Seq<Seq<char>>, key: Seq<char>) -> int
    decreases keys.len(),
{
    if keys.len() == 0 {
        0
    } else if keys[0] == key {
        0
    } else {
        1 + first_index(keys.drop_first(), key)
    }
}

/// `first_index` is the one position that holds `key` with no earlier one
/// holding it, or the length.
pub proof fn lemma_first_index(keys: Seq<Seq<char>>, key: Seq<char>, i: int)
    requires
        0 <= i <= keys.len(),
        forall|j: int| 0 <= j < i ==> keys[j] != key,
        i < keys.len() ==> keys[i] == key,
    ensures
        first_index(keys, key) == i,
    decreases keys.len(),
{
    if keys.len() != 0 && i != 0 {
        let rest = keys.drop_first();
        assert forall|j: int| 0 <= j < i - 1 implies rest[j] != key by {
            assert(rest[j] == keys[j + 1]);
        }
        lemma_first_index(rest, key, i - 1);
    }
}

/// `first_index` stays within the sequence, and where it points at an
/// element, that element is `key`.
pub proof fn lemma_first_index_range(keys: Seq<Seq<char>>, key: Seq<char>)
    ensures
        0 <= first_index(keys, key) <= keys.len(),
        first_index(keys, key) < keys.len() ==> keys[first_index(keys, key)] == key,
        forall|j: int| 0 <= j < first_index(keys, key) ==> keys[j] != key,
    decreases keys.len(),
{
    if keys.len() != 0 && keys[0] != key {
        let rest = keys.drop_first();
        lemma_first_index_range(rest, key);
        assert forall|j: int| 0 <= j < first_index(keys, key) implies keys[j] != key by {
            if j > 0 {
                assert(rest[j - 1] == keys[j]);
            }
        }
    }
}

/// The names of the statistics, in order.
pub open spec fn stat_names(stats: Seq<StatView>) -> Seq<Seq<char>> {
    Seq::new(stats.len(), |i: int| stats[i].name)
}

/// The paths of the files, in order.
pub open spec fn file_paths(files: Seq<FileView>) -> Seq<Seq<char>> {
    Seq::new(files.len(), |i: int| files[i].path)
}

/// The message that the table supplies for a raw status word.
pub open spec fn message_text(raw: u32) -> Seq<char> {
    match Code::of(raw) {
        Code::Success => "no failure"@,
        Code::InvalidArgument => "the number of values is not the element count of the shape"@,
        Code::OutOfMemory => "out of memory"@,
        Code::RuntimeError => "the object is not in a state that admits the operation"@,
        Code::NotSupported => "the handle does not name a live object of the expected kind"@,
        Code::Unknown => "unknown failure"@,
    }
}

impl ObjectView {
    pub open spec fn kind(self) -> Kind {
        match self {
            ObjectView::Device => Kind::Device,
            ObjectView::Initializer(_) => Kind::Initializer,
            ObjectView::Parameter(_) => Kind::Parameter,
            ObjectView::Optimizer(_) => Kind::Optimizer,
        }
    }
}

impl StorageView {
    /// Storage right after initialization with `values`: the gradient is
    /// zero and there are no statistics.
    pub open spec fn fresh(shape: Seq<u32>, values: Seq<u32>, device: usize) -> StorageView {
        StorageView {
            value: TensorView { shape, data: values },
            gradient: TensorView { shape, data: zeros(values.len()) },
            stats: Seq::empty(),
            device,
        }
    }

    /// Whether a statistics tensor is kept under `name`.
    pub open spec fn has_stat(self, name: Seq<char>) -> bool {
        first_index(stat_names(self.stats), name) < self.stats.len()
    }

    /// The statistics tensor kept under `name`.
    pub open spec fn stat(self, name: Seq<char>) -> TensorView
        recommends
            self.has_stat(name),
    {
        self.stats[first_index(stat_names(self.stats), name)].tensor
    }
}

impl LibraryView {
    /// The state before any object was made.
    pub open spec fn empty() -> LibraryView {
        LibraryView { slots: Seq::empty(), default_device: 0, files: Seq::empty() }
    }

    /// Whether `addr` names an object that was made and not destroyed.
    pub open spec fn live(self, addr: usize) -> bool {
        0 < addr <= self.slots.len() && !self.slots[addr - 1].released
    }

    /// The object that `addr` names.
    pub open spec fn object(self, addr: usize) -> ObjectView
        recommends
            0 < addr <= self.slots.len(),
    {
        self.slots[addr - 1].object
    }

    /// Whether `addr` names a live object of the kind `kind`.
    pub open spec fn has(self, addr: usize, kind: Kind) -> bool {
        self.live(addr) && self.object(addr).kind() == kind
    }

    /// How often the object that `addr` names was destroyed.
    pub open spec fn release_count(self, addr: usize) -> nat {
        if 0 < addr <= self.slots.len() && self.slots[addr - 1].released {
            1
        } else {
            0
        }
    }

    /// What the parameter `param` holds; `None` while it is invalid.
    pub open spec fn storage(self, param: usize) -> Option<StorageView>
        recommends
            self.has(param, Kind::Parameter),
    {
        match self.object(param) {
            ObjectView::Parameter(storage) => storage,
            _ => None,
        }
    }

    /// Whether `param` names a live parameter that holds storage.
    pub open spec fn valid(self, param: usize) -> bool {
        self.has(param, Kind::Parameter) && self.storage(param) is Some
    }

    /// The address that the next object gets.
    pub open spec fn next_addr(self) -> usize {
        (self.slots.len() + 1) as usize
    }

    /// The device that an operation works on when it is given `device`:
    /// the default device in place of the null pointer.
    pub open spec fn resolve(self, device: usize) -> usize {
        if device == 0 {
            self.default_device
        } else {
            device
        }
    }

    /// The state that an operation leaves: `done` if it answers `OK`, and
    /// the state it found if not.
    pub open spec fn settle(self, raw: u32, done: LibraryView) -> LibraryView {
        if raw == OK {
            done
        } else {
            self
        }
    }

    /// The state with one more object.
    pub open spec fn with_new(self, object: ObjectView) -> LibraryView {
        LibraryView { slots: self.slots.push(SlotView { object, released: false }), ..self }
    }

    /// The state with `object` in the place that `addr` names.
    pub open spec fn with_object(self, addr: usize, object: ObjectView) -> LibraryView
        recommends
            0 < addr <= self.slots.len(),
    {
        LibraryView {
            slots: self.slots.update(
                addr - 1,
                SlotView { object, released: self.slots[addr - 1].released },
            ),
            ..self
        }
    }

    /// The file saved under `path`, if there is one.
    pub open spec fn file(self, path: Seq<char>) -> Option<FileView> {
        let i = first_index(file_paths(self.files), path);
        if i < self.files.len() {
            Some(self.files[i])
        } else {
            None
        }
    }

    /// The state with `file` saved under its path, in place of what was
    /// saved there before.
    pub open spec fn with_file(self, file: FileView) -> LibraryView {
        let i = first_index(file_paths(self.files), file.path);
        LibraryView {
            files: if i < self.files.len() {
                self.files.update(i, file)
            } else {
                self.files.push(file)
            },
            ..self
        }
    }

    // Making and destroying objects.

    /// The word that making an object answers with.
    pub open spec fn create_status(self) -> u32 {
        if self.slots.len() >= usize::MAX {
            OUT_OF_MEMORY
        } else {
            OK
        }
    }

    /// The state after making `object`.
    pub open spec fn create(self, object: ObjectView) -> LibraryView {
        self.settle(self.create_status(), self.with_new(object))
    }

    /// The address handed out by an operation that makes an object and
    /// answers `raw`.
    pub open spec fn created(self, raw: u32) -> usize {
        if raw == OK {
            self.next_addr()
        } else {
            0
        }
    }

    /// The word that destroying the object of kind `kind` at `addr` answers with.
    pub open spec fn delete_status(self, addr: usize, kind: Kind) -> u32 {
        if self.has(addr, kind) {
            OK
        } else {
            NOT_SUPPORTED
        }
    }

    /// The state after destroying the object of kind `kind` at `addr`.
    pub open spec fn delete(self, addr: usize, kind: Kind) -> LibraryView {
        self.settle(
            self.delete_status(addr, kind),
            LibraryView {
                slots: self.slots.update(
                    addr - 1,
                    SlotView { object: self.slots[addr - 1].object, released: true },
                ),
                ..self
            },
        )
    }

    // The default device.

    /// The word that installing `device` as the default answers with.
    pub open spec fn set_default_device_status(self, device: usize) -> u32 {
        if self.has(device, Kind::Device) {
            OK
        } else {
            NOT_SUPPORTED
        }
    }

    /// The state after installing `device` as the default.
    pub open spec fn set_default_device(self, device: usize) -> LibraryView {
        self.settle(
            self.set_default_device_status(device),
            LibraryView { default_device: device, ..self },
        )
    }

    /// The word for the device argument of an operation: there must be a
    /// device to work on, and it must be live.
    pub open spec fn device_status(self, device: usize) -> u32 {
        if self.resolve(device) == 0 {
            RUNTIME_ERROR
        } else if !self.has(self.resolve(device), Kind::Device) {
            NOT_SUPPORTED
        } else {
            OK
        }
    }

    // Filling a parameter.

    /// The word for filling a tensor of shape `shape` with `values` on `device`.
    pub open spec fn values_status(self, shape: Seq<u32>, values: Seq<u32>, device: usize) -> u32 {
        if values.len() != element_count(shape) {
            INVALID_ARGUMENT
        } else {
            self.device_status(device)
        }
    }

    /// The word for filling a tensor of shape `shape` by `initializer` on `device`.
    pub open spec fn initializer_status(
        self,
        shape: Seq<u32>,
        initializer: usize,
        device: usize,
    ) -> u32 {
        if !self.has(initializer, Kind::Initializer) {
            NOT_SUPPORTED
        } else if element_count(shape) > usize::MAX {
            OUT_OF_MEMORY
        } else {
            self.device_status(device)
        }
    }

    /// The values that `initializer` gives a tensor of shape `shape`.
    pub open spec fn initial_values(self, shape: Seq<u32>, initializer: usize) -> Seq<u32>
        recommends
            self.has(initializer, Kind::Initializer),
    {
        constant(
            element_count(shape),
            match self.object(initializer) {
                ObjectView::Initializer(value) => value,
                _ => 0u32,
            },
        )
    }

    /// The storage of a parameter filled with `values`.
    pub open spec fn filled(self, shape: Seq<u32>, values: Seq<u32>, device: usize) -> ObjectView {
        ObjectView::Parameter(Some(StorageView::fresh(shape, values, self.resolve(device))))
    }

    pub open spec fn create_parameter_with_values_status(
        self,
        shape: Seq<u32>,
        values: Seq<u32>,
        device: usize,
    ) -> u32 {
        if self.values_status(shape, values, device) != OK {
            self.values_status(shape, values, device)
        } else {
            self.create_status()
        }
    }

    pub open spec fn create_parameter_with_values(
        self,
        shape: Seq<u32>,
        values: Seq<u32>,
        device: usize,
    ) -> LibraryView {
        self.settle(
            self.create_parameter_with_values_status(shape, values, device),
            self.with_new(self.filled(shape, values, device)),
        )
    }

    pub open spec fn create_parameter_with_initializer_status(
        self,
        shape: Seq<u32>,
        initializer: usize,
        device: usize,
    ) -> u32 {
        if self.initializer_status(shape, initializer, device) != OK {
            self.initializer_status(shape, initializer, device)
        } else {
            self.create_status()
        }
    }

    pub open spec fn create_parameter_with_initializer(
        self,
        shape: Seq<u32>,
        initializer: usize,
        device: usize,
    ) -> LibraryView {
        self.settle(
            self.create_parameter_with_initializer_status(shape, initializer, device),
            self.with_new(self.filled(shape, self.initial_values(shape, initializer), device)),
        )
    }

    pub open spec fn initialize_parameter_with_values_status(
        self,
        param: usize,
        shape: Seq<u32>,
        values: Seq<u32>,
        device: usize,
    ) -> u32 {
        if !self.has(param, Kind::Parameter) {
            NOT_SUPPORTED
        } else {
            self.values_status(shape, values, device)
        }
    }

    pub open spec fn initialize_parameter_with_values(
        self,
        param: usize,
        shape: Seq<u32>,
        values: Seq<u32>,
        device: usize,
    ) -> LibraryView {
        self.settle(
            self.initialize_parameter_with_values_status(param, shape, values, device),
            self.with_object(param, self.filled(shape, values, device)),
        )
    }

    pub open spec fn initialize_parameter_with_initializer_status(
        self,
        param: usize,
        shape: Seq<u32>,
        initializer: usize,
        device: usize,
    ) -> u32 {
        if !self.has(param, Kind::Parameter) {
            NOT_SUPPORTED
        } else {
            self.initializer_status(shape, initializer, device)
        }
    }

    pub open spec fn initialize_parameter_with_initializer(
        self,
        param: usize,
        shape: Seq<u32>,
        initializer: usize,
        device: usize,
    ) -> LibraryView {
        self.settle(
            self.initialize_parameter_with_initializer_status(param, shape, initializer, device),
            self.with_object(
                param,
                self.filled(shape, self.initial_values(shape, initializer), device),
            ),
        )
    }

    // Reading and changing a parameter.

    /// The word for an operation that works on any live parameter.
    pub open spec fn parameter_status(self, param: usize) -> u32 {
        if self.has(param, Kind::Parameter) {
            OK
        } else {
            NOT_SUPPORTED
        }
    }

    /// The word for an operation that needs a valid parameter.
    pub open spec fn valid_status(self, param: usize) -> u32 {
        if !self.has(param, Kind::Parameter) {
            NOT_SUPPORTED
        } else if self.storage(param) is None {
            RUNTIME_ERROR
        } else {
            OK
        }
    }

    /// The state after setting the gradient of `param` to zero.
    pub open spec fn reset_parameter_gradients(self, param: usize) -> LibraryView {
        let storage = self.storage(param)->0;
        self.settle(
            self.valid_status(param),
            self.with_object(
                param,
                ObjectView::Parameter(
                    Some(
                        StorageView {
                            gradient: TensorView {
                                shape: storage.gradient.shape,
                                data: zeros(storage.gradient.data.len()),
                            },
                            ..storage
                        },
                    ),
                ),
            ),
        )
    }

    pub open spec fn add_stats_to_parameter_status(
        self,
        param: usize,
        name: Seq<char>,
        shape: Seq<u32>,
    ) -> u32 {
        if self.valid_status(param) != OK {
            self.valid_status(param)
        } else if self.storage(param)->0.has_stat(name) {
            RUNTIME_ERROR
        } else if element_count(shape) > usize::MAX {
            OUT_OF_MEMORY
        } else {
            OK
        }
    }

    /// The state after adding a zero statistics tensor of shape `shape`
    /// under `name`.
    pub open spec fn add_stats_to_parameter(
        self,
        param: usize,
        name: Seq<char>,
        shape: Seq<u32>,
    ) -> LibraryView {
        let storage = self.storage(param)->0;
        self.settle(
            self.add_stats_to_parameter_status(param, name, shape),
            self.with_object(
                param,
                ObjectView::Parameter(
                    Some(
                        StorageView {
                            stats: storage.stats.push(
                                StatView {
                                    name,
                                    tensor: TensorView {
                                        shape,
                                        data: zeros(element_count(shape)),
                                    },
                                },
                            ),
                            ..storage
                        },
                    ),
                ),
            ),
        )
    }

    /// Whether `param` is valid and keeps a statistics tensor under `name`.
    pub open spec fn has_stats(self, param: usize, name: Seq<char>) -> bool {
        self.valid(param) && self.storage(param)->0.has_stat(name)
    }

    pub open spec fn get_parameter_stats_status(self, param: usize, name: Seq<char>) -> u32 {
        if self.valid_status(param) != OK {
            self.valid_status(param)
        } else if !self.storage(param)->0.has_stat(name) {
            RUNTIME_ERROR
        } else {
            OK
        }
    }

    // Saving and loading.

    /// What saving `param` writes.
    pub open spec fn saved(self, param: usize, path: Seq<char>, with_stats: u32) -> FileView
        recommends
            self.valid(param),
    {
        let storage = self.storage(param)->0;
        FileView {
            path,
            value: storage.value,
            stats: if with_stats != 0 {
                storage.stats
            } else {
                Seq::empty()
            },
        }
    }

    /// The state after saving `param` under `path`.
    pub open spec fn save_parameter(
        self,
        param: usize,
        path: Seq<char>,
        with_stats: u32,
    ) -> LibraryView {
        self.settle(self.valid_status(param), self.with_file(self.saved(param, path, with_stats)))
    }

    pub open spec fn load_parameter_status(
        self,
        param: usize,
        path: Seq<char>,
        device: usize,
    ) -> u32 {
        if !self.has(param, Kind::Parameter) {
            NOT_SUPPORTED
        } else if self.file(path) is None {
            RUNTIME_ERROR
        } else {
            self.device_status(device)
        }
    }

    /// What a parameter holds after loading `file`.
    pub open spec fn loaded(self, file: FileView, with_stats: u32, device: usize) -> StorageView {
        StorageView {
            value: file.value,
            gradient: TensorView { shape: file.value.shape, data: zeros(file.value.data.len()) },
            stats: if with_stats != 0 {
                file.stats
            } else {
                Seq::empty()
            },
            device: self.resolve(device),
        }
    }

    /// The state after loading `param` from `path`.
    pub open spec fn load_parameter(
        self,
        param: usize,
        path: Seq<char>,
        with_stats: u32,
        device: usize,
    ) -> LibraryView {
        self.settle(
            self.load_parameter_status(param, path, device),
            self.with_object(
                param,
                ObjectView::Parameter(
                    Some(self.loaded(self.file(path)->0, with_stats, device)),
                ),
            ),
        )
    }
}

} // verus!
