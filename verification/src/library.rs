//! The function table in memory: the objects, the default device and the
//! saved files, with the operations that the entities call. Each operation
//! answers with a raw status word and is held to the function on
//! `LibraryView` that states it.

use vstd::prelude::*;
use vstd::slice::slice_to_vec;
use vstd::string::StringExecFns;
use crate::foreign::{
    file_paths, first_index, lemma_first_index, message_text, stat_names, FileView, Kind,
    LibraryView, ObjectView, SlotView, StatView, StorageView,
};
use crate::optimizers::Rule;
use crate::shape::Shape;
use crate::status::{Code, INVALID_ARGUMENT, NOT_SUPPORTED, OK, OUT_OF_MEMORY, RUNTIME_ERROR};
use crate::tensor::{repeat, Tensor};

verus! {

struct Stat {
    name: String,
    tensor: Tensor,
}

impl View for Stat {
    type V = StatView;

    closed spec fn view(&self) -> StatView {
        StatView { name: self.name@, tensor: self.tensor@ }
    }
}

spec fn stat_views(stats: Seq<Stat>) -> Seq<StatView> {
    Seq::new(stats.len(), |i: int| stats[i]@)
}

struct Storage {
    value: Tensor,
    gradient: Tensor,
    stats: Vec<Stat>,
    device: usize,
}

impl View for Storage {
    type V = StorageView;

    closed spec fn view(&self) -> StorageView {
        StorageView {
            value: self.value@,
            gradient: self.gradient@,
            stats: stat_views(self.stats@),
            device: self.device,
        }
    }
}

enum Object {
    Device,
    Initializer(u32),
    Parameter(Option<Storage>),
    Optimizer(Rule),
}

impl View for Object {
    type V = ObjectView;

    closed spec fn view(&self) -> ObjectView {
        match self {
            Object::Device => ObjectView::Device,
            Object::Initializer(value) => ObjectView::Initializer(*value),
            Object::Parameter(None) => ObjectView::Parameter(None),
            Object::Parameter(Some(storage)) => ObjectView::Parameter(Some(storage@)),
            Object::Optimizer(rule) => ObjectView::Optimizer(*rule),
        }
    }
}

impl Object {
    fn kind(&self) -> (kind: Kind)
        ensures
            kind == self@.kind(),
    {
        match self {
            Object::Device => Kind::Device,
            Object::Initializer(_) => Kind::Initializer,
            Object::Parameter(_) => Kind::Parameter,
            Object::Optimizer(_) => Kind::Optimizer,
        }
    }
}

struct Slot {
    object: Object,
    released: bool,
}

impl View for Slot {
    type V = SlotView;

    closed spec fn view(&self) -> SlotView {
        SlotView { object: self.object@, released: self.released }
    }
}

struct File {
    path: String,
    value: Tensor,
    stats: Vec<Stat>,
}

impl View for File {
    type V = FileView;

    closed spec fn view(&self) -> FileView {
        FileView { path: self.path@, value: self.value@, stats: stat_views(self.stats@) }
    }
}

/// The function table with its objects.
pub struct Library {
    slots: Vec<Slot>,
    default_device: usize,
    files: Vec<File>,
}

impl View for Library {
    type V = LibraryView;

    closed spec fn view(&self) -> LibraryView {
        LibraryView {
            slots: Seq::new(self.slots@.len(), |i: int| self.slots@[i]@),
            default_device: self.default_device,
            files: Seq::new(self.files@.len(), |i: int| self.files@[i]@),
        }
    }
}

/// The message that the table supplies for a raw status word.
pub fn message(raw: u32) -> (text: &'static str)
    ensures
        text@ == message_text(raw),
{
    match Code::from_raw(raw) {
        Code::Success => "no failure",
        Code::InvalidArgument => "the number of values is not the element count of the shape",
        Code::OutOfMemory => "out of memory",
        Code::RuntimeError => "the object is not in a state that admits the operation",
        Code::NotSupported => "the handle does not name a live object of the expected kind",
        Code::Unknown => "unknown failure",
    }
}

fn find_stat(stats: &Vec<Stat>, name: &str) -> (i: usize)
    ensures
        i == first_index(stat_names(stat_views(stats@)), name@),
        i <= stats.len(),
{
    let key: String = String::from_str(name);
    let mut i: usize = 0;
    while i < stats.len()
        invariant
            i <= stats.len(),
            key@ == name@,
            forall|j: int| 0 <= j < i ==> stat_names(stat_views(stats@))[j] != name@,
        decreases stats.len() - i,
    {
        if stats[i].name == key {
            proof {
                lemma_first_index(stat_names(stat_views(stats@)), name@, i as int);
            }
            return i;
        }
        i += 1;
    }
    proof {
        lemma_first_index(stat_names(stat_views(stats@)), name@, i as int);
    }
    i
}

fn copy_stats(stats: &Vec<Stat>) -> (copy: Vec<Stat>)
    ensures
        stat_views(copy@) == stat_views(stats@),
{
    let mut copy: Vec<Stat> = Vec::new();
    let mut i: usize = 0;
    while i < stats.len()
        invariant
            i <= stats.len(),
            copy@.len() == i,
            forall|j: int| 0 <= j < i ==> copy@[j]@ == stats@[j]@,
        decreases stats.len() - i,
    {
        copy.push(Stat { name: stats[i].name.clone(), tensor: stats[i].tensor.duplicate() });
        i += 1;
    }
    assert(stat_views(copy@) =~= stat_views(stats@));
    copy
}

impl Library {
    /// A table without objects, default device or files.
    pub fn new() -> (library: Library)
        ensures
            library@ == LibraryView::empty(),
    {
        let library = Library { slots: Vec::new(), default_device: 0, files: Vec::new() };
        assert(library@.slots =~= Seq::empty());
        assert(library@.files =~= Seq::empty());
        library
    }

    fn locate(&self, addr: usize, kind: Kind) -> (found: bool)
        ensures
            found == self@.has(addr, kind),
    {
        if addr == 0 || addr > self.slots.len() {
            return false;
        }
        let slot = &self.slots[addr - 1];
        !slot.released && slot.object.kind() == kind
    }

    fn allocate(&mut self, object: Object) -> (reply: (u32, usize))
        ensures
            reply.0 == old(self)@.create_status(),
            reply.1 == old(self)@.created(reply.0),
            final(self)@ == old(self)@.create(object@),
    {
        if self.slots.len() == usize::MAX {
            return (OUT_OF_MEMORY, 0);
        }
        self.slots.push(Slot { object, released: false });
        assert(self@.slots =~= old(self)@.with_new(object@).slots);
        (OK, self.slots.len())
    }

    /// Makes a device.
    pub fn create_device(&mut self) -> (reply: (u32, usize))
        ensures
            reply.0 == old(self)@.create_status(),
            reply.1 == old(self)@.created(reply.0),
            final(self)@ == old(self)@.create(ObjectView::Device),
    {
        self.allocate(Object::Device)
    }

    /// Makes an initializer that fills a tensor with `value`.
    pub fn create_constant_initializer(&mut self, value: u32) -> (reply: (u32, usize))
        ensures
            reply.0 == old(self)@.create_status(),
            reply.1 == old(self)@.created(reply.0),
            final(self)@ == old(self)@.create(ObjectView::Initializer(value)),
    {
        self.allocate(Object::Initializer(value))
    }

    /// Makes an optimizer with the update rule `rule`.
    pub fn create_optimizer(&mut self, rule: Rule) -> (reply: (u32, usize))
        ensures
            reply.0 == old(self)@.create_status(),
            reply.1 == old(self)@.created(reply.0),
            final(self)@ == old(self)@.create(ObjectView::Optimizer(rule)),
    {
        self.allocate(Object::Optimizer(rule))
    }

    /// Makes a parameter that holds no storage.
    pub fn create_parameter(&mut self) -> (reply: (u32, usize))
        ensures
            reply.0 == old(self)@.create_status(),
            reply.1 == old(self)@.created(reply.0),
            final(self)@ == old(self)@.create(ObjectView::Parameter(None)),
    {
        self.allocate(Object::Parameter(None))
    }

    /// Destroys the object of kind `kind` at `addr`.
    pub fn delete(&mut self, addr: usize, kind: Kind) -> (raw: u32)
        ensures
            raw == old(self)@.delete_status(addr, kind),
            final(self)@ == old(self)@.delete(addr, kind),
    {
        if !self.locate(addr, kind) {
            return NOT_SUPPORTED;
        }
        let slot = &mut self.slots[addr - 1];
        slot.released = true;
        assert(self@.slots =~= old(self)@.delete(addr, kind).slots);
        OK
    }

    /// How often the object at `addr` was destroyed.
    pub fn release_count(&self, addr: usize) -> (count: usize)
        ensures
            count == self@.release_count(addr),
    {
        if addr == 0 || addr > self.slots.len() {
            0
        } else if self.slots[addr - 1].released {
            1
        } else {
            0
        }
    }

    /// Installs `device` as the default device.
    pub fn set_default_device(&mut self, device: usize) -> (raw: u32)
        ensures
            raw == old(self)@.set_default_device_status(device),
            final(self)@ == old(self)@.set_default_device(device),
    {
        if !self.locate(device, Kind::Device) {
            return NOT_SUPPORTED;
        }
        self.default_device = device;
        OK
    }

    /// The default device, or the null pointer where none is installed.
    pub fn default_device(&self) -> (device: usize)
        ensures
            device == self@.default_device,
    {
        self.default_device
    }

    fn check_device(&self, device: usize) -> (raw: u32)
        ensures
            raw == self@.device_status(device),
    {
        let target: usize = if device == 0 {
            self.default_device
        } else {
            device
        };
        if target == 0 {
            RUNTIME_ERROR
        } else if !self.locate(target, Kind::Device) {
            NOT_SUPPORTED
        } else {
            OK
        }
    }
    fn check_values(&self, shape: &Shape, values: &[u32], device: usize) -> (raw: u32)
        ensures
            raw == self@.values_status(shape@, values@, device),
    {
        if !shape.holds(values.len()) {
            INVALID_ARGUMENT
        } else {
            self.check_device(device)
        }
    }

    fn check_initializer(&self, shape: &Shape, initializer: usize, device: usize) -> (raw: u32)
        ensures
            raw == self@.initializer_status(shape@, initializer, device),
    {
        if !self.locate(initializer, Kind::Initializer) {
            NOT_SUPPORTED
        } else if shape.size().is_none() {
            OUT_OF_MEMORY
        } else {
            self.check_device(device)
        }
    }

    fn resolve(&self, device: usize) -> (target: usize)
        ensures
            target == self@.resolve(device),
    {
        if device == 0 {
            self.default_device
        } else {
            device
        }
    }

    fn initial(&self, shape: &Shape, initializer: usize) -> (values: Vec<u32>)
        requires
            self@.has(initializer, Kind::Initializer),
            crate::shape::element_count(shape@) <= usize::MAX,
        ensures
            values@ == self@.initial_values(shape@, initializer),
    {
        let value: u32 = match &self.slots[initializer - 1].object {
            Object::Initializer(value) => *value,
            _ => 0,
        };
        match shape.size() {
            Some(len) => repeat(len, value),
            None => Vec::new(),
        }
    }

    fn install(&mut self, param: usize, storage: Storage)
        requires
            old(self)@.has(param, Kind::Parameter),
        ensures
            final(self)@ == old(self)@.with_object(
                param,
                ObjectView::Parameter(Some(storage@)),
            ),
    {
        let slot = &mut self.slots[param - 1];
        slot.object = Object::Parameter(Some(storage));
        assert(self@.slots =~= old(self)@.with_object(
            param,
            ObjectView::Parameter(Some(storage@)),
        ).slots);
    }

    fn storage(&self, param: usize) -> (found: Option<&Storage>)
        requires
            self@.has(param, Kind::Parameter),
        ensures
            match found {
                Some(storage) => self@.storage(param) == Some(storage@),
                None => self@.storage(param) is None,
            },
    {
        match &self.slots[param - 1].object {
            Object::Parameter(Some(storage)) => Some(storage),
            _ => None,
        }
    }

    fn check_valid(&self, param: usize) -> (raw: u32)
        ensures
            raw == self@.valid_status(param),
    {
        if !self.locate(param, Kind::Parameter) {
            NOT_SUPPORTED
        } else if self.storage(param).is_none() {
            RUNTIME_ERROR
        } else {
            OK
        }
    }

    /// Makes a parameter of shape `shape` that holds `values`, on `device`
    /// or, for the null pointer, on the default device.
    pub fn create_parameter_with_values(
        &mut self,
        shape: &Shape,
        values: &[u32],
        device: usize,
    ) -> (reply: (u32, usize))
        ensures
            reply.0 == old(self)@.create_parameter_with_values_status(shape@, values@, device),
            reply.1 == old(self)@.created(reply.0),
            final(self)@ == old(self)@.create_parameter_with_values(shape@, values@, device),
    {
        let raw: u32 = self.check_values(shape, values, device);
        if raw != OK {
            return (raw, 0);
        }
        if self.slots.len() == usize::MAX {
            return (OUT_OF_MEMORY, 0);
        }
        let storage = fresh(shape, slice_to_vec(values), self.resolve(device));
        self.allocate(Object::Parameter(Some(storage)))
    }

    /// Makes a parameter of shape `shape` that `initializer` fills.
    pub fn create_parameter_with_initializer(
        &mut self,
        shape: &Shape,
        initializer: usize,
        device: usize,
    ) -> (reply: (u32, usize))
        ensures
            reply.0 == old(self)@.create_parameter_with_initializer_status(
                shape@,
                initializer,
                device,
            ),
            reply.1 == old(self)@.created(reply.0),
            final(self)@ == old(self)@.create_parameter_with_initializer(
                shape@,
                initializer,
                device,
            ),
    {
        let raw: u32 = self.check_initializer(shape, initializer, device);
        if raw != OK {
            return (raw, 0);
        }
        if self.slots.len() == usize::MAX {
            return (OUT_OF_MEMORY, 0);
        }
        let storage = fresh(shape, self.initial(shape, initializer), self.resolve(device));
        self.allocate(Object::Parameter(Some(storage)))
    }

    /// Gives `param` new storage of shape `shape` that holds `values`.
    /// What it held before is gone.
    pub fn initialize_parameter_with_values(
        &mut self,
        param: usize,
        shape: &Shape,
        values: &[u32],
        device: usize,
    ) -> (raw: u32)
        ensures
            raw == old(self)@.initialize_parameter_with_values_status(
                param,
                shape@,
                values@,
                device,
            ),
            final(self)@ == old(self)@.initialize_parameter_with_values(
                param,
                shape@,
                values@,
                device,
            ),
    {
        if !self.locate(param, Kind::Parameter) {
            return NOT_SUPPORTED;
        }
        let raw: u32 = self.check_values(shape, values, device);
        if raw != OK {
            return raw;
        }
        let storage = fresh(shape, slice_to_vec(values), self.resolve(device));
        self.install(param, storage);
        OK
    }

    /// Gives `param` new storage of shape `shape` that `initializer` fills.
    /// What it held before is gone.
    pub fn initialize_parameter_with_initializer(
        &mut self,
        param: usize,
        shape: &Shape,
        initializer: usize,
        device: usize,
    ) -> (raw: u32)
        ensures
            raw == old(self)@.initialize_parameter_with_initializer_status(
                param,
                shape@,
                initializer,
                device,
            ),
            final(self)@ == old(self)@.initialize_parameter_with_initializer(
                param,
                shape@,
                initializer,
                device,
            ),
    {
        if !self.locate(param, Kind::Parameter) {
            return NOT_SUPPORTED;
        }
        let raw: u32 = self.check_initializer(shape, initializer, device);
        if raw != OK {
            return raw;
        }
        let storage = fresh(shape, self.initial(shape, initializer), self.resolve(device));
        self.install(param, storage);
        OK
    }

    /// Whether `param` holds storage, as 1 or 0.
    pub fn is_valid_parameter(&self, param: usize) -> (reply: (u32, u32))
        ensures
            reply.0 == self@.parameter_status(param),
            reply.1 == 1 <==> self@.valid(param),
            reply.1 == 0 || reply.1 == 1,
    {
        if !self.locate(param, Kind::Parameter) {
            (NOT_SUPPORTED, 0)
        } else if self.storage(param).is_some() {
            (OK, 1)
        } else {
            (OK, 0)
        }
    }
    /// Sets the gradient of `param` to zero.
    pub fn reset_parameter_gradients(&mut self, param: usize) -> (raw: u32)
        ensures
            raw == old(self)@.valid_status(param),
            final(self)@ == old(self)@.reset_parameter_gradients(param),
    {
        let raw: u32 = self.check_valid(param);
        if raw != OK {
            return raw;
        }
        let slot = &mut self.slots[param - 1];
        match &mut slot.object {
            Object::Parameter(Some(storage)) => {
                let len: usize = storage.gradient.values().len();
                storage.gradient = Tensor::zeroed(storage.gradient.shape().duplicate(), len);
            },
            _ => {},
        }
        assert(self@.slots =~= old(self)@.reset_parameter_gradients(param).slots);
        OK
    }

    /// Adds a zero statistics tensor of shape `shape` under `name`. A name
    /// that the parameter already has is refused.
    pub fn add_stats_to_parameter(&mut self, param: usize, name: &str, shape: &Shape) -> (raw: u32)
        ensures
            raw == old(self)@.add_stats_to_parameter_status(param, name@, shape@),
            final(self)@ == old(self)@.add_stats_to_parameter(param, name@, shape@),
    {
        let raw: u32 = self.check_valid(param);
        if raw != OK {
            return raw;
        }
        let known: bool = match self.storage(param) {
            Some(storage) => find_stat(&storage.stats, name) < storage.stats.len(),
            None => false,
        };
        if known {
            return RUNTIME_ERROR;
        }
        match shape.size() {
            None => OUT_OF_MEMORY,
            Some(len) => {
                let stat = Stat {
                    name: String::from_str(name),
                    tensor: Tensor::zeroed(shape.duplicate(), len),
                };
                let slot = &mut self.slots[param - 1];
                match &mut slot.object {
                    Object::Parameter(Some(storage)) => {
                        let ghost before = stat_views(storage.stats@);
                        storage.stats.push(stat);
                        assert(stat_views(storage.stats@) =~= before.push(stat@));
                    },
                    _ => {},
                }
                assert(self@.slots =~= old(self)@.add_stats_to_parameter(
                    param,
                    name@,
                    shape@,
                ).slots);
                OK
            },
        }
    }

    /// Whether `param` keeps a statistics tensor under `name`, as 1 or 0.
    pub fn has_parameter_stats(&self, param: usize, name: &str) -> (reply: (u32, u32))
        ensures
            reply.0 == self@.parameter_status(param),
            reply.1 == 1 <==> self@.has_stats(param, name@),
            reply.1 == 0 || reply.1 == 1,
    {
        if !self.locate(param, Kind::Parameter) {
            return (NOT_SUPPORTED, 0);
        }
        match self.storage(param) {
            Some(storage) => {
                if find_stat(&storage.stats, name) < storage.stats.len() {
                    (OK, 1)
                } else {
                    (OK, 0)
                }
            },
            None => (OK, 0),
        }
    }

    /// The shape of `param`, as a value of its own.
    pub fn get_parameter_shape(&self, param: usize) -> (reply: (u32, Option<Shape>))
        ensures
            reply.0 == self@.valid_status(param),
            reply.0 == OK ==> reply.1 is Some && reply.1->0@ == self@.storage(param)->0.value.shape,
            reply.0 != OK ==> reply.1 is None,
    {
        let raw: u32 = self.check_valid(param);
        if raw != OK {
            return (raw, None);
        }
        match self.storage(param) {
            Some(storage) => (OK, Some(storage.value.shape().duplicate())),
            None => (RUNTIME_ERROR, None),
        }
    }

    /// The address of the device that backs `param`.
    pub fn get_device_from_parameter(&self, param: usize) -> (reply: (u32, usize))
        ensures
            reply.0 == self@.valid_status(param),
            reply.0 == OK ==> reply.1 == self@.storage(param)->0.device,
            reply.0 != OK ==> reply.1 == 0,
    {
        let raw: u32 = self.check_valid(param);
        if raw != OK {
            return (raw, 0);
        }
        match self.storage(param) {
            Some(storage) => (OK, storage.device),
            None => (RUNTIME_ERROR, 0),
        }
    }

    /// The value tensor of `param`, as a view into the table.
    pub fn get_parameter_value(&self, param: usize) -> (reply: (u32, Option<&Tensor>))
        ensures
            reply.0 == self@.valid_status(param),
            reply.0 == OK ==> reply.1 is Some && reply.1->0@ == self@.storage(param)->0.value,
            reply.0 != OK ==> reply.1 is None,
    {
        let raw: u32 = self.check_valid(param);
        if raw != OK {
            return (raw, None);
        }
        match self.storage(param) {
            Some(storage) => (OK, Some(&storage.value)),
            None => (RUNTIME_ERROR, None),
        }
    }

    /// The gradient tensor of `param`, as a view into the table.
    pub fn get_parameter_gradient(&self, param: usize) -> (reply: (u32, Option<&Tensor>))
        ensures
            reply.0 == self@.valid_status(param),
            reply.0 == OK ==> reply.1 is Some && reply.1->0@ == self@.storage(param)->0.gradient,
            reply.0 != OK ==> reply.1 is None,
    {
        let raw: u32 = self.check_valid(param);
        if raw != OK {
            return (raw, None);
        }
        match self.storage(param) {
            Some(storage) => (OK, Some(&storage.gradient)),
            None => (RUNTIME_ERROR, None),
        }
    }

    /// The statistics tensor that `param` keeps under `name`, as a view
    /// into the table.
    pub fn get_parameter_stats(&self, param: usize, name: &str) -> (reply: (u32, Option<&Tensor>))
        ensures
            reply.0 == self@.get_parameter_stats_status(param, name@),
            reply.0 == OK ==> reply.1 is Some && reply.1->0@ == self@.storage(param)->0.stat(
                name@,
            ),
            reply.0 != OK ==> reply.1 is None,
    {
        let raw: u32 = self.check_valid(param);
        if raw != OK {
            return (raw, None);
        }
        match self.storage(param) {
            Some(storage) => {
                let i: usize = find_stat(&storage.stats, name);
                if i < storage.stats.len() {
                    (OK, Some(&storage.stats[i].tensor))
                } else {
                    (RUNTIME_ERROR, None)
                }
            },
            None => (RUNTIME_ERROR, None),
        }
    }

    /// The update rule of `optimizer`.
    pub fn get_optimizer_rule(&self, optimizer: usize) -> (reply: (u32, Option<Rule>))
        ensures
            reply.0 == self@.delete_status(optimizer, Kind::Optimizer),
            reply.0 == OK ==> self@.object(optimizer) == ObjectView::Optimizer(reply.1->0)
                && reply.1 is Some,
            reply.0 != OK ==> reply.1 is None,
    {
        if !self.locate(optimizer, Kind::Optimizer) {
            return (NOT_SUPPORTED, None);
        }
        match &self.slots[optimizer - 1].object {
            Object::Optimizer(rule) => (OK, Some(*rule)),
            _ => (NOT_SUPPORTED, None),
        }
    }

    fn find_file(&self, path: &str) -> (i: usize)
        ensures
            i == first_index(file_paths(self@.files), path@),
            i <= self.files.len(),
    {
        let key: String = String::from_str(path);
        let mut i: usize = 0;
        while i < self.files.len()
            invariant
                i <= self.files.len(),
                key@ == path@,
                forall|j: int| 0 <= j < i ==> file_paths(self@.files)[j] != path@,
            decreases self.files.len() - i,
        {
            if self.files[i].path == key {
                proof {
                    lemma_first_index(file_paths(self@.files), path@, i as int);
                }
                return i;
            }
            i += 1;
        }
        proof {
            lemma_first_index(file_paths(self@.files), path@, i as int);
        }
        i
    }

    /// Saves the value of `param` under `path`, and its statistics too
    /// unless `with_stats` is 0. What was saved under `path` before is
    /// replaced.
    pub fn save_parameter(&mut self, param: usize, path: &str, with_stats: u32) -> (raw: u32)
        ensures
            raw == old(self)@.valid_status(param),
            final(self)@ == old(self)@.save_parameter(param, path@, with_stats),
    {
        let raw: u32 = self.check_valid(param);
        if raw != OK {
            return raw;
        }
        let file: File = match self.storage(param) {
            Some(storage) => File {
                path: String::from_str(path),
                value: storage.value.duplicate(),
                stats: if with_stats != 0 {
                    copy_stats(&storage.stats)
                } else {
                    empty_stats()
                },
            },
            None => File {
                path: String::from_str(path),
                value: Tensor::new(Shape::new(Vec::new()), Vec::new()),
                stats: empty_stats(),
            },
        };
        let i: usize = self.find_file(path);
        if i < self.files.len() {
            let place = &mut self.files[i];
            *place = file;
        } else {
            self.files.push(file);
        }
        assert(self@.files =~= old(self)@.save_parameter(param, path@, with_stats).files);
        assert(self@.slots =~= old(self)@.slots);
        OK
    }

    /// Gives `param` the value saved under `path`, a zero gradient, and the
    /// saved statistics unless `with_stats` is 0. What it held before is gone.
    pub fn load_parameter(
        &mut self,
        param: usize,
        path: &str,
        with_stats: u32,
        device: usize,
    ) -> (raw: u32)
        ensures
            raw == old(self)@.load_parameter_status(param, path@, device),
            final(self)@ == old(self)@.load_parameter(param, path@, with_stats, device),
    {
        if !self.locate(param, Kind::Parameter) {
            return NOT_SUPPORTED;
        }
        let i: usize = self.find_file(path);
        if i >= self.files.len() {
            return RUNTIME_ERROR;
        }
        let raw: u32 = self.check_device(device);
        if raw != OK {
            return raw;
        }
        let file = &self.files[i];
        let len: usize = file.value.values().len();
        let storage = Storage {
            value: file.value.duplicate(),
            gradient: Tensor::zeroed(file.value.shape().duplicate(), len),
            stats: if with_stats != 0 {
                copy_stats(&file.stats)
            } else {
                empty_stats()
            },
            device: self.resolve(device),
        };
        self.install(param, storage);
        OK
    }
}

fn empty_stats() -> (stats: Vec<Stat>)
    ensures
        stat_views(stats@) == Seq::<StatView>::empty(),
{
    let stats: Vec<Stat> = Vec::new();
    assert(stat_views(stats@) =~= Seq::<StatView>::empty());
    stats
}

fn fresh(shape: &Shape, values: Vec<u32>, device: usize) -> (storage: Storage)
    ensures
        storage@ == StorageView::fresh(shape@, values@, device),
{
    let len: usize = values.len();
    let storage = Storage {
        value: Tensor::new(shape.duplicate(), values),
        gradient: Tensor::zeroed(shape.duplicate(), len),
        stats: Vec::new(),
        device,
    };
    assert(stat_views(storage.stats@) =~= Seq::empty());
    storage
}

} // verus!
