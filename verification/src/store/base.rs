use vstd::prelude::*;

verus! {

/// Something that a store can hold.
pub trait Object {

}

/// A store of objects. The library hands its tables to an implementation of
/// this trait and asks nothing of it.
pub trait DBStore {
    fn insert<T: Object>(&self, obj: &T) -> bool;

    fn update<T: Object>(&self, obj: &T) -> bool;
}

/// Status of a class that has been loaded and not unloaded since.
pub const STATUS_LOADED: u8 = 1;

/// Status of a class that has been unloaded.
pub const STATUS_UNLOADED: u8 = 0;

/// A class that the snapshot saw loaded, under the name that its name id
/// stood for at that moment.
#[derive(Debug, PartialEq, Eq)]
pub struct Class {
    serial: u32,
    id: u64,
    stack_trace_ser: u32,
    name_id: u64,
    name: String,
    status: u8,
}

/// Model of a [`Class`].
pub struct ClassView {
    /// class serial number
    pub serial: u32,
    /// class object id
    pub id: u64,
    /// stack trace serial number
    pub stack_trace_ser: u32,
    /// class name id
    pub name_id: u64,
    /// display name
    pub name: Seq<char>,
    /// `STATUS_LOADED` or `STATUS_UNLOADED`
    pub status: u8,
}

impl ClassView {
    /// The same class, unloaded.
    pub open spec fn unloaded(self) -> ClassView {
        ClassView { status: STATUS_UNLOADED, ..self }
    }
}

impl View for Class {
    type V = ClassView;

    closed spec fn view(&self) -> ClassView {
        ClassView {
            serial: self.serial,
            id: self.id,
            stack_trace_ser: self.stack_trace_ser,
            name_id: self.name_id,
            name: self.name@,
            status: self.status,
        }
    }
}

impl Default for Class {
    fn default() -> (class: Class)
        ensures
            class@ == (ClassView {
                serial: 0,
                id: 0,
                stack_trace_ser: 0,
                name_id: 0,
                name: Seq::empty(),
                status: STATUS_UNLOADED,
            }),
    {
        Class {
            serial: 0,
            id: 0,
            stack_trace_ser: 0,
            name_id: 0,
            name: String::new(),
            status: STATUS_UNLOADED,
        }
    }
}

impl Class {
    /// A class that has just been loaded.
    pub fn new(serial: u32, id: u64, stack_trace_ser: u32, name_id: u64, name: String) -> (class:
        Class)
        ensures
            class@ == (ClassView {
                serial,
                id,
                stack_trace_ser,
                name_id,
                name: name@,
                status: STATUS_LOADED,
            }),
    {
        Class { serial, id, stack_trace_ser, name_id, name, status: STATUS_LOADED }
    }

    /// Marks the class as unloaded. Nothing marks it as loaded again.
    pub fn unload(&mut self)
        ensures
            final(self)@ == old(self)@.unloaded(),
    {
        self.status = STATUS_UNLOADED;
    }

    pub fn is_loaded(&self) -> (b: bool)
        ensures
            b == (self@.status == STATUS_LOADED),
    {
        self.status == STATUS_LOADED
    }

    pub fn serial(&self) -> (serial: &u32)
        ensures
            *serial == self@.serial,
    {
        &self.serial
    }

    pub fn id(&self) -> (id: &u64)
        ensures
            *id == self@.id,
    {
        &self.id
    }

    pub fn stack_trace_ser(&self) -> (stack_trace_ser: &u32)
        ensures
            *stack_trace_ser == self@.stack_trace_ser,
    {
        &self.stack_trace_ser
    }

    pub fn name_id(&self) -> (name_id: &u64)
        ensures
            *name_id == self@.name_id,
    {
        &self.name_id
    }

    pub fn name(&self) -> (name: &String)
        ensures
            name@ == self@.name,
    {
        &self.name
    }

    pub fn status(&self) -> (status: &u8)
        ensures
            *status == self@.status,
    {
        &self.status
    }
}

impl Object for Class {

}

} // verus!
