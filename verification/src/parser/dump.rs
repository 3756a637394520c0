use vstd::prelude::*;

use crate::io::channel::{spec_char_of, spec_u16_at, spec_u32_at, spec_u64_at, Byte, Int, Long, Short};
use crate::io::error::ParseError;
use crate::io::wrapper::{id_bytes, ids_bytes, spec_id_at, spec_ids_at};
use crate::parser::reader::{outcome, Reader, Section};

verus! {

pub const HPROF_GC_ROOT_UNKNOWN: u8 = 0xff;

pub const HPROF_GC_ROOT_JNI_GLOBAL: u8 = 0x01;

pub const HPROF_GC_ROOT_JNI_LOCAL: u8 = 0x02;

pub const HPROF_GC_ROOT_JAVA_FRAME: u8 = 0x03;

pub const HPROF_GC_ROOT_NATIVE_STACK: u8 = 0x04;

pub const HPROF_GC_ROOT_STICKY_CLASS: u8 = 0x05;

pub const HPROF_GC_ROOT_THREAD_BLOCK: u8 = 0x06;

pub const HPROF_GC_ROOT_MONITOR_USED: u8 = 0x07;

pub const HPROF_GC_ROOT_THREAD_OBJ: u8 = 0x08;

pub const HPROF_GC_CLASS_DUMP: u8 = 0x20;

pub const HPROF_GC_INSTANCE_DUMP: u8 = 0x21;

pub const HPROF_GC_OBJ_ARRAY_DUMP: u8 = 0x22;

pub const HPROF_GC_PRIM_ARRAY_DUMP: u8 = 0x23;

pub const OBJECT_TYPE: u8 = 2;

pub const BOOLEAN_TYPE: u8 = 4;

pub const CHAR_TYPE: u8 = 5;

pub const FLOAT_TYPE: u8 = 6;

pub const DOUBLE_TYPE: u8 = 7;

pub const BYTE_TYPE: u8 = 8;

pub const SHORT_TYPE: u8 = 9;

pub const INT_TYPE: u8 = 10;

pub const LONG_TYPE: u8 = 11;

/// One value of a basic type. Floating-point values are kept as the bits
/// that the file holds.
#[derive(Clone, Copy, Debug, PartialEq, Eq)]
pub enum Value {
    Id(Long),
    Bool(bool),
    Char(char),
    Float(u32),
    Double(u64),
    Byte(Byte),
    Short(Short),
    Int(Int),
    Long(Long),
}

impl View for Value {
    type V = Value;

    open spec fn view(&self) -> Value {
        *self
    }
}

/// Number of bytes that a value of the basic type `tag` takes, if the
/// format defines that type.
pub open spec fn value_bytes(tag: u8, id_size: u32) -> Option<int> {
    if tag == OBJECT_TYPE {
        Some(id_bytes(id_size))
    } else if tag == BOOLEAN_TYPE || tag == CHAR_TYPE || tag == BYTE_TYPE {
        Some(1)
    } else if tag == SHORT_TYPE {
        Some(2)
    } else if tag == FLOAT_TYPE || tag == INT_TYPE {
        Some(4)
    } else if tag == DOUBLE_TYPE || tag == LONG_TYPE {
        Some(8)
    } else {
        None
    }
}

/// The value of the basic type `tag` that the bytes at `pos` spell.
pub open spec fn spec_value_at(data: Seq<u8>, pos: int, id_size: u32, tag: u8) -> Value {
    if tag == OBJECT_TYPE {
        Value::Id(spec_id_at(data, pos, id_size))
    } else if tag == BOOLEAN_TYPE {
        Value::Bool(data[pos] != 0)
    } else if tag == CHAR_TYPE {
        Value::Char(spec_char_of(data[pos]))
    } else if tag == FLOAT_TYPE {
        Value::Float(spec_u32_at(data, pos))
    } else if tag == DOUBLE_TYPE {
        Value::Double(spec_u64_at(data, pos))
    } else if tag == BYTE_TYPE {
        Value::Byte(data[pos])
    } else if tag == SHORT_TYPE {
        Value::Short(spec_u16_at(data, pos))
    } else if tag == INT_TYPE {
        Value::Int(spec_u32_at(data, pos))
    } else {
        Value::Long(spec_u64_at(data, pos))
    }
}

/// What decoding one value of the basic type `tag` at `pos` gives: the value
/// and the offset behind it, or the reason why there is none. `position` of
/// the error is `pos`.
pub open spec fn spec_value(data: Seq<u8>, pos: int, limit: int, id_size: u32, tag: u8) -> Result<
    (Value, int),
    ParseError,
> {
    match value_bytes(tag, id_size) {
        None => Err(ParseError::InvalidFieldType { tag, position: pos as u64 }),
        Some(n) => if pos + n <= limit {
            Ok((spec_value_at(data, pos, id_size, tag), pos + n))
        } else {
            Err(ParseError::UnexpectedEndOfFile)
        },
    }
}

/// Decodes one value of the basic type `t` at the cursor.
pub fn get_value(reader: &mut Reader, t: Byte) -> (r: Result<Value, ParseError>)
    requires
        old(reader).wf(),
        old(reader).id_size() is Some,
    ensures
        final(reader).follows(old(reader)),
        outcome(r, final(reader).cursor()) == spec_value(
            old(reader).bytes(),
            old(reader).cursor(),
            old(reader).limit(),
            old(reader).id_size().unwrap(),
            t,
        ),
{
    if t == OBJECT_TYPE {
        let id: u64 = reader.get_id()?;
        Ok(Value::Id(id))
    } else if t == BOOLEAN_TYPE {
        let byte: u8 = reader.read_byte()?;
        Ok(Value::Bool(byte != 0))
    } else if t == CHAR_TYPE {
        let c: char = reader.read_char()?;
        Ok(Value::Char(c))
    } else if t == FLOAT_TYPE {
        let bits: u32 = reader.read_int()?;
        Ok(Value::Float(bits))
    } else if t == DOUBLE_TYPE {
        let bits: u64 = reader.read_long()?;
        Ok(Value::Double(bits))
    } else if t == BYTE_TYPE {
        let byte: u8 = reader.read_byte()?;
        Ok(Value::Byte(byte))
    } else if t == SHORT_TYPE {
        let v: u16 = reader.read_short()?;
        Ok(Value::Short(v))
    } else if t == INT_TYPE {
        let v: u32 = reader.read_int()?;
        Ok(Value::Int(v))
    } else if t == LONG_TYPE {
        let v: u64 = reader.read_long()?;
        Ok(Value::Long(v))
    } else {
        Err(ParseError::InvalidFieldType { tag: t, position: reader.position() })
    }
}

/// An entry point that keeps an object reachable.
#[derive(Clone, Copy, Debug, PartialEq, Eq)]
pub enum GcRoot {
    /// unknown root
    Unknown { id: Long },
    /// JNI global reference; `referrer` is the id of the reference
    JniGlobal { id: Long, referrer: Long },
    /// JNI local reference; `frame` is the frame number in the stack trace
    JniLocal { id: Long, thread: Int, frame: Int },
    /// Java stack frame; `frame` is the frame number in the stack trace
    JavaFrame { id: Long, thread: Int, frame: Int },
    /// native stack
    NativeStack { id: Long, thread: Int },
    /// system class
    StickyClass { id: Long },
    /// reference from a thread block
    ThreadBlock { id: Long, thread: Int },
    /// busy monitor
    MonitorUsed { id: Long },
    /// thread object; `id` may be 0 for a thread newly attached through JNI
    ThreadObj { id: Long, thread: Int, stack_trace: Int },
}

/// Whether `tag` is the tag of one of the nine kinds of root.
pub open spec fn spec_is_root(tag: u8) -> bool {
    tag == HPROF_GC_ROOT_UNKNOWN || (HPROF_GC_ROOT_JNI_GLOBAL <= tag <= HPROF_GC_ROOT_THREAD_OBJ)
}

/// Number of bytes that follow the tag of a root sub-record.
pub open spec fn root_bytes(tag: u8, id_size: u32) -> int {
    let w = id_bytes(id_size);
    if tag == HPROF_GC_ROOT_UNKNOWN || tag == HPROF_GC_ROOT_STICKY_CLASS || tag
        == HPROF_GC_ROOT_MONITOR_USED {
        w
    } else if tag == HPROF_GC_ROOT_JNI_GLOBAL {
        2 * w
    } else if tag == HPROF_GC_ROOT_NATIVE_STACK || tag == HPROF_GC_ROOT_THREAD_BLOCK {
        w + 4
    } else {
        w + 8
    }
}

/// The root that the bytes at `pos`, behind the tag `tag`, spell.
pub open spec fn spec_root_at(data: Seq<u8>, pos: int, id_size: u32, tag: u8) -> GcRoot {
    let w = id_bytes(id_size);
    let id = spec_id_at(data, pos, id_size);
    if tag == HPROF_GC_ROOT_UNKNOWN {
        GcRoot::Unknown { id }
    } else if tag == HPROF_GC_ROOT_JNI_GLOBAL {
        GcRoot::JniGlobal { id, referrer: spec_id_at(data, pos + w, id_size) }
    } else if tag == HPROF_GC_ROOT_JNI_LOCAL {
        GcRoot::JniLocal {
            id,
            thread: spec_u32_at(data, pos + w),
            frame: spec_u32_at(data, pos + w + 4),
        }
    } else if tag == HPROF_GC_ROOT_JAVA_FRAME {
        GcRoot::JavaFrame {
            id,
            thread: spec_u32_at(data, pos + w),
            frame: spec_u32_at(data, pos + w + 4),
        }
    } else if tag == HPROF_GC_ROOT_NATIVE_STACK {
        GcRoot::NativeStack { id, thread: spec_u32_at(data, pos + w) }
    } else if tag == HPROF_GC_ROOT_STICKY_CLASS {
        GcRoot::StickyClass { id }
    } else if tag == HPROF_GC_ROOT_THREAD_BLOCK {
        GcRoot::ThreadBlock { id, thread: spec_u32_at(data, pos + w) }
    } else if tag == HPROF_GC_ROOT_MONITOR_USED {
        GcRoot::MonitorUsed { id }
    } else {
        GcRoot::ThreadObj {
            id,
            thread: spec_u32_at(data, pos + w),
            stack_trace: spec_u32_at(data, pos + w + 4),
        }
    }
}

/// What decoding a root behind the tag `tag` gives.
pub open spec fn spec_root(data: Seq<u8>, pos: int, limit: int, id_size: u32, tag: u8) -> Result<
    (GcRoot, int),
    ParseError,
> {
    if pos + root_bytes(tag, id_size) <= limit {
        Ok((spec_root_at(data, pos, id_size, tag), pos + root_bytes(tag, id_size)))
    } else {
        Err(ParseError::UnexpectedEndOfFile)
    }
}

impl View for GcRoot {
    type V = GcRoot;

    open spec fn view(&self) -> GcRoot {
        *self
    }
}

/// Whether `tag` is the tag of one of the nine kinds of root.
pub fn is_root_tag(tag: u8) -> (b: bool)
    ensures
        b == spec_is_root(tag),
{
    tag == HPROF_GC_ROOT_UNKNOWN || (HPROF_GC_ROOT_JNI_GLOBAL <= tag && tag
        <= HPROF_GC_ROOT_THREAD_OBJ)
}

/// Decodes the root sub-record whose tag `tag` has just been read.
pub fn read_root(reader: &mut Reader, tag: u8) -> (r: Result<GcRoot, ParseError>)
    requires
        old(reader).wf(),
        old(reader).id_size() is Some,
        spec_is_root(tag),
    ensures
        final(reader).follows(old(reader)),
        outcome(r, final(reader).cursor()) == spec_root(
            old(reader).bytes(),
            old(reader).cursor(),
            old(reader).limit(),
            old(reader).id_size().unwrap(),
            tag,
        ),
{
    let id: u64 = reader.get_id()?;
    if tag == HPROF_GC_ROOT_UNKNOWN {
        Ok(GcRoot::Unknown { id })
    } else if tag == HPROF_GC_ROOT_JNI_GLOBAL {
        let referrer: u64 = reader.get_id()?;
        Ok(GcRoot::JniGlobal { id, referrer })
    } else if tag == HPROF_GC_ROOT_JNI_LOCAL {
        let thread: u32 = reader.read_int()?;
        let frame: u32 = reader.read_int()?;
        Ok(GcRoot::JniLocal { id, thread, frame })
    } else if tag == HPROF_GC_ROOT_JAVA_FRAME {
        let thread: u32 = reader.read_int()?;
        let frame: u32 = reader.read_int()?;
        Ok(GcRoot::JavaFrame { id, thread, frame })
    } else if tag == HPROF_GC_ROOT_NATIVE_STACK {
        let thread: u32 = reader.read_int()?;
        Ok(GcRoot::NativeStack { id, thread })
    } else if tag == HPROF_GC_ROOT_STICKY_CLASS {
        Ok(GcRoot::StickyClass { id })
    } else if tag == HPROF_GC_ROOT_THREAD_BLOCK {
        let thread: u32 = reader.read_int()?;
        Ok(GcRoot::ThreadBlock { id, thread })
    } else if tag == HPROF_GC_ROOT_MONITOR_USED {
        Ok(GcRoot::MonitorUsed { id })
    } else {
        let thread: u32 = reader.read_int()?;
        let stack_trace: u32 = reader.read_int()?;
        Ok(GcRoot::ThreadObj { id, thread, stack_trace })
    }
}

/// An entry of the constant pool of a class.
#[derive(Clone, Copy, Debug, PartialEq, Eq)]
pub struct Constant {
    /// constant pool index
    pub index: Short,
    pub value: Value,
}

/// A static field of a class, with its value.
#[derive(Clone, Copy, Debug, PartialEq, Eq)]
pub struct StaticField {
    /// field name id
    pub name_id: Long,
    pub value: Value,
}

/// The declaration of an instance field of a class: its name and the tag of
/// its basic type.
#[derive(Clone, Copy, Debug, PartialEq, Eq)]
pub struct FieldDecl {
    /// field name id
    pub name_id: Long,
    /// basic type of the field
    pub ty: Byte,
}

/// What decoding `n` constant pool entries at `pos` adds to `acc`, and the
/// offset behind them. An entry is an index, the tag of a basic type, and a
/// value of that type.
pub open spec fn spec_constants(
    data: Seq<u8>,
    pos: int,
    limit: int,
    id_size: u32,
    n: nat,
    acc: Seq<Constant>,
) -> Result<(Seq<Constant>, int), ParseError>
    decreases n,
{
    if n == 0 {
        Ok((acc, pos))
    } else if pos + 3 > limit {
        Err(ParseError::UnexpectedEndOfFile)
    } else {
        match spec_value(data, pos + 3, limit, id_size, data[pos + 2]) {
            Err(e) => Err(e),
            Ok((value, next)) => spec_constants(
                data,
                next,
                limit,
                id_size,
                (n - 1) as nat,
                acc.push(Constant { index: spec_u16_at(data, pos), value }),
            ),
        }
    }
}

/// What decoding `n` static fields at `pos` adds to `acc`, and the offset
/// behind them. A static field is a name id, the tag of a basic type, and a
/// value of that type.
pub open spec fn spec_statics(
    data: Seq<u8>,
    pos: int,
    limit: int,
    id_size: u32,
    n: nat,
    acc: Seq<StaticField>,
) -> Result<(Seq<StaticField>, int), ParseError>
    decreases n,
{
    let w = id_bytes(id_size);
    if n == 0 {
        Ok((acc, pos))
    } else if pos + w + 1 > limit {
        Err(ParseError::UnexpectedEndOfFile)
    } else {
        match spec_value(data, pos + w + 1, limit, id_size, data[pos + w]) {
            Err(e) => Err(e),
            Ok((value, next)) => spec_statics(
                data,
                next,
                limit,
                id_size,
                (n - 1) as nat,
                acc.push(StaticField { name_id: spec_id_at(data, pos, id_size), value }),
            ),
        }
    }
}

/// What decoding `n` instance field declarations at `pos` adds to `acc`,
/// and the offset behind them. A declaration is a name id and the tag of a
/// basic type; no value follows.
pub open spec fn spec_fields(
    data: Seq<u8>,
    pos: int,
    limit: int,
    id_size: u32,
    n: nat,
    acc: Seq<FieldDecl>,
) -> Result<(Seq<FieldDecl>, int), ParseError>
    decreases n,
{
    let w = id_bytes(id_size);
    if n == 0 {
        Ok((acc, pos))
    } else if pos + w + 1 > limit {
        Err(ParseError::UnexpectedEndOfFile)
    } else {
        spec_fields(
            data,
            pos + w + 1,
            limit,
            id_size,
            (n - 1) as nat,
            acc.push(FieldDecl { name_id: spec_id_at(data, pos, id_size), ty: data[pos + w] }),
        )
    }
}

/// Decodes `count` constant pool entries at the cursor.
pub fn read_constants(reader: &mut Reader, count: Short) -> (r: Result<Vec<Constant>, ParseError>)
    requires
        old(reader).wf(),
        old(reader).id_size() is Some,
    ensures
        final(reader).follows(old(reader)),
        outcome(r, final(reader).cursor()) == spec_constants(
            old(reader).bytes(),
            old(reader).cursor(),
            old(reader).limit(),
            old(reader).id_size().unwrap(),
            count as nat,
            Seq::empty(),
        ),
{
    let ghost data = reader.bytes();
    let ghost limit = reader.limit();
    let ghost id_size = reader.id_size().unwrap();
    let ghost whole = spec_constants(data, reader.cursor(), limit, id_size, count as nat, Seq::empty());
    let mut entries: Vec<Constant> = Vec::new();
    let mut i: u16 = 0;
    while i < count
        invariant
            reader.follows(old(reader)),
            data == reader.bytes(),
            limit == reader.limit(),
            reader.id_size() == Some(id_size),
            i <= count,
            old(reader).id_size() == Some(id_size),
            whole == spec_constants(
                data,
                old(reader).cursor(),
                limit,
                id_size,
                count as nat,
                Seq::empty(),
            ),
            whole == spec_constants(
                data,
                reader.cursor(),
                limit,
                id_size,
                (count - i) as nat,
                entries@,
            ),
        decreases count - i,
    {
        let index: u16 = reader.read_short()?;
        let ty: u8 = reader.read_byte()?;
        let value = get_value(reader, ty)?;
        entries.push(Constant { index, value });
        i = i + 1;
    }
    Ok(entries)
}

/// Decodes `count` static fields at the cursor.
pub fn read_statics(reader: &mut Reader, count: Short) -> (r: Result<Vec<StaticField>, ParseError>)
    requires
        old(reader).wf(),
        old(reader).id_size() is Some,
    ensures
        final(reader).follows(old(reader)),
        outcome(r, final(reader).cursor()) == spec_statics(
            old(reader).bytes(),
            old(reader).cursor(),
            old(reader).limit(),
            old(reader).id_size().unwrap(),
            count as nat,
            Seq::empty(),
        ),
{
    let ghost data = reader.bytes();
    let ghost limit = reader.limit();
    let ghost id_size = reader.id_size().unwrap();
    let ghost whole = spec_statics(data, reader.cursor(), limit, id_size, count as nat, Seq::empty());
    let mut entries: Vec<StaticField> = Vec::new();
    let mut i: u16 = 0;
    while i < count
        invariant
            reader.follows(old(reader)),
            data == reader.bytes(),
            limit == reader.limit(),
            reader.id_size() == Some(id_size),
            i <= count,
            old(reader).id_size() == Some(id_size),
            whole == spec_statics(
                data,
                old(reader).cursor(),
                limit,
                id_size,
                count as nat,
                Seq::empty(),
            ),
            whole == spec_statics(
                data,
                reader.cursor(),
                limit,
                id_size,
                (count - i) as nat,
                entries@,
            ),
        decreases count - i,
    {
        let name_id: u64 = reader.get_id()?;
        let ty: u8 = reader.read_byte()?;
        let value = get_value(reader, ty)?;
        entries.push(StaticField { name_id, value });
        i = i + 1;
    }
    Ok(entries)
}

/// Decodes `count` instance field declarations at the cursor.
pub fn read_fields(reader: &mut Reader, count: Short) -> (r: Result<Vec<FieldDecl>, ParseError>)
    requires
        old(reader).wf(),
        old(reader).id_size() is Some,
    ensures
        final(reader).follows(old(reader)),
        outcome(r, final(reader).cursor()) == spec_fields(
            old(reader).bytes(),
            old(reader).cursor(),
            old(reader).limit(),
            old(reader).id_size().unwrap(),
            count as nat,
            Seq::empty(),
        ),
{
    let ghost data = reader.bytes();
    let ghost limit = reader.limit();
    let ghost id_size = reader.id_size().unwrap();
    let ghost whole = spec_fields(data, reader.cursor(), limit, id_size, count as nat, Seq::empty());
    let mut entries: Vec<FieldDecl> = Vec::new();
    let mut i: u16 = 0;
    while i < count
        invariant
            reader.follows(old(reader)),
            data == reader.bytes(),
            limit == reader.limit(),
            reader.id_size() == Some(id_size),
            i <= count,
            old(reader).id_size() == Some(id_size),
            whole == spec_fields(
                data,
                old(reader).cursor(),
                limit,
                id_size,
                count as nat,
                Seq::empty(),
            ),
            whole == spec_fields(
                data,
                reader.cursor(),
                limit,
                id_size,
                (count - i) as nat,
                entries@,
            ),
        decreases count - i,
    {
        let name_id: u64 = reader.get_id()?;
        let ty: u8 = reader.read_byte()?;
        entries.push(FieldDecl { name_id, ty });
        i = i + 1;
    }
    Ok(entries)
}

/// Dump of a class object.
#[derive(Clone, Debug, PartialEq, Eq)]
pub struct ClassObject {
    /// class object id
    pub id: Long,
    /// stack trace serial number
    pub stack_trace_ser: Int,
    /// class object id of the super class
    pub super_id: Long,
    /// class loader object id
    pub class_loader_id: Long,
    /// signers object id
    pub signers_id: Long,
    /// protection domain object id
    pub protection_domain_id: Long,
    /// instance size in bytes
    pub instance_size: Int,
    /// constant pool
    pub constants: Vec<Constant>,
    /// static fields
    pub statics: Vec<StaticField>,
    /// instance fields, those of super classes not included
    pub fields: Vec<FieldDecl>,
}

/// Model of a [`ClassObject`].
pub struct ClassObjectView {
    pub id: Long,
    pub stack_trace_ser: Int,
    pub super_id: Long,
    pub class_loader_id: Long,
    pub signers_id: Long,
    pub protection_domain_id: Long,
    pub instance_size: Int,
    pub constants: Seq<Constant>,
    pub statics: Seq<StaticField>,
    pub fields: Seq<FieldDecl>,
}

impl View for ClassObject {
    type V = ClassObjectView;

    open spec fn view(&self) -> ClassObjectView {
        ClassObjectView {
            id: self.id,
            stack_trace_ser: self.stack_trace_ser,
            super_id: self.super_id,
            class_loader_id: self.class_loader_id,
            signers_id: self.signers_id,
            protection_domain_id: self.protection_domain_id,
            instance_size: self.instance_size,
            constants: self.constants@,
            statics: self.statics@,
            fields: self.fields@,
        }
    }
}

/// What decoding a class dump at `pos`, behind its tag, gives. The fixed
/// part holds the class id, the stack trace serial number, the ids of super
/// class, loader, signers and protection domain, two reserved ids and the
/// instance size. Three counted lists follow: constant pool, static fields,
/// instance field declarations.
pub open spec fn spec_class_dump(data: Seq<u8>, pos: int, limit: int, id_size: u32) -> Result<
    (ClassObjectView, int),
    ParseError,
> {
    let w = id_bytes(id_size);
    let fixed = 7 * w + 8;
    if pos + fixed + 2 > limit {
        Err(ParseError::UnexpectedEndOfFile)
    } else {
        match spec_constants(
            data,
            pos + fixed + 2,
            limit,
            id_size,
            spec_u16_at(data, pos + fixed) as nat,
            Seq::empty(),
        ) {
            Err(e) => Err(e),
            Ok((constants, after_constants)) => if after_constants + 2 > limit {
                Err(ParseError::UnexpectedEndOfFile)
            } else {
                match spec_statics(
                    data,
                    after_constants + 2,
                    limit,
                    id_size,
                    spec_u16_at(data, after_constants) as nat,
                    Seq::empty(),
                ) {
                    Err(e) => Err(e),
                    Ok((statics, after_statics)) => if after_statics + 2 > limit {
                        Err(ParseError::UnexpectedEndOfFile)
                    } else {
                        match spec_fields(
                            data,
                            after_statics + 2,
                            limit,
                            id_size,
                            spec_u16_at(data, after_statics) as nat,
                            Seq::empty(),
                        ) {
                            Err(e) => Err(e),
                            Ok((fields, after_fields)) => Ok(
                                (
                                    ClassObjectView {
                                        id: spec_id_at(data, pos, id_size),
                                        stack_trace_ser: spec_u32_at(data, pos + w),
                                        super_id: spec_id_at(data, pos + w + 4, id_size),
                                        class_loader_id: spec_id_at(data, pos + 2 * w + 4, id_size),
                                        signers_id: spec_id_at(data, pos + 3 * w + 4, id_size),
                                        protection_domain_id: spec_id_at(
                                            data,
                                            pos + 4 * w + 4,
                                            id_size,
                                        ),
                                        instance_size: spec_u32_at(data, pos + 7 * w + 4),
                                        constants,
                                        statics,
                                        fields,
                                    },
                                    after_fields,
                                ),
                            ),
                        }
                    },
                }
            },
        }
    }
}

impl Section for ClassObject {
    open spec fn parsed(data: Seq<u8>, pos: int, limit: int, id_size: u32, len: Int) -> Result<
        (ClassObjectView, int),
        ParseError,
    > {
        spec_class_dump(data, pos, limit, id_size)
    }

    fn read(reader: &mut Reader, _len: Int) -> (r: Result<Self, ParseError>) {
        let id: u64 = reader.get_id()?;
        let stack_trace_ser: u32 = reader.read_int()?;
        let super_id: u64 = reader.get_id()?;
        let class_loader_id: u64 = reader.get_id()?;
        let signers_id: u64 = reader.get_id()?;
        let protection_domain_id: u64 = reader.get_id()?;
        let _reserved1: u64 = reader.get_id()?;
        let _reserved2: u64 = reader.get_id()?;
        let instance_size: u32 = reader.read_int()?;
        let const_pool_size: u16 = reader.read_short()?;
        let constants = read_constants(reader, const_pool_size)?;
        let num_static_fields: u16 = reader.read_short()?;
        let statics = read_statics(reader, num_static_fields)?;
        let num_inst_fields: u16 = reader.read_short()?;
        let fields = read_fields(reader, num_inst_fields)?;
        Ok(
            ClassObject {
                id,
                stack_trace_ser,
                super_id,
                class_loader_id,
                signers_id,
                protection_domain_id,
                instance_size,
                constants,
                statics,
                fields,
            },
        )
    }
}

/// Dump of a normal object. The values of its fields are passed over; only
/// their length in bytes is kept.
#[derive(Clone, Copy, Debug, PartialEq, Eq)]
pub struct NormalObject {
    /// object id
    pub id: Long,
    /// stack trace serial number
    pub stack_trace_ser: Int,
    /// class object id
    pub class_id: Long,
    /// number of bytes of field values
    pub payload_len: Int,
}

impl View for NormalObject {
    type V = NormalObject;

    open spec fn view(&self) -> NormalObject {
        *self
    }
}

/// What decoding an instance dump at `pos`, behind its tag, gives.
pub open spec fn spec_instance_dump(data: Seq<u8>, pos: int, limit: int, id_size: u32) -> Result<
    (NormalObject, int),
    ParseError,
> {
    let w = id_bytes(id_size);
    let fixed = 2 * w + 8;
    let payload_len = spec_u32_at(data, pos + 2 * w + 4);
    if pos + fixed <= limit && pos + fixed + payload_len <= limit {
        Ok(
            (
                NormalObject {
                    id: spec_id_at(data, pos, id_size),
                    stack_trace_ser: spec_u32_at(data, pos + w),
                    class_id: spec_id_at(data, pos + w + 4, id_size),
                    payload_len,
                },
                pos + fixed + payload_len,
            ),
        )
    } else {
        Err(ParseError::UnexpectedEndOfFile)
    }
}

impl Section for NormalObject {
    open spec fn parsed(data: Seq<u8>, pos: int, limit: int, id_size: u32, len: Int) -> Result<
        (NormalObject, int),
        ParseError,
    > {
        spec_instance_dump(data, pos, limit, id_size)
    }

    fn read(reader: &mut Reader, _len: Int) -> (r: Result<Self, ParseError>) {
        let id: u64 = reader.get_id()?;
        let stack_trace_ser: u32 = reader.read_int()?;
        let class_id: u64 = reader.get_id()?;
        // number of bytes that follow
        let payload_len: u32 = reader.read_int()?;
        // instance field values (class, followed by super, super's super ...)
        reader.skip(payload_len)?;
        Ok(NormalObject { id, stack_trace_ser, class_id, payload_len })
    }
}

/// Dump of an object array.
#[derive(Clone, Debug, PartialEq, Eq)]
pub struct ObjectArray {
    /// array object id
    pub id: Long,
    /// stack trace serial number
    pub stack_trace_ser: Int,
    /// array class object id
    pub class_id: Long,
    /// elements
    pub elements: Vec<Long>,
}

/// Model of an [`ObjectArray`].
pub struct ObjectArrayView {
    pub id: Long,
    pub stack_trace_ser: Int,
    pub class_id: Long,
    pub elements: Seq<Long>,
}

impl View for ObjectArray {
    type V = ObjectArrayView;

    open spec fn view(&self) -> ObjectArrayView {
        ObjectArrayView {
            id: self.id,
            stack_trace_ser: self.stack_trace_ser,
            class_id: self.class_id,
            elements: self.elements@,
        }
    }
}

/// What decoding an object array dump at `pos`, behind its tag, gives.
pub open spec fn spec_object_array(data: Seq<u8>, pos: int, limit: int, id_size: u32) -> Result<
    (ObjectArrayView, int),
    ParseError,
> {
    let w = id_bytes(id_size);
    let fixed = 2 * w + 8;
    let count = spec_u32_at(data, pos + w + 4) as int;
    if pos + fixed <= limit && pos + fixed + ids_bytes(count, id_size) <= limit {
        Ok(
            (
                ObjectArrayView {
                    id: spec_id_at(data, pos, id_size),
                    stack_trace_ser: spec_u32_at(data, pos + w),
                    class_id: spec_id_at(data, pos + w + 8, id_size),
                    elements: spec_ids_at(data, pos + fixed, count, id_size),
                },
                pos + fixed + ids_bytes(count, id_size),
            ),
        )
    } else {
        Err(ParseError::UnexpectedEndOfFile)
    }
}

impl Section for ObjectArray {
    open spec fn parsed(data: Seq<u8>, pos: int, limit: int, id_size: u32, len: Int) -> Result<
        (ObjectArrayView, int),
        ParseError,
    > {
        spec_object_array(data, pos, limit, id_size)
    }

    fn read(reader: &mut Reader, _len: Int) -> (r: Result<Self, ParseError>) {
        let id: u64 = reader.get_id()?;
        let stack_trace_ser: u32 = reader.read_int()?;
        let num: u32 = reader.read_int()?;
        let class_id: u64 = reader.get_id()?;
        let elements = reader.get_ids(num)?;
        Ok(ObjectArray { id, stack_trace_ser, class_id, elements })
    }
}

/// Dump of a primitive array. The elements are passed over.
#[derive(Clone, Copy, Debug, PartialEq, Eq)]
pub struct PrimitiveArray {
    /// array object id
    pub id: Long,
    /// stack trace serial number
    pub stack_trace_ser: Int,
    /// number of elements
    pub len: Int,
    /// basic type of the elements
    pub element_type: Byte,
}

impl View for PrimitiveArray {
    type V = PrimitiveArray;

    open spec fn view(&self) -> PrimitiveArray {
        *self
    }
}

/// What decoding a primitive array dump at `pos`, behind its tag, gives.
/// The elements take the element count times the size of a value of the
/// element type.
pub open spec fn spec_primitive_array(data: Seq<u8>, pos: int, limit: int, id_size: u32) -> Result<
    (PrimitiveArray, int),
    ParseError,
> {
    let w = id_bytes(id_size);
    let fixed = w + 9;
    let len = spec_u32_at(data, pos + w + 4);
    let element_type = data[pos + w + 8];
    if pos + fixed > limit {
        Err(ParseError::UnexpectedEndOfFile)
    } else {
        match value_bytes(element_type, id_size) {
            None => Err(
                ParseError::InvalidFieldType { tag: element_type, position: (pos + fixed) as u64 },
            ),
            Some(each) => if pos + fixed + len * each <= limit {
                Ok(
                    (
                        PrimitiveArray {
                            id: spec_id_at(data, pos, id_size),
                            stack_trace_ser: spec_u32_at(data, pos + w),
                            len,
                            element_type,
                        },
                        pos + fixed + len * each,
                    ),
                )
            } else {
                Err(ParseError::UnexpectedEndOfFile)
            },
        }
    }
}

/// Number of bytes of one value of the basic type `tag`, if the format
/// defines that type.
pub fn value_size(tag: Byte, id_size: u32) -> (n: Option<u64>)
    ensures
        match n {
            Some(each) => value_bytes(tag, id_size) == Some(each as int),
            None => value_bytes(tag, id_size) is None,
        },
{
    if tag == OBJECT_TYPE {
        if id_size == 4 {
            Some(4)
        } else {
            Some(8)
        }
    } else if tag == BOOLEAN_TYPE || tag == CHAR_TYPE || tag == BYTE_TYPE {
        Some(1)
    } else if tag == SHORT_TYPE {
        Some(2)
    } else if tag == FLOAT_TYPE || tag == INT_TYPE {
        Some(4)
    } else if tag == DOUBLE_TYPE || tag == LONG_TYPE {
        Some(8)
    } else {
        None
    }
}

impl Section for PrimitiveArray {
    open spec fn parsed(data: Seq<u8>, pos: int, limit: int, id_size: u32, len: Int) -> Result<
        (PrimitiveArray, int),
        ParseError,
    > {
        spec_primitive_array(data, pos, limit, id_size)
    }

    fn read(reader: &mut Reader, _len: Int) -> (r: Result<Self, ParseError>) {
        let id: u64 = reader.get_id()?;
        let stack_trace_ser: u32 = reader.read_int()?;
        let num: u32 = reader.read_int()?;
        let element_type: u8 = reader.read_byte()?;
        let id_size: u32 = reader.known_id_size();
        match value_size(element_type, id_size) {
            None => Err(
                ParseError::InvalidFieldType { tag: element_type, position: reader.position() },
            ),
            Some(each) => {
                assert(num * each <= 0xffff_ffff * 8) by (nonlinear_arith)
                    requires
                        0 <= num <= 0xffff_ffff,
                        0 <= each <= 8,
                ;
                reader.skip_long(num as u64 * each)?;
                Ok(PrimitiveArray { id, stack_trace_ser, len: num, element_type })
            },
        }
    }
}

/// One sub-record of a heap dump.
#[derive(Clone, Debug, PartialEq, Eq)]
pub enum SubRecord {
    Root(GcRoot),
    Class(ClassObject),
    Instance(NormalObject),
    ObjectArray(ObjectArray),
    PrimitiveArray(PrimitiveArray),
}

/// Model of a [`SubRecord`].
pub enum SubRecordView {
    Root(GcRoot),
    Class(ClassObjectView),
    Instance(NormalObject),
    ObjectArray(ObjectArrayView),
    PrimitiveArray(PrimitiveArray),
}

impl View for SubRecord {
    type V = SubRecordView;

    open spec fn view(&self) -> SubRecordView {
        match self {
            SubRecord::Root(root) => SubRecordView::Root(*root),
            SubRecord::Class(class) => SubRecordView::Class(class@),
            SubRecord::Instance(object) => SubRecordView::Instance(*object),
            SubRecord::ObjectArray(array) => SubRecordView::ObjectArray(array@),
            SubRecord::PrimitiveArray(array) => SubRecordView::PrimitiveArray(*array),
        }
    }
}

/// The models of a sequence of sub-records.
pub open spec fn sub_views(records: Seq<SubRecord>) -> Seq<SubRecordView> {
    records.map_values(|r: SubRecord| r@)
}

/// What decoding the sub-record whose tag stands at `pos` gives: its model
/// and the offset behind it. A tag that is none of the known ones is an
/// error, whose `position` is `pos + 1`: a sub-record carries no length by
/// which it could be passed over.
pub open spec fn spec_sub_record(data: Seq<u8>, pos: int, limit: int, id_size: u32) -> Result<
    (SubRecordView, int),
    ParseError,
> {
    let tag = data[pos];
    let body = pos + 1;
    if spec_is_root(tag) {
        match spec_root(data, body, limit, id_size, tag) {
            Ok((root, end)) => Ok((SubRecordView::Root(root), end)),
            Err(e) => Err(e),
        }
    } else if tag == HPROF_GC_CLASS_DUMP {
        match spec_class_dump(data, body, limit, id_size) {
            Ok((class, end)) => Ok((SubRecordView::Class(class), end)),
            Err(e) => Err(e),
        }
    } else if tag == HPROF_GC_INSTANCE_DUMP {
        match spec_instance_dump(data, body, limit, id_size) {
            Ok((object, end)) => Ok((SubRecordView::Instance(object), end)),
            Err(e) => Err(e),
        }
    } else if tag == HPROF_GC_OBJ_ARRAY_DUMP {
        match spec_object_array(data, body, limit, id_size) {
            Ok((array, end)) => Ok((SubRecordView::ObjectArray(array), end)),
            Err(e) => Err(e),
        }
    } else if tag == HPROF_GC_PRIM_ARRAY_DUMP {
        match spec_primitive_array(data, body, limit, id_size) {
            Ok((array, end)) => Ok((SubRecordView::PrimitiveArray(array), end)),
            Err(e) => Err(e),
        }
    } else {
        Err(ParseError::UnknownSubRecord { tag, position: body as u64 })
    }
}

/// Decodes the sub-record at the cursor.
pub fn read_sub_record(reader: &mut Reader, len: Int) -> (r: Result<SubRecord, ParseError>)
    requires
        old(reader).wf(),
        old(reader).id_size() is Some,
        old(reader).has(1),
    ensures
        final(reader).follows(old(reader)),
        outcome(r, final(reader).cursor()) == spec_sub_record(
            old(reader).bytes(),
            old(reader).cursor(),
            old(reader).limit(),
            old(reader).id_size().unwrap(),
        ),
{
    let tag: u8 = reader.read_byte()?;
    if is_root_tag(tag) {
        let root = read_root(reader, tag)?;
        Ok(SubRecord::Root(root))
    } else if tag == HPROF_GC_CLASS_DUMP {
        let class = reader.read::<ClassObject>(len)?;
        Ok(SubRecord::Class(class))
    } else if tag == HPROF_GC_INSTANCE_DUMP {
        let object = reader.read::<NormalObject>(len)?;
        Ok(SubRecord::Instance(object))
    } else if tag == HPROF_GC_OBJ_ARRAY_DUMP {
        let array = reader.read::<ObjectArray>(len)?;
        Ok(SubRecord::ObjectArray(array))
    } else if tag == HPROF_GC_PRIM_ARRAY_DUMP {
        let array = reader.read::<PrimitiveArray>(len)?;
        Ok(SubRecord::PrimitiveArray(array))
    } else {
        Err(ParseError::UnknownSubRecord { tag, position: reader.position() })
    }
}

/// Constant pool entries are decoded forward and inside the readable region.
pub proof fn constants_move_forward(
    data: Seq<u8>,
    pos: int,
    limit: int,
    id_size: u32,
    n: nat,
    acc: Seq<Constant>,
)
    requires
        pos <= limit,
    ensures
        spec_constants(data, pos, limit, id_size, n, acc) matches Ok((entries, end)) ==> pos <= end
            <= limit && entries.len() == acc.len() + n,
    decreases n,
{
    if n > 0 && pos + 3 <= limit {
        if let Ok((value, next)) = spec_value(data, pos + 3, limit, id_size, data[pos + 2]) {
            constants_move_forward(
                data,
                next,
                limit,
                id_size,
                (n - 1) as nat,
                acc.push(Constant { index: spec_u16_at(data, pos), value }),
            );
        }
    }
}

/// Static fields are decoded forward and inside the readable region.
pub proof fn statics_move_forward(
    data: Seq<u8>,
    pos: int,
    limit: int,
    id_size: u32,
    n: nat,
    acc: Seq<StaticField>,
)
    requires
        pos <= limit,
    ensures
        spec_statics(data, pos, limit, id_size, n, acc) matches Ok((entries, end)) ==> pos <= end
            <= limit && entries.len() == acc.len() + n,
    decreases n,
{
    let w = id_bytes(id_size);
    if n > 0 && pos + w + 1 <= limit {
        if let Ok((value, next)) = spec_value(data, pos + w + 1, limit, id_size, data[pos + w]) {
            statics_move_forward(
                data,
                next,
                limit,
                id_size,
                (n - 1) as nat,
                acc.push(StaticField { name_id: spec_id_at(data, pos, id_size), value }),
            );
        }
    }
}

/// Instance field declarations are decoded forward and inside the readable
/// region.
pub proof fn fields_move_forward(
    data: Seq<u8>,
    pos: int,
    limit: int,
    id_size: u32,
    n: nat,
    acc: Seq<FieldDecl>,
)
    requires
        pos <= limit,
    ensures
        spec_fields(data, pos, limit, id_size, n, acc) matches Ok((entries, end)) ==> pos <= end
            <= limit && entries.len() == acc.len() + n,
    decreases n,
{
    let w = id_bytes(id_size);
    if n > 0 && pos + w + 1 <= limit {
        fields_move_forward(
            data,
            pos + w + 1,
            limit,
            id_size,
            (n - 1) as nat,
            acc.push(FieldDecl { name_id: spec_id_at(data, pos, id_size), ty: data[pos + w] }),
        );
    }
}

/// A class dump is decoded forward and inside the readable region.
pub proof fn class_dump_moves_forward(data: Seq<u8>, pos: int, limit: int, id_size: u32)
    ensures
        spec_class_dump(data, pos, limit, id_size) matches Ok((class, end)) ==> pos < end <= limit,
{
    let w = id_bytes(id_size);
    let fixed = 7 * w + 8;
    if pos + fixed + 2 <= limit {
        let n1 = spec_u16_at(data, pos + fixed) as nat;
        constants_move_forward(data, pos + fixed + 2, limit, id_size, n1, Seq::empty());
        if let Ok((constants, after_constants)) = spec_constants(
            data,
            pos + fixed + 2,
            limit,
            id_size,
            n1,
            Seq::empty(),
        ) {
            if after_constants + 2 <= limit {
                let n2 = spec_u16_at(data, after_constants) as nat;
                statics_move_forward(data, after_constants + 2, limit, id_size, n2, Seq::empty());
                if let Ok((statics, after_statics)) = spec_statics(
                    data,
                    after_constants + 2,
                    limit,
                    id_size,
                    n2,
                    Seq::empty(),
                ) {
                    if after_statics + 2 <= limit {
                        let n3 = spec_u16_at(data, after_statics) as nat;
                        fields_move_forward(data, after_statics + 2, limit, id_size, n3, Seq::empty());
                    }
                }
            }
        }
    }
}

/// A sub-record takes at least its tag and ends inside the readable region.
pub proof fn sub_record_moves_forward(data: Seq<u8>, pos: int, limit: int, id_size: u32)
    requires
        pos < limit,
    ensures
        spec_sub_record(data, pos, limit, id_size) matches Ok((record, end)) ==> pos < end <= limit,
{
    class_dump_moves_forward(data, pos + 1, limit, id_size);
    let w = id_bytes(id_size);
    let len = spec_u32_at(data, pos + 1 + w + 4);
    if let Some(each) = value_bytes(data[pos + 1 + w + 8], id_size) {
        assert(len * each >= 0) by (nonlinear_arith)
            requires
                len >= 0,
                each >= 0,
        ;
    }
}

/// What walking the sub-records from `pos` up to `end` adds to `acc`. The
/// walk ends where a sub-record ends at `end`; one that would reach beyond
/// `end` is cut short and fails.
pub open spec fn spec_walk(
    data: Seq<u8>,
    pos: int,
    end: int,
    id_size: u32,
    acc: Seq<SubRecordView>,
) -> Result<Seq<SubRecordView>, ParseError>
    decreases end - pos,
    via spec_walk_terminates
{
    if pos >= end {
        Ok(acc)
    } else {
        match spec_sub_record(data, pos, end, id_size) {
            Err(e) => Err(e),
            Ok((record, next)) => spec_walk(data, next, end, id_size, acc.push(record)),
        }
    }
}

#[via_fn]
proof fn spec_walk_terminates(
    data: Seq<u8>,
    pos: int,
    end: int,
    id_size: u32,
    acc: Seq<SubRecordView>,
) {
    if pos < end {
        sub_record_moves_forward(data, pos, end, id_size);
    }
}

/// The sub-records of one heap dump record, in file order.
#[derive(Clone, Debug, PartialEq, Eq)]
pub struct Dump {
    pub records: Vec<SubRecord>,
}

impl View for Dump {
    type V = Seq<SubRecordView>;

    open spec fn view(&self) -> Seq<SubRecordView> {
        sub_views(self.records@)
    }
}

/// What decoding a heap dump of `len` bytes at `pos` gives: the models of
/// its sub-records, and the offset `pos + len` behind it.
pub open spec fn spec_heap_dump(data: Seq<u8>, pos: int, limit: int, id_size: u32, len: Int) -> Result<
    (Seq<SubRecordView>, int),
    ParseError,
> {
    if pos + len > limit {
        Err(ParseError::UnexpectedEndOfFile)
    } else {
        match spec_walk(data, pos, pos + len, id_size, Seq::empty()) {
            Ok(records) => Ok((records, pos + len)),
            Err(e) => Err(e),
        }
    }
}

/// Decodes the heap dump of `len` bytes at the cursor: reads one tag and
/// the sub-record behind it, again and again, until `len` bytes have been
/// taken.
pub fn get_heap_dump(reader: &mut Reader, len: Int) -> (r: Result<Dump, ParseError>)
    requires
        old(reader).wf(),
        old(reader).id_size() is Some,
    ensures
        final(reader).same_file(old(reader)),
        outcome(r, final(reader).cursor()) == spec_heap_dump(
            old(reader).bytes(),
            old(reader).cursor(),
            old(reader).limit(),
            old(reader).id_size().unwrap(),
            len,
        ),
        r is Ok ==> final(reader).limit() == old(reader).limit(),
{
    let ghost data = reader.bytes();
    let ghost start = reader.cursor();
    let ghost id_size = reader.id_size().unwrap();
    let outer: usize = reader.enter(len)?;
    let ghost end = reader.limit();
    let mut records: Vec<SubRecord> = Vec::new();
    assert(sub_views(records@) =~= Seq::empty());
    while reader.remaining() > 0
        invariant
            reader.same_file(old(reader)),
            data == reader.bytes(),
            reader.id_size() == Some(id_size),
            old(reader).id_size() == Some(id_size),
            end == reader.limit(),
            end == start + len,
            start == old(reader).cursor(),
            start <= reader.cursor(),
            end <= outer == old(reader).limit(),
            outer <= data.len(),
            spec_walk(data, start, end, id_size, Seq::empty()) == spec_walk(
                data,
                reader.cursor(),
                end,
                id_size,
                sub_views(records@),
            ),
        decreases reader.limit() - reader.cursor(),
    {
        let ghost before = reader.cursor();
        let record = read_sub_record(reader, len)?;
        proof {
            sub_record_moves_forward(data, before, end, id_size);
            assert(sub_views(records@.push(record)) =~= sub_views(records@).push(record@));
        }
        records.push(record);
    }
    reader.leave(outer);
    Ok(Dump { records })
}

/// A tag that is none of the known ones ends the walk with an error that
/// holds the tag and the offset behind it, whatever follows.
pub proof fn unknown_sub_record_fails(data: Seq<u8>, pos: int, limit: int, id_size: u32)
    requires
        !spec_is_root(data[pos]),
        data[pos] < HPROF_GC_CLASS_DUMP || data[pos] > HPROF_GC_PRIM_ARRAY_DUMP,
    ensures
        spec_sub_record(data, pos, limit, id_size) == Err::<(SubRecordView, int), ParseError>(
            ParseError::UnknownSubRecord { tag: data[pos], position: (pos + 1) as u64 },
        ),
{
}

/// The elements of a primitive array take the element count times the size
/// of one element: the dump ends that many bytes behind its fixed part.
pub proof fn primitive_array_takes_count_times_size(
    data: Seq<u8>,
    pos: int,
    limit: int,
    id_size: u32,
)
    ensures
        spec_primitive_array(data, pos, limit, id_size) matches Ok((array, end)) ==> {
            &&& value_bytes(array.element_type, id_size) matches Some(each)
            &&& end == pos + id_bytes(id_size) + 9 + array.len * each
            &&& end <= limit
        },
{
}

} // verus!
