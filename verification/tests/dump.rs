use jsnap::io::error::ParseError;
use jsnap::parser::dump::{
    get_heap_dump, get_value, is_root_tag, read_constants, read_fields, read_root, read_statics,
    read_sub_record, value_size, ClassObject, Constant, Dump, FieldDecl, GcRoot, NormalObject,
    ObjectArray, PrimitiveArray, StaticField, SubRecord, Value,
};
use jsnap::parser::reader::{Reader, Section};

fn dump_reader(id_size: u32, payload: &[u8]) -> Reader {
    let mut bytes: Vec<u8> = id_size.to_be_bytes().to_vec();
    bytes.extend_from_slice(payload);
    let mut reader = Reader::new(bytes);
    assert_eq!(reader.get_id_size(), Ok(id_size));
    reader
}

fn class_dump_bytes() -> Vec<u8> {
    let mut bytes: Vec<u8> = Vec::new();
    bytes.extend_from_slice(&[0, 0, 0, 100]); // class id
    bytes.extend_from_slice(&[0, 0, 0, 1]); // stack trace serial
    bytes.extend_from_slice(&[0, 0, 0, 99]); // super
    bytes.extend_from_slice(&[0, 0, 0, 98]); // loader
    bytes.extend_from_slice(&[0, 0, 0, 97]); // signers
    bytes.extend_from_slice(&[0, 0, 0, 96]); // protection domain
    bytes.extend_from_slice(&[0, 0, 0, 0, 0, 0, 0, 0]); // reserved
    bytes.extend_from_slice(&[0, 0, 0, 24]); // instance size
    bytes.extend_from_slice(&[0, 2]); // constant pool
    bytes.extend_from_slice(&[0, 1, 10, 0, 0, 0, 5]); // index 1, int 5
    bytes.extend_from_slice(&[0, 2, 4, 1]); // index 2, boolean true
    bytes.extend_from_slice(&[0, 1]); // static fields
    bytes.extend_from_slice(&[0, 0, 0, 7, 11, 0, 0, 0, 0, 0, 0, 0, 9]); // name 7, long 9
    bytes.extend_from_slice(&[0, 2]); // instance fields
    bytes.extend_from_slice(&[0, 0, 0, 8, 2]); // name 8, object
    bytes.extend_from_slice(&[0, 0, 0, 9, 10]); // name 9, int
    bytes
}

fn class_dump_value() -> ClassObject {
    ClassObject {
        id: 100,
        stack_trace_ser: 1,
        super_id: 99,
        class_loader_id: 98,
        signers_id: 97,
        protection_domain_id: 96,
        instance_size: 24,
        constants: vec![
            Constant { index: 1, value: Value::Int(5) },
            Constant { index: 2, value: Value::Bool(true) },
        ],
        statics: vec![StaticField { name_id: 7, value: Value::Long(9) }],
        fields: vec![FieldDecl { name_id: 8, ty: 2 }, FieldDecl { name_id: 9, ty: 10 }],
    }
}

#[test]
fn values_of_every_basic_type() {
    let mut reader = dump_reader(
        4,
        &[
            0, 0, 0, 9, // object
            2, // boolean
            b'c', // char
            0x40, 0x49, 0x0f, 0xdb, // float
            0x40, 0x09, 0x21, 0xfb, 0x54, 0x44, 0x2d, 0x18, // double
            0x80, // byte
            0x01, 0x00, // short
            0, 0, 1, 0, // int
            0, 0, 0, 0, 0, 0, 1, 0, // long
        ],
    );
    assert_eq!(get_value(&mut reader, 2), Ok(Value::Id(9)));
    assert_eq!(get_value(&mut reader, 4), Ok(Value::Bool(true)));
    assert_eq!(get_value(&mut reader, 5), Ok(Value::Char('c')));
    assert_eq!(get_value(&mut reader, 6), Ok(Value::Float(0x4049_0fdb)));
    assert_eq!(get_value(&mut reader, 7), Ok(Value::Double(0x4009_21fb_5444_2d18)));
    assert_eq!(get_value(&mut reader, 8), Ok(Value::Byte(0x80)));
    assert_eq!(get_value(&mut reader, 9), Ok(Value::Short(256)));
    assert_eq!(get_value(&mut reader, 10), Ok(Value::Int(256)));
    assert_eq!(get_value(&mut reader, 11), Ok(Value::Long(256)));
    assert_eq!(reader.position(), reader.size());
    assert_eq!(get_value(&mut reader, 8), Err(ParseError::UnexpectedEndOfFile));
}

#[test]
fn value_of_an_unknown_type_fails_with_tag_and_offset() {
    let mut reader = dump_reader(4, &[1, 2, 3]);
    assert_eq!(reader.read_byte(), Ok(1));
    for tag in [0u8, 1, 3, 12, 0xff] {
        assert_eq!(
            get_value(&mut reader, tag),
            Err(ParseError::InvalidFieldType { tag, position: 5 })
        );
    }
    assert_eq!(reader.position(), 5);
}

#[test]
fn value_object_follows_the_identifier_size() {
    let mut reader = dump_reader(8, &[0, 0, 0, 0, 0, 0, 0, 9, 1]);
    assert_eq!(get_value(&mut reader, 2), Ok(Value::Id(9)));
    assert_eq!(reader.position(), 12);
    assert_eq!(get_value(&mut reader, 2), Err(ParseError::UnexpectedEndOfFile));
}

#[test]
fn value_sizes() {
    assert_eq!(value_size(2, 4), Some(4));
    assert_eq!(value_size(2, 8), Some(8));
    assert_eq!(value_size(4, 4), Some(1));
    assert_eq!(value_size(5, 4), Some(1));
    assert_eq!(value_size(6, 4), Some(4));
    assert_eq!(value_size(7, 4), Some(8));
    assert_eq!(value_size(8, 4), Some(1));
    assert_eq!(value_size(9, 4), Some(2));
    assert_eq!(value_size(10, 4), Some(4));
    assert_eq!(value_size(11, 4), Some(8));
    assert_eq!(value_size(3, 4), None);
    assert_eq!(value_size(12, 4), None);
}

#[test]
fn root_tags() {
    for tag in [0xffu8, 1, 2, 3, 4, 5, 6, 7, 8] {
        assert!(is_root_tag(tag));
    }
    for tag in [0u8, 9, 0x20, 0x21, 0x22, 0x23, 0xfe] {
        assert!(!is_root_tag(tag));
    }
}

#[test]
fn roots_of_every_kind() {
    let id = [0, 0, 0, 9];
    let a = [0, 0, 0, 1];
    let b = [0, 0, 0, 2];
    let mut payload: Vec<u8> = Vec::new();
    payload.extend_from_slice(&id); // unknown
    payload.extend_from_slice(&id); // jni global
    payload.extend_from_slice(&a);
    payload.extend_from_slice(&id); // jni local
    payload.extend_from_slice(&a);
    payload.extend_from_slice(&b);
    payload.extend_from_slice(&id); // java frame
    payload.extend_from_slice(&a);
    payload.extend_from_slice(&[0xff, 0xff, 0xff, 0xff]);
    payload.extend_from_slice(&id); // native stack
    payload.extend_from_slice(&a);
    payload.extend_from_slice(&id); // sticky class
    payload.extend_from_slice(&id); // thread block
    payload.extend_from_slice(&a);
    payload.extend_from_slice(&id); // monitor used
    payload.extend_from_slice(&id); // thread object
    payload.extend_from_slice(&a);
    payload.extend_from_slice(&b);
    let mut reader = dump_reader(4, &payload);
    assert_eq!(read_root(&mut reader, 0xff), Ok(GcRoot::Unknown { id: 9 }));
    assert_eq!(read_root(&mut reader, 1), Ok(GcRoot::JniGlobal { id: 9, referrer: 1 }));
    assert_eq!(read_root(&mut reader, 2), Ok(GcRoot::JniLocal { id: 9, thread: 1, frame: 2 }));
    assert_eq!(
        read_root(&mut reader, 3),
        Ok(GcRoot::JavaFrame { id: 9, thread: 1, frame: u32::MAX })
    );
    assert_eq!(read_root(&mut reader, 4), Ok(GcRoot::NativeStack { id: 9, thread: 1 }));
    assert_eq!(read_root(&mut reader, 5), Ok(GcRoot::StickyClass { id: 9 }));
    assert_eq!(read_root(&mut reader, 6), Ok(GcRoot::ThreadBlock { id: 9, thread: 1 }));
    assert_eq!(read_root(&mut reader, 7), Ok(GcRoot::MonitorUsed { id: 9 }));
    assert_eq!(
        read_root(&mut reader, 8),
        Ok(GcRoot::ThreadObj { id: 9, thread: 1, stack_trace: 2 })
    );
    assert_eq!(reader.position(), reader.size());
    assert_eq!(read_root(&mut reader, 5), Err(ParseError::UnexpectedEndOfFile));
}

#[test]
fn root_cut_short_fails() {
    let mut reader = dump_reader(4, &[0, 0, 0, 9, 0, 0, 0, 1, 0, 0, 0]);
    assert_eq!(read_root(&mut reader, 8), Err(ParseError::UnexpectedEndOfFile));
    let mut reader = dump_reader(8, &[0, 0, 0, 0, 0, 0, 0, 9, 0, 0, 0, 0, 0, 0, 0]);
    assert_eq!(read_root(&mut reader, 1), Err(ParseError::UnexpectedEndOfFile));
}

#[test]
fn constant_pool_entries() {
    let mut reader = dump_reader(4, &[0, 1, 10, 0, 0, 0, 5, 0, 2, 4, 1, 0, 3, 12]);
    assert_eq!(
        read_constants(&mut reader, 2),
        Ok(vec![
            Constant { index: 1, value: Value::Int(5) },
            Constant { index: 2, value: Value::Bool(true) },
        ])
    );
    assert_eq!(reader.position(), 15);
    assert_eq!(read_constants(&mut reader, 0), Ok(vec![]));
    assert_eq!(
        read_constants(&mut reader, 1),
        Err(ParseError::InvalidFieldType { tag: 12, position: 18 })
    );
}

#[test]
fn static_fields_and_field_declarations() {
    let mut reader = dump_reader(
        4,
        &[0, 0, 0, 7, 9, 0, 3, 0, 0, 0, 8, 2, 0, 0, 0, 9, 77, 0, 0, 0, 1, 1, 0],
    );
    assert_eq!(
        read_statics(&mut reader, 1),
        Ok(vec![StaticField { name_id: 7, value: Value::Short(3) }])
    );
    assert_eq!(
        read_fields(&mut reader, 2),
        Ok(vec![FieldDecl { name_id: 8, ty: 2 }, FieldDecl { name_id: 9, ty: 77 }])
    );
    assert_eq!(reader.position(), 21);
    assert_eq!(
        read_statics(&mut reader, 1),
        Err(ParseError::InvalidFieldType { tag: 1, position: 26 })
    );
    assert_eq!(read_fields(&mut reader, 1), Err(ParseError::UnexpectedEndOfFile));
    assert_eq!(read_constants(&mut reader, 1), Err(ParseError::UnexpectedEndOfFile));
}

#[test]
fn class_dump() {
    let bytes = class_dump_bytes();
    let mut reader = dump_reader(4, &bytes);
    assert_eq!(reader.read::<ClassObject>(0), Ok(class_dump_value()));
    assert_eq!(reader.position(), reader.size());
}

#[test]
fn class_dump_cut_short_at_any_byte_fails() {
    let bytes = class_dump_bytes();
    for cut in 0..bytes.len() {
        let mut reader = dump_reader(4, &bytes[..cut]);
        assert_eq!(ClassObject::read(&mut reader, 0), Err(ParseError::UnexpectedEndOfFile));
    }
}

#[test]
fn class_dump_with_invalid_constant_type_fails() {
    let mut bytes = class_dump_bytes();
    bytes[40] = 3;
    let mut reader = dump_reader(4, &bytes);
    assert_eq!(
        reader.read::<ClassObject>(0),
        Err(ParseError::InvalidFieldType { tag: 3, position: 45 })
    );
}

#[test]
fn instance_dump_passes_over_field_values() {
    let mut reader = dump_reader(4, &[0, 0, 0, 5, 0, 0, 0, 1, 0, 0, 0, 100, 0, 0, 0, 3, 7, 7, 7, 9]);
    assert_eq!(
        reader.read::<NormalObject>(0),
        Ok(NormalObject { id: 5, stack_trace_ser: 1, class_id: 100, payload_len: 3 })
    );
    assert_eq!(reader.position(), 23);
    let mut reader = dump_reader(4, &[0, 0, 0, 5, 0, 0, 0, 1, 0, 0, 0, 100, 0, 0, 0, 3, 7, 7]);
    assert_eq!(reader.read::<NormalObject>(0), Err(ParseError::UnexpectedEndOfFile));
}

#[test]
fn object_array_dump() {
    let mut reader = dump_reader(
        4,
        &[0, 0, 0, 5, 0, 0, 0, 1, 0, 0, 0, 2, 0, 0, 0, 100, 0, 0, 0, 11, 0, 0, 0, 12],
    );
    assert_eq!(
        reader.read::<ObjectArray>(0),
        Ok(ObjectArray { id: 5, stack_trace_ser: 1, class_id: 100, elements: vec![11, 12] })
    );
    assert_eq!(reader.position(), 28);
    let mut reader =
        dump_reader(4, &[0, 0, 0, 5, 0, 0, 0, 1, 0, 0, 0, 2, 0, 0, 0, 100, 0, 0, 0, 11]);
    assert_eq!(reader.read::<ObjectArray>(0), Err(ParseError::UnexpectedEndOfFile));
}

#[test]
fn primitive_array_of_three_ints_takes_twelve_bytes_of_elements() {
    let mut payload: Vec<u8> = vec![0, 0, 0, 5, 0, 0, 0, 1, 0, 0, 0, 3, 10];
    payload.extend_from_slice(&[1; 12]);
    payload.extend_from_slice(&[0xee, 0xee]);
    let mut reader = dump_reader(4, &payload);
    let before = reader.position();
    assert_eq!(
        reader.read::<PrimitiveArray>(0),
        Ok(PrimitiveArray { id: 5, stack_trace_ser: 1, len: 3, element_type: 10 })
    );
    assert_eq!(reader.position() - before, 13 + 3 * 4);
    assert_eq!(reader.read_short(), Ok(0xeeee));
}

#[test]
fn primitive_array_elements_follow_the_element_type() {
    let widths = [(2u8, 4u64), (4, 1), (5, 1), (6, 4), (7, 8), (8, 1), (9, 2), (10, 4), (11, 8)];
    for (element_type, width) in widths {
        let mut payload: Vec<u8> = vec![0, 0, 0, 5, 0, 0, 0, 1, 0, 0, 0, 3, element_type];
        payload.extend_from_slice(&vec![0; 3 * width as usize]);
        let mut reader = dump_reader(4, &payload);
        assert!(reader.read::<PrimitiveArray>(0).is_ok());
        assert_eq!(reader.position(), 4 + 13 + 3 * width);
        let mut reader = dump_reader(4, &payload[..payload.len() - 1]);
        assert_eq!(reader.read::<PrimitiveArray>(0), Err(ParseError::UnexpectedEndOfFile));
    }
}

#[test]
fn primitive_array_of_an_unknown_type_fails() {
    let mut reader = dump_reader(4, &[0, 0, 0, 5, 0, 0, 0, 1, 0, 0, 0, 0, 1]);
    assert_eq!(
        reader.read::<PrimitiveArray>(0),
        Err(ParseError::InvalidFieldType { tag: 1, position: 17 })
    );
}

#[test]
fn primitive_array_with_a_huge_count_fails() {
    let mut reader = dump_reader(4, &[0, 0, 0, 5, 0, 0, 0, 1, 0xff, 0xff, 0xff, 0xff, 11, 0, 0]);
    assert_eq!(reader.read::<PrimitiveArray>(0), Err(ParseError::UnexpectedEndOfFile));
}

#[test]
fn sub_records_by_tag() {
    let mut payload: Vec<u8> = vec![0x05, 0, 0, 0, 9];
    payload.push(0x20);
    payload.extend_from_slice(&class_dump_bytes());
    payload.extend_from_slice(&[0x21, 0, 0, 0, 5, 0, 0, 0, 1, 0, 0, 0, 100, 0, 0, 0, 0]);
    payload.extend_from_slice(&[0x22, 0, 0, 0, 5, 0, 0, 0, 1, 0, 0, 0, 0, 0, 0, 0, 100]);
    payload.extend_from_slice(&[0x23, 0, 0, 0, 5, 0, 0, 0, 1, 0, 0, 0, 1, 8, 0x7f]);
    let len = payload.len() as u32;
    let mut reader = dump_reader(4, &payload);
    assert_eq!(
        read_sub_record(&mut reader, len),
        Ok(SubRecord::Root(GcRoot::StickyClass { id: 9 }))
    );
    assert_eq!(read_sub_record(&mut reader, len), Ok(SubRecord::Class(class_dump_value())));
    assert_eq!(
        read_sub_record(&mut reader, len),
        Ok(SubRecord::Instance(NormalObject {
            id: 5,
            stack_trace_ser: 1,
            class_id: 100,
            payload_len: 0
        }))
    );
    assert_eq!(
        read_sub_record(&mut reader, len),
        Ok(SubRecord::ObjectArray(ObjectArray {
            id: 5,
            stack_trace_ser: 1,
            class_id: 100,
            elements: vec![]
        }))
    );
    assert_eq!(
        read_sub_record(&mut reader, len),
        Ok(SubRecord::PrimitiveArray(PrimitiveArray {
            id: 5,
            stack_trace_ser: 1,
            len: 1,
            element_type: 8
        }))
    );
    assert_eq!(reader.position(), reader.size());
}

#[test]
fn heap_dump_walks_its_budget() {
    let mut payload: Vec<u8> = vec![0x08, 0, 0, 0, 9, 0, 0, 0, 1, 0, 0, 0, 2];
    payload.extend_from_slice(&[0xff, 0, 0, 0, 3]);
    payload.extend_from_slice(&[0x05, 0, 0, 0, 4]);
    let mut reader = dump_reader(4, &payload);
    assert_eq!(
        get_heap_dump(&mut reader, 18),
        Ok(Dump {
            records: vec![
                SubRecord::Root(GcRoot::ThreadObj { id: 9, thread: 1, stack_trace: 2 }),
                SubRecord::Root(GcRoot::Unknown { id: 3 }),
            ]
        })
    );
    assert_eq!(reader.position(), 22);
    assert_eq!(reader.remaining(), 5);
    assert_eq!(
        get_heap_dump(&mut reader, 5),
        Ok(Dump { records: vec![SubRecord::Root(GcRoot::StickyClass { id: 4 })] })
    );
    assert_eq!(get_heap_dump(&mut reader, 0), Ok(Dump { records: vec![] }));
    assert_eq!(get_heap_dump(&mut reader, 1), Err(ParseError::UnexpectedEndOfFile));
}

#[test]
fn heap_dump_thread_object_followed_by_unknown_sub_record_fails() {
    let mut payload: Vec<u8> = vec![0x08, 0, 0, 0, 9, 0, 0, 0, 1, 0, 0, 0, 2];
    payload.extend_from_slice(&[0x99, 0, 0, 0, 3, 0, 0, 0, 0]);
    let mut reader = dump_reader(4, &payload);
    let err = get_heap_dump(&mut reader, 22).unwrap_err();
    assert_eq!(err, ParseError::UnknownSubRecord { tag: 0x99, position: 18 });
    assert!(err.is_desync());
}

#[test]
fn heap_dump_whose_last_sub_record_overruns_the_budget_fails() {
    let payload: Vec<u8> = vec![0x08, 0, 0, 0, 9, 0, 0, 0, 1, 0, 0, 0, 2, 0xff, 0, 0, 0, 3];
    let mut reader = dump_reader(4, &payload);
    assert_eq!(get_heap_dump(&mut reader, 16), Err(ParseError::UnexpectedEndOfFile));
    let mut reader = dump_reader(4, &payload);
    assert_eq!(get_heap_dump(&mut reader, 12), Err(ParseError::UnexpectedEndOfFile));
    let mut reader = dump_reader(4, &payload);
    assert!(get_heap_dump(&mut reader, 13).is_ok());
    assert_eq!(reader.position(), 17);
}
