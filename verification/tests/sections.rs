use jsnap::db::thread::Thread;
use jsnap::io::error::ParseError;
use jsnap::parser::reader::{
    AllocSites, Class, ControlSettings, CpuSamples, Frame, HeapSummary, Reader, Section,
    StartThread, Trace, Utf8,
};

fn section_reader(id_size: u32, payload: &[u8]) -> Reader {
    let mut bytes: Vec<u8> = id_size.to_be_bytes().to_vec();
    bytes.extend_from_slice(payload);
    let mut reader = Reader::new(bytes);
    assert_eq!(reader.get_id_size(), Ok(id_size));
    reader
}

#[test]
fn reader_starts_at_the_beginning() {
    let mut reader = Reader::new(vec![0, 0, 0, 8, 0, 0, 0, 0, 0, 0, 0, 9, 1, 2]);
    assert_eq!(reader.size(), 14);
    assert_eq!(reader.position(), 0);
    assert_eq!(reader.remaining(), 14);
    assert_eq!(reader.get_id_size(), Ok(8));
    assert_eq!(reader.get_id_size(), Ok(8));
    assert_eq!(reader.known_id_size(), 8);
    assert_eq!(reader.get_timestamp(), Ok(9));
    assert_eq!(reader.read_short(), Ok(0x0102));
    assert_eq!(reader.read_byte(), Err(ParseError::UnexpectedEndOfFile));
    assert_eq!(reader.get_timestamp(), Err(ParseError::UnexpectedEndOfFile));
    assert_eq!(reader.position(), 14);
}

#[test]
fn reader_plain_reads() {
    let mut reader = section_reader(4, &[7, b'x', 0, 1, 0, 0, 0, 2, 0, 0, 0, 0, 0, 0, 0, 3, 0, 0, 0, 4, 9, 9]);
    assert_eq!(reader.read_byte(), Ok(7));
    assert_eq!(reader.read_char(), Ok('x'));
    assert_eq!(reader.read_short(), Ok(1));
    assert_eq!(reader.read_int(), Ok(2));
    assert_eq!(reader.read_long(), Ok(3));
    assert_eq!(reader.get_id(), Ok(4));
    assert_eq!(reader.skip(3), Err(ParseError::UnexpectedEndOfFile));
    assert_eq!(reader.skip(2), Ok(()));
    assert_eq!(reader.get_id(), Err(ParseError::UnexpectedEndOfFile));
    assert_eq!(reader.get_ids(1), Err(ParseError::UnexpectedEndOfFile));
    assert_eq!(reader.get_ids(0), Ok(vec![]));
    assert_eq!(reader.get_header(), Err(ParseError::UnexpectedEndOfFile));
}

#[test]
fn utf8_section_takes_the_whole_payload() {
    let mut reader = section_reader(4, &[0, 0, 0, 1, b'M', b'a', b'i', b'n', 0xff]);
    let utf8 = reader.read::<Utf8>(8).unwrap();
    assert_eq!(utf8, Utf8 { symbol_id: 1, name: String::from("Main") });
    assert_eq!(reader.position(), 12);
}

#[test]
fn utf8_section_with_wide_identifier() {
    let mut reader = section_reader(8, &[0, 0, 0, 1, 0, 0, 0, 2, b'a', 0xc0]);
    let utf8 = Utf8::read(&mut reader, 10).unwrap();
    assert_eq!(utf8.symbol_id, 0x0000_0001_0000_0002);
    assert_eq!(utf8.name, "a\u{fffd}");
}

#[test]
fn utf8_section_shorter_than_an_identifier_fails() {
    let mut reader = section_reader(8, &[0, 0, 0, 1, 0, 0, 0, 2, b'a']);
    assert_eq!(reader.read::<Utf8>(7), Err(ParseError::UnexpectedEndOfFile));
    let mut reader = section_reader(4, &[0, 0, 0, 1, b'a']);
    assert_eq!(reader.read::<Utf8>(6), Err(ParseError::UnexpectedEndOfFile));
}

#[test]
fn class_section() {
    let mut reader = section_reader(4, &[0, 0, 0, 1, 0, 0, 0, 100, 0, 0, 0, 2, 0, 0, 0, 7]);
    let class = reader.read::<Class>(16).unwrap();
    assert_eq!(class, Class { id: 100, serial_num: 1, stack_trace_ser: 2, name_id: 7 });
    assert_eq!(reader.position(), 20);
    let mut reader = section_reader(8, &[0, 0, 0, 1, 0, 0, 0, 100, 0, 0, 0, 2, 0, 0, 0, 7]);
    assert_eq!(reader.read::<Class>(16), Err(ParseError::UnexpectedEndOfFile));
}

#[test]
fn frame_section() {
    let mut payload: Vec<u8> = Vec::new();
    for id in [1u64, 2, 3, 4] {
        payload.extend_from_slice(&id.to_be_bytes());
    }
    payload.extend_from_slice(&[0, 0, 0, 9, 0, 0, 0, 42]);
    let mut reader = section_reader(8, &payload);
    let frame = reader.read::<Frame>(40).unwrap();
    assert_eq!(
        frame,
        Frame { id: 1, method_name: 2, method_sig: 3, src_file: 4, class_ser_num: 9, line_nr: 42 }
    );
    assert_eq!(reader.position(), 44);
    let mut reader = section_reader(8, &payload[..39]);
    assert_eq!(reader.read::<Frame>(39), Err(ParseError::UnexpectedEndOfFile));
}

#[test]
fn trace_section_keeps_frame_order() {
    let mut reader = section_reader(
        4,
        &[0, 0, 0, 1, 0, 0, 0, 2, 0, 0, 0, 3, 0, 0, 0, 30, 0, 0, 0, 10, 0, 0, 0, 20],
    );
    let trace = reader.read::<Trace>(24).unwrap();
    assert_eq!(trace, Trace { stack_trace_nr: 1, thread_nr: 2, frame_ids: vec![30, 10, 20] });
    assert_eq!(reader.position(), 28);
}

#[test]
fn trace_section_without_frames() {
    let mut reader = section_reader(4, &[0, 0, 0, 1, 0, 0, 0, 2, 0, 0, 0, 0]);
    let trace = reader.read::<Trace>(12).unwrap();
    assert_eq!(trace.frame_ids, Vec::<u64>::new());
    assert_eq!(reader.position(), 16);
}

#[test]
fn trace_section_announcing_more_frames_than_it_holds_fails() {
    let mut reader = section_reader(4, &[0, 0, 0, 1, 0, 0, 0, 2, 0xff, 0xff, 0xff, 0xff, 0, 0, 0, 30]);
    assert_eq!(reader.read::<Trace>(16), Err(ParseError::UnexpectedEndOfFile));
}

#[test]
fn start_thread_section_and_its_row() {
    let mut reader = section_reader(
        4,
        &[0, 0, 0, 5, 0, 0, 0, 50, 0, 0, 0, 3, 0, 0, 0, 61, 0, 0, 0, 62, 0, 0, 0, 63],
    );
    let started = reader.read::<StartThread>(24).unwrap();
    assert_eq!(
        started,
        StartThread {
            thread_serial_num: 5,
            thread_obj_id: 50,
            trace_serial_num: 3,
            t_name_index: 61,
            g_name_index: 62,
            p_name_index: 63,
        }
    );
    let row = Thread::from(started);
    assert_eq!(
        row,
        Thread {
            thread_serial_num: 5,
            thread_obj_id: 50,
            trace_serial_num: 3,
            t_name_index: 61,
            g_name_index: 62,
            p_name_index: 63,
        }
    );
}

#[test]
fn heap_summary_section() {
    let mut reader = section_reader(
        8,
        &[0, 0, 0, 1, 0, 0, 0, 2, 0, 0, 0, 1, 0, 0, 0, 3, 0, 0, 0, 0, 0, 0, 0, 4],
    );
    let summary = reader.read::<HeapSummary>(24).unwrap();
    assert_eq!(
        summary,
        HeapSummary { live: 1, live_inst: 2, allocate: 0x1_0000_0003, allocate_inst: 4 }
    );
    let mut reader = section_reader(8, &[0; 23]);
    assert_eq!(reader.read::<HeapSummary>(23), Err(ParseError::UnexpectedEndOfFile));
}

#[test]
fn cpu_samples_section_passes_over_its_traces() {
    let mut payload: Vec<u8> = vec![0, 0, 0, 77, 0, 0, 0, 2];
    payload.extend_from_slice(&[0; 16]);
    payload.push(1);
    let mut reader = section_reader(4, &payload);
    let samples = reader.read::<CpuSamples>(24).unwrap();
    assert_eq!(samples, CpuSamples { num: 77 });
    assert_eq!(reader.position(), 28);
    let mut reader = section_reader(4, &payload[..23]);
    assert_eq!(reader.read::<CpuSamples>(23), Err(ParseError::UnexpectedEndOfFile));
}

#[test]
fn control_settings_section() {
    let mut reader = section_reader(4, &[0, 0, 0, 3, 0, 16]);
    let settings = reader.read::<ControlSettings>(6).unwrap();
    assert_eq!(settings, ControlSettings { flags: 3, depth: 16 });
    let mut reader = section_reader(4, &[0, 0, 0, 3, 0]);
    assert_eq!(reader.read::<ControlSettings>(5), Err(ParseError::UnexpectedEndOfFile));
}

#[test]
fn alloc_sites_section_reads_its_fixed_part() {
    let mut reader = section_reader(4, &[0; 40]);
    assert_eq!(reader.read::<AllocSites>(40), Ok(AllocSites {}));
    assert_eq!(reader.position(), 38);
    let mut reader = section_reader(4, &[0; 33]);
    assert_eq!(reader.read::<AllocSites>(33), Err(ParseError::UnexpectedEndOfFile));
}
