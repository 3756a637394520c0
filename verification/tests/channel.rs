use jsnap::io::channel::Channel;
use jsnap::io::error::{EndOfFile, NotSupport, ParseError};
use jsnap::io::text::{dotted, push_decimal};
use jsnap::io::wrapper::ChannelWrapper;

#[test]
fn test_main() {}

#[test]
fn channel_reads_big_endian_numbers() {
    let mut channel = Channel::open(vec![
        0x7f, 0x01, 0x02, 0x01, 0x02, 0x03, 0x04, 0x01, 0x02, 0x03, 0x04, 0x05, 0x06, 0x07, 0x08,
    ]);
    assert_eq!(channel.get_file_len(), 15);
    assert_eq!(channel.position(), 0);
    assert_eq!(channel.read_byte(), Ok(0x7f));
    assert_eq!(channel.read_short(), Ok(0x0102));
    assert_eq!(channel.read_int(), Ok(0x0102_0304));
    assert_eq!(channel.read_long(), Ok(0x0102_0304_0506_0708));
    assert_eq!(channel.position(), 15);
    assert_eq!(channel.remaining(), 0);
}

#[test]
fn channel_reads_the_highest_numbers() {
    let mut channel = Channel::open(vec![0xff; 14]);
    assert_eq!(channel.read_short(), Ok(u16::MAX));
    assert_eq!(channel.read_int(), Ok(u32::MAX));
    assert_eq!(channel.read_long(), Ok(u64::MAX));
}

#[test]
fn channel_read_fails_without_moving_when_bytes_are_missing() {
    let mut channel = Channel::open(vec![1, 2, 3]);
    assert_eq!(channel.read_int(), Err(EndOfFile));
    assert_eq!(channel.read_long(), Err(EndOfFile));
    assert_eq!(channel.position(), 0);
    assert_eq!(channel.read_short(), Ok(0x0102));
    assert_eq!(channel.read_short(), Err(EndOfFile));
    assert_eq!(channel.position(), 2);
    assert_eq!(channel.read_byte(), Ok(3));
    assert_eq!(channel.read_byte(), Err(EndOfFile));
    assert_eq!(channel.read_char(), Err(EndOfFile));
    assert_eq!(channel.read_bool(), Err(EndOfFile));
}

#[test]
fn channel_reads_truth_values() {
    let mut channel = Channel::open(vec![0, 1, 0xff]);
    assert_eq!(channel.read_bool(), Ok(false));
    assert_eq!(channel.read_bool(), Ok(true));
    assert_eq!(channel.read_bool(), Ok(true));
}

#[test]
fn channel_reads_floating_point_as_bits() {
    let mut channel = Channel::open(vec![0x3f, 0x80, 0, 0, 0x3f, 0xf0, 0, 0, 0, 0, 0, 0]);
    let single = channel.read_float().unwrap();
    assert_eq!(single, 0x3f80_0000);
    assert_eq!(f32::from_bits(single), 1.0);
    let double = channel.read_double().unwrap();
    assert_eq!(double, 0x3ff0_0000_0000_0000);
    assert_eq!(f64::from_bits(double), 1.0);
}

#[test]
fn channel_reads_one_byte_as_character() {
    let mut channel = Channel::open(vec![b'J', 0, 0x7f, 0x80, 0xff]);
    assert_eq!(channel.read_char(), Ok('J'));
    assert_eq!(channel.read_char(), Ok('\0'));
    assert_eq!(channel.read_char(), Ok('\u{7f}'));
    assert_eq!(channel.read_char(), Ok('\u{fffd}'));
    assert_eq!(channel.read_char(), Ok('\u{fffd}'));
}

#[test]
fn channel_reads_text_leniently() {
    let mut channel = Channel::open(vec![b'M', b'a', b'i', b'n', 0xc3, 0xa9, 0xff, b'x']);
    assert_eq!(channel.read_str(4), Ok(String::from("Main")));
    assert_eq!(channel.read_str(2), Ok(String::from("\u{e9}")));
    assert_eq!(channel.read_str(2), Ok(String::from("\u{fffd}x")));
    assert_eq!(channel.read_str(0), Ok(String::new()));
    assert_eq!(channel.read_str(1), Err(EndOfFile));
    assert_eq!(channel.position(), 8);
}

#[test]
fn channel_skip_moves_forward_or_fails() {
    let mut channel = Channel::open(vec![0; 10]);
    assert_eq!(channel.skip(4), Ok(()));
    assert_eq!(channel.position(), 4);
    assert_eq!(channel.skip(7), Err(EndOfFile));
    assert_eq!(channel.position(), 4);
    assert_eq!(channel.skip(6), Ok(()));
    assert_eq!(channel.position(), 10);
    assert_eq!(channel.skip(0), Ok(()));
    assert_eq!(channel.skip(u64::MAX), Err(EndOfFile));
}

#[test]
fn channel_narrow_confines_reads_and_widen_passes_over_the_rest() {
    let mut channel = Channel::open(vec![1, 2, 3, 4, 5, 6]);
    assert_eq!(channel.read_byte(), Ok(1));
    let outer = channel.narrow(3).unwrap();
    assert_eq!(outer, 6);
    assert_eq!(channel.remaining(), 3);
    assert_eq!(channel.read_int(), Err(EndOfFile));
    assert_eq!(channel.read_byte(), Ok(2));
    channel.widen(outer);
    assert_eq!(channel.position(), 4);
    assert_eq!(channel.remaining(), 2);
    assert_eq!(channel.narrow(3), Err(EndOfFile));
    assert_eq!(channel.read_short(), Ok(0x0506));
}

#[test]
fn wrapper_reads_identifier_size_once() {
    let mut stream = ChannelWrapper::wrapper(vec![0, 0, 0, 4, 0, 0, 0, 8]);
    assert_eq!(stream.size(), 8);
    assert_eq!(stream.read_id_size(), Ok(4));
    assert_eq!(stream.position(), 4);
    assert_eq!(stream.read_id_size(), Ok(4));
    assert_eq!(stream.position(), 4);
    assert_eq!(stream.known_id_size(), 4);
}

#[test]
fn wrapper_read_id_size_fails_on_short_input() {
    let mut stream = ChannelWrapper::new(Channel::open(vec![0, 0, 4]));
    assert_eq!(stream.read_id_size(), Err(ParseError::UnexpectedEndOfFile));
    assert_eq!(stream.position(), 0);
}

#[test]
fn wrapper_widens_narrow_identifiers() {
    let mut stream = ChannelWrapper::wrapper(vec![0, 0, 0, 4, 0xff, 0xff, 0xff, 0xfe, 1]);
    stream.read_id_size().unwrap();
    assert_eq!(stream.read_id(), Ok(0xffff_fffe));
    assert_eq!(stream.position(), 8);
    assert_eq!(stream.read_id(), Err(ParseError::UnexpectedEndOfFile));
}

#[test]
fn wrapper_reads_wide_identifiers() {
    let mut stream = ChannelWrapper::wrapper(vec![0, 0, 0, 8, 1, 2, 3, 4, 5, 6, 7, 8, 9, 9, 9, 9]);
    stream.read_id_size().unwrap();
    assert_eq!(stream.read_id(), Ok(0x0102_0304_0506_0708));
    assert_eq!(stream.read_id(), Err(ParseError::UnexpectedEndOfFile));
    assert_eq!(stream.position(), 12);
}

#[test]
fn wrapper_reads_eight_bytes_for_any_size_but_four() {
    let mut stream = ChannelWrapper::wrapper(vec![0, 0, 0, 5, 0, 0, 0, 0, 0, 0, 0, 7]);
    assert_eq!(stream.read_id_size(), Ok(5));
    assert_eq!(stream.read_id(), Ok(7));
    assert_eq!(stream.position(), 12);
}

#[test]
fn wrapper_reads_record_header() {
    let mut stream = ChannelWrapper::wrapper(vec![0x1c, 0, 0, 1, 0, 0, 0, 0, 5, 9]);
    assert_eq!(stream.read_header(), Ok((0x1c, 256, 5)));
    assert_eq!(stream.position(), 9);
    assert_eq!(stream.read_header(), Err(ParseError::UnexpectedEndOfFile));
    assert_eq!(stream.position(), 9);
}

#[test]
fn wrapper_reads_identifier_lists() {
    let mut stream = ChannelWrapper::wrapper(vec![0, 0, 0, 4, 0, 0, 0, 1, 0, 0, 0, 2, 0, 0]);
    stream.read_id_size().unwrap();
    assert_eq!(stream.read_ids(3), Err(ParseError::UnexpectedEndOfFile));
    assert_eq!(stream.position(), 4);
    assert_eq!(stream.read_ids(2), Ok(vec![1, 2]));
    assert_eq!(stream.position(), 12);
    assert_eq!(stream.read_ids(0), Ok(vec![]));
    assert_eq!(stream.read_ids(u32::MAX), Err(ParseError::UnexpectedEndOfFile));
}

#[test]
fn wrapper_reads_symbol_payload() {
    let mut stream = ChannelWrapper::wrapper(vec![0, 0, 0, 4, 0, 0, 0, 1, b'a', b'/', b'b', 0, 0, 0, 2]);
    stream.read_id_size().unwrap();
    assert_eq!(stream.read_utf8(7), Ok((1, String::from("a/b"))));
    assert_eq!(stream.position(), 11);
    assert_eq!(stream.read_utf8(3), Err(ParseError::UnexpectedEndOfFile));
    assert_eq!(stream.read_utf8(5), Err(ParseError::UnexpectedEndOfFile));
    assert_eq!(stream.read_utf8(4), Ok((2, String::new())));
    assert_eq!(stream.position(), 15);
}

#[test]
fn wrapper_reads_fixed_payloads() {
    let mut bytes: Vec<u8> = vec![0, 0, 0, 4];
    // load class
    bytes.extend_from_slice(&[0, 0, 0, 1, 0, 0, 0, 100, 0, 0, 0, 0, 0, 0, 0, 7]);
    // unload class
    bytes.extend_from_slice(&[0, 0, 0, 1]);
    // frame
    bytes.extend_from_slice(&[0, 0, 0, 10, 0, 0, 0, 11, 0, 0, 0, 12, 0, 0, 0, 13, 0, 0, 0, 1]);
    bytes.extend_from_slice(&[0xff, 0xff, 0xff, 0xff]);
    // trace
    bytes.extend_from_slice(&[0, 0, 0, 3, 0, 0, 0, 4, 0, 0, 0, 2, 0, 0, 0, 10, 0, 0, 0, 20]);
    // start thread
    bytes.extend_from_slice(&[0, 0, 0, 5, 0, 0, 0, 50, 0, 0, 0, 3]);
    bytes.extend_from_slice(&[0, 0, 0, 61, 0, 0, 0, 62, 0, 0, 0, 63]);
    // heap summary
    bytes.extend_from_slice(&[0, 0, 0, 1, 0, 0, 0, 2, 0, 0, 0, 0, 0, 0, 0, 3, 0, 0, 0, 0, 0, 0, 0, 4]);
    let mut stream = ChannelWrapper::wrapper(bytes);
    stream.read_id_size().unwrap();
    assert_eq!(stream.read_load_class(), Ok((1, 100, 0, 7)));
    assert_eq!(stream.read_unload_class(), Ok(1));
    assert_eq!(stream.read_frame(), Ok((10, 11, 12, 13, 1, u32::MAX)));
    assert_eq!(stream.read_hprof_trace(), Ok((3, 4, vec![10, 20])));
    assert_eq!(stream.read_start_thread(), Ok((5, 50, 3, 61, 62, 63, 4)));
    assert_eq!(stream.read_heap_summary(), Ok((1, 2, 3, 4)));
    assert_eq!(stream.position(), stream.size());
    assert_eq!(stream.read_heap_summary(), Err(ParseError::UnexpectedEndOfFile));
    assert_eq!(stream.read_frame(), Err(ParseError::UnexpectedEndOfFile));
}

#[test]
fn wrapper_trace_with_missing_frames_fails() {
    let mut stream = ChannelWrapper::wrapper(vec![
        0, 0, 0, 4, 0, 0, 0, 3, 0, 0, 0, 4, 0, 0, 0, 2, 0, 0, 0, 10,
    ]);
    stream.read_id_size().unwrap();
    assert_eq!(stream.read_hprof_trace(), Err(ParseError::UnexpectedEndOfFile));
}

#[test]
fn wrapper_enter_and_leave_frame_a_payload() {
    let mut stream = ChannelWrapper::wrapper(vec![1, 2, 3, 4, 5, 6, 7]);
    let outer = stream.enter(3).unwrap();
    assert_eq!(stream.read_byte(), Ok(1));
    assert_eq!(stream.read_int(), Err(ParseError::UnexpectedEndOfFile));
    assert_eq!(stream.skip(3), Err(ParseError::UnexpectedEndOfFile));
    stream.leave(outer);
    assert_eq!(stream.position(), 3);
    assert_eq!(stream.read_int(), Ok(0x0405_0607));
    assert_eq!(stream.enter(1), Err(ParseError::UnexpectedEndOfFile));
    assert_eq!(stream.skip_long(1), Err(ParseError::UnexpectedEndOfFile));
}

#[test]
fn decimal_numerals() {
    let mut text = String::from("n=");
    push_decimal(&mut text, 0);
    assert_eq!(text, "n=0");
    let mut text = String::new();
    push_decimal(&mut text, 9);
    push_decimal(&mut text, 10);
    push_decimal(&mut text, 1_234_567_890);
    assert_eq!(text, "9101234567890");
    let mut text = String::new();
    push_decimal(&mut text, u64::MAX);
    assert_eq!(text, "18446744073709551615");
}

#[test]
fn dots_for_slashes() {
    assert_eq!(dotted("java/lang/String"), "java.lang.String");
    assert_eq!(dotted("//"), "..");
    assert_eq!(dotted("Main"), "Main");
    assert_eq!(dotted(""), "");
    assert_eq!(dotted("a.b/c\u{e9}/"), "a.b.c\u{e9}.");
}

#[test]
fn error_texts() {
    assert_eq!(EndOfFile.message(), "Reached end of file");
    assert_eq!(NotSupport.message(), "Not support");
    assert_eq!(ParseError::UnsupportedVersion.message(), "unsupported version");
    assert_eq!(ParseError::UnexpectedEndOfFile.message(), "unexpected end of file");
    assert_eq!(
        ParseError::InvalidFieldType { tag: 3, position: 120 }.message(),
        "invalid field type 3, position 120"
    );
    assert_eq!(
        ParseError::UnknownSubRecord { tag: 255, position: 0 }.message(),
        "unknown sub-record 255, position 0"
    );
}

#[test]
fn errors_convert_and_classify() {
    assert_eq!(ParseError::from(EndOfFile), ParseError::UnexpectedEndOfFile);
    assert_eq!(ParseError::from(NotSupport), ParseError::UnsupportedVersion);
    assert!(ParseError::InvalidFieldType { tag: 1, position: 2 }.is_desync());
    assert!(ParseError::UnknownSubRecord { tag: 1, position: 2 }.is_desync());
    assert!(!ParseError::UnexpectedEndOfFile.is_desync());
    assert!(!ParseError::UnsupportedVersion.is_desync());
}
