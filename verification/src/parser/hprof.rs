use std::collections::HashMap;
use vstd::prelude::*;

use crate::io::channel::{spec_char_of, spec_u32_at, spec_u64_at, Byte, Int, Long};
use crate::io::error::ParseError;
use crate::io::text::{decimal_text, dotted, dotted_text, push_decimal};
use crate::io::wrapper::spec_header;
use crate::model::snapshot::{Snapshot, SnapshotView};
use crate::parser::dump::{get_heap_dump, spec_heap_dump, Dump, SubRecordView};
use crate::parser::reader::{
    outcome, Class, Frame, HeapSummary, Reader, Section, StartThread, Trace, TraceView, Utf8,
    Utf8View,
};

verus! {

broadcast use vstd::std_specs::hash::group_hash_axioms;

pub const HPROF_HEADER_101: &'static str = "JAVA PROFILE 1.0.1";

pub const HPROF_HEADER_102: &'static str = "JAVA PROFILE 1.0.2";

/// The most bytes that are read in search of the end of the version string.
pub const VERSION_CAP: usize = 19;

/// What stands for the name of an identifier that no symbol record defines;
/// the identifier follows it in decimal.
pub const UNRESOLVED: &'static str = "unresolved name ";

pub const HPROF_UTF8: u8 = 0x01;

pub const HPROF_LOAD_CLASS: u8 = 0x02;

pub const HPROF_UNLOAD_CLASS: u8 = 0x03;

pub const HPROF_FRAME: u8 = 0x04;

pub const HPROF_TRACE: u8 = 0x05;

pub const HPROF_ALLOC_SITES: u8 = 0x06;

pub const HPROF_HEAP_SUMMARY: u8 = 0x07;

pub const HPROF_START_THREAD: u8 = 0x0A;

pub const HPROF_END_THREAD: u8 = 0x0B;

pub const HPROF_HEAP_DUMP: u8 = 0x0C;

pub const HPROF_CPU_SAMPLES: u8 = 0x0D;

pub const HPROF_CONTROL_SETTINGS: u8 = 0x0E;

pub const HPROF_HEAP_DUMP_SEGMENT: u8 = 0x1C;

pub const HPROF_HEAP_DUMP_END: u8 = 0x2C;

/// The names that a map of symbols holds, as plain text.
pub open spec fn names(symbols: Map<Long, String>) -> Map<Long, Seq<char>> {
    symbols.map_values(|name: String| name@)
}

/// The display name of the identifier `id`: nothing for the identifier 0,
/// the name with dots for slashes where a symbol defines it, and a
/// placeholder that holds the identifier where none does.
pub open spec fn spec_name_from_id(id: Long, symbols: Map<Long, Seq<char>>) -> Seq<char> {
    if id == 0 {
        Seq::empty()
    } else if symbols.contains_key(id) {
        dotted_text(symbols[id])
    } else {
        UNRESOLVED@ + decimal_text(id as nat)
    }
}

/// The display name of the identifier `id` under the symbols read so far.
/// An identifier without a symbol is no error.
pub fn get_name_from_id(id: &Long, symbols: &HashMap<Long, String>) -> (name: String)
    ensures
        name@ == spec_name_from_id(*id, names(symbols@)),
{
    if *id == 0 {
        return String::new();
    }
    match symbols.get(id) {
        None => {
            let mut name = String::from_str(UNRESOLVED);
            push_decimal(&mut name, *id);
            name
        },
        Some(name) => dotted(name.as_str()),
    }
}

/// Number of bytes in front of the end of the version string at `pos`,
/// counted from the `n`-th on: the string ends at a zero byte, at `limit`,
/// or after `VERSION_CAP` bytes.
pub open spec fn spec_version_len(data: Seq<u8>, pos: int, limit: int, n: int) -> int
    decreases VERSION_CAP - n,
{
    if n >= VERSION_CAP || pos + n >= limit || data[pos + n] == 0 {
        n
    } else {
        spec_version_len(data, pos, limit, n + 1)
    }
}

/// The `n` bytes at `pos` as characters.
pub open spec fn spec_chars_at(data: Seq<u8>, pos: int, n: int) -> Seq<char> {
    Seq::new(n as nat, |i: int| spec_char_of(data[pos + i]))
}

/// What reading the version string at `pos` gives: the version and the
/// offset behind its terminator. A string that ends at `limit` without a
/// terminator is cut short; one that is not a known version is unsupported,
/// and so is one of `VERSION_CAP` bytes without a terminator.
pub open spec fn spec_version(data: Seq<u8>, pos: int, limit: int) -> Result<
    (Seq<char>, int),
    ParseError,
> {
    let n = spec_version_len(data, pos, limit, 0);
    let text = spec_chars_at(data, pos, n);
    if n < VERSION_CAP && pos + n >= limit {
        Err(ParseError::UnexpectedEndOfFile)
    } else if text == HPROF_HEADER_101@ || text == HPROF_HEADER_102@ {
        Ok((text, pos + n + 1))
    } else {
        Err(ParseError::UnsupportedVersion)
    }
}

/// Reads the version string at the cursor and checks that it is a known one.
pub fn read_version(reader: &mut Reader) -> (r: Result<String, ParseError>)
    requires
        old(reader).wf(),
    ensures
        final(reader).follows(old(reader)),
        outcome(r, final(reader).cursor()) == spec_version(
            old(reader).bytes(),
            old(reader).cursor(),
            old(reader).limit(),
        ),
{
    let ghost data = reader.bytes();
    let ghost start = reader.cursor();
    let ghost limit = reader.limit();
    let mut version = String::new();
    let mut n: usize = 0;
    let mut done = false;
    assert(version@ =~= spec_chars_at(data, start, 0));
    while n < VERSION_CAP && !done
        invariant
            reader.follows(old(reader)),
            data == reader.bytes(),
            start == old(reader).cursor(),
            limit == reader.limit(),
            n <= VERSION_CAP,
            reader.cursor() == start + n + if done {
                1int
            } else {
                0int
            },
            version@ == spec_chars_at(data, start, n as int),
            spec_version_len(data, start, limit, 0) == spec_version_len(data, start, limit, n as int),
            done ==> n < VERSION_CAP && start + n < limit && data[start + n] == 0,
        decreases VERSION_CAP - n + if done {
            0int
        } else {
            1int
        },
    {
        let c: char = reader.read_char()?;
        if c == '\0' {
            done = true;
        } else {
            version.push(c);
            n = n + 1;
            assert(version@ =~= spec_chars_at(data, start, n as int));
        }
    }
    proof {
        // a known version is shorter than the cap, so a terminator ended it
        reveal_strlit("JAVA PROFILE 1.0.1");
        reveal_strlit("JAVA PROFILE 1.0.2");
    }
    let known_101 = String::from_str(HPROF_HEADER_101);
    let known_102 = String::from_str(HPROF_HEADER_102);
    if version != known_101 && version != known_102 {
        return Err(ParseError::UnsupportedVersion);
    }
    Ok(version)
}

/// What the header of a snapshot at `pos` gives: the version string, the
/// identifier size in four bytes, the base timestamp in eight; and the
/// offset of the first record.
pub open spec fn spec_preamble(data: Seq<u8>, pos: int, limit: int) -> Result<
    (SnapshotView, int),
    ParseError,
> {
    match spec_version(data, pos, limit) {
        Err(e) => Err(e),
        Ok((version, first)) => if first + 12 <= limit {
            Ok(
                (
                    SnapshotView {
                        id_size: spec_u32_at(data, first),
                        version,
                        timestamp: spec_u64_at(data, first + 4),
                    },
                    first + 12,
                ),
            )
        } else {
            Err(ParseError::UnexpectedEndOfFile)
        },
    }
}

/// Reads the header of a snapshot. From then on the reader knows the size
/// of an identifier.
pub fn read_preamble(reader: &mut Reader) -> (r: Result<Snapshot, ParseError>)
    requires
        old(reader).wf(),
        old(reader).id_size() is None,
    ensures
        final(reader).wf(),
        final(reader).bytes() == old(reader).bytes(),
        final(reader).limit() == old(reader).limit(),
        outcome(r, final(reader).cursor()) == spec_preamble(
            old(reader).bytes(),
            old(reader).cursor(),
            old(reader).limit(),
        ),
        r matches Ok(snapshot) ==> final(reader).id_size() == Some(snapshot@.id_size),
{
    let version = read_version(reader)?;
    let id_size: u32 = reader.get_id_size()?;
    let timestamp: u64 = reader.get_timestamp()?;
    Ok(Snapshot::new(id_size, version, timestamp))
}

/// The payload of a top-level record.
#[derive(Clone, Debug, PartialEq, Eq)]
pub enum Record {
    /// a name and its identifier
    Utf8(Utf8),
    /// a newly loaded class
    LoadClass(Class),
    /// an unloaded class, by its serial number
    UnloadClass(Int),
    /// a Java stack frame
    Frame(Frame),
    /// a Java stack trace
    Trace(Trace),
    /// a newly started thread
    StartThread(StartThread),
    /// a terminated thread, by its serial number
    EndThread(Int),
    /// a heap summary
    HeapSummary(HeapSummary),
    /// a heap dump, or a segment of one
    HeapDump(Dump),
    /// a record of any other kind, passed over
    Other,
}

/// Model of a [`Record`].
pub enum RecordView {
    Utf8(Utf8View),
    LoadClass(Class),
    UnloadClass(Int),
    Frame(Frame),
    Trace(TraceView),
    StartThread(StartThread),
    EndThread(Int),
    HeapSummary(HeapSummary),
    HeapDump(Seq<SubRecordView>),
    Other,
}

impl View for Record {
    type V = RecordView;

    open spec fn view(&self) -> RecordView {
        match self {
            Record::Utf8(utf8) => RecordView::Utf8(utf8@),
            Record::LoadClass(class) => RecordView::LoadClass(*class),
            Record::UnloadClass(serial) => RecordView::UnloadClass(*serial),
            Record::Frame(frame) => RecordView::Frame(*frame),
            Record::Trace(trace) => RecordView::Trace(trace@),
            Record::StartThread(thread) => RecordView::StartThread(*thread),
            Record::EndThread(serial) => RecordView::EndThread(*serial),
            Record::HeapSummary(summary) => RecordView::HeapSummary(*summary),
            Record::HeapDump(dump) => RecordView::HeapDump(dump@),
            Record::Other => RecordView::Other,
        }
    }
}

/// A top-level record: what its header says, and its payload.
#[derive(Clone, Debug, PartialEq, Eq)]
pub struct Entry {
    /// kind of the record
    pub tag: Byte,
    /// microseconds since the base timestamp of the header
    pub time: Int,
    /// number of bytes of the payload
    pub length: Int,
    /// the payload
    pub record: Record,
}

/// Model of an [`Entry`].
pub struct EntryView {
    pub tag: Byte,
    pub time: Int,
    pub length: Int,
    pub record: RecordView,
}

impl View for Entry {
    type V = EntryView;

    open spec fn view(&self) -> EntryView {
        EntryView { tag: self.tag, time: self.time, length: self.length, record: self.record@ }
    }
}

/// The models of a sequence of entries.
pub open spec fn entry_views(entries: Seq<Entry>) -> Seq<EntryView> {
    entries.map_values(|e: Entry| e@)
}

/// Whether a record of kind `tag` holds sub-records of a heap dump.
pub open spec fn spec_is_heap_dump(tag: Byte) -> bool {
    tag == HPROF_HEAP_DUMP || tag == HPROF_HEAP_DUMP_SEGMENT || tag == HPROF_HEAP_DUMP_END
}

/// What the payload of a record of kind `tag` decodes to. The payload is
/// the bytes from `pos` up to `end`; what a record of a known kind leaves
/// undecoded at its end is passed over, and so is the whole payload of a
/// record of any other kind.
pub open spec fn spec_payload(data: Seq<u8>, tag: Byte, pos: int, end: int, id_size: u32) -> Result<
    RecordView,
    ParseError,
> {
    let len = (end - pos) as Int;
    if tag == HPROF_UTF8 {
        match Utf8::parsed(data, pos, end, id_size, len) {
            Ok((utf8, _)) => Ok(RecordView::Utf8(utf8)),
            Err(e) => Err(e),
        }
    } else if tag == HPROF_LOAD_CLASS {
        match Class::parsed(data, pos, end, id_size, len) {
            Ok((class, _)) => Ok(RecordView::LoadClass(class)),
            Err(e) => Err(e),
        }
    } else if tag == HPROF_UNLOAD_CLASS {
        if pos + 4 <= end {
            Ok(RecordView::UnloadClass(spec_u32_at(data, pos)))
        } else {
            Err(ParseError::UnexpectedEndOfFile)
        }
    } else if tag == HPROF_FRAME {
        match Frame::parsed(data, pos, end, id_size, len) {
            Ok((frame, _)) => Ok(RecordView::Frame(frame)),
            Err(e) => Err(e),
        }
    } else if tag == HPROF_TRACE {
        match Trace::parsed(data, pos, end, id_size, len) {
            Ok((trace, _)) => Ok(RecordView::Trace(trace)),
            Err(e) => Err(e),
        }
    } else if tag == HPROF_START_THREAD {
        match StartThread::parsed(data, pos, end, id_size, len) {
            Ok((thread, _)) => Ok(RecordView::StartThread(thread)),
            Err(e) => Err(e),
        }
    } else if tag == HPROF_END_THREAD {
        if pos + 4 <= end {
            Ok(RecordView::EndThread(spec_u32_at(data, pos)))
        } else {
            Err(ParseError::UnexpectedEndOfFile)
        }
    } else if tag == HPROF_HEAP_SUMMARY {
        match HeapSummary::parsed(data, pos, end, id_size, len) {
            Ok((summary, _)) => Ok(RecordView::HeapSummary(summary)),
            Err(e) => Err(e),
        }
    } else if spec_is_heap_dump(tag) {
        match spec_heap_dump(data, pos, end, id_size, len) {
            Ok((records, _)) => Ok(RecordView::HeapDump(records)),
            Err(e) => Err(e),
        }
    } else {
        Ok(RecordView::Other)
    }
}

/// What the top-level record whose header stands at `pos` decodes to, and
/// the offset behind it, which is `pos + 9 + length` whatever its kind. A
/// header or a payload that the file does not hold in full is cut short.
pub open spec fn spec_record(data: Seq<u8>, pos: int, id_size: u32) -> Result<
    (EntryView, int),
    ParseError,
> {
    let (tag, time, length) = spec_header(data, pos);
    let body = pos + 9;
    let end = body + length;
    if body > data.len() || end > data.len() {
        Err(ParseError::UnexpectedEndOfFile)
    } else {
        match spec_payload(data, tag, body, end, id_size) {
            Ok(record) => Ok((EntryView { tag, time, length, record }, end)),
            Err(e) => Err(e),
        }
    }
}

/// Decodes the payload of a record of kind `tag` and `len` bytes. The
/// readable region is the payload.
fn read_payload(reader: &mut Reader, tag: Byte, len: Int) -> (r: Result<Record, ParseError>)
    requires
        old(reader).wf(),
        old(reader).id_size() is Some,
        old(reader).limit() == old(reader).cursor() + len,
    ensures
        final(reader).same_file(old(reader)),
        r is Ok ==> final(reader).limit() == old(reader).limit(),
        match r {
            Ok(record) => Ok::<RecordView, ParseError>(record@),
            Err(e) => Err(e),
        } == spec_payload(
            old(reader).bytes(),
            tag,
            old(reader).cursor(),
            old(reader).limit(),
            old(reader).id_size().unwrap(),
        ),
{
    if tag == HPROF_UTF8 {
        Ok(Record::Utf8(reader.read::<Utf8>(len)?))
    } else if tag == HPROF_LOAD_CLASS {
        Ok(Record::LoadClass(reader.read::<Class>(len)?))
    } else if tag == HPROF_UNLOAD_CLASS {
        Ok(Record::UnloadClass(reader.read_int()?))
    } else if tag == HPROF_FRAME {
        Ok(Record::Frame(reader.read::<Frame>(len)?))
    } else if tag == HPROF_TRACE {
        Ok(Record::Trace(reader.read::<Trace>(len)?))
    } else if tag == HPROF_START_THREAD {
        Ok(Record::StartThread(reader.read::<StartThread>(len)?))
    } else if tag == HPROF_END_THREAD {
        Ok(Record::EndThread(reader.read_int()?))
    } else if tag == HPROF_HEAP_SUMMARY {
        Ok(Record::HeapSummary(reader.read::<HeapSummary>(len)?))
    } else if tag == HPROF_HEAP_DUMP || tag == HPROF_HEAP_DUMP_SEGMENT || tag
        == HPROF_HEAP_DUMP_END {
        Ok(Record::HeapDump(get_heap_dump(reader, len)?))
    } else {
        Ok(Record::Other)
    }
}

/// Reads the next top-level record: `None` where the file ends in front of
/// it. Whatever the kind of the record, the cursor ends behind its payload,
/// nine bytes and the length that the header declares from where it began.
pub fn next_record(reader: &mut Reader) -> (r: Result<Option<Entry>, ParseError>)
    requires
        old(reader).wf(),
        old(reader).id_size() is Some,
        old(reader).limit() == old(reader).bytes().len(),
    ensures
        final(reader).same_file(old(reader)),
        match r {
            Ok(None) => {
                &&& old(reader).cursor() == old(reader).bytes().len()
                &&& final(reader).cursor() == old(reader).cursor()
                &&& final(reader).limit() == old(reader).limit()
            },
            Ok(Some(entry)) => {
                &&& old(reader).cursor() < old(reader).bytes().len()
                &&& spec_record(
                    old(reader).bytes(),
                    old(reader).cursor(),
                    old(reader).id_size().unwrap(),
                ) == Ok::<(EntryView, int), ParseError>((entry@, final(reader).cursor()))
                &&& final(reader).cursor() == old(reader).cursor() + 9 + entry.length
                &&& final(reader).limit() == old(reader).limit()
            },
            Err(e) => {
                &&& old(reader).cursor() < old(reader).bytes().len()
                &&& spec_record(
                    old(reader).bytes(),
                    old(reader).cursor(),
                    old(reader).id_size().unwrap(),
                ) == Err::<(EntryView, int), ParseError>(e)
            },
        },
{
    if reader.remaining() == 0 {
        return Ok(None);
    }
    let (tag, time, length) = reader.get_header()?;
    let outer: usize = reader.enter(length)?;
    let record = read_payload(reader, tag, length)?;
    reader.leave(outer);
    Ok(Some(Entry { tag, time, length, record }))
}

/// What decoding the records from `pos` to the end of the file adds to
/// `acc`. The stream ends where a record ends at the end of the file.
pub open spec fn spec_stream(data: Seq<u8>, pos: int, id_size: u32, acc: Seq<EntryView>) -> Result<
    Seq<EntryView>,
    ParseError,
>
    decreases data.len() - pos,
{
    if pos >= data.len() {
        Ok(acc)
    } else {
        match spec_record(data, pos, id_size) {
            Err(e) => Err(e),
            Ok((entry, next)) => spec_stream(data, next, id_size, acc.push(entry)),
        }
    }
}

/// What a whole snapshot decodes to: its header and its records.
pub open spec fn spec_read(data: Seq<u8>) -> Result<(SnapshotView, Seq<EntryView>), ParseError> {
    match spec_preamble(data, 0, data.len() as int) {
        Err(e) => Err(e),
        Ok((header, pos)) => match spec_stream(data, pos, header.id_size, Seq::empty()) {
            Err(e) => Err(e),
            Ok(entries) => Ok((header, entries)),
        },
    }
}

/// A decoded snapshot.
#[derive(Clone, Debug, PartialEq, Eq)]
pub struct Hprof {
    /// name of the file that the bytes came from
    pub file_name: String,
    /// declared size of an identifier, in bytes
    pub id_size: Long,
    /// format version
    pub version: String,
    /// base timestamp, in milliseconds
    pub timestamp: Long,
    /// the records, in file order
    pub records: Vec<Entry>,
}

impl Hprof {
    /// The header that this snapshot was decoded from.
    pub open spec fn header(&self) -> SnapshotView {
        SnapshotView {
            id_size: self.id_size as u32,
            version: self.version@,
            timestamp: self.timestamp,
        }
    }
}

/// Decodes the snapshot that `data` holds: the header, then record after
/// record up to the end of the file. The pass succeeds only if every byte
/// has been taken by the header or by a record.
pub fn read(file_name: String, data: Vec<u8>) -> (r: Result<Hprof, ParseError>)
    ensures
        match r {
            Ok(hprof) => {
                &&& spec_read(data@) == Ok::<(SnapshotView, Seq<EntryView>), ParseError>(
                    (hprof.header(), entry_views(hprof.records@)),
                )
                &&& hprof.file_name == file_name
                &&& hprof.id_size <= u32::MAX
            },
            Err(e) => spec_read(data@) == Err::<(SnapshotView, Seq<EntryView>), ParseError>(e),
        },
{
    let mut reader = Reader::new(data);
    let snapshot = read_preamble(&mut reader)?;
    let ghost start = reader.cursor();
    let ghost id_size = snapshot@.id_size;
    let mut records: Vec<Entry> = Vec::new();
    assert(entry_views(records@) =~= Seq::empty());
    loop
        invariant
            reader.wf(),
            reader.bytes() == data@,
            reader.limit() == data@.len(),
            reader.id_size() == Some(id_size),
            spec_preamble(data@, 0, data@.len() as int) == Ok::<(SnapshotView, int), ParseError>(
                (snapshot@, start),
            ),
            id_size == snapshot@.id_size,
            spec_stream(data@, start, id_size, Seq::empty()) == spec_stream(
                data@,
                reader.cursor(),
                id_size,
                entry_views(records@),
            ),
        ensures
            reader.cursor() == data@.len(),
            spec_stream(data@, start, id_size, Seq::empty()) == Ok::<Seq<EntryView>, ParseError>(
                entry_views(records@),
            ),
        decreases data@.len() - reader.cursor(),
    {
        match next_record(&mut reader)? {
            None => {
                break ;
            },
            Some(entry) => {
                proof {
                    assert(entry_views(records@.push(entry)) =~= entry_views(records@).push(
                        entry@,
                    ));
                }
                records.push(entry);
            },
        }
    }
    let id_size: u32 = snapshot.get_id_size();
    let timestamp: u64 = snapshot.get_timestamp();
    let version = snapshot.get_version().clone();
    Ok(Hprof { file_name, id_size: id_size as u64, version, timestamp, records })
}

/// Number of bytes that the records `entries` take in the file: for each,
/// the nine bytes of its header and the length that the header declares.
pub open spec fn framed_bytes(entries: Seq<EntryView>) -> int
    decreases entries.len(),
{
    if entries.len() == 0 {
        0
    } else {
        framed_bytes(entries.drop_last()) + 9 + entries.last().length
    }
}

/// A record that decodes ends nine bytes and its declared length behind
/// the offset of its header, whatever its kind, and inside the file.
pub proof fn record_ends_behind_its_length(data: Seq<u8>, pos: int, id_size: u32)
    ensures
        spec_record(data, pos, id_size) matches Ok((entry, next)) ==> {
            &&& entry.tag == spec_header(data, pos).0
            &&& entry.length == spec_header(data, pos).2
            &&& next == pos + 9 + entry.length
            &&& next <= data.len()
        },
{
}

/// The records of a stream that decodes lie back to back and end at the
/// end of the file: together they take every byte from `pos` on.
pub proof fn stream_takes_every_byte(data: Seq<u8>, pos: int, id_size: u32, acc: Seq<EntryView>)
    requires
        0 <= pos <= data.len(),
    ensures
        spec_stream(data, pos, id_size, acc) matches Ok(entries) ==> framed_bytes(entries)
            == framed_bytes(acc) + data.len() - pos,
    decreases data.len() - pos,
{
    if pos < data.len() {
        if let Ok((entry, next)) = spec_record(data, pos, id_size) {
            assert(acc.push(entry).drop_last() =~= acc);
            stream_takes_every_byte(data, next, id_size, acc.push(entry));
        }
    }
}

/// A pass that succeeds has taken every byte of the file exactly once: the
/// header ends where the first record begins, and the records take the rest.
pub proof fn pass_takes_every_byte(data: Seq<u8>)
    ensures
        spec_read(data) matches Ok((header, entries)) ==> {
            &&& spec_preamble(data, 0, data.len() as int) matches Ok((first, start))
            &&& first == header
            &&& 0 <= start <= data.len()
            &&& start + framed_bytes(entries) == data.len()
        },
{
    if let Ok((header, start)) = spec_preamble(data, 0, data.len() as int) {
        assert(0 <= start <= data.len()) by {
            version_ends_forward(data, 0, data.len() as int, 0);
        }
        stream_takes_every_byte(data, start, header.id_size, Seq::empty());
    }
}

/// The scan for the end of the version string stays between its start and
/// `VERSION_CAP`.
pub proof fn version_ends_forward(data: Seq<u8>, pos: int, limit: int, n: int)
    requires
        0 <= n <= VERSION_CAP,
    ensures
        n <= spec_version_len(data, pos, limit, n) <= VERSION_CAP,
    decreases VERSION_CAP - n,
{
    if !(n >= VERSION_CAP || pos + n >= limit || data[pos + n] == 0) {
        version_ends_forward(data, pos, limit, n + 1);
    }
}

/// Resolving an identifier twice against the same symbols gives the same
/// text both times, be it a name or a placeholder.
pub proof fn resolution_repeats(id: Long, symbols: Map<Long, String>, first: String, second: String)
    requires
        first@ == spec_name_from_id(id, names(symbols)),
        second@ == spec_name_from_id(id, names(symbols)),
    ensures
        first@ == second@,
{
}

/// A symbol that is entered under another identifier leaves the
/// resolution of `id` as it was.
pub proof fn resolution_ignores_other_symbols(
    id: Long,
    symbols: Map<Long, Seq<char>>,
    other: Long,
    name: Seq<char>,
)
    requires
        other != id,
    ensures
        spec_name_from_id(id, symbols.insert(other, name)) == spec_name_from_id(id, symbols),
{
}

} // verus!
