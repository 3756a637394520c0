use vstd::prelude::*;

use crate::io::channel::{
    lossy_text, spec_char_of, spec_u16_at, spec_u32_at, spec_u64_at, Byte, Int, Long, Short,
};
use crate::io::error::ParseError;
use crate::io::wrapper::{
    id_bytes, ids_bytes, spec_frame, spec_header, spec_heap_summary, spec_id_at, spec_ids_at,
    spec_load_class, spec_start_thread, spec_trace_count, ChannelWrapper,
};

verus! {

/// A part of a snapshot that is decoded as a whole.
pub trait Section: Sized + View {
    /// What a payload of `len` bytes that starts at `pos` decodes to, and the
    /// offset behind its last decoded byte. No byte at or behind `limit` is
    /// read.
    spec fn parsed(data: Seq<u8>, pos: int, limit: int, id_size: u32, len: Int) -> Result<
        (Self::V, int),
        ParseError,
    >;

    /// Decodes the section at the cursor.
    fn read(reader: &mut Reader, len: Int) -> (r: Result<Self, ParseError>)
        requires
            old(reader).wf(),
            old(reader).id_size() is Some,
        ensures
            final(reader).follows(old(reader)),
            outcome(r, final(reader).cursor()) == Self::parsed(
                old(reader).bytes(),
                old(reader).cursor(),
                old(reader).limit(),
                old(reader).id_size().unwrap(),
                len,
            ),
    ;
}

/// What the section at the cursor of `reader` decodes to.
pub open spec fn decoded<T: Section>(reader: &Reader, len: Int) -> Result<(T::V, int), ParseError> {
    T::parsed(reader.bytes(), reader.cursor(), reader.limit(), reader.id_size().unwrap(), len)
}

/// The result of a read, as a model value with the offset at which the read
/// ended.
pub open spec fn outcome<T: View>(r: Result<T, ParseError>, end: int) -> Result<
    (T::V, int),
    ParseError,
> {
    match r {
        Ok(v) => Ok((v@, end)),
        Err(e) => Err(e),
    }
}

/// A name, and the identifier that stands for it elsewhere in the snapshot.
#[derive(Clone, Debug, PartialEq, Eq)]
pub struct Utf8 {
    pub symbol_id: Long,
    pub name: String,
}

/// Model of a [`Utf8`].
pub struct Utf8View {
    pub symbol_id: Long,
    pub name: Seq<char>,
}

impl View for Utf8 {
    type V = Utf8View;

    open spec fn view(&self) -> Utf8View {
        Utf8View { symbol_id: self.symbol_id, name: self.name@ }
    }
}

impl Section for Utf8 {
    open spec fn parsed(data: Seq<u8>, pos: int, limit: int, id_size: u32, len: Int) -> Result<
        (Utf8View, int),
        ParseError,
    > {
        if id_bytes(id_size) <= len && pos + len <= limit {
            Ok(
                (
                    Utf8View {
                        symbol_id: spec_id_at(data, pos, id_size),
                        name: lossy_text(data.subrange(pos + id_bytes(id_size), pos + len)),
                    },
                    pos + len,
                ),
            )
        } else {
            Err(ParseError::UnexpectedEndOfFile)
        }
    }

    fn read(reader: &mut Reader, len: Int) -> (r: Result<Self, ParseError>) {
        let (symbol_id, name) = reader.channel.read_utf8(len)?;
        Ok(Utf8 { symbol_id, name })
    }
}

/// A newly loaded class.
#[derive(Clone, Copy, Debug, PartialEq, Eq)]
pub struct Class {
    /// class object id
    pub id: Long,
    /// class serial number
    pub serial_num: Int,
    /// stack trace serial number
    pub stack_trace_ser: Int,
    /// class name id
    pub name_id: Long,
}

impl View for Class {
    type V = Class;

    open spec fn view(&self) -> Class {
        *self
    }
}

impl Section for Class {
    open spec fn parsed(data: Seq<u8>, pos: int, limit: int, id_size: u32, len: Int) -> Result<
        (Class, int),
        ParseError,
    > {
        let size = 8 + 2 * id_bytes(id_size);
        let t = spec_load_class(data, pos, id_size);
        if pos + size <= limit {
            Ok((Class { serial_num: t.0, id: t.1, stack_trace_ser: t.2, name_id: t.3 }, pos + size))
        } else {
            Err(ParseError::UnexpectedEndOfFile)
        }
    }

    fn read(reader: &mut Reader, _len: Int) -> (r: Result<Self, ParseError>) {
        let (serial_num, class_id, stack_trace_ser, name_id) = reader.channel.read_load_class()?;
        Ok(Class { serial_num, id: class_id, stack_trace_ser, name_id })
    }
}

/// A Java stack frame.
#[derive(Clone, Copy, Debug, PartialEq, Eq)]
pub struct Frame {
    /// stack frame id
    pub id: Long,
    /// method name id
    pub method_name: Long,
    /// method signature id
    pub method_sig: Long,
    /// source file name id
    pub src_file: Long,
    /// serial number of the class that owns the method
    pub class_ser_num: Int,
    /// line number
    pub line_nr: Int,
}

impl View for Frame {
    type V = Frame;

    open spec fn view(&self) -> Frame {
        *self
    }
}

impl Section for Frame {
    open spec fn parsed(data: Seq<u8>, pos: int, limit: int, id_size: u32, len: Int) -> Result<
        (Frame, int),
        ParseError,
    > {
        let size = 8 + 4 * id_bytes(id_size);
        let t = spec_frame(data, pos, id_size);
        if pos + size <= limit {
            Ok(
                (
                    Frame {
                        id: t.0,
                        method_name: t.1,
                        method_sig: t.2,
                        src_file: t.3,
                        class_ser_num: t.4,
                        line_nr: t.5,
                    },
                    pos + size,
                ),
            )
        } else {
            Err(ParseError::UnexpectedEndOfFile)
        }
    }

    fn read(reader: &mut Reader, _len: Int) -> (r: Result<Self, ParseError>) {
        let (frame_id, method_name, method_sig, src_file, class_ser_num, line_nr) =
            reader.channel.read_frame()?;
        Ok(Frame { id: frame_id, method_name, method_sig, src_file, class_ser_num, line_nr })
    }
}

/// A Java stack trace: the ids of its frames, innermost first.
#[derive(Clone, Debug, PartialEq, Eq)]
pub struct Trace {
    pub stack_trace_nr: Int,
    pub thread_nr: Int,
    pub frame_ids: Vec<u64>,
}

/// Model of a [`Trace`].
pub struct TraceView {
    pub stack_trace_nr: Int,
    pub thread_nr: Int,
    pub frame_ids: Seq<u64>,
}

impl View for Trace {
    type V = TraceView;

    open spec fn view(&self) -> TraceView {
        TraceView {
            stack_trace_nr: self.stack_trace_nr,
            thread_nr: self.thread_nr,
            frame_ids: self.frame_ids@,
        }
    }
}

impl Section for Trace {
    open spec fn parsed(data: Seq<u8>, pos: int, limit: int, id_size: u32, len: Int) -> Result<
        (TraceView, int),
        ParseError,
    > {
        let count = spec_trace_count(data, pos);
        let size = 12 + ids_bytes(count, id_size);
        if pos + 12 <= limit && pos + size <= limit {
            Ok(
                (
                    TraceView {
                        stack_trace_nr: spec_u32_at(data, pos),
                        thread_nr: spec_u32_at(data, pos + 4),
                        frame_ids: spec_ids_at(data, pos + 12, count, id_size),
                    },
                    pos + size,
                ),
            )
        } else {
            Err(ParseError::UnexpectedEndOfFile)
        }
    }

    fn read(reader: &mut Reader, _len: Int) -> (r: Result<Self, ParseError>) {
        let (stack_trace_nr, thread_nr, frame_ids) = reader.channel.read_hprof_trace()?;
        Ok(Trace { stack_trace_nr, thread_nr, frame_ids })
    }
}

/// A newly started thread.
#[derive(Clone, Copy, Debug, PartialEq, Eq)]
pub struct StartThread {
    pub thread_serial_num: Int,
    pub thread_obj_id: Long,
    pub trace_serial_num: Int,
    /// thread name id
    pub t_name_index: Long,
    /// thread group name id
    pub g_name_index: Long,
    /// parent thread group name id
    pub p_name_index: Long,
}

impl View for StartThread {
    type V = StartThread;

    open spec fn view(&self) -> StartThread {
        *self
    }
}

impl Section for StartThread {
    open spec fn parsed(data: Seq<u8>, pos: int, limit: int, id_size: u32, len: Int) -> Result<
        (StartThread, int),
        ParseError,
    > {
        let size = 8 + 4 * id_bytes(id_size);
        let t = spec_start_thread(data, pos, id_size);
        if pos + size <= limit {
            Ok(
                (
                    StartThread {
                        thread_serial_num: t.0,
                        thread_obj_id: t.1,
                        trace_serial_num: t.2,
                        t_name_index: t.3,
                        g_name_index: t.4,
                        p_name_index: t.5,
                    },
                    pos + size,
                ),
            )
        } else {
            Err(ParseError::UnexpectedEndOfFile)
        }
    }

    fn read(reader: &mut Reader, _len: Int) -> (r: Result<Self, ParseError>) {
        let (
            thread_serial_num,
            thread_obj_id,
            trace_serial_num,
            t_name_index,
            g_name_index,
            p_name_index,
            _,
        ) = reader.channel.read_start_thread()?;
        Ok(
            StartThread {
                trace_serial_num,
                thread_obj_id,
                thread_serial_num,
                t_name_index,
                g_name_index,
                p_name_index,
            },
        )
    }
}

/// A heap summary. The numbers are those of one record, not running totals.
#[derive(Clone, Copy, Debug, PartialEq, Eq)]
pub struct HeapSummary {
    /// total live bytes
    pub live: Int,
    /// total live instances
    pub live_inst: Int,
    /// total bytes allocated
    pub allocate: Long,
    /// total instances allocated
    pub allocate_inst: Long,
}

impl View for HeapSummary {
    type V = HeapSummary;

    open spec fn view(&self) -> HeapSummary {
        *self
    }
}

impl Section for HeapSummary {
    open spec fn parsed(data: Seq<u8>, pos: int, limit: int, id_size: u32, len: Int) -> Result<
        (HeapSummary, int),
        ParseError,
    > {
        let t = spec_heap_summary(data, pos);
        if pos + 24 <= limit {
            Ok(
                (
                    HeapSummary { live: t.0, live_inst: t.1, allocate: t.2, allocate_inst: t.3 },
                    pos + 24,
                ),
            )
        } else {
            Err(ParseError::UnexpectedEndOfFile)
        }
    }

    fn read(reader: &mut Reader, _len: Int) -> (r: Result<Self, ParseError>) {
        let (live, live_inst, allocate, allocate_inst) = reader.channel.read_heap_summary()?;
        Ok(HeapSummary { live, live_inst, allocate, allocate_inst })
    }
}

/// A set of sample traces of running threads. Only the total number of
/// samples is kept; the traces are passed over.
#[derive(Clone, Copy, Debug, PartialEq, Eq)]
pub struct CpuSamples {
    /// total number of samples
    pub num: Int,
}

impl View for CpuSamples {
    type V = CpuSamples;

    open spec fn view(&self) -> CpuSamples {
        *self
    }
}

impl Section for CpuSamples {
    open spec fn parsed(data: Seq<u8>, pos: int, limit: int, id_size: u32, len: Int) -> Result<
        (CpuSamples, int),
        ParseError,
    > {
        let size = 8 + 8 * spec_u32_at(data, pos + 4);
        if pos + 8 <= limit && pos + size <= limit {
            Ok((CpuSamples { num: spec_u32_at(data, pos) }, pos + size))
        } else {
            Err(ParseError::UnexpectedEndOfFile)
        }
    }

    fn read(reader: &mut Reader, _len: Int) -> (r: Result<Self, ParseError>) {
        let total_num: u32 = reader.read_int()?;
        let trace_count: u32 = reader.read_int()?;
        // each trace: number of samples, stack trace serial number
        reader.skip_long(8 * (trace_count as u64))?;
        Ok(CpuSamples { num: total_num })
    }
}

/// The settings of the profiler's switches.
#[derive(Clone, Copy, Debug, PartialEq, Eq)]
pub struct ControlSettings {
    /// 0x00000001: alloc traces on/off
    /// 0x00000002: cpu sampling on/off
    pub flags: Int,
    /// stack trace depth
    pub depth: Short,
}

impl View for ControlSettings {
    type V = ControlSettings;

    open spec fn view(&self) -> ControlSettings {
        *self
    }
}

impl Section for ControlSettings {
    open spec fn parsed(data: Seq<u8>, pos: int, limit: int, id_size: u32, len: Int) -> Result<
        (ControlSettings, int),
        ParseError,
    > {
        if pos + 6 <= limit {
            Ok(
                (
                    ControlSettings {
                        flags: spec_u32_at(data, pos),
                        depth: spec_u16_at(data, pos + 4),
                    },
                    pos + 6,
                ),
            )
        } else {
            Err(ParseError::UnexpectedEndOfFile)
        }
    }

    fn read(reader: &mut Reader, _len: Int) -> (r: Result<Self, ParseError>) {
        let flags: u32 = reader.read_int()?;
        let depth: u16 = reader.read_short()?;
        Ok(ControlSettings { flags, depth })
    }
}

/// Number of bytes of the fixed part of an allocation-sites payload: flags,
/// cutoff ratio, live bytes, live instances, bytes allocated, instances
/// allocated, number of sites.
pub const ALLOC_SITES_BYTES: u32 = 34;

/// A set of heap allocation sites. Its fixed part is read and nothing of it
/// is kept; the sites themselves are left where they are.
#[derive(Clone, Copy, Debug, PartialEq, Eq)]
pub struct AllocSites {}

impl View for AllocSites {
    type V = AllocSites;

    open spec fn view(&self) -> AllocSites {
        *self
    }
}

impl Section for AllocSites {
    open spec fn parsed(data: Seq<u8>, pos: int, limit: int, id_size: u32, len: Int) -> Result<
        (AllocSites, int),
        ParseError,
    > {
        if pos + ALLOC_SITES_BYTES <= limit {
            Ok((AllocSites {  }, pos + ALLOC_SITES_BYTES))
        } else {
            Err(ParseError::UnexpectedEndOfFile)
        }
    }

    fn read(reader: &mut Reader, _len: Int) -> (r: Result<Self, ParseError>) {
        reader.skip(ALLOC_SITES_BYTES)?;
        Ok(AllocSites {  })
    }
}

/// A snapshot reader: the bytes, the cursor, and the identifier size.
pub struct Reader {
    channel: ChannelWrapper,
}

impl Reader {
    /// All bytes of the snapshot.
    pub closed spec fn bytes(&self) -> Seq<u8> {
        self.channel.bytes()
    }

    /// Offset of the next byte to read.
    pub closed spec fn cursor(&self) -> int {
        self.channel.cursor()
    }

    /// Offset at which the readable region ends.
    pub closed spec fn limit(&self) -> int {
        self.channel.limit()
    }

    /// The identifier size that the header declared, once it has been read.
    pub closed spec fn id_size(&self) -> Option<u32> {
        self.channel.id_size()
    }

    /// The cursor lies in the readable region, and the region in the file.
    pub open spec fn wf(&self) -> bool {
        0 <= self.cursor() <= self.limit() <= self.bytes().len() <= usize::MAX
    }

    /// Whether `n` more bytes can be read.
    pub open spec fn has(&self, n: int) -> bool {
        self.cursor() + n <= self.limit()
    }

    /// Number of bytes of one identifier.
    pub open spec fn width(&self) -> int {
        id_bytes(self.id_size().unwrap())
    }

    /// `self` reads the same file as `before`, with the same identifier size.
    pub open spec fn same_file(&self, before: &Reader) -> bool {
        &&& self.wf()
        &&& self.bytes() == before.bytes()
        &&& self.id_size() == before.id_size()
    }

    /// `self` is `before` after some reading: the same file, identifier size
    /// and readable region, and a cursor that has not moved back.
    pub open spec fn follows(&self, before: &Reader) -> bool {
        &&& self.same_file(before)
        &&& self.limit() == before.limit()
        &&& before.cursor() <= self.cursor()
    }

    /// Starts reading the bytes of a snapshot at their beginning.
    pub fn new(data: Vec<u8>) -> (reader: Reader)
        ensures
            reader.wf(),
            reader.bytes() == data@,
            reader.cursor() == 0,
            reader.limit() == data@.len(),
            reader.id_size() is None,
    {
        Reader { channel: ChannelWrapper::wrapper(data) }
    }

    /// Decodes the section at the cursor.
    pub fn read<T: Section>(&mut self, len: Int) -> (r: Result<T, ParseError>)
        requires
            old(self).wf(),
            old(self).id_size() is Some,
        ensures
            final(self).follows(old(self)),
            outcome(r, final(self).cursor()) == decoded::<T>(old(self), len),
    {
        T::read(self, len)
    }

    /// Total number of bytes of the snapshot.
    pub fn size(&self) -> (n: u64)
        ensures
            n == self.bytes().len(),
    {
        self.channel.size()
    }

    /// Offset of the next byte to read.
    pub fn position(&self) -> (pos: u64)
        ensures
            pos == self.cursor(),
    {
        self.channel.position()
    }

    /// Number of bytes left in the readable region.
    pub fn remaining(&self) -> (n: usize)
        requires
            self.wf(),
        ensures
            n == self.limit() - self.cursor(),
    {
        self.channel.remaining()
    }

    /// Reads the header of a top-level record: tag, time offset in
    /// microseconds, and length of the payload. Fails, reading nothing, if
    /// fewer than nine bytes are left.
    pub fn get_header(&mut self) -> (r: Result<(Byte, Int, Int), ParseError>)
        requires
            old(self).wf(),
        ensures
            final(self).follows(old(self)),
            r is Ok <==> old(self).has(9),
            r matches Ok(v) ==> v == spec_header(old(self).bytes(), old(self).cursor())
                && final(self).cursor() == old(self).cursor() + 9,
            r matches Err(e) ==> e == ParseError::UnexpectedEndOfFile && final(self).cursor()
                == old(self).cursor(),
    {
        self.channel.read_header()
    }

    /// Reads one identifier and widens it to 64 bits.
    pub fn get_id(&mut self) -> (r: Result<Long, ParseError>)
        requires
            old(self).wf(),
            old(self).id_size() is Some,
        ensures
            final(self).follows(old(self)),
            r is Ok <==> old(self).has(old(self).width()),
            r matches Ok(v) ==> v == spec_id_at(
                old(self).bytes(),
                old(self).cursor(),
                old(self).id_size().unwrap(),
            ) && final(self).cursor() == old(self).cursor() + old(self).width(),
            r matches Err(e) ==> e == ParseError::UnexpectedEndOfFile && final(self).cursor()
                == old(self).cursor(),
    {
        self.channel.read_id()
    }

    /// Reads `count` identifiers. Fails, reading nothing, if the readable
    /// region holds fewer.
    pub fn get_ids(&mut self, count: u32) -> (r: Result<Vec<Long>, ParseError>)
        requires
            old(self).wf(),
            old(self).id_size() is Some,
        ensures
            final(self).follows(old(self)),
            r is Ok <==> old(self).has(ids_bytes(count as int, old(self).id_size().unwrap())),
            r matches Ok(ids) ==> ids@ == spec_ids_at(
                old(self).bytes(),
                old(self).cursor(),
                count as int,
                old(self).id_size().unwrap(),
            ) && final(self).cursor() == old(self).cursor() + ids_bytes(
                count as int,
                old(self).id_size().unwrap(),
            ),
            r matches Err(e) ==> e == ParseError::UnexpectedEndOfFile && final(self).cursor()
                == old(self).cursor(),
    {
        self.channel.read_ids(count)
    }

    /// Reads the base timestamp of the header, in milliseconds.
    pub fn get_timestamp(&mut self) -> (r: Result<Long, ParseError>)
        requires
            old(self).wf(),
        ensures
            final(self).follows(old(self)),
            r is Ok <==> old(self).has(8),
            r matches Ok(v) ==> v == spec_u64_at(old(self).bytes(), old(self).cursor())
                && final(self).cursor() == old(self).cursor() + 8,
            r matches Err(e) ==> e == ParseError::UnexpectedEndOfFile && final(self).cursor()
                == old(self).cursor(),
    {
        self.channel.read_long()
    }

    /// The identifier size of the file. The first call reads it from the
    /// four bytes at the cursor; later calls return what the first one read
    /// and read nothing.
    pub fn get_id_size(&mut self) -> (r: Result<Int, ParseError>)
        requires
            old(self).wf(),
        ensures
            final(self).wf(),
            final(self).bytes() == old(self).bytes(),
            final(self).limit() == old(self).limit(),
            match old(self).id_size() {
                Some(known) => r == Ok::<u32, ParseError>(known) && final(self).follows(old(self))
                    && final(self).cursor() == old(self).cursor(),
                None => match r {
                    Ok(v) => {
                        &&& old(self).has(4)
                        &&& v == spec_u32_at(old(self).bytes(), old(self).cursor())
                        &&& final(self).id_size() == Some(v)
                        &&& final(self).cursor() == old(self).cursor() + 4
                    },
                    Err(e) => {
                        &&& !old(self).has(4)
                        &&& e == ParseError::UnexpectedEndOfFile
                        &&& final(self).follows(old(self))
                        &&& final(self).cursor() == old(self).cursor()
                    },
                },
            },
    {
        self.channel.read_id_size()
    }

    /// Reads one byte.
    pub fn read_byte(&mut self) -> (r: Result<Byte, ParseError>)
        requires
            old(self).wf(),
        ensures
            final(self).follows(old(self)),
            r is Ok <==> old(self).has(1),
            r matches Ok(v) ==> v == old(self).bytes()[old(self).cursor()] && final(self).cursor()
                == old(self).cursor() + 1,
            r matches Err(e) ==> e == ParseError::UnexpectedEndOfFile && final(self).cursor()
                == old(self).cursor(),
    {
        self.channel.read_byte()
    }

    /// Reads a big-endian 32-bit number.
    pub fn read_int(&mut self) -> (r: Result<Int, ParseError>)
        requires
            old(self).wf(),
        ensures
            final(self).follows(old(self)),
            r is Ok <==> old(self).has(4),
            r matches Ok(v) ==> v == spec_u32_at(old(self).bytes(), old(self).cursor())
                && final(self).cursor() == old(self).cursor() + 4,
            r matches Err(e) ==> e == ParseError::UnexpectedEndOfFile && final(self).cursor()
                == old(self).cursor(),
    {
        self.channel.read_int()
    }

    /// Reads a big-endian 64-bit number.
    pub fn read_long(&mut self) -> (r: Result<Long, ParseError>)
        requires
            old(self).wf(),
        ensures
            final(self).follows(old(self)),
            r is Ok <==> old(self).has(8),
            r matches Ok(v) ==> v == spec_u64_at(old(self).bytes(), old(self).cursor())
                && final(self).cursor() == old(self).cursor() + 8,
            r matches Err(e) ==> e == ParseError::UnexpectedEndOfFile && final(self).cursor()
                == old(self).cursor(),
    {
        self.channel.read_long()
    }

    /// Reads one byte as a character.
    pub fn read_char(&mut self) -> (r: Result<char, ParseError>)
        requires
            old(self).wf(),
        ensures
            final(self).follows(old(self)),
            r is Ok <==> old(self).has(1),
            r matches Ok(v) ==> v == spec_char_of(old(self).bytes()[old(self).cursor()])
                && final(self).cursor() == old(self).cursor() + 1,
            r matches Err(e) ==> e == ParseError::UnexpectedEndOfFile && final(self).cursor()
                == old(self).cursor(),
    {
        self.channel.read_char()
    }

    /// Reads a big-endian 16-bit number.
    pub fn read_short(&mut self) -> (r: Result<Short, ParseError>)
        requires
            old(self).wf(),
        ensures
            final(self).follows(old(self)),
            r is Ok <==> old(self).has(2),
            r matches Ok(v) ==> v == spec_u16_at(old(self).bytes(), old(self).cursor())
                && final(self).cursor() == old(self).cursor() + 2,
            r matches Err(e) ==> e == ParseError::UnexpectedEndOfFile && final(self).cursor()
                == old(self).cursor(),
    {
        self.channel.read_short()
    }

    /// Moves the cursor forward by `len` bytes, or fails and leaves it where
    /// it is if the readable region holds fewer.
    pub fn skip(&mut self, len: Int) -> (r: Result<(), ParseError>)
        requires
            old(self).wf(),
        ensures
            final(self).follows(old(self)),
            r is Ok <==> old(self).has(len as int),
            r is Ok ==> final(self).cursor() == old(self).cursor() + len,
            r matches Err(e) ==> e == ParseError::UnexpectedEndOfFile && final(self).cursor()
                == old(self).cursor(),
    {
        self.channel.skip(len)
    }

    /// Moves the cursor forward by `len` bytes, for lengths beyond 32 bits.
    pub fn skip_long(&mut self, len: u64) -> (r: Result<(), ParseError>)
        requires
            old(self).wf(),
        ensures
            final(self).follows(old(self)),
            r is Ok <==> old(self).has(len as int),
            r is Ok ==> final(self).cursor() == old(self).cursor() + len,
            r matches Err(e) ==> e == ParseError::UnexpectedEndOfFile && final(self).cursor()
                == old(self).cursor(),
    {
        self.channel.skip_long(len)
    }

    /// Confines reading to the next `len` bytes, the payload of one record,
    /// and returns the end of the region that was readable before.
    pub fn enter(&mut self, len: Int) -> (r: Result<usize, ParseError>)
        requires
            old(self).wf(),
        ensures
            final(self).same_file(old(self)),
            final(self).cursor() == old(self).cursor(),
            r is Ok <==> old(self).has(len as int),
            r matches Ok(outer) ==> outer == old(self).limit() && final(self).limit() == old(
                self,
            ).cursor() + len,
            r matches Err(e) ==> e == ParseError::UnexpectedEndOfFile && final(self).limit()
                == old(self).limit(),
    {
        self.channel.enter(len)
    }

    /// Passes over what is left of the readable region and makes the file
    /// readable up to `outer`.
    pub fn leave(&mut self, outer: usize)
        requires
            old(self).wf(),
            old(self).limit() <= outer <= old(self).bytes().len(),
        ensures
            final(self).same_file(old(self)),
            final(self).cursor() == old(self).limit(),
            final(self).limit() == outer,
    {
        self.channel.leave(outer);
    }

    /// The identifier size that the header declared.
    pub fn known_id_size(&self) -> (size: Int)
        requires
            self.id_size() is Some,
        ensures
            Some(size) == self.id_size(),
    {
        self.channel.known_id_size()
    }
}

} // verus!
