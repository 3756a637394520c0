use vstd::prelude::*;

use crate::io::channel::{spec_char_of, spec_u32_at, spec_u64_at, lossy_text, Byte, Channel, Int, Long, Short, spec_u16_at};
use crate::io::error::{EndOfFile, ParseError};

verus! {

/// Number of bytes of a top-level record header: tag, time offset, length.
pub const HEADER_BYTES: usize = 9;

/// Number of bytes that an identifier takes in a file whose header declares
/// `id_size`: four where it declares 4, eight otherwise.
pub open spec fn id_bytes(id_size: u32) -> int {
    if id_size == 4 {
        4
    } else {
        8
    }
}

/// The identifier at `pos`, widened to 64 bits.
pub open spec fn spec_id_at(data: Seq<u8>, pos: int, id_size: u32) -> u64 {
    if id_size == 4 {
        spec_u32_at(data, pos) as u64
    } else {
        spec_u64_at(data, pos)
    }
}

/// Number of bytes that `count` identifiers take.
pub open spec fn ids_bytes(count: int, id_size: u32) -> int {
    if id_size == 4 {
        4 * count
    } else {
        8 * count
    }
}

/// The `count` identifiers that start at `pos`, in file order.
pub open spec fn spec_ids_at(data: Seq<u8>, pos: int, count: int, id_size: u32) -> Seq<u64> {
    Seq::new(count as nat, |i: int| spec_id_at(data, pos + ids_bytes(i, id_size), id_size))
}

/// Tag, time offset and payload length of the record header at `pos`.
pub open spec fn spec_header(data: Seq<u8>, pos: int) -> (Byte, Int, Int) {
    (data[pos], spec_u32_at(data, pos + 1), spec_u32_at(data, pos + 5))
}

/// Serial number, class object id, stack trace serial number and name id of
/// the load-class payload at `pos`.
pub open spec fn spec_load_class(data: Seq<u8>, pos: int, id_size: u32) -> (Int, Long, Int, Long) {
    let w = id_bytes(id_size);
    (
        spec_u32_at(data, pos),
        spec_id_at(data, pos + 4, id_size),
        spec_u32_at(data, pos + 4 + w),
        spec_id_at(data, pos + 8 + w, id_size),
    )
}

/// Frame id, method name id, method signature id, source file id, class
/// serial number and line number of the stack-frame payload at `pos`.
pub open spec fn spec_frame(data: Seq<u8>, pos: int, id_size: u32) -> (
    Long,
    Long,
    Long,
    Long,
    Int,
    Int,
) {
    let w = id_bytes(id_size);
    (
        spec_id_at(data, pos, id_size),
        spec_id_at(data, pos + w, id_size),
        spec_id_at(data, pos + 2 * w, id_size),
        spec_id_at(data, pos + 3 * w, id_size),
        spec_u32_at(data, pos + 4 * w),
        spec_u32_at(data, pos + 4 * w + 4),
    )
}

/// Number of frames that the stack-trace payload at `pos` announces.
pub open spec fn spec_trace_count(data: Seq<u8>, pos: int) -> int {
    spec_u32_at(data, pos + 8) as int
}

/// Thread serial number, thread object id, stack trace serial number, the
/// ids of thread name, group name and parent group name of the start-thread
/// payload at `pos`, and the declared identifier size.
pub open spec fn spec_start_thread(data: Seq<u8>, pos: int, id_size: u32) -> (
    Int,
    Long,
    Int,
    Long,
    Long,
    Long,
    Int,
) {
    let w = id_bytes(id_size);
    (
        spec_u32_at(data, pos),
        spec_id_at(data, pos + 4, id_size),
        spec_u32_at(data, pos + 4 + w),
        spec_id_at(data, pos + 8 + w, id_size),
        spec_id_at(data, pos + 8 + 2 * w, id_size),
        spec_id_at(data, pos + 8 + 3 * w, id_size),
        id_size,
    )
}

/// Live bytes, live instances, allocated bytes and allocated instances of
/// the heap-summary payload at `pos`.
pub open spec fn spec_heap_summary(data: Seq<u8>, pos: int) -> (Int, Int, Long, Long) {
    (
        spec_u32_at(data, pos),
        spec_u32_at(data, pos + 4),
        spec_u64_at(data, pos + 8),
        spec_u64_at(data, pos + 16),
    )
}

/// Turns the channel's end-of-file into the error of a decoding pass.
fn lift<T>(r: Result<T, EndOfFile>) -> (res: Result<T, ParseError>)
    ensures
        match r {
            Ok(v) => res == Ok::<T, ParseError>(v),
            Err(_) => res == Err::<T, ParseError>(ParseError::UnexpectedEndOfFile),
        },
{
    match r {
        Ok(v) => Ok(v),
        Err(_) => Err(ParseError::UnexpectedEndOfFile),
    }
}

/// A channel together with the identifier size of the file it reads.
///
/// The size is unknown until `read_id_size` has read it from the header;
/// from then on it never changes.
pub struct ChannelWrapper {
    channel: Channel,
    id_size: Option<u32>,
}

impl ChannelWrapper {
    /// All bytes of the snapshot.
    pub closed spec fn bytes(&self) -> Seq<u8> {
        self.channel.bytes()
    }

    /// Offset of the next byte to read.
    pub closed spec fn cursor(&self) -> int {
        self.channel.cursor()
    }

    /// Offset at which the readable region ends.
    pub closed spec fn limit(&self) -> int {
        self.channel.limit()
    }

    /// The identifier size that the header declared, once it has been read.
    pub closed spec fn id_size(&self) -> Option<u32> {
        self.id_size
    }

    /// The cursor lies in the readable region, and the region in the file.
    pub open spec fn wf(&self) -> bool {
        0 <= self.cursor() <= self.limit() <= self.bytes().len() <= usize::MAX
    }

    /// Whether `n` more bytes can be read.
    pub open spec fn has(&self, n: int) -> bool {
        self.cursor() + n <= self.limit()
    }

    /// Number of bytes of one identifier.
    pub open spec fn width(&self) -> int {
        id_bytes(self.id_size().unwrap())
    }

    /// `self` reads the same file as `before`, with the same identifier size.
    pub open spec fn same_file(&self, before: &ChannelWrapper) -> bool {
        &&& self.wf()
        &&& self.bytes() == before.bytes()
        &&& self.id_size() == before.id_size()
    }

    /// `self` is `before` after some reading: the same file, identifier size
    /// and readable region, and a cursor that has not moved back.
    pub open spec fn follows(&self, before: &ChannelWrapper) -> bool {
        &&& self.same_file(before)
        &&& self.limit() == before.limit()
        &&& before.cursor() <= self.cursor()
    }

    /// `self` is `before` with the cursor moved forward by `n` bytes.
    pub open spec fn advanced(&self, before: &ChannelWrapper, n: int) -> bool {
        &&& self.follows(before)
        &&& self.cursor() == before.cursor() + n
    }

    /// Starts reading the bytes of a snapshot at their beginning.
    pub fn wrapper(data: Vec<u8>) -> (w: ChannelWrapper)
        ensures
            w.wf(),
            w.bytes() == data@,
            w.cursor() == 0,
            w.limit() == data@.len(),
            w.id_size() is None,
    {
        ChannelWrapper { channel: Channel::open(data), id_size: None }
    }

    /// Continues reading where `channel` stands.
    pub fn new(channel: Channel) -> (w: ChannelWrapper)
        requires
            channel.wf(),
        ensures
            w.wf(),
            w.bytes() == channel.bytes(),
            w.cursor() == channel.cursor(),
            w.limit() == channel.limit(),
            w.id_size() is None,
    {
        ChannelWrapper { channel, id_size: None }
    }

    /// Total number of bytes of the snapshot.
    pub fn size(&self) -> (n: u64)
        ensures
            n == self.bytes().len(),
    {
        self.channel.get_file_len() as u64
    }

    /// Offset of the next byte to read.
    pub fn position(&self) -> (pos: u64)
        ensures
            pos == self.cursor(),
    {
        self.channel.position()
    }

    /// Number of bytes left in the readable region.
    pub fn remaining(&self) -> (n: usize)
        requires
            self.wf(),
        ensures
            n == self.limit() - self.cursor(),
    {
        self.channel.remaining()
    }

    /// Moves the cursor forward by `len` bytes.
    pub fn skip(&mut self, len: u32) -> (r: Result<(), ParseError>)
        requires
            old(self).wf(),
        ensures
            final(self).follows(old(self)),
            r is Ok <==> old(self).has(len as int),
            r is Ok ==> final(self).cursor() == old(self).cursor() + len,
            r matches Err(e) ==> e == ParseError::UnexpectedEndOfFile && final(self).cursor()
                == old(self).cursor(),
    {
        lift(self.channel.skip(len as u64))
    }

    /// Moves the cursor forward by `len` bytes, for lengths beyond 32 bits.
    pub fn skip_long(&mut self, len: u64) -> (r: Result<(), ParseError>)
        requires
            old(self).wf(),
        ensures
            final(self).follows(old(self)),
            r is Ok <==> old(self).has(len as int),
            r is Ok ==> final(self).cursor() == old(self).cursor() + len,
            r matches Err(e) ==> e == ParseError::UnexpectedEndOfFile && final(self).cursor()
                == old(self).cursor(),
    {
        lift(self.channel.skip(len))
    }

    /// Reads one byte.
    pub fn read_byte(&mut self) -> (r: Result<Byte, ParseError>)
        requires
            old(self).wf(),
        ensures
            final(self).follows(old(self)),
            r is Ok <==> old(self).has(1),
            r matches Ok(v) ==> v == old(self).bytes()[old(self).cursor()] && final(self).cursor()
                == old(self).cursor() + 1,
            r matches Err(e) ==> e == ParseError::UnexpectedEndOfFile && final(self).cursor()
                == old(self).cursor(),
    {
        lift(self.channel.read_byte())
    }

    /// Reads one byte as a character.
    pub fn read_char(&mut self) -> (r: Result<char, ParseError>)
        requires
            old(self).wf(),
        ensures
            final(self).follows(old(self)),
            r is Ok <==> old(self).has(1),
            r matches Ok(v) ==> v == spec_char_of(old(self).bytes()[old(self).cursor()])
                && final(self).cursor() == old(self).cursor() + 1,
            r matches Err(e) ==> e == ParseError::UnexpectedEndOfFile && final(self).cursor()
                == old(self).cursor(),
    {
        lift(self.channel.read_char())
    }

    /// Reads a big-endian 16-bit number.
    pub fn read_short(&mut self) -> (r: Result<Short, ParseError>)
        requires
            old(self).wf(),
        ensures
            final(self).follows(old(self)),
            r is Ok <==> old(self).has(2),
            r matches Ok(v) ==> v == spec_u16_at(old(self).bytes(), old(self).cursor())
                && final(self).cursor() == old(self).cursor() + 2,
            r matches Err(e) ==> e == ParseError::UnexpectedEndOfFile && final(self).cursor()
                == old(self).cursor(),
    {
        lift(self.channel.read_short())
    }

    /// Reads a big-endian 32-bit number.
    pub fn read_int(&mut self) -> (r: Result<Int, ParseError>)
        requires
            old(self).wf(),
        ensures
            final(self).follows(old(self)),
            r is Ok <==> old(self).has(4),
            r matches Ok(v) ==> v == spec_u32_at(old(self).bytes(), old(self).cursor())
                && final(self).cursor() == old(self).cursor() + 4,
            r matches Err(e) ==> e == ParseError::UnexpectedEndOfFile && final(self).cursor()
                == old(self).cursor(),
    {
        lift(self.channel.read_int())
    }

    /// Reads a big-endian 64-bit number.
    pub fn read_long(&mut self) -> (r: Result<Long, ParseError>)
        requires
            old(self).wf(),
        ensures
            final(self).follows(old(self)),
            r is Ok <==> old(self).has(8),
            r matches Ok(v) ==> v == spec_u64_at(old(self).bytes(), old(self).cursor())
                && final(self).cursor() == old(self).cursor() + 8,
            r matches Err(e) ==> e == ParseError::UnexpectedEndOfFile && final(self).cursor()
                == old(self).cursor(),
    {
        lift(self.channel.read_long())
    }

    /// Reads `len` bytes as text, decoding them leniently.
    pub fn read_str(&mut self, len: usize) -> (r: Result<String, ParseError>)
        requires
            old(self).wf(),
        ensures
            final(self).follows(old(self)),
            r is Ok <==> old(self).has(len as int),
            r matches Ok(text) ==> text@ == lossy_text(
                old(self).bytes().subrange(old(self).cursor(), old(self).cursor() + len),
            ) && final(self).cursor() == old(self).cursor() + len,
            r matches Err(e) ==> e == ParseError::UnexpectedEndOfFile && final(self).cursor()
                == old(self).cursor(),
    {
        lift(self.channel.read_str(len))
    }

    /// The identifier size of the file. The first call reads it from the
    /// four bytes at the cursor; later calls return what the first one read
    /// and read nothing.
    pub fn read_id_size(&mut self) -> (r: Result<u32, ParseError>)
        requires
            old(self).wf(),
        ensures
            final(self).wf(),
            final(self).bytes() == old(self).bytes(),
            final(self).limit() == old(self).limit(),
            match old(self).id_size() {
                Some(known) => r == Ok::<u32, ParseError>(known) && final(self).advanced(
                    old(self),
                    0,
                ),
                None => match r {
                    Ok(v) => {
                        &&& old(self).has(4)
                        &&& v == spec_u32_at(old(self).bytes(), old(self).cursor())
                        &&& final(self).id_size() == Some(v)
                        &&& final(self).cursor() == old(self).cursor() + 4
                    },
                    Err(e) => {
                        &&& !old(self).has(4)
                        &&& e == ParseError::UnexpectedEndOfFile
                        &&& final(self).advanced(old(self), 0)
                    },
                },
            },
    {
        match self.id_size {
            Some(known) => Ok(known),
            None => {
                let v: u32 = lift(self.channel.read_int())?;
                self.id_size = Some(v);
                Ok(v)
            },
        }
    }

    /// Reads one identifier and widens it to 64 bits.
    pub fn read_id(&mut self) -> (r: Result<Long, ParseError>)
        requires
            old(self).wf(),
            old(self).id_size() is Some,
        ensures
            final(self).follows(old(self)),
            r is Ok <==> old(self).has(old(self).width()),
            r matches Ok(v) ==> v == spec_id_at(
                old(self).bytes(),
                old(self).cursor(),
                old(self).id_size().unwrap(),
            ) && final(self).cursor() == old(self).cursor() + old(self).width(),
            r matches Err(e) ==> e == ParseError::UnexpectedEndOfFile && final(self).cursor()
                == old(self).cursor(),
    {
        let size: u32 = self.id_size.unwrap();
        if size == 4 {
            let v: u32 = lift(self.channel.read_int())?;
            Ok(v as u64)
        } else {
            lift(self.channel.read_long())
        }
    }

    /// Reads the header of a top-level record: tag, time offset in
    /// microseconds, and length of the payload. Fails, reading nothing, if
    /// fewer than nine bytes are left.
    pub fn read_header(&mut self) -> (r: Result<(Byte, Int, Int), ParseError>)
        requires
            old(self).wf(),
        ensures
            final(self).follows(old(self)),
            r is Ok <==> old(self).has(9),
            r matches Ok(v) ==> v == spec_header(old(self).bytes(), old(self).cursor())
                && final(self).cursor() == old(self).cursor() + 9,
            r matches Err(e) ==> e == ParseError::UnexpectedEndOfFile && final(self).cursor()
                == old(self).cursor(),
    {
        if self.channel.remaining() < HEADER_BYTES {
            return Err(ParseError::UnexpectedEndOfFile);
        }
        let tag: u8 = self.read_byte()?;
        let offset: u32 = self.read_int()?;
        let length: u32 = self.read_int()?;
        Ok((tag, offset, length))
    }

    /// Confines reading to the next `len` bytes, the payload of one record,
    /// and returns the end of the region that was readable before.
    pub fn enter(&mut self, len: u32) -> (r: Result<usize, ParseError>)
        requires
            old(self).wf(),
        ensures
            final(self).same_file(old(self)),
            final(self).cursor() == old(self).cursor(),
            r is Ok <==> old(self).has(len as int),
            r matches Ok(outer) ==> outer == old(self).limit() && final(self).limit() == old(
                self,
            ).cursor() + len,
            r matches Err(e) ==> e == ParseError::UnexpectedEndOfFile && final(self).limit()
                == old(self).limit(),
    {
        lift(self.channel.narrow(len as u64))
    }

    /// Passes over what is left of the readable region and makes the file
    /// readable up to `outer`.
    pub fn leave(&mut self, outer: usize)
        requires
            old(self).wf(),
            old(self).limit() <= outer <= old(self).bytes().len(),
        ensures
            final(self).same_file(old(self)),
            final(self).cursor() == old(self).limit(),
            final(self).limit() == outer,
    {
        self.channel.widen(outer);
    }

    /// Reads `count` identifiers. Fails, reading nothing, if the readable
    /// region holds fewer.
    pub fn read_ids(&mut self, count: u32) -> (r: Result<Vec<Long>, ParseError>)
        requires
            old(self).wf(),
            old(self).id_size() is Some,
        ensures
            final(self).follows(old(self)),
            r is Ok <==> old(self).has(ids_bytes(count as int, old(self).id_size().unwrap())),
            r matches Ok(ids) ==> ids@ == spec_ids_at(
                old(self).bytes(),
                old(self).cursor(),
                count as int,
                old(self).id_size().unwrap(),
            ) && final(self).cursor() == old(self).cursor() + ids_bytes(
                count as int,
                old(self).id_size().unwrap(),
            ),
            r matches Err(e) ==> e == ParseError::UnexpectedEndOfFile && final(self).cursor()
                == old(self).cursor(),
    {
        let size: u32 = self.id_size.unwrap();
        let each: u64 = if size == 4 {
            4
        } else {
            8
        };
        if count as u64 * each > self.channel.remaining() as u64 {
            return Err(ParseError::UnexpectedEndOfFile);
        }
        let ghost data = self.bytes();
        let ghost start = self.cursor();
        let mut ids: Vec<u64> = Vec::new();
        let mut i: u32 = 0;
        while i < count
            invariant
                self.follows(old(self)),
                data == self.bytes(),
                start == old(self).cursor(),
                self.id_size() == Some(size),
                i <= count,
                start + ids_bytes(count as int, size) <= self.limit(),
                self.cursor() == start + ids_bytes(i as int, size),
                ids@ == spec_ids_at(data, start, i as int, size),
            decreases count - i,
        {
            let id: u64 = self.read_id()?;
            ids.push(id);
            i = i + 1;
            assert(ids@ =~= spec_ids_at(data, start, i as int, size));
        }
        Ok(ids)
    }

    /// Reads the payload of a symbol record of `len` bytes: an identifier,
    /// and the rest of the payload as the name it stands for.
    pub fn read_utf8(&mut self, len: Int) -> (r: Result<(Long, String), ParseError>)
        requires
            old(self).wf(),
            old(self).id_size() is Some,
        ensures
            final(self).follows(old(self)),
            r is Ok <==> old(self).width() <= len && old(self).has(len as int),
            r matches Ok(v) ==> {
                &&& v.0 == spec_id_at(
                    old(self).bytes(),
                    old(self).cursor(),
                    old(self).id_size().unwrap(),
                )
                &&& v.1@ == lossy_text(
                    old(self).bytes().subrange(
                        old(self).cursor() + old(self).width(),
                        old(self).cursor() + len,
                    ),
                )
                &&& final(self).cursor() == old(self).cursor() + len
            },
            r matches Err(e) ==> e == ParseError::UnexpectedEndOfFile,
    {
        let size: u32 = self.id_size.unwrap();
        let each: u32 = if size == 4 {
            4
        } else {
            8
        };
        if len < each {
            return Err(ParseError::UnexpectedEndOfFile);
        }
        if len as u64 > self.channel.remaining() as u64 {
            return Err(ParseError::UnexpectedEndOfFile);
        }
        let symbol_id: u64 = self.read_id()?;
        let name = self.read_str((len - each) as usize)?;
        Ok((symbol_id, name))
    }

    /// Reads the payload of a load-class record.
    pub fn read_load_class(&mut self) -> (r: Result<(Int, Long, Int, Long), ParseError>)
        requires
            old(self).wf(),
            old(self).id_size() is Some,
        ensures
            final(self).follows(old(self)),
            r is Ok <==> old(self).has(8 + 2 * old(self).width()),
            r matches Ok(v) ==> v == spec_load_class(
                old(self).bytes(),
                old(self).cursor(),
                old(self).id_size().unwrap(),
            ) && final(self).cursor() == old(self).cursor() + 8 + 2 * old(self).width(),
            r matches Err(e) ==> e == ParseError::UnexpectedEndOfFile,
    {
        let serial_num: u32 = self.read_int()?;
        let class_id: u64 = self.read_id()?;
        let stack_trace_serial_no: u32 = self.read_int()?;
        let name_id: u64 = self.read_id()?;
        Ok((serial_num, class_id, stack_trace_serial_no, name_id))
    }

    /// Reads the payload of an unload-class record: the serial number of the
    /// class.
    pub fn read_unload_class(&mut self) -> (r: Result<Int, ParseError>)
        requires
            old(self).wf(),
        ensures
            final(self).follows(old(self)),
            r is Ok <==> old(self).has(4),
            r matches Ok(v) ==> v == spec_u32_at(old(self).bytes(), old(self).cursor())
                && final(self).cursor() == old(self).cursor() + 4,
            r matches Err(e) ==> e == ParseError::UnexpectedEndOfFile && final(self).cursor()
                == old(self).cursor(),
    {
        self.read_int()
    }

    /// Reads the payload of a stack-frame record.
    pub fn read_frame(&mut self) -> (r: Result<(Long, Long, Long, Long, Int, Int), ParseError>)
        requires
            old(self).wf(),
            old(self).id_size() is Some,
        ensures
            final(self).follows(old(self)),
            r is Ok <==> old(self).has(8 + 4 * old(self).width()),
            r matches Ok(v) ==> v == spec_frame(
                old(self).bytes(),
                old(self).cursor(),
                old(self).id_size().unwrap(),
            ) && final(self).cursor() == old(self).cursor() + 8 + 4 * old(self).width(),
            r matches Err(e) ==> e == ParseError::UnexpectedEndOfFile,
    {
        let frame_id: u64 = self.read_id()?;
        let method_name: u64 = self.read_id()?;
        let method_sig: u64 = self.read_id()?;
        let src_file: u64 = self.read_id()?;
        let class_ser_num: u32 = self.read_int()?;
        let line_nr: u32 = self.read_int()?;
        Ok((frame_id, method_name, method_sig, src_file, class_ser_num, line_nr))
    }

    /// Reads the payload of a stack-trace record: its serial number, the
    /// serial number of the thread, and the frame ids, innermost first.
    pub fn read_hprof_trace(&mut self) -> (r: Result<(Int, Int, Vec<Long>), ParseError>)
        requires
            old(self).wf(),
            old(self).id_size() is Some,
        ensures
            final(self).follows(old(self)),
            r is Ok <==> old(self).has(12) && old(self).has(
                12 + ids_bytes(
                    spec_trace_count(old(self).bytes(), old(self).cursor()),
                    old(self).id_size().unwrap(),
                ),
            ),
            r matches Ok(v) ==> {
                &&& v.0 == spec_u32_at(old(self).bytes(), old(self).cursor())
                &&& v.1 == spec_u32_at(old(self).bytes(), old(self).cursor() + 4)
                &&& v.2@ == spec_ids_at(
                    old(self).bytes(),
                    old(self).cursor() + 12,
                    spec_trace_count(old(self).bytes(), old(self).cursor()),
                    old(self).id_size().unwrap(),
                )
                &&& final(self).cursor() == old(self).cursor() + 12 + ids_bytes(
                    spec_trace_count(old(self).bytes(), old(self).cursor()),
                    old(self).id_size().unwrap(),
                )
            },
            r matches Err(e) ==> e == ParseError::UnexpectedEndOfFile,
    {
        let stack_trace_nr: u32 = self.read_int()?;
        let thread_nr: u32 = self.read_int()?;
        let frame_count: u32 = self.read_int()?;
        let frame_ids = self.read_ids(frame_count)?;
        Ok((stack_trace_nr, thread_nr, frame_ids))
    }

    /// Reads the payload of a start-thread record.
    pub fn read_start_thread(&mut self) -> (r: Result<
        (Int, Long, Int, Long, Long, Long, Int),
        ParseError,
    >)
        requires
            old(self).wf(),
            old(self).id_size() is Some,
        ensures
            final(self).follows(old(self)),
            r is Ok <==> old(self).has(8 + 4 * old(self).width()),
            r matches Ok(v) ==> v == spec_start_thread(
                old(self).bytes(),
                old(self).cursor(),
                old(self).id_size().unwrap(),
            ) && final(self).cursor() == old(self).cursor() + 8 + 4 * old(self).width(),
            r matches Err(e) ==> e == ParseError::UnexpectedEndOfFile,
    {
        let thread_serial_num: u32 = self.read_int()?;
        let thread_obj_id: u64 = self.read_id()?;
        let trace_serial_num: u32 = self.read_int()?;
        let t_name_index: u64 = self.read_id()?;
        let g_name_index: u64 = self.read_id()?;
        let p_name_index: u64 = self.read_id()?;
        let id_size: u32 = self.id_size.unwrap();
        Ok(
            (
                thread_serial_num,
                thread_obj_id,
                trace_serial_num,
                t_name_index,
                g_name_index,
                p_name_index,
                id_size,
            ),
        )
    }

    /// Reads the payload of a heap-summary record.
    pub fn read_heap_summary(&mut self) -> (r: Result<(Int, Int, Long, Long), ParseError>)
        requires
            old(self).wf(),
        ensures
            final(self).follows(old(self)),
            r is Ok <==> old(self).has(24),
            r matches Ok(v) ==> v == spec_heap_summary(old(self).bytes(), old(self).cursor())
                && final(self).cursor() == old(self).cursor() + 24,
            r matches Err(e) ==> e == ParseError::UnexpectedEndOfFile,
    {
        let live: u32 = self.read_int()?;
        let live_inst: u32 = self.read_int()?;
        let allocate: u64 = self.read_long()?;
        let allocate_inst: u64 = self.read_long()?;
        Ok((live, live_inst, allocate, allocate_inst))
    }

    /// The identifier size that the header declared.
    pub fn known_id_size(&self) -> (size: Int)
        requires
            self.id_size() is Some,
        ensures
            Some(size) == self.id_size(),
    {
        self.id_size.unwrap()
    }
}

} // verus!
