use byteordered::byteorder::{BigEndian, ByteOrder};
use vstd::prelude::*;
use vstd::slice::slice_subrange;

use crate::io::error::EndOfFile;

verus! {

/// The byte type of a snapshot.
pub type Byte = u8;

/// The short type of a snapshot.
pub type Short = u16;

/// The int type of a snapshot.
pub type Int = u32;

/// The long type of a snapshot.
pub type Long = u64;

/// The character that stands for a byte that is no text by itself.
pub const REPLACEMENT: char = '\u{FFFD}';

/// The unsigned 16-bit number that two bytes at `pos` spell, first byte highest.
pub open spec fn spec_u16_at(data: Seq<u8>, pos: int) -> u16 {
    (data[pos] as int * 0x100 + data[pos + 1] as int) as u16
}

/// The unsigned 32-bit number that four bytes at `pos` spell, first byte highest.
pub open spec fn spec_u32_at(data: Seq<u8>, pos: int) -> u32 {
    (data[pos] as int * 0x100_0000 + data[pos + 1] as int * 0x1_0000 + data[pos + 2] as int * 0x100
        + data[pos + 3] as int) as u32
}

/// The unsigned 64-bit number that eight bytes at `pos` spell, first byte highest.
pub open spec fn spec_u64_at(data: Seq<u8>, pos: int) -> u64 {
    (spec_u32_at(data, pos) as int * 0x1_0000_0000 + spec_u32_at(data, pos + 4) as int) as u64
}

/// The character that one byte is read as: itself where it is ASCII, the
/// replacement character otherwise.
pub open spec fn spec_char_of(byte: u8) -> char {
    if byte < 0x80 {
        byte as char
    } else {
        REPLACEMENT
    }
}

/// Calls `BigEndian::read_u16` of byteorder, which byteordered hands on, on
/// a slice of at least two bytes (it panics on a shorter one). The contract
/// claims that the result is the big-endian number of the first two bytes.
#[verifier::external_body]
fn be_u16(field: &[u8]) -> (v: u16)
    requires
        field@.len() >= 2,
    ensures
        v == spec_u16_at(field@, 0),
{
    BigEndian::read_u16(field)
}

/// Calls `BigEndian::read_u32` of byteorder, which byteordered hands on, on
/// a slice of at least four bytes (it panics on a shorter one). The contract
/// claims that the result is the big-endian number of the first four bytes.
#[verifier::external_body]
fn be_u32(field: &[u8]) -> (v: u32)
    requires
        field@.len() >= 4,
    ensures
        v == spec_u32_at(field@, 0),
{
    BigEndian::read_u32(field)
}

/// Calls `BigEndian::read_u64` of byteorder, which byteordered hands on, on
/// a slice of at least eight bytes (it panics on a shorter one). The contract
/// claims that the result is the big-endian number of the first eight bytes.
#[verifier::external_body]
fn be_u64(field: &[u8]) -> (v: u64)
    requires
        field@.len() >= 8,
    ensures
        v == spec_u64_at(field@, 0),
{
    BigEndian::read_u64(field)
}

/// The text that `String::from_utf8_lossy` of std makes of these bytes:
/// well-formed UTF-8 is decoded, and each ill-formed part gives one
/// replacement character.
pub uninterp spec fn lossy_text(bytes: Seq<u8>) -> Seq<char>;

/// Calls `String::from_utf8_lossy` of std and takes the text as an owned
/// string. The contract only gives the result its name.
#[verifier::external_body]
fn decode_lossy(field: &[u8]) -> (text: String)
    ensures
        text@ == lossy_text(field@),
{
    String::from_utf8_lossy(field).into_owned()
}

/// A forward-only cursor over the bytes of a snapshot.
///
/// Reads are confined to a readable region that ends at `limit`. The region
/// is the whole file unless it has been narrowed to the payload of one record.
pub struct Channel {
    data: Vec<u8>,
    pos: usize,
    limit: usize,
}

impl Channel {
    /// All bytes of the snapshot.
    pub closed spec fn bytes(&self) -> Seq<u8> {
        self.data@
    }

    /// Offset of the next byte to read.
    pub closed spec fn cursor(&self) -> int {
        self.pos as int
    }

    /// Offset at which the readable region ends.
    pub closed spec fn limit(&self) -> int {
        self.limit as int
    }

    /// The cursor lies in the readable region, and the region in the file.
    pub open spec fn wf(&self) -> bool {
        0 <= self.cursor() <= self.limit() <= self.bytes().len() <= usize::MAX
    }

    /// Whether `n` more bytes can be read.
    pub open spec fn has(&self, n: int) -> bool {
        self.cursor() + n <= self.limit()
    }

    /// `self` is `before` with the cursor moved forward by `n` bytes.
    pub open spec fn advanced(&self, before: &Channel, n: int) -> bool {
        &&& self.wf()
        &&& self.bytes() == before.bytes()
        &&& self.limit() == before.limit()
        &&& self.cursor() == before.cursor() + n
    }

    /// Takes the bytes of a snapshot, with the cursor at its start and the
    /// whole of it readable.
    pub fn open(data: Vec<u8>) -> (channel: Channel)
        ensures
            channel.wf(),
            channel.bytes() == data@,
            channel.cursor() == 0,
            channel.limit() == data@.len(),
    {
        let limit: usize = data.len();
        Channel { data, pos: 0, limit }
    }

    /// Total number of bytes of the snapshot.
    pub fn get_file_len(&self) -> (len: usize)
        ensures
            len == self.bytes().len(),
    {
        self.data.len()
    }

    /// Offset of the next byte to read.
    pub fn position(&self) -> (pos: u64)
        ensures
            pos == self.cursor(),
    {
        self.pos as u64
    }

    /// Number of bytes left in the readable region.
    pub fn remaining(&self) -> (n: usize)
        requires
            self.wf(),
        ensures
            n == self.limit() - self.cursor(),
    {
        self.limit - self.pos
    }

    /// Moves the cursor forward by `len` bytes, or fails and leaves it where
    /// it is if the readable region holds fewer.
    pub fn skip(&mut self, len: u64) -> (r: Result<(), EndOfFile>)
        requires
            old(self).wf(),
        ensures
            r is Ok <==> old(self).has(len as int),
            r is Ok ==> final(self).advanced(old(self), len as int),
            r is Err ==> *final(self) == *old(self),
    {
        if len > (self.limit - self.pos) as u64 {
            return Err(EndOfFile);
        }
        self.pos = self.pos + len as usize;
        Ok(())
    }

    /// Reads one byte.
    pub fn read_byte(&mut self) -> (r: Result<Byte, EndOfFile>)
        requires
            old(self).wf(),
        ensures
            r is Ok <==> old(self).has(1),
            r matches Ok(v) ==> v == old(self).bytes()[old(self).cursor()] && final(self).advanced(
                old(self),
                1,
            ),
            r is Err ==> *final(self) == *old(self),
    {
        if self.limit - self.pos < 1 {
            return Err(EndOfFile);
        }
        let v: u8 = self.data[self.pos];
        self.pos = self.pos + 1;
        Ok(v)
    }

    /// Reads one byte as a truth value: any byte but zero is true.
    pub fn read_bool(&mut self) -> (r: Result<bool, EndOfFile>)
        requires
            old(self).wf(),
        ensures
            r is Ok <==> old(self).has(1),
            r matches Ok(v) ==> v == (old(self).bytes()[old(self).cursor()] != 0)
                && final(self).advanced(old(self), 1),
            r is Err ==> *final(self) == *old(self),
    {
        let v: u8 = self.read_byte()?;
        Ok(v != 0)
    }

    /// Reads a big-endian 16-bit number.
    pub fn read_short(&mut self) -> (r: Result<Short, EndOfFile>)
        requires
            old(self).wf(),
        ensures
            r is Ok <==> old(self).has(2),
            r matches Ok(v) ==> v == spec_u16_at(old(self).bytes(), old(self).cursor())
                && final(self).advanced(old(self), 2),
            r is Err ==> *final(self) == *old(self),
    {
        if self.limit - self.pos < 2 {
            return Err(EndOfFile);
        }
        let field = slice_subrange(self.data.as_slice(), self.pos, self.pos + 2);
        let v: u16 = be_u16(field);
        self.pos = self.pos + 2;
        Ok(v)
    }

    /// Reads a big-endian 32-bit number.
    pub fn read_int(&mut self) -> (r: Result<Int, EndOfFile>)
        requires
            old(self).wf(),
        ensures
            r is Ok <==> old(self).has(4),
            r matches Ok(v) ==> v == spec_u32_at(old(self).bytes(), old(self).cursor())
                && final(self).advanced(old(self), 4),
            r is Err ==> *final(self) == *old(self),
    {
        if self.limit - self.pos < 4 {
            return Err(EndOfFile);
        }
        let field = slice_subrange(self.data.as_slice(), self.pos, self.pos + 4);
        let v: u32 = be_u32(field);
        self.pos = self.pos + 4;
        Ok(v)
    }

    /// Reads a big-endian 64-bit number.
    pub fn read_long(&mut self) -> (r: Result<Long, EndOfFile>)
        requires
            old(self).wf(),
        ensures
            r is Ok <==> old(self).has(8),
            r matches Ok(v) ==> v == spec_u64_at(old(self).bytes(), old(self).cursor())
                && final(self).advanced(old(self), 8),
            r is Err ==> *final(self) == *old(self),
    {
        if self.limit - self.pos < 8 {
            return Err(EndOfFile);
        }
        let field = slice_subrange(self.data.as_slice(), self.pos, self.pos + 8);
        let v: u64 = be_u64(field);
        self.pos = self.pos + 8;
        Ok(v)
    }

    /// Reads the four bytes of a 32-bit floating-point number and returns
    /// them as they are, as the big-endian number that they spell.
    pub fn read_float(&mut self) -> (r: Result<u32, EndOfFile>)
        requires
            old(self).wf(),
        ensures
            r is Ok <==> old(self).has(4),
            r matches Ok(v) ==> v == spec_u32_at(old(self).bytes(), old(self).cursor())
                && final(self).advanced(old(self), 4),
            r is Err ==> *final(self) == *old(self),
    {
        self.read_int()
    }

    /// Reads the eight bytes of a 64-bit floating-point number and returns
    /// them as they are, as the big-endian number that they spell.
    pub fn read_double(&mut self) -> (r: Result<u64, EndOfFile>)
        requires
            old(self).wf(),
        ensures
            r is Ok <==> old(self).has(8),
            r matches Ok(v) ==> v == spec_u64_at(old(self).bytes(), old(self).cursor())
                && final(self).advanced(old(self), 8),
            r is Err ==> *final(self) == *old(self),
    {
        self.read_long()
    }

    /// Reads one byte as a character.
    pub fn read_char(&mut self) -> (r: Result<char, EndOfFile>)
        requires
            old(self).wf(),
        ensures
            r is Ok <==> old(self).has(1),
            r matches Ok(v) ==> v == spec_char_of(old(self).bytes()[old(self).cursor()])
                && final(self).advanced(old(self), 1),
            r is Err ==> *final(self) == *old(self),
    {
        let v: u8 = self.read_byte()?;
        if v < 0x80 {
            Ok(v as char)
        } else {
            Ok(REPLACEMENT)
        }
    }

    /// Reads `len` bytes as text, decoding them leniently.
    pub fn read_str(&mut self, len: usize) -> (r: Result<String, EndOfFile>)
        requires
            old(self).wf(),
        ensures
            r is Ok <==> old(self).has(len as int),
            r matches Ok(text) ==> text@ == lossy_text(
                old(self).bytes().subrange(old(self).cursor(), old(self).cursor() + len),
            ) && final(self).advanced(old(self), len as int),
            r is Err ==> *final(self) == *old(self),
    {
        if len > self.limit - self.pos {
            return Err(EndOfFile);
        }
        let field = slice_subrange(self.data.as_slice(), self.pos, self.pos + len);
        let text = decode_lossy(field);
        self.pos = self.pos + len;
        Ok(text)
    }

    /// Confines reading to the next `len` bytes and returns the end of the
    /// region that was readable before, or fails if that region holds fewer.
    pub fn narrow(&mut self, len: u64) -> (r: Result<usize, EndOfFile>)
        requires
            old(self).wf(),
        ensures
            r is Ok <==> old(self).has(len as int),
            r matches Ok(outer) ==> {
                &&& outer == old(self).limit()
                &&& final(self).wf()
                &&& final(self).bytes() == old(self).bytes()
                &&& final(self).cursor() == old(self).cursor()
                &&& final(self).limit() == old(self).cursor() + len
            },
            r is Err ==> *final(self) == *old(self),
    {
        if len > (self.limit - self.pos) as u64 {
            return Err(EndOfFile);
        }
        let outer: usize = self.limit;
        self.limit = self.pos + len as usize;
        Ok(outer)
    }

    /// Moves the cursor to the end of the readable region, passing over what
    /// is left of it, and makes the file readable up to `outer`.
    pub fn widen(&mut self, outer: usize)
        requires
            old(self).wf(),
            old(self).limit() <= outer <= old(self).bytes().len(),
        ensures
            final(self).wf(),
            final(self).bytes() == old(self).bytes(),
            final(self).cursor() == old(self).limit(),
            final(self).limit() == outer,
    {
        self.pos = self.limit;
        self.limit = outer;
    }
}

} // verus!
