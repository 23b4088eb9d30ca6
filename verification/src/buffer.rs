//! A byte buffer with a read cursor, for the packets between the peers.

use vstd::prelude::*;
use vstd::slice::{slice_subrange, slice_to_vec};
use vstd::string::*;
use vstd::utf8::{decode_utf8, valid_utf8};

verus! {

/// The text that `String::from_utf8_lossy` makes of bytes.
pub uninterp spec fn utf8_lossy(bytes: Seq<u8>) -> Seq<char>;

/// The text that bytes are read as: the text that they encode where they
/// are UTF-8, else what `String::from_utf8_lossy` makes of them.
pub open spec fn text_of(bytes: Seq<u8>) -> Seq<char> {
    if valid_utf8(bytes) {
        decode_utf8(bytes)
    } else {
        utf8_lossy(bytes)
    }
}

/// `String::from_utf8_lossy`, with the result as an owned string: the text
/// that the bytes encode where they are UTF-8; else a text in which each
/// run of bytes that is no UTF-8 is replaced by a replacement character.
#[verifier::external_body]
fn from_utf8_lossy(bytes: &[u8]) -> (text: String)
    ensures
        text@ == if valid_utf8(bytes@) {
            decode_utf8(bytes@)
        } else {
            utf8_lossy(bytes@)
        },
{
    String::from_utf8_lossy(bytes).into_owned()
}

/// Bytes that are written at the end and read from a cursor.
pub struct Buffer {
    buf: Vec<u8>,
    ptr: usize,
}

/// The mathematical value of a [`Buffer`].
pub struct BufferView {
    /// What the buffer holds.
    pub bytes: Seq<u8>,
    /// Where the next read begins. It lies behind the end once a read has
    /// asked for more than there was.
    pub ptr: nat,
}

/// The number that two bytes stand for, the high one first.
pub open spec fn u16_of(high: u8, low: u8) -> u16 {
    (high * 256 + low) as u16
}

/// The high byte of a number.
pub open spec fn high_byte(value: u16) -> u8 {
    (value / 256) as u8
}

/// The low byte of a number.
pub open spec fn low_byte(value: u16) -> u8 {
    (value % 256) as u8
}

impl BufferView {
    /// Whether `n` bytes lie between the cursor and the end.
    pub open spec fn has(self, n: nat) -> bool {
        self.ptr + n <= self.bytes.len()
    }

    /// The byte that lies `i` bytes behind the cursor.
    pub open spec fn at(self, i: nat) -> u8 {
        self.bytes[(self.ptr + i) as int]
    }

    /// The buffer with the cursor moved on by `n`, as far as a cursor goes.
    pub open spec fn advance(self, n: nat) -> BufferView {
        BufferView {
            bytes: self.bytes,
            ptr: if self.ptr + n <= usize::MAX {
                self.ptr + n
            } else {
                usize::MAX as nat
            },
        }
    }

    /// The buffer with more bytes at its end.
    pub open spec fn append(self, bytes: Seq<u8>) -> BufferView {
        BufferView { bytes: self.bytes + bytes, ptr: self.ptr }
    }

    /// What a read of one byte gives.
    pub open spec fn peek_u8(self) -> Option<u8> {
        if self.has(1) {
            Some(self.at(0))
        } else {
            None
        }
    }

    /// What a read of a number of two bytes gives.
    pub open spec fn peek_u16(self) -> Option<u16> {
        if self.has(2) {
            Some(u16_of(self.at(0), self.at(1)))
        } else {
            None
        }
    }

    /// The buffer after a read of a number of two bytes: the cursor has
    /// moved over what was there of the two.
    pub open spec fn after_u16(self) -> BufferView {
        if self.has(1) {
            self.advance(2)
        } else {
            self.advance(1)
        }
    }

    /// The bytes of a text whose length was read before: those between the
    /// cursor and `len` bytes on, where that many are there.
    pub open spec fn peek_bytes(self, len: nat) -> Option<Seq<u8>> {
        if self.has(len) {
            Some(self.bytes.subrange(self.ptr as int, (self.ptr + len) as int))
        } else {
            None
        }
    }

    /// What a read of a text with its length in front gives.
    pub open spec fn peek_string(self) -> Option<Seq<char>> {
        match self.peek_u16() {
            None => None,
            Some(len) => match self.after_u16().peek_bytes(len as nat) {
                None => None,
                Some(bytes) => Some(text_of(bytes)),
            },
        }
    }

    /// The buffer after a read of a text with its length in front.
    pub open spec fn after_string(self) -> BufferView {
        match self.peek_u16() {
            None => self.after_u16(),
            Some(len) => self.after_u16().advance(len as nat),
        }
    }

    /// All bytes from the cursor to the end, where the cursor does not lie
    /// behind the end.
    pub open spec fn rest(self) -> Option<Seq<u8>> {
        if self.has(0) {
            Some(self.bytes.subrange(self.ptr as int, self.bytes.len() as int))
        } else {
            None
        }
    }
}

/// The bytes that a text is written as: its length in bytes, cut to two
/// bytes, and its UTF-8 encoding.
pub open spec fn string_bytes(text: Seq<char>) -> Seq<u8> {
    let bytes = vstd::utf8::encode_utf8(text);
    seq![high_byte((bytes.len() % 65536) as u16), low_byte((bytes.len() % 65536) as u16)] + bytes
}

impl View for Buffer {
    type V = BufferView;

    closed spec fn view(&self) -> BufferView {
        BufferView { bytes: self.buf@, ptr: self.ptr as nat }
    }
}

impl Default for Buffer {
    fn default() -> (buffer: Self)
        ensures
            buffer@ == (BufferView { bytes: Seq::empty(), ptr: 0 }),
    {
        Buffer::new()
    }
}

impl Buffer {
    /// An empty buffer.
    pub fn new() -> (buffer: Self)
        ensures
            buffer@ == (BufferView { bytes: Seq::empty(), ptr: 0 }),
    {
        Buffer { buf: Vec::new(), ptr: 0 }
    }

    /// A buffer that holds a copy of the bytes, with the cursor at the
    /// first.
    pub fn from_slice(slice: &[u8]) -> (buffer: Self)
        ensures
            buffer@ == (BufferView { bytes: slice@, ptr: 0 }),
    {
        Buffer { buf: slice_to_vec(slice), ptr: 0 }
    }

    /// A buffer that holds the bytes, with the cursor at the first.
    pub fn from_vec(bytes: Vec<u8>) -> (buffer: Self)
        ensures
            buffer@ == (BufferView { bytes: bytes@, ptr: 0 }),
    {
        Buffer { buf: bytes, ptr: 0 }
    }

    /// The bytes that the buffer holds.
    pub fn into_vec(self) -> (bytes: Vec<u8>)
        ensures
            bytes@ == self@.bytes,
    {
        self.buf
    }

    /// A buffer holds no more bytes than can be counted.
    pub proof fn lemma_len_fits(&self)
        ensures
            self@.bytes.len() <= usize::MAX,
    {
        assert(self.buf@.len() == self.buf.len());
    }

    fn advance(&mut self, n: usize)
        ensures
            final(self)@ == old(self)@.advance(n as nat),
    {
        self.ptr = if self.ptr <= usize::MAX - n {
            self.ptr + n
        } else {
            usize::MAX
        };
    }

    /// Reads the byte at the cursor and moves the cursor on by one, also
    /// where no byte is there.
    pub fn read_u8(&mut self) -> (value: Option<u8>)
        ensures
            value == old(self)@.peek_u8(),
            final(self)@ == old(self)@.advance(1),
    {
        let value = if self.ptr < self.buf.len() {
            Some(self.buf[self.ptr])
        } else {
            None
        };
        self.advance(1);
        value
    }

    /// Writes a byte at the end.
    pub fn write_u8(&mut self, value: u8) -> (ret: &mut Self)
        ensures
            ret@ == old(self)@.append(seq![value]),
            *final(self) == *final(ret),
    {
        self.buf.push(value);
        assert(self.buf@ =~= old(self).buf@ + seq![value]);
        self
    }

    /// Reads a byte as a truth value: true where the byte is one.
    pub fn read_bool(&mut self) -> (value: Option<bool>)
        ensures
            value == match old(self)@.peek_u8() {
                Some(byte) => Some(byte == 1),
                None => None,
            },
            final(self)@ == old(self)@.advance(1),
    {
        match self.read_u8() {
            Some(byte) => Some(byte == 1),
            None => None,
        }
    }

    /// Writes a truth value as one byte: one for true, zero for false.
    pub fn write_bool(&mut self, value: bool) -> (ret: &mut Self)
        ensures
            ret@ == old(self)@.append(
                seq![if value {
                    1u8
                } else {
                    0u8
                }],
            ),
            *final(self) == *final(ret),
    {
        self.write_u8(if value { 1 } else { 0 })
    }

    /// Reads a number of two bytes, the high one first. The cursor moves
    /// over what is there of the two.
    pub fn read_u16(&mut self) -> (value: Option<u16>)
        ensures
            value == old(self)@.peek_u16(),
            final(self)@ == old(self)@.after_u16(),
    {
        assert(self.buf@.len() == self.buf.len());
        let high = match self.read_u8() {
            Some(high) => high,
            None => {
                return None;
            },
        };
        let low = match self.read_u8() {
            Some(low) => low,
            None => {
                return None;
            },
        };
        let high = high as u16;
        let low = low as u16;
        assert(high << 8 | low == high * 256 + low) by (bit_vector)
            requires
                high < 256,
                low < 256,
        ;
        Some(high << 8 | low)
    }

    /// Writes a number as two bytes, the high one first.
    pub fn write_u16(&mut self, value: u16) -> (ret: &mut Self)
        ensures
            ret@ == old(self)@.append(seq![high_byte(value), low_byte(value)]),
            *final(self) == *final(ret),
    {
        assert((value >> 8) == value / 256 && (value & 0xFF) == value % 256) by (bit_vector);
        self.buf.push((value >> 8) as u8);
        self.buf.push((value & 0xFF) as u8);
        assert(self.buf@ =~= old(self).buf@ + seq![high_byte(value), low_byte(value)]);
        self
    }

    /// Reads all from the cursor to the end as text, and moves the cursor
    /// to the end. `None`, and no move, where the cursor lies behind the
    /// end.
    pub fn read_js_string(&mut self) -> (text: Option<String>)
        ensures
            match old(self)@.rest() {
                Some(bytes) => {
                    &&& text matches Some(t)
                    &&& t@ == text_of(bytes)
                    &&& final(self)@ == (BufferView {
                        bytes: old(self)@.bytes,
                        ptr: old(self)@.bytes.len(),
                    })
                },
                None => text is None && final(self)@ == old(self)@,
            },
    {
        if self.ptr > self.buf.len() {
            return None;
        }
        let slice = slice_subrange(self.buf.as_slice(), self.ptr, self.buf.len());
        let text = from_utf8_lossy(slice);
        self.ptr = self.buf.len();
        Some(text)
    }

    /// Reads a text with its length in front: a number of two bytes, and
    /// that many bytes of text. The cursor moves over the length and, where
    /// the length was there, on by it.
    pub fn read_string(&mut self) -> (text: Option<String>)
        ensures
            match text {
                Some(t) => old(self)@.peek_string() == Some(t@),
                None => old(self)@.peek_string() is None,
            },
            final(self)@ == old(self)@.after_string(),
    {
        let len = match self.read_u16() {
            Some(len) => len as usize,
            None => {
                return None;
            },
        };
        let start = self.ptr;
        self.advance(len);
        if start > self.buf.len() || len > self.buf.len() - start {
            return None;
        }
        let slice = slice_subrange(self.buf.as_slice(), start, start + len);
        Some(from_utf8_lossy(slice))
    }

    /// Writes a text with its length in bytes in front, cut to two bytes.
    pub fn write_string(&mut self, value: &str) -> (ret: &mut Self)
        ensures
            ret@ == old(self)@.append(string_bytes(value@)),
            *final(self) == *final(ret),
    {
        let bytes = value.as_bytes();
        let len = bytes.len();
        self.write_u16((len % 65536) as u16);
        let ghost before = self.buf@;
        self.buf.extend_from_slice(bytes);
        assert(self.buf@ =~= before + bytes@);
        assert(self.buf@ =~= old(self).buf@ + string_bytes(value@));
        self
    }
}

} // verus!
