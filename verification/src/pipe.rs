//! Framing of messages on the debugging pipe.
//!
//! Each message travels as its UTF-8 bytes followed by one NUL byte. The
//! writer turns messages into such bytes; the reader is fed the bytes in
//! whatever pieces they arrive and hands the messages out one by one, keeping
//! what follows a delimiter for the next message.

use vstd::prelude::*;
use vstd::utf8::*;
use vstd::string::*;

verus! {

/// The byte that ends a frame.
pub const DELIMITER: u8 = 0;

/// `k` is the place of the first delimiter in `bytes`.
pub open spec fn is_frame_end(bytes: Seq<u8>, k: int) -> bool {
    &&& 0 <= k < bytes.len()
    &&& bytes[k] == DELIMITER
    &&& forall|j: int| 0 <= j < k ==> bytes[j] != DELIMITER
}

/// `bytes` holds at least one whole frame.
pub open spec fn has_frame(bytes: Seq<u8>) -> bool {
    exists|k: int| is_frame_end(bytes, k)
}

/// The place of the first delimiter in `bytes`.
pub open spec fn frame_end(bytes: Seq<u8>) -> int {
    choose|k: int| is_frame_end(bytes, k)
}

/// The payload of the first frame in `bytes`.
pub open spec fn first_frame(bytes: Seq<u8>) -> Seq<u8> {
    bytes.take(frame_end(bytes))
}

/// What follows the first frame and its delimiter.
pub open spec fn after_frame(bytes: Seq<u8>) -> Seq<u8> {
    bytes.skip(frame_end(bytes) + 1)
}

/// The bytes that carry `payload` as one frame.
pub open spec fn framed(payload: Seq<u8>) -> Seq<u8> {
    payload.push(DELIMITER)
}

/// What a reader holds after it was fed `chunks` one after the other,
/// starting with `buffer`.
pub open spec fn fed(buffer: Seq<u8>, chunks: Seq<Seq<u8>>) -> Seq<u8>
    decreases chunks.len(),
{
    if chunks.len() == 0 {
        buffer
    } else {
        fed(buffer + chunks.first(), chunks.drop_first())
    }
}

/// All the bytes of `chunks`, in their order.
pub open spec fn joined(chunks: Seq<Seq<u8>>) -> Seq<u8>
    decreases chunks.len(),
{
    if chunks.len() == 0 {
        Seq::empty()
    } else {
        chunks.first() + joined(chunks.drop_first())
    }
}

/// There is only one first delimiter.
pub proof fn lemma_frame_end_unique(bytes: Seq<u8>, k: int)
    requires
        is_frame_end(bytes, k),
    ensures
        has_frame(bytes),
        frame_end(bytes) == k,
{
    let c = frame_end(bytes);
    assert(is_frame_end(bytes, c));
    if c < k {
        assert(bytes[c] != DELIMITER);
    } else if k < c {
        assert(bytes[k] != DELIMITER);
    }
}

/// A frame is found exactly where a delimiter occurs.
pub proof fn lemma_has_frame_iff_contains(bytes: Seq<u8>)
    ensures
        has_frame(bytes) <==> bytes.contains(DELIMITER),
{
    if has_frame(bytes) {
        assert(bytes[frame_end(bytes)] == DELIMITER);
    }
    if bytes.contains(DELIMITER) {
        let i = choose|i: int| 0 <= i < bytes.len() && bytes[i] == DELIMITER;
        lemma_first_delimiter_before(bytes, i);
    }
}

/// Where a delimiter stands at `i`, a first one stands at or before `i`.
proof fn lemma_first_delimiter_before(bytes: Seq<u8>, i: int)
    requires
        0 <= i < bytes.len(),
        bytes[i] == DELIMITER,
    ensures
        has_frame(bytes),
        frame_end(bytes) <= i,
    decreases i,
{
    if forall|j: int| 0 <= j < i ==> bytes[j] != DELIMITER {
        assert(is_frame_end(bytes, i));
        lemma_frame_end_unique(bytes, i);
    } else {
        let j = choose|j: int| 0 <= j < i && bytes[j] == DELIMITER;
        lemma_first_delimiter_before(bytes, j);
    }
}

/// Framing round trip: a payload without a delimiter, written as one frame,
/// is read back whole, and nothing is left over.
pub proof fn lemma_round_trip(payload: Seq<u8>)
    requires
        !payload.contains(DELIMITER),
    ensures
        has_frame(framed(payload)),
        first_frame(framed(payload)) == payload,
        after_frame(framed(payload)) == Seq::<u8>::empty(),
{
    lemma_two_frames(payload, Seq::empty());
    assert(framed(payload) + Seq::<u8>::empty() =~= framed(payload));
}

/// Two frames that arrive together are read one after the other: the first
/// read yields the first payload and leaves exactly the second frame.
pub proof fn lemma_two_frames(first: Seq<u8>, rest: Seq<u8>)
    requires
        !first.contains(DELIMITER),
    ensures
        has_frame(framed(first) + rest),
        first_frame(framed(first) + rest) == first,
        after_frame(framed(first) + rest) == rest,
{
    let w = framed(first) + rest;
    let k = first.len() as int;
    assert forall|j: int| 0 <= j < k implies w[j] != DELIMITER by {
        assert(first.contains(first[j]));
    }
    assert(is_frame_end(w, k));
    lemma_frame_end_unique(w, k);
    assert(w.take(k) =~= first);
    assert(w.skip(k + 1) =~= rest);
}

/// However a stream of bytes is cut into chunks, feeding the chunks leaves
/// the reader with the same bytes: what it held, then the whole stream.
pub proof fn lemma_fed_is_joined(buffer: Seq<u8>, chunks: Seq<Seq<u8>>)
    ensures
        fed(buffer, chunks) == buffer + joined(chunks),
    decreases chunks.len(),
{
    if chunks.len() == 0 {
        assert(buffer + joined(chunks) =~= buffer);
    } else {
        lemma_fed_is_joined(buffer + chunks.first(), chunks.drop_first());
        assert((buffer + chunks.first()) + joined(chunks.drop_first()) =~= buffer + joined(chunks));
    }
}

/// Of the bytes of one encoded character only a NUL character's is zero.
proof fn lemma_scalar_bytes(scalar: u32)
    ensures
        has_width_1_encoding(scalar) ==> (leading_byte_width_1(scalar) == 0 <==> scalar == 0),
        leading_byte_width_2(scalar) != 0,
        leading_byte_width_3(scalar) != 0,
        leading_byte_width_4(scalar) != 0,
        last_continuation_byte(scalar) != 0,
        second_last_continuation_byte(scalar) != 0,
        third_last_continuation_byte(scalar) != 0,
{
    assert(scalar <= 0x7F ==> (((scalar & 0x7F) as u8 == 0) <==> scalar == 0)) by (bit_vector);
    assert(0xC0u8 | ((scalar >> 6) & 0x1F) as u8 != 0) by (bit_vector);
    assert(0xE0u8 | ((scalar >> 12) & 0x0F) as u8 != 0) by (bit_vector);
    assert(0xF0u8 | ((scalar >> 18) & 0x7) as u8 != 0) by (bit_vector);
    assert(0x80u8 | (scalar & 0x3F) as u8 != 0) by (bit_vector);
    assert(0x80u8 | ((scalar >> 6) & 0x3F) as u8 != 0) by (bit_vector);
    assert(0x80u8 | ((scalar >> 12) & 0x3F) as u8 != 0) by (bit_vector);
}

/// The encoding of one character holds the delimiter exactly where the
/// character is NUL.
proof fn lemma_scalar_delimiter(c: char)
    ensures
        encode_scalar(c as u32).contains(DELIMITER) <==> c == '\0',
{
    let bytes = encode_scalar(c as u32);
    lemma_scalar_bytes(c as u32);
    if c == '\0' {
        assert(bytes[0] == DELIMITER);
    }
    if bytes.contains(DELIMITER) {
        let i = choose|i: int| 0 <= i < bytes.len() && bytes[i] == DELIMITER;
        assert(bytes[i] == DELIMITER);
    }
}

/// The bytes of a message hold the delimiter exactly where the message
/// holds a NUL character: the encoding of no other character has a zero
/// byte.
pub proof fn lemma_delimiter_is_nul(message: Seq<char>)
    ensures
        encode_utf8(message).contains(DELIMITER) <==> message.contains('\0'),
    decreases message.len(),
{
    if message.len() > 0 {
        let head = encode_scalar(message[0] as u32);
        let tail = encode_utf8(message.drop_first());
        lemma_scalar_delimiter(message[0]);
        lemma_delimiter_is_nul(message.drop_first());
        if head.contains(DELIMITER) {
            let i = choose|i: int| 0 <= i < head.len() && head[i] == DELIMITER;
            assert((head + tail)[i] == DELIMITER);
        }
        if tail.contains(DELIMITER) {
            let i = choose|i: int| 0 <= i < tail.len() && tail[i] == DELIMITER;
            assert((head + tail)[head.len() + i] == DELIMITER);
            let j = choose|j: int|
                0 <= j < message.drop_first().len() && message.drop_first()[j] == '\0';
            assert(message[j + 1] == '\0');
        }
        if (head + tail).contains(DELIMITER) {
            let i = choose|i: int| 0 <= i < (head + tail).len() && (head + tail)[i] == DELIMITER;
            if i < head.len() {
                assert(head[i] == DELIMITER);
            } else {
                assert(tail[i - head.len()] == DELIMITER);
            }
        }
        if message.contains('\0') {
            let j = choose|j: int| 0 <= j < message.len() && message[j] == '\0';
            if j > 0 {
                assert(message.drop_first()[j - 1] == '\0');
            }
        }
    }
}

/// A message without a NUL character comes back as the same message: its
/// frame is found, is valid UTF-8 and decodes to the characters that were
/// written, whatever follows it on the pipe.
pub proof fn lemma_message_round_trip(message: Seq<char>, rest: Seq<u8>)
    requires
        !message.contains('\0'),
    ensures
        has_frame(framed(encode_utf8(message)) + rest),
        valid_utf8(first_frame(framed(encode_utf8(message)) + rest)),
        decode_utf8(first_frame(framed(encode_utf8(message)) + rest)) == message,
        after_frame(framed(encode_utf8(message)) + rest) == rest,
{
    lemma_delimiter_is_nul(message);
    lemma_two_frames(encode_utf8(message), rest);
    encode_utf8_valid_utf8(message);
    encode_utf8_decode_utf8(message);
}

/// `std::io::Error`. An error of the system is carried through as it is.
#[verifier::external_type_specification]
#[verifier::external_body]
pub struct ExIoError(std::io::Error);

/// Why a message could not be read from the pipe.
#[derive(Debug)]
pub enum PipeReadError {
    /// The frame is not valid UTF-8.
    InvalidUtf8Error,
    /// Cannot read data from pipe.
    IOError(std::io::Error),
}

/// Why a message could not be written to the pipe.
#[derive(Debug)]
pub enum PipeWriteError {
    /// Null character present in string.
    NullCharacterPresent,
    /// Cannot write data to pipe.
    IOError(std::io::Error),
}

/// `String::from_utf8`: the string that the bytes encode, and `None` exactly
/// where the bytes are not valid UTF-8.
#[verifier::external_body]
fn string_from_utf8(bytes: Vec<u8>) -> (r: Option<String>)
    ensures
        r.is_some() == valid_utf8(bytes@),
        r.is_some() ==> r.unwrap()@ == decode_utf8(bytes@),
{
    String::from_utf8(bytes).ok()
}

/// The writing side of the pipe: it frames messages and collects the bytes
/// that are to be written.
pub struct PipeWriter {
    out: Vec<u8>,
}

impl View for PipeWriter {
    type V = Seq<u8>;

    /// The bytes that were framed and not handed out yet.
    closed spec fn view(&self) -> Seq<u8> {
        self.out@
    }
}

impl PipeWriter {
    /// A writer with nothing to write.
    pub fn new() -> (w: Self)
        ensures
            w@ == Seq::<u8>::empty(),
    {
        PipeWriter { out: Vec::new() }
    }

    /// Frames `message`: its bytes and one delimiter are added to the bytes
    /// to be written, and their number is returned. A message that holds a
    /// NUL character is refused and nothing is added: the content of a frame
    /// must not hold the delimiter.
    pub fn write(&mut self, message: String) -> (r: Result<usize, PipeWriteError>)
        ensures
            message@.contains('\0') ==> r is Err && r->Err_0 is NullCharacterPresent
                && final(self)@ == old(self)@,
            !message@.contains('\0') ==> r is Ok && r->Ok_0 == encode_utf8(message@).len() + 1
                && final(self)@ == old(self)@ + framed(encode_utf8(message@)),
    {
        proof {
            lemma_delimiter_is_nul(message@);
        }
        let bytes = message.as_str().as_bytes();
        let ghost payload = encode_utf8(message@);
        let ghost before = self.out@;
        let mut frame: Vec<u8> = Vec::new();
        let mut i: usize = 0;
        while i < bytes.len()
            invariant
                i <= bytes.len(),
                bytes@ == payload,
                payload == encode_utf8(message@),
                payload.contains(DELIMITER) <==> message@.contains('\0'),
                self.out@ == before,
                before == old(self).out@,
                frame@ == payload.take(i as int),
                forall|j: int| 0 <= j < i ==> payload[j] != DELIMITER,
            decreases bytes.len() - i,
        {
            if bytes[i] == DELIMITER {
                assert(payload[i as int] == DELIMITER);
                return Err(PipeWriteError::NullCharacterPresent);
            }
            frame.push(bytes[i]);
            i += 1;
        }
        frame.push(DELIMITER);
        let n = frame.len();
        self.out.append(&mut frame);
        Ok(n)
    }

    /// Hands out the bytes that are to be written, and keeps none.
    pub fn take(&mut self) -> (bytes: Vec<u8>)
        ensures
            bytes@ == old(self)@,
            final(self)@ == Seq::<u8>::empty(),
    {
        let mut bytes: Vec<u8> = Vec::new();
        bytes.append(&mut self.out);
        bytes
    }
}

/// The reading side of the pipe: it is fed the bytes as they arrive and
/// hands out whole messages.
pub struct PipeReader {
    extra_buffer: Vec<u8>,
}

impl View for PipeReader {
    type V = Seq<u8>;

    /// The bytes that were fed and not handed out yet.
    closed spec fn view(&self) -> Seq<u8> {
        self.extra_buffer@
    }
}

impl PipeReader {
    /// A reader that holds no bytes.
    pub fn new() -> (r: Self)
        ensures
            r@ == Seq::<u8>::empty(),
    {
        PipeReader { extra_buffer: Vec::new() }
    }

    /// Takes in the bytes of one read from the pipe.
    pub fn feed(&mut self, chunk: &[u8])
        ensures
            final(self)@ == old(self)@ + chunk@,
    {
        let mut i: usize = 0;
        while i < chunk.len()
            invariant
                i <= chunk.len(),
                self.extra_buffer@ == old(self).extra_buffer@ + chunk@.take(i as int),
            decreases chunk.len() - i,
        {
            self.extra_buffer.push(chunk[i]);
            i += 1;
        }
    }

    /// Hands out the next message, if a whole frame has arrived.
    ///
    /// Without a delimiter among the bytes held, the result is `Ok(None)` and
    /// nothing changes: more bytes are needed. Otherwise the first frame and
    /// its delimiter leave the reader, and the frame is returned as a string;
    /// a frame that is not valid UTF-8 gives `InvalidUtf8Error`.
    pub fn read(&mut self) -> (r: Result<Option<String>, PipeReadError>)
        ensures
            !has_frame(old(self)@) ==> r is Ok && r->Ok_0 is None && final(self)@ == old(self)@,
            has_frame(old(self)@) ==> final(self)@ == after_frame(old(self)@),
            has_frame(old(self)@) && valid_utf8(first_frame(old(self)@)) ==> r is Ok && r->Ok_0
                is Some && r->Ok_0->Some_0@ == decode_utf8(first_frame(old(self)@)),
            has_frame(old(self)@) && !valid_utf8(first_frame(old(self)@)) ==> r is Err
                && r->Err_0 is InvalidUtf8Error,
    {
        let ghost held = self.extra_buffer@;
        let mut k: usize = 0;
        while k < self.extra_buffer.len() && self.extra_buffer[k] != DELIMITER
            invariant
                k <= self.extra_buffer.len(),
                self.extra_buffer@ == held,
                forall|j: int| 0 <= j < k ==> held[j] != DELIMITER,
            decreases self.extra_buffer.len() - k,
        {
            k += 1;
        }
        if k == self.extra_buffer.len() {
            proof {
                if has_frame(held) {
                    assert(held[frame_end(held)] == DELIMITER);
                }
            }
            return Ok(None);
        }
        proof {
            lemma_frame_end_unique(held, k as int);
        }
        let mut frame = self.extra_buffer.split_off(k + 1);
        self.extra_buffer.pop();
        std::mem::swap(&mut self.extra_buffer, &mut frame);
        proof {
            assert(frame@ =~= first_frame(held));
        }
        match string_from_utf8(frame) {
            Some(message) => Ok(Some(message)),
            None => Err(PipeReadError::InvalidUtf8Error),
        }
    }
}

} // verus!
