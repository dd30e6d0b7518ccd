//! Length-prefixed framing: a four-byte big-endian length, then the payload.
use vstd::prelude::*;

verus! {

/// Number of bytes of the length field that starts every frame.
pub const LENGTH_PREFIX_LEN: usize = 4;

/// The four bytes of `n` in big-endian order (most significant first).
pub open spec fn be_u32_bytes(n: nat) -> Seq<u8>
    recommends
        n < 0x1_0000_0000,
{
    seq![
        (n / 0x100_0000) as u8,
        ((n / 0x1_0000) % 0x100) as u8,
        ((n / 0x100) % 0x100) as u8,
        (n % 0x100) as u8,
    ]
}

/// The number whose big-endian encoding is the first four bytes of `b`.
pub open spec fn be_u32_value(b: Seq<u8>) -> nat
    recommends
        b.len() >= 4,
{
    (b[0] * 0x100_0000 + b[1] * 0x1_0000 + b[2] * 0x100 + b[3]) as nat
}

/// Big-endian decoding undoes big-endian encoding.
pub proof fn lemma_be_u32_value_of_bytes(n: nat)
    requires
        n < 0x1_0000_0000,
    ensures
        be_u32_bytes(n).len() == 4,
        be_u32_value(be_u32_bytes(n)) == n,
{
}

/// Big-endian encoding undoes big-endian decoding.
pub proof fn lemma_be_u32_bytes_of_value(b: Seq<u8>)
    requires
        b.len() == 4,
    ensures
        be_u32_value(b) < 0x1_0000_0000,
        be_u32_bytes(be_u32_value(b)) =~= b,
{
    let (b0, b1, b2, b3) = (b[0], b[1], b[2], b[3]);
    assert({
        &&& (b0 * 0x100_0000 + b1 * 0x1_0000 + b2 * 0x100 + b3) / 0x100_0000 == b0
        &&& ((b0 * 0x100_0000 + b1 * 0x1_0000 + b2 * 0x100 + b3) / 0x1_0000) % 0x100 == b1
        &&& ((b0 * 0x100_0000 + b1 * 0x1_0000 + b2 * 0x100 + b3) / 0x100) % 0x100 == b2
        &&& (b0 * 0x100_0000 + b1 * 0x1_0000 + b2 * 0x100 + b3) % 0x100 == b3
    }) by (bit_vector);
}

/// Writes `n` as four big-endian bytes.
pub fn encode_u32_be(n: u32) -> (bytes: [u8; 4])
    ensures
        bytes@ == be_u32_bytes(n as nat),
        bytes[0] * 0x100_0000 + bytes[1] * 0x1_0000 + bytes[2] * 0x100 + bytes[3] == n,
{
    let bytes = [
        (n / 0x100_0000) as u8,
        ((n / 0x1_0000) % 0x100) as u8,
        ((n / 0x100) % 0x100) as u8,
        (n % 0x100) as u8,
    ];
    assert(bytes@ =~= be_u32_bytes(n as nat));
    bytes
}

/// Reads four big-endian bytes as a number.
pub fn decode_u32_be(bytes: [u8; 4]) -> (n: u32)
    ensures
        n as nat == be_u32_value(bytes@),
        n == bytes[0] * 0x100_0000 + bytes[1] * 0x1_0000 + bytes[2] * 0x100 + bytes[3],
{
    (bytes[0] as u32) * 0x100_0000 + (bytes[1] as u32) * 0x1_0000 + (bytes[2] as u32) * 0x100
        + (bytes[3] as u32)
}

/// The value of the length field written in front of a payload of `len`
/// bytes. The field holds 32 bits, so a payload of 2^32 bytes or more is
/// announced with its length modulo 2^32.
pub open spec fn length_field(len: nat) -> nat {
    len % 0x1_0000_0000
}

/// The frame that carries `payload`: its length field, then the payload.
pub open spec fn frame(payload: Seq<u8>) -> Seq<u8> {
    be_u32_bytes(length_field(payload.len())) + payload
}

/// Why a frame could not be read.
#[derive(Clone, Copy, Debug, PartialEq, Eq, Structural)]
pub enum FrameError {
    /// The input ended before the length field or the payload was complete.
    UnexpectedEof,
    /// The length field announced an empty payload, which is refused.
    EmptyMessage,
}

/// Reading one frame from the start of `buf`: the payload and the number of
/// bytes the frame took, or why it cannot be read. A zero length field is
/// refused: every frame carries a payload.
pub open spec fn frame_decoding(buf: Seq<u8>) -> Result<(Seq<u8>, nat), FrameError> {
    if buf.len() < LENGTH_PREFIX_LEN {
        Err(FrameError::UnexpectedEof)
    } else {
        let len = be_u32_value(buf);
        if len == 0 {
            Err(FrameError::EmptyMessage)
        } else if buf.len() < LENGTH_PREFIX_LEN + len {
            Err(FrameError::UnexpectedEof)
        } else {
            Ok((buf.subrange(4, 4 + len as int), 4 + len))
        }
    }
}

/// The length field for a payload of `len` bytes, as four big-endian bytes.
pub fn encode_length_prefix(len: usize) -> (bytes: [u8; 4])
    ensures
        bytes@ == be_u32_bytes(length_field(len as nat)),
        bytes[0] * 0x100_0000 + bytes[1] * 0x1_0000 + bytes[2] * 0x100 + bytes[3] == (len as nat)
            % 0x1_0000_0000,
{
    let n: u32 = ((len as u64) % 0x1_0000_0000) as u32;
    encode_u32_be(n)
}

/// The payload length announced by a length field; a zero length is
/// refused.
pub fn decode_frame_length(header: [u8; 4]) -> (res: Result<usize, FrameError>)
    ensures
        be_u32_value(header@) == 0 ==> res == Err::<usize, FrameError>(FrameError::EmptyMessage),
        be_u32_value(header@) != 0 ==> res == Ok::<usize, FrameError>(
            be_u32_value(header@) as usize,
        ),
        res matches Ok(len) ==> len == header[0] * 0x100_0000 + header[1] * 0x1_0000 + header[2]
            * 0x100 + header[3] && len > 0,
        res is Err ==> header[0] == 0 && header[1] == 0 && header[2] == 0 && header[3] == 0,
{
    let len = decode_u32_be(header);
    if len == 0 {
        Err(FrameError::EmptyMessage)
    } else {
        Ok(len as usize)
    }
}

/// The frame that carries `payload`.
pub fn encode_frame(payload: &[u8]) -> (out: Vec<u8>)
    ensures
        out@ == frame(payload@),
        out@.len() == LENGTH_PREFIX_LEN + payload@.len(),
        out@.subrange(4, out@.len() as int) == payload@,
        out@[0] * 0x100_0000 + out@[1] * 0x1_0000 + out@[2] * 0x100 + out@[3] == payload@.len()
            % 0x1_0000_0000,
{
    let header = encode_length_prefix(payload.len());
    let mut out: Vec<u8> = Vec::new();
    for i in 0..4usize
        invariant
            out@ == header@.take(i as int),
    {
        out.push(header[i]);
    }
    assert(header@.take(4) =~= header@);
    let n = payload.len();
    for i in 0..n
        invariant
            n == payload@.len(),
            out@ == header@ + payload@.take(i as int),
    {
        out.push(payload[i]);
        assert(payload@.take(i + 1) =~= payload@.take(i as int).push(payload@[i as int]));
    }
    assert(payload@.take(n as int) =~= payload@);
    proof {
        lemma_frame_layout(payload@);
    }
    out
}

/// Reads one frame from the start of `buf`.
pub fn decode_frame(buf: &[u8]) -> (res: Result<(Vec<u8>, usize), FrameError>)
    ensures
        match frame_decoding(buf@) {
            Ok((payload, used)) => res matches Ok((out, n)) && out@ == payload && n == used,
            Err(e) => res == Err::<(Vec<u8>, usize), FrameError>(e),
        },
        res matches Ok((out, n)) ==> buf@.len() >= 4 && n == 4 + buf@[0] * 0x100_0000 + buf@[1]
            * 0x1_0000 + buf@[2] * 0x100 + buf@[3] && out@ == buf@.subrange(4, n as int),
{
    if buf.len() < LENGTH_PREFIX_LEN {
        return Err(FrameError::UnexpectedEof);
    }
    let header = [buf[0], buf[1], buf[2], buf[3]];
    assert(header@ =~= buf@.take(4));
    let len: usize = decode_frame_length(header)?;
    if buf.len() - LENGTH_PREFIX_LEN < len {
        return Err(FrameError::UnexpectedEof);
    }
    proof {
        lemma_frame_decoding_layout(buf@);
    }
    let end = LENGTH_PREFIX_LEN + len;
    let mut out: Vec<u8> = Vec::new();
    for i in LENGTH_PREFIX_LEN..end
        invariant
            end <= buf@.len(),
            out@ == buf@.subrange(4, i as int),
    {
        out.push(buf[i]);
        assert(buf@.subrange(4, i + 1) =~= buf@.subrange(4, i as int).push(buf@[i as int]));
    }
    Ok((out, end))
}

/// A frame read back from the start of a stream gives the payload that was
/// written, and takes exactly the bytes of that frame, whatever follows it,
/// provided the payload is not empty and its length fits the 32-bit length
/// field.
pub proof fn lemma_frame_roundtrip(payload: Seq<u8>, rest: Seq<u8>)
    requires
        0 < payload.len() < 0x1_0000_0000,
    ensures
        frame_decoding(frame(payload) + rest) == Ok::<(Seq<u8>, nat), FrameError>(
            (payload, (LENGTH_PREFIX_LEN + payload.len()) as nat),
        ),
{
    let buf = frame(payload) + rest;
    lemma_be_u32_value_of_bytes(payload.len());
    assert(buf.subrange(0, 4) =~= be_u32_bytes(payload.len()));
    assert(be_u32_value(buf) == be_u32_value(buf.subrange(0, 4)));
    assert(buf.subrange(4, 4 + payload.len() as int) =~= payload);
}

/// A frame that was read is exactly the frame written for its payload: the
/// bytes it took are the encoding of what it gave.
pub proof fn lemma_frame_decoding_canonical(buf: Seq<u8>)
    ensures
        frame_decoding(buf) matches Ok((payload, used)) ==> frame(payload)
            == buf.subrange(0, used as int),
{
    if let Ok((payload, used)) = frame_decoding(buf) {
        let header = buf.subrange(0, 4);
        lemma_be_u32_bytes_of_value(header);
        assert(be_u32_value(header) == be_u32_value(buf));
        assert(length_field(payload.len()) == be_u32_value(buf));
        assert(frame(payload) =~= buf.subrange(0, used as int));
    }
}

/// The frame written for an empty payload is written but refused on reading.
pub proof fn lemma_empty_frame(rest: Seq<u8>)
    ensures
        frame(Seq::empty()) =~= seq![0u8, 0u8, 0u8, 0u8],
        frame_decoding(frame(Seq::empty()) + rest) == Err::<(Seq<u8>, nat), FrameError>(
            FrameError::EmptyMessage,
        ),
{
    let buf = frame(Seq::empty()) + rest;
    lemma_be_u32_value_of_bytes(0);
    assert(be_u32_value(buf) == be_u32_value(be_u32_bytes(0)));
}

/// Big-endian decoding gives the positional value of the first four bytes,
/// most significant first.
pub proof fn lemma_be_u32_value_positional(b: Seq<u8>)
    requires
        b.len() >= 4,
    ensures
        be_u32_value(b) == b[0] * 0x100_0000 + b[1] * 0x1_0000 + b[2] * 0x100 + b[3],
{
}

/// Big-endian encoding of a number below 2^32 gives four bytes whose
/// positional value, most significant first, is that number.
pub proof fn lemma_be_u32_bytes_positional(n: nat)
    requires
        n < 0x1_0000_0000,
    ensures
        be_u32_bytes(n).len() == 4,
        be_u32_bytes(n)[0] * 0x100_0000 + be_u32_bytes(n)[1] * 0x1_0000 + be_u32_bytes(n)[2]
            * 0x100 + be_u32_bytes(n)[3] == n,
{
    lemma_be_u32_value_of_bytes(n);
}

/// The length field holds the payload's length, reduced modulo 2^32: a
/// length below 2^32 is written as it is.
pub proof fn lemma_length_field_is_length(len: nat)
    ensures
        length_field(len) == len % 0x1_0000_0000,
        len < 0x1_0000_0000 ==> length_field(len) == len,
{
}

/// The frame of a payload is four bytes whose big-endian value is the
/// payload's length (modulo 2^32), followed by the payload's bytes unchanged
/// and in order.
pub proof fn lemma_frame_layout(payload: Seq<u8>)
    ensures
        frame(payload).len() == 4 + payload.len(),
        frame(payload).subrange(4, frame(payload).len() as int) == payload,
        frame(payload)[0] * 0x100_0000 + frame(payload)[1] * 0x1_0000 + frame(payload)[2] * 0x100
            + frame(payload)[3] == payload.len() % 0x1_0000_0000,
{
    let f = frame(payload);
    let n = payload.len() % 0x1_0000_0000;
    lemma_be_u32_bytes_positional(n);
    assert(f.subrange(4, f.len() as int) =~= payload);
}

/// Reading a frame, told in terms of the input bytes alone: fewer than four
/// bytes end too early; otherwise the first four give a big-endian length
/// `len`, zero is refused, a buffer shorter than `4 + len` ends too early,
/// and else the payload is the bytes `4 .. 4 + len` as they stand, and the
/// frame takes `4 + len` bytes.
pub proof fn lemma_frame_decoding_layout(buf: Seq<u8>)
    ensures
        buf.len() < 4 ==> frame_decoding(buf) == Err::<(Seq<u8>, nat), FrameError>(
            FrameError::UnexpectedEof,
        ),
        buf.len() >= 4 && buf[0] * 0x100_0000 + buf[1] * 0x1_0000 + buf[2] * 0x100 + buf[3] == 0
            ==> frame_decoding(buf) == Err::<(Seq<u8>, nat), FrameError>(FrameError::EmptyMessage),
        buf.len() >= 4 && buf[0] * 0x100_0000 + buf[1] * 0x1_0000 + buf[2] * 0x100 + buf[3] > 0
            && buf.len() < 4 + buf[0] * 0x100_0000 + buf[1] * 0x1_0000 + buf[2] * 0x100 + buf[3]
            ==> frame_decoding(buf) == Err::<(Seq<u8>, nat), FrameError>(
            FrameError::UnexpectedEof,
        ),
        buf.len() >= 4 && buf[0] * 0x100_0000 + buf[1] * 0x1_0000 + buf[2] * 0x100 + buf[3] > 0
            && buf.len() >= 4 + buf[0] * 0x100_0000 + buf[1] * 0x1_0000 + buf[2] * 0x100 + buf[3]
            ==> frame_decoding(buf) == Ok::<(Seq<u8>, nat), FrameError>(
            (
                buf.subrange(
                    4,
                    4 + buf[0] * 0x100_0000 + buf[1] * 0x1_0000 + buf[2] * 0x100 + buf[3],
                ),
                (4 + buf[0] * 0x100_0000 + buf[1] * 0x1_0000 + buf[2] * 0x100 + buf[3]) as nat,
            ),
        ),
{
}

} // verus!
