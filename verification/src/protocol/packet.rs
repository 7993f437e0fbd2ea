//! The frame codec: a four-byte big-endian length, then that many payload
//! bytes.

use bytes::BufMut;
use vstd::prelude::*;
use vstd::string::*;

use crate::error::{HdcError, HdcErrorView};
use crate::protocol::{MAX_PACKET_SIZE, PACKET_LENGTH_SIZE};
use crate::text::{decimal_text, push_decimal};

verus! {

/// The four bytes of `n` in network byte order, most significant first.
pub open spec fn be_bytes(n: u32) -> Seq<u8> {
    seq![
        (n / 16777216) as u8,
        ((n / 65536) % 256) as u8,
        ((n / 256) % 256) as u8,
        (n % 256) as u8,
    ]
}

/// The number that the first four bytes of `bytes` hold in network byte
/// order.
pub open spec fn be_value(bytes: Seq<u8>) -> nat
    recommends
        bytes.len() >= 4,
{
    (bytes[0] as nat) * 16777216 + (bytes[1] as nat) * 65536 + (bytes[2] as nat) * 256
        + bytes[3] as nat
}

/// The frame that carries `payload`: its length, then the payload itself.
pub open spec fn frame_of(payload: Seq<u8>) -> Seq<u8>
    recommends
        payload.len() <= MAX_PACKET_SIZE,
{
    be_bytes(payload.len() as u32) + payload
}

/// What reading one frame from the front of a byte stream gives.
pub enum Decoded {
    /// A whole frame was there; its payload.
    Payload(Seq<u8>),
    /// The stream ended inside the length prefix or inside the payload.
    Closed,
    /// The length prefix says zero.
    ZeroLength,
    /// The length prefix says more than a frame may carry.
    TooLong(nat),
}

/// What a length prefix announces: the payload length if it is between 1 and
/// `MAX_PACKET_SIZE`.
pub open spec fn announced(header: Seq<u8>) -> Decoded
    recommends
        header.len() >= 4,
{
    let n = be_value(header);
    if n == 0 {
        Decoded::ZeroLength
    } else if n > MAX_PACKET_SIZE {
        Decoded::TooLong(n)
    } else {
        Decoded::Payload(Seq::empty())
    }
}

/// Reading one frame from the front of `stream`. Bytes behind the frame are
/// left for the next read.
pub open spec fn decoded(stream: Seq<u8>) -> Decoded {
    if stream.len() < 4 {
        Decoded::Closed
    } else {
        match announced(stream) {
            Decoded::Payload(_) => if stream.len() < 4 + be_value(stream) {
                Decoded::Closed
            } else {
                Decoded::Payload(stream.subrange(4, 4 + be_value(stream) as int))
            },
            other => other,
        }
    }
}

/// The text of the error for a payload of `len` bytes that is too long to
/// be framed.
pub open spec fn encode_oversize_text(len: nat) -> Seq<char> {
    "Data size "@ + decimal_text(len) + " exceeds maximum packet size "@ + decimal_text(
        MAX_PACKET_SIZE as nat,
    )
}

/// The text of the error for a length prefix of zero.
pub open spec fn zero_length_text() -> Seq<char> {
    "Received zero-length packet"@
}

/// The text of the error for a length prefix of `len`, more than a frame may
/// carry.
pub open spec fn decode_oversize_text(len: nat) -> Seq<char> {
    "Packet size "@ + decimal_text(len) + " exceeds maximum "@ + decimal_text(
        MAX_PACKET_SIZE as nat,
    )
}

/// Whether a decoding result is the one that `expected` describes: the
/// payload, or the error that stands for the failure.
pub open spec fn decode_result_is(r: Result<Vec<u8>, HdcError>, expected: Decoded) -> bool {
    match expected {
        Decoded::Payload(p) => r matches Ok(v) && v@ == p,
        Decoded::Closed => r matches Err(HdcError::Io(_)),
        Decoded::ZeroLength => r matches Err(e) && e@ == HdcErrorView::Protocol(
            zero_length_text(),
        ),
        Decoded::TooLong(n) => r matches Err(e) && e@ == HdcErrorView::Protocol(
            decode_oversize_text(n),
        ),
    }
}

/// Reading back the length prefix written for `n` gives `n`.
pub proof fn lemma_be_round_trip(n: u32)
    ensures
        be_value(be_bytes(n)) == n,
        be_bytes(n).len() == 4,
{
}

/// A framed payload decodes to itself. The one exception is the empty
/// payload: it can be framed, but a frame of length zero is rejected when
/// read.
pub proof fn lemma_frame_round_trip(payload: Seq<u8>)
    requires
        payload.len() <= MAX_PACKET_SIZE,
    ensures
        payload.len() > 0 ==> decoded(frame_of(payload)) == Decoded::Payload(payload),
        payload.len() == 0 ==> decoded(frame_of(payload)) == Decoded::ZeroLength,
{
    let f = frame_of(payload);
    lemma_be_round_trip(payload.len() as u32);
    assert(be_value(f) == payload.len());
    if payload.len() > 0 {
        assert(f.subrange(4, 4 + payload.len() as int) =~= payload);
    }
}

/// `BufMut::put_u32` of the `bytes` crate on a `Vec<u8>`: appends the four
/// bytes of `n`, most significant first. The vector grows as needed, so the
/// call only fails where the new length would pass `isize::MAX`.
#[verifier::external_body]
fn put_u32(buf: &mut Vec<u8>, n: u32)
    requires
        old(buf)@.len() + 4 <= isize::MAX,
    ensures
        final(buf)@ == old(buf)@ + be_bytes(n),
{
    buf.put_u32(n)
}

/// `std::io::Error::from` on `ErrorKind::UnexpectedEof`: the error that a
/// reader gives when its stream ends before the bytes asked for.
#[verifier::external_body]
fn unexpected_eof() -> std::io::Error {
    std::io::Error::from(std::io::ErrorKind::UnexpectedEof)
}

/// Codec for the length-prefixed frames of the protocol.
pub struct PacketCodec {}

impl PacketCodec {
    /// Creates a new packet codec.
    pub fn new() -> (codec: Self) {
        PacketCodec {  }
    }

    /// Frames `data`: the length as four big-endian bytes, then the data.
    /// Fails when the data is longer than `MAX_PACKET_SIZE`.
    pub fn encode(&self, data: &[u8]) -> (r: Result<Vec<u8>, HdcError>)
        ensures
            data@.len() <= MAX_PACKET_SIZE ==> (r matches Ok(frame) && frame@ == frame_of(data@)),
            data@.len() > MAX_PACKET_SIZE ==> (r matches Err(e) && e@ == HdcErrorView::BufferError(
                encode_oversize_text(data@.len()),
            )),
    {
        if data.len() > MAX_PACKET_SIZE {
            let mut msg = "Data size ".to_owned();
            push_decimal(&mut msg, data.len() as u64);
            msg.append(" exceeds maximum packet size ");
            push_decimal(&mut msg, MAX_PACKET_SIZE as u64);
            return Err(HdcError::BufferError(msg));
        }
        let size: u32 = data.len() as u32;
        let mut buf: Vec<u8> = Vec::with_capacity(PACKET_LENGTH_SIZE + data.len());
        put_u32(&mut buf, size);
        buf.extend_from_slice(data);
        assert(buf@ =~= frame_of(data@));
        Ok(buf)
    }

    /// Checks the four bytes of a length prefix and gives the number of
    /// payload bytes that follow it. A length of zero and a length over
    /// `MAX_PACKET_SIZE` are protocol errors.
    pub fn payload_length(&self, header: &[u8; 4]) -> (r: Result<usize, HdcError>)
        ensures
            match announced(header@) {
                Decoded::Payload(_) => r matches Ok(n) && n == be_value(header@),
                Decoded::ZeroLength => r matches Err(e) && e@ == HdcErrorView::Protocol(
                    zero_length_text(),
                ),
                Decoded::TooLong(n) => r matches Err(e) && e@ == HdcErrorView::Protocol(
                    decode_oversize_text(n),
                ),
                Decoded::Closed => false,
            },
    {
        let packet_len: u32 = (header[0] as u32) * 16777216 + (header[1] as u32) * 65536 + (
        header[2] as u32) * 256 + (header[3] as u32);
        if packet_len == 0 {
            return Err(HdcError::Protocol("Received zero-length packet".to_owned()));
        }
        if packet_len as usize > MAX_PACKET_SIZE {
            let mut msg = "Packet size ".to_owned();
            push_decimal(&mut msg, packet_len as u64);
            msg.append(" exceeds maximum ");
            push_decimal(&mut msg, MAX_PACKET_SIZE as u64);
            return Err(HdcError::Protocol(msg));
        }
        Ok(packet_len as usize)
    }

    /// Reads one frame from the front of `stream` and gives its payload.
    /// Fails with an I/O error when the stream ends inside the frame, and
    /// with a protocol error when the length is zero or over
    /// `MAX_PACKET_SIZE`.
    pub fn decode(&mut self, stream: &[u8]) -> (r: Result<Vec<u8>, HdcError>)
        ensures
            decode_result_is(r, decoded(stream@)),
    {
        if stream.len() < PACKET_LENGTH_SIZE {
            return Err(HdcError::Io(unexpected_eof()));
        }
        let header: [u8; 4] = [stream[0], stream[1], stream[2], stream[3]];
        assert(be_value(header@) == be_value(stream@));
        let packet_len = match self.payload_length(&header) {
            Ok(n) => n,
            Err(e) => {
                return Err(e);
            },
        };
        if stream.len() - PACKET_LENGTH_SIZE < packet_len {
            return Err(HdcError::Io(unexpected_eof()));
        }
        let mut data: Vec<u8> = Vec::with_capacity(packet_len);
        let mut i: usize = 0;
        while i < packet_len
            invariant
                i <= packet_len <= MAX_PACKET_SIZE,
                4 + packet_len <= stream@.len(),
                data@ == stream@.subrange(4, 4 + i as int),
            decreases packet_len - i,
        {
            data.push(stream[4 + i]);
            i += 1;
            assert(data@ =~= stream@.subrange(4, 4 + i as int));
        }
        Ok(data)
    }

    /// Reads one frame from the front of `stream`; the same as `decode`.
    pub fn read_packet(&mut self, stream: &[u8]) -> (r: Result<Vec<u8>, HdcError>)
        ensures
            decode_result_is(r, decoded(stream@)),
    {
        self.decode(stream)
    }
}

impl Default for PacketCodec {
    fn default() -> (codec: Self) {
        PacketCodec::new()
    }
}

} // verus!
