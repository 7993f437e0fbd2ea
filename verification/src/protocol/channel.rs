//! The channel handshake: a fixed-layout structure exchanged once per
//! connection.
//!
//! ```text
//! +--------------------+---------------------------+---------------------+
//! | 12 bytes: banner   | 32 bytes: channel id/key  | 64 bytes: version   |
//! +--------------------+---------------------------+---------------------+
//! ```
//!
//! The short form ends after the second field.

use vstd::prelude::*;
use vstd::string::*;
use vstd::utf8::{encode_utf8, encode_utf8_decode_utf8, encode_utf8_valid_utf8};

use crate::error::{HdcError, HdcErrorView};
use crate::protocol::packet::{be_bytes, be_value, lemma_be_round_trip};
use crate::protocol::HANDSHAKE_BANNER;
use crate::text::{
    decimal_text, from_utf8_lossy, index_of, lemma_index_of_is, lemma_text_has_no_zero_byte,
    push_decimal, text_lossy,
};

verus! {

/// Channel handshake structure.
#[derive(Debug, Clone)]
pub struct ChannelHandShake {
    /// Banner: `OHOS HDC` and feature flags (12 bytes)
    pub banner: [u8; 12],
    /// Channel id (received from the server) or connect key (sent to it)
    pub channel_id_or_key: [u8; 32],
    /// Version string (64 bytes)
    pub version: [u8; 64],
}

/// The mathematical content of a [`ChannelHandShake`]: its three fields as
/// byte sequences of 12, 32 and 64 bytes.
pub struct HandShakeView {
    pub banner: Seq<u8>,
    pub channel_id_or_key: Seq<u8>,
    pub version: Seq<u8>,
}

impl View for ChannelHandShake {
    type V = HandShakeView;

    open spec fn view(&self) -> HandShakeView {
        HandShakeView {
            banner: self.banner@,
            channel_id_or_key: self.channel_id_or_key@,
            version: self.version@,
        }
    }
}

/// The handshake that `data` holds: the first 12 bytes, the next 32, and
/// the 64 behind them if they are there, else zeros.
pub open spec fn handshake_of(data: Seq<u8>) -> HandShakeView
    recommends
        data.len() >= 44,
{
    HandShakeView {
        banner: data.subrange(0, 12),
        channel_id_or_key: data.subrange(12, 44),
        version: if data.len() >= 108 {
            data.subrange(44, 108)
        } else {
            Seq::new(64, |i: int| 0u8)
        },
    }
}

/// The full form of a handshake: all three fields, 108 bytes.
pub open spec fn full_bytes(hs: HandShakeView) -> Seq<u8> {
    hs.banner + hs.channel_id_or_key + hs.version
}

/// The short form of a handshake: the first two fields, 44 bytes.
pub open spec fn short_bytes(hs: HandShakeView) -> Seq<u8> {
    hs.banner + hs.channel_id_or_key
}

/// True if the banner begins with the eight bytes of the magic literal.
pub open spec fn banner_ok(banner: Seq<u8>) -> bool {
    banner.len() >= 8 && banner.subrange(0, 8) == HANDSHAKE_BANNER@
}

/// A handshake of 44 bytes, read and written back in the short form, is the
/// same 44 bytes; one of 108 bytes comes back in the full form.
pub proof fn lemma_handshake_round_trip(data: Seq<u8>)
    ensures
        data.len() == 44 ==> short_bytes(handshake_of(data)) == data,
        data.len() == 108 ==> full_bytes(handshake_of(data)) == data,
{
    if data.len() == 44 {
        assert(short_bytes(handshake_of(data)) =~= data);
    }
    if data.len() == 108 {
        assert(full_bytes(handshake_of(data)) =~= data);
    }
}

/// The channel id read from a field in which `id` was written is `id`.
pub proof fn lemma_channel_id_round_trip(field: Seq<u8>, id: u32)
    requires
        field.len() >= 4,
    ensures
        be_value(with_channel_id(field, id)) == id,
{
    lemma_be_round_trip(id);
}

/// A connect key without a NUL character whose UTF-8 bytes fit in the 32
/// bytes of the field is read back as it was set. The same holds of the
/// version and its 64 bytes.
pub proof fn lemma_key_round_trip(key: Seq<char>, n: nat)
    requires
        encode_utf8(key).len() <= n,
        !key.contains('\0'),
    ensures
        text_lossy(until_nul(padded(encode_utf8(key), n))) == key,
{
    lemma_text_has_no_zero_byte(key);
    let bytes = encode_utf8(key);
    let field = padded(bytes, n);
    assert forall|k: int| 0 <= k < bytes.len() implies field[k] != 0u8 by {
        if field[k] == 0u8 {
            assert(bytes[k] == 0u8);
            assert(bytes.contains(0u8));
        }
    }
    lemma_index_of_is(field, 0u8, bytes.len() as int);
    assert(until_nul(field) =~= bytes);
    encode_utf8_valid_utf8(key);
    encode_utf8_decode_utf8(key);
}

/// The first `n` bytes of `bytes`, followed by zeros up to the length `n` if
/// `bytes` is shorter.
pub open spec fn padded(bytes: Seq<u8>, n: nat) -> Seq<u8> {
    Seq::new(
        n,
        |i: int|
            if i < bytes.len() {
                bytes[i]
            } else {
                0u8
            },
    )
}

/// The bytes of `field` before its first zero byte; all of it if it holds
/// none.
pub open spec fn until_nul(field: Seq<u8>) -> Seq<u8> {
    field.take(index_of(field, 0u8))
}

/// `field` with its first four bytes replaced by `id` in network byte order.
pub open spec fn with_channel_id(field: Seq<u8>, id: u32) -> Seq<u8>
    recommends
        field.len() >= 4,
{
    be_bytes(id) + field.skip(4)
}

/// The text of the error for handshake data of `len` bytes, fewer than the
/// short form has.
pub open spec fn too_short_text(len: nat) -> Seq<char> {
    "Handshake data too short: expected at least "@ + decimal_text(44) + ", got "@ + decimal_text(
        len,
    )
}

/// Copies `src[from..from + N]` into an array.
fn copy_field<const N: usize>(src: &[u8], from: usize) -> (field: [u8; N])
    requires
        from + N <= src@.len(),
    ensures
        field@ == src@.subrange(from as int, from + N),
{
    let mut field = [0u8; N];
    let mut i: usize = 0;
    assert(src@.len() == src.len());
    while i < N
        invariant
            i <= N,
            from + N <= src@.len() <= usize::MAX,
            forall|k: int| 0 <= k < i ==> field@[k] == src@[from + k],
        decreases N - i,
    {
        field[i] = src[from + i];
        i += 1;
    }
    assert(field@ =~= src@.subrange(from as int, from + N));
    field
}

/// An array that holds the first `N` bytes of `src`, and zeros behind them
/// if `src` is shorter.
fn padded_field<const N: usize>(src: &[u8]) -> (field: [u8; N])
    ensures
        field@ == padded(src@, N as nat),
{
    let mut field = [0u8; N];
    let mut i: usize = 0;
    while i < N && i < src.len()
        invariant
            i <= N,
            i <= src@.len(),
            forall|k: int| 0 <= k < i ==> field@[k] == src@[k],
            forall|k: int| i <= k < N ==> field@[k] == 0u8,
        decreases N - i,
    {
        field[i] = src[i];
        i += 1;
    }
    assert(field@ =~= padded(src@, N as nat));
    field
}

/// The bytes of `field` before its first zero byte.
fn bytes_until_nul(field: &[u8]) -> (bytes: Vec<u8>)
    ensures
        bytes@ == until_nul(field@),
{
    let mut bytes: Vec<u8> = Vec::new();
    let mut i: usize = 0;
    while i < field.len() && field[i] != 0
        invariant
            i <= field@.len(),
            bytes@ == field@.take(i as int),
            forall|k: int| 0 <= k < i ==> field@[k] != 0u8,
        decreases field@.len() - i,
    {
        bytes.push(field[i]);
        i += 1;
        assert(bytes@ =~= field@.take(i as int));
    }
    proof {
        lemma_index_of_is(field@, 0u8, i as int);
    }
    bytes
}

impl ChannelHandShake {
    /// Size of the full handshake structure in bytes (with version)
    pub const SIZE: usize = 12 + 32 + 64;

    /// Size of the handshake without the version field
    pub const SIZE_WITHOUT_VERSION: usize = 12 + 32;

    /// Offset of the feature tag in the banner
    pub const BANNER_FEATURE_TAG_OFFSET: usize = 7;

    /// Tag indicating huge buffer support: the character `1`
    pub const HUGE_BUF_TAG: u8 = 49;

    /// Reads a handshake from raw bytes.
    ///
    /// Two forms are told apart by their length:
    /// - 44 bytes or more: banner and channel id or key (without version)
    /// - 108 bytes or more: banner, channel id or key, and version
    ///
    /// Without a version the field is all zeros. Fewer than 44 bytes are a
    /// protocol error.
    pub fn from_bytes(data: &[u8]) -> (r: Result<Self, HdcError>)
        ensures
            data@.len() < 44 ==> (r matches Err(e) && e@ == HdcErrorView::Protocol(
                too_short_text(data@.len()),
            )),
            data@.len() >= 44 ==> (r matches Ok(hs) && hs@ == handshake_of(data@)),
    {
        if data.len() < Self::SIZE_WITHOUT_VERSION {
            let mut msg = "Handshake data too short: expected at least ".to_owned();
            push_decimal(&mut msg, Self::SIZE_WITHOUT_VERSION as u64);
            msg.append(", got ");
            push_decimal(&mut msg, data.len() as u64);
            return Err(HdcError::Protocol(msg));
        }
        let banner: [u8; 12] = copy_field(data, 0);
        let channel_id_or_key: [u8; 32] = copy_field(data, 12);
        let version: [u8; 64] = if data.len() >= Self::SIZE {
            copy_field(data, 44)
        } else {
            let zeros = [0u8; 64];
            assert(zeros@ =~= Seq::new(64, |i: int| 0u8));
            zeros
        };
        Ok(ChannelHandShake { banner, channel_id_or_key, version })
    }

    /// Converts the handshake to bytes (full form, with version).
    pub fn to_bytes(&self) -> (bytes: Vec<u8>)
        ensures
            bytes@ == full_bytes(self@),
            bytes@.len() == 108,
    {
        let mut bytes: Vec<u8> = Vec::with_capacity(Self::SIZE);
        bytes.extend_from_slice(self.banner.as_slice());
        bytes.extend_from_slice(self.channel_id_or_key.as_slice());
        bytes.extend_from_slice(self.version.as_slice());
        assert(bytes@ =~= self.banner@ + self.channel_id_or_key@ + self.version@);
        bytes
    }

    /// Converts the handshake to bytes without the version field.
    pub fn to_bytes_without_version(&self) -> (bytes: Vec<u8>)
        ensures
            bytes@ == short_bytes(self@),
            bytes@.len() == 44,
    {
        let mut bytes: Vec<u8> = Vec::with_capacity(Self::SIZE_WITHOUT_VERSION);
        bytes.extend_from_slice(self.banner.as_slice());
        bytes.extend_from_slice(self.channel_id_or_key.as_slice());
        assert(bytes@ =~= self.banner@ + self.channel_id_or_key@);
        bytes
    }

    /// Verifies that the banner begins with the magic literal `OHOS HDC`.
    /// Otherwise the error carries the twelve banner bytes.
    pub fn verify_banner(&self) -> (r: Result<(), HdcError>)
        ensures
            banner_ok(self.banner@) ==> r is Ok,
            !banner_ok(self.banner@) ==> (r matches Err(e) && e@ == HdcErrorView::InvalidBanner(
                self.banner@,
            )),
    {
        let mut i: usize = 0;
        while i < 8
            invariant
                i <= 8,
                forall|k: int| 0 <= k < i ==> self.banner@[k] == HANDSHAKE_BANNER@[k],
            decreases 8 - i,
        {
            if self.banner[i] != HANDSHAKE_BANNER[i] {
                assert(self.banner@.subrange(0, 8)[i as int] != HANDSHAKE_BANNER@[i as int]);
                let mut raw: Vec<u8> = Vec::with_capacity(12);
                raw.extend_from_slice(self.banner.as_slice());
                assert(raw@ =~= self.banner@);
                return Err(HdcError::InvalidBanner(raw));
            }
            i += 1;
        }
        assert(self.banner@.subrange(0, 8) =~= HANDSHAKE_BANNER@);
        Ok(())
    }

    /// The channel id that the server assigned: the first four bytes of the
    /// second field, in network byte order.
    pub fn get_channel_id(&self) -> (id: u32)
        ensures
            id == be_value(self.channel_id_or_key@),
    {
        (self.channel_id_or_key[0] as u32) * 16777216 + (self.channel_id_or_key[1] as u32) * 65536
            + (self.channel_id_or_key[2] as u32) * 256 + (self.channel_id_or_key[3] as u32)
    }

    /// Writes `channel_id` into the first four bytes of the second field, in
    /// network byte order.
    pub fn set_channel_id(&mut self, channel_id: u32)
        ensures
            final(self).channel_id_or_key@ == with_channel_id(
                old(self).channel_id_or_key@,
                channel_id,
            ),
            final(self).banner == old(self).banner,
            final(self).version == old(self).version,
    {
        self.channel_id_or_key[0] = (channel_id / 16777216) as u8;
        self.channel_id_or_key[1] = ((channel_id / 65536) % 256) as u8;
        self.channel_id_or_key[2] = ((channel_id / 256) % 256) as u8;
        self.channel_id_or_key[3] = (channel_id % 256) as u8;
        assert(self.channel_id_or_key@ =~= with_channel_id(
            old(self).channel_id_or_key@,
            channel_id,
        ));
    }

    /// Sets the connect key: clears the second field, then writes the UTF-8
    /// bytes of `connect_key` at its start, as many as fit in 32 bytes.
    pub fn set_connect_key(&mut self, connect_key: &str)
        ensures
            final(self).channel_id_or_key@ == padded(connect_key.spec_bytes(), 32),
            final(self).banner == old(self).banner,
            final(self).version == old(self).version,
    {
        self.channel_id_or_key = padded_field(connect_key.as_bytes());
    }

    /// The bytes of the connect key: the second field up to its first zero
    /// byte.
    pub fn connect_key_bytes(&self) -> (bytes: Vec<u8>)
        ensures
            bytes@ == until_nul(self.channel_id_or_key@),
    {
        bytes_until_nul(self.channel_id_or_key.as_slice())
    }

    /// The connect key as text; bytes that are not UTF-8 come out as
    /// replacement characters.
    pub fn get_connect_key(&self) -> (key: String)
        ensures
            key@ == text_lossy(until_nul(self.channel_id_or_key@)),
    {
        let bytes = self.connect_key_bytes();
        from_utf8_lossy(bytes.as_slice())
    }

    /// True unless the feature tag of the banner, its byte at offset 7, is
    /// the tag for huge buffers.
    pub fn is_stable_buf(&self) -> (stable: bool)
        ensures
            stable == (self.banner@[7] != 49u8),
    {
        self.banner[Self::BANNER_FEATURE_TAG_OFFSET] != Self::HUGE_BUF_TAG
    }

    /// The bytes of the version: the third field up to its first zero byte.
    pub fn version_bytes(&self) -> (bytes: Vec<u8>)
        ensures
            bytes@ == until_nul(self.version@),
    {
        bytes_until_nul(self.version.as_slice())
    }

    /// The version as text; bytes that are not UTF-8 come out as replacement
    /// characters.
    pub fn get_version(&self) -> (version: String)
        ensures
            version@ == text_lossy(until_nul(self.version@)),
    {
        let bytes = self.version_bytes();
        from_utf8_lossy(bytes.as_slice())
    }

    /// Sets the version: clears the third field, then writes the UTF-8 bytes
    /// of `version` at its start, as many as fit in 64 bytes.
    pub fn set_version(&mut self, version: &str)
        ensures
            final(self).version@ == padded(version.spec_bytes(), 64),
            final(self).banner == old(self).banner,
            final(self).channel_id_or_key == old(self).channel_id_or_key,
    {
        self.version = padded_field(version.as_bytes());
    }
}

impl Default for ChannelHandShake {
    /// The handshake with every byte zero.
    fn default() -> (hs: Self)
        ensures
            hs.banner@ == Seq::new(12, |i: int| 0u8),
            hs.channel_id_or_key@ == Seq::new(32, |i: int| 0u8),
            hs.version@ == Seq::new(64, |i: int| 0u8),
    {
        let hs = ChannelHandShake {
            banner: [0u8; 12],
            channel_id_or_key: [0u8; 32],
            version: [0u8; 64],
        };
        assert(hs.banner@ =~= Seq::new(12, |i: int| 0u8));
        assert(hs.channel_id_or_key@ =~= Seq::new(32, |i: int| 0u8));
        assert(hs.version@ =~= Seq::new(64, |i: int| 0u8));
        hs
    }
}

} // verus!
