//! What every value on the wire provides: its mathematical model, the bytes
//! that spell it, and the decoder and encoder proved against both.

use vstd::prelude::*;
use crate::error::OpenRgbError;
use crate::protocol::message::{ReceivedMessage, WriteMessage};

verus! {

/// A value that can be decoded from a cursor over a received message.
pub trait DeserFromBuf: Sized {
    /// The mathematical value that a decoded value stands for.
    type Model;

    /// The model of this value.
    spec fn model(&self) -> Self::Model;

    /// The value spelled by a prefix of `bytes` at `protocol`, with the length
    /// of that prefix; `None` where no prefix spells one.
    spec fn spec_deserialize(bytes: Seq<u8>, protocol: u32) -> Option<(Self::Model, int)>;

    /// A decoded value never extends past the bytes it was decoded from.
    proof fn lemma_deserialize_len(bytes: Seq<u8>, protocol: u32)
        ensures
            Self::spec_deserialize(bytes, protocol) matches Some((_, n)) ==> 0 <= n <= bytes.len(),
    ;

    /// Decodes one value at the cursor and moves the cursor past it. Fails
    /// with `MalformedMessage`, and leaves the cursor where it was, exactly
    /// where the remaining bytes spell no value.
    fn deserialize(buf: &mut ReceivedMessage<'_>) -> (res: Result<Self, OpenRgbError>)
        ensures
            final(buf).protocol_version() == old(buf).protocol_version(),
            match Self::spec_deserialize(old(buf).remaining(), old(buf).protocol_version()) {
                Some((m, n)) => {
                    &&& res is Ok
                    &&& res->Ok_0.model() == m
                    &&& final(buf).remaining() == old(buf).remaining().skip(n)
                },
                None => {
                    &&& res == Err::<Self, OpenRgbError>(OpenRgbError::MalformedMessage)
                    &&& final(buf).remaining() == old(buf).remaining()
                },
            },
    ;
}

/// A value that can be encoded at the end of a message under construction.
pub trait SerToBuf: DeserFromBuf {
    /// The bytes that spell `m` at `protocol`.
    spec fn spec_serialize(m: Self::Model, protocol: u32) -> Seq<u8>;

    /// Whether `m` can be spelled at `protocol`: every length and count fits
    /// its field, every part that `protocol` transmits is there, and the
    /// bytes are such that decoding accepts them.
    spec fn encodable(m: Self::Model, protocol: u32) -> bool;

    /// What decoding yields for the bytes of `m`: `m` itself, but for the
    /// parts that are not transmitted at `protocol`.
    spec fn canonical(m: Self::Model, protocol: u32) -> Self::Model;

    /// Decoding the bytes of an encodable value, whatever follows them, gives
    /// the value's canonical form and consumes exactly those bytes.
    proof fn lemma_round_trip(m: Self::Model, protocol: u32, rest: Seq<u8>)
        requires
            Self::encodable(m, protocol),
        ensures
            Self::spec_deserialize(Self::spec_serialize(m, protocol) + rest, protocol) == Some(
                (Self::canonical(m, protocol), Self::spec_serialize(m, protocol).len() as int),
            ),
    ;

    /// What decoding gives is in canonical form.
    proof fn lemma_decoded_is_canonical(bytes: Seq<u8>, protocol: u32)
        ensures
            Self::spec_deserialize(bytes, protocol) matches Some((m, _)) ==> Self::canonical(
                m,
                protocol,
            ) == m,
    ;

    /// Appends the bytes of this value. Fails with `NotEncodable`, and
    /// appends nothing, exactly where the value is not encodable.
    fn serialize(&self, buf: &mut WriteMessage) -> (res: Result<(), OpenRgbError>)
        ensures
            final(buf).protocol_version() == old(buf).protocol_version(),
            res is Ok <==> Self::encodable(self.model(), old(buf).protocol_version()),
            res is Ok ==> final(buf).bytes() == old(buf).bytes() + Self::spec_serialize(
                self.model(),
                old(buf).protocol_version(),
            ),
            res is Err ==> res == Err::<(), OpenRgbError>(
                OpenRgbError::CommandError(crate::error::CommandError::NotEncodable),
            ) && final(buf).bytes() == old(buf).bytes(),
    ;
}

/// The unsigned 16-bit integer spelled by the first two of `bytes`, least
/// significant byte first.
#[verifier::opaque]
pub open spec fn spec_u16_le(bytes: Seq<u8>) -> u16 {
    (bytes[0] as int + 256 * (bytes[1] as int)) as u16
}

/// The unsigned 32-bit integer spelled by the first four of `bytes`, least
/// significant byte first.
#[verifier::opaque]
pub open spec fn spec_u32_le(bytes: Seq<u8>) -> u32 {
    (bytes[0] as int + 256 * (bytes[1] as int) + 65536 * (bytes[2] as int) + 16777216 * (
    bytes[3] as int)) as u32
}

/// The two bytes of `x`, least significant first.
#[verifier::opaque]
pub open spec fn spec_u16_bytes(x: u16) -> Seq<u8> {
    seq![(x % 256) as u8, (x / 256) as u8]
}

/// The four bytes of `x`, least significant first.
#[verifier::opaque]
pub open spec fn spec_u32_bytes(x: u32) -> Seq<u8> {
    seq![
        (x % 256) as u8,
        ((x / 256) % 256) as u8,
        ((x / 65536) % 256) as u8,
        (x / 16777216) as u8,
    ]
}

/// An integer is spelled by as many bytes as its width, and is what its bytes
/// spell, whatever follows them.
pub proof fn lemma_int_bytes(x16: u16, x32: u32, rest: Seq<u8>)
    ensures
        spec_u16_bytes(x16).len() == 2,
        spec_u32_bytes(x32).len() == 4,
        spec_u16_le(spec_u16_bytes(x16) + rest) == x16,
        spec_u32_le(spec_u32_bytes(x32) + rest) == x32,
{
    reveal(spec_u16_le);
    reveal(spec_u32_le);
    reveal(spec_u16_bytes);
    reveal(spec_u32_bytes);
}

/// Concatenation is associative.
pub proof fn lemma_concat(a: Seq<u8>, b: Seq<u8>, c: Seq<u8>)
    ensures
        (a + b) + c == a + (b + c),
{
    assert((a + b) + c =~= a + (b + c));
}

/// The signed integer that shares its two's complement bits with `u`.
pub open spec fn spec_i32_of_bits(u: u32) -> i32 {
    if u < 0x8000_0000 {
        u as i32
    } else {
        (u - 0x1_0000_0000) as i32
    }
}

/// The two's complement bits of `i`, read as an unsigned integer.
pub open spec fn spec_bits_of_i32(i: i32) -> u32 {
    if i >= 0 {
        i as u32
    } else {
        (i + 0x1_0000_0000) as u32
    }
}

impl DeserFromBuf for u8 {
    type Model = u8;

    open spec fn model(&self) -> u8 {
        *self
    }

    open spec fn spec_deserialize(bytes: Seq<u8>, protocol: u32) -> Option<(u8, int)> {
        if bytes.len() >= 1 {
            Some((bytes[0], 1))
        } else {
            None
        }
    }

    proof fn lemma_deserialize_len(bytes: Seq<u8>, protocol: u32) {
    }

    fn deserialize(buf: &mut ReceivedMessage<'_>) -> (res: Result<u8, OpenRgbError>) {
        buf.read_u8()
    }
}

impl SerToBuf for u8 {
    open spec fn spec_serialize(m: u8, protocol: u32) -> Seq<u8> {
        seq![m]
    }

    open spec fn encodable(m: u8, protocol: u32) -> bool {
        true
    }

    open spec fn canonical(m: u8, protocol: u32) -> u8 {
        m
    }

    proof fn lemma_round_trip(m: u8, protocol: u32, rest: Seq<u8>) {
    }

    proof fn lemma_decoded_is_canonical(bytes: Seq<u8>, protocol: u32) {
    }

    fn serialize(&self, buf: &mut WriteMessage) -> (res: Result<(), OpenRgbError>) {
        buf.write_u8(*self);
        Ok(())
    }
}

impl DeserFromBuf for u16 {
    type Model = u16;

    open spec fn model(&self) -> u16 {
        *self
    }

    open spec fn spec_deserialize(bytes: Seq<u8>, protocol: u32) -> Option<(u16, int)> {
        if bytes.len() >= 2 {
            Some((spec_u16_le(bytes), 2))
        } else {
            None
        }
    }

    proof fn lemma_deserialize_len(bytes: Seq<u8>, protocol: u32) {
    }

    fn deserialize(buf: &mut ReceivedMessage<'_>) -> (res: Result<u16, OpenRgbError>) {
        buf.read_u16()
    }
}

impl SerToBuf for u16 {
    open spec fn spec_serialize(m: u16, protocol: u32) -> Seq<u8> {
        spec_u16_bytes(m)
    }

    open spec fn encodable(m: u16, protocol: u32) -> bool {
        true
    }

    open spec fn canonical(m: u16, protocol: u32) -> u16 {
        m
    }

    proof fn lemma_round_trip(m: u16, protocol: u32, rest: Seq<u8>) {
        lemma_int_bytes(m, 0, rest);
    }

    proof fn lemma_decoded_is_canonical(bytes: Seq<u8>, protocol: u32) {
    }

    fn serialize(&self, buf: &mut WriteMessage) -> (res: Result<(), OpenRgbError>) {
        buf.write_u16(*self);
        Ok(())
    }
}

impl DeserFromBuf for u32 {
    type Model = u32;

    open spec fn model(&self) -> u32 {
        *self
    }

    open spec fn spec_deserialize(bytes: Seq<u8>, protocol: u32) -> Option<(u32, int)> {
        if bytes.len() >= 4 {
            Some((spec_u32_le(bytes), 4))
        } else {
            None
        }
    }

    proof fn lemma_deserialize_len(bytes: Seq<u8>, protocol: u32) {
    }

    fn deserialize(buf: &mut ReceivedMessage<'_>) -> (res: Result<u32, OpenRgbError>) {
        buf.read_u32()
    }
}

impl SerToBuf for u32 {
    open spec fn spec_serialize(m: u32, protocol: u32) -> Seq<u8> {
        spec_u32_bytes(m)
    }

    open spec fn encodable(m: u32, protocol: u32) -> bool {
        true
    }

    open spec fn canonical(m: u32, protocol: u32) -> u32 {
        m
    }

    proof fn lemma_round_trip(m: u32, protocol: u32, rest: Seq<u8>) {
        lemma_int_bytes(0, m, rest);
    }

    proof fn lemma_decoded_is_canonical(bytes: Seq<u8>, protocol: u32) {
    }

    fn serialize(&self, buf: &mut WriteMessage) -> (res: Result<(), OpenRgbError>) {
        buf.write_u32(*self);
        Ok(())
    }
}

impl DeserFromBuf for i32 {
    type Model = i32;

    open spec fn model(&self) -> i32 {
        *self
    }

    open spec fn spec_deserialize(bytes: Seq<u8>, protocol: u32) -> Option<(i32, int)> {
        if bytes.len() >= 4 {
            Some((spec_i32_of_bits(spec_u32_le(bytes)), 4))
        } else {
            None
        }
    }

    proof fn lemma_deserialize_len(bytes: Seq<u8>, protocol: u32) {
    }

    fn deserialize(buf: &mut ReceivedMessage<'_>) -> (res: Result<i32, OpenRgbError>) {
        buf.read_i32()
    }
}

impl SerToBuf for i32 {
    open spec fn spec_serialize(m: i32, protocol: u32) -> Seq<u8> {
        spec_u32_bytes(spec_bits_of_i32(m))
    }

    open spec fn encodable(m: i32, protocol: u32) -> bool {
        true
    }

    open spec fn canonical(m: i32, protocol: u32) -> i32 {
        m
    }

    proof fn lemma_round_trip(m: i32, protocol: u32, rest: Seq<u8>) {
        lemma_int_bytes(0, spec_bits_of_i32(m), rest);
    }

    proof fn lemma_decoded_is_canonical(bytes: Seq<u8>, protocol: u32) {
    }

    fn serialize(&self, buf: &mut WriteMessage) -> (res: Result<(), OpenRgbError>) {
        buf.write_i32(*self);
        Ok(())
    }
}

/// Decoding the bytes of `m`, whatever follows them, gives the canonical form
/// of `m` and leaves exactly what followed.
pub proof fn lemma_field<T: SerToBuf>(m: T::Model, protocol: u32, tail: Seq<u8>)
    requires
        T::encodable(m, protocol),
    ensures
        T::spec_deserialize(T::spec_serialize(m, protocol) + tail, protocol) == Some(
            (T::canonical(m, protocol), T::spec_serialize(m, protocol).len() as int),
        ),
        (T::spec_serialize(m, protocol) + tail).skip(T::spec_serialize(m, protocol).len() as int)
            == tail,
{
    T::lemma_round_trip(m, protocol, tail);
    assert((T::spec_serialize(m, protocol) + tail).skip(
        T::spec_serialize(m, protocol).len() as int,
    ) =~= tail);
}


/// Skipping twice is skipping once by the sum.
pub proof fn lemma_skip_skip(bytes: Seq<u8>, a: int, b: int)
    requires
        0 <= a <= bytes.len(),
        0 <= b <= bytes.len() - a,
    ensures
        bytes.skip(a).skip(b) == bytes.skip(a + b),
{
    assert(bytes.skip(a).skip(b) =~= bytes.skip(a + b));
}


/// A value decoded at offset `at` ends inside `bytes`, and what follows it is
/// what follows offset `at` plus its length.
pub proof fn lemma_step<T: DeserFromBuf>(bytes: Seq<u8>, at: int, protocol: u32)
    requires
        0 <= at <= bytes.len(),
        T::spec_deserialize(bytes.skip(at), protocol) is Some,
    ensures
        0 <= (T::spec_deserialize(bytes.skip(at), protocol)->0).1,
        at + (T::spec_deserialize(bytes.skip(at), protocol)->0).1 <= bytes.len(),
        bytes.skip(at).skip((T::spec_deserialize(bytes.skip(at), protocol)->0).1) == bytes.skip(
            at + (T::spec_deserialize(bytes.skip(at), protocol)->0).1,
        ),
{
    T::lemma_deserialize_len(bytes.skip(at), protocol);
    lemma_skip_skip(bytes, at, (T::spec_deserialize(bytes.skip(at), protocol)->0).1);
}

/// Skipping twice is skipping once by the sum, for every pair of lengths.
pub proof fn lemma_skips(bytes: Seq<u8>)
    ensures
        forall|a: int, b: int|
            0 <= a && 0 <= b && a + b <= bytes.len() ==> #[trigger] bytes.skip(a).skip(b)
                == bytes.skip(a + b),
{
    assert forall|a: int, b: int| 0 <= a && 0 <= b && a + b <= bytes.len() implies #[trigger] bytes.skip(
        a,
    ).skip(b) == bytes.skip(a + b) by {
        lemma_skip_skip(bytes, a, b);
    }
}

/// Round trip: a value that can be spelled, and whose parts that are not
/// transmitted are as decoding leaves them, is what decoding its bytes at the
/// same protocol version gives, whatever follows the bytes; and decoding
/// consumes exactly its bytes.
pub proof fn lemma_encode_then_decode<T: SerToBuf>(m: T::Model, protocol: u32, rest: Seq<u8>)
    requires
        T::encodable(m, protocol),
        T::canonical(m, protocol) == m,
    ensures
        T::spec_deserialize(T::spec_serialize(m, protocol) + rest, protocol) == Some(
            (m, T::spec_serialize(m, protocol).len() as int),
        ),
        T::spec_deserialize(T::spec_serialize(m, protocol), protocol) == Some(
            (m, T::spec_serialize(m, protocol).len() as int),
        ),
{
    T::lemma_round_trip(m, protocol, rest);
    T::lemma_round_trip(m, protocol, Seq::<u8>::empty());
    assert(T::spec_serialize(m, protocol) + Seq::<u8>::empty() =~= T::spec_serialize(m, protocol));
}

} // verus!
