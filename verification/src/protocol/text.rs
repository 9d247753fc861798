//! Strings on the wire: a 16-bit byte count, the UTF-8 text, and a terminator
//! that the count includes.

use vstd::prelude::*;
use vstd::utf8::{decode_utf8, encode_utf8, valid_utf8, encode_utf8_decode_utf8,
    encode_utf8_valid_utf8};
use crate::error::{CommandError, OpenRgbError};
use crate::protocol::message::{ReceivedMessage, WriteMessage};
use crate::protocol::wire::{lemma_int_bytes, spec_u16_bytes, spec_u16_le, DeserFromBuf, SerToBuf};

verus! {

/// The text bytes of a string field of `len` bytes that follows its count in
/// `bytes`: the field without its last byte, the terminator. A field of no
/// bytes holds the empty text.
pub open spec fn spec_text_bytes(bytes: Seq<u8>, len: int) -> Seq<u8> {
    if len == 0 {
        Seq::<u8>::empty()
    } else {
        bytes.subrange(2, 2 + len - 1)
    }
}

/// `String::from_utf8`. Claimed of it, not proved: it gives the string whose
/// UTF-8 encoding is `bytes`, and fails exactly where `bytes` is not valid
/// UTF-8.
#[verifier::external_body]
fn string_from_utf8(bytes: Vec<u8>) -> (res: Option<String>)
    ensures
        res is Some <==> valid_utf8(bytes@),
        res is Some ==> encode_utf8(res->0@) == bytes@,
{
    String::from_utf8(bytes).ok()
}

/// The text spelled by a prefix of `bytes`, with the length of that prefix: a
/// 16-bit count, then that many bytes, of which all but the last, the
/// terminator, are the text in UTF-8. `None` where the bytes end early or the
/// text is not valid UTF-8.
#[verifier::opaque]
pub open spec fn spec_decode_text(bytes: Seq<u8>) -> Option<(Seq<char>, int)> {
    if bytes.len() < 2 {
        None
    } else {
        let len = spec_u16_le(bytes) as int;
        if bytes.len() < 2 + len {
            None
        } else if valid_utf8(spec_text_bytes(bytes, len)) {
            Some((decode_utf8(spec_text_bytes(bytes, len)), 2 + len))
        } else {
            None
        }
    }
}

/// The bytes that spell `text`: the count of what follows, the text in
/// UTF-8, and a terminator of one zero byte.
#[verifier::opaque]
pub open spec fn spec_encode_text(text: Seq<char>) -> Seq<u8> {
    spec_u16_bytes((encode_utf8(text).len() + 1) as u16) + encode_utf8(text) + seq![0u8]
}

impl DeserFromBuf for String {
    type Model = Seq<char>;

    open spec fn model(&self) -> Seq<char> {
        self@
    }

    open spec fn spec_deserialize(bytes: Seq<u8>, protocol: u32) -> Option<(Seq<char>, int)> {
        spec_decode_text(bytes)
    }

    proof fn lemma_deserialize_len(bytes: Seq<u8>, protocol: u32) {
        reveal(spec_decode_text);
    }

    fn deserialize(buf: &mut ReceivedMessage<'_>) -> (res: Result<String, OpenRgbError>) {
        let mut cur = *buf;
        proof {
            reveal(spec_decode_text);
        }
        let len = cur.read_u16()?;
        let mut field = cur.read_bytes(len as usize)?;
        let _terminator = field.pop();
        proof {
            assert(field@ =~= spec_text_bytes(old(buf).remaining(), len as int));
        }
        match string_from_utf8(field) {
            Some(text) => {
                proof {
                    encode_utf8_decode_utf8(text@);
                }
                *buf = cur;
                Ok(text)
            },
            None => Err(OpenRgbError::MalformedMessage),
        }
    }
}

impl SerToBuf for String {
    open spec fn spec_serialize(m: Seq<char>, protocol: u32) -> Seq<u8> {
        spec_encode_text(m)
    }

    open spec fn encodable(m: Seq<char>, protocol: u32) -> bool {
        encode_utf8(m).len() + 1 <= 0xFFFF
    }

    open spec fn canonical(m: Seq<char>, protocol: u32) -> Seq<char> {
        m
    }

    proof fn lemma_round_trip(m: Seq<char>, protocol: u32, rest: Seq<u8>) {
        reveal(spec_decode_text);
        reveal(spec_encode_text);
        let text = encode_utf8(m);
        let len = text.len() + 1;
        let bytes = Self::spec_serialize(m, protocol) + rest;
        lemma_int_bytes(len as u16, 0, text + seq![0u8] + rest);
        assert(bytes =~= spec_u16_bytes(len as u16) + (text + seq![0u8] + rest));
        assert(spec_u16_le(bytes) == len);
        assert(spec_text_bytes(bytes, len as int) =~= text);
        encode_utf8_valid_utf8(m);
        encode_utf8_decode_utf8(m);
    }

    proof fn lemma_decoded_is_canonical(bytes: Seq<u8>, protocol: u32) {
    }

    fn serialize(&self, buf: &mut WriteMessage) -> (res: Result<(), OpenRgbError>) {
        proof {
            reveal(spec_encode_text);
        }
        let text = self.as_str().as_bytes();
        if text.len() >= 0xFFFF {
            return Err(OpenRgbError::CommandError(CommandError::NotEncodable));
        }
        buf.write_u16((text.len() + 1) as u16);
        buf.write_slice(text);
        buf.write_u8(0);
        Ok(())
    }
}

/// Whether two texts are the same text.
pub fn text_eq(a: &str, b: &str) -> (res: bool)
    ensures
        res == (a@ == b@),
{
    let x = a.as_bytes();
    let y = b.as_bytes();
    proof {
        encode_utf8_decode_utf8(a@);
        encode_utf8_decode_utf8(b@);
    }
    if x.len() != y.len() {
        return false;
    }
    let mut i: usize = 0;
    while i < x.len()
        invariant
            i <= x.len(),
            x@.len() == y@.len(),
            x@ == encode_utf8(a@),
            y@ == encode_utf8(b@),
            forall|j: int| 0 <= j < i ==> x@[j] == y@[j],
        decreases x.len() - i,
    {
        if x[i] != y[i] {
            return false;
        }
        i += 1;
    }
    proof {
        assert(x@ =~= y@);
    }
    true
}

} // verus!
