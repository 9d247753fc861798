//! Cursors: one that reads a received message front to back, and one that
//! builds a message to send.

use vstd::prelude::*;
use vstd::slice::{slice_subrange, slice_to_vec};
use crate::error::{CommandError, OpenRgbError};
use crate::protocol::sequence::{read_n_values, spec_deserialize_n, spec_models};
use crate::protocol::wire::{spec_u16_le, spec_u32_le, spec_u16_bytes, spec_u32_bytes,
    spec_i32_of_bits, spec_bits_of_i32, DeserFromBuf, SerToBuf};

verus! {

/// A received message and how far it has been read, together with the
/// protocol version of the session that received it.
#[derive(Clone, Copy, Debug)]
pub struct ReceivedMessage<'a> {
    protocol_version: u32,
    buf: &'a [u8],
}

impl<'a> ReceivedMessage<'a> {
    /// The bytes that have not been read yet.
    pub closed spec fn remaining(&self) -> Seq<u8> {
        self.buf@
    }

    /// The protocol version that the message is read at.
    pub closed spec fn spec_protocol_version(&self) -> u32 {
        self.protocol_version
    }

    /// A cursor at the start of `buf`.
    pub fn new(buf: &'a [u8], protocol_version: u32) -> (msg: Self)
        ensures
            msg.remaining() == buf@,
            msg.protocol_version() == protocol_version,
    {
        ReceivedMessage { protocol_version, buf }
    }

    /// The protocol version that the message is read at.
    #[verifier::when_used_as_spec(spec_protocol_version)]
    pub fn protocol_version(&self) -> (v: u32)
        ensures
            v == self.protocol_version(),
    {
        self.protocol_version
    }

    /// The number of bytes that have not been read yet.
    pub fn available(&self) -> (n: usize)
        ensures
            n == self.remaining().len(),
    {
        self.buf.len()
    }

    /// Reads one byte; fails, without moving, where none is left.
    pub fn read_u8(&mut self) -> (res: Result<u8, OpenRgbError>)
        ensures
            final(self).protocol_version() == old(self).protocol_version(),
            old(self).remaining().len() >= 1 ==> res == Ok::<u8, OpenRgbError>(
                old(self).remaining()[0],
            ) && final(self).remaining() == old(self).remaining().skip(1),
            old(self).remaining().len() < 1 ==> res == Err::<u8, OpenRgbError>(
                OpenRgbError::MalformedMessage,
            ) && final(self).remaining() == old(self).remaining(),
    {
        if self.buf.len() < 1 {
            return Err(OpenRgbError::MalformedMessage);
        }
        let b = self.buf[0];
        self.buf = slice_subrange(self.buf, 1, self.buf.len());
        Ok(b)
    }

    /// Reads a little-endian `u16`; fails, without moving, where fewer than
    /// two bytes are left.
    pub fn read_u16(&mut self) -> (res: Result<u16, OpenRgbError>)
        ensures
            final(self).protocol_version() == old(self).protocol_version(),
            old(self).remaining().len() >= 2 ==> res == Ok::<u16, OpenRgbError>(
                spec_u16_le(old(self).remaining()),
            ) && final(self).remaining() == old(self).remaining().skip(2),
            old(self).remaining().len() < 2 ==> res == Err::<u16, OpenRgbError>(
                OpenRgbError::MalformedMessage,
            ) && final(self).remaining() == old(self).remaining(),
    {
        if self.buf.len() < 2 {
            return Err(OpenRgbError::MalformedMessage);
        }
        let b0: u16 = self.buf[0] as u16;
        let b1: u16 = self.buf[1] as u16;
        proof {
            reveal(spec_u16_le);
        }
        self.buf = slice_subrange(self.buf, 2, self.buf.len());
        Ok(b0 + 256 * b1)
    }

    /// Reads a little-endian `u32`; fails, without moving, where fewer than
    /// four bytes are left.
    pub fn read_u32(&mut self) -> (res: Result<u32, OpenRgbError>)
        ensures
            final(self).protocol_version() == old(self).protocol_version(),
            old(self).remaining().len() >= 4 ==> res == Ok::<u32, OpenRgbError>(
                spec_u32_le(old(self).remaining()),
            ) && final(self).remaining() == old(self).remaining().skip(4),
            old(self).remaining().len() < 4 ==> res == Err::<u32, OpenRgbError>(
                OpenRgbError::MalformedMessage,
            ) && final(self).remaining() == old(self).remaining(),
    {
        if self.buf.len() < 4 {
            return Err(OpenRgbError::MalformedMessage);
        }
        let b0: u32 = self.buf[0] as u32;
        let b1: u32 = self.buf[1] as u32;
        let b2: u32 = self.buf[2] as u32;
        let b3: u32 = self.buf[3] as u32;
        proof {
            reveal(spec_u32_le);
        }
        self.buf = slice_subrange(self.buf, 4, self.buf.len());
        Ok(b0 + 256 * b1 + 65536 * b2 + 16777216 * b3)
    }

    /// Reads a little-endian two's complement `i32`; fails, without moving,
    /// where fewer than four bytes are left.
    pub fn read_i32(&mut self) -> (res: Result<i32, OpenRgbError>)
        ensures
            final(self).protocol_version() == old(self).protocol_version(),
            old(self).remaining().len() >= 4 ==> res == Ok::<i32, OpenRgbError>(
                spec_i32_of_bits(spec_u32_le(old(self).remaining())),
            ) && final(self).remaining() == old(self).remaining().skip(4),
            old(self).remaining().len() < 4 ==> res == Err::<i32, OpenRgbError>(
                OpenRgbError::MalformedMessage,
            ) && final(self).remaining() == old(self).remaining(),
    {
        let bits = self.read_u32()?;
        if bits < 0x8000_0000 {
            Ok(bits as i32)
        } else {
            Ok((bits - 0x8000_0000) as i32 + i32::MIN)
        }
    }

    /// Reads `n` bytes; fails, without moving, where fewer are left.
    pub fn read_bytes(&mut self, n: usize) -> (res: Result<Vec<u8>, OpenRgbError>)
        ensures
            final(self).protocol_version() == old(self).protocol_version(),
            old(self).remaining().len() >= n ==> res is Ok && res->Ok_0@ == old(
                self,
            ).remaining().take(n as int) && final(self).remaining() == old(
                self,
            ).remaining().skip(n as int),
            old(self).remaining().len() < n ==> res == Err::<Vec<u8>, OpenRgbError>(
                OpenRgbError::MalformedMessage,
            ) && final(self).remaining() == old(self).remaining(),
    {
        if self.buf.len() < n {
            return Err(OpenRgbError::MalformedMessage);
        }
        let head = slice_subrange(self.buf, 0, n);
        let bytes = slice_to_vec(head);
        self.buf = slice_subrange(self.buf, n, self.buf.len());
        Ok(bytes)
    }

    /// Decodes one value at the cursor and moves the cursor past it. Where
    /// the remaining bytes spell no value the cursor stays where it was.
    pub fn read_value<T: DeserFromBuf>(&mut self) -> (res: Result<T, OpenRgbError>)
        ensures
            final(self).protocol_version() == old(self).protocol_version(),
            match T::spec_deserialize(old(self).remaining(), old(self).protocol_version()) {
                Some((m, n)) => {
                    &&& res is Ok
                    &&& res->Ok_0.model() == m
                    &&& final(self).remaining() == old(self).remaining().skip(n)
                },
                None => {
                    &&& res == Err::<T, OpenRgbError>(OpenRgbError::MalformedMessage)
                    &&& final(self).remaining() == old(self).remaining()
                },
            },
    {
        T::deserialize(self)
    }

    /// Decodes `n` values at the cursor, one after another. Where the
    /// remaining bytes spell fewer the cursor stays where it was.
    pub fn read_n_values<T: DeserFromBuf>(&mut self, n: usize) -> (res: Result<
        Vec<T>,
        OpenRgbError,
    >)
        ensures
            final(self).protocol_version() == old(self).protocol_version(),
            match spec_deserialize_n::<T>(
                old(self).remaining(),
                old(self).protocol_version(),
                n as nat,
            ) {
                Some((items, used)) => {
                    &&& res is Ok
                    &&& spec_models(res->Ok_0@) == items
                    &&& final(self).remaining() == old(self).remaining().skip(used)
                },
                None => {
                    &&& res == Err::<Vec<T>, OpenRgbError>(OpenRgbError::MalformedMessage)
                    &&& final(self).remaining() == old(self).remaining()
                },
            },
    {
        read_n_values::<T>(self, n)
    }
}

/// A message under construction, together with the protocol version of the
/// session that will send it.
#[derive(Clone, Debug)]
pub struct WriteMessage {
    protocol_version: u32,
    buf: Vec<u8>,
}

impl WriteMessage {
    /// The bytes written so far.
    pub closed spec fn bytes(&self) -> Seq<u8> {
        self.buf@
    }

    /// The protocol version that the message is written at.
    pub closed spec fn spec_protocol_version(&self) -> u32 {
        self.protocol_version
    }

    /// An empty message at `protocol_version`.
    pub fn new(protocol_version: u32) -> (msg: Self)
        ensures
            msg.bytes() == Seq::<u8>::empty(),
            msg.protocol_version() == protocol_version,
    {
        WriteMessage { protocol_version, buf: Vec::new() }
    }

    /// The protocol version that the message is written at.
    #[verifier::when_used_as_spec(spec_protocol_version)]
    pub fn protocol_version(&self) -> (v: u32)
        ensures
            v == self.protocol_version(),
    {
        self.protocol_version
    }

    /// Appends one byte.
    pub fn write_u8(&mut self, value: u8)
        ensures
            final(self).protocol_version() == old(self).protocol_version(),
            final(self).bytes() == old(self).bytes().push(value),
    {
        self.buf.push(value);
    }

    /// Appends `value`, least significant byte first.
    pub fn write_u16(&mut self, value: u16)
        ensures
            final(self).protocol_version() == old(self).protocol_version(),
            final(self).bytes() == old(self).bytes() + spec_u16_bytes(value),
    {
        self.buf.push((value % 256) as u8);
        self.buf.push((value / 256) as u8);
        proof {
            reveal(spec_u16_bytes);
            assert(self.buf@ =~= old(self).buf@ + spec_u16_bytes(value));
        }
    }

    /// Appends `value`, least significant byte first.
    pub fn write_u32(&mut self, value: u32)
        ensures
            final(self).protocol_version() == old(self).protocol_version(),
            final(self).bytes() == old(self).bytes() + spec_u32_bytes(value),
    {
        self.buf.push((value % 256) as u8);
        self.buf.push(((value / 256) % 256) as u8);
        self.buf.push(((value / 65536) % 256) as u8);
        self.buf.push((value / 16777216) as u8);
        proof {
            reveal(spec_u32_bytes);
            assert(self.buf@ =~= old(self).buf@ + spec_u32_bytes(value));
        }
    }

    /// Appends the two's complement bits of `value`, least significant byte
    /// first.
    pub fn write_i32(&mut self, value: i32)
        ensures
            final(self).protocol_version() == old(self).protocol_version(),
            final(self).bytes() == old(self).bytes() + spec_u32_bytes(spec_bits_of_i32(value)),
    {
        if value >= 0 {
            self.write_u32(value as u32);
        } else {
            self.write_u32((value - i32::MIN) as u32 + 0x8000_0000);
        }
    }

    /// Appends `bytes` as they are.
    pub fn write_slice(&mut self, bytes: &[u8])
        ensures
            final(self).protocol_version() == old(self).protocol_version(),
            final(self).bytes() == old(self).bytes() + bytes@,
    {
        let mut i: usize = 0;
        while i < bytes.len()
            invariant
                i <= bytes.len(),
                self.protocol_version == old(self).protocol_version,
                self.buf@ == old(self).buf@ + bytes@.take(i as int),
            decreases bytes.len() - i,
        {
            self.buf.push(bytes[i]);
            i += 1;
        }
    }

    /// The bytes written so far.
    pub fn as_bytes(&self) -> (bytes: &[u8])
        ensures
            bytes@ == self.bytes(),
    {
        self.buf.as_slice()
    }

    /// The bytes written, taken out of the message.
    pub fn into_bytes(self) -> (bytes: Vec<u8>)
        ensures
            bytes@ == self.bytes(),
    {
        self.buf
    }

    /// The number of bytes written so far.
    pub fn len(&self) -> (n: usize)
        ensures
            n == self.bytes().len(),
    {
        self.buf.len()
    }

    /// A cursor at the start of what has been written, at the same protocol
    /// version.
    pub fn to_received_msg(&self) -> (msg: ReceivedMessage<'_>)
        ensures
            msg.remaining() == self.bytes(),
            msg.protocol_version() == self.protocol_version(),
    {
        ReceivedMessage::new(self.buf.as_slice(), self.protocol_version)
    }

    /// Encodes one value at the end of the message. Where the value is not
    /// encodable the message stays as it was.
    pub fn write_value<T: SerToBuf>(&mut self, value: &T) -> (res: Result<(), OpenRgbError>)
        ensures
            final(self).protocol_version() == old(self).protocol_version(),
            res is Ok <==> T::encodable(value.model(), old(self).protocol_version()),
            res is Ok ==> final(self).bytes() == old(self).bytes() + T::spec_serialize(
                value.model(),
                old(self).protocol_version(),
            ),
            res is Err ==> res == Err::<(), OpenRgbError>(
                OpenRgbError::CommandError(CommandError::NotEncodable),
            ) && final(self).bytes() == old(self).bytes(),
    {
        value.serialize(self)
    }
}

} // verus!
