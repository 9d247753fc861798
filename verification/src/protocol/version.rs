//! Fields that exist on the wire only from some protocol version on.

use vstd::prelude::*;
use crate::error::{CommandError, OpenRgbError};
use crate::protocol::message::{ReceivedMessage, WriteMessage};
use crate::protocol::wire::{DeserFromBuf, SerToBuf};

verus! {

/// A field that is transmitted from protocol version `VER` on. Below that
/// version it takes no bytes and holds `UnsupportedVersion`, which is distinct
/// from every transmitted value, an empty one included.
#[derive(Debug, Clone, PartialEq, Eq)]
pub enum ProtocolOption<const VER: u32, T> {
    /// The value that was transmitted.
    Supported(T),
    /// The session's protocol version does not transmit the field.
    UnsupportedVersion,
}

impl<const VER: u32, T> ProtocolOption<VER, T> {
    /// The transmitted value, if there is one.
    pub fn value(&self) -> (res: Option<&T>)
        ensures
            res == match *self {
                ProtocolOption::Supported(v) => Some(&v),
                ProtocolOption::UnsupportedVersion => None,
            },
    {
        match self {
            ProtocolOption::Supported(v) => Some(v),
            ProtocolOption::UnsupportedVersion => None,
        }
    }

    /// Whether the field was transmitted.
    pub fn is_supported(&self) -> (res: bool)
        ensures
            res == (*self is Supported),
    {
        match self {
            ProtocolOption::Supported(_) => true,
            ProtocolOption::UnsupportedVersion => false,
        }
    }
}

impl<const VER: u32, T: DeserFromBuf> DeserFromBuf for ProtocolOption<VER, T> {
    type Model = Option<T::Model>;

    open spec fn model(&self) -> Option<T::Model> {
        match *self {
            ProtocolOption::Supported(v) => Some(v.model()),
            ProtocolOption::UnsupportedVersion => None,
        }
    }

    open spec fn spec_deserialize(bytes: Seq<u8>, protocol: u32) -> Option<(Option<T::Model>, int)> {
        if protocol >= VER {
            match T::spec_deserialize(bytes, protocol) {
                Some((value, used)) => Some((Some(value), used)),
                None => None,
            }
        } else {
            Some((None, 0))
        }
    }

    proof fn lemma_deserialize_len(bytes: Seq<u8>, protocol: u32) {
        T::lemma_deserialize_len(bytes, protocol);
    }

    fn deserialize(buf: &mut ReceivedMessage<'_>) -> (res: Result<Self, OpenRgbError>) {
        if buf.protocol_version() >= VER {
            let value = T::deserialize(buf)?;
            Ok(ProtocolOption::Supported(value))
        } else {
            proof {
                assert(buf.remaining().skip(0) =~= buf.remaining());
            }
            Ok(ProtocolOption::UnsupportedVersion)
        }
    }
}

impl<const VER: u32, T: SerToBuf> SerToBuf for ProtocolOption<VER, T> {
    open spec fn spec_serialize(m: Option<T::Model>, protocol: u32) -> Seq<u8> {
        if protocol >= VER && m is Some {
            T::spec_serialize(m->0, protocol)
        } else {
            Seq::<u8>::empty()
        }
    }

    open spec fn encodable(m: Option<T::Model>, protocol: u32) -> bool {
        protocol >= VER ==> m is Some && T::encodable(m->0, protocol)
    }

    open spec fn canonical(m: Option<T::Model>, protocol: u32) -> Option<T::Model> {
        if protocol >= VER && m is Some {
            Some(T::canonical(m->0, protocol))
        } else {
            None
        }
    }

    proof fn lemma_round_trip(m: Option<T::Model>, protocol: u32, rest: Seq<u8>) {
        if protocol >= VER {
            T::lemma_round_trip(m->0, protocol, rest);
        } else {
            assert(Seq::<u8>::empty() + rest =~= rest);
        }
    }

    proof fn lemma_decoded_is_canonical(bytes: Seq<u8>, protocol: u32) {
        T::lemma_decoded_is_canonical(bytes, protocol);
    }

    fn serialize(&self, buf: &mut WriteMessage) -> (res: Result<(), OpenRgbError>) {
        if buf.protocol_version() >= VER {
            match self {
                ProtocolOption::Supported(value) => value.serialize(buf),
                ProtocolOption::UnsupportedVersion => Err(
                    OpenRgbError::CommandError(CommandError::NotEncodable),
                ),
            }
        } else {
            proof {
                assert(buf.bytes() + Seq::<u8>::empty() =~= buf.bytes());
            }
            Ok(())
        }
    }
}

/// Below its version a gated field is decoded from no bytes at all and is
/// reported as unsupported, whatever the bytes at the cursor are. From its
/// version on it is decoded exactly as the ungated field would be.
pub proof fn lemma_gated_field<const VER: u32, T: DeserFromBuf>(bytes: Seq<u8>, protocol: u32)
    ensures
        protocol < VER ==> ProtocolOption::<VER, T>::spec_deserialize(bytes, protocol) == Some(
            (None::<T::Model>, 0int),
        ),
        protocol >= VER ==> (ProtocolOption::<VER, T>::spec_deserialize(bytes, protocol) is Some
            <==> T::spec_deserialize(bytes, protocol) is Some),
        protocol >= VER && T::spec_deserialize(bytes, protocol) is Some ==> ProtocolOption::<
            VER,
            T,
        >::spec_deserialize(bytes, protocol) == Some(
            (
                Some((T::spec_deserialize(bytes, protocol)->0).0),
                (T::spec_deserialize(bytes, protocol)->0).1,
            ),
        ),
{
}

} // verus!
