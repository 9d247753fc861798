//! Homogeneous sequences on the wire: the elements one after another, behind
//! a 16-bit count where the sequence carries its own.

use vstd::prelude::*;
use crate::error::{CommandError, OpenRgbError};
use crate::protocol::message::{ReceivedMessage, WriteMessage};
use crate::protocol::wire::{lemma_concat, lemma_int_bytes, spec_u16_bytes, spec_u16_le, DeserFromBuf,
    SerToBuf};

verus! {

/// The first `n` values spelled one after another at the start of `bytes`,
/// with the number of bytes they take; `None` where fewer than `n` are there.
#[verifier::opaque]
pub open spec fn spec_deserialize_n<T: DeserFromBuf>(bytes: Seq<u8>, protocol: u32, n: nat)
    -> Option<(Seq<T::Model>, int)>
    decreases n,
{
    if n == 0 {
        Some((Seq::<T::Model>::empty(), 0))
    } else {
        match spec_deserialize_n::<T>(bytes, protocol, (n - 1) as nat) {
            None => None,
            Some((init, used)) => match T::spec_deserialize(bytes.skip(used), protocol) {
                None => None,
                Some((last, more)) => Some((init.push(last), used + more)),
            },
        }
    }
}

/// The bytes of the elements of `items`, one after another.
#[verifier::opaque]
pub open spec fn spec_serialize_all<T: SerToBuf>(items: Seq<T::Model>, protocol: u32) -> Seq<u8>
    decreases items.len(),
{
    if items.len() == 0 {
        Seq::<u8>::empty()
    } else {
        spec_serialize_all::<T>(items.drop_last(), protocol) + T::spec_serialize(
            items.last(),
            protocol,
        )
    }
}

/// Whether each of `items` is encodable.
pub open spec fn spec_all_encodable<T: SerToBuf>(items: Seq<T::Model>, protocol: u32) -> bool {
    forall|i: int| 0 <= i < items.len() ==> T::encodable(#[trigger] items[i], protocol)
}

/// The canonical forms of `items`, in order.
pub open spec fn spec_all_canonical<T: SerToBuf>(items: Seq<T::Model>, protocol: u32) -> Seq<
    T::Model,
> {
    Seq::new(items.len(), |i: int| T::canonical(items[i], protocol))
}

/// The models of `items`, in order.
pub open spec fn spec_models<T: DeserFromBuf>(items: Seq<T>) -> Seq<T::Model> {
    Seq::new(items.len(), |i: int| items[i].model())
}

/// `n` decoded values are `n` values, within the bytes they came from.
pub proof fn lemma_deserialize_n_len<T: DeserFromBuf>(bytes: Seq<u8>, protocol: u32, n: nat)
    ensures
        spec_deserialize_n::<T>(bytes, protocol, n) matches Some((items, used)) ==> items.len()
            == n && 0 <= used <= bytes.len(),
    decreases n,
{
    reveal(spec_deserialize_n);
    if n > 0 {
        lemma_deserialize_n_len::<T>(bytes, protocol, (n - 1) as nat);
        if let Some((init, used)) = spec_deserialize_n::<T>(bytes, protocol, (n - 1) as nat) {
            T::lemma_deserialize_len(bytes.skip(used), protocol);
        }
    }
}

/// Where `k` values cannot be decoded, no larger number can.
pub proof fn lemma_deserialize_n_fails<T: DeserFromBuf>(
    bytes: Seq<u8>,
    protocol: u32,
    k: nat,
    n: nat,
)
    requires
        k <= n,
        spec_deserialize_n::<T>(bytes, protocol, k) is None,
    ensures
        spec_deserialize_n::<T>(bytes, protocol, n) is None,
    decreases n,
{
    reveal(spec_deserialize_n);
    if k < n {
        lemma_deserialize_n_fails::<T>(bytes, protocol, k, (n - 1) as nat);
    }
}

/// Each of `n` decoded values is what one decoding gives somewhere in the
/// bytes.
pub proof fn lemma_deserialize_n_each<T: DeserFromBuf>(
    bytes: Seq<u8>,
    protocol: u32,
    n: nat,
    i: int,
)
    requires
        spec_deserialize_n::<T>(bytes, protocol, n) is Some,
        0 <= i < n,
    ensures
        exists|at: int|
            0 <= at <= bytes.len() && (#[trigger] T::spec_deserialize(bytes.skip(at), protocol))
                is Some && (T::spec_deserialize(bytes.skip(at), protocol)->0).0 == (
            spec_deserialize_n::<T>(bytes, protocol, n)->0).0[i],
    decreases n,
{
    reveal(spec_deserialize_n);
    let init = spec_deserialize_n::<T>(bytes, protocol, (n - 1) as nat);
    lemma_deserialize_n_len::<T>(bytes, protocol, (n - 1) as nat);
    if i < n - 1 {
        lemma_deserialize_n_each::<T>(bytes, protocol, (n - 1) as nat, i);
        let at = choose|at: int|
            0 <= at <= bytes.len() && (#[trigger] T::spec_deserialize(bytes.skip(at), protocol))
                is Some && (T::spec_deserialize(bytes.skip(at), protocol)->0).0 == (init->0).0[i];
        assert(T::spec_deserialize(bytes.skip(at), protocol) is Some);
    } else {
        let at = (init->0).1;
        assert(T::spec_deserialize(bytes.skip(at), protocol) is Some);
    }
}

/// `n` decoded values are in canonical form.
pub proof fn lemma_decoded_all_canonical<T: SerToBuf>(bytes: Seq<u8>, protocol: u32, n: nat)
    ensures
        spec_deserialize_n::<T>(bytes, protocol, n) matches Some((items, _))
            ==> spec_all_canonical::<T>(items, protocol) == items,
{
    if let Some((items, _)) = spec_deserialize_n::<T>(bytes, protocol, n) {
        lemma_deserialize_n_len::<T>(bytes, protocol, n);
        assert forall|i: int| 0 <= i < items.len() implies T::canonical(items[i], protocol)
            == items[i] by {
            lemma_deserialize_n_each::<T>(bytes, protocol, n, i);
            let at = choose|at: int|
                0 <= at <= bytes.len() && (#[trigger] T::spec_deserialize(
                    bytes.skip(at),
                    protocol,
                )) is Some && (T::spec_deserialize(bytes.skip(at), protocol)->0).0 == items[i];
            T::lemma_decoded_is_canonical(bytes.skip(at), protocol);
        }
        assert(spec_all_canonical::<T>(items, protocol) =~= items);
    }
}

/// Decoding as many values as `items` holds from their bytes, whatever
/// follows, gives their canonical forms and consumes exactly those bytes.
pub proof fn lemma_round_trip_all<T: SerToBuf>(items: Seq<T::Model>, protocol: u32, rest: Seq<u8>)
    requires
        spec_all_encodable::<T>(items, protocol),
    ensures
        spec_deserialize_n::<T>(
            spec_serialize_all::<T>(items, protocol) + rest,
            protocol,
            items.len(),
        ) == Some(
            (
                spec_all_canonical::<T>(items, protocol),
                spec_serialize_all::<T>(items, protocol).len() as int,
            ),
        ),
    decreases items.len(),
{
    reveal(spec_deserialize_n);
    reveal(spec_serialize_all);
    let bytes = spec_serialize_all::<T>(items, protocol) + rest;
    if items.len() == 0 {
        assert(spec_all_canonical::<T>(items, protocol) =~= Seq::<T::Model>::empty());
    } else {
        let init = items.drop_last();
        let init_bytes = spec_serialize_all::<T>(init, protocol);
        let last_bytes = T::spec_serialize(items.last(), protocol);
        assert(spec_all_encodable::<T>(init, protocol)) by {
            assert forall|i: int| 0 <= i < init.len() implies T::encodable(
                #[trigger] init[i],
                protocol,
            ) by {
                assert(init[i] == items[i]);
            }
        }
        lemma_round_trip_all::<T>(init, protocol, last_bytes + rest);
        assert(bytes =~= init_bytes + (last_bytes + rest));
        assert(bytes.skip(init_bytes.len() as int) =~= last_bytes + rest);
        T::lemma_round_trip(items.last(), protocol, rest);
        assert(spec_all_canonical::<T>(init, protocol).push(
            T::canonical(items.last(), protocol),
        ) =~= spec_all_canonical::<T>(items, protocol));
    }
}

/// Decodes `n` values at the cursor, one after another.
pub fn read_n_values<T: DeserFromBuf>(buf: &mut ReceivedMessage<'_>, n: usize) -> (res: Result<
    Vec<T>,
    OpenRgbError,
>)
    ensures
        final(buf).protocol_version() == old(buf).protocol_version(),
        match spec_deserialize_n::<T>(old(buf).remaining(), old(buf).protocol_version(), n as nat) {
            Some((items, used)) => {
                &&& res is Ok
                &&& spec_models(res->Ok_0@) == items
                &&& final(buf).remaining() == old(buf).remaining().skip(used)
            },
            None => {
                &&& res == Err::<Vec<T>, OpenRgbError>(OpenRgbError::MalformedMessage)
                &&& final(buf).remaining() == old(buf).remaining()
            },
        },
{
    let mut cur = *buf;
    proof {
        reveal(spec_deserialize_n);
    }
    let ghost start = cur.remaining();
    let ghost protocol = cur.protocol_version();
    let ghost mut used: int = 0;
    let mut items: Vec<T> = Vec::new();
    let mut i: usize = 0;
    assert(spec_models(items@) =~= Seq::<T::Model>::empty());
    assert(start.skip(0) =~= start);
    while i < n
        invariant
            i <= n,
            start == old(buf).remaining(),
            protocol == old(buf).protocol_version(),
            cur.protocol_version() == protocol,
            spec_deserialize_n::<T>(start, protocol, i as nat) == Some((spec_models(items@), used)),
            cur.remaining() == start.skip(used),
            0 <= used <= start.len(),
        decreases n - i,
    {
        let ghost before = items@;
        proof {
            reveal(spec_deserialize_n);
        }
        match T::deserialize(&mut cur) {
            Ok(item) => {
                proof {
                    let step = (T::spec_deserialize(start.skip(used), protocol)->0).1;
                    T::lemma_deserialize_len(start.skip(used), protocol);
                    assert(start.skip(used).skip(step) =~= start.skip(used + step));
                    assert(spec_models(before.push(item)) =~= spec_models(before).push(
                        item.model(),
                    ));
                    used = used + step;
                }
                items.push(item);
            },
            Err(e) => {
                proof {
                    lemma_deserialize_n_fails::<T>(start, protocol, (i + 1) as nat, n as nat);
                }
                return Err(e);
            },
        }
        i += 1;
    }
    *buf = cur;
    Ok(items)
}

/// Encodes `items` at the end of the message, one after another. Fails with
/// `NotEncodable`, and appends nothing, where one of them is not encodable.
pub fn write_all<T: SerToBuf>(buf: &mut WriteMessage, items: &Vec<T>) -> (res: Result<
    (),
    OpenRgbError,
>)
    ensures
        final(buf).protocol_version() == old(buf).protocol_version(),
        res is Ok <==> spec_all_encodable::<T>(spec_models(items@), old(buf).protocol_version()),
        res is Ok ==> final(buf).bytes() == old(buf).bytes() + spec_serialize_all::<T>(
            spec_models(items@),
            old(buf).protocol_version(),
        ),
        res is Err ==> res == Err::<(), OpenRgbError>(
            OpenRgbError::CommandError(CommandError::NotEncodable),
        ) && final(buf).bytes() == old(buf).bytes(),
{
    proof {
        reveal(spec_serialize_all);
    }
    let protocol = buf.protocol_version();
    let mut scratch = WriteMessage::new(protocol);
    let ghost models = spec_models(items@);
    let mut i: usize = 0;
    assert(models.take(0) =~= Seq::<T::Model>::empty());
    while i < items.len()
        invariant
            i <= items.len(),
            models == spec_models(items@),
            *buf == *old(buf),
            protocol == buf.protocol_version(),
            scratch.protocol_version() == protocol,
            spec_all_encodable::<T>(models.take(i as int), protocol),
            scratch.bytes() == spec_serialize_all::<T>(models.take(i as int), protocol),
        decreases items.len() - i,
    {
        proof {
            reveal(spec_serialize_all);
        }
        match items[i].serialize(&mut scratch) {
            Ok(()) => {
                proof {
                    let next = models.take(i + 1);
                    assert(next.drop_last() =~= models.take(i as int));
                    assert(next.last() == items@[i as int].model());
                }
            },
            Err(e) => {
                proof {
                    assert(models[i as int] == items@[i as int].model());
                }
                return Err(e);
            },
        }
        i += 1;
    }
    proof {
        assert(models.take(i as int) =~= models);
    }
    buf.write_slice(scratch.as_bytes());
    Ok(())
}

impl<T: DeserFromBuf> DeserFromBuf for Vec<T> {
    type Model = Seq<T::Model>;

    open spec fn model(&self) -> Seq<T::Model> {
        spec_models(self@)
    }

    open spec fn spec_deserialize(bytes: Seq<u8>, protocol: u32) -> Option<(Seq<T::Model>, int)> {
        if bytes.len() < 2 {
            None
        } else {
            match spec_deserialize_n::<T>(bytes.skip(2), protocol, spec_u16_le(bytes) as nat) {
                None => None,
                Some((items, used)) => Some((items, 2 + used)),
            }
        }
    }

    proof fn lemma_deserialize_len(bytes: Seq<u8>, protocol: u32) {
        if bytes.len() >= 2 {
            lemma_deserialize_n_len::<T>(bytes.skip(2), protocol, spec_u16_le(bytes) as nat);
        }
    }

    fn deserialize(buf: &mut ReceivedMessage<'_>) -> (res: Result<Vec<T>, OpenRgbError>) {
        let mut cur = *buf;
        let count = cur.read_u16()?;
        let ghost body = cur.remaining();
        let res = read_n_values::<T>(&mut cur, count as usize);
        proof {
            lemma_deserialize_n_len::<T>(body, cur.protocol_version(), count as nat);
            if let Some((items, used)) = spec_deserialize_n::<T>(
                body,
                cur.protocol_version(),
                count as nat,
            ) {
                assert(body.skip(used) =~= old(buf).remaining().skip(2 + used));
            }
        }
        if res.is_ok() {
            *buf = cur;
        }
        res
    }
}

impl<T: SerToBuf> SerToBuf for Vec<T> {
    open spec fn spec_serialize(m: Seq<T::Model>, protocol: u32) -> Seq<u8> {
        spec_u16_bytes(m.len() as u16) + spec_serialize_all::<T>(m, protocol)
    }

    open spec fn encodable(m: Seq<T::Model>, protocol: u32) -> bool {
        m.len() <= 0xFFFF && spec_all_encodable::<T>(m, protocol)
    }

    open spec fn canonical(m: Seq<T::Model>, protocol: u32) -> Seq<T::Model> {
        spec_all_canonical::<T>(m, protocol)
    }

    proof fn lemma_round_trip(m: Seq<T::Model>, protocol: u32, rest: Seq<u8>) {
        let body = spec_serialize_all::<T>(m, protocol);
        let bytes = Self::spec_serialize(m, protocol) + rest;
        lemma_round_trip_all::<T>(m, protocol, rest);
        lemma_int_bytes(m.len() as u16, 0, body + rest);
        assert(bytes =~= spec_u16_bytes(m.len() as u16) + (body + rest));
        assert(spec_u16_le(bytes) == m.len());
        assert(bytes.skip(2) =~= body + rest);
    }

    proof fn lemma_decoded_is_canonical(bytes: Seq<u8>, protocol: u32) {
        if bytes.len() >= 2 {
            lemma_decoded_all_canonical::<T>(bytes.skip(2), protocol, spec_u16_le(bytes) as nat);
        }
    }

    fn serialize(&self, buf: &mut WriteMessage) -> (res: Result<(), OpenRgbError>) {
        if self.len() > 0xFFFF {
            return Err(OpenRgbError::CommandError(CommandError::NotEncodable));
        }
        let protocol = buf.protocol_version();
        let mut body = WriteMessage::new(protocol);
        write_all::<T>(&mut body, self)?;
        proof {
            assert(Seq::<u8>::empty() + body.bytes() =~= body.bytes());
            lemma_concat(buf.bytes(), spec_u16_bytes(self.len() as u16), body.bytes());
        }
        buf.write_u16(self.len() as u16);
        buf.write_slice(body.as_bytes());
        Ok(())
    }
}

} // verus!
