//! The decoder of the startup message: the counterpart, on the backend's
//! side, of what the handshake sends first.

use crate::frame::be32;
use crate::frame::be32_bytes;
use crate::outbound::cstring;
use crate::outbound::encodable;
use crate::outbound::pairs_bytes;
use crate::outbound::params_bytes;
use crate::outbound::protocol_version;
use crate::outbound::startup_bytes;
use crate::outbound::zero_free;
use vstd::prelude::*;
use vstd::utf8::decode_utf8;
use vstd::utf8::encode_utf8_decode_utf8;

verus! {

/// The index of the first zero byte of `text`; its length where it has
/// none.
pub open spec fn zero_at(text: Seq<u8>) -> int
    decreases text.len(),
{
    if text.len() == 0 || text[0] == 0 {
        0
    } else {
        1 + zero_at(text.skip(1))
    }
}

/// The pairs that `body` spells: terminated keys and values in turn, then
/// a closing zero behind which nothing follows. `None` where a string is
/// left unterminated, the closing zero is missing, or bytes follow it.
pub open spec fn parsed_pairs(body: Seq<u8>) -> Option<Seq<(Seq<u8>, Seq<u8>)>>
    decreases body.len(),
{
    if body.len() == 0 {
        None
    } else if body[0] == 0 {
        if body.len() == 1 {
            Some(Seq::empty())
        } else {
            None
        }
    } else {
        let key_end = zero_at(body);
        let rest = body.skip(key_end + 1);
        let value_end = zero_at(rest);
        if key_end < 0 || key_end >= body.len() || value_end < 0 || value_end >= rest.len() {
            None
        } else {
            match parsed_pairs(rest.skip(value_end + 1)) {
                Some(more) => Some(seq![(body.take(key_end), rest.take(value_end))] + more),
                None => None,
            }
        }
    }
}

/// The pairs of the startup message `bytes`: its length field must count
/// all of it and its version must be 3.0.
pub open spec fn parsed_startup(bytes: Seq<u8>) -> Option<Seq<(Seq<u8>, Seq<u8>)>> {
    if bytes.len() < 9 || be32(bytes) != bytes.len() || bytes.subrange(4, 8)
        != protocol_version() {
        None
    } else {
        parsed_pairs(bytes.skip(8))
    }
}

/// Pairs of byte vectors as pairs of sequences.
pub open spec fn pairs_view(pairs: Seq<(Vec<u8>, Vec<u8>)>) -> Seq<(Seq<u8>, Seq<u8>)> {
    Seq::new(pairs.len(), |i: int| (pairs[i].0@, pairs[i].1@))
}

/// `pairs` in front of what `more` holds, if it holds anything.
pub open spec fn in_front(
    pairs: Seq<(Seq<u8>, Seq<u8>)>,
    more: Option<Seq<(Seq<u8>, Seq<u8>)>>,
) -> Option<Seq<(Seq<u8>, Seq<u8>)>> {
    match more {
        Some(more) => Some(pairs + more),
        None => None,
    }
}

/// The first zero of `text` is at `at` where no byte before `at` is zero
/// and `at` is the end or holds a zero.
pub proof fn lemma_zero_at(text: Seq<u8>, at: int)
    requires
        0 <= at <= text.len(),
        forall|j: int| 0 <= j < at ==> text[j] != 0,
        at == text.len() || text[at] == 0,
    ensures
        zero_at(text) == at,
    decreases at,
{
    if at > 0 {
        lemma_zero_at(text.skip(1), at - 1);
    }
}

/// The end of the string that starts at `from`: the index of its
/// terminating zero, or the length of `bytes` where it has none.
fn string_end(bytes: &[u8], from: usize) -> (end: usize)
    requires
        from <= bytes@.len(),
    ensures
        end == from + zero_at(bytes@.skip(from as int)),
        from <= end <= bytes@.len(),
{
    let mut end: usize = from;
    while end < bytes.len() && bytes[end] != 0
        invariant
            from <= end <= bytes@.len(),
            forall|j: int| from <= j < end ==> bytes@[j] != 0,
        decreases bytes@.len() - end,
    {
        end = end + 1;
    }
    proof {
        lemma_zero_at(bytes@.skip(from as int), end - from);
    }
    end
}

/// A copy of the bytes from `from` up to `to`.
fn copy_range(bytes: &[u8], from: usize, to: usize) -> (out: Vec<u8>)
    requires
        from <= to <= bytes@.len(),
    ensures
        out@ == bytes@.subrange(from as int, to as int),
{
    let mut out: Vec<u8> = Vec::new();
    let mut i: usize = from;
    while i < to
        invariant
            from <= i <= to <= bytes@.len(),
            out@ == bytes@.subrange(from as int, i as int),
        decreases to - i,
    {
        out.push(bytes[i]);
        assert(out@ =~= bytes@.subrange(from as int, i + 1));
        i = i + 1;
    }
    assert(out@ =~= bytes@.subrange(from as int, to as int));
    out
}

/// Decodes a startup message into its ordered key/value pairs. `None`
/// where the bytes are no startup message of protocol version 3.0.
pub fn parse_startup_message(bytes: &[u8]) -> (r: Option<Vec<(Vec<u8>, Vec<u8>)>>)
    ensures
        match parsed_startup(bytes@) {
            Some(pairs) => r is Some && pairs_view(r->Some_0@) == pairs,
            None => r is None,
        },
{
    if bytes.len() < 9 {
        return None;
    }
    let declared: u64 = bytes[0] as u64 * 0x100_0000 + bytes[1] as u64 * 0x1_0000 + bytes[2] as u64
        * 0x100 + bytes[3] as u64;
    if declared != bytes.len() as u64 {
        return None;
    }
    if bytes[4] != 0 || bytes[5] != 3 || bytes[6] != 0 || bytes[7] != 0 {
        assert(bytes@.subrange(4, 8)[0] == bytes@[4]);
        assert(bytes@.subrange(4, 8)[1] == bytes@[5]);
        assert(bytes@.subrange(4, 8)[2] == bytes@[6]);
        assert(bytes@.subrange(4, 8)[3] == bytes@[7]);
        return None;
    }
    assert(bytes@.subrange(4, 8) =~= protocol_version());
    let ghost body = bytes@.skip(8);
    let mut out: Vec<(Vec<u8>, Vec<u8>)> = Vec::new();
    let mut at: usize = 8;
    assert(parsed_startup(bytes@) == parsed_pairs(body));
    proof {
        let found = parsed_pairs(body);
        if found is Some {
            assert(pairs_view(out@) + found->Some_0 =~= found->Some_0);
        }
    }
    loop
        invariant
            8 <= at <= bytes@.len(),
            body == bytes@.skip(8),
            parsed_startup(bytes@) == parsed_pairs(body),
            parsed_pairs(body) == in_front(pairs_view(out@), parsed_pairs(bytes@.skip(at as int))),
        decreases bytes@.len() - at,
    {
        let ghost here = bytes@.skip(at as int);
        if at == bytes.len() {
            return None;
        }
        assert(here[0] == bytes@[at as int]);
        if bytes[at] == 0 {
            if at + 1 == bytes.len() {
                assert(here.len() == 1);
                assert(parsed_pairs(here) == Some(Seq::<(Seq<u8>, Seq<u8>)>::empty()));
                assert(pairs_view(out@) + Seq::<(Seq<u8>, Seq<u8>)>::empty() =~= pairs_view(out@));
                return Some(out);
            }
            return None;
        }
        let key_end = string_end(bytes, at);
        if key_end == bytes.len() {
            return None;
        }
        let ghost rest = here.skip(key_end - at + 1);
        assert(rest =~= bytes@.skip(key_end + 1));
        let value_end = string_end(bytes, key_end + 1);
        if value_end == bytes.len() {
            return None;
        }
        let key = copy_range(bytes, at, key_end);
        let value = copy_range(bytes, key_end + 1, value_end);
        let ghost before = pairs_view(out@);
        out.push((key, value));
        proof {
            assert(key@ =~= here.take(key_end - at));
            assert(value@ =~= rest.take(value_end - key_end - 1));
            assert(rest.skip(value_end - key_end) =~= bytes@.skip(value_end + 1));
            assert(pairs_view(out@) =~= before + seq![(key@, value@)]);
            let more = parsed_pairs(bytes@.skip(value_end + 1));
            if more is Some {
                assert(before + (seq![(key@, value@)] + more->Some_0) =~= pairs_view(out@)
                    + more->Some_0);
            }
        }
        at = value_end + 1;
    }
}

/// The big-endian spelling of a number reads back as that number.
pub proof fn lemma_be32_round_trip(n: int, tail: Seq<u8>)
    requires
        0 <= n < 0x1_0000_0000,
    ensures
        be32(be32_bytes(n) + tail) == n,
{
}

/// The pairs that are written in order are read back in order: the
/// decoder finds exactly `pairs` in their encoding followed by the closing
/// zero.
pub proof fn lemma_pairs_round_trip(pairs: Seq<(Seq<u8>, Seq<u8>)>)
    requires
        forall|i: int| 0 <= i < pairs.len() ==> zero_free(#[trigger] pairs[i].0),
        forall|i: int| 0 <= i < pairs.len() ==> zero_free(#[trigger] pairs[i].1),
        forall|i: int| 0 <= i < pairs.len() ==> (#[trigger] pairs[i]).0.len() > 0,
    ensures
        parsed_pairs(pairs_bytes(pairs) + seq![0u8]) == Some(pairs),
    decreases pairs.len(),
{
    let body = pairs_bytes(pairs) + seq![0u8];
    if pairs.len() == 0 {
        assert(body =~= seq![0u8]);
    } else {
        let key = pairs[0].0;
        let value = pairs[0].1;
        let tail = pairs.skip(1);
        let tail_body = pairs_bytes(tail) + seq![0u8];
        assert(zero_free(key) && zero_free(value) && key.len() > 0);
        assert(body =~= cstring(key) + cstring(value) + tail_body);
        assert(body[0] == key[0]);
        assert forall|j: int| 0 <= j < key.len() implies body[j] != 0 by {
            assert(body[j] == key[j]);
        }
        lemma_zero_at(body, key.len() as int);
        let rest = body.skip(key.len() as int + 1);
        assert(rest =~= cstring(value) + tail_body);
        assert forall|j: int| 0 <= j < value.len() implies rest[j] != 0 by {
            assert(rest[j] == value[j]);
        }
        lemma_zero_at(rest, value.len() as int);
        assert(body.take(key.len() as int) =~= key);
        assert(rest.take(value.len() as int) =~= value);
        assert(rest.skip(value.len() as int + 1) =~= tail_body);
        assert forall|i: int| 0 <= i < tail.len() implies zero_free(#[trigger] tail[i].0)
            && zero_free(tail[i].1) && tail[i].0.len() > 0 by {
            assert(tail[i] == pairs[i + 1]);
        }
        lemma_pairs_round_trip(tail);
        assert(seq![(key, value)] + tail =~= pairs);
    }
}

/// Encoding a parameter list and decoding it again gives the list back,
/// pair by pair and in order. The keys must not be empty: an empty key is
/// written as the zero that closes the list.
pub proof fn lemma_startup_round_trip(pairs: Seq<(Seq<u8>, Seq<u8>)>)
    requires
        encodable(pairs),
        forall|i: int| 0 <= i < pairs.len() ==> (#[trigger] pairs[i]).0.len() > 0,
    ensures
        parsed_startup(startup_bytes(pairs)) == Some(pairs),
{
    let bytes = startup_bytes(pairs);
    let n = 9 + pairs_bytes(pairs).len() as int;
    assert(bytes.len() == n);
    assert(bytes =~= be32_bytes(n) + (protocol_version() + pairs_bytes(pairs) + seq![0u8]));
    lemma_be32_round_trip(n, protocol_version() + pairs_bytes(pairs) + seq![0u8]);
    assert(bytes.subrange(4, 8) =~= protocol_version());
    assert(bytes.skip(8) =~= pairs_bytes(pairs) + seq![0u8]);
    lemma_pairs_round_trip(pairs);
}

/// The round trip for a list of texts: what is decoded from the encoding
/// of `params` are the UTF-8 bytes of its keys and values, which spell the
/// texts themselves.
pub proof fn lemma_startup_round_trip_of_texts(params: Seq<(String, String)>)
    requires
        encodable(params_bytes(params)),
        forall|i: int| 0 <= i < params.len() ==> (#[trigger] params_bytes(params)[i]).0.len() > 0,
    ensures
        parsed_startup(startup_bytes(params_bytes(params))) == Some(params_bytes(params)),
        forall|i: int|
            0 <= i < params.len() ==> decode_utf8((#[trigger] params_bytes(params)[i]).0)
                == params[i].0@ && decode_utf8(params_bytes(params)[i].1) == params[i].1@,
{
    lemma_startup_round_trip(params_bytes(params));
    assert forall|i: int| 0 <= i < params.len() implies decode_utf8(
        (#[trigger] params_bytes(params)[i]).0,
    ) == params[i].0@ && decode_utf8(params_bytes(params)[i].1) == params[i].1@ by {
        encode_utf8_decode_utf8(params[i].0@);
        encode_utf8_decode_utf8(params[i].1@);
    }
}

} // verus!
