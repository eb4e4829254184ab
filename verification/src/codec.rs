//! Byte-exact encoding and decoding of instruction payloads.
//!
//! A payload is the operation's selector followed by the 64-bit amount in
//! little-endian order: `selector_bytes + u64_le_bytes(amount)`. There is no
//! length prefix and no padding. The external protocol has used two selector
//! widths over its revisions — a one-byte instruction index and an eight-byte
//! method tag — so both are supported; which one a deployment must use is
//! fixed by the target program's ABI, not chosen here.

use vstd::prelude::*;

verus! {

broadcast use vstd::array::group_array_axioms;

/// Discriminator prefix identifying the external operation: either a one-byte
/// instruction index or an eight-byte method tag, depending on which revision
/// of the external protocol a deployment targets.
#[derive(Clone, Copy, Debug, PartialEq, Eq)]
pub enum Selector {
    Index(u8),
    MethodTag([u8; 8]),
}

/// The two selector widths the external protocol has used.
#[derive(Clone, Copy, Debug, PartialEq, Eq)]
pub enum SelectorScheme {
    SingleByte,
    EightByteTag,
}

/// The scheme a selector belongs to.
pub open spec fn scheme_of(sel: Selector) -> SelectorScheme {
    match sel {
        Selector::Index(_) => SelectorScheme::SingleByte,
        Selector::MethodTag(_) => SelectorScheme::EightByteTag,
    }
}

/// Width in bytes of a scheme's selector.
pub open spec fn selector_len(scheme: SelectorScheme) -> nat {
    match scheme {
        SelectorScheme::SingleByte => 1,
        SelectorScheme::EightByteTag => 8,
    }
}

/// The selector's bytes as they stand at the front of a payload.
pub open spec fn selector_bytes(sel: Selector) -> Seq<u8> {
    match sel {
        Selector::Index(b) => seq![b],
        Selector::MethodTag(tag) => tag@,
    }
}

/// The eight little-endian bytes of a 64-bit amount.
pub open spec fn u64_le_bytes(a: u64) -> Seq<u8> {
    seq![
        (a & 0xff) as u8,
        ((a >> 8) & 0xff) as u8,
        ((a >> 16) & 0xff) as u8,
        ((a >> 24) & 0xff) as u8,
        ((a >> 32) & 0xff) as u8,
        ((a >> 40) & 0xff) as u8,
        ((a >> 48) & 0xff) as u8,
        ((a >> 56) & 0xff) as u8,
    ]
}

/// The 64-bit amount read back from eight little-endian bytes.
pub open spec fn u64_of_le_bytes(s: Seq<u8>) -> u64
    recommends
        s.len() == 8,
{
    (s[0] as u64) | ((s[1] as u64) << 8) | ((s[2] as u64) << 16) | ((s[3] as u64) << 24)
        | ((s[4] as u64) << 32) | ((s[5] as u64) << 40) | ((s[6] as u64) << 48)
        | ((s[7] as u64) << 56)
}

/// The full payload for one operation: selector, then the amount.
pub open spec fn payload_bytes(sel: Selector, amount: u64) -> Seq<u8> {
    selector_bytes(sel) + u64_le_bytes(amount)
}

/// Encodes `selector_bytes(sel) + u64_le_bytes(amount)`, the exact wire form
/// of one operation's payload.
pub fn encode_payload(sel: &Selector, amount: u64) -> (r: Vec<u8>)
    ensures
        r@ == payload_bytes(*sel, amount),
{
    let mut data: Vec<u8> = Vec::new();
    match sel {
        Selector::Index(b) => {
            data.push(*b);
        }
        Selector::MethodTag(tag) => {
            let mut i: usize = 0;
            while i < 8
                invariant
                    i <= 8,
                    data@ == tag@.subrange(0, i as int),
                decreases 8 - i,
            {
                data.push(tag[i]);
                assert(data@ =~= tag@.subrange(0, i as int + 1));
                i += 1;
            }
        }
    }
    assert(data@ =~= selector_bytes(*sel));
    data.push((amount & 0xff) as u8);
    data.push(((amount >> 8) & 0xff) as u8);
    data.push(((amount >> 16) & 0xff) as u8);
    data.push(((amount >> 24) & 0xff) as u8);
    data.push(((amount >> 32) & 0xff) as u8);
    data.push(((amount >> 40) & 0xff) as u8);
    data.push(((amount >> 48) & 0xff) as u8);
    data.push(((amount >> 56) & 0xff) as u8);
    assert(data@ =~= payload_bytes(*sel, amount));
    data
}

/// What decoding a payload yields: the selector's bytes and the amount, or
/// nothing when the length is not the scheme's selector width plus eight.
pub open spec fn decode_payload_spec(data: Seq<u8>, scheme: SelectorScheme) -> Option<
    (Seq<u8>, u64),
> {
    let n = selector_len(scheme) as int;
    if data.len() == n + 8 {
        Some((data.subrange(0, n), u64_of_le_bytes(data.subrange(n, data.len() as int))))
    } else {
        None
    }
}

/// Decodes a payload under the given selector scheme: succeeds exactly when
/// the length is the scheme's selector width plus eight, and then returns the
/// selector whose bytes open the payload and the amount read from the closing
/// eight bytes.
pub fn decode_payload(data: &Vec<u8>, scheme: &SelectorScheme) -> (r: Option<(Selector, u64)>)
    ensures
        match decode_payload_spec(data@, *scheme) {
            Some(p) => {
                &&& r matches Some(q)
                &&& scheme_of(q.0) == *scheme
                &&& selector_bytes(q.0) == p.0
                &&& q.1 == p.1
            },
            None => r is None,
        },
{
    match scheme {
        SelectorScheme::SingleByte => {
            if data.len() != 9 {
                return None;
            }
            let sel = Selector::Index(data[0]);
            let amount = read_le_u64(data, 1);
            assert(selector_bytes(sel) =~= data@.subrange(0, 1));
            Some((sel, amount))
        }
        SelectorScheme::EightByteTag => {
            if data.len() != 16 {
                return None;
            }
            let tag: [u8; 8] = [
                data[0],
                data[1],
                data[2],
                data[3],
                data[4],
                data[5],
                data[6],
                data[7],
            ];
            let sel = Selector::MethodTag(tag);
            let amount = read_le_u64(data, 8);
            assert(selector_bytes(sel) =~= data@.subrange(0, 8));
            Some((sel, amount))
        }
    }
}

/// Reads the eight little-endian bytes starting at `start` back into a u64.
fn read_le_u64(data: &Vec<u8>, start: usize) -> (r: u64)
    requires
        start + 8 <= data@.len(),
    ensures
        r == u64_of_le_bytes(data@.subrange(start as int, start + 8)),
{
    let n = data.len();
    assert(start + 8 <= n);
    let r = (data[start] as u64) | ((data[start + 1] as u64) << 8) | ((data[start + 2] as u64)
        << 16) | ((data[start + 3] as u64) << 24) | ((data[start + 4] as u64) << 32) | ((data[start
        + 5] as u64) << 40) | ((data[start + 6] as u64) << 48) | ((data[start + 7] as u64) << 56);
    assert(data@.subrange(start as int, start + 8)[0] == data@[start as int]);
    r
}

/// Reading eight little-endian bytes back gives the amount they were written
/// from, bit for bit, over the whole 64-bit range.
pub proof fn lemma_u64_le_round_trip(a: u64)
    ensures
        u64_of_le_bytes(u64_le_bytes(a)) == a,
{
    assert(((a & 0xff) as u8 as u64) | ((((a >> 8) & 0xff) as u8 as u64) << 8) | ((((a >> 16)
        & 0xff) as u8 as u64) << 16) | ((((a >> 24) & 0xff) as u8 as u64) << 24) | ((((a >> 32)
        & 0xff) as u8 as u64) << 32) | ((((a >> 40) & 0xff) as u8 as u64) << 40) | ((((a >> 48)
        & 0xff) as u8 as u64) << 48) | ((((a >> 56) & 0xff) as u8 as u64) << 56) == a)
        by (bit_vector);
}

/// Round trip: decoding a produced payload under the producing selector's own
/// scheme recovers that selector's bytes and the original amount exactly, for
/// every amount, zero and the largest included.
pub proof fn lemma_payload_round_trip(sel: Selector, amount: u64)
    ensures
        decode_payload_spec(payload_bytes(sel, amount), scheme_of(sel)) == Some(
            (selector_bytes(sel), amount),
        ),
{
    let p = payload_bytes(sel, amount);
    let n = selector_len(scheme_of(sel)) as int;
    assert(selector_bytes(sel).len() == n) by {
        match sel {
            Selector::Index(_) => {},
            Selector::MethodTag(tag) => {
                assert(tag@.len() == 8);
            },
        }
    }
    assert(p.subrange(0, n) =~= selector_bytes(sel));
    assert(p.subrange(n, p.len() as int) =~= u64_le_bytes(amount));
    lemma_u64_le_round_trip(amount);
}

/// Two selectors of one scheme with the same bytes are the same selector, so
/// a decoded payload pins the producing selector itself, not only its bytes.
pub proof fn lemma_selector_bytes_injective(s1: Selector, s2: Selector)
    requires
        scheme_of(s1) == scheme_of(s2),
        selector_bytes(s1) == selector_bytes(s2),
    ensures
        s1 == s2,
{
    match (s1, s2) {
        (Selector::Index(b1), Selector::Index(b2)) => {
            assert(seq![b1][0] == b1);
            assert(seq![b2][0] == b2);
        },
        (Selector::MethodTag(t1), Selector::MethodTag(t2)) => {
            assert(forall|i: int| 0 <= i < 8 ==> t1@[i] == t2@[i]);
            assert(t1 =~= t2);
        },
        (Selector::Index(_), Selector::MethodTag(_)) => {
            assert(false);
        },
        (Selector::MethodTag(_), Selector::Index(_)) => {
            assert(false);
        },
    }
}

} // verus!
