//! OSC framing of a message with one float32 argument.
//!
//! A message is the address as an OSC string (its bytes, then one to four
//! NUL bytes so that the length is a multiple of four), the type tag string
//! `",f"` padded the same way, and the four big-endian bytes of the float.
//! Weights travel as their IEEE-754 bit pattern, so the framing never
//! touches a floating-point value.
use vstd::prelude::*;

verus! {

/// Length of the OSC string that holds `n` bytes: one NUL at least, padded
/// to a multiple of four.
pub open spec fn padded_len(n: nat) -> nat {
    (n / 4 + 1) * 4
}

/// The OSC string of the bytes `b`.
pub open spec fn osc_string(b: Seq<u8>) -> Seq<u8> {
    b + Seq::new((padded_len(b.len()) - b.len()) as nat, |i: int| 0u8)
}

/// The type tag string of a message with one float32 argument: `",f"` and
/// two NUL bytes.
pub open spec fn float_type_tag() -> Seq<u8> {
    seq![44u8, 102u8, 0u8, 0u8]
}

/// The four bytes of `w`, most significant first.
pub open spec fn be_bytes(w: u32) -> Seq<u8> {
    seq![(w >> 24u32) as u8, (w >> 16u32) as u8, (w >> 8u32) as u8, w as u8]
}

/// The datagram payload of the message at `addr` carrying the float whose
/// bit pattern is `bits`.
pub open spec fn float_message(addr: Seq<u8>, bits: u32) -> Seq<u8> {
    osc_string(addr) + float_type_tag() + be_bytes(bits)
}

/// Whether `b` holds a NUL byte, which would end an OSC string early.
pub open spec fn has_nul(b: Seq<u8>) -> bool {
    exists|i: int| 0 <= i < b.len() && b[i] == 0
}

/// What a receiver reads from `b`: the address and the bit pattern of the
/// float, when `b` is a message with one float32 argument.
pub open spec fn decode_float_message(b: Seq<u8>) -> Option<(Seq<u8>, u32)> {
    if exists|a: Seq<u8>, w: u32| !has_nul(a) && b == float_message(a, w) {
        let (a, w) = choose|a: Seq<u8>, w: u32| !has_nul(a) && b == float_message(a, w);
        Some((a, w))
    } else {
        None
    }
}

proof fn lemma_be_bytes_injective(w1: u32, w2: u32)
    requires
        be_bytes(w1) == be_bytes(w2),
    ensures
        w1 == w2,
{
    assert(be_bytes(w1)[0] == be_bytes(w2)[0]);
    assert(be_bytes(w1)[1] == be_bytes(w2)[1]);
    assert(be_bytes(w1)[2] == be_bytes(w2)[2]);
    assert(be_bytes(w1)[3] == be_bytes(w2)[3]);
    assert(((w1 >> 24u32) as u8 == (w2 >> 24u32) as u8 && (w1 >> 16u32) as u8 == (w2
        >> 16u32) as u8 && (w1 >> 8u32) as u8 == (w2 >> 8u32) as u8 && w1 as u8 == w2 as u8)
        ==> w1 == w2) by (bit_vector);
}

proof fn lemma_address_len_fixed(a1: Seq<u8>, w1: u32, a2: Seq<u8>, w2: u32)
    requires
        !has_nul(a1),
        !has_nul(a2),
        float_message(a1, w1) == float_message(a2, w2),
    ensures
        a1.len() <= a2.len(),
{
    if a1.len() > a2.len() {
        let k = a2.len() as int;
        assert(float_message(a2, w2)[k] == osc_string(a2)[k]);
        assert(float_message(a1, w1)[k] == a1[k]);
        assert(a1[k] != 0);
    }
}

/// A message with one float32 argument, at an address without NUL bytes,
/// reads back as the address and the float it was made from.
pub proof fn lemma_float_message_round_trip(addr: Seq<u8>, bits: u32)
    requires
        !has_nul(addr),
    ensures
        decode_float_message(float_message(addr, bits)) == Some((addr, bits)),
{
    let m = float_message(addr, bits);
    assert(!has_nul(addr) && m == float_message(addr, bits));
    let (a, w) = choose|a: Seq<u8>, w: u32| !has_nul(a) && m == float_message(a, w);
    lemma_address_len_fixed(a, w, addr, bits);
    lemma_address_len_fixed(addr, bits, a, w);
    let n = addr.len() as int;
    assert forall|i: int| 0 <= i < n implies a[i] == addr[i] by {
        assert(m[i] == addr[i]);
        assert(float_message(a, w)[i] == a[i]);
    }
    assert(a =~= addr);
    let p = padded_len(n as nat) as int;
    assert(m.len() == p + 8);
    assert(be_bytes(w) =~= m.subrange(p + 4, p + 8));
    assert(be_bytes(bits) =~= m.subrange(p + 4, p + 8));
    lemma_be_bytes_injective(w, bits);
}

/// Encodes the message at `address` carrying the float whose bit pattern is
/// `bits`.
pub fn encode_float_message(address: &[u8], bits: u32) -> (r: Vec<u8>)
    requires
        address@.len() + 12 <= usize::MAX,
    ensures
        r@ == float_message(address@, bits),
{
    let n = address.len();
    let mut out: Vec<u8> = Vec::new();
    let mut i: usize = 0;
    while i < n
        invariant
            n == address@.len(),
            i <= n,
            out@ == address@.subrange(0, i as int),
        decreases n - i,
    {
        out.push(address[i]);
        i = i + 1;
    }
    let padded: usize = (n / 4 + 1) * 4;
    while out.len() < padded
        invariant
            n == address@.len(),
            padded == padded_len(n as nat),
            n <= out@.len() <= padded,
            out@.subrange(0, n as int) == address@,
            forall|j: int| n <= j < out@.len() ==> out@[j] == 0,
        decreases padded - out.len(),
    {
        out.push(0u8);
    }
    assert(out@ =~= osc_string(address@));
    out.push(44u8);
    out.push(102u8);
    out.push(0u8);
    out.push(0u8);
    out.push((bits >> 24u32) as u8);
    out.push((bits >> 16u32) as u8);
    out.push((bits >> 8u32) as u8);
    out.push(bits as u8);
    assert(out@ =~= float_message(address@, bits));
    out
}

} // verus!
