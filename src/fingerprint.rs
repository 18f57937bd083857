use crate::event::{EventView, NormalizedEvent};
use vstd::prelude::*;
use vstd::string::*;
use vstd::arithmetic::div_mod::{
    lemma_mod_multiples_vanish, lemma_mul_mod_noop_left, lemma_small_mod,
};
use vstd::utf8::encode_utf8;

verus! {

/// The 64-bit FNV-1a digest of `bytes`: from the offset basis, each byte in
/// turn is xored in and the state multiplied by the FNV prime, modulo 2^64.
pub open spec fn fnv1a_bytes(bytes: Seq<u8>) -> u64
    decreases bytes.len(),
{
    if bytes.len() == 0 {
        0xcbf29ce484222325
    } else {
        let h = fnv1a_bytes(bytes.drop_last()) ^ (bytes.last() as u64);
        ((h as int * 0x100000001b3) % 0x1_0000_0000_0000_0000) as u64
    }
}

/// Multiplying by the FNV prime modulo 2^64 is undone by multiplying by its
/// inverse 0xce965057aff6957b.
proof fn lemma_prime_invertible(x: int)
    requires
        0 <= x < 0x1_0000_0000_0000_0000,
    ensures
        ((x * 0x100000001b3) % 0x1_0000_0000_0000_0000 * 0xce965057aff6957b)
            % 0x1_0000_0000_0000_0000 == x,
{
    let m: int = 0x1_0000_0000_0000_0000;
    let p: int = 0x100000001b3;
    let q: int = 0xce965057aff6957b;
    let k: int = (p * q - 1) / m;
    assert(p * q == 1 + k * m);
    lemma_mul_mod_noop_left(x * p, q, m);
    assert((x * p) * q == m * (x * k) + x) by (nonlinear_arith)
        requires
            p * q == 1 + k * m,
    ;
    lemma_mod_multiples_vanish(x * k, x, m);
    lemma_small_mod(x as nat, m as nat);
}

/// One FNV-1a round from two different states, or with two different bytes,
/// gives two different states.
proof fn lemma_round_injective(h1: u64, b1: u8, h2: u64, b2: u8)
    requires
        h1 != h2 || b1 != b2,
        h1 != h2 ==> b1 == b2,
    ensures
        ((((h1 ^ (b1 as u64)) as int * 0x100000001b3) % 0x1_0000_0000_0000_0000) as u64)
            != ((((h2 ^ (b2 as u64)) as int * 0x100000001b3) % 0x1_0000_0000_0000_0000) as u64),
{
    let x1 = h1 ^ (b1 as u64);
    let x2 = h2 ^ (b2 as u64);
    assert(x1 != x2) by (bit_vector)
        requires
            x1 == h1 ^ (b1 as u64),
            x2 == h2 ^ (b2 as u64),
            h1 != h2 || b1 != b2,
            h1 != h2 ==> b1 == b2,
    ;
    lemma_prime_invertible(x1 as int);
    lemma_prime_invertible(x2 as int);
}

/// FNV-1a tells apart any two inputs of one length that differ in a single
/// byte.
pub proof fn fnv1a_separates_single_byte_changes(a: Seq<u8>, b: Seq<u8>, i: int)
    requires
        a.len() == b.len(),
        0 <= i < a.len(),
        a[i] != b[i],
        forall|j: int| 0 <= j < a.len() && j != i ==> a[j] == b[j],
    ensures
        fnv1a_bytes(a) != fnv1a_bytes(b),
    decreases a.len(),
{
    let n = a.len() - 1;
    if i == n {
        assert(a.drop_last() =~= b.drop_last());
        lemma_round_injective(fnv1a_bytes(a.drop_last()), a[n], fnv1a_bytes(b.drop_last()), b[n]);
    } else {
        fnv1a_separates_single_byte_changes(a.drop_last(), b.drop_last(), i);
        lemma_round_injective(fnv1a_bytes(a.drop_last()), a[n], fnv1a_bytes(b.drop_last()), b[n]);
    }
}

/// The 64-bit FNV-1a digest of the UTF-8 encoding of `text`.
pub open spec fn fnv1a_of(text: Seq<char>) -> u64 {
    fnv1a_bytes(encode_utf8(text))
}

/// Relies on `fnv::FnvHasher`: `Default` starts from the offset basis
/// 0xcbf29ce484222325, `write` xors each byte in and multiplies by the prime
/// 0x100000001b3 with wrapping, and `finish` returns the state. A `str`'s
/// bytes are the UTF-8 encoding of its characters.
#[verifier::external_body]
fn fnv1a(text: &str) -> (r: u64)
    ensures
        r == fnv1a_of(text@),
{
    let mut hasher = fnv::FnvHasher::default();
    std::hash::Hasher::write(&mut hasher, text.as_bytes());
    std::hash::Hasher::finish(&hasher)
}

/// The text a fingerprint is taken over: the fingerprinted form of the
/// instant, source component, namespace, type and message, concatenated in
/// that order.
pub open spec fn fingerprint_input(e: EventView) -> Seq<char> {
    e.time_key + e.source_component + e.namespace + e.event_type + e.message
}

pub open spec fn fingerprint_of(e: EventView) -> u64 {
    fnv1a_of(fingerprint_input(e))
}

/// The content fingerprint of `e`. Reason, count and the rendered local time
/// do not take part.
/// Distinct events that collide are indistinguishable here.
pub fn fingerprint(e: &NormalizedEvent) -> (r: u64)
    ensures
        r == fingerprint_of(e@),
{
    let mut key = String::new();
    key.append(e.time_key.as_str());
    key.append(e.source_component.as_str());
    key.append(e.namespace.as_str());
    key.append(e.event_type.as_str());
    key.append(e.message.as_str());
    fnv1a(key.as_str())
}

/// Two events that agree on the five fingerprinted fields have the same
/// fingerprint, whatever their reason, count and rendered time, in any run.
pub proof fn fingerprint_is_deterministic(a: EventView, b: EventView)
    requires
        a.time_key == b.time_key,
        a.source_component == b.source_component,
        a.namespace == b.namespace,
        a.event_type == b.event_type,
        a.message == b.message,
    ensures
        fingerprint_of(a) == fingerprint_of(b),
{
}

} // verus!
