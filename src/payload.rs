//! The client's wire payload: `hello world! <counter>` as bytes.
use vstd::prelude::*;

verus! {

/// The ASCII decimal rendering of `n`, most significant digit first.
pub open spec fn decimal(n: nat) -> Seq<u8>
    decreases n,
{
    if n < 10 {
        seq![(48 + n) as u8]
    } else {
        decimal(n / 10).push((48 + n % 10) as u8)
    }
}

/// The fixed text in front of the counter.
pub open spec fn greeting() -> Seq<u8> {
    seq![104u8, 101, 108, 108, 111, 32, 119, 111, 114, 108, 100, 33, 32]
}

/// The payload that carries the counter value `count`.
pub open spec fn payload_of(count: nat) -> Seq<u8> {
    greeting() + decimal(count)
}

/// A decimal rendering has at least one digit, and only one below ten.
pub proof fn lemma_decimal_len(n: nat)
    ensures
        decimal(n).len() >= 1,
        n >= 10 ==> decimal(n).len() >= 2,
    decreases n,
{
    if n >= 10 {
        lemma_decimal_len(n / 10);
    }
}

/// Two counters with the same rendering are the same counter.
pub proof fn lemma_decimal_injective(a: nat, b: nat)
    requires
        decimal(a) == decimal(b),
    ensures
        a == b,
    decreases a,
{
    lemma_decimal_len(a);
    lemma_decimal_len(b);
    if a >= 10 && b >= 10 {
        assert(decimal(a).last() == (48 + a % 10) as u8);
        assert(decimal(b).last() == (48 + b % 10) as u8);
        assert(decimal(a).drop_last() == decimal(a / 10));
        assert(decimal(b).drop_last() == decimal(b / 10));
        lemma_decimal_injective(a / 10, b / 10);
        assert(a % 10 == b % 10);
    } else if a < 10 && b < 10 {
        assert(decimal(a)[0] == (48 + a) as u8);
        assert(decimal(b)[0] == (48 + b) as u8);
    } else {
        assert(decimal(a).len() != decimal(b).len());
    }
}

/// Payloads sent for different counter values differ, so no two send
/// cycles put the same text on the wire.
pub proof fn lemma_payload_injective(a: nat, b: nat)
    requires
        a != b,
    ensures
        payload_of(a) != payload_of(b),
{
    if payload_of(a) == payload_of(b) {
        assert(decimal(a) == payload_of(a).subrange(13, payload_of(a).len() as int));
        assert(decimal(b) == payload_of(b).subrange(13, payload_of(b).len() as int));
        lemma_decimal_injective(a, b);
    }
}

/// Renders `n` in decimal ASCII digits.
pub fn decimal_bytes(n: u64) -> (r: Vec<u8>)
    ensures
        r@ == decimal(n as nat),
    decreases n,
{
    if n < 10 {
        let d: u8 = 48u8 + n as u8;
        vec![d]
    } else {
        let mut r = decimal_bytes(n / 10);
        let d: u8 = 48u8 + (n % 10) as u8;
        r.push(d);
        r
    }
}

/// Builds the bytes of `hello world! <count>`.
pub fn payload(count: u64) -> (r: Vec<u8>)
    ensures
        r@ == payload_of(count as nat),
{
    let mut r: Vec<u8> = vec![104u8, 101, 108, 108, 111, 32, 119, 111, 114, 108, 100, 33, 32];
    let mut digits = decimal_bytes(count);
    r.append(&mut digits);
    r
}

} // verus!
