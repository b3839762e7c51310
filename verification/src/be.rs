//! Big-endian encodings of the fixed-width integers that appear on the wire.
//!
//! Every field of the sampled-value format is serialized big-endian at a
//! fixed width; these helpers state that encoding exactly and prove the
//! executable conversions against it.

use vstd::prelude::*;

verus! {

/// The unsigned 16-bit value stored big-endian in a 2-byte sequence.
pub open spec fn be_u16(b: Seq<u8>) -> u16
    recommends
        b.len() == 2,
{
    (b[0] as int * 0x100 + b[1] as int) as u16
}

/// The 2-byte big-endian encoding of an unsigned 16-bit value.
pub open spec fn be_u16_bytes(x: u16) -> Seq<u8> {
    seq![(x as int / 0x100) as u8, (x as int % 0x100) as u8]
}

pub fn u16_from_be(b0: u8, b1: u8) -> (x: u16)
    ensures
        x == be_u16(seq![b0, b1]),
{
    b0 as u16 * 0x100 + b1 as u16
}

pub fn u16_to_be(x: u16) -> (r: Vec<u8>)
    ensures
        r@ == be_u16_bytes(x),
{
    let mut r: Vec<u8> = Vec::new();
    r.push((x / 0x100) as u8);
    r.push((x % 0x100) as u8);
    proof {
        assert(r@ =~= be_u16_bytes(x));
    }
    r
}

pub proof fn lemma_be_u16_round_trip(x: u16)
    ensures
        be_u16(be_u16_bytes(x)) == x,
{
}

pub proof fn lemma_be_u16_bytes_inverse(b: Seq<u8>)
    requires
        b.len() == 2,
    ensures
        be_u16_bytes(be_u16(b)) =~= b,
{
}

/// The unsigned 32-bit value stored big-endian in a 4-byte sequence.
pub open spec fn be_u32(b: Seq<u8>) -> u32
    recommends
        b.len() == 4,
{
    (b[0] as int * 0x100_0000 + b[1] as int * 0x1_0000 + b[2] as int * 0x100 + b[3] as int) as u32
}

/// The 4-byte big-endian encoding of an unsigned 32-bit value.
pub open spec fn be_u32_bytes(x: u32) -> Seq<u8> {
    seq![
        (x as int / 0x100_0000) as u8,
        (x as int / 0x1_0000 % 0x100) as u8,
        (x as int / 0x100 % 0x100) as u8,
        (x as int % 0x100) as u8,
    ]
}

pub fn u32_from_be(b0: u8, b1: u8, b2: u8, b3: u8) -> (x: u32)
    ensures
        x == be_u32(seq![b0, b1, b2, b3]),
{
    b0 as u32 * 0x100_0000 + b1 as u32 * 0x1_0000 + b2 as u32 * 0x100 + b3 as u32
}

pub fn u32_to_be(x: u32) -> (r: Vec<u8>)
    ensures
        r@ == be_u32_bytes(x),
{
    let mut r: Vec<u8> = Vec::new();
    r.push((x / 0x100_0000) as u8);
    r.push((x / 0x1_0000 % 0x100) as u8);
    r.push((x / 0x100 % 0x100) as u8);
    r.push((x % 0x100) as u8);
    proof {
        assert(r@ =~= be_u32_bytes(x));
    }
    r
}

pub proof fn lemma_be_u32_round_trip(x: u32)
    ensures
        be_u32(be_u32_bytes(x)) == x,
{
}

pub proof fn lemma_be_u32_bytes_inverse(b: Seq<u8>)
    requires
        b.len() == 4,
    ensures
        be_u32_bytes(be_u32(b)) =~= b,
{
    let n = b[0] as int * 0x100_0000 + b[1] as int * 0x1_0000 + b[2] as int * 0x100 + b[3] as int;
    let q1 = b[0] as int * 0x1_0000 + b[1] as int * 0x100 + b[2] as int;
    let q2 = b[0] as int * 0x100 + b[1] as int;
    let q3 = b[0] as int;
    vstd::arithmetic::div_mod::lemma_div_denominator(n, 0x100, 0x100);
    vstd::arithmetic::div_mod::lemma_div_denominator(n, 0x1_0000, 0x100);
    lemma_u64_digit_div_mod(n, q1, b[3] as int);
    lemma_u64_digit_div_mod(q1, q2, b[2] as int);
    lemma_u64_digit_div_mod(q2, q3, b[1] as int);
    assert(be_u32(b) as int == n);
    assert(n / 0x1_0000 == q2);
    assert(n / 0x100_0000 == q3);
}

/// The unsigned 64-bit value stored big-endian in an 8-byte sequence.
pub open spec fn be_u64(b: Seq<u8>) -> u64
    recommends
        b.len() == 8,
{
    (b[0] as int * 0x100_0000_0000_0000 + b[1] as int * 0x1_0000_0000_0000 + b[2] as int
        * 0x100_0000_0000 + b[3] as int * 0x1_0000_0000 + b[4] as int * 0x100_0000 + b[5] as int
        * 0x1_0000 + b[6] as int * 0x100 + b[7] as int) as u64
}

/// The 8-byte big-endian encoding of an unsigned 64-bit value.
pub open spec fn be_u64_bytes(x: u64) -> Seq<u8> {
    seq![
        (x as int / 0x100_0000_0000_0000) as u8,
        (x as int / 0x1_0000_0000_0000 % 0x100) as u8,
        (x as int / 0x100_0000_0000 % 0x100) as u8,
        (x as int / 0x1_0000_0000 % 0x100) as u8,
        (x as int / 0x100_0000 % 0x100) as u8,
        (x as int / 0x1_0000 % 0x100) as u8,
        (x as int / 0x100 % 0x100) as u8,
        (x as int % 0x100) as u8,
    ]
}

pub fn u64_from_be(b: &Vec<u8>) -> (x: u64)
    requires
        b@.len() == 8,
    ensures
        x == be_u64(b@),
{
    b[0] as u64 * 0x100_0000_0000_0000 + b[1] as u64 * 0x1_0000_0000_0000 + b[2] as u64
        * 0x100_0000_0000 + b[3] as u64 * 0x1_0000_0000 + b[4] as u64 * 0x100_0000 + b[5] as u64
        * 0x1_0000 + b[6] as u64 * 0x100 + b[7] as u64
}

pub fn u64_to_be(x: u64) -> (r: Vec<u8>)
    ensures
        r@ == be_u64_bytes(x),
{
    let mut r: Vec<u8> = Vec::new();
    r.push((x / 0x100_0000_0000_0000) as u8);
    r.push((x / 0x1_0000_0000_0000 % 0x100) as u8);
    r.push((x / 0x100_0000_0000 % 0x100) as u8);
    r.push((x / 0x1_0000_0000 % 0x100) as u8);
    r.push((x / 0x100_0000 % 0x100) as u8);
    r.push((x / 0x1_0000 % 0x100) as u8);
    r.push((x / 0x100 % 0x100) as u8);
    r.push((x % 0x100) as u8);
    proof {
        assert(r@ =~= be_u64_bytes(x));
    }
    r
}

/// Successive division by 0x100 agrees with division by the matching power
/// of 0x100, for each level used by the 8-byte encoding.
proof fn lemma_u64_digit_chain(x: int)
    requires
        0 <= x,
    ensures
        x / 0x100 / 0x100 == x / 0x1_0000,
        x / 0x1_0000 / 0x100 == x / 0x100_0000,
        x / 0x100_0000 / 0x100 == x / 0x1_0000_0000,
        x / 0x1_0000_0000 / 0x100 == x / 0x100_0000_0000,
        x / 0x100_0000_0000 / 0x100 == x / 0x1_0000_0000_0000,
        x / 0x1_0000_0000_0000 / 0x100 == x / 0x100_0000_0000_0000,
{
    vstd::arithmetic::div_mod::lemma_div_denominator(x, 0x100, 0x100);
    vstd::arithmetic::div_mod::lemma_div_denominator(x, 0x1_0000, 0x100);
    vstd::arithmetic::div_mod::lemma_div_denominator(x, 0x100_0000, 0x100);
    vstd::arithmetic::div_mod::lemma_div_denominator(x, 0x1_0000_0000, 0x100);
    vstd::arithmetic::div_mod::lemma_div_denominator(x, 0x100_0000_0000, 0x100);
    vstd::arithmetic::div_mod::lemma_div_denominator(x, 0x1_0000_0000_0000, 0x100);
}

#[verifier::rlimit(60)]
pub proof fn lemma_be_u64_round_trip(x: u64)
    ensures
        be_u64(be_u64_bytes(x)) == x,
{
    let xi = x as int;
    lemma_u64_digit_chain(xi);
    let x1 = xi / 0x100;
    let x2 = xi / 0x1_0000;
    let x3 = xi / 0x100_0000;
    let x4 = xi / 0x1_0000_0000;
    let x5 = xi / 0x100_0000_0000;
    let x6 = xi / 0x1_0000_0000_0000;
    let x7 = xi / 0x100_0000_0000_0000;
    assert(xi == x1 * 0x100 + xi % 0x100);
    assert(x1 == x2 * 0x100 + x1 % 0x100);
    assert(x2 == x3 * 0x100 + x2 % 0x100);
    assert(x3 == x4 * 0x100 + x3 % 0x100);
    assert(x4 == x5 * 0x100 + x4 % 0x100);
    assert(x5 == x6 * 0x100 + x5 % 0x100);
    assert(x6 == x7 * 0x100 + x6 % 0x100);
    assert(x7 < 0x100);
}

#[verifier::rlimit(60)]
pub proof fn lemma_be_u64_bytes_inverse(b: Seq<u8>)
    requires
        b.len() == 8,
    ensures
        be_u64_bytes(be_u64(b)) =~= b,
{
    let n = b[0] as int * 0x100_0000_0000_0000 + b[1] as int * 0x1_0000_0000_0000 + b[2] as int
        * 0x100_0000_0000 + b[3] as int * 0x1_0000_0000 + b[4] as int * 0x100_0000 + b[5] as int
        * 0x1_0000 + b[6] as int * 0x100 + b[7] as int;
    lemma_u64_digit_chain(n);
    let q1 = b[0] as int * 0x1_0000_0000_0000 + b[1] as int * 0x100_0000_0000 + b[2] as int
        * 0x1_0000_0000 + b[3] as int * 0x100_0000 + b[4] as int * 0x1_0000 + b[5] as int * 0x100
        + b[6] as int;
    let q2 = b[0] as int * 0x100_0000_0000 + b[1] as int * 0x1_0000_0000 + b[2] as int * 0x100_0000
        + b[3] as int * 0x1_0000 + b[4] as int * 0x100 + b[5] as int;
    let q3 = b[0] as int * 0x1_0000_0000 + b[1] as int * 0x100_0000 + b[2] as int * 0x1_0000 + b[
        3] as int * 0x100 + b[4] as int;
    let q4 = b[0] as int * 0x100_0000 + b[1] as int * 0x1_0000 + b[2] as int * 0x100 + b[3] as int;
    let q5 = b[0] as int * 0x1_0000 + b[1] as int * 0x100 + b[2] as int;
    let q6 = b[0] as int * 0x100 + b[1] as int;
    let q7 = b[0] as int;
    lemma_u64_digit_div_mod(n, q1, b[7] as int);
    lemma_u64_digit_div_mod(q1, q2, b[6] as int);
    lemma_u64_digit_div_mod(q2, q3, b[5] as int);
    lemma_u64_digit_div_mod(q3, q4, b[4] as int);
    lemma_u64_digit_div_mod(q4, q5, b[3] as int);
    lemma_u64_digit_div_mod(q5, q6, b[2] as int);
    lemma_u64_digit_div_mod(q6, q7, b[1] as int);
    assert(be_u64(b) as int == n);
    assert(n / 0x1_0000 == q2);
    assert(n / 0x100_0000 == q3);
    assert(n / 0x1_0000_0000 == q4);
    assert(n / 0x100_0000_0000 == q5);
    assert(n / 0x1_0000_0000_0000 == q6);
    assert(n / 0x100_0000_0000_0000 == q7);
}

/// For a quotient-remainder pair with a one-byte remainder, division and
/// remainder by 0x100 pick the pair apart.
proof fn lemma_u64_digit_div_mod(x: int, q: int, r: int)
    requires
        x == q * 0x100 + r,
        0 <= q,
        0 <= r < 0x100,
    ensures
        x / 0x100 == q,
        x % 0x100 == r,
{
    vstd::arithmetic::div_mod::lemma_fundamental_div_mod_converse_div(x, 0x100, q, r);
    vstd::arithmetic::div_mod::lemma_fundamental_div_mod_converse_mod(x, 0x100, q, r);
}

/// The signed 32-bit value stored big-endian, two's complement, in a 4-byte
/// sequence.
pub open spec fn be_i32(b: Seq<u8>) -> i32
    recommends
        b.len() == 4,
{
    let n = be_u32(b) as int;
    if n < 0x8000_0000 {
        n as i32
    } else {
        (n - 0x1_0000_0000) as i32
    }
}

/// The 4-byte big-endian, two's complement encoding of a signed 32-bit value.
pub open spec fn be_i32_bytes(x: i32) -> Seq<u8> {
    be_u32_bytes(
        if x >= 0 {
            x as u32
        } else {
            (x as int + 0x1_0000_0000) as u32
        },
    )
}

pub fn i32_from_be(b0: u8, b1: u8, b2: u8, b3: u8) -> (x: i32)
    ensures
        x == be_i32(seq![b0, b1, b2, b3]),
{
    let n = u32_from_be(b0, b1, b2, b3);
    if n < 0x8000_0000 {
        n as i32
    } else {
        -((0xFFFF_FFFFu32 - n) as i32) - 1
    }
}

pub fn i32_to_be(x: i32) -> (r: Vec<u8>)
    ensures
        r@ == be_i32_bytes(x),
{
    let n: u32 = if x >= 0 {
        x as u32
    } else {
        (x as i64 + 0x1_0000_0000i64) as u32
    };
    u32_to_be(n)
}

pub proof fn lemma_be_i32_round_trip(x: i32)
    ensures
        be_i32(be_i32_bytes(x)) == x,
{
    if x >= 0 {
        lemma_be_u32_round_trip(x as u32);
    } else {
        lemma_be_u32_round_trip((x as int + 0x1_0000_0000) as u32);
    }
}

pub proof fn lemma_be_i32_bytes_inverse(b: Seq<u8>)
    requires
        b.len() == 4,
    ensures
        be_i32_bytes(be_i32(b)) =~= b,
{
    lemma_be_u32_bytes_inverse(b);
}

} // verus!
