//! Little-endian fields: how numbers are laid down as bytes and read back.

use vstd::prelude::*;

verus! {

/// The four bytes of a 32-bit number, lowest first.
#[verifier::opaque]
pub open spec fn u32_to_le(x: u32) -> Seq<u8> {
    seq![
        (x % 0x100) as u8,
        (x / 0x100 % 0x100) as u8,
        (x / 0x1_0000 % 0x100) as u8,
        (x / 0x100_0000 % 0x100) as u8,
    ]
}

/// The number that four bytes stand for, lowest first.
#[verifier::opaque]
pub open spec fn u32_from_le(b: Seq<u8>) -> u32
    recommends
        b.len() == 4,
{
    (b[0] + b[1] * 0x100 + b[2] * 0x1_0000 + b[3] * 0x100_0000) as u32
}

/// The eight bytes of a 64-bit number, lowest first.
#[verifier::opaque]
pub open spec fn u64_to_le(x: u64) -> Seq<u8> {
    seq![
        (x % 0x100) as u8,
        (x / 0x100 % 0x100) as u8,
        (x / 0x1_0000 % 0x100) as u8,
        (x / 0x100_0000 % 0x100) as u8,
        (x / 0x1_0000_0000 % 0x100) as u8,
        (x / 0x100_0000_0000 % 0x100) as u8,
        (x / 0x1_0000_0000_0000 % 0x100) as u8,
        (x / 0x100_0000_0000_0000 % 0x100) as u8,
    ]
}

/// The number that eight bytes stand for, lowest first.
#[verifier::opaque]
pub open spec fn u64_from_le(b: Seq<u8>) -> u64
    recommends
        b.len() == 8,
{
    (b[0] + b[1] * 0x100 + b[2] * 0x1_0000 + b[3] * 0x100_0000 + b[4] * 0x1_0000_0000 + b[5]
        * 0x100_0000_0000 + b[6] * 0x1_0000_0000_0000 + b[7] * 0x100_0000_0000_0000) as u64
}

/// One base-256 digit split off a number: `x / (d * 256)` is `x / d` without
/// its lowest digit.
proof fn lemma_peel(x: int, d: int)
    requires
        0 <= x,
        0 < d,
    ensures
        x / (d * 0x100) == (x / d) / 0x100,
        x / d == ((x / d) / 0x100) * 0x100 + (x / d) % 0x100,
        0 <= (x / d) % 0x100 < 0x100,
        0 <= x / d,
{
    vstd::arithmetic::div_mod::lemma_div_denominator(x, d, 0x100);
    vstd::arithmetic::div_mod::lemma_fundamental_div_mod(x / d, 0x100);
    vstd::arithmetic::div_mod::lemma_div_pos_is_pos(x, d);
    vstd::arithmetic::div_mod::lemma_mod_bound(x / d, 0x100);
}

/// A digit put in front of a number comes off again.
proof fn lemma_digit(q: int, r: int)
    requires
        0 <= r < 0x100,
    ensures
        (r + q * 0x100) % 0x100 == r,
        (r + q * 0x100) / 0x100 == q,
{
    vstd::arithmetic::div_mod::lemma_fundamental_div_mod_converse(r + q * 0x100, 0x100, q, r);
}

proof fn lemma_u32_digits(x: int)
    requires
        0 <= x < 0x1_0000_0000,
    ensures
        x == x % 0x100 + (x / 0x100 % 0x100) * 0x100 + (x / 0x1_0000 % 0x100) * 0x1_0000 + (x
            / 0x100_0000 % 0x100) * 0x100_0000,
{
    lemma_peel(x, 1);
    lemma_peel(x, 0x100);
    lemma_peel(x, 0x1_0000);
    lemma_peel(x, 0x100_0000);
    assert(x / 0x1_0000_0000 == 0);
}

proof fn lemma_u32_value(b0: int, b1: int, b2: int, b3: int)
    requires
        0 <= b0 < 0x100,
        0 <= b1 < 0x100,
        0 <= b2 < 0x100,
        0 <= b3 < 0x100,
    ensures
        ({
            let x = b0 + b1 * 0x100 + b2 * 0x1_0000 + b3 * 0x100_0000;
            &&& 0 <= x < 0x1_0000_0000
            &&& x % 0x100 == b0
            &&& x / 0x100 % 0x100 == b1
            &&& x / 0x1_0000 % 0x100 == b2
            &&& x / 0x100_0000 % 0x100 == b3
        }),
{
    let x = b0 + b1 * 0x100 + b2 * 0x1_0000 + b3 * 0x100_0000;
    let q2 = b2 + b3 * 0x100;
    let q1 = b1 + q2 * 0x100;
    lemma_digit(q1, b0);
    lemma_digit(q2, b1);
    lemma_digit(b3, b2);
    lemma_digit(0, b3);
    lemma_peel(x, 1);
    lemma_peel(x, 0x100);
    lemma_peel(x, 0x1_0000);
}

proof fn lemma_u64_digits(x: int)
    requires
        0 <= x < 0x1_0000_0000_0000_0000,
    ensures
        x == x % 0x100 + (x / 0x100 % 0x100) * 0x100 + (x / 0x1_0000 % 0x100) * 0x1_0000 + (x
            / 0x100_0000 % 0x100) * 0x100_0000 + (x / 0x1_0000_0000 % 0x100) * 0x1_0000_0000 + (x
            / 0x100_0000_0000 % 0x100) * 0x100_0000_0000 + (x / 0x1_0000_0000_0000 % 0x100)
            * 0x1_0000_0000_0000 + (x / 0x100_0000_0000_0000 % 0x100) * 0x100_0000_0000_0000,
{
    lemma_peel(x, 1);
    lemma_peel(x, 0x100);
    lemma_peel(x, 0x1_0000);
    lemma_peel(x, 0x100_0000);
    lemma_peel(x, 0x1_0000_0000);
    lemma_peel(x, 0x100_0000_0000);
    lemma_peel(x, 0x1_0000_0000_0000);
    lemma_peel(x, 0x100_0000_0000_0000);
    assert(x / 0x1_0000_0000_0000_0000 == 0);
}

proof fn lemma_u64_value(b0: int, b1: int, b2: int, b3: int, b4: int, b5: int, b6: int, b7: int)
    requires
        0 <= b0 < 0x100,
        0 <= b1 < 0x100,
        0 <= b2 < 0x100,
        0 <= b3 < 0x100,
        0 <= b4 < 0x100,
        0 <= b5 < 0x100,
        0 <= b6 < 0x100,
        0 <= b7 < 0x100,
    ensures
        ({
            let x = b0 + b1 * 0x100 + b2 * 0x1_0000 + b3 * 0x100_0000 + b4 * 0x1_0000_0000 + b5
                * 0x100_0000_0000 + b6 * 0x1_0000_0000_0000 + b7 * 0x100_0000_0000_0000;
            &&& 0 <= x < 0x1_0000_0000_0000_0000
            &&& x % 0x100 == b0
            &&& x / 0x100 % 0x100 == b1
            &&& x / 0x1_0000 % 0x100 == b2
            &&& x / 0x100_0000 % 0x100 == b3
            &&& x / 0x1_0000_0000 % 0x100 == b4
            &&& x / 0x100_0000_0000 % 0x100 == b5
            &&& x / 0x1_0000_0000_0000 % 0x100 == b6
            &&& x / 0x100_0000_0000_0000 % 0x100 == b7
        }),
{
    let x = b0 + b1 * 0x100 + b2 * 0x1_0000 + b3 * 0x100_0000 + b4 * 0x1_0000_0000 + b5
        * 0x100_0000_0000 + b6 * 0x1_0000_0000_0000 + b7 * 0x100_0000_0000_0000;
    let q6 = b6 + b7 * 0x100;
    let q5 = b5 + q6 * 0x100;
    let q4 = b4 + q5 * 0x100;
    let q3 = b3 + q4 * 0x100;
    let q2 = b2 + q3 * 0x100;
    let q1 = b1 + q2 * 0x100;
    lemma_digit(q1, b0);
    lemma_digit(q2, b1);
    lemma_digit(q3, b2);
    lemma_digit(q4, b3);
    lemma_digit(q5, b4);
    lemma_digit(q6, b5);
    lemma_digit(b7, b6);
    lemma_digit(0, b7);
    lemma_peel(x, 1);
    lemma_peel(x, 0x100);
    lemma_peel(x, 0x1_0000);
    lemma_peel(x, 0x100_0000);
    lemma_peel(x, 0x1_0000_0000);
    lemma_peel(x, 0x100_0000_0000);
    lemma_peel(x, 0x1_0000_0000_0000);
}

/// A 32-bit number is read back from the four bytes it is written as.
pub proof fn lemma_u32_read_back(x: u32)
    ensures
        u32_to_le(x).len() == 4,
        u32_from_le(u32_to_le(x)) == x,
{
    reveal(u32_to_le);
    reveal(u32_from_le);
    lemma_u32_digits(x as int);
}

/// Four bytes are the only way to write the number they stand for.
pub proof fn lemma_u32_written_back(b: Seq<u8>)
    requires
        b.len() == 4,
    ensures
        u32_to_le(u32_from_le(b)) == b,
{
    reveal(u32_to_le);
    reveal(u32_from_le);
    lemma_u32_value(b[0] as int, b[1] as int, b[2] as int, b[3] as int);
    assert(u32_to_le(u32_from_le(b)) =~= b);
}

/// A 64-bit number is read back from the eight bytes it is written as.
pub proof fn lemma_u64_read_back(x: u64)
    ensures
        u64_to_le(x).len() == 8,
        u64_from_le(u64_to_le(x)) == x,
{
    reveal(u64_to_le);
    reveal(u64_from_le);
    lemma_u64_digits(x as int);
}

/// Eight bytes are the only way to write the number they stand for.
pub proof fn lemma_u64_written_back(b: Seq<u8>)
    requires
        b.len() == 8,
    ensures
        u64_to_le(u64_from_le(b)) == b,
{
    reveal(u64_to_le);
    reveal(u64_from_le);
    lemma_u64_value(
        b[0] as int,
        b[1] as int,
        b[2] as int,
        b[3] as int,
        b[4] as int,
        b[5] as int,
        b[6] as int,
        b[7] as int,
    );
    assert(u64_to_le(u64_from_le(b)) =~= b);
}

/// The 32-bit field at offset `at`, if the bytes reach that far.
pub open spec fn field_u32(bytes: Seq<u8>, at: int) -> Option<u32> {
    if 0 <= at && at + 4 <= bytes.len() {
        Some(u32_from_le(bytes.subrange(at, at + 4)))
    } else {
        None
    }
}

/// The 64-bit field at offset `at`, if the bytes reach that far.
pub open spec fn field_u64(bytes: Seq<u8>, at: int) -> Option<u64> {
    if 0 <= at && at + 8 <= bytes.len() {
        Some(u64_from_le(bytes.subrange(at, at + 8)))
    } else {
        None
    }
}

/// The four laws above, for every value at once.
pub proof fn lemma_fields_round_trip()
    ensures
        forall|x: u32| #[trigger] u32_to_le(x).len() == 4 && u32_from_le(u32_to_le(x)) == x,
        forall|x: u64| #[trigger] u64_to_le(x).len() == 8 && u64_from_le(u64_to_le(x)) == x,
        forall|b: Seq<u8>| b.len() == 4 ==> #[trigger] u32_to_le(u32_from_le(b)) == b,
        forall|b: Seq<u8>| b.len() == 8 ==> #[trigger] u64_to_le(u64_from_le(b)) == b,
{
    assert forall|x: u32| #[trigger] u32_to_le(x).len() == 4 && u32_from_le(u32_to_le(x)) == x by {
        lemma_u32_read_back(x);
    }
    assert forall|x: u64| #[trigger] u64_to_le(x).len() == 8 && u64_from_le(u64_to_le(x)) == x by {
        lemma_u64_read_back(x);
    }
    assert forall|b: Seq<u8>| b.len() == 4 implies #[trigger] u32_to_le(u32_from_le(b)) == b by {
        lemma_u32_written_back(b);
    }
    assert forall|b: Seq<u8>| b.len() == 8 implies #[trigger] u64_to_le(u64_from_le(b)) == b by {
        lemma_u64_written_back(b);
    }
}

/// Reads the 32-bit field at offset `at`.
pub fn read_u32(bytes: &[u8], at: usize) -> (r: Option<u32>)
    ensures
        r == field_u32(bytes@, at as int),
{
    proof {
        reveal(u32_from_le);
    }
    if at <= bytes.len() && bytes.len() - at >= 4 {
        let b0 = bytes[at] as u32;
        let b1 = bytes[at + 1] as u32;
        let b2 = bytes[at + 2] as u32;
        let b3 = bytes[at + 3] as u32;
        Some(b0 + b1 * 0x100 + b2 * 0x1_0000 + b3 * 0x100_0000)
    } else {
        None
    }
}

/// Reads the 64-bit field at offset `at`.
pub fn read_u64(bytes: &[u8], at: usize) -> (r: Option<u64>)
    ensures
        r == field_u64(bytes@, at as int),
{
    proof {
        reveal(u64_from_le);
    }
    if at <= bytes.len() && bytes.len() - at >= 8 {
        let b0 = bytes[at] as u64;
        let b1 = bytes[at + 1] as u64;
        let b2 = bytes[at + 2] as u64;
        let b3 = bytes[at + 3] as u64;
        let b4 = bytes[at + 4] as u64;
        let b5 = bytes[at + 5] as u64;
        let b6 = bytes[at + 6] as u64;
        let b7 = bytes[at + 7] as u64;
        Some(
            b0 + b1 * 0x100 + b2 * 0x1_0000 + b3 * 0x100_0000 + b4 * 0x1_0000_0000 + b5
                * 0x100_0000_0000 + b6 * 0x1_0000_0000_0000 + b7 * 0x100_0000_0000_0000,
        )
    } else {
        None
    }
}

/// Appends a 32-bit field.
pub fn put_u32(out: &mut Vec<u8>, x: u32)
    ensures
        final(out)@ == old(out)@ + u32_to_le(x),
{
    out.push((x % 0x100) as u8);
    out.push((x / 0x100 % 0x100) as u8);
    out.push((x / 0x1_0000 % 0x100) as u8);
    out.push((x / 0x100_0000 % 0x100) as u8);
    proof {
        reveal(u32_to_le);
    }
    assert(out@ =~= old(out)@ + u32_to_le(x));
}

/// Appends a 64-bit field.
pub fn put_u64(out: &mut Vec<u8>, x: u64)
    ensures
        final(out)@ == old(out)@ + u64_to_le(x),
{
    out.push((x % 0x100) as u8);
    out.push((x / 0x100 % 0x100) as u8);
    out.push((x / 0x1_0000 % 0x100) as u8);
    out.push((x / 0x100_0000 % 0x100) as u8);
    out.push((x / 0x1_0000_0000 % 0x100) as u8);
    out.push((x / 0x100_0000_0000 % 0x100) as u8);
    out.push((x / 0x1_0000_0000_0000 % 0x100) as u8);
    out.push((x / 0x100_0000_0000_0000 % 0x100) as u8);
    proof {
        reveal(u64_to_le);
    }
    assert(out@ =~= old(out)@ + u64_to_le(x));
}

} // verus!
