//! Exact textual renderings of numbers, bytes and identifiers.
use vstd::prelude::*;

use crate::text::push_char;

verus! {

/// The lowercase hexadecimal digit for `d < 16`.
pub open spec fn hex_digit(d: nat) -> char {
    if d < 10 {
        (('0' as nat) + d) as char
    } else {
        (('a' as nat) + d - 10) as char
    }
}

/// The decimal digit for `d < 10`.
pub open spec fn dec_digit(d: nat) -> char {
    (('0' as nat) + d) as char
}

/// The last `n` hexadecimal digits of `x`, most significant first, zero-padded.
pub open spec fn hex_text(x: nat, n: nat) -> Seq<char>
    decreases n,
{
    if n == 0 {
        Seq::empty()
    } else {
        hex_text(x / 16, (n - 1) as nat).push(hex_digit(x % 16))
    }
}

/// The decimal digits of `x` without leading zeros (`0` for zero).
pub open spec fn dec_text(x: nat) -> Seq<char>
    decreases x,
{
    if x < 10 {
        seq![dec_digit(x)]
    } else {
        dec_text(x / 10).push(dec_digit(x % 10))
    }
}

/// The decimal rendering of a signed number, with a leading `-` when negative.
pub open spec fn signed_dec_text(x: int) -> Seq<char> {
    if x < 0 {
        seq!['-'] + dec_text((-x) as nat)
    } else {
        dec_text(x as nat)
    }
}

/// The hyphenated lowercase form of a 128-bit identifier: 8-4-4-4-12 hexadecimal digits.
pub open spec fn uuid_text(x: u128) -> Seq<char> {
    let h = hex_text(x as nat, 32);
    h.subrange(0, 8) + seq!['-'] + h.subrange(8, 12) + seq!['-'] + h.subrange(12, 16) + seq!['-']
        + h.subrange(16, 20) + seq!['-'] + h.subrange(20, 32)
}

/// Two lowercase hexadecimal digits per byte.
pub open spec fn bytes_hex_text(b: Seq<u8>) -> Seq<char>
    decreases b.len(),
{
    if b.len() == 0 {
        Seq::empty()
    } else {
        bytes_hex_text(b.drop_last()) + hex_text(b.last() as nat, 2)
    }
}

fn hex_char(d: u8) -> (c: char)
    requires
        d < 16,
    ensures
        c == hex_digit(d as nat),
{
    if d < 10 {
        ('0' as u8 + d) as char
    } else {
        ('a' as u8 + (d - 10)) as char
    }
}

fn dec_char(d: u8) -> (c: char)
    requires
        d < 10,
    ensures
        c == dec_digit(d as nat),
{
    ('0' as u8 + d) as char
}

/// Appends the last `n` hexadecimal digits of `x`.
pub fn push_hex(out: &mut String, x: u128, n: u32)
    ensures
        final(out)@ == old(out)@ + hex_text(x as nat, n as nat),
    decreases n,
{
    if n == 0 {
        assert(old(out)@ + hex_text(x as nat, 0) =~= old(out)@);
        return;
    }
    push_hex(out, x / 16, n - 1);
    push_char(out, hex_char((x % 16) as u8));
    assert(final(out)@ =~= old(out)@ + hex_text(x as nat, n as nat));
}

/// Appends the decimal digits of `x`.
pub fn push_decimal(out: &mut String, x: u64)
    ensures
        final(out)@ == old(out)@ + dec_text(x as nat),
    decreases x,
{
    if x < 10 {
        push_char(out, dec_char(x as u8));
        assert(final(out)@ =~= old(out)@ + dec_text(x as nat));
        return;
    }
    push_decimal(out, x / 10);
    push_char(out, dec_char((x % 10) as u8));
    assert(final(out)@ =~= old(out)@ + dec_text(x as nat));
}

/// Appends the decimal rendering of a signed number.
pub fn push_signed_decimal(out: &mut String, x: i64)
    ensures
        final(out)@ == old(out)@ + signed_dec_text(x as int),
{
    if x < 0 {
        push_char(out, '-');
        let magnitude: u64 = if x == i64::MIN {
            9223372036854775808u64
        } else {
            (-x) as u64
        };
        push_decimal(out, magnitude);
        assert(final(out)@ =~= old(out)@ + signed_dec_text(x as int));
    } else {
        push_decimal(out, x as u64);
    }
}

/// The decimal rendering of `x`.
pub fn decimal(x: u64) -> (s: String)
    ensures
        s@ == dec_text(x as nat),
{
    let mut s = String::new();
    push_decimal(&mut s, x);
    assert(s@ =~= dec_text(x as nat));
    s
}

/// The hyphenated lowercase text of a 128-bit identifier.
pub fn uuid_string(x: u128) -> (s: String)
    ensures
        s@ == uuid_text(x),
{
    let ghost h = hex_text(x as nat, 32);
    let mut s = String::new();
    push_hex(&mut s, x >> 96u32, 8);
    push_char(&mut s, '-');
    push_hex(&mut s, x >> 80u32, 4);
    push_char(&mut s, '-');
    push_hex(&mut s, x >> 64u32, 4);
    push_char(&mut s, '-');
    push_hex(&mut s, x >> 48u32, 4);
    push_char(&mut s, '-');
    push_hex(&mut s, x, 12);
    proof {
        let q1 = x as nat / pow16(12);
        let q2 = q1 / pow16(4);
        let q3 = q2 / pow16(4);
        let q4 = q3 / pow16(4);
        lemma_hex_text_split(x as nat, 32, 12);
        lemma_hex_text_split(q1, 20, 4);
        lemma_hex_text_split(q2, 16, 4);
        lemma_hex_text_split(q3, 12, 4);
        lemma_shift_is_div(x);
        lemma_hex_text_len(q4, 8);
        lemma_hex_text_len(q3, 4);
        lemma_hex_text_len(q2, 4);
        lemma_hex_text_len(q1, 4);
        lemma_hex_text_len(x as nat, 12);
        assert(h =~= hex_text(q4, 8) + hex_text(q3, 4) + hex_text(q2, 4) + hex_text(q1, 4)
            + hex_text(x as nat, 12));
        assert(h.subrange(0, 8) =~= hex_text(q4, 8));
        assert(h.subrange(8, 12) =~= hex_text(q3, 4));
        assert(h.subrange(12, 16) =~= hex_text(q2, 4));
        assert(h.subrange(16, 20) =~= hex_text(q1, 4));
        assert(h.subrange(20, 32) =~= hex_text(x as nat, 12));
        assert(s@ =~= uuid_text(x));
    }
    s
}

/// Lowercase hexadecimal text of a byte string, two digits per byte.
pub fn hex_bytes(b: &[u8]) -> (s: String)
    ensures
        s@ == bytes_hex_text(b@),
{
    let mut s = String::new();
    let mut i: usize = 0;
    while i < b.len()
        invariant
            i <= b@.len(),
            s@ == bytes_hex_text(b@.take(i as int)),
        decreases b@.len() - i,
    {
        push_hex(&mut s, b[i] as u128, 2);
        assert(b@.take(i + 1).drop_last() =~= b@.take(i as int));
        i = i + 1;
    }
    assert(b@.take(b@.len() as int) =~= b@);
    s
}

pub proof fn lemma_pow16_positive(n: nat)
    ensures
        pow16(n) > 0,
    decreases n,
{
    if n > 0 {
        lemma_pow16_positive((n - 1) as nat);
    }
}

pub proof fn lemma_hex_text_len(x: nat, n: nat)
    ensures
        hex_text(x, n).len() == n,
    decreases n,
{
    if n > 0 {
        lemma_hex_text_len(x / 16, (n - 1) as nat);
    }
}

/// Each byte takes two hexadecimal digits.
pub proof fn lemma_bytes_hex_text_len(b: Seq<u8>)
    ensures
        bytes_hex_text(b).len() == 2 * b.len(),
    decreases b.len(),
{
    if b.len() > 0 {
        lemma_bytes_hex_text_len(b.drop_last());
        lemma_hex_text_len(b.last() as nat, 2);
    }
}

pub open spec fn pow16(n: nat) -> nat
    decreases n,
{
    if n == 0 {
        1
    } else {
        16 * pow16((n - 1) as nat)
    }
}

/// The `n` digits of `x` are its high `n - k` digits followed by its low `k` digits.
pub proof fn lemma_hex_text_split(x: nat, n: nat, k: nat)
    requires
        k <= n,
    ensures
        hex_text(x, n) == hex_text(x / pow16(k), (n - k) as nat) + hex_text(x, k),
    decreases k,
{
    lemma_pow16_positive(k);
    if k == 0 {
        assert(pow16(0) == 1);
        assert(x / 1 == x);
        assert(hex_text(x, 0) =~= Seq::<char>::empty());
        assert(hex_text(x, n) =~= hex_text(x / pow16(0), n) + hex_text(x, 0));
    } else {
        lemma_hex_text_split(x / 16, (n - 1) as nat, (k - 1) as nat);
        lemma_pow16_positive((k - 1) as nat);
        lemma_div_div(x, 16, pow16((k - 1) as nat));
        assert(hex_text(x, n) =~= hex_text(x / pow16(k), (n - k) as nat) + hex_text(x, k));
    }
}

proof fn lemma_div_div(x: nat, a: nat, b: nat)
    requires
        a > 0,
        b > 0,
    ensures
        x / a / b == x / (a * b),
{
    vstd::arithmetic::div_mod::lemma_div_denominator(x as int, a as int, b as int);
}

/// The low digits of an identifier shifted right are the digits of its quotient.
proof fn lemma_shift_is_div(x: u128)
    ensures
        (x >> 96u32) as nat == x as nat / pow16(12) / pow16(4) / pow16(4) / pow16(4),
        (x >> 80u32) as nat == x as nat / pow16(12) / pow16(4) / pow16(4),
        (x >> 64u32) as nat == x as nat / pow16(12) / pow16(4),
        (x >> 48u32) as nat == x as nat / pow16(12),
{
    reveal_with_fuel(pow16, 13);
    assert(pow16(4) == 65536);
    assert(pow16(12) == 281474976710656);
    assert(x >> 48u32 == x / 281474976710656) by (bit_vector);
    assert(x >> 64u32 == x / 281474976710656 / 65536) by (bit_vector);
    assert(x >> 80u32 == x / 281474976710656 / 65536 / 65536) by (bit_vector);
    assert(x >> 96u32 == x / 281474976710656 / 65536 / 65536 / 65536) by (bit_vector);
}

/// Different identifiers render differently.
pub proof fn lemma_uuid_text_injective(a: u128, b: u128)
    ensures
        uuid_text(a) == uuid_text(b) ==> a == b,
{
    if uuid_text(a) == uuid_text(b) {
        let ha = hex_text(a as nat, 32);
        let hb = hex_text(b as nat, 32);
        lemma_hex_text_len(a as nat, 32);
        lemma_hex_text_len(b as nat, 32);
        assert(ha =~= uuid_text(a).subrange(0, 8) + uuid_text(a).subrange(9, 13) + uuid_text(
            a,
        ).subrange(14, 18) + uuid_text(a).subrange(19, 23) + uuid_text(a).subrange(24, 36));
        assert(hb =~= uuid_text(b).subrange(0, 8) + uuid_text(b).subrange(9, 13) + uuid_text(
            b,
        ).subrange(14, 18) + uuid_text(b).subrange(19, 23) + uuid_text(b).subrange(24, 36));
        lemma_hex_text_injective(a as nat, b as nat, 32);
        reveal_with_fuel(pow16, 33);
        assert(pow16(32) == 340282366920938463463374607431768211456);
        vstd::arithmetic::div_mod::lemma_small_mod(a as nat, pow16(32));
        vstd::arithmetic::div_mod::lemma_small_mod(b as nat, pow16(32));
    }
}

/// The `n`-digit renderings of two numbers agree only if the numbers agree modulo `16^n`.
pub proof fn lemma_hex_text_injective(x: nat, y: nat, n: nat)
    requires
        hex_text(x, n) == hex_text(y, n),
    ensures
        x % pow16(n) == y % pow16(n),
    decreases n,
{
    if n > 0 {
        let hx = hex_text(x, n);
        let hy = hex_text(y, n);
        assert(hx.last() == hy.last());
        assert(hx.drop_last() =~= hex_text(x / 16, (n - 1) as nat));
        assert(hy.drop_last() =~= hex_text(y / 16, (n - 1) as nat));
        lemma_hex_text_injective(x / 16, y / 16, (n - 1) as nat);
        lemma_pow16_positive((n - 1) as nat);
        lemma_hex_digit_injective(x % 16, y % 16);
        lemma_mod_mul(x, pow16((n - 1) as nat));
        lemma_mod_mul(y, pow16((n - 1) as nat));
    }
}

proof fn lemma_hex_digit_injective(a: nat, b: nat)
    requires
        a < 16,
        b < 16,
        hex_digit(a) == hex_digit(b),
    ensures
        a == b,
{
}

/// `x mod 16p` is determined by `x mod 16` and `(x / 16) mod p`.
proof fn lemma_mod_mul(x: nat, p: nat)
    requires
        p > 0,
    ensures
        x % (16 * p) == (x / 16) % p * 16 + x % 16,
{
    vstd::arithmetic::div_mod::lemma_breakdown(x as int, 16, p as int);
    vstd::arithmetic::mul::lemma_mul_is_commutative(16, p as int);
}

} // verus!
