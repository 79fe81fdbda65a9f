//! Fixed-width integers tagged with a byte order.
//!
//! Every multi-byte field of the FINS wire format is big-endian, so the
//! protocol structs carry their integers as raw bytes wrapped in one of
//! the types below, and convert to native integers at the edges.  Each
//! wrapper stores exactly its bytes (size and alignment of a plain byte
//! array) and converting in either direction is total and bijective.

use vstd::arithmetic::div_mod::{
    lemma_fundamental_div_mod, lemma_fundamental_div_mod_converse_div,
    lemma_fundamental_div_mod_converse_mod, lemma_mod_division_less_than_divisor,
    lemma_remainder_lower,
};
use vstd::arithmetic::mul::lemma_mul_is_associative;
use vstd::prelude::*;

verus! {

/// The integer value of a byte sequence read in big-endian order.
pub open spec fn be_val(b: Seq<u8>) -> int
    decreases b.len(),
{
    if b.len() == 0 {
        0
    } else {
        be_val(b.drop_last()) * 0x100 + b.last()
    }
}

/// The `n`-byte big-endian encoding of `v`.
pub open spec fn be_bytes(v: int, n: nat) -> Seq<u8>
    decreases n,
{
    if n == 0 {
        seq![]
    } else {
        be_bytes(v / 0x100, (n - 1) as nat) + seq![(v % 0x100) as u8]
    }
}

/// 0x100 to the power `n`: the number of distinct `n`-byte values.
pub open spec fn pow256(n: nat) -> int
    decreases n,
{
    if n == 0 {
        1
    } else {
        0x100 * pow256((n - 1) as nat)
    }
}

/// The values of `pow256` at the widths used on the wire.
pub proof fn lemma_pow256_vals()
    ensures
        pow256(0) == 1,
        pow256(1) == 0x100,
        pow256(2) == 0x1_0000,
        pow256(3) == 0x100_0000,
        pow256(4) == 0x1_0000_0000,
        pow256(5) == 0x100_0000_0000,
        pow256(6) == 0x1_0000_0000_0000,
        pow256(7) == 0x100_0000_0000_0000,
        pow256(8) == 0x1_0000_0000_0000_0000,
{
    assert(pow256(0) == 1);
    assert(pow256(1) == 0x100);
    assert(pow256(2) == 0x1_0000);
    assert(pow256(3) == 0x100_0000);
    assert(pow256(4) == 0x1_0000_0000);
    assert(pow256(5) == 0x100_0000_0000);
    assert(pow256(6) == 0x1_0000_0000_0000);
    assert(pow256(7) == 0x100_0000_0000_0000);
    assert(pow256(8) == 0x1_0000_0000_0000_0000);
}

/// A byte sequence names a value below `pow256` of its length.
pub proof fn lemma_be_val_bound(b: Seq<u8>)
    ensures
        0 <= be_val(b) < pow256(b.len()),
    decreases b.len(),
{
    if b.len() > 0 {
        lemma_be_val_bound(b.drop_last());
    }
}

/// The encoding of a value always has the requested width.
pub proof fn lemma_be_bytes_len(v: int, n: nat)
    ensures
        be_bytes(v, n).len() == n,
    decreases n,
{
    if n > 0 {
        lemma_be_bytes_len(v / 0x100, (n - 1) as nat);
    }
}

/// Reading back the big-endian encoding of an in-range value yields
/// that value: the encoding loses nothing.
pub proof fn lemma_be_val_of_be_bytes(v: int, n: nat)
    requires
        0 <= v < pow256(n),
    ensures
        be_val(be_bytes(v, n)) == v,
    decreases n,
{
    if n > 0 {
        let q = v / 0x100;
        let r = v % 0x100;
        lemma_fundamental_div_mod(v, 0x100);
        lemma_mod_division_less_than_divisor(v, 0x100);
        lemma_remainder_lower(v, 0x100);
        lemma_be_val_of_be_bytes(q, (n - 1) as nat);
        let rest = be_bytes(q, (n - 1) as nat);
        lemma_be_bytes_len(q, (n - 1) as nat);
        assert((rest + seq![r as u8]).drop_last() =~= rest);
    }
}

/// Re-encoding the value named by a byte sequence yields that same
/// sequence: a value determines its bytes.
pub proof fn lemma_be_bytes_of_be_val(b: Seq<u8>)
    ensures
        be_bytes(be_val(b), b.len()) == b,
    decreases b.len(),
{
    if b.len() == 0 {
        assert(be_bytes(be_val(b), b.len()) =~= b);
    } else {
        let x = be_val(b);
        let q = be_val(b.drop_last());
        let r = b.last() as int;
        lemma_be_val_bound(b.drop_last());
        lemma_fundamental_div_mod_converse_div(x, 0x100, q, r);
        lemma_fundamental_div_mod_converse_mod(x, 0x100, q, r);
        lemma_be_bytes_of_be_val(b.drop_last());
        assert(be_bytes(x, b.len()) =~= b);
    }
}

/// Concatenation shifts the left part past the width of the right part.
pub proof fn lemma_be_val_append(a: Seq<u8>, b: Seq<u8>)
    ensures
        be_val(a + b) == be_val(a) * pow256(b.len()) + be_val(b),
    decreases b.len(),
{
    if b.len() == 0 {
        assert(a + b =~= a);
    } else {
        lemma_be_val_append(a, b.drop_last());
        assert((a + b).drop_last() =~= a + b.drop_last());
        lemma_mul_is_associative(be_val(a), pow256((b.len() - 1) as nat), 0x100);
    }
}

/// `be_val` of a two-byte sequence, written out.
pub proof fn lemma_be_val2(b0: u8, b1: u8)
    ensures
        be_val(seq![b0, b1]) == b0 * 0x100 + b1,
{
    let s = seq![b0, b1];
    assert(seq![b0].drop_last() =~= Seq::<u8>::empty());
    assert(be_val(Seq::<u8>::empty()) == 0);
    assert(be_val(seq![b0]) == b0);
    assert(s.drop_last() =~= seq![b0]);
    assert(be_val(s) == be_val(seq![b0]) * 0x100 + b1);
}

/// `be_val` of a four-byte sequence, written out.
pub proof fn lemma_be_val4(b0: u8, b1: u8, b2: u8, b3: u8)
    ensures
        be_val(seq![b0, b1, b2, b3]) == b0 * 0x100_0000 + b1 * 0x1_0000 + b2 * 0x100 + b3,
{
    lemma_be_val2(b0, b1);
    lemma_be_val2(b2, b3);
    lemma_be_val_append(seq![b0, b1], seq![b2, b3]);
    assert(seq![b0, b1] + seq![b2, b3] =~= seq![b0, b1, b2, b3]);
    assert(pow256(2) == 0x1_0000) by {
        assert(pow256(0) == 1);
        assert(pow256(1) == 0x100);
    }
}

/// `be_val` of an eight-byte sequence, written out.
pub proof fn lemma_be_val8(b0: u8, b1: u8, b2: u8, b3: u8, b4: u8, b5: u8, b6: u8, b7: u8)
    ensures
        be_val(seq![b0, b1, b2, b3, b4, b5, b6, b7]) == b0 * 0x100_0000_0000_0000 + b1
            * 0x1_0000_0000_0000 + b2 * 0x100_0000_0000 + b3 * 0x1_0000_0000 + b4 * 0x100_0000 + b5
            * 0x1_0000 + b6 * 0x100 + b7,
{
    lemma_be_val4(b0, b1, b2, b3);
    lemma_be_val4(b4, b5, b6, b7);
    lemma_be_val_append(seq![b0, b1, b2, b3], seq![b4, b5, b6, b7]);
    assert(seq![b0, b1, b2, b3] + seq![b4, b5, b6, b7] =~= seq![b0, b1, b2, b3, b4, b5, b6, b7]);
    assert(pow256(4) == 0x1_0000_0000) by {
        assert(pow256(0) == 1);
        assert(pow256(1) == 0x100);
        assert(pow256(2) == 0x1_0000);
        assert(pow256(3) == 0x100_0000);
    }
}

/// The two-byte encoding, written out.
pub proof fn lemma_be_bytes2(v: int)
    requires
        0 <= v < 0x1_0000,
    ensures
        be_bytes(v, 2) == seq![(v / 0x100) as u8, (v % 0x100) as u8],
{
    lemma_be_bytes_of_be_val(seq![(v / 0x100) as u8, (v % 0x100) as u8]);
    lemma_be_val2((v / 0x100) as u8, (v % 0x100) as u8);
    lemma_fundamental_div_mod(v, 0x100);
    lemma_mod_division_less_than_divisor(v, 0x100);
    lemma_remainder_lower(v, 0x100);
}

/// The four-byte encoding, written out.
pub proof fn lemma_be_bytes4(v: int)
    requires
        0 <= v < 0x1_0000_0000,
    ensures
        be_bytes(v, 4) == seq![
            (v / 0x100_0000) as u8,
            (v / 0x1_0000 % 0x100) as u8,
            (v / 0x100 % 0x100) as u8,
            (v % 0x100) as u8,
        ],
{
    let b = seq![
        (v / 0x100_0000) as u8,
        (v / 0x1_0000 % 0x100) as u8,
        (v / 0x100 % 0x100) as u8,
        (v % 0x100) as u8,
    ];
    lemma_be_bytes_of_be_val(b);
    lemma_be_val4(b[0], b[1], b[2], b[3]);
    lemma_div_mod_breakdown4(v);
}

/// Decomposing a 32-bit value into its four base-256 digits.
proof fn lemma_div_mod_breakdown4(v: int)
    requires
        0 <= v < 0x1_0000_0000,
    ensures
        v == (v / 0x100_0000) * 0x100_0000 + (v / 0x1_0000 % 0x100) * 0x1_0000 + (v / 0x100
            % 0x100) * 0x100 + v % 0x100,
        0 <= v / 0x100_0000 < 0x100,
        0 <= v / 0x1_0000 % 0x100 < 0x100,
        0 <= v / 0x100 % 0x100 < 0x100,
        0 <= v % 0x100 < 0x100,
{
    lemma_fundamental_div_mod(v, 0x100);
    lemma_mod_division_less_than_divisor(v, 0x100);
    lemma_remainder_lower(v, 0x100);
    let q1 = v / 0x100;
    lemma_fundamental_div_mod(q1, 0x100);
    lemma_mod_division_less_than_divisor(q1, 0x100);
    lemma_remainder_lower(q1, 0x100);
    let q2 = q1 / 0x100;
    lemma_fundamental_div_mod(q2, 0x100);
    lemma_mod_division_less_than_divisor(q2, 0x100);
    lemma_remainder_lower(q2, 0x100);
    // q1 == v / 0x100, q2 == v / 0x1_0000, q2 / 0x100 == v / 0x100_0000
    lemma_div_mod_multiple(v, q1, 0x100, 0x100);
    lemma_div_mod_multiple(v, q2, 0x1_0000, 0x100);
}

/// `(x / c) / d == x / (c * d)` for the constant factors used here,
/// stated through the witnesses already at hand.
proof fn lemma_div_mod_multiple(x: int, q: int, c: int, d: int)
    requires
        0 < c,
        0 < d,
        q == x / c,
        0 <= x,
    ensures
        q / d == x / (c * d),
{
    lemma_fundamental_div_mod(x, c);
    lemma_mod_division_less_than_divisor(x, c);
    lemma_remainder_lower(x, c);
    lemma_fundamental_div_mod(q, d);
    lemma_mod_division_less_than_divisor(q, d);
    lemma_remainder_lower(q, d);
    let r = x % c + (q % d) * c;
    assert(x == (q / d) * (c * d) + r) by (nonlinear_arith)
        requires
            x == c * q + x % c,
            q == d * (q / d) + q % d,
            r == x % c + (q % d) * c,
    ;
    assert(0 <= r < c * d) by (nonlinear_arith)
        requires
            0 <= x % c < c,
            0 <= q % d < d,
            0 < c,
            0 < d,
            r == x % c + (q % d) * c,
    ;
    lemma_fundamental_div_mod_converse_div(x, c * d, q / d, r);
}

/// The eight-byte encoding, written out.
pub proof fn lemma_be_bytes8(v: int)
    requires
        0 <= v < 0x1_0000_0000_0000_0000,
    ensures
        be_bytes(v, 8) == seq![
            (v / 0x100_0000_0000_0000) as u8,
            (v / 0x1_0000_0000_0000 % 0x100) as u8,
            (v / 0x100_0000_0000 % 0x100) as u8,
            (v / 0x1_0000_0000 % 0x100) as u8,
            (v / 0x100_0000 % 0x100) as u8,
            (v / 0x1_0000 % 0x100) as u8,
            (v / 0x100 % 0x100) as u8,
            (v % 0x100) as u8,
        ],
{
    let b = seq![
        (v / 0x100_0000_0000_0000) as u8,
        (v / 0x1_0000_0000_0000 % 0x100) as u8,
        (v / 0x100_0000_0000 % 0x100) as u8,
        (v / 0x1_0000_0000 % 0x100) as u8,
        (v / 0x100_0000 % 0x100) as u8,
        (v / 0x1_0000 % 0x100) as u8,
        (v / 0x100 % 0x100) as u8,
        (v % 0x100) as u8,
    ];
    lemma_be_bytes_of_be_val(b);
    lemma_be_val8(b[0], b[1], b[2], b[3], b[4], b[5], b[6], b[7]);
    lemma_div_mod_breakdown8(v);
}

/// Decomposing a 64-bit value into its eight base-256 digits.
proof fn lemma_div_mod_breakdown8(v: int)
    requires
        0 <= v < 0x1_0000_0000_0000_0000,
    ensures
        v == (v / 0x100_0000_0000_0000) * 0x100_0000_0000_0000 + (v / 0x1_0000_0000_0000 % 0x100)
            * 0x1_0000_0000_0000 + (v / 0x100_0000_0000 % 0x100) * 0x100_0000_0000 + (v
            / 0x1_0000_0000 % 0x100) * 0x1_0000_0000 + (v / 0x100_0000 % 0x100) * 0x100_0000 + (v
            / 0x1_0000 % 0x100) * 0x1_0000 + (v / 0x100 % 0x100) * 0x100 + v % 0x100,
        0 <= v / 0x100_0000_0000_0000 < 0x100,
        0 <= v / 0x1_0000_0000_0000 % 0x100 < 0x100,
        0 <= v / 0x100_0000_0000 % 0x100 < 0x100,
        0 <= v / 0x1_0000_0000 % 0x100 < 0x100,
        0 <= v / 0x100_0000 % 0x100 < 0x100,
        0 <= v / 0x1_0000 % 0x100 < 0x100,
        0 <= v / 0x100 % 0x100 < 0x100,
        0 <= v % 0x100 < 0x100,
{
    let q1 = v / 0x100;
    let q2 = v / 0x1_0000;
    let q3 = v / 0x100_0000;
    let q4 = v / 0x1_0000_0000;
    let q5 = v / 0x100_0000_0000;
    let q6 = v / 0x1_0000_0000_0000;
    let q7 = v / 0x100_0000_0000_0000;
    lemma_div_mod_multiple(v, q1, 0x100, 0x100);
    lemma_div_mod_multiple(v, q2, 0x1_0000, 0x100);
    lemma_div_mod_multiple(v, q3, 0x100_0000, 0x100);
    lemma_div_mod_multiple(v, q4, 0x1_0000_0000, 0x100);
    lemma_div_mod_multiple(v, q5, 0x100_0000_0000, 0x100);
    lemma_div_mod_multiple(v, q6, 0x1_0000_0000_0000, 0x100);
    lemma_digit_step(v);
    lemma_digit_step(q1);
    lemma_digit_step(q2);
    lemma_digit_step(q3);
    lemma_digit_step(q4);
    lemma_digit_step(q5);
    lemma_digit_step(q6);
    lemma_digit_step(q7);
}

/// One base-256 digit step: quotient/remainder decomposition and bounds.
proof fn lemma_digit_step(x: int)
    requires
        0 <= x,
    ensures
        x == (x / 0x100) * 0x100 + x % 0x100,
        0 <= x % 0x100 < 0x100,
        0 <= x / 0x100,
{
    lemma_fundamental_div_mod(x, 0x100);
    lemma_mod_division_less_than_divisor(x, 0x100);
    lemma_remainder_lower(x, 0x100);
}

/// The unsigned two's-complement image of a signed value in `n` bytes.
pub open spec fn unsigned_of(v: int, n: nat) -> int {
    if v < 0 {
        v + pow256(n)
    } else {
        v
    }
}

/// The signed value named by an unsigned `n`-byte image.
pub open spec fn signed_of(u: int, n: nat) -> int {
    if u >= pow256(n) / 2 {
        u - pow256(n)
    } else {
        u
    }
}

/// Two's complement loses nothing on values that fit.
pub proof fn lemma_signed_of_unsigned_of(v: int, n: nat)
    requires
        -(pow256(n) / 2) <= v < pow256(n) / 2,
        n > 0,
    ensures
        signed_of(unsigned_of(v, n), n) == v,
        0 <= unsigned_of(v, n) < pow256(n),
{
    lemma_pow256_even_positive(n);
}

/// `pow256` is positive and even past the zeroth power.
proof fn lemma_pow256_even_positive(n: nat)
    ensures
        pow256(n) > 0,
        n > 0 ==> pow256(n) == 2 * (pow256(n) / 2),
    decreases n,
{
    if n > 0 {
        lemma_pow256_even_positive((n - 1) as nat);
        let p = pow256((n - 1) as nat);
        lemma_fundamental_div_mod_converse_div(0x100 * p, 2, 0x80 * p, 0);
    }
}

/// A `u16` stored as two big-endian bytes.
#[allow(non_camel_case_types)]
#[derive(Copy, Clone, Eq, PartialEq, Default, Debug)]
pub struct u16be {
    b0: u8,
    b1: u8,
}

impl View for u16be {
    type V = Seq<u8>;

    closed spec fn view(&self) -> Seq<u8> {
        seq![self.b0, self.b1]
    }
}

/// Reads a big-endian `u32` out of four bytes of a slice.
pub fn read_be_u32(b: &[u8], at: usize) -> (r: u32)
    requires
        at + 4 <= b@.len(),
    ensures
        r == be_val(b@.subrange(at as int, at + 4)),
{
    proof {
        lemma_be_val4(b@[at as int], b@[at + 1], b@[at + 2], b@[at + 3]);
        assert(b@.subrange(at as int, at + 4) =~= seq![
            b@[at as int],
            b@[at + 1],
            b@[at + 2],
            b@[at + 3],
        ]);
    }
    (b[at] as u32) * 0x100_0000 + (b[at + 1] as u32) * 0x1_0000 + (b[at + 2] as u32) * 0x100 + (
    b[at + 3] as u32)
}

/// A `u16be` always views as exactly its two bytes.
pub broadcast proof fn lemma_u16be_len(v: u16be)
    ensures
        (#[trigger] v@).len() == 2,
{
}

/// A `u32be` always views as exactly its four bytes.
pub broadcast proof fn lemma_u32be_len(v: u32be)
    ensures
        (#[trigger] v@).len() == 4,
{
}

impl u16be {
    pub fn from_bytes(val: [u8; 2]) -> (r: Self)
        ensures
            r@ == val@,
    {
        let r = u16be { b0: val[0], b1: val[1] };
        proof {
            assert(r@ =~= val@);
        }
        r
    }

    pub fn to_bytes(self) -> (r: [u8; 2])
        ensures
            r@ == self@,
    {
        let r = [self.b0, self.b1];
        proof {
            assert(r@ =~= self@);
        }
        r
    }

    pub fn from_u16(val: u16) -> (r: Self)
        ensures
            r@ == be_bytes(val as int, 2),
            be_val(r@) == val,
    {
        proof {
            lemma_pow256_vals();
            lemma_be_bytes2(val as int);
            lemma_be_val_of_be_bytes(val as int, 2);
        }
        let r = u16be { b0: (val / 0x100) as u8, b1: (val % 0x100) as u8 };
        proof {
            assert(r@ =~= be_bytes(val as int, 2));
        }
        r
    }

    pub fn to_u16(self) -> (r: u16)
        ensures
            r == be_val(self@),
    {
        proof {
            lemma_be_val2(self.b0, self.b1);
        }
        (self.b0 as u16) * 0x100 + (self.b1 as u16)
    }
}

/// A `u16` stored as two little-endian bytes.
#[allow(non_camel_case_types)]
#[derive(Copy, Clone, Eq, PartialEq, Default, Debug)]
pub struct u16le {
    b0: u8,
    b1: u8,
}

impl View for u16le {
    type V = Seq<u8>;

    closed spec fn view(&self) -> Seq<u8> {
        seq![self.b0, self.b1]
    }
}

impl u16le {
    pub fn from_bytes(val: [u8; 2]) -> (r: Self)
        ensures
            r@ == val@,
    {
        let r = u16le { b0: val[0], b1: val[1] };
        proof {
            assert(r@ =~= val@);
        }
        r
    }

    pub fn to_bytes(self) -> (r: [u8; 2])
        ensures
            r@ == self@,
    {
        let r = [self.b0, self.b1];
        proof {
            assert(r@ =~= self@);
        }
        r
    }

    pub fn from_u16(val: u16) -> (r: Self)
        ensures
            r@ == be_bytes(val as int, 2).reverse(),
            be_val(r@.reverse()) == val,
    {
        proof {
            lemma_pow256_vals();
            lemma_be_bytes2(val as int);
            lemma_be_val_of_be_bytes(val as int, 2);
        }
        let r = u16le { b0: (val % 0x100) as u8, b1: (val / 0x100) as u8 };
        proof {
            assert(r@ =~= be_bytes(val as int, 2).reverse());
            assert(r@.reverse() =~= be_bytes(val as int, 2));
        }
        r
    }

    pub fn to_u16(self) -> (r: u16)
        ensures
            r == be_val(self@.reverse()),
    {
        proof {
            lemma_be_val2(self.b1, self.b0);
            assert(self@.reverse() =~= seq![self.b1, self.b0]);
        }
        (self.b1 as u16) * 0x100 + (self.b0 as u16)
    }
}

/// An `i16` stored as two big-endian bytes (two's complement).
#[allow(non_camel_case_types)]
#[derive(Copy, Clone, Eq, PartialEq, Default, Debug)]
pub struct i16be {
    b0: u8,
    b1: u8,
}

impl View for i16be {
    type V = Seq<u8>;

    closed spec fn view(&self) -> Seq<u8> {
        seq![self.b0, self.b1]
    }
}

impl i16be {
    pub fn from_bytes(val: [u8; 2]) -> (r: Self)
        ensures
            r@ == val@,
    {
        let r = i16be { b0: val[0], b1: val[1] };
        proof {
            assert(r@ =~= val@);
        }
        r
    }

    pub fn to_bytes(self) -> (r: [u8; 2])
        ensures
            r@ == self@,
    {
        let r = [self.b0, self.b1];
        proof {
            assert(r@ =~= self@);
        }
        r
    }

    pub fn from_i16(val: i16) -> (r: Self)
        ensures
            r@ == be_bytes(unsigned_of(val as int, 2), 2),
            signed_of(be_val(r@), 2) == val,
    {
        let u: u16 = val as u16;
        proof {
            assert(val < 0 ==> val as u16 == val + 0x1_0000) by (bit_vector);
            assert(val >= 0 ==> val as u16 == val) by (bit_vector);
            lemma_pow256_vals();
            lemma_be_bytes2(u as int);
            lemma_be_val_of_be_bytes(u as int, 2);
        }
        let r = i16be { b0: (u / 0x100) as u8, b1: (u % 0x100) as u8 };
        proof {
            assert(r@ =~= be_bytes(u as int, 2));
        }
        r
    }

    pub fn to_i16(self) -> (r: i16)
        ensures
            r == signed_of(be_val(self@), 2),
    {
        proof {
            lemma_be_val2(self.b0, self.b1);
            lemma_pow256_vals();
        }
        let u: u16 = (self.b0 as u16) * 0x100 + (self.b1 as u16);
        proof {
            assert(u >= 0x8000 ==> u as i16 == u - 0x1_0000) by (bit_vector);
            assert(u < 0x8000 ==> u as i16 == u) by (bit_vector);
        }
        u as i16
    }
}

/// An `i16` stored as two little-endian bytes (two's complement).
#[allow(non_camel_case_types)]
#[derive(Copy, Clone, Eq, PartialEq, Default, Debug)]
pub struct i16le {
    b0: u8,
    b1: u8,
}

impl View for i16le {
    type V = Seq<u8>;

    closed spec fn view(&self) -> Seq<u8> {
        seq![self.b0, self.b1]
    }
}

impl i16le {
    pub fn from_bytes(val: [u8; 2]) -> (r: Self)
        ensures
            r@ == val@,
    {
        let r = i16le { b0: val[0], b1: val[1] };
        proof {
            assert(r@ =~= val@);
        }
        r
    }

    pub fn to_bytes(self) -> (r: [u8; 2])
        ensures
            r@ == self@,
    {
        let r = [self.b0, self.b1];
        proof {
            assert(r@ =~= self@);
        }
        r
    }

    pub fn from_i16(val: i16) -> (r: Self)
        ensures
            r@ == be_bytes(unsigned_of(val as int, 2), 2).reverse(),
            signed_of(be_val(r@.reverse()), 2) == val,
    {
        let u: u16 = val as u16;
        proof {
            assert(val < 0 ==> val as u16 == val + 0x1_0000) by (bit_vector);
            assert(val >= 0 ==> val as u16 == val) by (bit_vector);
            lemma_pow256_vals();
            lemma_be_bytes2(u as int);
            lemma_be_val_of_be_bytes(u as int, 2);
        }
        let r = i16le { b0: (u % 0x100) as u8, b1: (u / 0x100) as u8 };
        proof {
            assert(r@ =~= be_bytes(u as int, 2).reverse());
            assert(r@.reverse() =~= be_bytes(u as int, 2));
        }
        r
    }

    pub fn to_i16(self) -> (r: i16)
        ensures
            r == signed_of(be_val(self@.reverse()), 2),
    {
        proof {
            lemma_be_val2(self.b1, self.b0);
            assert(self@.reverse() =~= seq![self.b1, self.b0]);
            lemma_pow256_vals();
        }
        let u: u16 = (self.b1 as u16) * 0x100 + (self.b0 as u16);
        proof {
            assert(u >= 0x8000 ==> u as i16 == u - 0x1_0000) by (bit_vector);
            assert(u < 0x8000 ==> u as i16 == u) by (bit_vector);
        }
        u as i16
    }
}

/// A `u32` stored as four big-endian bytes.
#[allow(non_camel_case_types)]
#[derive(Copy, Clone, Eq, PartialEq, Default, Debug)]
pub struct u32be {
    b0: u8,
    b1: u8,
    b2: u8,
    b3: u8,
}

impl View for u32be {
    type V = Seq<u8>;

    closed spec fn view(&self) -> Seq<u8> {
        seq![self.b0, self.b1, self.b2, self.b3]
    }
}

impl u32be {
    pub fn from_bytes(val: [u8; 4]) -> (r: Self)
        ensures
            r@ == val@,
    {
        let r = u32be { b0: val[0], b1: val[1], b2: val[2], b3: val[3] };
        proof {
            assert(r@ =~= val@);
        }
        r
    }

    pub fn to_bytes(self) -> (r: [u8; 4])
        ensures
            r@ == self@,
    {
        let r = [self.b0, self.b1, self.b2, self.b3];
        proof {
            assert(r@ =~= self@);
        }
        r
    }

    pub fn from_u32(val: u32) -> (r: Self)
        ensures
            r@ == be_bytes(val as int, 4),
            be_val(r@) == val,
    {
        proof {
            lemma_pow256_vals();
            lemma_be_bytes4(val as int);
            lemma_be_val_of_be_bytes(val as int, 4);
        }
        let r = u32be {
            b0: (val / 0x100_0000) as u8,
            b1: (val / 0x1_0000 % 0x100) as u8,
            b2: (val / 0x100 % 0x100) as u8,
            b3: (val % 0x100) as u8,
        };
        proof {
            assert(r@ =~= be_bytes(val as int, 4));
        }
        r
    }

    pub fn to_u32(self) -> (r: u32)
        ensures
            r == be_val(self@),
    {
        proof {
            lemma_be_val4(self.b0, self.b1, self.b2, self.b3);
        }
        (self.b0 as u32) * 0x100_0000 + (self.b1 as u32) * 0x1_0000 + (self.b2 as u32) * 0x100 + (
        self.b3 as u32)
    }
}

/// A `u32` stored as four little-endian bytes.
#[allow(non_camel_case_types)]
#[derive(Copy, Clone, Eq, PartialEq, Default, Debug)]
pub struct u32le {
    b0: u8,
    b1: u8,
    b2: u8,
    b3: u8,
}

impl View for u32le {
    type V = Seq<u8>;

    closed spec fn view(&self) -> Seq<u8> {
        seq![self.b0, self.b1, self.b2, self.b3]
    }
}

impl u32le {
    pub fn from_bytes(val: [u8; 4]) -> (r: Self)
        ensures
            r@ == val@,
    {
        let r = u32le { b0: val[0], b1: val[1], b2: val[2], b3: val[3] };
        proof {
            assert(r@ =~= val@);
        }
        r
    }

    pub fn to_bytes(self) -> (r: [u8; 4])
        ensures
            r@ == self@,
    {
        let r = [self.b0, self.b1, self.b2, self.b3];
        proof {
            assert(r@ =~= self@);
        }
        r
    }

    pub fn from_u32(val: u32) -> (r: Self)
        ensures
            r@ == be_bytes(val as int, 4).reverse(),
            be_val(r@.reverse()) == val,
    {
        proof {
            lemma_pow256_vals();
            lemma_be_bytes4(val as int);
            lemma_be_val_of_be_bytes(val as int, 4);
        }
        let r = u32le {
            b0: (val % 0x100) as u8,
            b1: (val / 0x100 % 0x100) as u8,
            b2: (val / 0x1_0000 % 0x100) as u8,
            b3: (val / 0x100_0000) as u8,
        };
        proof {
            assert(r@ =~= be_bytes(val as int, 4).reverse());
            assert(r@.reverse() =~= be_bytes(val as int, 4));
        }
        r
    }

    pub fn to_u32(self) -> (r: u32)
        ensures
            r == be_val(self@.reverse()),
    {
        proof {
            lemma_be_val4(self.b3, self.b2, self.b1, self.b0);
            assert(self@.reverse() =~= seq![self.b3, self.b2, self.b1, self.b0]);
        }
        (self.b3 as u32) * 0x100_0000 + (self.b2 as u32) * 0x1_0000 + (self.b1 as u32) * 0x100 + (
        self.b0 as u32)
    }
}

/// An `i32` stored as four big-endian bytes (two's complement).
#[allow(non_camel_case_types)]
#[derive(Copy, Clone, Eq, PartialEq, Default, Debug)]
pub struct i32be {
    b0: u8,
    b1: u8,
    b2: u8,
    b3: u8,
}

impl View for i32be {
    type V = Seq<u8>;

    closed spec fn view(&self) -> Seq<u8> {
        seq![self.b0, self.b1, self.b2, self.b3]
    }
}

impl i32be {
    pub fn from_bytes(val: [u8; 4]) -> (r: Self)
        ensures
            r@ == val@,
    {
        let r = i32be { b0: val[0], b1: val[1], b2: val[2], b3: val[3] };
        proof {
            assert(r@ =~= val@);
        }
        r
    }

    pub fn to_bytes(self) -> (r: [u8; 4])
        ensures
            r@ == self@,
    {
        let r = [self.b0, self.b1, self.b2, self.b3];
        proof {
            assert(r@ =~= self@);
        }
        r
    }

    pub fn from_i32(val: i32) -> (r: Self)
        ensures
            r@ == be_bytes(unsigned_of(val as int, 4), 4),
            signed_of(be_val(r@), 4) == val,
    {
        let u: u32 = val as u32;
        proof {
            assert(val < 0 ==> val as u32 == val + 0x1_0000_0000) by (bit_vector);
            assert(val >= 0 ==> val as u32 == val) by (bit_vector);
            lemma_pow256_vals();
            lemma_be_bytes4(u as int);
            lemma_be_val_of_be_bytes(u as int, 4);
        }
        let r = i32be {
            b0: (u / 0x100_0000) as u8,
            b1: (u / 0x1_0000 % 0x100) as u8,
            b2: (u / 0x100 % 0x100) as u8,
            b3: (u % 0x100) as u8,
        };
        proof {
            assert(r@ =~= be_bytes(u as int, 4));
        }
        r
    }

    pub fn to_i32(self) -> (r: i32)
        ensures
            r == signed_of(be_val(self@), 4),
    {
        proof {
            lemma_be_val4(self.b0, self.b1, self.b2, self.b3);
            lemma_pow256_vals();
        }
        let u: u32 = (self.b0 as u32) * 0x100_0000 + (self.b1 as u32) * 0x1_0000 + (self.b2 as u32)
            * 0x100 + (self.b3 as u32);
        proof {
            assert(u >= 0x8000_0000 ==> u as i32 == u - 0x1_0000_0000) by (bit_vector);
            assert(u < 0x8000_0000 ==> u as i32 == u) by (bit_vector);
        }
        u as i32
    }
}

/// An `i32` stored as four little-endian bytes (two's complement).
#[allow(non_camel_case_types)]
#[derive(Copy, Clone, Eq, PartialEq, Default, Debug)]
pub struct i32le {
    b0: u8,
    b1: u8,
    b2: u8,
    b3: u8,
}

impl View for i32le {
    type V = Seq<u8>;

    closed spec fn view(&self) -> Seq<u8> {
        seq![self.b0, self.b1, self.b2, self.b3]
    }
}

impl i32le {
    pub fn from_bytes(val: [u8; 4]) -> (r: Self)
        ensures
            r@ == val@,
    {
        let r = i32le { b0: val[0], b1: val[1], b2: val[2], b3: val[3] };
        proof {
            assert(r@ =~= val@);
        }
        r
    }

    pub fn to_bytes(self) -> (r: [u8; 4])
        ensures
            r@ == self@,
    {
        let r = [self.b0, self.b1, self.b2, self.b3];
        proof {
            assert(r@ =~= self@);
        }
        r
    }

    pub fn from_i32(val: i32) -> (r: Self)
        ensures
            r@ == be_bytes(unsigned_of(val as int, 4), 4).reverse(),
            signed_of(be_val(r@.reverse()), 4) == val,
    {
        let u: u32 = val as u32;
        proof {
            assert(val < 0 ==> val as u32 == val + 0x1_0000_0000) by (bit_vector);
            assert(val >= 0 ==> val as u32 == val) by (bit_vector);
            lemma_pow256_vals();
            lemma_be_bytes4(u as int);
            lemma_be_val_of_be_bytes(u as int, 4);
        }
        let r = i32le {
            b0: (u % 0x100) as u8,
            b1: (u / 0x100 % 0x100) as u8,
            b2: (u / 0x1_0000 % 0x100) as u8,
            b3: (u / 0x100_0000) as u8,
        };
        proof {
            assert(r@ =~= be_bytes(u as int, 4).reverse());
            assert(r@.reverse() =~= be_bytes(u as int, 4));
        }
        r
    }

    pub fn to_i32(self) -> (r: i32)
        ensures
            r == signed_of(be_val(self@.reverse()), 4),
    {
        proof {
            lemma_be_val4(self.b3, self.b2, self.b1, self.b0);
            assert(self@.reverse() =~= seq![self.b3, self.b2, self.b1, self.b0]);
            lemma_pow256_vals();
        }
        let u: u32 = (self.b3 as u32) * 0x100_0000 + (self.b2 as u32) * 0x1_0000 + (self.b1 as u32)
            * 0x100 + (self.b0 as u32);
        proof {
            assert(u >= 0x8000_0000 ==> u as i32 == u - 0x1_0000_0000) by (bit_vector);
            assert(u < 0x8000_0000 ==> u as i32 == u) by (bit_vector);
        }
        u as i32
    }
}

/// A `u64` stored as eight big-endian bytes.
#[allow(non_camel_case_types)]
#[derive(Copy, Clone, Eq, PartialEq, Default, Debug)]
pub struct u64be {
    b0: u8,
    b1: u8,
    b2: u8,
    b3: u8,
    b4: u8,
    b5: u8,
    b6: u8,
    b7: u8,
}

impl View for u64be {
    type V = Seq<u8>;

    closed spec fn view(&self) -> Seq<u8> {
        seq![self.b0, self.b1, self.b2, self.b3, self.b4, self.b5, self.b6, self.b7]
    }
}

impl u64be {
    pub fn from_bytes(val: [u8; 8]) -> (r: Self)
        ensures
            r@ == val@,
    {
        let r = u64be {
            b0: val[0],
            b1: val[1],
            b2: val[2],
            b3: val[3],
            b4: val[4],
            b5: val[5],
            b6: val[6],
            b7: val[7],
        };
        proof {
            assert(r@ =~= val@);
        }
        r
    }

    pub fn to_bytes(self) -> (r: [u8; 8])
        ensures
            r@ == self@,
    {
        let r = [self.b0, self.b1, self.b2, self.b3, self.b4, self.b5, self.b6, self.b7];
        proof {
            assert(r@ =~= self@);
        }
        r
    }

    pub fn from_u64(val: u64) -> (r: Self)
        ensures
            r@ == be_bytes(val as int, 8),
            be_val(r@) == val,
    {
        proof {
            lemma_pow256_vals();
            lemma_be_bytes8(val as int);
            lemma_be_val_of_be_bytes(val as int, 8);
        }
        let r = u64be {
            b0: (val / 0x100_0000_0000_0000) as u8,
            b1: (val / 0x1_0000_0000_0000 % 0x100) as u8,
            b2: (val / 0x100_0000_0000 % 0x100) as u8,
            b3: (val / 0x1_0000_0000 % 0x100) as u8,
            b4: (val / 0x100_0000 % 0x100) as u8,
            b5: (val / 0x1_0000 % 0x100) as u8,
            b6: (val / 0x100 % 0x100) as u8,
            b7: (val % 0x100) as u8,
        };
        proof {
            assert(r@ =~= be_bytes(val as int, 8));
        }
        r
    }

    pub fn to_u64(self) -> (r: u64)
        ensures
            r == be_val(self@),
    {
        proof {
            lemma_be_val8(
                self.b0,
                self.b1,
                self.b2,
                self.b3,
                self.b4,
                self.b5,
                self.b6,
                self.b7,
            );
        }
        (self.b0 as u64) * 0x100_0000_0000_0000 + (self.b1 as u64) * 0x1_0000_0000_0000 + (
        self.b2 as u64) * 0x100_0000_0000 + (self.b3 as u64) * 0x1_0000_0000 + (self.b4 as u64)
            * 0x100_0000 + (self.b5 as u64) * 0x1_0000 + (self.b6 as u64) * 0x100 + (
        self.b7 as u64)
    }
}

/// A `u64` stored as eight little-endian bytes.
#[allow(non_camel_case_types)]
#[derive(Copy, Clone, Eq, PartialEq, Default, Debug)]
pub struct u64le {
    b0: u8,
    b1: u8,
    b2: u8,
    b3: u8,
    b4: u8,
    b5: u8,
    b6: u8,
    b7: u8,
}

impl View for u64le {
    type V = Seq<u8>;

    closed spec fn view(&self) -> Seq<u8> {
        seq![self.b0, self.b1, self.b2, self.b3, self.b4, self.b5, self.b6, self.b7]
    }
}

impl u64le {
    pub fn from_bytes(val: [u8; 8]) -> (r: Self)
        ensures
            r@ == val@,
    {
        let r = u64le {
            b0: val[0],
            b1: val[1],
            b2: val[2],
            b3: val[3],
            b4: val[4],
            b5: val[5],
            b6: val[6],
            b7: val[7],
        };
        proof {
            assert(r@ =~= val@);
        }
        r
    }

    pub fn to_bytes(self) -> (r: [u8; 8])
        ensures
            r@ == self@,
    {
        let r = [self.b0, self.b1, self.b2, self.b3, self.b4, self.b5, self.b6, self.b7];
        proof {
            assert(r@ =~= self@);
        }
        r
    }

    pub fn from_u64(val: u64) -> (r: Self)
        ensures
            r@ == be_bytes(val as int, 8).reverse(),
            be_val(r@.reverse()) == val,
    {
        proof {
            lemma_pow256_vals();
            lemma_be_bytes8(val as int);
            lemma_be_val_of_be_bytes(val as int, 8);
        }
        let r = u64le {
            b0: (val % 0x100) as u8,
            b1: (val / 0x100 % 0x100) as u8,
            b2: (val / 0x1_0000 % 0x100) as u8,
            b3: (val / 0x100_0000 % 0x100) as u8,
            b4: (val / 0x1_0000_0000 % 0x100) as u8,
            b5: (val / 0x100_0000_0000 % 0x100) as u8,
            b6: (val / 0x1_0000_0000_0000 % 0x100) as u8,
            b7: (val / 0x100_0000_0000_0000) as u8,
        };
        proof {
            assert(r@ =~= be_bytes(val as int, 8).reverse());
            assert(r@.reverse() =~= be_bytes(val as int, 8));
        }
        r
    }

    pub fn to_u64(self) -> (r: u64)
        ensures
            r == be_val(self@.reverse()),
    {
        proof {
            lemma_be_val8(
                self.b7,
                self.b6,
                self.b5,
                self.b4,
                self.b3,
                self.b2,
                self.b1,
                self.b0,
            );
            assert(self@.reverse() =~= seq![
                self.b7,
                self.b6,
                self.b5,
                self.b4,
                self.b3,
                self.b2,
                self.b1,
                self.b0,
            ]);
        }
        (self.b7 as u64) * 0x100_0000_0000_0000 + (self.b6 as u64) * 0x1_0000_0000_0000 + (
        self.b5 as u64) * 0x100_0000_0000 + (self.b4 as u64) * 0x1_0000_0000 + (self.b3 as u64)
            * 0x100_0000 + (self.b2 as u64) * 0x1_0000 + (self.b1 as u64) * 0x100 + (
        self.b0 as u64)
    }
}

/// An `i64` stored as eight big-endian bytes (two's complement).
#[allow(non_camel_case_types)]
#[derive(Copy, Clone, Eq, PartialEq, Default, Debug)]
pub struct i64be {
    b0: u8,
    b1: u8,
    b2: u8,
    b3: u8,
    b4: u8,
    b5: u8,
    b6: u8,
    b7: u8,
}

impl View for i64be {
    type V = Seq<u8>;

    closed spec fn view(&self) -> Seq<u8> {
        seq![self.b0, self.b1, self.b2, self.b3, self.b4, self.b5, self.b6, self.b7]
    }
}

impl i64be {
    pub fn from_bytes(val: [u8; 8]) -> (r: Self)
        ensures
            r@ == val@,
    {
        let r = i64be {
            b0: val[0],
            b1: val[1],
            b2: val[2],
            b3: val[3],
            b4: val[4],
            b5: val[5],
            b6: val[6],
            b7: val[7],
        };
        proof {
            assert(r@ =~= val@);
        }
        r
    }

    pub fn to_bytes(self) -> (r: [u8; 8])
        ensures
            r@ == self@,
    {
        let r = [self.b0, self.b1, self.b2, self.b3, self.b4, self.b5, self.b6, self.b7];
        proof {
            assert(r@ =~= self@);
        }
        r
    }

    pub fn from_i64(val: i64) -> (r: Self)
        ensures
            r@ == be_bytes(unsigned_of(val as int, 8), 8),
            signed_of(be_val(r@), 8) == val,
    {
        let u: u64 = val as u64;
        proof {
            assert(val < 0 ==> val as u64 == val + 0x1_0000_0000_0000_0000) by (bit_vector);
            assert(val >= 0 ==> val as u64 == val) by (bit_vector);
            lemma_pow256_vals();
            lemma_be_bytes8(u as int);
            lemma_be_val_of_be_bytes(u as int, 8);
        }
        let r = i64be {
            b0: (u / 0x100_0000_0000_0000) as u8,
            b1: (u / 0x1_0000_0000_0000 % 0x100) as u8,
            b2: (u / 0x100_0000_0000 % 0x100) as u8,
            b3: (u / 0x1_0000_0000 % 0x100) as u8,
            b4: (u / 0x100_0000 % 0x100) as u8,
            b5: (u / 0x1_0000 % 0x100) as u8,
            b6: (u / 0x100 % 0x100) as u8,
            b7: (u % 0x100) as u8,
        };
        proof {
            assert(r@ =~= be_bytes(u as int, 8));
        }
        r
    }

    pub fn to_i64(self) -> (r: i64)
        ensures
            r == signed_of(be_val(self@), 8),
    {
        proof {
            lemma_be_val8(
                self.b0,
                self.b1,
                self.b2,
                self.b3,
                self.b4,
                self.b5,
                self.b6,
                self.b7,
            );
            lemma_pow256_vals();
        }
        let u: u64 = (self.b0 as u64) * 0x100_0000_0000_0000 + (self.b1 as u64)
            * 0x1_0000_0000_0000 + (self.b2 as u64) * 0x100_0000_0000 + (self.b3 as u64)
            * 0x1_0000_0000 + (self.b4 as u64) * 0x100_0000 + (self.b5 as u64) * 0x1_0000 + (
        self.b6 as u64) * 0x100 + (self.b7 as u64);
        proof {
            assert(u >= 0x8000_0000_0000_0000 ==> u as i64 == u - 0x1_0000_0000_0000_0000)
                by (bit_vector);
            assert(u < 0x8000_0000_0000_0000 ==> u as i64 == u) by (bit_vector);
        }
        u as i64
    }
}

/// An `i64` stored as eight little-endian bytes (two's complement).
#[allow(non_camel_case_types)]
#[derive(Copy, Clone, Eq, PartialEq, Default, Debug)]
pub struct i64le {
    b0: u8,
    b1: u8,
    b2: u8,
    b3: u8,
    b4: u8,
    b5: u8,
    b6: u8,
    b7: u8,
}

impl View for i64le {
    type V = Seq<u8>;

    closed spec fn view(&self) -> Seq<u8> {
        seq![self.b0, self.b1, self.b2, self.b3, self.b4, self.b5, self.b6, self.b7]
    }
}

impl i64le {
    pub fn from_bytes(val: [u8; 8]) -> (r: Self)
        ensures
            r@ == val@,
    {
        let r = i64le {
            b0: val[0],
            b1: val[1],
            b2: val[2],
            b3: val[3],
            b4: val[4],
            b5: val[5],
            b6: val[6],
            b7: val[7],
        };
        proof {
            assert(r@ =~= val@);
        }
        r
    }

    pub fn to_bytes(self) -> (r: [u8; 8])
        ensures
            r@ == self@,
    {
        let r = [self.b0, self.b1, self.b2, self.b3, self.b4, self.b5, self.b6, self.b7];
        proof {
            assert(r@ =~= self@);
        }
        r
    }

    pub fn from_i64(val: i64) -> (r: Self)
        ensures
            r@ == be_bytes(unsigned_of(val as int, 8), 8).reverse(),
            signed_of(be_val(r@.reverse()), 8) == val,
    {
        let u: u64 = val as u64;
        proof {
            assert(val < 0 ==> val as u64 == val + 0x1_0000_0000_0000_0000) by (bit_vector);
            assert(val >= 0 ==> val as u64 == val) by (bit_vector);
            lemma_pow256_vals();
            lemma_be_bytes8(u as int);
            lemma_be_val_of_be_bytes(u as int, 8);
        }
        let r = i64le {
            b0: (u % 0x100) as u8,
            b1: (u / 0x100 % 0x100) as u8,
            b2: (u / 0x1_0000 % 0x100) as u8,
            b3: (u / 0x100_0000 % 0x100) as u8,
            b4: (u / 0x1_0000_0000 % 0x100) as u8,
            b5: (u / 0x100_0000_0000 % 0x100) as u8,
            b6: (u / 0x1_0000_0000_0000 % 0x100) as u8,
            b7: (u / 0x100_0000_0000_0000) as u8,
        };
        proof {
            assert(r@ =~= be_bytes(u as int, 8).reverse());
            assert(r@.reverse() =~= be_bytes(u as int, 8));
        }
        r
    }

    pub fn to_i64(self) -> (r: i64)
        ensures
            r == signed_of(be_val(self@.reverse()), 8),
    {
        proof {
            lemma_be_val8(
                self.b7,
                self.b6,
                self.b5,
                self.b4,
                self.b3,
                self.b2,
                self.b1,
                self.b0,
            );
            assert(self@.reverse() =~= seq![
                self.b7,
                self.b6,
                self.b5,
                self.b4,
                self.b3,
                self.b2,
                self.b1,
                self.b0,
            ]);
            lemma_pow256_vals();
        }
        let u: u64 = (self.b7 as u64) * 0x100_0000_0000_0000 + (self.b6 as u64)
            * 0x1_0000_0000_0000 + (self.b5 as u64) * 0x100_0000_0000 + (self.b4 as u64)
            * 0x1_0000_0000 + (self.b3 as u64) * 0x100_0000 + (self.b2 as u64) * 0x1_0000 + (
        self.b1 as u64) * 0x100 + (self.b0 as u64);
        proof {
            assert(u >= 0x8000_0000_0000_0000 ==> u as i64 == u - 0x1_0000_0000_0000_0000)
                by (bit_vector);
            assert(u < 0x8000_0000_0000_0000 ==> u as i64 == u) by (bit_vector);
        }
        u as i64
    }
}

/// Converting a native `i32` into its big-endian wrapper.
impl From<i32> for i32be {
    fn from(val: i32) -> (r: Self) {
        let r = i32be::from_i32(val);
        proof {
            lemma_pow256_vals();
            let u = unsigned_of(val as int, 4);
            lemma_be_bytes4(u);
            assert(r.b0 == (u / 0x100_0000) as u8);
            assert(r.b1 == (u / 0x1_0000 % 0x100) as u8);
            assert(r.b2 == (u / 0x100 % 0x100) as u8);
            assert(r.b3 == (u % 0x100) as u8);
        }
        r
    }
}

impl vstd::std_specs::convert::FromSpecImpl<i32> for i32be {
    open spec fn obeys_from_spec() -> bool {
        true
    }

    closed spec fn from_spec(val: i32) -> Self {
        i32be {
            b0: (unsigned_of(val as int, 4) / 0x100_0000) as u8,
            b1: (unsigned_of(val as int, 4) / 0x1_0000 % 0x100) as u8,
            b2: (unsigned_of(val as int, 4) / 0x100 % 0x100) as u8,
            b3: (unsigned_of(val as int, 4) % 0x100) as u8,
        }
    }
}

/// Converting a native `i32` into its little-endian wrapper.
impl From<i32> for i32le {
    fn from(val: i32) -> (r: Self) {
        let r = i32le::from_i32(val);
        proof {
            lemma_pow256_vals();
            let u = unsigned_of(val as int, 4);
            lemma_be_bytes4(u);
            assert(r@ == be_bytes(u, 4).reverse());
            assert(r.b0 == (u % 0x100) as u8);
            assert(r.b1 == (u / 0x100 % 0x100) as u8);
            assert(r.b2 == (u / 0x1_0000 % 0x100) as u8);
            assert(r.b3 == (u / 0x100_0000) as u8);
        }
        r
    }
}

impl vstd::std_specs::convert::FromSpecImpl<i32> for i32le {
    open spec fn obeys_from_spec() -> bool {
        true
    }

    closed spec fn from_spec(val: i32) -> Self {
        i32le {
            b0: (unsigned_of(val as int, 4) % 0x100) as u8,
            b1: (unsigned_of(val as int, 4) / 0x100 % 0x100) as u8,
            b2: (unsigned_of(val as int, 4) / 0x1_0000 % 0x100) as u8,
            b3: (unsigned_of(val as int, 4) / 0x100_0000) as u8,
        }
    }
}

} // verus!
