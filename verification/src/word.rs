//! Fixed-width EVM words: 256-bit unsigned integers, 32-byte hashes,
//! 20-byte addresses and 4-byte function selectors.
//!
//! `U256` holds four little-endian 64-bit limbs; its view is the number they
//! denote. Multiplication, division and the big-endian byte conversions are
//! delegated to `ruint` (through `alloy_primitives::U256`); comparisons,
//! wrapping addition and subtraction are written and proved here.

use vstd::prelude::*;

verus! {

/// 2^64.
pub open spec fn limb_base() -> nat {
    0x1_0000_0000_0000_0000nat
}

/// 2^128.
pub open spec fn limb_base2() -> nat {
    0x1_0000_0000_0000_0000_0000_0000_0000_0000nat
}

/// 2^192.
pub open spec fn limb_base3() -> nat {
    0x1_0000_0000_0000_0000_0000_0000_0000_0000_0000_0000_0000_0000nat
}

/// 2^256: the modulus of wrapping word arithmetic.
pub open spec fn word_modulus() -> nat {
    0x1_0000_0000_0000_0000_0000_0000_0000_0000_0000_0000_0000_0000_0000_0000_0000_0000nat
}

/// The number denoted by a big-endian byte string.
pub open spec fn be_value(s: Seq<u8>) -> nat
    decreases s.len(),
{
    if s.len() == 0 {
        0
    } else {
        be_value(s.drop_last()) * 256 + s.last() as nat
    }
}

/// 256 to the power `n`.
pub open spec fn pow256(n: nat) -> nat
    decreases n,
{
    if n == 0 {
        1
    } else {
        256 * pow256((n - 1) as nat)
    }
}

/// The `n` big-endian bytes of `v` modulo 256^n.
pub open spec fn be_bytes(v: nat, n: nat) -> Seq<u8>
    decreases n,
{
    if n == 0 {
        Seq::empty()
    } else {
        be_bytes(v / 256, (n - 1) as nat).push((v % 256) as u8)
    }
}

/// Reading back the bytes of a big-endian string gives the string.
pub proof fn lemma_be_bytes_of_value(s: Seq<u8>)
    ensures
        be_bytes(be_value(s), s.len()) == s,
    decreases s.len(),
{
    if s.len() > 0 {
        let a = be_value(s.drop_last());
        let x = s.last() as nat;
        vstd::arithmetic::div_mod::lemma_fundamental_div_mod_converse(
            (a * 256 + x) as int,
            256,
            a as int,
            x as int,
        );
        lemma_be_bytes_of_value(s.drop_last());
        assert(be_bytes(be_value(s), s.len()) =~= s);
    }
}

/// The number denoted by the `n` big-endian bytes of `v` is `v` modulo 256^n.
pub proof fn lemma_be_value_of_bytes(v: nat, n: nat)
    ensures
        be_value(be_bytes(v, n)) == v % pow256(n),
    decreases n,
{
    if n == 0 {
        assert(be_bytes(v, n) =~= Seq::<u8>::empty());
    } else {
        lemma_be_value_of_bytes(v / 256, (n - 1) as nat);
        let s = be_bytes(v, n);
        assert(s.drop_last() =~= be_bytes(v / 256, (n - 1) as nat));
        lemma_pow256_positive((n - 1) as nat);
        vstd::arithmetic::div_mod::lemma_mod_breakdown(v as int, 256, pow256((n - 1) as nat) as int);
        vstd::arithmetic::mul::lemma_mul_is_commutative(
            256,
            ((v / 256) % pow256((n - 1) as nat)) as int,
        );
    }
}

/// 256^n is positive.
pub proof fn lemma_pow256_positive(n: nat)
    ensures
        pow256(n) > 0,
    decreases n,
{
    if n > 0 {
        lemma_pow256_positive((n - 1) as nat);
    }
}

/// 256^32 is 2^256.
pub proof fn lemma_pow256_32()
    ensures
        pow256(32) == word_modulus(),
{
    reveal_with_fuel(pow256, 33);
}

/// The 32 big-endian bytes of a word denote the word again.
pub proof fn lemma_word_bytes_roundtrip(v: nat)
    requires
        v < word_modulus(),
    ensures
        be_value(be_bytes(v, 32)) == v,
        be_bytes(v, 32).len() == 32,
{
    lemma_be_value_of_bytes(v, 32);
    lemma_pow256_32();
    vstd::arithmetic::div_mod::lemma_small_mod(v, word_modulus());
    lemma_be_bytes_len(v, 32);
}

/// `be_bytes(v, n)` has `n` bytes.
pub proof fn lemma_be_bytes_len(v: nat, n: nat)
    ensures
        be_bytes(v, n).len() == n,
    decreases n,
{
    if n > 0 {
        lemma_be_bytes_len(v / 256, (n - 1) as nat);
    }
}

/// A big-endian string of `n` bytes denotes a number below 256^n.
pub proof fn lemma_be_value_bound(s: Seq<u8>)
    ensures
        be_value(s) < pow256(s.len()),
    decreases s.len(),
{
    if s.len() > 0 {
        lemma_be_value_bound(s.drop_last());
        let a = be_value(s.drop_last());
        let p = pow256((s.len() - 1) as nat);
        assert(a * 256 + s.last() < p * 256) by (nonlinear_arith)
            requires
                a < p,
                s.last() < 256,
        ;
    }
}

/// The bytes of zero are all zero.
pub proof fn lemma_be_bytes_zero(n: nat)
    ensures
        be_bytes(0, n) == Seq::new(n, |i: int| 0u8),
    decreases n,
{
    if n > 0 {
        lemma_be_bytes_zero((n - 1) as nat);
        assert(be_bytes(0, n) =~= Seq::new(n, |i: int| 0u8));
    } else {
        assert(be_bytes(0, n) =~= Seq::new(n, |i: int| 0u8));
    }
}

/// A string of zero bytes denotes zero.
pub proof fn lemma_be_value_zeros(n: nat)
    ensures
        be_value(Seq::new(n, |i: int| 0u8)) == 0,
    decreases n,
{
    if n > 0 {
        lemma_be_value_zeros((n - 1) as nat);
        assert(Seq::new(n, |i: int| 0u8).drop_last() =~= Seq::new((n - 1) as nat, |i: int| 0u8));
    }
}

/// `a + b` reduced modulo 2^256 (both operands below 2^256).
pub open spec fn add_wrap(a: nat, b: nat) -> nat {
    if a + b < word_modulus() {
        a + b
    } else {
        (a + b - word_modulus()) as nat
    }
}

/// `a - b` reduced modulo 2^256 (both operands below 2^256).
pub open spec fn sub_wrap(a: nat, b: nat) -> nat {
    if a >= b {
        (a - b) as nat
    } else {
        (a + word_modulus() - b) as nat
    }
}

/// A 256-bit unsigned integer made of four 64-bit limbs, least significant first.
#[derive(Clone, Copy, Debug, PartialEq, Eq, Structural)]
pub struct U256 {
    pub l0: u64,
    pub l1: u64,
    pub l2: u64,
    pub l3: u64,
}

impl View for U256 {
    type V = nat;

    open spec fn view(&self) -> nat {
        self.l0 as nat + self.l1 as nat * limb_base() + self.l2 as nat * limb_base2() + self.l3 as nat
            * limb_base3()
    }
}

impl From<u64> for U256 {
    fn from(v: u64) -> (r: Self) {
        U256 { l0: v, l1: 0, l2: 0, l3: 0 }
    }
}

impl vstd::std_specs::convert::FromSpecImpl<u64> for U256 {
    open spec fn obeys_from_spec() -> bool {
        true
    }

    open spec fn from_spec(v: u64) -> Self {
        U256 { l0: v, l1: 0, l2: 0, l3: 0 }
    }
}

/// Every word is below 2^256.
pub proof fn lemma_word_bound(x: U256)
    ensures
        x@ < word_modulus(),
{
}

/// A word is determined by the number it denotes.
pub proof fn lemma_word_injective(x: U256, y: U256)
    requires
        x@ == y@,
    ensures
        x == y,
{
    let b = limb_base() as int;
    assert(x.l3 == y.l3) by {
        assert(x.l0 + x.l1 * b + x.l2 * limb_base2() < limb_base3());
        assert(y.l0 + y.l1 * b + y.l2 * limb_base2() < limb_base3());
    }
    assert(x.l2 == y.l2) by {
        assert(x.l0 + x.l1 * b < limb_base2());
        assert(y.l0 + y.l1 * b < limb_base2());
    }
    assert(x.l1 == y.l1);
}

/// The word denoting `n` modulo 2^256: its four base-2^64 digits.
pub open spec fn word_of(n: nat) -> U256 {
    let b = limb_base();
    U256 {
        l0: (n % b) as u64,
        l1: ((n / b) % b) as u64,
        l2: ((n / b / b) % b) as u64,
        l3: ((n / b / b / b) % b) as u64,
    }
}

/// Every number below 2^256 is denoted by a word.
pub proof fn lemma_word_of_value(n: nat)
    requires
        n < word_modulus(),
    ensures
        word_of(n)@ == n,
{
    let b = limb_base() as int;
    let q0 = n as int / b;
    let l0 = n as int % b;
    let q1 = q0 / b;
    let l1 = q0 % b;
    let q2 = q1 / b;
    let l2 = q1 % b;
    let l3 = q2 % b;
    vstd::arithmetic::div_mod::lemma_fundamental_div_mod(n as int, b);
    vstd::arithmetic::div_mod::lemma_fundamental_div_mod(q0, b);
    vstd::arithmetic::div_mod::lemma_fundamental_div_mod(q1, b);
    vstd::arithmetic::div_mod::lemma_fundamental_div_mod(q2, b);
    vstd::arithmetic::div_mod::lemma_mod_bound(n as int, b);
    vstd::arithmetic::div_mod::lemma_mod_bound(q0, b);
    vstd::arithmetic::div_mod::lemma_mod_bound(q1, b);
    vstd::arithmetic::div_mod::lemma_mod_bound(q2, b);
    vstd::arithmetic::div_mod::lemma_div_pos_is_pos(n as int, b);
    vstd::arithmetic::div_mod::lemma_div_pos_is_pos(q0, b);
    vstd::arithmetic::div_mod::lemma_div_pos_is_pos(q1, b);
    vstd::arithmetic::div_mod::lemma_div_pos_is_pos(q2, b);
    let q3 = q2 / b;
    assert(n == l0 + b * (l1 + b * (l2 + b * (l3 + b * q3))));
    assert(q3 == 0) by (nonlinear_arith)
        requires
            n == l0 + b * (l1 + b * (l2 + b * (l3 + b * q3))),
            n < b * b * b * b,
            0 <= l0,
            0 <= l1,
            0 <= l2,
            0 <= l3,
            0 <= q3,
            b > 0,
    {
        if q3 > 0 {
            assert(b * q3 >= b);
            assert(b * (l3 + b * q3) >= b * b);
            assert(b * (l2 + b * (l3 + b * q3)) >= b * (b * b));
            assert(b * (l1 + b * (l2 + b * (l3 + b * q3))) >= b * (b * (b * b)));
        }
    }
    let w = word_of(n);
    assert(w.l0 == l0 && w.l1 == l1 && w.l2 == l2 && w.l3 == l3);
    assert(w@ == n) by (nonlinear_arith)
        requires
            w@ == l0 + l1 * b + l2 * limb_base2() + l3 * limb_base3(),
            limb_base2() == b * b,
            limb_base3() == b * b * b,
            n == l0 + b * (l1 + b * (l2 + b * l3)),
    ;
}

/// `word_of` gives back any word from the number it denotes.
pub proof fn lemma_word_of(x: U256)
    ensures
        word_of(x@) == x,
{
    lemma_word_of_value(x@);
    lemma_word_injective(word_of(x@), x);
}

impl U256 {
    /// The word 0.
    pub fn zero() -> (r: U256)
        ensures
            r@ == 0,
    {
        U256 { l0: 0, l1: 0, l2: 0, l3: 0 }
    }

    /// The word 2^256 - 1.
    pub fn max_value() -> (r: U256)
        ensures
            r@ == word_modulus() - 1,
    {
        U256 {
            l0: 0xffff_ffff_ffff_ffff,
            l1: 0xffff_ffff_ffff_ffff,
            l2: 0xffff_ffff_ffff_ffff,
            l3: 0xffff_ffff_ffff_ffff,
        }
    }

    /// The word holding `v`.
    pub fn from_u64(v: u64) -> (r: U256)
        ensures
            r@ == v as nat,
            r == (U256 { l0: v, l1: 0, l2: 0, l3: 0 }),
    {
        U256 { l0: v, l1: 0, l2: 0, l3: 0 }
    }

    /// Whether the word is 0.
    pub fn is_zero(&self) -> (r: bool)
        ensures
            r == (self@ == 0),
    {
        self.l0 == 0 && self.l1 == 0 && self.l2 == 0 && self.l3 == 0
    }

    /// Whether `self < other` as numbers.
    pub fn lt(&self, other: &U256) -> (r: bool)
        ensures
            r == (self@ < other@),
    {
        proof {
            let b = limb_base() as int;
            assert(self.l0 + self.l1 * b + self.l2 * limb_base2() < limb_base3());
            assert(other.l0 + other.l1 * b + other.l2 * limb_base2() < limb_base3());
            assert(self.l0 + self.l1 * b < limb_base2());
            assert(other.l0 + other.l1 * b < limb_base2());
        }
        if self.l3 != other.l3 {
            self.l3 < other.l3
        } else if self.l2 != other.l2 {
            self.l2 < other.l2
        } else if self.l1 != other.l1 {
            self.l1 < other.l1
        } else {
            self.l0 < other.l0
        }
    }

    /// Whether `self > other` as numbers.
    pub fn gt(&self, other: &U256) -> (r: bool)
        ensures
            r == (self@ > other@),
    {
        other.lt(self)
    }

    /// Whether `self <= other` as numbers.
    pub fn le(&self, other: &U256) -> (r: bool)
        ensures
            r == (self@ <= other@),
    {
        !other.lt(self)
    }

    /// Whether `self >= other` as numbers.
    pub fn ge(&self, other: &U256) -> (r: bool)
        ensures
            r == (self@ >= other@),
    {
        !self.lt(other)
    }

    /// `self + other` modulo 2^256 (the `+` of `ruint`, which wraps).
    pub fn wrapping_add(&self, other: &U256) -> (r: U256)
        ensures
            r@ == add_wrap(self@, other@),
    {
        let b: u128 = 0x1_0000_0000_0000_0000;
        let s0: u128 = self.l0 as u128 + other.l0 as u128;
        let (r0, c0): (u64, u128) = if s0 >= b {
            ((s0 - b) as u64, 1)
        } else {
            (s0 as u64, 0)
        };
        let s1: u128 = self.l1 as u128 + other.l1 as u128 + c0;
        let (r1, c1): (u64, u128) = if s1 >= b {
            ((s1 - b) as u64, 1)
        } else {
            (s1 as u64, 0)
        };
        let s2: u128 = self.l2 as u128 + other.l2 as u128 + c1;
        let (r2, c2): (u64, u128) = if s2 >= b {
            ((s2 - b) as u64, 1)
        } else {
            (s2 as u64, 0)
        };
        let s3: u128 = self.l3 as u128 + other.l3 as u128 + c2;
        let r3: u64 = if s3 >= b {
            (s3 - b) as u64
        } else {
            s3 as u64
        };
        let r = U256 { l0: r0, l1: r1, l2: r2, l3: r3 };
        proof {
            let bb = limb_base() as int;
            let c3: int = if s3 >= b { 1int } else { 0int };
            assert(s0 == r0 + c0 * bb);
            assert(s1 == r1 + c1 * bb);
            assert(s2 == r2 + c2 * bb);
            assert(s3 == r3 + c3 * bb);
            assert(self@ + other@ == r@ + c3 * word_modulus()) by (nonlinear_arith)
                requires
                    s0 == self.l0 + other.l0,
                    s1 == self.l1 + other.l1 + c0,
                    s2 == self.l2 + other.l2 + c1,
                    s3 == self.l3 + other.l3 + c2,
                    s0 == r0 + c0 * bb,
                    s1 == r1 + c1 * bb,
                    s2 == r2 + c2 * bb,
                    s3 == r3 + c3 * bb,
                    self@ == self.l0 + self.l1 * bb + self.l2 * limb_base2() + self.l3 * limb_base3(),
                    other@ == other.l0 + other.l1 * bb + other.l2 * limb_base2() + other.l3 * limb_base3(),
                    r@ == r0 + r1 * bb + r2 * limb_base2() + r3 * limb_base3(),
                    limb_base2() == bb * bb,
                    limb_base3() == bb * bb * bb,
                    word_modulus() == bb * bb * bb * bb,
            ;
        }
        r
    }

    /// `self - other` modulo 2^256 (the `-` of `ruint`, which wraps).
    pub fn wrapping_sub(&self, other: &U256) -> (r: U256)
        ensures
            r@ == sub_wrap(self@, other@),
    {
        let b: i128 = 0x1_0000_0000_0000_0000;
        let d0: i128 = self.l0 as i128 - other.l0 as i128;
        let (r0, c0): (u64, i128) = if d0 < 0 {
            ((d0 + b) as u64, 1)
        } else {
            (d0 as u64, 0)
        };
        let d1: i128 = self.l1 as i128 - other.l1 as i128 - c0;
        let (r1, c1): (u64, i128) = if d1 < 0 {
            ((d1 + b) as u64, 1)
        } else {
            (d1 as u64, 0)
        };
        let d2: i128 = self.l2 as i128 - other.l2 as i128 - c1;
        let (r2, c2): (u64, i128) = if d2 < 0 {
            ((d2 + b) as u64, 1)
        } else {
            (d2 as u64, 0)
        };
        let d3: i128 = self.l3 as i128 - other.l3 as i128 - c2;
        let r3: u64 = if d3 < 0 {
            (d3 + b) as u64
        } else {
            d3 as u64
        };
        let r = U256 { l0: r0, l1: r1, l2: r2, l3: r3 };
        proof {
            let bb = limb_base() as int;
            assert(self@ - other@ == r@ - (if d3 < 0 { word_modulus() as int } else { 0int })) by {
                assert(d0 == r0 - c0 * bb);
                assert(d1 == r1 - c1 * bb);
                assert(d2 == r2 - c2 * bb);
                assert(d3 == r3 - (if d3 < 0 { 1int } else { 0int }) * bb);
                assert(self@ - other@ == d0 + d1 * bb + d2 * limb_base2() + d3 * limb_base3()
                    + c0 * bb + c1 * limb_base2() + c2 * limb_base3());
            }
            lemma_word_bound(r);
        }
        r
    }

    /// The least significant 64-bit limb (`as_limbs()[0]`): the word modulo 2^64.
    pub fn low_u64(&self) -> (r: u64)
        ensures
            r as nat == self@ % limb_base(),
    {
        proof {
            let hi = self.l1 as nat + self.l2 as nat * limb_base() + self.l3 as nat * limb_base2();
            assert(self@ == self.l0 as nat + hi * limb_base()) by (nonlinear_arith)
                requires
                    self@ == self.l0 as nat + self.l1 as nat * limb_base() + self.l2 as nat
                        * limb_base2() + self.l3 as nat * limb_base3(),
                    hi == self.l1 as nat + self.l2 as nat * limb_base() + self.l3 as nat
                        * limb_base2(),
                    limb_base2() == limb_base() * limb_base(),
                    limb_base3() == limb_base2() * limb_base(),
            ;
            vstd::arithmetic::div_mod::lemma_fundamental_div_mod_converse(
                self@ as int,
                limb_base() as int,
                hi as int,
                self.l0 as int,
            );
        }
        self.l0
    }

    /// The word as a `u64`, or `u64::MAX` when it does not fit (`saturating_to::<u64>()`).
    pub fn saturating_to_u64(&self) -> (r: u64)
        ensures
            r as nat == if self@ > u64::MAX as nat {
                u64::MAX as nat
            } else {
                self@
            },
    {
        if self.l1 != 0 || self.l2 != 0 || self.l3 != 0 {
            u64::MAX
        } else {
            self.l0
        }
    }
}

/// `ruint`'s wrapping multiplication (the `*` of `alloy_primitives::U256`), which
/// returns the product modulo 2^256.
#[verifier::external_body]
pub(crate) fn u256_wrapping_mul(a: &U256, b: &U256) -> (r: U256)
    ensures
        r@ == (a@ * b@) % word_modulus(),
{
    let x = alloy_primitives::U256::from_limbs([a.l0, a.l1, a.l2, a.l3]);
    let y = alloy_primitives::U256::from_limbs([b.l0, b.l1, b.l2, b.l3]);
    let l = *(x * y).as_limbs();
    U256 { l0: l[0], l1: l[1], l2: l[2], l3: l[3] }
}

/// `ruint`'s division (the `/` of `alloy_primitives::U256`), which rounds down and
/// panics on a zero divisor.
#[verifier::external_body]
pub(crate) fn u256_div(a: &U256, b: &U256) -> (r: U256)
    requires
        b@ != 0,
    ensures
        r@ == a@ / b@,
{
    let x = alloy_primitives::U256::from_limbs([a.l0, a.l1, a.l2, a.l3]);
    let y = alloy_primitives::U256::from_limbs([b.l0, b.l1, b.l2, b.l3]);
    let l = *(x / y).as_limbs();
    U256 { l0: l[0], l1: l[1], l2: l[2], l3: l[3] }
}

/// With `m = 10000 a + b` (`0 <= b < 10000`) and `c` the ceiling of `k b / 10000`:
/// `x * 10000 / m` reaches `k` exactly when `x` reaches `k a + c`.
proof fn lemma_bps_threshold(x: int, m: int, a: int, b: int, k: int, c: int)
    requires
        x >= 0,
        m > 0,
        m == 10000 * a + b,
        0 <= b < 10000,
        k >= 1,
        c == (k * b + 9999) / 10000,
    ensures
        (x * 10000) / m >= k <==> x >= k * a + c,
{
    let y = x * 10000;
    vstd::arithmetic::div_mod::lemma_fundamental_div_mod(y, m);
    vstd::arithmetic::div_mod::lemma_mod_pos_bound(y, m);
    let q = y / m;
    let r = y % m;
    assert(q >= k <==> y >= k * m) by (nonlinear_arith)
        requires
            y == m * q + r,
            0 <= r < m,
            m > 0,
    ;
    let p = k * a;
    let s = k * b;
    assert(k * m == 10000 * p + s) by (nonlinear_arith)
        requires
            m == 10000 * a + b,
            p == k * a,
            s == k * b,
    ;
    assert(s >= 0) by (nonlinear_arith)
        requires
            s == k * b,
            k >= 1,
            b >= 0,
    ;
    vstd::arithmetic::div_mod::lemma_fundamental_div_mod(s + 9999, 10000);
    vstd::arithmetic::div_mod::lemma_mod_pos_bound(s + 9999, 10000);
}

/// Whether `x * 10000 / m` (rounded down, computed without wrapping) exceeds `k`:
/// a move of `x` against `m`, in basis points, above a threshold of `k`.
pub fn basis_points_exceed(x: &U256, m: &U256, k: u64) -> (r: bool)
    requires
        m@ > 0,
        k <= 1000,
    ensures
        r == ((x@ * 10000) / m@ > k),
{
    let ten_thousand = U256::from_u64(10000);
    let kk: u64 = k + 1;
    let a = u256_div(m, &ten_thousand);
    let a10 = u256_wrapping_mul(&a, &ten_thousand);
    proof {
        lemma_word_bound(*m);
        vstd::arithmetic::div_mod::lemma_fundamental_div_mod(m@ as int, 10000);
        vstd::arithmetic::div_mod::lemma_mod_pos_bound(m@ as int, 10000);
        assert(a@ * 10000 <= m@);
        vstd::arithmetic::div_mod::lemma_small_mod((a@ * 10000) as nat, word_modulus());
    }
    let b = m.wrapping_sub(&a10);
    let bl = b.low_u64();
    proof {
        assert(b@ == m@ - a@ * 10000);
        assert(b@ < 10000);
        vstd::arithmetic::div_mod::lemma_small_mod(b@, limb_base());
        assert(bl == b@);
        assert(kk * bl <= 1001 * 9999) by (nonlinear_arith)
            requires
                kk <= 1001,
                bl < 10000,
        ;
    }
    let c: u64 = (kk * bl + 9999) / 10000;
    let ka = u256_wrapping_mul(&a, &U256::from_u64(kk));
    proof {
        assert(kk * a@ <= 1001 * a@) by (nonlinear_arith)
            requires
                kk <= 1001,
        ;
        vstd::arithmetic::div_mod::lemma_small_mod((a@ * kk) as nat, word_modulus());
        assert(ka@ == kk * a@);
        assert(c <= 1001);
        assert(ka@ + c < word_modulus());
    }
    let t = ka.wrapping_add(&U256::from_u64(c));
    proof {
        assert(t@ == kk * a@ + c);
        lemma_bps_threshold(x@ as int, m@ as int, a@ as int, bl as int, kk as int, c as int);
    }
    x.ge(&t)
}

/// `ruint`'s `from_be_bytes::<32>`: the number that 32 big-endian bytes denote.
#[verifier::external_body]
pub(crate) fn u256_from_be_bytes(bytes: [u8; 32]) -> (r: U256)
    ensures
        r@ == be_value(bytes@),
{
    let l = *alloy_primitives::U256::from_be_bytes(bytes).as_limbs();
    U256 { l0: l[0], l1: l[1], l2: l[2], l3: l[3] }
}

/// `ruint`'s `to_be_bytes::<32>`: the 32 big-endian bytes of a word.
#[verifier::external_body]
pub(crate) fn u256_to_be_bytes(a: &U256) -> (r: [u8; 32])
    ensures
        r@ == be_bytes(a@, 32),
{
    alloy_primitives::U256::from_limbs([a.l0, a.l1, a.l2, a.l3]).to_be_bytes::<32>()
}

/// Whether two byte strings are equal.
pub fn bytes_equal(a: &[u8], b: &[u8]) -> (r: bool)
    ensures
        r == (a@ == b@),
{
    if a.len() != b.len() {
        return false;
    }
    let mut i: usize = 0;
    while i < a.len()
        invariant
            0 <= i <= a@.len(),
            a@.len() == b@.len(),
            forall|j: int| 0 <= j < i ==> a@[j] == b@[j],
        decreases a@.len() - i,
    {
        if a[i] != b[i] {
            return false;
        }
        i += 1;
    }
    assert(a@ =~= b@);
    true
}

/// A 32-byte value: a hash, a storage word in byte form, an ABI word.
#[derive(Clone, Copy, Debug, Eq)]
pub struct B256 {
    pub bytes: [u8; 32],
}

/// A 20-byte account address.
#[derive(Clone, Copy, Debug, Eq)]
pub struct Address {
    pub bytes: [u8; 20],
}

/// A 4-byte function selector.
#[derive(Clone, Copy, Debug, Eq)]
pub struct Selector {
    pub bytes: [u8; 4],
}

impl PartialEq for B256 {
    fn eq(&self, other: &Self) -> (r: bool) {
        bytes_equal(&self.bytes, &other.bytes)
    }
}

impl vstd::std_specs::cmp::PartialEqSpecImpl for B256 {
    open spec fn obeys_eq_spec() -> bool {
        true
    }

    open spec fn eq_spec(&self, other: &Self) -> bool {
        self.bytes@ == other.bytes@
    }
}

impl PartialEq for Address {
    fn eq(&self, other: &Self) -> (r: bool) {
        bytes_equal(&self.bytes, &other.bytes)
    }
}

impl vstd::std_specs::cmp::PartialEqSpecImpl for Address {
    open spec fn obeys_eq_spec() -> bool {
        true
    }

    open spec fn eq_spec(&self, other: &Self) -> bool {
        self.bytes@ == other.bytes@
    }
}

impl PartialEq for Selector {
    fn eq(&self, other: &Self) -> (r: bool) {
        bytes_equal(&self.bytes, &other.bytes)
    }
}

impl vstd::std_specs::cmp::PartialEqSpecImpl for Selector {
    open spec fn obeys_eq_spec() -> bool {
        true
    }

    open spec fn eq_spec(&self, other: &Self) -> bool {
        self.bytes@ == other.bytes@
    }
}

impl From<[u8; 32]> for B256 {
    fn from(bytes: [u8; 32]) -> (r: Self) {
        B256 { bytes }
    }
}

impl vstd::std_specs::convert::FromSpecImpl<[u8; 32]> for B256 {
    open spec fn obeys_from_spec() -> bool {
        true
    }

    open spec fn from_spec(bytes: [u8; 32]) -> Self {
        B256 { bytes }
    }
}

impl From<[u8; 20]> for Address {
    fn from(bytes: [u8; 20]) -> (r: Self) {
        Address { bytes }
    }
}

impl vstd::std_specs::convert::FromSpecImpl<[u8; 20]> for Address {
    open spec fn obeys_from_spec() -> bool {
        true
    }

    open spec fn from_spec(bytes: [u8; 20]) -> Self {
        Address { bytes }
    }
}

impl From<[u8; 4]> for Selector {
    fn from(bytes: [u8; 4]) -> (r: Self) {
        Selector { bytes }
    }
}

impl vstd::std_specs::convert::FromSpecImpl<[u8; 4]> for Selector {
    open spec fn obeys_from_spec() -> bool {
        true
    }

    open spec fn from_spec(bytes: [u8; 4]) -> Self {
        Selector { bytes }
    }
}

/// Two arrays with equal views are equal.
pub proof fn lemma_array_eq<const N: usize>(a: [u8; N], b: [u8; N])
    requires
        a@ == b@,
    ensures
        a == b,
{
    broadcast use vstd::array::group_array_axioms;

    assert(a =~= b);
}

/// The 32-byte ABI word of an address: twelve zero bytes, then the address.
pub open spec fn address_word_bytes(a: Seq<u8>) -> Seq<u8> {
    Seq::new(12, |i: int| 0u8) + a
}

impl B256 {
    /// The all-zero hash.
    pub fn zero() -> (r: B256)
        ensures
            r.bytes@ == Seq::new(32, |i: int| 0u8),
    {
        let r = B256 { bytes: [0u8; 32] };
        assert(r.bytes@ =~= Seq::new(32, |i: int| 0u8));
        r
    }

    /// Whether every byte is zero.
    pub fn is_zero(&self) -> (r: bool)
        ensures
            r == (self.bytes@ == Seq::new(32, |i: int| 0u8)),
    {
        let z = B256::zero();
        bytes_equal(&self.bytes, &z.bytes)
    }

    /// The number the 32 bytes denote (`U256::from_be_bytes`).
    pub fn to_u256(&self) -> (r: U256)
        ensures
            r@ == be_value(self.bytes@),
    {
        u256_from_be_bytes(self.bytes)
    }

    /// The 32 big-endian bytes of a word (`B256::from(v.to_be_bytes())`).
    pub fn from_u256(v: &U256) -> (r: B256)
        ensures
            r.bytes@ == be_bytes(v@, 32),
    {
        B256 { bytes: u256_to_be_bytes(v) }
    }
}

/// A hash turned into a word and back is the same hash.
pub proof fn lemma_b256_word_roundtrip(h: B256, v: U256)
    requires
        v@ == be_value(h.bytes@),
    ensures
        be_bytes(v@, 32) == h.bytes@,
{
    lemma_be_bytes_of_value(h.bytes@);
}

/// A word turned into bytes and back is the same word.
pub proof fn lemma_word_b256_roundtrip(v: U256, h: B256, w: U256)
    requires
        h.bytes@ == be_bytes(v@, 32),
        w@ == be_value(h.bytes@),
    ensures
        w == v,
{
    lemma_word_bytes_roundtrip(v@);
    lemma_word_injective(w, v);
}

impl Address {
    /// The zero address.
    pub fn zero() -> (r: Address)
        ensures
            r.bytes@ == Seq::new(20, |i: int| 0u8),
    {
        let r = Address { bytes: [0u8; 20] };
        assert(r.bytes@ =~= Seq::new(20, |i: int| 0u8));
        r
    }

    /// The address as a left-padded 32-byte word.
    pub fn to_word_bytes(&self) -> (r: [u8; 32])
        ensures
            r@ == address_word_bytes(self.bytes@),
    {
        let mut out = [0u8; 32];
        let mut i: usize = 0;
        while i < 20
            invariant
                0 <= i <= 20,
                out@.len() == 32,
                forall|j: int| 0 <= j < 12 ==> out@[j] == 0u8,
                forall|j: int| 0 <= j < i ==> out@[12 + j] == self.bytes@[j],
            decreases 20 - i,
        {
            out[12 + i] = self.bytes[i];
            i += 1;
        }
        assert(out@ =~= address_word_bytes(self.bytes@));
        out
    }

    /// The number the left-padded address denotes (`U256::from_be_bytes(addr.into_word())`).
    pub fn to_u256(&self) -> (r: U256)
        ensures
            r@ == be_value(address_word_bytes(self.bytes@)),
    {
        u256_from_be_bytes(self.to_word_bytes())
    }

    /// The last 20 of the 32 bytes of a word (`Address::from_word`).
    pub fn from_word_bytes(w: &[u8; 32]) -> (r: Address)
        ensures
            r.bytes@ == w@.subrange(12, 32),
    {
        let mut out = [0u8; 20];
        let mut i: usize = 0;
        while i < 20
            invariant
                0 <= i <= 20,
                out@.len() == 20,
                w@.len() == 32,
                forall|j: int| 0 <= j < i ==> out@[j] == w@[12 + j],
            decreases 20 - i,
        {
            out[i] = w[12 + i];
            i += 1;
        }
        assert(out@ =~= w@.subrange(12, 32));
        Address { bytes: out }
    }

    /// The address held in the low 20 bytes of a word.
    pub fn from_u256(v: &U256) -> (r: Address)
        ensures
            r.bytes@ == be_bytes(v@, 32).subrange(12, 32),
    {
        let w = u256_to_be_bytes(v);
        Address::from_word_bytes(&w)
    }
}

/// An address stored as a word and read back is the same address.
pub proof fn lemma_address_word_roundtrip(a: Address, v: U256)
    requires
        v@ == be_value(address_word_bytes(a.bytes@)),
    ensures
        be_bytes(v@, 32).subrange(12, 32) == a.bytes@,
{
    lemma_be_bytes_of_value(address_word_bytes(a.bytes@));
    assert(address_word_bytes(a.bytes@).subrange(12, 32) =~= a.bytes@);
}

/// Appends the bytes of `s` to `out`.
pub fn append_bytes(out: &mut Vec<u8>, s: &[u8])
    ensures
        final(out)@ == old(out)@ + s@,
{
    let ghost start = out@;
    let mut i: usize = 0;
    while i < s.len()
        invariant
            0 <= i <= s@.len(),
            out@ == start + s@.subrange(0, i as int),
        decreases s@.len() - i,
    {
        out.push(s[i]);
        i += 1;
        assert(out@ =~= start + s@.subrange(0, i as int));
    }
    assert(s@.subrange(0, i as int) =~= s@);
}

/// The 32 bytes of `data` starting at `start`.
pub fn b256_from_subslice(data: &[u8], start: usize) -> (r: B256)
    requires
        start + 32 <= data@.len(),
    ensures
        r.bytes@ == data@.subrange(start as int, start + 32),
{
    let mut out = [0u8; 32];
    let mut i: usize = 0;
    while i < 32
        invariant
            0 <= i <= 32,
            out@.len() == 32,
            start + 32 <= data@.len(),
            data@.len() == data.len(),
            forall|j: int| 0 <= j < i ==> out@[j] == data@[start + j],
        decreases 32 - i,
    {
        out[i] = data[start + i];
        i += 1;
    }
    assert(out@ =~= data@.subrange(start as int, start + 32));
    B256 { bytes: out }
}

/// The 20 bytes of `data` starting at `start`.
pub fn address_from_subslice(data: &[u8], start: usize) -> (r: Address)
    requires
        start + 20 <= data@.len(),
    ensures
        r.bytes@ == data@.subrange(start as int, start + 20),
{
    let mut out = [0u8; 20];
    let mut i: usize = 0;
    while i < 20
        invariant
            0 <= i <= 20,
            out@.len() == 20,
            start + 20 <= data@.len(),
            data@.len() == data.len(),
            forall|j: int| 0 <= j < i ==> out@[j] == data@[start + j],
        decreases 20 - i,
    {
        out[i] = data[start + i];
        i += 1;
    }
    assert(out@ =~= data@.subrange(start as int, start + 20));
    Address { bytes: out }
}

/// The 4 bytes of `data` starting at `start`.
pub fn selector_from_subslice(data: &[u8], start: usize) -> (r: Selector)
    requires
        start + 4 <= data@.len(),
    ensures
        r.bytes@ == data@.subrange(start as int, start + 4),
{
    let r = Selector { bytes: [data[start], data[start + 1], data[start + 2], data[start + 3]] };
    assert(r.bytes@ =~= data@.subrange(start as int, start + 4));
    r
}

} // verus!
