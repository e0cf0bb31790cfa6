//! Decimal price strings to 8-decimal fixed-point words.

use vstd::prelude::*;

use vstd::string::StringSliceAdditionalSpecFns;

use crate::word::U256;

verus! {

/// Whether a byte is an ASCII digit.
pub open spec fn is_digit(c: u8) -> bool {
    0x30 <= c <= 0x39
}

/// The number that a string of ASCII digits denotes.
pub open spec fn digits_value(b: Seq<u8>) -> nat
    decreases b.len(),
{
    if b.len() == 0 {
        0
    } else {
        digits_value(b.drop_last()) * 10 + (b.last() - 0x30) as nat
    }
}

/// Whether every byte is an ASCII digit.
pub open spec fn all_digits(d: Seq<u8>) -> bool {
    forall|i: int| 0 <= i < d.len() ==> is_digit(#[trigger] d[i])
}

/// The text after an optional leading `+`.
pub open spec fn unsigned_digits(b: Seq<u8>) -> Seq<u8> {
    if b.len() > 0 && b[0] == 0x2b {
        b.drop_first()
    } else {
        b
    }
}

/// What `u128::from_str` accepts: an optional `+`, then one or more ASCII
/// digits, denoting a value below 2^128.
pub open spec fn parse_u128_spec(b: Seq<u8>) -> Option<nat> {
    let d = unsigned_digits(b);
    if d.len() > 0 && all_digits(d) && digits_value(d) <= u128::MAX {
        Some(digits_value(d))
    } else {
        None
    }
}

/// 10^n.
pub open spec fn pow10(n: nat) -> nat
    decreases n,
{
    if n == 0 {
        1
    } else {
        10 * pow10((n - 1) as nat)
    }
}

/// The text before the first `.` (all of it when there is none).
pub open spec fn integer_part(b: Seq<u8>) -> Seq<u8> {
    match b.index_of_first(0x2eu8) {
        Some(i) => b.subrange(0, i),
        None => b,
    }
}

/// The text between the first `.` and the next one (or the end); `"0"` when
/// there is no `.`.
pub open spec fn decimal_part(b: Seq<u8>) -> Seq<u8> {
    match b.index_of_first(0x2eu8) {
        Some(i) => {
            let rest = b.subrange(i + 1, b.len() as int);
            match rest.index_of_first(0x2eu8) {
                Some(j) => rest.subrange(0, j),
                None => rest,
            }
        },
        None => seq![0x30u8],
    }
}

/// Whether byte 8 of a UTF-8 text starts a character (or is its end).
pub open spec fn boundary_at_8(d: Seq<u8>) -> bool {
    d.len() == 8 || !(0x80 <= d[8] < 0xc0)
}

/// The fixed-point value of a decimal price text: the integer part times 10^8
/// plus the decimal part cut to 8 digits or scaled up to 8 digits; `None` when
/// a part does not parse as an unsigned integer.
pub open spec fn price_value(b: Seq<u8>) -> Option<nat> {
    let d = decimal_part(b);
    match parse_u128_spec(integer_part(b)) {
        None => None,
        Some(iv) => if d.len() >= 8 {
            match parse_u128_spec(d.subrange(0, 8)) {
                None => None,
                Some(dv) => Some(iv * 100_000_000 + dv),
            }
        } else {
            match parse_u128_spec(d) {
                None => None,
                Some(dv) => Some(iv * 100_000_000 + dv * pow10((8 - d.len()) as nat)),
            }
        },
    }
}

/// Whether parsing a price text stays within its arithmetic and slicing: the
/// integer part times 10^8 plus the decimal value fits in a `u128`, and an
/// 8-byte cut of the decimal part falls on a character boundary.
pub open spec fn price_text_in_range(b: Seq<u8>) -> bool {
    let d = decimal_part(b);
    match parse_u128_spec(integer_part(b)) {
        None => true,
        Some(iv) => if d.len() >= 8 {
            &&& boundary_at_8(d)
            &&& (parse_u128_spec(d.subrange(0, 8)) matches Some(dv) ==> iv * 100_000_000 + dv
                <= u128::MAX)
        } else {
            &&& iv * 100_000_000 <= u128::MAX
            &&& (parse_u128_spec(d) matches Some(dv) ==> iv * 100_000_000 + dv * pow10(
                (8 - d.len()) as nat,
            ) <= u128::MAX)
        },
    }
}

/// A prefix of a digit string denotes at most what the whole string does.
proof fn lemma_digits_prefix(b: Seq<u8>, j: int)
    requires
        0 <= j <= b.len(),
    ensures
        digits_value(b.subrange(0, j)) <= digits_value(b),
    decreases b.len() - j,
{
    if j < b.len() {
        lemma_digits_prefix(b, j + 1);
        assert(b.subrange(0, j + 1).drop_last() =~= b.subrange(0, j));
    } else {
        assert(b.subrange(0, j) =~= b);
    }
}

/// `u128::from_str` on bytes.
pub fn parse_u128(b: &[u8]) -> (r: Option<u128>)
    ensures
        match parse_u128_spec(b@) {
            Some(v) => r == Some(v as u128),
            None => r is None,
        },
{
    let start: usize = if b.len() > 0 && b[0] == 0x2b {
        1
    } else {
        0
    };
    let ghost d = if b@.len() > 0 && b@[0] == 0x2b {
        b@.drop_first()
    } else {
        b@
    };
    assert(d =~= b@.subrange(start as int, b@.len() as int));
    if start >= b.len() {
        return None;
    }
    let mut value: u128 = 0;
    let mut i: usize = start;
    while i < b.len()
        invariant
            start <= i <= b@.len(),
            d == b@.subrange(start as int, b@.len() as int),
            d == unsigned_digits(b@),
            forall|k: int| start <= k < i ==> is_digit(#[trigger] b@[k]),
            value == digits_value(b@.subrange(start as int, i as int)),
        decreases b@.len() - i,
    {
        let c = b[i];
        if c < 0x30 || c > 0x39 {
            assert(!is_digit(d[i - start]));
            return None;
        }
        let ghost prefix = b@.subrange(start as int, i + 1);
        assert(prefix.drop_last() =~= b@.subrange(start as int, i as int));
        match value.checked_mul(10) {
            Some(v10) => match v10.checked_add((c - 0x30) as u128) {
                Some(next) => {
                    value = next;
                },
                None => {
                    proof {
                        assert(prefix =~= d.subrange(0, i + 1 - start));
                        lemma_digits_prefix(d, i + 1 - start);
                    }
                    return None;
                },
            },
            None => {
                proof {
                    assert(prefix =~= d.subrange(0, i + 1 - start));
                    lemma_digits_prefix(d, i + 1 - start);
                }
                return None;
            },
        }
        i += 1;
    }
    assert(b@.subrange(start as int, i as int) =~= d);
    Some(value)
}

/// The index of the first `c` at or after `from`, or the length when there is none.
fn find_byte(b: &[u8], from: usize, c: u8) -> (r: usize)
    requires
        from <= b@.len(),
    ensures
        from <= r <= b@.len(),
        forall|k: int| from <= k < r ==> b@[k] != c,
        r < b@.len() ==> b@[r as int] == c,
{
    let mut i = from;
    while i < b.len()
        invariant
            from <= i <= b@.len(),
            forall|k: int| from <= k < i ==> b@[k] != c,
        decreases b@.len() - i,
    {
        if b[i] == c {
            return i;
        }
        i += 1;
    }
    i
}

/// The first `c` in a sequence is at the index found by a scan.
proof fn lemma_first_index(s: Seq<u8>, c: u8, i: int)
    requires
        0 <= i <= s.len(),
        forall|k: int| 0 <= k < i ==> s[k] != c,
        i < s.len() ==> s[i] == c,
    ensures
        s.index_of_first(c) == if i < s.len() {
            Some(i)
        } else {
            None::<int>
        },
{
    s.index_of_first_ensures(c);
    if i < s.len() {
        assert(s.contains(c));
    } else {
        assert(!s.contains(c));
    }
}

/// 10^n for n up to 8.
fn pow10_u128(n: usize) -> (r: u128)
    requires
        n <= 8,
    ensures
        r == pow10(n as nat),
{
    let mut r: u128 = 1;
    let mut i: usize = 0;
    while i < n
        invariant
            i <= n <= 8,
            r == pow10(i as nat),
            r <= 100_000_000,
        decreases n - i,
    {
        assert(pow10((i + 1) as nat) == 10 * pow10(i as nat));
        proof {
            reveal_with_fuel(pow10, 9);
        }
        r = r * 10;
        i += 1;
    }
    r
}

/// The price a text denotes where parsing it stays in range; `None` where it
/// does not parse or would leave the range.
pub open spec fn price_of_text(b: Seq<u8>) -> Option<nat> {
    if price_text_in_range(b) {
        price_value(b)
    } else {
        None
    }
}

/// Parses a decimal price string into a word with 8 decimal places, giving
/// `None` both where a part does not parse and where the text leaves the
/// range of `price_text_in_range`.
pub fn parse_price_checked(s: &str) -> (r: Option<U256>)
    ensures
        match price_of_text(s.spec_bytes()) {
            Some(v) => r is Some && r->0@ == v,
            None => r is None,
        },
{
    let b = s.as_bytes();
    let ghost bs = b@;
    let dot = find_byte(b, 0, 0x2e);
    proof {
        lemma_first_index(bs, 0x2e, dot as int);
    }
    let integer_part_bytes = vstd::slice::slice_subrange(b, 0, dot);
    assert(integer_part_bytes@ =~= integer_part(bs));
    let integer_value = match parse_u128(integer_part_bytes) {
        Some(v) => v,
        None => return None,
    };
    let zero: [u8; 1] = [0x30];
    let decimal_bytes: &[u8] = if dot < b.len() {
        let end = find_byte(b, dot + 1, 0x2e);
        proof {
            let rest = bs.subrange(dot + 1, bs.len() as int);
            lemma_first_index(rest, 0x2e, end - dot - 1);
            if end < bs.len() {
                assert(rest.subrange(0, end - dot - 1) =~= bs.subrange(dot + 1, end as int));
            } else {
                assert(rest =~= bs.subrange(dot + 1, end as int));
            }
        }
        vstd::slice::slice_subrange(b, dot + 1, end)
    } else {
        assert(zero@ =~= seq![0x30u8]);
        &zero
    };
    assert(decimal_bytes@ =~= decimal_part(bs));
    if decimal_bytes.len() >= 8 {
        if decimal_bytes.len() > 8 && 0x80 <= decimal_bytes[8] && decimal_bytes[8] < 0xc0 {
            return None;
        }
        let cut = vstd::slice::slice_subrange(decimal_bytes, 0, 8);
        let decimal_value = match parse_u128(cut) {
            Some(v) => v,
            None => return None,
        };
        let scaled = match integer_value.checked_mul(100_000_000) {
            Some(v) => v,
            None => return None,
        };
        match scaled.checked_add(decimal_value) {
            Some(total) => Some(u128_word(total)),
            None => None,
        }
    } else {
        let scaled_integer = match integer_value.checked_mul(100_000_000) {
            Some(v) => v,
            None => return None,
        };
        let decimal_value = match parse_u128(decimal_bytes) {
            Some(v) => v,
            None => return None,
        };
        let scale = pow10_u128(8 - decimal_bytes.len());
        let scaled_decimal = match decimal_value.checked_mul(scale) {
            Some(v) => v,
            None => return None,
        };
        match scaled_integer.checked_add(scaled_decimal) {
            Some(total) => Some(u128_word(total)),
            None => None,
        }
    }
}

/// Parses a decimal price string into a word with 8 decimal places.
///
/// Examples: "50000.12345678" gives 5000012345678, "0.99" gives 99000000.
pub fn parse_price_str(s: &str) -> (r: Option<U256>)
    requires
        price_text_in_range(s.spec_bytes()),
    ensures
        match price_value(s.spec_bytes()) {
            Some(v) => r is Some && r->0@ == v,
            None => r is None,
        },
{
    parse_price_checked(s)
}

/// The word holding a `u128`.
pub fn u128_word(v: u128) -> (r: U256)
    ensures
        r@ == v as nat,
{
    let lo: u64 = (v % 0x1_0000_0000_0000_0000) as u64;
    let hi: u64 = (v / 0x1_0000_0000_0000_0000) as u64;
    U256 { l0: lo, l1: hi, l2: 0, l3: 0 }
}

/// The digits of `a` followed by those of `b` denote `a` shifted left by the
/// length of `b`, plus `b`.
proof fn lemma_digits_concat(a: Seq<u8>, b: Seq<u8>)
    ensures
        digits_value(a + b) == digits_value(a) * pow10(b.len()) + digits_value(b),
    decreases b.len(),
{
    if b.len() == 0 {
        assert(a + b =~= a);
        assert(pow10(0) == 1);
        assert(digits_value(a) * 1 == digits_value(a));
    } else {
        let bp = b.drop_last();
        lemma_digits_concat(a, bp);
        assert((a + b).drop_last() =~= a + bp);
        assert((a + b).last() == b.last());
        let da = digits_value(a);
        let dbp = digits_value(bp);
        let p = pow10(bp.len());
        let l = (b.last() - 0x30) as nat;
        assert(digits_value(a + b) == digits_value(a + bp) * 10 + l);
        assert(digits_value(b) == dbp * 10 + l);
        assert(pow10(b.len()) == 10 * p);
        assert(digits_value(a + b) == da * pow10(b.len()) + digits_value(b)) by (nonlinear_arith)
            requires
                digits_value(a + b) == digits_value(a + bp) * 10 + l,
                digits_value(a + bp) == da * p + dbp,
                digits_value(b) == dbp * 10 + l,
                pow10(b.len()) == 10 * p,
        ;
    }
}

/// 10^(n - k) * 10^k = 10^n.
proof fn lemma_pow10_split(k: nat, n: nat)
    requires
        k <= n,
    ensures
        pow10((n - k) as nat) * pow10(k) == pow10(n),
    decreases k,
{
    if k == 0 {
        assert(pow10(0) == 1);
        assert(pow10(n) * 1 == pow10(n));
    } else {
        lemma_pow10_split((k - 1) as nat, (n - 1) as nat);
        assert(((n - 1) as nat - (k - 1) as nat) as nat == (n - k) as nat);
        let a = pow10((n - k) as nat);
        let b = pow10((k - 1) as nat);
        assert(a * b == pow10((n - 1) as nat));
        assert(pow10(k) == 10 * b);
        assert(pow10(n) == 10 * pow10((n - 1) as nat));
        assert(a * pow10(k) == pow10(n)) by (nonlinear_arith)
            requires
                a * b == pow10((n - 1) as nat),
                pow10(k) == 10 * b,
                pow10(n) == 10 * pow10((n - 1) as nat),
        ;
    }
}

/// Where the point of `i.d` is, and what stands on each side of it.
proof fn lemma_point_split(i: Seq<u8>, d: Seq<u8>)
    requires
        all_digits(i),
        all_digits(d),
    ensures
        integer_part(i + seq![0x2eu8] + d) == i,
        d.len() > 0 ==> decimal_part(i + seq![0x2eu8] + d) == d,
{
    let t = i + seq![0x2eu8] + d;
    t.index_of_first_ensures(0x2eu8);
    assert(t[i.len() as int] == 0x2eu8);
    assert(t.contains(0x2eu8));
    let k = t.index_of_first(0x2eu8)->0;
    if k < i.len() {
        assert(t[k] == i[k]);
        assert(is_digit(i[k]));
    }
    assert(k == i.len());
    assert(t.subrange(0, k) =~= i);
    let rest = t.subrange(k + 1, t.len() as int);
    assert(rest =~= d);
    rest.index_of_first_ensures(0x2eu8);
    if rest.contains(0x2eu8) {
        let j = choose|j: int| 0 <= j < rest.len() && rest[j] == 0x2eu8;
        assert(is_digit(d[j]));
    }
}

/// A whole number of units is worth that number times 10^8.
pub proof fn lemma_price_of_whole_number(i: Seq<u8>)
    requires
        i.len() > 0,
        all_digits(i),
        digits_value(i) <= u128::MAX,
    ensures
        price_value(i) == Some(digits_value(i) * 100_000_000),
{
    i.index_of_first_ensures(0x2eu8);
    if i.contains(0x2eu8) {
        let j = choose|j: int| 0 <= j < i.len() && i[j] == 0x2eu8;
        assert(is_digit(i[j]));
    }
    assert(integer_part(i) == i);
    assert(i[0] != 0x2b) by {
        assert(is_digit(i[0]));
    }
    assert(unsigned_digits(i) == i);
    let z = seq![0x30u8];
    assert(decimal_part(i) == z);
    assert(all_digits(z)) by {
        assert forall|k: int| 0 <= k < z.len() implies is_digit(#[trigger] z[k]) by {}
    }
    assert(z.drop_last() =~= Seq::<u8>::empty());
    assert(digits_value(Seq::<u8>::empty()) == 0);
    assert(z.last() == 0x30u8);
    assert(digits_value(z) == digits_value(z.drop_last()) * 10 + (z.last() - 0x30) as nat);
    assert(digits_value(z) == 0);
    assert(unsigned_digits(z) == z);
    assert(parse_u128_spec(z) == Some(0nat));
    assert(parse_u128_spec(i) == Some(digits_value(i)));
    assert(0 * pow10(7) == 0);
}

/// A price `i.d` with at most eight decimals is the decimal number `i.d` in
/// units of 10^-8: scaled by 10^(number of decimals) it is the number that the
/// digits of `i` followed by those of `d` denote, times 10^8.
pub proof fn lemma_price_is_scaled_decimal(i: Seq<u8>, d: Seq<u8>)
    requires
        i.len() > 0,
        all_digits(i),
        digits_value(i) <= u128::MAX,
        0 < d.len() <= 8,
        all_digits(d),
    ensures
        price_value(i + seq![0x2eu8] + d) matches Some(v) && v * pow10(d.len()) == digits_value(i + d)
            * 100_000_000,
{
    let t = i + seq![0x2eu8] + d;
    lemma_point_split(i, d);
    assert(is_digit(i[0]));
    assert(unsigned_digits(i) == i);
    assert(is_digit(d[0]));
    assert(unsigned_digits(d) == d);
    lemma_digits_concat(i, d);
    let k = d.len();
    let iv = digits_value(i);
    let dv = digits_value(d);
    assert(pow10(8) == 100_000_000) by {
        reveal_with_fuel(pow10, 9);
    }
    lemma_digits_bound(d);
    lemma_pow10_split(k, 8);
    lemma_pow10_positive((8 - k) as nat);
    let a = pow10((8 - k) as nat);
    let b = pow10(k);
    assert(b <= 100_000_000) by (nonlinear_arith)
        requires
            a * b == 100_000_000,
            a >= 1,
            b >= 0,
    ;
    assert(parse_u128_spec(i) == Some(iv));
    assert(parse_u128_spec(d) == Some(dv));
    assert(digits_value(i + d) == iv * b + dv);
    if k == 8 {
        assert(d.subrange(0, 8) =~= d);
        assert(price_value(t) == Some(iv * 100_000_000 + dv));
        assert((iv * 100_000_000 + dv) * b == (iv * b + dv) * 100_000_000) by (nonlinear_arith)
            requires
                b == 100_000_000,
        ;
    } else {
        assert(price_value(t) == Some(iv * 100_000_000 + dv * a));
        assert((iv * 100_000_000 + dv * a) * b == (iv * b + dv) * 100_000_000) by (nonlinear_arith)
            requires
                a * b == 100_000_000,
        ;
    }
}

/// 10^n is at least 1.
proof fn lemma_pow10_positive(n: nat)
    ensures
        pow10(n) >= 1,
    decreases n,
{
    if n > 0 {
        lemma_pow10_positive((n - 1) as nat);
    }
}

/// A string of `n` digits denotes less than 10^n.
proof fn lemma_digits_bound(d: Seq<u8>)
    requires
        all_digits(d),
    ensures
        digits_value(d) < pow10(d.len()),
    decreases d.len(),
{
    if d.len() > 0 {
        let dp = d.drop_last();
        assert(all_digits(dp)) by {
            assert forall|k: int| 0 <= k < dp.len() implies is_digit(#[trigger] dp[k]) by {
                assert(dp[k] == d[k]);
            }
        }
        lemma_digits_bound(dp);
        assert(is_digit(d[d.len() - 1]));
    }
}

/// Decimals past the eighth are cut, not rounded: they do not change a price.
pub proof fn lemma_price_ignores_ninth_decimal(i: Seq<u8>, d: Seq<u8>)
    requires
        i.len() > 0,
        all_digits(i),
        d.len() >= 8,
        all_digits(d),
    ensures
        price_value(i + seq![0x2eu8] + d) == price_value(i + seq![0x2eu8] + d.subrange(0, 8)),
{
    let e = d.subrange(0, 8);
    assert(all_digits(e)) by {
        assert forall|k: int| 0 <= k < e.len() implies is_digit(#[trigger] e[k]) by {
            assert(e[k] == d[k]);
        }
    }
    lemma_point_split(i, d);
    lemma_point_split(i, e);
    assert(e.subrange(0, 8) =~= e);
}

} // verus!
