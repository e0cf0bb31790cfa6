//! Text of numbers, bytes and addresses, as the chain's error messages
//! write them.

use vstd::prelude::*;
use vstd::string::StringExecFns;

use crate::hash::keccak256_spec;
use crate::word::{Address, U256, u256_div, u256_wrapping_mul};

verus! {

/// The decimal digits of a number.
pub open spec fn decimal(n: nat) -> Seq<char>
    decreases n,
{
    if n < 10 {
        seq![(n + 48) as char]
    } else {
        decimal(n / 10).push(((n % 10) + 48) as char)
    }
}

/// A lowercase hexadecimal digit.
pub open spec fn hex_char(d: nat) -> char {
    if d < 10 {
        (d + 48) as char
    } else {
        (d + 87) as char
    }
}

/// The text of one decimal digit.
pub fn digit_str(d: u8) -> (r: &'static str)
    requires
        d < 10,
    ensures
        r@ == seq![(d + 48) as char],
{
    proof {
        reveal_strlit("0");
        reveal_strlit("1");
        reveal_strlit("2");
        reveal_strlit("3");
        reveal_strlit("4");
        reveal_strlit("5");
        reveal_strlit("6");
        reveal_strlit("7");
        reveal_strlit("8");
        reveal_strlit("9");
    }
    match d {
        0 => "0",
        1 => "1",
        2 => "2",
        3 => "3",
        4 => "4",
        5 => "5",
        6 => "6",
        7 => "7",
        8 => "8",
        _ => "9",
    }
}

/// The text of one hexadecimal digit.
pub fn hex_digit_str(d: u8) -> (r: &'static str)
    requires
        d < 16,
    ensures
        r@ == seq![hex_char(d as nat)],
{
    if d < 10 {
        digit_str(d)
    } else {
        proof {
            reveal_strlit("a");
            reveal_strlit("b");
            reveal_strlit("c");
            reveal_strlit("d");
            reveal_strlit("e");
            reveal_strlit("f");
        }
        match d {
            10 => "a",
            11 => "b",
            12 => "c",
            13 => "d",
            14 => "e",
            _ => "f",
        }
    }
}

/// Appends the decimal digits of a number.
pub fn append_decimal(out: &mut String, n: u64)
    ensures
        final(out)@ == old(out)@ + decimal(n as nat),
    decreases n,
{
    if n >= 10 {
        append_decimal(out, n / 10);
    }
    let ghost before = out@;
    out.append(digit_str((n % 10) as u8));
    proof {
        if n >= 10 {
            assert(out@ =~= old(out)@ + decimal(n as nat));
        } else {
            assert(out@ =~= old(out)@ + decimal(n as nat));
        }
    }
}

/// Lowercase hexadecimal, two digits per byte.
pub open spec fn hex_bytes(b: Seq<u8>) -> Seq<char>
    decreases b.len(),
{
    if b.len() == 0 {
        Seq::empty()
    } else {
        hex_bytes(b.drop_last()) + seq![hex_char(b.last() as nat / 16), hex_char(b.last() as nat % 16)]
    }
}

/// Appends the lowercase hexadecimal digits of bytes.
pub fn append_hex(out: &mut String, b: &[u8])
    ensures
        final(out)@ == old(out)@ + hex_bytes(b@),
{
    let ghost start = out@;
    let mut i: usize = 0;
    assert(b@.subrange(0, 0) =~= Seq::<u8>::empty());
    while i < b.len()
        invariant
            i <= b@.len(),
            out@ == start + hex_bytes(b@.subrange(0, i as int)),
        decreases b@.len() - i,
    {
        let ghost next = b@.subrange(0, i + 1);
        assert(next.drop_last() =~= b@.subrange(0, i as int));
        out.append(hex_digit_str(b[i] / 16));
        out.append(hex_digit_str(b[i] % 16));
        assert(out@ =~= start + hex_bytes(next));
        i += 1;
    }
    assert(b@.subrange(0, i as int) =~= b@);
}

/// Appends the decimal digits of a word.
pub fn append_word_decimal(out: &mut String, w: &U256)
    ensures
        final(out)@ == old(out)@ + decimal(w@),
    decreases w@,
{
    let ten = U256::from_u64(10);
    let q = u256_div(w, &ten);
    let r = w.wrapping_sub(&u256_wrapping_mul(&q, &ten));
    assert(r@ == w@ % 10) by {
        crate::word::lemma_word_bound(*w);
        assert(q@ * 10 <= w@) by (nonlinear_arith)
            requires
                q@ == w@ / 10,
        ;
        assert((q@ * 10) % crate::word::word_modulus() == q@ * 10) by (nonlinear_arith)
            requires
                q@ * 10 <= w@,
                w@ < crate::word::word_modulus(),
        ;
    }
    if !q.is_zero() {
        append_word_decimal(out, &q);
    }
    let d = r.low_u64();
    out.append(digit_str(d as u8));
    proof {
        if q@ != 0 {
            assert(w@ >= 10);
        }
        assert(out@ =~= old(out)@ + decimal(w@));
    }
}

/// Hexadecimal digit `i` of a byte string: the high nibble of byte `i / 2` for
/// an even `i`, the low nibble for an odd one.
pub open spec fn nibble(b: Seq<u8>, i: int) -> nat {
    if i % 2 == 0 {
        b[i / 2] as nat / 16
    } else {
        b[i / 2] as nat % 16
    }
}

/// The EIP-55 text of an address: `0x`, then its forty hexadecimal digits,
/// each letter in upper case where the digit at the same place of the
/// Keccak-256 digest of the forty lowercase ASCII digits is 8 or more, in
/// lower case otherwise.
pub open spec fn address_display(bytes: Seq<u8>) -> Seq<char> {
    let digest = keccak256_spec(Seq::new(40, |i: int| hex_char(nibble(bytes, i)) as u8));
    "0x"@ + Seq::new(
        40,
        |i: int|
            if nibble(bytes, i) >= 10 && nibble(digest, i) >= 8 {
                (nibble(bytes, i) + 55) as char
            } else {
                hex_char(nibble(bytes, i))
            },
    )
}

/// `Display` of `alloy_primitives::Address` (its `to_checksum_buffer(None)`).
/// Claimed: the text is the EIP-55 checksummed form, with the checksum taken
/// from the Keccak-256 digest named `keccak256_spec`.
#[verifier::external_body]
pub(crate) fn address_text(a: &Address) -> (r: String)
    ensures
        r@ == address_display(a.bytes@),
{
    alloy_primitives::Address::from(a.bytes).to_string()
}

} // verus!
