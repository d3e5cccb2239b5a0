//! Field elements: the numbers that a program computes with.

use vstd::prelude::*;
use crate::decimal::{decimal_text, digit_char, digits_to_string, reversed_digits};

verus! {

/// The number that a sequence of bytes writes, most significant byte first.
pub open spec fn be_value(bytes: Seq<u8>) -> nat
    decreases bytes.len(),
{
    if bytes.len() == 0 {
        0
    } else {
        be_value(bytes.drop_last()) * 256 + bytes.last() as nat
    }
}

/// Zero bytes write zero.
pub proof fn lemma_be_value_zeros(bytes: Seq<u8>)
    requires
        forall|i: int| 0 <= i < bytes.len() ==> bytes[i] == 0,
    ensures
        be_value(bytes) == 0,
    decreases bytes.len(),
{
    if bytes.len() > 0 {
        lemma_be_value_zeros(bytes.drop_last());
    }
}

/// Reading one more byte shifts the number read so far by one byte and adds
/// the new byte.
pub proof fn lemma_be_value_take(bytes: Seq<u8>, i: int)
    requires
        0 <= i < bytes.len(),
    ensures
        be_value(bytes.take(i + 1)) == be_value(bytes.take(i)) * 256 + bytes[i] as nat,
{
    assert(bytes.take(i + 1).drop_last() =~= bytes.take(i));
}

/// A field element, held as the 32 bytes of its value, most significant first.
///
/// Any 256-bit number can be held; an execution engine only hands out
/// numbers below its modulus, which no function here depends on.
#[derive(Clone, Copy, Debug, PartialEq, Eq)]
pub struct FieldElement {
    pub bytes_be: [u8; 32],
}

impl View for FieldElement {
    type V = nat;

    open spec fn view(&self) -> nat {
        be_value(self.bytes_be@)
    }
}

/// Divides the number in `work` by ten, leaves the quotient there and returns
/// the remainder, together with whether the quotient is zero.
fn div_rem_ten(work: &mut [u8; 32]) -> (r: (u8, bool))
    ensures
        r.0 < 10,
        be_value(old(work)@) == 10 * be_value(final(work)@) + r.0,
        r.1 == (be_value(final(work)@) == 0),
{
    let ghost orig = work@;
    let mut rem: u32 = 0;
    let mut zero = true;
    let mut i: usize = 0;
    while i < 32
        invariant
            i <= 32,
            rem < 10,
            orig.len() == 32,
            forall|j: int| i <= j < 32 ==> work@[j] == orig[j],
            be_value(orig.take(i as int)) == 10 * be_value(work@.take(i as int)) + rem,
            zero == (be_value(work@.take(i as int)) == 0),
        decreases 32 - i,
    {
        let ghost before = work@;
        let cur: u32 = rem * 256 + work[i] as u32;
        let q: u8 = (cur / 10) as u8;
        work[i] = q;
        rem = cur % 10;
        if q != 0 {
            zero = false;
        }
        proof {
            assert(work@.take(i + 1).drop_last() =~= before.take(i as int));
            assert(orig.take(i + 1).drop_last() =~= orig.take(i as int));
            assert(work@.take(i + 1).last() == q);
            assert(orig.take(i + 1).last() == orig[i as int]);
        }
        i = i + 1;
    }
    proof {
        assert(orig.take(32) =~= orig);
        assert(work@.take(32) =~= work@);
    }
    (rem as u8, zero)
}

impl FieldElement {
    /// The field element with the given bytes, most significant first.
    pub fn from_bytes_be(bytes: [u8; 32]) -> (f: FieldElement)
        ensures
            f.bytes_be == bytes,
            f@ == be_value(bytes@),
    {
        FieldElement { bytes_be: bytes }
    }

    /// The field element whose value is `x`.
    pub fn from_u64(x: u64) -> (f: FieldElement)
        ensures
            f@ == x,
    {
        let q1: u64 = x / 256;
        let q2: u64 = q1 / 256;
        let q3: u64 = q2 / 256;
        let q4: u64 = q3 / 256;
        let q5: u64 = q4 / 256;
        let q6: u64 = q5 / 256;
        let q7: u64 = q6 / 256;
        assert(q7 < 256);
        let mut bytes: [u8; 32] = [0u8; 32];
        bytes[24] = q7 as u8;
        bytes[25] = (q6 % 256) as u8;
        bytes[26] = (q5 % 256) as u8;
        bytes[27] = (q4 % 256) as u8;
        bytes[28] = (q3 % 256) as u8;
        bytes[29] = (q2 % 256) as u8;
        bytes[30] = (q1 % 256) as u8;
        bytes[31] = (x % 256) as u8;
        proof {
            lemma_be_value_zeros(bytes@.take(24));
            lemma_be_value_take(bytes@, 24);
            lemma_be_value_take(bytes@, 25);
            lemma_be_value_take(bytes@, 26);
            lemma_be_value_take(bytes@, 27);
            lemma_be_value_take(bytes@, 28);
            lemma_be_value_take(bytes@, 29);
            lemma_be_value_take(bytes@, 30);
            lemma_be_value_take(bytes@, 31);
            assert(bytes@.take(32) =~= bytes@);
        }
        FieldElement { bytes_be: bytes }
    }

    /// The bytes of the value, most significant first.
    pub fn to_bytes_be(&self) -> (bytes: [u8; 32])
        ensures
            bytes == self.bytes_be,
            be_value(bytes@) == self@,
    {
        self.bytes_be
    }

    /// The decimal numeral of the value.
    pub fn to_decimal(&self) -> (s: String)
        ensures
            s@ == decimal_text(self@),
    {
        let mut work = self.bytes_be;
        let mut digits: Vec<u8> = Vec::new();
        assert(decimal_text(self@) =~= decimal_text(be_value(work@)) + reversed_digits(digits@));
        loop
            invariant_except_break
                decimal_text(self@) == decimal_text(be_value(work@)) + reversed_digits(digits@),
            invariant
                forall|k: int| 0 <= k < digits.len() ==> digits[k] < 10,
            ensures
                decimal_text(self@) == reversed_digits(digits@),
            decreases be_value(work@),
        {
            let ghost m = be_value(work@);
            let ghost old_digits = digits@;
            let (rem, zero) = div_rem_ten(&mut work);
            digits.push(rem);
            proof {
                let m1 = be_value(work@);
                assert(digits@.drop_last() =~= old_digits);
                assert(reversed_digits(digits@) == seq![digit_char(rem as nat)] + reversed_digits(
                    old_digits,
                ));
                if zero {
                    assert(m == rem);
                    assert(decimal_text(m) == seq![digit_char(rem as nat)]);
                } else {
                    assert(m / 10 == m1 && m % 10 == rem as nat);
                    assert(decimal_text(m) == decimal_text(m1).push(digit_char(rem as nat)));
                    assert(decimal_text(m1).push(digit_char(rem as nat)) + reversed_digits(
                        old_digits,
                    ) =~= decimal_text(m1) + (seq![digit_char(rem as nat)] + reversed_digits(
                        old_digits,
                    )));
                }
            }
            if zero {
                break ;
            }
        }
        digits_to_string(&digits)
    }
}

} // verus!
