//! Decimal numerals of natural numbers, as specification and as text.

use vstd::prelude::*;

verus! {

/// The character that writes the digit `d`.
pub open spec fn digit_char(d: nat) -> char
    recommends
        d < 10,
{
    if d == 0 {
        '0'
    } else if d == 1 {
        '1'
    } else if d == 2 {
        '2'
    } else if d == 3 {
        '3'
    } else if d == 4 {
        '4'
    } else if d == 5 {
        '5'
    } else if d == 6 {
        '6'
    } else if d == 7 {
        '7'
    } else if d == 8 {
        '8'
    } else {
        '9'
    }
}

/// The decimal numeral of `n`: most significant digit first, no sign, no
/// leading zero, and the single digit `0` for zero.
pub open spec fn decimal_text(n: nat) -> Seq<char>
    decreases n,
{
    if n < 10 {
        seq![digit_char(n)]
    } else {
        decimal_text(n / 10).push(digit_char(n % 10))
    }
}

/// The numeral whose digits are given least significant first.
pub open spec fn reversed_digits(digits: Seq<u8>) -> Seq<char>
    decreases digits.len(),
{
    if digits.len() == 0 {
        Seq::<char>::empty()
    } else {
        seq![digit_char(digits.last() as nat)] + reversed_digits(digits.drop_last())
    }
}

/// Every character of a numeral is one of the ten digits.
pub proof fn lemma_decimal_text_digits(n: nat, i: int)
    requires
        0 <= i < decimal_text(n).len(),
    ensures
        '0' <= decimal_text(n)[i] <= '9',
    decreases n,
{
    if n >= 10 {
        if i < decimal_text(n / 10).len() {
            lemma_decimal_text_digits(n / 10, i);
        }
    }
}

/// The text of one digit.
pub(crate) fn digit_str(d: u8) -> (s: &'static str)
    requires
        d < 10,
    ensures
        s@ == seq![digit_char(d as nat)],
{
    proof {
        reveal_strlit("0");
        reveal_strlit("1");
        reveal_strlit("2");
        reveal_strlit("3");
        reveal_strlit("4");
        reveal_strlit("5");
        reveal_strlit("6");
        reveal_strlit("7");
        reveal_strlit("8");
        reveal_strlit("9");
    }
    let s = if d == 0 {
        "0"
    } else if d == 1 {
        "1"
    } else if d == 2 {
        "2"
    } else if d == 3 {
        "3"
    } else if d == 4 {
        "4"
    } else if d == 5 {
        "5"
    } else if d == 6 {
        "6"
    } else if d == 7 {
        "7"
    } else if d == 8 {
        "8"
    } else {
        "9"
    };
    assert(s@ =~= seq![digit_char(d as nat)]);
    s
}

/// Writes out the numeral whose digits are given least significant first.
pub(crate) fn digits_to_string(digits: &Vec<u8>) -> (s: String)
    requires
        forall|k: int| 0 <= k < digits.len() ==> digits[k] < 10,
    ensures
        s@ == reversed_digits(digits@),
{
    let mut s = String::new();
    let mut k: usize = digits.len();
    assert(digits@.take(k as int) =~= digits@);
    while k > 0
        invariant
            k <= digits.len(),
            forall|j: int| 0 <= j < digits.len() ==> digits[j] < 10,
            s@ + reversed_digits(digits@.take(k as int)) == reversed_digits(digits@),
        decreases k,
    {
        proof {
            let head = digits@.take(k as int);
            assert(head.drop_last() =~= digits@.take(k - 1));
            assert(head.last() == digits[k - 1]);
            assert(s@ + (seq![digit_char(digits[k - 1] as nat)] + reversed_digits(
                digits@.take(k - 1),
            )) =~= (s@ + seq![digit_char(digits[k - 1] as nat)]) + reversed_digits(
                digits@.take(k - 1),
            ));
        }
        k = k - 1;
        s.append(digit_str(digits[k]));
    }
    assert(s@ + Seq::<char>::empty() =~= s@);
    s
}

} // verus!
