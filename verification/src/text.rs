//! Text helpers: string equality and decimal rendering of integers.

use vstd::prelude::*;
use vstd::string::*;

verus! {

/// The character of a decimal digit `d` (`0 <= d < 10`).
pub open spec fn digit_char(d: nat) -> char {
    if d == 0 {
        '0'
    } else if d == 1 {
        '1'
    } else if d == 2 {
        '2'
    } else if d == 3 {
        '3'
    } else if d == 4 {
        '4'
    } else if d == 5 {
        '5'
    } else if d == 6 {
        '6'
    } else if d == 7 {
        '7'
    } else if d == 8 {
        '8'
    } else {
        '9'
    }
}

/// The decimal rendering of `n`: most significant digit first, no leading zeros.
pub open spec fn decimal(n: nat) -> Seq<char>
    decreases n,
{
    if n < 10 {
        seq![digit_char(n)]
    } else {
        decimal(n / 10).push(digit_char(n % 10))
    }
}

/// The decimal rendering of a signed integer: a minus sign before the digits of
/// its magnitude when it is negative.
pub open spec fn signed_decimal(i: int) -> Seq<char> {
    if i < 0 {
        seq!['-'] + decimal((-i) as nat)
    } else {
        decimal(i as nat)
    }
}

fn digit_str(d: u64) -> (r: &'static str)
    requires
        d < 10,
    ensures
        r@ == seq![digit_char(d as nat)],
{
    if d == 0 {
        proof { reveal_strlit("0"); }
        "0"
    } else if d == 1 {
        proof { reveal_strlit("1"); }
        "1"
    } else if d == 2 {
        proof { reveal_strlit("2"); }
        "2"
    } else if d == 3 {
        proof { reveal_strlit("3"); }
        "3"
    } else if d == 4 {
        proof { reveal_strlit("4"); }
        "4"
    } else if d == 5 {
        proof { reveal_strlit("5"); }
        "5"
    } else if d == 6 {
        proof { reveal_strlit("6"); }
        "6"
    } else if d == 7 {
        proof { reveal_strlit("7"); }
        "7"
    } else if d == 8 {
        proof { reveal_strlit("8"); }
        "8"
    } else {
        proof { reveal_strlit("9"); }
        "9"
    }
}

fn append_decimal(out: &mut String, n: u64)
    ensures
        final(out)@ == old(out)@ + decimal(n as nat),
    decreases n,
{
    if n >= 10 {
        append_decimal(out, n / 10);
    }
    out.append(digit_str(n % 10));
}

/// Renders `n` in decimal.
pub fn decimal_string(n: u64) -> (r: String)
    ensures
        r@ == decimal(n as nat),
        is_canonical_numeral(r@),
        numeral_value(r@) == n,
{
    proof { lemma_decimal_is_numeral(n as nat); }
    let mut out = String::new();
    append_decimal(&mut out, n);
    out
}

/// Renders `n` in decimal, with a leading `-` when it is negative.
pub fn signed_decimal_string(n: i32) -> (r: String)
    ensures
        r@ == signed_decimal(n as int),
        n >= 0 ==> is_canonical_numeral(r@) && numeral_value(r@) == n,
        n < 0 ==> r@[0] == '-' && is_canonical_numeral(r@.drop_first()) && numeral_value(
            r@.drop_first(),
        ) == -n,
{
    proof { lemma_signed_decimal_is_numeral(n as int); }
    let mut out = String::new();
    if n < 0 {
        proof { reveal_strlit("-"); }
        out.append("-");
        let magnitude: i64 = -(n as i64);
        append_decimal(&mut out, magnitude as u64);
    } else {
        append_decimal(&mut out, n as u64);
    }
    out
}

/// Whether two strings hold the same characters.
pub fn str_equals(a: &str, b: &str) -> (r: bool)
    ensures
        r == (a@ == b@),
{
    let n: usize = a.unicode_len();
    if n != b.unicode_len() {
        return false;
    }
    let mut i: usize = 0;
    while i < n
        invariant
            n == a@.len(),
            n == b@.len(),
            i <= n,
            forall|j: int| 0 <= j < i ==> a@[j] == b@[j],
        decreases n - i,
    {
        if a.get_char(i) != b.get_char(i) {
            return false;
        }
        i = i + 1;
    }
    assert(a@ =~= b@);
    true
}

/// Whether a character is one of the ASCII digits `0`..`9`.
pub open spec fn is_digit(c: char) -> bool {
    48 <= (c as int) <= 57
}

/// The number an ASCII digit stands for.
pub open spec fn digit_value(c: char) -> int {
    (c as int) - 48
}

/// The number a string of digits stands for, read in base 10.
pub open spec fn numeral_value(s: Seq<char>) -> int
    decreases s.len(),
{
    if s.len() == 0 {
        0
    } else {
        10 * numeral_value(s.drop_last()) + digit_value(s.last())
    }
}

/// Whether a string is a base-10 numeral in canonical form: non-empty, all
/// digits, and no leading zero unless it is the single digit `0`.
pub open spec fn is_canonical_numeral(s: Seq<char>) -> bool {
    &&& s.len() > 0
    &&& forall|i: int| 0 <= i < s.len() ==> is_digit(#[trigger] s[i])
    &&& (s.len() == 1 || s[0] != '0')
}

proof fn lemma_digit_char(d: nat)
    requires
        d < 10,
    ensures
        is_digit(digit_char(d)),
        digit_value(digit_char(d)) == d,
        d != 0 ==> digit_char(d) != '0',
{
    assert(('0' as int) == 48 && ('1' as int) == 49 && ('2' as int) == 50 && ('3' as int) == 51
        && ('4' as int) == 52 && ('5' as int) == 53 && ('6' as int) == 54 && ('7' as int) == 55
        && ('8' as int) == 56 && ('9' as int) == 57);
}

/// The decimal rendering of `n` is the canonical base-10 numeral of `n`: it is
/// made of digits, has no leading zero, and reads back as `n`.
pub proof fn lemma_decimal_is_numeral(n: nat)
    ensures
        is_canonical_numeral(decimal(n)),
        numeral_value(decimal(n)) == n,
    decreases n,
{
    if n < 10 {
        lemma_digit_char(n);
        assert(decimal(n).drop_last() =~= Seq::<char>::empty());
        assert(numeral_value(Seq::<char>::empty()) == 0);
        assert(numeral_value(decimal(n)) == 10 * numeral_value(decimal(n).drop_last())
            + digit_value(decimal(n).last()));
    } else {
        let q = (n / 10) as nat;
        lemma_decimal_is_numeral(q);
        lemma_digit_char((n % 10) as nat);
        let s = decimal(n);
        assert(s == decimal(q).push(digit_char((n % 10) as nat)));
        assert(s.drop_last() =~= decimal(q));
        assert(s[0] == decimal(q)[0]);
        assert forall|i: int| 0 <= i < s.len() implies is_digit(#[trigger] s[i]) by {
            if i < s.len() - 1 {
                assert(s[i] == decimal(q)[i]);
            }
        }
        assert(numeral_value(s) == 10 * numeral_value(decimal(q)) + digit_value(s.last()));
        assert(n == 10 * q + n % 10);
        if q < 10 {
            lemma_digit_char(q);
        } else {
            lemma_decimal_is_numeral((q / 10) as nat);
            assert(decimal(q).len() >= 2);
        }
    }
}

/// The signed rendering of `i` is the canonical numeral of `|i|`, preceded by a
/// `-` exactly when `i` is negative.
pub proof fn lemma_signed_decimal_is_numeral(i: int)
    ensures
        i >= 0 ==> is_canonical_numeral(signed_decimal(i)) && numeral_value(signed_decimal(i)) == i,
        i < 0 ==> signed_decimal(i)[0] == '-' && is_canonical_numeral(signed_decimal(i).drop_first())
            && numeral_value(signed_decimal(i).drop_first()) == -i,
{
    if i >= 0 {
        lemma_decimal_is_numeral(i as nat);
    } else {
        lemma_decimal_is_numeral((-i) as nat);
        assert(signed_decimal(i).drop_first() =~= decimal((-i) as nat));
    }
}

} // verus!
