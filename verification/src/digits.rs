//! Decimal rendering and reading of unsigned integers, with a proof that
//! reading back a rendered number recovers it. The result file format and the
//! output file name both embed numbers this way.

use vstd::prelude::*;

verus! {

/// The decimal digit characters.
pub open spec fn is_dec_digit(c: char) -> bool {
    '0' <= c && c <= '9'
}

/// The numeric value of a decimal digit character.
pub open spec fn digit_val(c: char) -> nat {
    (c as nat - '0' as nat) as nat
}

/// The digit character for a value below ten.
pub open spec fn char_of_digit(d: nat) -> char {
    if d == 0 {
        '0'
    } else if d == 1 {
        '1'
    } else if d == 2 {
        '2'
    } else if d == 3 {
        '3'
    } else if d == 4 {
        '4'
    } else if d == 5 {
        '5'
    } else if d == 6 {
        '6'
    } else if d == 7 {
        '7'
    } else if d == 8 {
        '8'
    } else {
        '9'
    }
}

/// The canonical decimal rendering of `n`: no sign, no leading zero except
/// for zero itself.
pub open spec fn dec_digits(n: nat) -> Seq<char>
    decreases n,
{
    if n < 10 {
        seq![char_of_digit(n)]
    } else {
        dec_digits(n / 10).push(char_of_digit(n % 10))
    }
}

/// The number a sequence of decimal digit characters denotes.
pub open spec fn num_of_digits(s: Seq<char>) -> nat
    decreases s.len(),
{
    if s.len() == 0 {
        0
    } else {
        num_of_digits(s.drop_last()) * 10 + digit_val(s.last())
    }
}

/// Every character of a rendered number is a decimal digit, and there is at
/// least one.
pub proof fn lemma_dec_digits_are_digits(n: nat)
    ensures
        dec_digits(n).len() >= 1,
        forall|i: int| 0 <= i < dec_digits(n).len() ==> is_dec_digit(#[trigger] dec_digits(n)[i]),
    decreases n,
{
    if n < 10 {
    } else {
        lemma_dec_digits_are_digits(n / 10);
    }
}

/// Reading back the decimal rendering of `n` recovers `n`.
pub proof fn lemma_dec_round_trip(n: nat)
    ensures
        num_of_digits(dec_digits(n)) == n,
    decreases n,
{
    if n < 10 {
        let s = dec_digits(n);
        assert(s.drop_last() =~= Seq::<char>::empty());
        assert(num_of_digits(s.drop_last()) == 0);
        assert(s.last() == char_of_digit(n));
        assert(num_of_digits(s) == 0 * 10 + digit_val(char_of_digit(n)));
        assert(digit_val(char_of_digit(n)) == n);
    } else {
        assert(digit_val(char_of_digit(n % 10)) == n % 10);
        lemma_dec_round_trip(n / 10);
        let s = dec_digits(n / 10).push(char_of_digit(n % 10));
        assert(s.drop_last() =~= dec_digits(n / 10));
        assert(num_of_digits(s) == (n / 10) * 10 + n % 10);
        assert((n / 10) * 10 + n % 10 == n) by {
            vstd::arithmetic::div_mod::lemma_fundamental_div_mod(n as int, 10);
        }
    }
}

/// The value of a digit sequence never shrinks when more digits follow:
/// a prefix denotes at most what the whole denotes.
pub proof fn lemma_num_of_digits_prefix_le(s: Seq<char>, j: int)
    requires
        0 <= j <= s.len(),
    ensures
        num_of_digits(s.subrange(0, j)) <= num_of_digits(s),
    decreases s.len() - j,
{
    if j == s.len() {
        assert(s.subrange(0, j) =~= s);
    } else {
        lemma_num_of_digits_prefix_le(s, j + 1);
        let p = s.subrange(0, j + 1);
        assert(p.drop_last() =~= s.subrange(0, j));
        assert(num_of_digits(s.subrange(0, j)) <= num_of_digits(p));
    }
}

/// The position just past the run of decimal digit characters that starts at
/// position `i` of `s`.
pub open spec fn digit_run_end(s: Seq<char>, i: int) -> int
    decreases s.len() - i,
{
    if 0 <= i < s.len() && is_dec_digit(s[i]) {
        digit_run_end(s, i + 1)
    } else {
        i
    }
}

/// The digit run is made of digits, ends within the text, and stops at the
/// first non-digit.
pub proof fn lemma_digit_run_end_props(s: Seq<char>, i: int)
    requires
        0 <= i <= s.len(),
    ensures
        i <= digit_run_end(s, i) <= s.len(),
        forall|m: int| i <= m < digit_run_end(s, i) ==> is_dec_digit(#[trigger] s[m]),
        digit_run_end(s, i) < s.len() ==> !is_dec_digit(s[digit_run_end(s, i)]),
    decreases s.len() - i,
{
    if i < s.len() && is_dec_digit(s[i]) {
        lemma_digit_run_end_props(s, i + 1);
    }
}

/// A stretch of digits ending at the text's end or at a non-digit is the
/// digit run: its end is determined.
pub proof fn lemma_digit_run_end_unique(s: Seq<char>, i: int, j: int)
    requires
        0 <= i <= j <= s.len(),
        forall|m: int| i <= m < j ==> is_dec_digit(#[trigger] s[m]),
        j == s.len() || !is_dec_digit(s[j]),
    ensures
        digit_run_end(s, i) == j,
    decreases s.len() - i,
{
    if i < j {
        lemma_digit_run_end_unique(s, i + 1, j);
    }
}

/// The digit character for a value below ten, as executable code.
fn digit_str(d: u64) -> (r: &'static str)
    requires
        d < 10,
    ensures
        r@.len() == 1,
        r@[0] == char_of_digit(d as nat),
{
    proof {
        reveal_strlit("0");
        reveal_strlit("1");
        reveal_strlit("2");
        reveal_strlit("3");
        reveal_strlit("4");
        reveal_strlit("5");
        reveal_strlit("6");
        reveal_strlit("7");
        reveal_strlit("8");
        reveal_strlit("9");
    }
    match d {
        0 => "0",
        1 => "1",
        2 => "2",
        3 => "3",
        4 => "4",
        5 => "5",
        6 => "6",
        7 => "7",
        8 => "8",
        _ => "9",
    }
}

/// Render `n` in decimal.
pub fn u64_to_dec(n: u64) -> (r: String)
    ensures
        r@ == dec_digits(n as nat),
    decreases n,
{
    if n < 10 {
        String::from_str(digit_str(n))
    } else {
        let prefix = u64_to_dec(n / 10);
        let r = prefix.concat(digit_str(n % 10));
        proof {
            assert(r@ =~= dec_digits((n / 10) as nat).push(char_of_digit((n % 10) as nat)));
        }
        r
    }
}

} // verus!
