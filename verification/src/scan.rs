//! Character-level scanning helpers: matching a fixed literal, reading a run
//! of decimal digits, and reading text up to a closing quote. The result-file
//! parser is built from these; each helper's contract pins both when it
//! succeeds and what it returns.

use vstd::prelude::*;

use crate::digits::digit_run_end;
use crate::digits::digit_val;
use crate::digits::is_dec_digit;
use crate::digits::lemma_num_of_digits_prefix_le;
use crate::digits::num_of_digits;

verus! {

/// True when `s` holds exactly `lit` starting at position `i`.
pub open spec fn has_lit_at(s: Seq<char>, i: int, lit: Seq<char>) -> bool {
    &&& 0 <= i
    &&& i + lit.len() <= s.len()
    &&& s.subrange(i, i + lit.len()) == lit
}

/// Match the fixed text `lit` at position `i` of `s`; on a match, return the
/// position just past it.
pub fn expect_lit(s: &str, i: usize, lit: &str) -> (r: Option<usize>)
    requires
        i <= s@.len(),
    ensures
        match r {
            Some(j) => j == i + lit@.len() && has_lit_at(s@, i as int, lit@),
            None => !has_lit_at(s@, i as int, lit@),
        },
{
    let s_len = s.unicode_len();
    let lit_len = lit.unicode_len();
    if lit_len > s_len - i {
        return None;
    }
    let mut k: usize = 0;
    while k < lit_len
        invariant
            i + lit_len <= s_len,
            s_len == s@.len(),
            lit_len == lit@.len(),
            0 <= k <= lit_len,
            forall|m: int| 0 <= m < k ==> s@[i + m] == lit@[m],
        decreases lit_len - k,
    {
        if s.get_char(i + k) != lit.get_char(k) {
            proof {
                assert(s@.subrange(i as int, i + lit@.len())[k as int] != lit@[k as int]);
            }
            return None;
        }
        k = k + 1;
    }
    proof {
        assert(s@.subrange(i as int, i + lit@.len()) =~= lit@);
    }
    Some(i + lit_len)
}

/// What reading a number at position `i` of `s` yields: the value and end
/// of the digit run that starts there, or nothing where no digit stands at
/// `i` or the run's value exceeds `u64::MAX`.
pub open spec fn spec_parse_number(s: Seq<char>, i: int) -> Option<(u64, usize)> {
    let e = digit_run_end(s, i);
    if e == i {
        None
    } else if num_of_digits(s.subrange(i, e)) > u64::MAX {
        None
    } else {
        Some((num_of_digits(s.subrange(i, e)) as u64, e as usize))
    }
}

/// Read the run of decimal digit characters that starts at position `i` of
/// `s`, as an unsigned number: exactly what `spec_parse_number` names — the
/// digit run's value and its end, or nothing where no digit stands at `i`
/// or the run's value exceeds `u64::MAX`.
pub fn parse_number(s: &str, i: usize) -> (r: Option<(u64, usize)>)
    requires
        i <= s@.len(),
    ensures
        (match r {
            Some(p) => {
                &&& i < p.1 <= s@.len()
                &&& (forall|m: int| i <= m < p.1 ==> is_dec_digit(#[trigger] s@[m]))
                &&& (p.1 < s@.len() ==> !is_dec_digit(s@[p.1 as int]))
                &&& p.0 as nat == num_of_digits(s@.subrange(i as int, p.1 as int))
            },
            None => true,
        }),
        r == spec_parse_number(s@, i as int),
{
    let s_len = s.unicode_len();
    let mut j: usize = i;
    let mut val: u128 = 0;
    loop
        invariant
            i <= j <= s_len,
            s_len == s@.len(),
            forall|m: int| i <= m < j ==> is_dec_digit(#[trigger] s@[m]),
            val == num_of_digits(s@.subrange(i as int, j as int)),
            val <= u64::MAX as u128,
        ensures
            i <= j <= s_len,
            s_len == s@.len(),
            forall|m: int| i <= m < j ==> is_dec_digit(#[trigger] s@[m]),
            val == num_of_digits(s@.subrange(i as int, j as int)),
            val <= u64::MAX as u128,
            j == s_len || !is_dec_digit(s@[j as int]),
        decreases s_len - j,
    {
        if j == s_len {
            break ;
        }
        let c = s.get_char(j);
        let u = c as u32;
        if !(48 <= u && u <= 57) {
            proof {
                assert(!is_dec_digit(s@[j as int]));
            }
            break ;
        }
        let d = (u - 48) as u128;
        proof {
            assert(is_dec_digit(s@[j as int]));
            assert(d == digit_val(s@[j as int]));
        }
        let next_val = val * 10 + d;
        if next_val > u64::MAX as u128 {
            proof {
                assert(s@.subrange(i as int, j + 1).drop_last() =~= s@.subrange(
                    i as int,
                    j as int,
                ));
                assert(num_of_digits(s@.subrange(i as int, j + 1)) == next_val);
                crate::digits::lemma_digit_run_end_props(s@, i as int);
                let e = digit_run_end(s@, i as int);
                assert(e >= j + 1) by {
                    if e <= j {
                        assert(is_dec_digit(s@[e]));
                    }
                }
                lemma_num_of_digits_prefix_le(s@.subrange(i as int, e), j + 1 - i);
                assert(s@.subrange(i as int, e).subrange(0, j + 1 - i) =~= s@.subrange(
                    i as int,
                    j + 1,
                ));
                assert(num_of_digits(s@.subrange(i as int, e)) > u64::MAX);
            }
            return None;
        }
        val = next_val;
        j = j + 1;
        proof {
            assert(s@.subrange(i as int, j as int).drop_last() =~= s@.subrange(
                i as int,
                j - 1,
            ));
        }
    }
    if j == i {
        proof {
            crate::digits::lemma_digit_run_end_unique(s@, i as int, i as int);
        }
        return None;
    }
    proof {
        crate::digits::lemma_digit_run_end_unique(s@, i as int, j as int);
    }
    Some((val as u64, j))
}

/// Scanning from `i` found the next double quote at `j`, with `t` the text
/// between.
pub open spec fn quote_scan_ok(s: Seq<char>, i: int, t: Seq<char>, j: int) -> bool {
    &&& 0 <= i <= j < s.len()
    &&& s[j] == '"'
    &&& t == s.subrange(i, j)
    &&& forall|m: int| i <= m < j ==> s[m] != '"'
}

/// No double quote stands at or after position `i` of `s`.
pub open spec fn no_quote_from(s: Seq<char>, i: int) -> bool {
    forall|m: int| i <= m < s.len() ==> s[m] != '"'
}

/// Read the text from position `i` of `s` up to, and not including, the next
/// double-quote character; return it with the position of that quote. Fails
/// exactly when no quote follows.
pub fn read_until_quote(s: &str, i: usize) -> (r: Option<(String, usize)>)
    requires
        i <= s@.len(),
    ensures
        match r {
            Some(p) => quote_scan_ok(s@, i as int, p.0@, p.1 as int),
            None => no_quote_from(s@, i as int),
        },
{
    let s_len = s.unicode_len();
    let mut j: usize = i;
    while j < s_len
        invariant
            i <= j <= s_len,
            s_len == s@.len(),
            forall|m: int| i <= m < j ==> s@[m] != '"',
        decreases s_len - j,
    {
        if s.get_char(j) == '"' {
            let body = s.substring_char(i, j);
            return Some((body.to_owned(), j));
        }
        j = j + 1;
    }
    None
}

} // verus!
