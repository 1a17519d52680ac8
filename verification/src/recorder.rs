//! The benchmark result record: an immutable value holding a run's parameters
//! and its two measured durations, rendered to and read back from a
//! human-readable key-value text, and the deterministic name of its output
//! file.

use vstd::prelude::*;

use crate::digits::dec_digits;
use crate::digits::is_dec_digit;
use crate::digits::num_of_digits;
use crate::digits::u64_to_dec;
use crate::scan::expect_lit;
use crate::digits::lemma_dec_digits_are_digits;
use crate::digits::lemma_dec_round_trip;
use crate::digits::lemma_digit_run_end_unique;
use crate::scan::has_lit_at;
use crate::scan::spec_parse_number;
use crate::scan::parse_number;
use crate::scan::read_until_quote;

verus! {

/// One benchmark run's normalized outcome: the security parameter, the
/// population shape, and the isolated wall-clock duration of the commitment
/// phase and of the inclusion phase. Created once at the end of a run and
/// never mutated.
#[derive(Debug)]
pub struct BenchmarkResult {
    pub k: u32,
    pub n_users: usize,
    pub n_currencies: usize,
    pub commitment_generation_time: usize,
    pub inclusion_generation_time: usize,
    pub time_unit: String,
}

/// A character sequence with no double quote in it; such a time-unit label
/// passes through the rendered text unescaped.
pub open spec fn quote_free(s: Seq<char>) -> bool {
    forall|i: int| 0 <= i < s.len() ==> s[i] != '"'
}

/// The rendered text of a record, given raw digit runs for the five numeric
/// fields.
pub open spec fn json_chars_with(
    d1: Seq<char>,
    d2: Seq<char>,
    d3: Seq<char>,
    d4: Seq<char>,
    d5: Seq<char>,
    tu: Seq<char>,
) -> Seq<char> {
    "{\n  \"k\": "@ + d1 + ",\n  \"n_users\": "@ + d2 + ",\n  \"n_currencies\": "@ + d3
        + ",\n  \"commitment_generation_time\": "@ + d4 + ",\n  \"inclusion_generation_time\": "@
        + d5 + ",\n  \"time_unit\": \""@ + tu + "\"\n}"@
}

/// The canonical rendered text of a record: every number in canonical
/// decimal.
pub open spec fn json_chars(k: nat, nu: nat, nc: nat, ct: nat, iu: nat, tu: Seq<char>) -> Seq<
    char,
> {
    json_chars_with(
        dec_digits(k),
        dec_digits(nu),
        dec_digits(nc),
        dec_digits(ct),
        dec_digits(iu),
        tu,
    )
}

/// The canonical rendered text of this record.
pub open spec fn spec_json(b: BenchmarkResult) -> Seq<char> {
    json_chars(
        b.k as nat,
        b.n_users as nat,
        b.n_currencies as nat,
        b.commitment_generation_time as nat,
        b.inclusion_generation_time as nat,
        b.time_unit@,
    )
}

/// The name of the output file a run writes, derived from its parameters
/// alone.
pub open spec fn filename_chars(variant: Seq<char>, k: nat, nu: nat, nc: nat) -> Seq<char> {
    variant + "_k"@ + dec_digits(k) + "_u"@ + dec_digits(nu) + "_c"@ + dec_digits(nc) + ".json"@
}

impl BenchmarkResult {
    /// Assemble the record from a run's parameters and measurements.
    pub fn new(
        k: u32,
        n_users: usize,
        n_currencies: usize,
        commitment_generation_time: usize,
        inclusion_generation_time: usize,
        time_unit: String,
    ) -> (r: Self)
        ensures
            r.k == k,
            r.n_users == n_users,
            r.n_currencies == n_currencies,
            r.commitment_generation_time == commitment_generation_time,
            r.inclusion_generation_time == inclusion_generation_time,
            r.time_unit@ == time_unit@,
    {
        Self { k, n_users, n_currencies, commitment_generation_time, inclusion_generation_time, time_unit }
    }

    /// Render the record as its structured, human-readable text.
    pub fn to_json(&self) -> (r: String)
        ensures
            r@ == spec_json(*self),
    {
        let mut out = String::from_str("{\n  \"k\": ");
        out.append(u64_to_dec(self.k as u64).as_str());
        out.append(",\n  \"n_users\": ");
        out.append(u64_to_dec(self.n_users as u64).as_str());
        out.append(",\n  \"n_currencies\": ");
        out.append(u64_to_dec(self.n_currencies as u64).as_str());
        out.append(",\n  \"commitment_generation_time\": ");
        out.append(u64_to_dec(self.commitment_generation_time as u64).as_str());
        out.append(",\n  \"inclusion_generation_time\": ");
        out.append(u64_to_dec(self.inclusion_generation_time as u64).as_str());
        out.append(",\n  \"time_unit\": \"");
        out.append(self.time_unit.as_str());
        out.append("\"\n}");
        proof {
            assert(out@ =~= spec_json(*self));
        }
        out
    }
}

/// A prefix of `s` that splits as `a + b` splits at the end of `a`.
proof fn lemma_concat_prefix(s: Seq<char>, e: int, a: Seq<char>, b: Seq<char>)
    requires
        0 <= e <= s.len(),
        s.subrange(0, e) == a + b,
    ensures
        a.len() + b.len() == e,
        s.subrange(0, e - b.len()) == a,
        s.subrange(e - b.len(), e) == b,
{
    assert(s.subrange(0, e).len() == a.len() + b.len());
    assert forall|m: int| 0 <= m < a.len() implies s.subrange(0, e - b.len())[m] == a[m] by {
        assert(s.subrange(0, e)[m] == a[m]);
        assert(s.subrange(0, e)[m] == s[m]);
        assert(s.subrange(0, e - b.len())[m] == s[m]);
    }
    assert(s.subrange(0, e - b.len()) =~= a);
    assert forall|m: int| 0 <= m < b.len() implies s.subrange(e - b.len(), e)[m] == b[m] by {
        assert(s.subrange(0, e)[a.len() + m] == b[m]);
        assert(s.subrange(0, e)[a.len() + m] == s[a.len() + m]);
        assert(s.subrange(e - b.len(), e)[m] == s[a.len() + m]);
    }
    assert(s.subrange(e - b.len(), e) =~= b);
}

/// Where each piece of the rendered text stands: the canonical text of given
/// field values decomposes into its literals and digit runs at fixed offsets.
pub open spec fn json_shape_facts(
    s: Seq<char>,
    k: nat,
    nu: nat,
    nc: nat,
    ct: nat,
    iu: nat,
    tu: Seq<char>,
) -> bool {
    let l1 = "{\n  \"k\": "@;
    let l2 = ",\n  \"n_users\": "@;
    let l3 = ",\n  \"n_currencies\": "@;
    let l4 = ",\n  \"commitment_generation_time\": "@;
    let l5 = ",\n  \"inclusion_generation_time\": "@;
    let l6 = ",\n  \"time_unit\": \""@;
    let l7 = "\"\n}"@;
    let a0 = l1.len() as int;
    let a1 = a0 + dec_digits(k).len();
    let b0 = a1 + l2.len();
    let b1 = b0 + dec_digits(nu).len();
    let c0 = b1 + l3.len();
    let c1 = c0 + dec_digits(nc).len();
    let d0 = c1 + l4.len();
    let d1 = d0 + dec_digits(ct).len();
    let e0 = d1 + l5.len();
    let e1 = e0 + dec_digits(iu).len();
    let f0 = e1 + l6.len();
    let f1 = f0 + tu.len();
    &&& s.len() == f1 + l7.len()
    &&& s.len() == f1 + 3
    &&& dec_digits(k).len() >= 1
    &&& dec_digits(nu).len() >= 1
    &&& dec_digits(nc).len() >= 1
    &&& dec_digits(ct).len() >= 1
    &&& dec_digits(iu).len() >= 1
    &&& has_lit_at(s, 0, l1)
    &&& s.subrange(a0, a1) == dec_digits(k)
    &&& !is_dec_digit(s[a1])
    &&& has_lit_at(s, a1, l2)
    &&& s.subrange(b0, b1) == dec_digits(nu)
    &&& !is_dec_digit(s[b1])
    &&& has_lit_at(s, b1, l3)
    &&& s.subrange(c0, c1) == dec_digits(nc)
    &&& !is_dec_digit(s[c1])
    &&& has_lit_at(s, c1, l4)
    &&& s.subrange(d0, d1) == dec_digits(ct)
    &&& !is_dec_digit(s[d1])
    &&& has_lit_at(s, d1, l5)
    &&& s.subrange(e0, e1) == dec_digits(iu)
    &&& !is_dec_digit(s[e1])
    &&& has_lit_at(s, e1, l6)
    &&& (forall|m: int| f0 <= m < f1 ==> s[m] != '"')
    &&& s[f1] == '"'
    &&& has_lit_at(s, f1, l7)
}

/// The canonical rendered text of given field values has its pieces at the
/// offsets that `json_shape_facts` names.
#[verifier::rlimit(100)]
pub proof fn lemma_json_shape(
    s: Seq<char>,
    k: nat,
    nu: nat,
    nc: nat,
    ct: nat,
    iu: nat,
    tu: Seq<char>,
)
    requires
        s == json_chars(k, nu, nc, ct, iu, tu),
        quote_free(tu),
    ensures
        json_shape_facts(s, k, nu, nc, ct, iu, tu),
{
    let l1 = "{\n  \"k\": "@;
    let l2 = ",\n  \"n_users\": "@;
    let l3 = ",\n  \"n_currencies\": "@;
    let l4 = ",\n  \"commitment_generation_time\": "@;
    let l5 = ",\n  \"inclusion_generation_time\": "@;
    let l6 = ",\n  \"time_unit\": \""@;
    let l7 = "\"\n}"@;
    let dk = dec_digits(k);
    let dnu = dec_digits(nu);
    let dnc = dec_digits(nc);
    let dct = dec_digits(ct);
    let diu = dec_digits(iu);
    crate::digits::lemma_dec_digits_are_digits(k);
    crate::digits::lemma_dec_digits_are_digits(nu);
    crate::digits::lemma_dec_digits_are_digits(nc);
    crate::digits::lemma_dec_digits_are_digits(ct);
    crate::digits::lemma_dec_digits_are_digits(iu);
    assert(s.subrange(0, s.len() as int) =~= s);
    let e12 = s.len() as int;
    lemma_concat_prefix(s, e12, l1 + dk + l2 + dnu + l3 + dnc + l4 + dct + l5 + diu + l6 + tu, l7);
    let e11 = e12 - l7.len();
    lemma_concat_prefix(s, e11, l1 + dk + l2 + dnu + l3 + dnc + l4 + dct + l5 + diu + l6, tu);
    let e10 = e11 - tu.len();
    lemma_concat_prefix(s, e10, l1 + dk + l2 + dnu + l3 + dnc + l4 + dct + l5 + diu, l6);
    let e9 = e10 - l6.len();
    lemma_concat_prefix(s, e9, l1 + dk + l2 + dnu + l3 + dnc + l4 + dct + l5, diu);
    let e8 = e9 - diu.len();
    lemma_concat_prefix(s, e8, l1 + dk + l2 + dnu + l3 + dnc + l4 + dct, l5);
    let e7 = e8 - l5.len();
    lemma_concat_prefix(s, e7, l1 + dk + l2 + dnu + l3 + dnc + l4, dct);
    let e6 = e7 - dct.len();
    lemma_concat_prefix(s, e6, l1 + dk + l2 + dnu + l3 + dnc, l4);
    let e5 = e6 - l4.len();
    lemma_concat_prefix(s, e5, l1 + dk + l2 + dnu + l3, dnc);
    let e4 = e5 - dnc.len();
    lemma_concat_prefix(s, e4, l1 + dk + l2 + dnu, l3);
    let e3 = e4 - l3.len();
    lemma_concat_prefix(s, e3, l1 + dk + l2, dnu);
    let e2 = e3 - dnu.len();
    lemma_concat_prefix(s, e2, l1 + dk, l2);
    let e1 = e2 - l2.len();
    lemma_concat_prefix(s, e1, l1, dk);
    let a0 = l1.len() as int;
    let a1 = a0 + dk.len();
    let b0 = a1 + l2.len();
    let b1 = b0 + dnu.len();
    let c0 = b1 + l3.len();
    let c1 = c0 + dnc.len();
    let d0 = c1 + l4.len();
    let d1 = d0 + dct.len();
    let e0 = d1 + l5.len();
    let e1x = e0 + diu.len();
    let f0 = e1x + l6.len();
    let f1 = f0 + tu.len();
    assert(s.subrange(0, a0) == l1);
    assert(s.subrange(a0, a1) == dk);
    assert(s.subrange(a1, b0) == l2);
    assert(s.subrange(b0, b1) == dnu);
    assert(s.subrange(b1, c0) == l3);
    assert(s.subrange(c0, c1) == dnc);
    assert(s.subrange(c1, d0) == l4);
    assert(s.subrange(d0, d1) == dct);
    assert(s.subrange(d1, e0) == l5);
    assert(s.subrange(e0, e1x) == diu);
    assert(s.subrange(e1x, f0) == l6);
    assert(s.subrange(f0, f1) == tu);
    assert(s.subrange(f1, f1 + l7.len()) == l7);
    reveal_strlit("{\n  \"k\": ");
    reveal_strlit(",\n  \"n_users\": ");
    reveal_strlit(",\n  \"n_currencies\": ");
    reveal_strlit(",\n  \"commitment_generation_time\": ");
    reveal_strlit(",\n  \"inclusion_generation_time\": ");
    reveal_strlit(",\n  \"time_unit\": \"");
    reveal_strlit("\"\n}");
    assert(s.subrange(a1, a1 + l2.len())[0] == s[a1]);
    assert(s.subrange(b1, b1 + l3.len())[0] == s[b1]);
    assert(s.subrange(c1, c1 + l4.len())[0] == s[c1]);
    assert(s.subrange(d1, d1 + l5.len())[0] == s[d1]);
    assert(s.subrange(e1x, e1x + l6.len())[0] == s[e1x]);
    assert(s.subrange(f1, f1 + l7.len())[0] == s[f1]);
    assert(s[a1] == l2[0]);
    assert(s[b1] == l3[0]);
    assert(s[c1] == l4[0]);
    assert(s[d1] == l5[0]);
    assert(s[e1x] == l6[0]);
    assert(s[f1] == l7[0]);
    assert forall|m: int| f0 <= m < f1 implies s[m] != '"' by {
        assert(s.subrange(f0, f1)[m - f0] == s[m]);
        assert(tu[m - f0] != '"');
    }
}

/// A nonempty sequence of decimal digit characters.
pub open spec fn digit_run(d: Seq<char>) -> bool {
    &&& d.len() >= 1
    &&& forall|i: int| 0 <= i < d.len() ==> is_dec_digit(d[i])
}

/// `s` is the canonical rendered text of exactly these field values, each
/// within its machine range, the time unit free of quotes.
#[verifier::opaque]
pub open spec fn canonical_json_of(
    s: Seq<char>,
    k: nat,
    nu: nat,
    nc: nat,
    ct: nat,
    iu: nat,
    tu: Seq<char>,
) -> bool {
    &&& k <= u32::MAX
    &&& nu <= usize::MAX
    &&& nc <= usize::MAX
    &&& ct <= usize::MAX
    &&& iu <= usize::MAX
    &&& quote_free(tu)
    &&& s == json_chars(k, nu, nc, ct, iu, tu)
}

/// `s` is a rendered record text whose digit runs denote exactly the fields
/// of `b`; the runs may carry leading zeros, which rendering never produces
/// but reading tolerates.
#[verifier::opaque]
pub open spec fn json_fields_with(
    s: Seq<char>,
    b: BenchmarkResult,
    d1: Seq<char>,
    d2: Seq<char>,
    d3: Seq<char>,
    d4: Seq<char>,
    d5: Seq<char>,
) -> bool {
    &&& digit_run(d1)
    &&& digit_run(d2)
    &&& digit_run(d3)
    &&& digit_run(d4)
    &&& digit_run(d5)
    &&& quote_free(b.time_unit@)
    &&& s == json_chars_with(d1, d2, d3, d4, d5, b.time_unit@)
    &&& b.k as nat == num_of_digits(d1)
    &&& b.n_users as nat == num_of_digits(d2)
    &&& b.n_currencies as nat == num_of_digits(d3)
    &&& b.commitment_generation_time as nat == num_of_digits(d4)
    &&& b.inclusion_generation_time as nat == num_of_digits(d5)
}

/// Adjacent pieces of `s` join: if `[i, j)` holds `a` and `[j, e)` holds `b`,
/// then `[i, e)` holds `a + b`.
proof fn lemma_concat_join(s: Seq<char>, i: int, j: int, e: int, a: Seq<char>, b: Seq<char>)
    requires
        0 <= i <= j <= e <= s.len(),
        s.subrange(i, j) == a,
        s.subrange(j, e) == b,
    ensures
        s.subrange(i, e) == a + b,
{
    assert forall|m: int| 0 <= m < e - i implies s.subrange(i, e)[m] == (a + b)[m] by {
        if m < j - i {
            assert(s.subrange(i, j)[m] == a[m]);
            assert(s.subrange(i, j)[m] == s[i + m]);
            assert(s.subrange(i, e)[m] == s[i + m]);
        } else {
            assert(s.subrange(j, e)[m - (j - i)] == b[m - (j - i)]);
            assert(s.subrange(j, e)[m - (j - i)] == s[i + m]);
            assert(s.subrange(i, e)[m] == s[i + m]);
        }
    }
    assert(s.subrange(i, e) =~= a + b);
}

/// The name of the output file for a run of the given backend variant and
/// parameters: the variant label with the parameters appended.
pub fn output_filename(variant: &str, k: u32, n_users: usize, n_currencies: usize) -> (r: String)
    ensures
        r@ == filename_chars(variant@, k as nat, n_users as nat, n_currencies as nat),
{
    let mut out = String::from_str(variant);
    out.append("_k");
    out.append(u64_to_dec(k as u64).as_str());
    out.append("_u");
    out.append(u64_to_dec(n_users as u64).as_str());
    out.append("_c");
    out.append(u64_to_dec(n_currencies as u64).as_str());
    out.append(".json");
    proof {
        assert(out@ =~= filename_chars(
            variant@,
            k as nat,
            n_users as nat,
            n_currencies as nat,
        ));
    }
    out
}

/// From the facts the scanning steps establish, the canonical text of any
/// field values pins every step: each step succeeded, each number read is the
/// corresponding field, the time unit read is the label, and the final
/// position is the end of the text.
#[verifier::rlimit(100)]
proof fn lemma_parse_pins(
    s: Seq<char>,
    k: nat,
    nu: nat,
    nc: nat,
    ct: nat,
    iu: nat,
    tu: Seq<char>,
    r1: Option<usize>,
    j1: usize,
    r2: Option<(u64, usize)>,
    v1: u64,
    j2: usize,
    r3: Option<usize>,
    j3: usize,
    r4: Option<(u64, usize)>,
    v2: u64,
    j4: usize,
    r5: Option<usize>,
    j5: usize,
    r6: Option<(u64, usize)>,
    v3: u64,
    j6: usize,
    r7: Option<usize>,
    j7: usize,
    r8: Option<(u64, usize)>,
    v4: u64,
    j8: usize,
    r9: Option<usize>,
    j9: usize,
    r10: Option<(u64, usize)>,
    v5: u64,
    j10: usize,
    r11: Option<usize>,
    j11: usize,
    r12: Option<(String, usize)>,
    tuv: Seq<char>,
    j12: usize,
    r13: Option<usize>,
    j13: usize,
)
    requires
        s.len() <= usize::MAX,
        canonical_json_of(s, k, nu, nc, ct, iu, tu),
        (match r1 {
            Some(j) => j == "{\n  \"k\": "@.len() && has_lit_at(s, 0, "{\n  \"k\": "@),
            None => !has_lit_at(s, 0, "{\n  \"k\": "@),
        }),
        (r1 matches Some(j) ==> j1 == j),
        r2 == spec_parse_number(s, j1 as int),
        (r2 matches Some(p) ==> v1 == p.0 && j2 == p.1),
        (match r3 {
            Some(j) => j == j2 + ",\n  \"n_users\": "@.len() && has_lit_at(
                s,
                j2 as int,
                ",\n  \"n_users\": "@,
            ),
            None => !has_lit_at(s, j2 as int, ",\n  \"n_users\": "@),
        }),
        (r3 matches Some(j) ==> j3 == j),
        r4 == spec_parse_number(s, j3 as int),
        (r4 matches Some(p) ==> v2 == p.0 && j4 == p.1),
        (match r5 {
            Some(j) => j == j4 + ",\n  \"n_currencies\": "@.len() && has_lit_at(
                s,
                j4 as int,
                ",\n  \"n_currencies\": "@,
            ),
            None => !has_lit_at(s, j4 as int, ",\n  \"n_currencies\": "@),
        }),
        (r5 matches Some(j) ==> j5 == j),
        r6 == spec_parse_number(s, j5 as int),
        (r6 matches Some(p) ==> v3 == p.0 && j6 == p.1),
        (match r7 {
            Some(j) => j == j6 + ",\n  \"commitment_generation_time\": "@.len() && has_lit_at(
                s,
                j6 as int,
                ",\n  \"commitment_generation_time\": "@,
            ),
            None => !has_lit_at(s, j6 as int, ",\n  \"commitment_generation_time\": "@),
        }),
        (r7 matches Some(j) ==> j7 == j),
        r8 == spec_parse_number(s, j7 as int),
        (r8 matches Some(p) ==> v4 == p.0 && j8 == p.1),
        (match r9 {
            Some(j) => j == j8 + ",\n  \"inclusion_generation_time\": "@.len() && has_lit_at(
                s,
                j8 as int,
                ",\n  \"inclusion_generation_time\": "@,
            ),
            None => !has_lit_at(s, j8 as int, ",\n  \"inclusion_generation_time\": "@),
        }),
        (r9 matches Some(j) ==> j9 == j),
        r10 == spec_parse_number(s, j9 as int),
        (r10 matches Some(p) ==> v5 == p.0 && j10 == p.1),
        (match r11 {
            Some(j) => j == j10 + ",\n  \"time_unit\": \""@.len() && has_lit_at(
                s,
                j10 as int,
                ",\n  \"time_unit\": \""@,
            ),
            None => !has_lit_at(s, j10 as int, ",\n  \"time_unit\": \""@),
        }),
        (r11 matches Some(j) ==> j11 == j),
        (match r12 {
            Some(p) => crate::scan::quote_scan_ok(s, j11 as int, p.0@, p.1 as int),
            None => crate::scan::no_quote_from(s, j11 as int),
        }),
        (r12 matches Some(p) ==> tuv == p.0@ && j12 == p.1),
        (match r13 {
            Some(j) => j == j12 + "\"\n}"@.len() && has_lit_at(s, j12 as int, "\"\n}"@),
            None => !has_lit_at(s, j12 as int, "\"\n}"@),
        }),
        (r13 matches Some(j) ==> j13 == j),
    ensures
        r1 is Some,
        r2 is Some,
        r3 is Some,
        r4 is Some,
        r5 is Some,
        r6 is Some,
        r7 is Some,
        r8 is Some,
        r9 is Some,
        r10 is Some,
        r11 is Some,
        r12 is Some,
        r13 is Some,
        v1 == k as u64,
        v2 == nu as u64,
        v3 == nc as u64,
        v4 == ct as u64,
        v5 == iu as u64,
        tuv == tu,
        j13 == s.len(),
{
    reveal(canonical_json_of);
    lemma_json_shape(s, k, nu, nc, ct, iu, tu);
    let a1: int = ("{\n  \"k\": "@.len() + dec_digits(k).len()) as int;
    let b1: int = a1 + ",\n  \"n_users\": "@.len() + dec_digits(nu).len();
    let c1: int = b1 + ",\n  \"n_currencies\": "@.len() + dec_digits(nc).len();
    let d1: int = c1 + ",\n  \"commitment_generation_time\": "@.len() + dec_digits(ct).len();
    let e1: int = d1 + ",\n  \"inclusion_generation_time\": "@.len() + dec_digits(iu).len();
    let f0: int = e1 + ",\n  \"time_unit\": \""@.len();
    let f1: int = f0 + tu.len();
    assert(has_lit_at(s, 0, "{\n  \"k\": "@));
    assert(r1 is Some);
    assert(j1 == "{\n  \"k\": "@.len());
    assert(s.subrange(j1 as int, a1) == dec_digits(k));
    assert(!is_dec_digit(s[a1]));
    assert forall|m: int| j1 <= m < a1 implies is_dec_digit(s[m]) by {
        lemma_dec_digits_are_digits(k);
        assert(s.subrange(j1 as int, a1)[m - j1] == s[m]);
    }
    lemma_digit_run_end_unique(s, j1 as int, a1);
    lemma_dec_round_trip(k);
    assert(r2 == Some((k as u64, a1 as usize)));
    assert(v1 == k as u64 && j2 == a1);
    assert(has_lit_at(s, j2 as int, ",\n  \"n_users\": "@));
    assert(r3 is Some);
    assert(j3 == j2 + ",\n  \"n_users\": "@.len());
    assert(s.subrange(j3 as int, b1) == dec_digits(nu));
    assert(!is_dec_digit(s[b1]));
    assert forall|m: int| j3 <= m < b1 implies is_dec_digit(s[m]) by {
        lemma_dec_digits_are_digits(nu);
        assert(s.subrange(j3 as int, b1)[m - j3] == s[m]);
    }
    lemma_digit_run_end_unique(s, j3 as int, b1);
    lemma_dec_round_trip(nu);
    assert(r4 == Some((nu as u64, b1 as usize)));
    assert(v2 == nu as u64 && j4 == b1);
    assert(has_lit_at(s, j4 as int, ",\n  \"n_currencies\": "@));
    assert(r5 is Some);
    assert(j5 == j4 + ",\n  \"n_currencies\": "@.len());
    assert(s.subrange(j5 as int, c1) == dec_digits(nc));
    assert(!is_dec_digit(s[c1]));
    assert forall|m: int| j5 <= m < c1 implies is_dec_digit(s[m]) by {
        lemma_dec_digits_are_digits(nc);
        assert(s.subrange(j5 as int, c1)[m - j5] == s[m]);
    }
    lemma_digit_run_end_unique(s, j5 as int, c1);
    lemma_dec_round_trip(nc);
    assert(r6 == Some((nc as u64, c1 as usize)));
    assert(v3 == nc as u64 && j6 == c1);
    assert(has_lit_at(s, j6 as int, ",\n  \"commitment_generation_time\": "@));
    assert(r7 is Some);
    assert(j7 == j6 + ",\n  \"commitment_generation_time\": "@.len());
    assert(s.subrange(j7 as int, d1) == dec_digits(ct));
    assert(!is_dec_digit(s[d1]));
    assert forall|m: int| j7 <= m < d1 implies is_dec_digit(s[m]) by {
        lemma_dec_digits_are_digits(ct);
        assert(s.subrange(j7 as int, d1)[m - j7] == s[m]);
    }
    lemma_digit_run_end_unique(s, j7 as int, d1);
    lemma_dec_round_trip(ct);
    assert(r8 == Some((ct as u64, d1 as usize)));
    assert(v4 == ct as u64 && j8 == d1);
    assert(has_lit_at(s, j8 as int, ",\n  \"inclusion_generation_time\": "@));
    assert(r9 is Some);
    assert(j9 == j8 + ",\n  \"inclusion_generation_time\": "@.len());
    assert(s.subrange(j9 as int, e1) == dec_digits(iu));
    assert(!is_dec_digit(s[e1]));
    assert forall|m: int| j9 <= m < e1 implies is_dec_digit(s[m]) by {
        lemma_dec_digits_are_digits(iu);
        assert(s.subrange(j9 as int, e1)[m - j9] == s[m]);
    }
    lemma_digit_run_end_unique(s, j9 as int, e1);
    lemma_dec_round_trip(iu);
    assert(r10 == Some((iu as u64, e1 as usize)));
    assert(v5 == iu as u64 && j10 == e1);
    assert(has_lit_at(s, j10 as int, ",\n  \"time_unit\": \""@));
    assert(r11 is Some);
    assert(j11 == f0);
    assert(s[f1] == '"');
    assert(f1 < s.len());
    assert(r12 is Some) by {
        if r12 is None {
            assert(s[f1] != '"');
        }
    }
    assert(j12 >= f1) by {
        if j12 < f1 {
            assert(s[j12 as int] != '"');
        }
    }
    assert(j12 <= f1) by {
        if j12 > f1 {
            assert(s[f1] != '"');
        }
    }
    assert(j12 == f1);
    assert(tuv == s.subrange(f0, f1));
    assert(tuv == tu);
    assert(has_lit_at(s, j12 as int, "\"\n}"@));
    assert(r13 is Some);
    assert(j13 == j12 + "\"\n}"@.len());
    assert(j13 == s.len());
}

/// Adjacent pieces assemble: a text that holds the six literals of the record
/// shape between its separators is the rendered text of what stands between
/// them.
#[verifier::rlimit(100)]
proof fn lemma_assemble_json(
    s: Seq<char>,
    j1: int,
    j2: int,
    j3: int,
    j4: int,
    j5: int,
    j6: int,
    j7: int,
    j8: int,
    j9: int,
    j10: int,
    j11: int,
    j12: int,
)
    requires
        0 <= j1 <= j2 <= j3 <= j4 <= j5 <= j6 <= j7 <= j8 <= j9 <= j10 <= j11 <= j12 <= s.len(),
        s.subrange(0, j1) == "{\n  \"k\": "@,
        s.subrange(j2, j3) == ",\n  \"n_users\": "@,
        s.subrange(j4, j5) == ",\n  \"n_currencies\": "@,
        s.subrange(j6, j7) == ",\n  \"commitment_generation_time\": "@,
        s.subrange(j8, j9) == ",\n  \"inclusion_generation_time\": "@,
        s.subrange(j10, j11) == ",\n  \"time_unit\": \""@,
        s.subrange(j12, s.len() as int) == "\"\n}"@,
    ensures
        s == json_chars_with(
            s.subrange(j1, j2),
            s.subrange(j3, j4),
            s.subrange(j5, j6),
            s.subrange(j7, j8),
            s.subrange(j9, j10),
            s.subrange(j11, j12),
        ),
{
    let d1w = s.subrange(j1, j2);
    let d2w = s.subrange(j3, j4);
    let d3w = s.subrange(j5, j6);
    let d4w = s.subrange(j7, j8);
    let d5w = s.subrange(j9, j10);
    let tuw = s.subrange(j11, j12);
    lemma_concat_join(s, 0, j1, j2, "{\n  \"k\": "@, d1w);
    lemma_concat_join(s, 0, j2, j3, "{\n  \"k\": "@ + d1w, ",\n  \"n_users\": "@);
    lemma_concat_join(s, 0, j3, j4, "{\n  \"k\": "@ + d1w + ",\n  \"n_users\": "@, d2w);
    lemma_concat_join(
        s,
        0,
        j4,
        j5,
        "{\n  \"k\": "@ + d1w + ",\n  \"n_users\": "@ + d2w,
        ",\n  \"n_currencies\": "@,
    );
    lemma_concat_join(
        s,
        0,
        j5,
        j6,
        "{\n  \"k\": "@ + d1w + ",\n  \"n_users\": "@ + d2w + ",\n  \"n_currencies\": "@,
        d3w,
    );
    lemma_concat_join(
        s,
        0,
        j6,
        j7,
        "{\n  \"k\": "@ + d1w + ",\n  \"n_users\": "@ + d2w + ",\n  \"n_currencies\": "@ + d3w,
        ",\n  \"commitment_generation_time\": "@,
    );
    lemma_concat_join(
        s,
        0,
        j7,
        j8,
        "{\n  \"k\": "@ + d1w + ",\n  \"n_users\": "@ + d2w + ",\n  \"n_currencies\": "@ + d3w
            + ",\n  \"commitment_generation_time\": "@,
        d4w,
    );
    lemma_concat_join(
        s,
        0,
        j8,
        j9,
        "{\n  \"k\": "@ + d1w + ",\n  \"n_users\": "@ + d2w + ",\n  \"n_currencies\": "@ + d3w
            + ",\n  \"commitment_generation_time\": "@ + d4w,
        ",\n  \"inclusion_generation_time\": "@,
    );
    lemma_concat_join(
        s,
        0,
        j9,
        j10,
        "{\n  \"k\": "@ + d1w + ",\n  \"n_users\": "@ + d2w + ",\n  \"n_currencies\": "@ + d3w
            + ",\n  \"commitment_generation_time\": "@ + d4w
            + ",\n  \"inclusion_generation_time\": "@,
        d5w,
    );
    lemma_concat_join(
        s,
        0,
        j10,
        j11,
        "{\n  \"k\": "@ + d1w + ",\n  \"n_users\": "@ + d2w + ",\n  \"n_currencies\": "@ + d3w
            + ",\n  \"commitment_generation_time\": "@ + d4w
            + ",\n  \"inclusion_generation_time\": "@ + d5w,
        ",\n  \"time_unit\": \""@,
    );
    lemma_concat_join(
        s,
        0,
        j11,
        j12,
        "{\n  \"k\": "@ + d1w + ",\n  \"n_users\": "@ + d2w + ",\n  \"n_currencies\": "@ + d3w
            + ",\n  \"commitment_generation_time\": "@ + d4w
            + ",\n  \"inclusion_generation_time\": "@ + d5w + ",\n  \"time_unit\": \""@,
        tuw,
    );
    lemma_concat_join(
        s,
        0,
        j12,
        s.len() as int,
        "{\n  \"k\": "@ + d1w + ",\n  \"n_users\": "@ + d2w + ",\n  \"n_currencies\": "@ + d3w
            + ",\n  \"commitment_generation_time\": "@ + d4w
            + ",\n  \"inclusion_generation_time\": "@ + d5w + ",\n  \"time_unit\": \""@ + tuw,
        "\"\n}"@,
    );
    assert(s.subrange(0, s.len() as int) =~= s);
}

/// The quantified form of the step pinning: whatever field values the text
/// canonically renders, every scanning step succeeded on it and read exactly
/// those values.
#[verifier::rlimit(100)]
proof fn lemma_parse_outcome(
    s: Seq<char>,
    r1: Option<usize>,
    j1: usize,
    r2: Option<(u64, usize)>,
    v1: u64,
    j2: usize,
    r3: Option<usize>,
    j3: usize,
    r4: Option<(u64, usize)>,
    v2: u64,
    j4: usize,
    r5: Option<usize>,
    j5: usize,
    r6: Option<(u64, usize)>,
    v3: u64,
    j6: usize,
    r7: Option<usize>,
    j7: usize,
    r8: Option<(u64, usize)>,
    v4: u64,
    j8: usize,
    r9: Option<usize>,
    j9: usize,
    r10: Option<(u64, usize)>,
    v5: u64,
    j10: usize,
    r11: Option<usize>,
    j11: usize,
    r12: Option<(String, usize)>,
    tuv: Seq<char>,
    j12: usize,
    r13: Option<usize>,
    j13: usize,
)
    requires
        s.len() <= usize::MAX,
        (match r1 {
            Some(j) => j == "{\n  \"k\": "@.len() && has_lit_at(s, 0, "{\n  \"k\": "@),
            None => !has_lit_at(s, 0, "{\n  \"k\": "@),
        }),
        (r1 matches Some(j) ==> j1 == j),
        r2 == spec_parse_number(s, j1 as int),
        (r2 matches Some(p) ==> v1 == p.0 && j2 == p.1),
        (match r3 {
            Some(j) => j == j2 + ",\n  \"n_users\": "@.len() && has_lit_at(
                s,
                j2 as int,
                ",\n  \"n_users\": "@,
            ),
            None => !has_lit_at(s, j2 as int, ",\n  \"n_users\": "@),
        }),
        (r3 matches Some(j) ==> j3 == j),
        r4 == spec_parse_number(s, j3 as int),
        (r4 matches Some(p) ==> v2 == p.0 && j4 == p.1),
        (match r5 {
            Some(j) => j == j4 + ",\n  \"n_currencies\": "@.len() && has_lit_at(
                s,
                j4 as int,
                ",\n  \"n_currencies\": "@,
            ),
            None => !has_lit_at(s, j4 as int, ",\n  \"n_currencies\": "@),
        }),
        (r5 matches Some(j) ==> j5 == j),
        r6 == spec_parse_number(s, j5 as int),
        (r6 matches Some(p) ==> v3 == p.0 && j6 == p.1),
        (match r7 {
            Some(j) => j == j6 + ",\n  \"commitment_generation_time\": "@.len() && has_lit_at(
                s,
                j6 as int,
                ",\n  \"commitment_generation_time\": "@,
            ),
            None => !has_lit_at(s, j6 as int, ",\n  \"commitment_generation_time\": "@),
        }),
        (r7 matches Some(j) ==> j7 == j),
        r8 == spec_parse_number(s, j7 as int),
        (r8 matches Some(p) ==> v4 == p.0 && j8 == p.1),
        (match r9 {
            Some(j) => j == j8 + ",\n  \"inclusion_generation_time\": "@.len() && has_lit_at(
                s,
                j8 as int,
                ",\n  \"inclusion_generation_time\": "@,
            ),
            None => !has_lit_at(s, j8 as int, ",\n  \"inclusion_generation_time\": "@),
        }),
        (r9 matches Some(j) ==> j9 == j),
        r10 == spec_parse_number(s, j9 as int),
        (r10 matches Some(p) ==> v5 == p.0 && j10 == p.1),
        (match r11 {
            Some(j) => j == j10 + ",\n  \"time_unit\": \""@.len() && has_lit_at(
                s,
                j10 as int,
                ",\n  \"time_unit\": \""@,
            ),
            None => !has_lit_at(s, j10 as int, ",\n  \"time_unit\": \""@),
        }),
        (r11 matches Some(j) ==> j11 == j),
        (match r12 {
            Some(p) => crate::scan::quote_scan_ok(s, j11 as int, p.0@, p.1 as int),
            None => crate::scan::no_quote_from(s, j11 as int),
        }),
        (r12 matches Some(p) ==> tuv == p.0@ && j12 == p.1),
        (match r13 {
            Some(j) => j == j12 + "\"\n}"@.len() && has_lit_at(s, j12 as int, "\"\n}"@),
            None => !has_lit_at(s, j12 as int, "\"\n}"@),
        }),
        (r13 matches Some(j) ==> j13 == j),
    ensures
        forall|k: nat, nu: nat, nc: nat, ct: nat, iu: nat, tu: Seq<char>|
            canonical_json_of(s, k, nu, nc, ct, iu, tu) ==> (r1 is Some && r2 is Some && r3 is Some
                && r4 is Some && r5 is Some && r6 is Some && r7 is Some && r8 is Some && r9 is Some
                && r10 is Some && r11 is Some && r12 is Some && r13 is Some && v1 == k as u64 && v2
                == nu as u64 && v3 == nc as u64 && v4 == ct as u64 && v5 == iu as u64 && tuv == tu
                && j13 == s.len() && k <= u32::MAX && nu <= usize::MAX && nc <= usize::MAX && ct
                <= usize::MAX && iu <= usize::MAX),
{
    assert forall|k: nat, nu: nat, nc: nat, ct: nat, iu: nat, tu: Seq<char>|
        canonical_json_of(s, k, nu, nc, ct, iu, tu) implies (r1 is Some && r2 is Some && r3 is Some
        && r4 is Some && r5 is Some && r6 is Some && r7 is Some && r8 is Some && r9 is Some
        && r10 is Some && r11 is Some && r12 is Some && r13 is Some && v1 == k as u64 && v2
        == nu as u64 && v3 == nc as u64 && v4 == ct as u64 && v5 == iu as u64 && tuv == tu
        && j13 == s.len() && k <= u32::MAX && nu <= usize::MAX && nc <= usize::MAX && ct
        <= usize::MAX && iu <= usize::MAX) by {
        reveal(canonical_json_of);
        lemma_parse_pins(
            s,
            k,
            nu,
            nc,
            ct,
            iu,
            tu,
            r1,
            j1,
            r2,
            v1,
            j2,
            r3,
            j3,
            r4,
            v2,
            j4,
            r5,
            j5,
            r6,
            v3,
            j6,
            r7,
            j7,
            r8,
            v4,
            j8,
            r9,
            j9,
            r10,
            v5,
            j10,
            r11,
            j11,
            r12,
            tuv,
            j12,
            r13,
            j13,
        );
    }
}

/// From the facts the scanning steps establish on a text they fully
/// consumed, the record assembled from the read values is sound: the text is
/// a rendered record whose digit runs denote exactly its fields.
#[verifier::rlimit(100)]
proof fn lemma_parse_sound(
    s: Seq<char>,
    b: BenchmarkResult,
    r1: Option<usize>,
    j1: usize,
    r2: Option<(u64, usize)>,
    v1: u64,
    j2: usize,
    r3: Option<usize>,
    j3: usize,
    r4: Option<(u64, usize)>,
    v2: u64,
    j4: usize,
    r5: Option<usize>,
    j5: usize,
    r6: Option<(u64, usize)>,
    v3: u64,
    j6: usize,
    r7: Option<usize>,
    j7: usize,
    r8: Option<(u64, usize)>,
    v4: u64,
    j8: usize,
    r9: Option<usize>,
    j9: usize,
    r10: Option<(u64, usize)>,
    v5: u64,
    j10: usize,
    r11: Option<usize>,
    j11: usize,
    r12: Option<(String, usize)>,
    tuv: Seq<char>,
    j12: usize,
    r13: Option<usize>,
    j13: usize,
)
    requires
        s.len() <= usize::MAX,
        (match r1 {
            Some(j) => j == "{\n  \"k\": "@.len() && has_lit_at(s, 0, "{\n  \"k\": "@),
            None => !has_lit_at(s, 0, "{\n  \"k\": "@),
        }),
        (r1 matches Some(j) ==> j1 == j),
        r2 == spec_parse_number(s, j1 as int),
        (r2 matches Some(p) ==> v1 == p.0 && j2 == p.1),
        (match r3 {
            Some(j) => j == j2 + ",\n  \"n_users\": "@.len() && has_lit_at(
                s,
                j2 as int,
                ",\n  \"n_users\": "@,
            ),
            None => !has_lit_at(s, j2 as int, ",\n  \"n_users\": "@),
        }),
        (r3 matches Some(j) ==> j3 == j),
        r4 == spec_parse_number(s, j3 as int),
        (r4 matches Some(p) ==> v2 == p.0 && j4 == p.1),
        (match r5 {
            Some(j) => j == j4 + ",\n  \"n_currencies\": "@.len() && has_lit_at(
                s,
                j4 as int,
                ",\n  \"n_currencies\": "@,
            ),
            None => !has_lit_at(s, j4 as int, ",\n  \"n_currencies\": "@),
        }),
        (r5 matches Some(j) ==> j5 == j),
        r6 == spec_parse_number(s, j5 as int),
        (r6 matches Some(p) ==> v3 == p.0 && j6 == p.1),
        (match r7 {
            Some(j) => j == j6 + ",\n  \"commitment_generation_time\": "@.len() && has_lit_at(
                s,
                j6 as int,
                ",\n  \"commitment_generation_time\": "@,
            ),
            None => !has_lit_at(s, j6 as int, ",\n  \"commitment_generation_time\": "@),
        }),
        (r7 matches Some(j) ==> j7 == j),
        r8 == spec_parse_number(s, j7 as int),
        (r8 matches Some(p) ==> v4 == p.0 && j8 == p.1),
        (match r9 {
            Some(j) => j == j8 + ",\n  \"inclusion_generation_time\": "@.len() && has_lit_at(
                s,
                j8 as int,
                ",\n  \"inclusion_generation_time\": "@,
            ),
            None => !has_lit_at(s, j8 as int, ",\n  \"inclusion_generation_time\": "@),
        }),
        (r9 matches Some(j) ==> j9 == j),
        r10 == spec_parse_number(s, j9 as int),
        (r10 matches Some(p) ==> v5 == p.0 && j10 == p.1),
        (match r11 {
            Some(j) => j == j10 + ",\n  \"time_unit\": \""@.len() && has_lit_at(
                s,
                j10 as int,
                ",\n  \"time_unit\": \""@,
            ),
            None => !has_lit_at(s, j10 as int, ",\n  \"time_unit\": \""@),
        }),
        (r11 matches Some(j) ==> j11 == j),
        (match r12 {
            Some(p) => crate::scan::quote_scan_ok(s, j11 as int, p.0@, p.1 as int),
            None => crate::scan::no_quote_from(s, j11 as int),
        }),
        (r12 matches Some(p) ==> tuv == p.0@ && j12 == p.1),
        (match r13 {
            Some(j) => j == j12 + "\"\n}"@.len() && has_lit_at(s, j12 as int, "\"\n}"@),
            None => !has_lit_at(s, j12 as int, "\"\n}"@),
        }),
        (r13 matches Some(j) ==> j13 == j),
        r1 is Some,
        r2 is Some,
        r3 is Some,
        r4 is Some,
        r5 is Some,
        r6 is Some,
        r7 is Some,
        r8 is Some,
        r9 is Some,
        r10 is Some,
        r11 is Some,
        r12 is Some,
        r13 is Some,
        j13 == s.len(),
        v1 <= u32::MAX as u64,
        v2 <= usize::MAX as u64,
        v3 <= usize::MAX as u64,
        v4 <= usize::MAX as u64,
        v5 <= usize::MAX as u64,
        b.k == v1 as u32,
        b.n_users == v2 as usize,
        b.n_currencies == v3 as usize,
        b.commitment_generation_time == v4 as usize,
        b.inclusion_generation_time == v5 as usize,
        b.time_unit@ == tuv,
    ensures
        json_fields_with(
            s,
            b,
            s.subrange(j1 as int, j2 as int),
            s.subrange(j3 as int, j4 as int),
            s.subrange(j5 as int, j6 as int),
            s.subrange(j7 as int, j8 as int),
            s.subrange(j9 as int, j10 as int),
        ),
{
    reveal(json_fields_with);
    crate::digits::lemma_digit_run_end_props(s, j1 as int);
    crate::digits::lemma_digit_run_end_props(s, j3 as int);
    crate::digits::lemma_digit_run_end_props(s, j5 as int);
    crate::digits::lemma_digit_run_end_props(s, j7 as int);
    crate::digits::lemma_digit_run_end_props(s, j9 as int);
    let d1w = s.subrange(j1 as int, j2 as int);
    let d2w = s.subrange(j3 as int, j4 as int);
    let d3w = s.subrange(j5 as int, j6 as int);
    let d4w = s.subrange(j7 as int, j8 as int);
    let d5w = s.subrange(j9 as int, j10 as int);
    assert(j2 == crate::digits::digit_run_end(s, j1 as int) && j1 < j2 && v1 as nat
        == num_of_digits(d1w));
    assert(j4 == crate::digits::digit_run_end(s, j3 as int) && j3 < j4 && v2 as nat
        == num_of_digits(d2w));
    assert(j6 == crate::digits::digit_run_end(s, j5 as int) && j5 < j6 && v3 as nat
        == num_of_digits(d3w));
    assert(j8 == crate::digits::digit_run_end(s, j7 as int) && j7 < j8 && v4 as nat
        == num_of_digits(d4w));
    assert(j10 == crate::digits::digit_run_end(s, j9 as int) && j9 < j10 && v5 as nat
        == num_of_digits(d5w));
    assert forall|m: int| 0 <= m < d1w.len() implies is_dec_digit(d1w[m]) by {
        assert(d1w[m] == s[j1 + m]);
    }
    assert forall|m: int| 0 <= m < d2w.len() implies is_dec_digit(d2w[m]) by {
        assert(d2w[m] == s[j3 + m]);
    }
    assert forall|m: int| 0 <= m < d3w.len() implies is_dec_digit(d3w[m]) by {
        assert(d3w[m] == s[j5 + m]);
    }
    assert forall|m: int| 0 <= m < d4w.len() implies is_dec_digit(d4w[m]) by {
        assert(d4w[m] == s[j7 + m]);
    }
    assert forall|m: int| 0 <= m < d5w.len() implies is_dec_digit(d5w[m]) by {
        assert(d5w[m] == s[j9 + m]);
    }
    assert(b.time_unit@ == s.subrange(j11 as int, j12 as int));
    assert forall|m: int| 0 <= m < b.time_unit@.len() implies b.time_unit@[m] != '"' by {
        assert(b.time_unit@[m] == s[j11 + m]);
    }
    assert(s.subrange(0, j1 as int) == "{\n  \"k\": "@);
    assert(s.subrange(j2 as int, j3 as int) == ",\n  \"n_users\": "@);
    assert(s.subrange(j4 as int, j5 as int) == ",\n  \"n_currencies\": "@);
    assert(s.subrange(j6 as int, j7 as int) == ",\n  \"commitment_generation_time\": "@);
    assert(s.subrange(j8 as int, j9 as int) == ",\n  \"inclusion_generation_time\": "@);
    assert(s.subrange(j10 as int, j11 as int) == ",\n  \"time_unit\": \""@);
    assert(s.subrange(j12 as int, s.len() as int) == "\"\n}"@);
    lemma_assemble_json(
        s,
        j1 as int,
        j2 as int,
        j3 as int,
        j4 as int,
        j5 as int,
        j6 as int,
        j7 as int,
        j8 as int,
        j9 as int,
        j10 as int,
        j11 as int,
        j12 as int,
    );
    assert(json_fields_with(s, b, d1w, d2w, d3w, d4w, d5w));
}

/// A record with a faithful decomposition reads back.
proof fn lemma_reads_back_intro(
    s: Seq<char>,
    b: BenchmarkResult,
    d1: Seq<char>,
    d2: Seq<char>,
    d3: Seq<char>,
    d4: Seq<char>,
    d5: Seq<char>,
)
    requires
        json_fields_with(s, b, d1, d2, d3, d4, d5),
    ensures
        reads_back(s, Some(b)),
{
    reveal(reads_back);
    let r = Some(b);
    assert(r->Some_0 == b);
    assert(json_fields_with(s, r->Some_0, d1, d2, d3, d4, d5));
    assert(exists|x1: Seq<char>, x2: Seq<char>, x3: Seq<char>, x4: Seq<char>, x5: Seq<char>|
        #![trigger json_fields_with(s, r->Some_0, x1, x2, x3, x4, x5)]
        json_fields_with(s, r->Some_0, x1, x2, x3, x4, x5));
}

/// The record assembled from a fully consumed scan reads back: combined
/// soundness of the scanning steps.
proof fn lemma_parse_sound_reads(
    s: Seq<char>,
    b: BenchmarkResult,
    r1: Option<usize>,
    j1: usize,
    r2: Option<(u64, usize)>,
    v1: u64,
    j2: usize,
    r3: Option<usize>,
    j3: usize,
    r4: Option<(u64, usize)>,
    v2: u64,
    j4: usize,
    r5: Option<usize>,
    j5: usize,
    r6: Option<(u64, usize)>,
    v3: u64,
    j6: usize,
    r7: Option<usize>,
    j7: usize,
    r8: Option<(u64, usize)>,
    v4: u64,
    j8: usize,
    r9: Option<usize>,
    j9: usize,
    r10: Option<(u64, usize)>,
    v5: u64,
    j10: usize,
    r11: Option<usize>,
    j11: usize,
    r12: Option<(String, usize)>,
    tuv: Seq<char>,
    j12: usize,
    r13: Option<usize>,
    j13: usize,
)
    requires
        s.len() <= usize::MAX,
        (match r1 {
            Some(j) => j == "{\n  \"k\": "@.len() && has_lit_at(s, 0, "{\n  \"k\": "@),
            None => !has_lit_at(s, 0, "{\n  \"k\": "@),
        }),
        (r1 matches Some(j) ==> j1 == j),
        r2 == spec_parse_number(s, j1 as int),
        (r2 matches Some(p) ==> v1 == p.0 && j2 == p.1),
        (match r3 {
            Some(j) => j == j2 + ",\n  \"n_users\": "@.len() && has_lit_at(
                s,
                j2 as int,
                ",\n  \"n_users\": "@,
            ),
            None => !has_lit_at(s, j2 as int, ",\n  \"n_users\": "@),
        }),
        (r3 matches Some(j) ==> j3 == j),
        r4 == spec_parse_number(s, j3 as int),
        (r4 matches Some(p) ==> v2 == p.0 && j4 == p.1),
        (match r5 {
            Some(j) => j == j4 + ",\n  \"n_currencies\": "@.len() && has_lit_at(
                s,
                j4 as int,
                ",\n  \"n_currencies\": "@,
            ),
            None => !has_lit_at(s, j4 as int, ",\n  \"n_currencies\": "@),
        }),
        (r5 matches Some(j) ==> j5 == j),
        r6 == spec_parse_number(s, j5 as int),
        (r6 matches Some(p) ==> v3 == p.0 && j6 == p.1),
        (match r7 {
            Some(j) => j == j6 + ",\n  \"commitment_generation_time\": "@.len() && has_lit_at(
                s,
                j6 as int,
                ",\n  \"commitment_generation_time\": "@,
            ),
            None => !has_lit_at(s, j6 as int, ",\n  \"commitment_generation_time\": "@),
        }),
        (r7 matches Some(j) ==> j7 == j),
        r8 == spec_parse_number(s, j7 as int),
        (r8 matches Some(p) ==> v4 == p.0 && j8 == p.1),
        (match r9 {
            Some(j) => j == j8 + ",\n  \"inclusion_generation_time\": "@.len() && has_lit_at(
                s,
                j8 as int,
                ",\n  \"inclusion_generation_time\": "@,
            ),
            None => !has_lit_at(s, j8 as int, ",\n  \"inclusion_generation_time\": "@),
        }),
        (r9 matches Some(j) ==> j9 == j),
        r10 == spec_parse_number(s, j9 as int),
        (r10 matches Some(p) ==> v5 == p.0 && j10 == p.1),
        (match r11 {
            Some(j) => j == j10 + ",\n  \"time_unit\": \""@.len() && has_lit_at(
                s,
                j10 as int,
                ",\n  \"time_unit\": \""@,
            ),
            None => !has_lit_at(s, j10 as int, ",\n  \"time_unit\": \""@),
        }),
        (r11 matches Some(j) ==> j11 == j),
        (match r12 {
            Some(p) => crate::scan::quote_scan_ok(s, j11 as int, p.0@, p.1 as int),
            None => crate::scan::no_quote_from(s, j11 as int),
        }),
        (r12 matches Some(p) ==> tuv == p.0@ && j12 == p.1),
        (match r13 {
            Some(j) => j == j12 + "\"\n}"@.len() && has_lit_at(s, j12 as int, "\"\n}"@),
            None => !has_lit_at(s, j12 as int, "\"\n}"@),
        }),
        (r13 matches Some(j) ==> j13 == j),
        r1 is Some,
        r2 is Some,
        r3 is Some,
        r4 is Some,
        r5 is Some,
        r6 is Some,
        r7 is Some,
        r8 is Some,
        r9 is Some,
        r10 is Some,
        r11 is Some,
        r12 is Some,
        r13 is Some,
        j13 == s.len(),
        v1 <= u32::MAX as u64,
        v2 <= usize::MAX as u64,
        v3 <= usize::MAX as u64,
        v4 <= usize::MAX as u64,
        v5 <= usize::MAX as u64,
        b.k == v1 as u32,
        b.n_users == v2 as usize,
        b.n_currencies == v3 as usize,
        b.commitment_generation_time == v4 as usize,
        b.inclusion_generation_time == v5 as usize,
        b.time_unit@ == tuv,
    ensures
        reads_back(s, Some(b)),
{
    lemma_parse_sound(
        s, b, r1, j1, r2, v1, j2, r3, j3, r4, v2, j4, r5, j5, r6, v3, j6, r7, j7, r8, v4, j8,
        r9, j9, r10, v5, j10, r11, j11, r12, tuv, j12, r13, j13,
    );
    lemma_reads_back_intro(
        s,
        b,
        s.subrange(j1 as int, j2 as int),
        s.subrange(j3 as int, j4 as int),
        s.subrange(j5 as int, j6 as int),
        s.subrange(j7 as int, j8 as int),
        s.subrange(j9 as int, j10 as int),
    );
}

/// What reading yields is faithful: a read record came from a text of the
/// record shape whose digit runs denote exactly its fields.
#[verifier::opaque]
pub open spec fn reads_back(s: Seq<char>, r: Option<BenchmarkResult>) -> bool {
    r is Some ==> exists|
        d1: Seq<char>,
        d2: Seq<char>,
        d3: Seq<char>,
        d4: Seq<char>,
        d5: Seq<char>,
    |
        #![trigger json_fields_with(s, r->Some_0, d1, d2, d3, d4, d5)]
        json_fields_with(s, r->Some_0, d1, d2, d3, d4, d5)
}

/// Read a rendered record text back into its record. Reading inverts
/// rendering: on the canonical text of any in-range field values the result
/// holds exactly those values; and whatever is read back came from a text of
/// the record shape, its digit runs denoting the returned fields.
#[verifier::rlimit(100)]
pub fn parse_json(s: &str) -> (r: Option<BenchmarkResult>)
    ensures
        reads_back(s@, r),
        forall|k: nat, nu: nat, nc: nat, ct: nat, iu: nat, tu: Seq<char>|
            canonical_json_of(s@, k, nu, nc, ct, iu, tu) ==> (r matches Some(b) && b.k as nat == k
                && b.n_users as nat == nu && b.n_currencies as nat == nc
                && b.commitment_generation_time as nat == ct && b.inclusion_generation_time as nat
                == iu && b.time_unit@ == tu),
{
    let s_len = s.unicode_len();
    let r1 = expect_lit(s, 0, "{\n  \"k\": ");
    let j1 = match r1 {
        Some(j) => j,
        None => 0,
    };
    let r2 = parse_number(s, j1);
    let (v1, j2) = match r2 {
        Some(p) => p,
        None => (0u64, 0usize),
    };
    let r3 = expect_lit(s, j2, ",\n  \"n_users\": ");
    let j3 = match r3 {
        Some(j) => j,
        None => 0,
    };
    let r4 = parse_number(s, j3);
    let (v2, j4) = match r4 {
        Some(p) => p,
        None => (0u64, 0usize),
    };
    let r5 = expect_lit(s, j4, ",\n  \"n_currencies\": ");
    let j5 = match r5 {
        Some(j) => j,
        None => 0,
    };
    let r6 = parse_number(s, j5);
    let (v3, j6) = match r6 {
        Some(p) => p,
        None => (0u64, 0usize),
    };
    let r7 = expect_lit(s, j6, ",\n  \"commitment_generation_time\": ");
    let j7 = match r7 {
        Some(j) => j,
        None => 0,
    };
    let r8 = parse_number(s, j7);
    let (v4, j8) = match r8 {
        Some(p) => p,
        None => (0u64, 0usize),
    };
    let r9 = expect_lit(s, j8, ",\n  \"inclusion_generation_time\": ");
    let j9 = match r9 {
        Some(j) => j,
        None => 0,
    };
    let r10 = parse_number(s, j9);
    let (v5, j10) = match r10 {
        Some(p) => p,
        None => (0u64, 0usize),
    };
    let r11 = expect_lit(s, j10, ",\n  \"time_unit\": \"");
    let j11 = match r11 {
        Some(j) => j,
        None => 0,
    };
    let r12 = read_until_quote(s, j11);
    let ghost r12g = r12;
    let r12_none = r12.is_none();
    let (tu_str, j12) = match r12 {
        Some(p) => p,
        None => (String::new(), 0usize),
    };
    let r13 = expect_lit(s, j12, "\"\n}");
    let j13 = match r13 {
        Some(j) => j,
        None => 0,
    };
    proof {
        lemma_parse_outcome(
            s@,
            r1,
            j1,
            r2,
            v1,
            j2,
            r3,
            j3,
            r4,
            v2,
            j4,
            r5,
            j5,
            r6,
            v3,
            j6,
            r7,
            j7,
            r8,
            v4,
            j8,
            r9,
            j9,
            r10,
            v5,
            j10,
            r11,
            j11,
            r12g,
            tu_str@,
            j12,
            r13,
            j13,
        );
    }
    if r1.is_none() || r2.is_none() || r3.is_none() || r4.is_none() || r5.is_none() || r6.is_none()
        || r7.is_none() || r8.is_none() || r9.is_none() || r10.is_none() || r11.is_none()
        || r12_none || r13.is_none() || j13 != s_len || v1 > u32::MAX as u64 || v2
        > usize::MAX as u64 || v3 > usize::MAX as u64 || v4 > usize::MAX as u64 || v5
        > usize::MAX as u64 {
        proof {
            reveal(reads_back);
            assert forall|k: nat, nu: nat, nc: nat, ct: nat, iu: nat, tu: Seq<char>|
                !canonical_json_of(s@, k, nu, nc, ct, iu, tu) by {
                if canonical_json_of(s@, k, nu, nc, ct, iu, tu) {
                    assert(false);
                }
            }
        }
        return None;
    }
    let res = BenchmarkResult::new(
        v1 as u32,
        v2 as usize,
        v3 as usize,
        v4 as usize,
        v5 as usize,
        tu_str,
    );
    proof {
        lemma_parse_sound_reads(
            s@,
            res,
            r1,
            j1,
            r2,
            v1,
            j2,
            r3,
            j3,
            r4,
            v2,
            j4,
            r5,
            j5,
            r6,
            v3,
            j6,
            r7,
            j7,
            r8,
            v4,
            j8,
            r9,
            j9,
            r10,
            v5,
            j10,
            r11,
            j11,
            r12g,
            res.time_unit@,
            j12,
            r13,
            j13,
        );
        assert forall|k: nat, nu: nat, nc: nat, ct: nat, iu: nat, tu: Seq<char>|
            canonical_json_of(s@, k, nu, nc, ct, iu, tu) implies (res.k as nat == k
            && res.n_users as nat == nu && res.n_currencies as nat == nc
            && res.commitment_generation_time as nat == ct && res.inclusion_generation_time as nat
            == iu && res.time_unit@ == tu) by {
        }
    }
    Some(res)
}

/// Law: rendering then reading restores the record. The rendered text of
/// any record whose time-unit label holds no double quote is the canonical
/// text of exactly that record's field values, so by the reading contract,
/// `parse_json` on `to_json`'s output returns a record with identical
/// fields.
pub proof fn lemma_render_read_round_trip(b: BenchmarkResult)
    requires
        quote_free(b.time_unit@),
    ensures
        canonical_json_of(
            spec_json(b),
            b.k as nat,
            b.n_users as nat,
            b.n_currencies as nat,
            b.commitment_generation_time as nat,
            b.inclusion_generation_time as nat,
            b.time_unit@,
        ),
{
    reveal(canonical_json_of);
}

} // verus!
