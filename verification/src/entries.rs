//! The entry synthesizer: a population of account records with random
//! identifiers and random balances, every balance inside the configured
//! bounded range. Randomness comes from the generator owned by the calling
//! thread, so no generator state is ever shared.

use vstd::prelude::*;

use crate::error::BenchError;

use rand::Rng;

verus! {

/// The fixed length of a synthetic account identifier, in characters.
pub const USERNAME_LEN: usize = 10;

/// The inclusive lower bound of a synthetic balance.
pub const MIN_BALANCE: u64 = 1000;

/// The exclusive upper bound of a synthetic balance.
pub const MAX_BALANCE: u64 = 90000;

/// An ASCII letter or digit: the identifier alphabet.
pub open spec fn is_alphanumeric_char(c: char) -> bool {
    ('0' <= c && c <= '9') || ('a' <= c && c <= 'z') || ('A' <= c && c <= 'Z')
}

/// One synthetic account record: a fixed-length identifier and one balance
/// per tracked asset type. Immutable once the population is synthesized.
#[derive(Debug)]
pub struct Entry {
    pub username: String,
    pub balances: Vec<u64>,
}

/// A well-formed entry for a population tracking `n_currencies` asset
/// types: the identifier has its fixed length and alphabet, and every
/// balance lies inside the configured range.
pub open spec fn entry_wf(e: Entry, n_currencies: int) -> bool {
    &&& e.username@.len() == USERNAME_LEN as int
    &&& (forall|i: int|
        0 <= i < e.username@.len() ==> is_alphanumeric_char(#[trigger] e.username@[i]))
    &&& e.balances@.len() == n_currencies
    &&& (forall|i: int|
        0 <= i < e.balances@.len() ==> MIN_BALANCE <= #[trigger] e.balances@[i] < MAX_BALANCE)
}

/// Relies on rand's thread-local generator and `Rng::gen_range` on an
/// integer range: the value drawn lies in `[lo, hi)`; the call panics only
/// on an empty range, which the precondition excludes.
#[verifier::external_body]
fn random_u64_in(lo: u64, hi: u64) -> (r: u64)
    requires
        lo < hi,
    ensures
        lo <= r < hi,
{
    rand::thread_rng().gen_range(lo..hi)
}

/// Relies on rand's `Alphanumeric` distribution: every sample is an ASCII
/// letter or digit.
#[verifier::external_body]
fn random_alphanumeric_char() -> (r: char)
    ensures
        is_alphanumeric_char(r),
{
    rand::thread_rng().sample(rand::distributions::Alphanumeric) as char
}

/// Relies on `String`'s `FromIterator` over `char`: the string holds exactly
/// the given characters.
#[verifier::external_body]
fn string_from_chars(cs: &Vec<char>) -> (r: String)
    ensures
        r@ == cs@,
{
    cs.iter().copied().collect()
}

/// Synthesize a population of `n_users` entries, each with `n_currencies`
/// random balances in the configured range and a random identifier of the
/// fixed length. Fails with `InvalidConfiguration` exactly when the asset
/// count is zero.
pub fn generate_dummy_entries(n_users: usize, n_currencies: usize) -> (r: Result<
    Vec<Entry>,
    BenchError,
>)
    ensures
        match r {
            Ok(v) => n_currencies > 0 && v@.len() == n_users && (forall|i: int|
                0 <= i < v@.len() ==> entry_wf(#[trigger] v@[i], n_currencies as int)),
            Err(e) => e == BenchError::InvalidConfiguration && n_currencies == 0,
        },
{
    if n_currencies == 0 {
        return Err(BenchError::InvalidConfiguration);
    }
    let mut entries: Vec<Entry> = Vec::new();
    let mut i: usize = 0;
    while i < n_users
        invariant
            i <= n_users,
            n_currencies > 0,
            entries@.len() == i,
            forall|p: int|
                0 <= p < entries@.len() ==> entry_wf(#[trigger] entries@[p], n_currencies as int),
        decreases n_users - i,
    {
        let mut chars: Vec<char> = Vec::new();
        let mut c: usize = 0;
        while c < USERNAME_LEN
            invariant
                c <= USERNAME_LEN,
                chars@.len() == c,
                forall|q: int| 0 <= q < chars@.len() ==> is_alphanumeric_char(#[trigger] chars@[q]),
            decreases USERNAME_LEN - c,
        {
            chars.push(random_alphanumeric_char());
            c = c + 1;
        }
        let username = string_from_chars(&chars);
        let mut balances: Vec<u64> = Vec::new();
        let mut b: usize = 0;
        while b < n_currencies
            invariant
                b <= n_currencies,
                balances@.len() == b,
                forall|q: int|
                    0 <= q < balances@.len() ==> MIN_BALANCE <= #[trigger] balances@[q]
                        < MAX_BALANCE,
            decreases n_currencies - b,
        {
            balances.push(random_u64_in(MIN_BALANCE, MAX_BALANCE));
            b = b + 1;
        }
        let e = Entry { username, balances };
        proof {
            assert(entry_wf(e, n_currencies as int));
        }
        entries.push(e);
        i = i + 1;
    }
    Ok(entries)
}

} // verus!
