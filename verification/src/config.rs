//! The run configuration: the environment-supplied parameters gathered into
//! one value, validated eagerly at construction, with the population size
//! derived from the circuit depth before any proving work starts.

use vstd::prelude::*;

use crate::error::BenchError;

verus! {

/// A run's parameters: the security parameter `k`, the circuit depth in
/// levels, the tracked asset count, the byte width of balances, and the
/// offset subtracted from the full capacity of the depth — some backend
/// shapes reserve a few rows. The population size is derived, never set.
#[derive(Debug)]
pub struct BenchConfig {
    pub k: u32,
    pub levels: u32,
    pub n_currencies: usize,
    pub n_bytes: usize,
    pub user_offset: usize,
    pub n_users: usize,
}

/// The population size a depth and offset determine: the capacity of
/// `levels` levels, minus the reserved rows.
pub open spec fn spec_n_users(levels: u32, user_offset: usize) -> int {
    (1u64 << levels) - user_offset
}

/// Parameters a configuration can be built from: a positive asset count, a
/// depth inside the machine word, and a derived population size that is
/// positive and fits the machine.
pub open spec fn config_params_valid(
    k: u32,
    levels: u32,
    n_currencies: usize,
    n_bytes: usize,
    user_offset: usize,
) -> bool {
    &&& n_currencies > 0
    &&& levels < 64
    &&& (user_offset as u64) < (1u64 << levels)
    &&& spec_n_users(levels, user_offset) <= usize::MAX as int
}

/// `c` is the configuration that these parameters determine.
pub open spec fn config_derived_from(
    c: BenchConfig,
    k: u32,
    levels: u32,
    n_currencies: usize,
    n_bytes: usize,
    user_offset: usize,
) -> bool {
    &&& c.k == k
    &&& c.levels == levels
    &&& c.n_currencies == n_currencies
    &&& c.n_bytes == n_bytes
    &&& c.user_offset == user_offset
    &&& c.n_users as int == spec_n_users(levels, user_offset)
}

impl BenchConfig {
    /// Gather and validate the run parameters, deriving the population size
    /// from the depth and offset. Fails with `InvalidConfiguration` exactly
    /// when the parameters are invalid.
    pub fn new(
        k: u32,
        levels: u32,
        n_currencies: usize,
        n_bytes: usize,
        user_offset: usize,
    ) -> (r: Result<BenchConfig, BenchError>)
        ensures
            match r {
                Ok(c) => config_params_valid(k, levels, n_currencies, n_bytes, user_offset)
                    && config_derived_from(c, k, levels, n_currencies, n_bytes, user_offset),
                Err(e) => e == BenchError::InvalidConfiguration && !config_params_valid(
                    k,
                    levels,
                    n_currencies,
                    n_bytes,
                    user_offset,
                ),
            },
    {
        if n_currencies == 0 {
            return Err(BenchError::InvalidConfiguration);
        }
        if levels >= 64 {
            return Err(BenchError::InvalidConfiguration);
        }
        let capacity: u64 = 1u64 << levels;
        if user_offset as u64 >= capacity {
            return Err(BenchError::InvalidConfiguration);
        }
        let derived: u64 = capacity - user_offset as u64;
        if derived > usize::MAX as u64 {
            return Err(BenchError::InvalidConfiguration);
        }
        Ok(
            BenchConfig {
                k,
                levels,
                n_currencies,
                n_bytes,
                user_offset,
                n_users: derived as usize,
            },
        )
    }
}

/// Law: configuration derivation is deterministic — identical parameters
/// always yield identical derived configurations, population size included.
pub proof fn lemma_config_derivation_deterministic(
    a: BenchConfig,
    b: BenchConfig,
    k: u32,
    levels: u32,
    n_currencies: usize,
    n_bytes: usize,
    user_offset: usize,
)
    requires
        config_derived_from(a, k, levels, n_currencies, n_bytes, user_offset),
        config_derived_from(b, k, levels, n_currencies, n_bytes, user_offset),
    ensures
        a == b,
{
}

} // verus!
