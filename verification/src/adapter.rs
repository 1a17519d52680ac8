//! The backend adapter: one proving backend behind the uniform phase
//! sequence — bind the population to the circuit's fixed shape, seal the
//! commitment the external prover produced, and open it for one subject.
//! The cryptographic proving itself is the external backend's work; what is
//! verified here is the phase bookkeeping: the capacity check, the subject
//! check, and that the disclosed data is exactly the subject's record.

use vstd::prelude::*;

use crate::entries::Entry;
use crate::error::BenchError;

verus! {

/// One proving backend behind the uniform interface: its circuit's capacity
/// and asset count are fixed when the adapter is made.
#[derive(Debug)]
pub struct BackendAdapter {
    pub capacity: usize,
    pub n_currencies: usize,
}

/// A circuit: the population bound to the backend's fixed shape, ready for
/// setup and commitment proving.
#[derive(Debug)]
pub struct Circuit {
    pub entries: Vec<Entry>,
    pub n_currencies: usize,
}

/// The output of the commitment phase: the population together with the
/// proof bytes the external backend produced over it, consumed by exactly
/// the inclusion phase of the same run.
#[derive(Debug)]
pub struct CommitmentArtifact {
    pub entries: Vec<Entry>,
    pub proof_bytes: Vec<u8>,
}

/// What an inclusion proof attests: the chosen subject's index, identifier
/// and balances, consistent with the committed population.
#[derive(Debug)]
pub struct InclusionClaim {
    pub subject_index: usize,
    pub username: String,
    pub balances: Vec<u64>,
}

impl BackendAdapter {
    /// An adapter for a backend whose circuit holds exactly `capacity`
    /// entries of `n_currencies` balances each.
    pub fn new(capacity: usize, n_currencies: usize) -> (r: Self)
        ensures
            r.capacity == capacity,
            r.n_currencies == n_currencies,
    {
        BackendAdapter { capacity, n_currencies }
    }

    /// Bind a population to the circuit. Fails with `InvalidConfiguration`
    /// exactly when the population size does not match the circuit's fixed
    /// capacity.
    pub fn init(&self, entries: Vec<Entry>) -> (r: Result<Circuit, BenchError>)
        ensures
            match r {
                Ok(c) => entries@.len() == self.capacity && c.entries@ == entries@
                    && c.n_currencies == self.n_currencies,
                Err(e) => e == BenchError::InvalidConfiguration && entries@.len()
                    != self.capacity,
            },
    {
        if entries.len() != self.capacity {
            return Err(BenchError::InvalidConfiguration);
        }
        Ok(Circuit { entries, n_currencies: self.n_currencies })
    }

    /// Seal the commitment phase: pair the circuit's population with the
    /// proof bytes the external backend produced over it.
    pub fn seal_commitment(&self, circuit: Circuit, proof_bytes: Vec<u8>) -> (r: CommitmentArtifact)
        ensures
            r.entries@ == circuit.entries@,
            r.proof_bytes@ == proof_bytes@,
    {
        CommitmentArtifact { entries: circuit.entries, proof_bytes }
    }

    /// Open the commitment at one subject. Fails with `InvalidSubject`
    /// exactly when the index lies outside the population, and succeeds for
    /// every index within it; the claim discloses exactly the subject's
    /// identifier and balances.
    pub fn prove_inclusion(&self, artifact: &CommitmentArtifact, subject_index: usize) -> (r:
        Result<InclusionClaim, BenchError>)
        ensures
            match r {
                Ok(c) => subject_index < artifact.entries@.len() && c.subject_index
                    == subject_index && c.username@ == artifact.entries@[subject_index as int].username@
                    && c.balances@ == artifact.entries@[subject_index as int].balances@,
                Err(e) => e == BenchError::InvalidSubject && subject_index
                    >= artifact.entries@.len(),
            },
    {
        if subject_index >= artifact.entries.len() {
            return Err(BenchError::InvalidSubject);
        }
        let e = &artifact.entries[subject_index];
        let mut balances: Vec<u64> = Vec::new();
        let mut i: usize = 0;
        while i < e.balances.len()
            invariant
                i <= e.balances@.len(),
                balances@ =~= e.balances@.subrange(0, i as int),
            decreases e.balances@.len() - i,
        {
            balances.push(e.balances[i]);
            i = i + 1;
        }
        proof {
            assert(balances@ =~= e.balances@);
        }
        Ok(InclusionClaim { subject_index, username: e.username.clone(), balances })
    }
}

} // verus!
