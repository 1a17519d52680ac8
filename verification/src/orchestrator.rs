//! The benchmark orchestrator: a strictly sequential state machine over the
//! run's phases, recording the population, the subject, and the two isolated
//! timing windows — one around the commitment phase, one around the
//! inclusion phase — both measured after the untimed setup.

use vstd::prelude::*;

use crate::entries::Entry;
use crate::error::BenchError;
use crate::recorder::BenchmarkResult;

verus! {

/// The phases of one run, in their fixed order. No phase is retried: a
/// backend error is terminal for the run.
#[derive(Clone, Copy, Debug, PartialEq, Eq, Structural)]
pub enum Phase {
    Idle,
    EntriesReady,
    CircuitReady,
    Committed,
    Included,
    Done,
}

/// The position of a phase in the run's order.
pub open spec fn phase_index(p: Phase) -> int {
    match p {
        Phase::Idle => 0,
        Phase::EntriesReady => 1,
        Phase::CircuitReady => 2,
        Phase::Committed => 3,
        Phase::Included => 4,
        Phase::Done => 5,
    }
}

/// One run's orchestration state. Timestamps are milliseconds read from a
/// monotone clock by the caller that drives the run.
#[derive(Debug)]
pub struct BenchmarkRun {
    pub phase: Phase,
    pub k: u32,
    pub n_users: usize,
    pub n_currencies: usize,
    pub population: usize,
    pub setup_end: usize,
    pub commit_start: usize,
    pub commit_end: usize,
    pub subject_index: usize,
    pub incl_start: usize,
    pub incl_end: usize,
}

/// The run invariant: once a phase is reached, the facts it recorded hold —
/// the population matches the configuration, the commitment window opens
/// after setup ends, and the inclusion window opens after the commitment
/// window closes on a subject inside the population.
pub open spec fn run_wf(r: BenchmarkRun) -> bool {
    &&& (phase_index(r.phase) >= 1 ==> r.population == r.n_users && r.population > 0)
    &&& (phase_index(r.phase) >= 3 ==> r.setup_end <= r.commit_start <= r.commit_end)
    &&& (phase_index(r.phase) >= 4 ==> r.commit_end <= r.incl_start <= r.incl_end
        && r.subject_index < r.population)
}

impl BenchmarkRun {
    /// A fresh run in the idle phase, for the given configuration.
    pub fn new(k: u32, n_users: usize, n_currencies: usize) -> (r: Self)
        ensures
            r.phase == Phase::Idle,
            r.k == k,
            r.n_users == n_users,
            r.n_currencies == n_currencies,
            run_wf(r),
    {
        BenchmarkRun {
            phase: Phase::Idle,
            k,
            n_users,
            n_currencies,
            population: 0,
            setup_end: 0,
            commit_start: 0,
            commit_end: 0,
            subject_index: 0,
            incl_start: 0,
            incl_end: 0,
        }
    }

    /// Record the synthesized population. Fails with `InvalidConfiguration`
    /// exactly when the population is empty or does not match the configured
    /// size; a failed run keeps its state.
    pub fn entries_ready(&mut self, entries: &Vec<Entry>) -> (r: Result<(), BenchError>)
        requires
            old(self).phase == Phase::Idle,
            run_wf(*old(self)),
        ensures
            match r {
                Ok(()) => entries@.len() == old(self).n_users && entries@.len() > 0 && *final(self)
                    == (BenchmarkRun {
                    phase: Phase::EntriesReady,
                    population: entries@.len() as usize,
                    ..*old(self)
                }),
                Err(e) => e == BenchError::InvalidConfiguration && (entries@.len() != old(
                    self,
                ).n_users || entries@.len() == 0) && *final(self) == *old(self),
            },
            run_wf(*final(self)),
    {
        if entries.len() != self.n_users || entries.len() == 0 {
            return Err(BenchError::InvalidConfiguration);
        }
        self.population = entries.len();
        self.phase = Phase::EntriesReady;
        Ok(())
    }

    /// Record that the untimed circuit construction and setup finished at
    /// `t`.
    pub fn setup_done(&mut self, t: usize)
        requires
            old(self).phase == Phase::EntriesReady,
            run_wf(*old(self)),
        ensures
            *final(self) == (BenchmarkRun { phase: Phase::CircuitReady, setup_end: t, ..*old(self) }),
            run_wf(*final(self)),
    {
        self.setup_end = t;
        self.phase = Phase::CircuitReady;
    }

    /// Record the commitment phase's timing window. The window must open
    /// after setup ended and close after it opened.
    pub fn commitment_proved(&mut self, t_start: usize, t_end: usize)
        requires
            old(self).phase == Phase::CircuitReady,
            run_wf(*old(self)),
            old(self).setup_end <= t_start,
            t_start <= t_end,
        ensures
            *final(self) == (BenchmarkRun {
                phase: Phase::Committed,
                commit_start: t_start,
                commit_end: t_end,
                ..*old(self)
            }),
            run_wf(*final(self)),
    {
        self.commit_start = t_start;
        self.commit_end = t_end;
        self.phase = Phase::Committed;
    }

    /// Record the inclusion phase: the chosen subject and its timing window,
    /// which must open after the commitment window closed. Fails with
    /// `InvalidSubject` exactly when the subject lies outside the
    /// population; a failed run keeps its state.
    pub fn inclusion_proved(&mut self, subject_index: usize, t_start: usize, t_end: usize) -> (r:
        Result<(), BenchError>)
        requires
            old(self).phase == Phase::Committed,
            run_wf(*old(self)),
            old(self).commit_end <= t_start,
            t_start <= t_end,
        ensures
            match r {
                Ok(()) => subject_index < old(self).population && *final(self) == (BenchmarkRun {
                    phase: Phase::Included,
                    subject_index,
                    incl_start: t_start,
                    incl_end: t_end,
                    ..*old(self)
                }),
                Err(e) => e == BenchError::InvalidSubject && subject_index >= old(self).population
                    && *final(self) == *old(self),
            },
            run_wf(*final(self)),
    {
        if subject_index >= self.population {
            return Err(BenchError::InvalidSubject);
        }
        self.subject_index = subject_index;
        self.incl_start = t_start;
        self.incl_end = t_end;
        self.phase = Phase::Included;
        Ok(())
    }

    /// Close the run and assemble its normalized result: the configuration
    /// and the two isolated durations, each the width of its window.
    pub fn finish(&mut self, time_unit: String) -> (r: BenchmarkResult)
        requires
            old(self).phase == Phase::Included,
            run_wf(*old(self)),
        ensures
            *final(self) == (BenchmarkRun { phase: Phase::Done, ..*old(self) }),
            run_wf(*final(self)),
            r.k == old(self).k,
            r.n_users == old(self).n_users,
            r.n_currencies == old(self).n_currencies,
            r.commitment_generation_time == old(self).commit_end - old(self).commit_start,
            r.inclusion_generation_time == old(self).incl_end - old(self).incl_start,
            r.time_unit@ == time_unit@,
    {
        self.phase = Phase::Done;
        BenchmarkResult::new(
            self.k,
            self.n_users,
            self.n_currencies,
            self.commit_end - self.commit_start,
            self.incl_end - self.incl_start,
            time_unit,
        )
    }
}

/// Law: the timers are isolated — in any well-formed run that has entered
/// the inclusion phase, setup ends before the commitment window opens and
/// the commitment window closes before the inclusion window opens, so the
/// two measured windows never overlap and neither contains the untimed
/// setup phase.
pub proof fn lemma_timer_windows_isolated(r: BenchmarkRun)
    requires
        run_wf(r),
        phase_index(r.phase) >= 4,
    ensures
        r.setup_end <= r.commit_start,
        r.commit_start <= r.commit_end,
        r.commit_end <= r.incl_start,
        r.incl_start <= r.incl_end,
{
}

} // verus!
