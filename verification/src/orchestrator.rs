use vstd::prelude::*;

use crate::db::QueryOutcome;
use crate::db::add_coordinate;
use crate::db::outcome_result;
use crate::errors::HttpReply;
use crate::errors::MyError;
use crate::models::Coordinate;
use crate::models::is_sample_records;
use crate::models::records_for_samples;
use crate::models::sample_record_ok;

verus! {

/// The fixed interval every invocation waits before doing any work. The
/// wait is paid per request; there is no background ticker.
pub const WAIT_MILLIS: u64 = 10000;

/// The outside work the orchestrator asks its driver to perform next.
#[derive(Clone, Copy, PartialEq, Eq, Structural, Debug)]
pub enum Action {
    Wait,
    Generate,
    Acquire,
    Insert,
    RespondFile,
    RespondError,
}

/// Where one invocation stands: waiting out the interval, generating the
/// samples, acquiring a pooled connection for the next pair, inserting the
/// next record, finished, or aborted with a classified failure.
pub enum Phase {
    Waiting,
    Generating,
    Acquiring,
    Inserting,
    Responded,
    Failed(MyError),
}

/// One invocation of the pipeline: wait, generate, then for each sample
/// pair acquire a pooled connection and insert the x record then the y
/// record; any failure aborts the rest; otherwise a fixed static response
/// ends the invocation.
pub struct Orchestrator {
    pub records: Vec<Coordinate>,
    pub pos: usize,
    pub phase: Phase,
}

impl Orchestrator {
    /// Every record is well formed, the position stays inside the record
    /// sequence, records come in whole pairs, and the phase agrees with the
    /// position: connections are acquired only at a pair boundary.
    pub open spec fn wf(self) -> bool {
        &&& self.pos <= self.records@.len()
        &&& self.records@.len() % 2 == 0
        &&& forall|j: int| 0 <= j < self.records@.len() ==> (#[trigger] self.records@[j]).wf()
        &&& match self.phase {
            Phase::Waiting | Phase::Generating => self.records@.len() == 0 && self.pos == 0,
            Phase::Acquiring => self.pos % 2 == 0 && self.pos < self.records@.len(),
            Phase::Inserting => self.pos < self.records@.len(),
            _ => true,
        }
    }

    /// The invocation still has insert work ahead of it.
    pub open spec fn active(self) -> bool {
        self.phase is Acquiring || self.phase is Inserting
    }

    /// A fresh invocation: its first obligation is to wait out the interval.
    pub fn new() -> (o: Orchestrator)
        ensures
            o.wf(),
            o.phase is Waiting,
    {
        Orchestrator { records: Vec::new(), pos: 0, phase: Phase::Waiting }
    }

    /// The interval has elapsed: the samples are generated next.
    pub fn wait_elapsed(&mut self) -> (a: Action)
        requires
            old(self).wf(),
            old(self).phase is Waiting,
        ensures
            final(self).wf(),
            final(self).phase is Generating,
            a == Action::Generate,
    {
        self.phase = Phase::Generating;
        Action::Generate
    }

    /// The truncated samples are in: they are flattened into their record
    /// sequence, and a connection is acquired for the first pair, or the
    /// static response is served at once when there is nothing to persist.
    pub fn samples_ready(&mut self, ys: &Vec<i16>) -> (a: Action)
        requires
            old(self).wf(),
            old(self).phase is Generating,
            ys@.len() <= 0x7fff,
        ensures
            final(self).wf(),
            is_sample_records(ys@, final(self).records@),
            final(self).pos == 0,
            ys@.len() == 0 ==> final(self).phase is Responded && a == Action::RespondFile,
            ys@.len() > 0 ==> final(self).phase is Acquiring && a == Action::Acquire,
    {
        self.records = records_for_samples(ys);
        self.pos = 0;
        proof {
            assert forall|j: int| 0 <= j < self.records@.len() implies (#[trigger] self.records@[
            j]).wf() by {
                assert(sample_record_ok(ys@, self.records@, j));
            }
        }
        if self.records.len() == 0 {
            self.phase = Phase::Responded;
            Action::RespondFile
        } else {
            self.phase = Phase::Acquiring;
            Action::Acquire
        }
    }

    /// A pooled connection is checked out: the pair's next record is
    /// inserted on it.
    pub fn pool_ready(&mut self) -> (a: Action)
        requires
            old(self).wf(),
            old(self).phase is Acquiring,
        ensures
            final(self).wf(),
            final(self).phase is Inserting,
            final(self).records == old(self).records,
            final(self).pos == old(self).pos,
            a == Action::Insert,
    {
        self.phase = Phase::Inserting;
        Action::Insert
    }

    /// Law: a pool-acquisition failure surfaces as exactly that failure
    /// kind and aborts the invocation's remaining inserts: the orchestrator
    /// leaves the active phases for good, and only the failure response is
    /// left to serve.
    pub fn pool_failed(
        &mut self,
        e: deadpool::managed::PoolError<tokio_postgres::Error>,
    ) -> (a: Action)
        requires
            old(self).wf(),
            old(self).phase is Acquiring,
        ensures
            final(self).wf(),
            final(self).phase == Phase::Failed(MyError::PoolError(e)),
            !final(self).active(),
            a == Action::RespondError,
    {
        self.phase = Phase::Failed(MyError::PoolError(e));
        Action::RespondError
    }

    /// The record the driver must insert next.
    pub fn current_record(&self) -> (r: &Coordinate)
        requires
            self.wf(),
            self.phase is Inserting,
        ensures
            r == self.records@[self.pos as int],
            r.wf(),
    {
        &self.records[self.pos]
    }

    /// One insert came back: its outcome is classified, a failure aborts
    /// the invocation, and otherwise the next record of the pair is
    /// inserted, the next pair's connection is acquired, or the static
    /// response ends the invocation. The returned record itself is not
    /// consulted further.
    pub fn insert_done(&mut self, outcome: QueryOutcome) -> (a: Action)
        requires
            old(self).wf(),
            old(self).phase is Inserting,
        ensures
            final(self).wf(),
            final(self).records == old(self).records,
            match outcome_result(outcome) {
                Result::Err(e) => {
                    &&& final(self).phase == Phase::Failed(e)
                    &&& !final(self).active()
                    &&& final(self).pos == old(self).pos
                    &&& a == Action::RespondError
                },
                Result::Ok(_) => {
                    &&& final(self).pos == old(self).pos + 1
                    &&& if old(self).pos + 1 == old(self).records@.len() {
                        final(self).phase is Responded && a == Action::RespondFile
                    } else if (old(self).pos + 1) % 2 == 0 {
                        final(self).phase is Acquiring && a == Action::Acquire
                    } else {
                        final(self).phase is Inserting && a == Action::Insert
                    }
                },
            },
    {
        match add_coordinate(outcome) {
            Err(e) => {
                self.phase = Phase::Failed(e);
                Action::RespondError
            },
            Ok(_) => {
                let len = self.records.len();
                self.pos = self.pos + 1;
                if self.pos == len {
                    self.phase = Phase::Responded;
                    Action::RespondFile
                } else if self.pos % 2 == 0 {
                    self.phase = Phase::Acquiring;
                    Action::Acquire
                } else {
                    self.phase = Phase::Inserting;
                    Action::Insert
                }
            },
        }
    }

    /// The caller-visible outcome of an aborted invocation, by the failure
    /// taxonomy's total mapping.
    pub fn reply(&self) -> (r: HttpReply)
        requires
            self.wf(),
            self.phase is Failed,
        ensures
            r.status == self.phase->Failed_0.response_status(),
            !self.phase->Failed_0.exposes_detail() ==> r.body@ == Seq::<char>::empty(),
    {
        match &self.phase {
            Phase::Failed(e) => e.error_response(),
            _ => vstd::pervasive::unreached(),
        }
    }
}

} // verus!
