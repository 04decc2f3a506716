use vstd::prelude::*;

verus! {

/// What to do next with the transaction of an update.
#[derive(Debug, Clone, Copy, PartialEq, Eq, Structural)]
pub enum TxStep {
    /// Run the statement of the plan at this index.
    Execute(usize),
    /// Every statement succeeded: make the changes permanent.
    Commit,
    /// A statement failed: discard every change of the transaction.
    Rollback,
}

/// Progress of one update's transaction through its plan of statements.
#[derive(Debug, Clone, Copy, PartialEq, Eq, Structural)]
pub struct UpdateSession {
    pub planned: usize,
    pub succeeded: usize,
    pub failed: bool,
}

pub open spec fn spec_step(planned: nat, succeeded: nat, failed: bool) -> TxStep {
    if failed {
        TxStep::Rollback
    } else if succeeded < planned {
        TxStep::Execute(succeeded as usize)
    } else {
        TxStep::Commit
    }
}

/// The state after the outcome of the statement that was run.
pub open spec fn spec_record(planned: nat, succeeded: nat, failed: bool, ok: bool) -> (nat, bool) {
    if failed || succeeded >= planned {
        (succeeded, failed)
    } else if ok {
        (succeeded + 1, false)
    } else {
        (succeeded, true)
    }
}

/// The state after the outcomes of the statements run, in order, from the start.
pub open spec fn drive(planned: nat, outcomes: Seq<bool>) -> (nat, bool)
    decreases outcomes.len(),
{
    if outcomes.len() == 0 {
        (0, false)
    } else {
        let (s, f) = drive(planned, outcomes.drop_last());
        spec_record(planned, s, f, outcomes.last())
    }
}

impl UpdateSession {
    pub open spec fn wf(&self) -> bool {
        self.succeeded <= self.planned
    }

    /// A transaction over a plan of `planned` statements, none run yet.
    pub fn new(planned: usize) -> (r: UpdateSession)
        ensures
            r.wf(),
            r.planned == planned,
            r.succeeded == 0,
            !r.failed,
    {
        UpdateSession { planned, succeeded: 0, failed: false }
    }

    pub fn next_step(&self) -> (r: TxStep)
        requires
            self.wf(),
        ensures
            r == spec_step(self.planned as nat, self.succeeded as nat, self.failed),
    {
        if self.failed {
            TxStep::Rollback
        } else if self.succeeded < self.planned {
            TxStep::Execute(self.succeeded)
        } else {
            TxStep::Commit
        }
    }

    /// Records whether the statement that `next_step` named succeeded.
    pub fn record(&mut self, ok: bool)
        requires
            old(self).wf(),
        ensures
            final(self).wf(),
            final(self).planned == old(self).planned,
            (final(self).succeeded as nat, final(self).failed) == spec_record(
                old(self).planned as nat,
                old(self).succeeded as nat,
                old(self).failed,
                ok,
            ),
    {
        if self.failed || self.succeeded >= self.planned {
        } else if ok {
            self.succeeded = self.succeeded + 1;
        } else {
            self.failed = true;
        }
    }
}

proof fn lemma_drive(planned: nat, outcomes: Seq<bool>)
    ensures
        ({
            let (s, f) = drive(planned, outcomes);
            &&& s <= planned
            &&& s <= outcomes.len()
            &&& forall|i: int| 0 <= i < s ==> #[trigger] outcomes[i]
            &&& !f ==> s == (if outcomes.len() < planned { outcomes.len() } else { planned })
            &&& f ==> s < planned && s < outcomes.len() && !outcomes[s as int]
        }),
    decreases outcomes.len(),
{
    if outcomes.len() > 0 {
        lemma_drive(planned, outcomes.drop_last());
        let (s, f) = drive(planned, outcomes.drop_last());
        assert forall|i: int| 0 <= i < s implies #[trigger] outcomes[i] by {
            assert(outcomes.drop_last()[i]);
        }
        if f {
            assert(!outcomes.drop_last()[s as int]);
        }
    }
}

/// A transaction commits only when every statement of its plan has succeeded; once
/// one of them fails it rolls back, so none of its changes is kept.
pub proof fn lemma_commit_only_after_every_success(planned: nat, outcomes: Seq<bool>)
    ensures
        ({
            let (s, f) = drive(planned, outcomes);
            &&& spec_step(planned, s, f) == TxStep::Commit ==> outcomes.len() >= planned && forall|i: int|
                0 <= i < planned ==> #[trigger] outcomes[i]
            &&& (exists|i: int| 0 <= i < planned && i < outcomes.len() && !#[trigger] outcomes[i])
                ==> spec_step(planned, s, f) == TxStep::Rollback
        }),
{
    lemma_drive(planned, outcomes);
}

} // verus!
