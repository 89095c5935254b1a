//! The move protocol: per message `Copy -> MarkDeleted -> [Expunge]`,
//! strictly sequential. The driving loop performs each protocol action and
//! reports its result; every decision — which action comes next, how a
//! step failure is recorded, and how a failed shared expunge retroactively
//! fails the batch entries that had succeeded — is made here.

use vstd::prelude::*;
use crate::text::opt_str_view;
use crate::types::{ImapError, MoveEmailStatus};

verus! {

/// The error text recorded when a message's copy step fails.
pub open spec fn copy_failure_msg(e: Seq<char>) -> Seq<char> {
    "Copy failed: "@ + e
}

/// The error text recorded when a message's mark-deleted step fails.
pub open spec fn delete_failure_msg(e: Seq<char>) -> Seq<char> {
    "Flag operation failed: Delete flag failed: "@ + e
}

/// The error text carried to every previously successful entry when the
/// shared expunge fails.
pub open spec fn expunge_failure_msg(e: Seq<char>) -> Seq<char> {
    "Flag operation failed: Expunge failed: "@ + e
}

/// The next protocol action of a batch move.
#[derive(Debug, Clone, Copy, PartialEq, Eq)]
pub enum MoveAction {
    /// Copy the message at this index of the id list into the destination.
    Copy(usize),
    /// Mark the message at this index deleted in the source.
    MarkDeleted(usize),
    /// Expunge the source mailbox, once, for the whole batch.
    Expunge,
    /// Nothing is left to do.
    Finished,
}

/// The state of one batch move: the ids to move, the outcomes recorded so
/// far, and where the protocol stands.
pub struct BatchMove {
    pub ids: Vec<String>,
    pub outcomes: Vec<MoveEmailStatus>,
    pub idx: usize,
    pub awaiting_delete: bool,
    pub any_deleted: bool,
    pub expunge_resolved: bool,
}

impl BatchMove {
    /// Well-formedness: one outcome per finished id, in input order, each
    /// carrying its id; `any_deleted` tracks whether some delete step
    /// succeeded (until the expunge verdict may flip the successes).
    pub open spec fn wf(self) -> bool {
        &&& self.idx <= self.ids@.len()
        &&& self.outcomes@.len() == self.idx
        &&& forall|k: int|
            0 <= k < self.idx ==> (#[trigger] self.outcomes@[k]).email_id@ == self.ids@[k]@
        &&& (!self.expunge_resolved ==> (self.any_deleted <==> exists|k: int|
            0 <= k < self.idx && (#[trigger] self.outcomes@[k]).success))
        &&& (self.awaiting_delete ==> self.idx < self.ids@.len())
        &&& (self.expunge_resolved ==> self.idx == self.ids@.len() && !self.awaiting_delete)
    }

    /// The action the protocol asks for in a state.
    pub open spec fn action_spec(self) -> MoveAction {
        if self.idx < self.ids@.len() {
            if self.awaiting_delete {
                MoveAction::MarkDeleted(self.idx)
            } else {
                MoveAction::Copy(self.idx)
            }
        } else if self.any_deleted && !self.expunge_resolved {
            MoveAction::Expunge
        } else {
            MoveAction::Finished
        }
    }

    /// Starts a batch move of `ids`.
    pub fn new(ids: Vec<String>) -> (r: Self)
        ensures
            r.wf(),
            r.ids == ids,
            r.outcomes@.len() == 0,
            r.idx == 0,
            !r.awaiting_delete,
            !r.any_deleted,
            !r.expunge_resolved,
    {
        BatchMove {
            ids,
            outcomes: Vec::new(),
            idx: 0,
            awaiting_delete: false,
            any_deleted: false,
            expunge_resolved: false,
        }
    }

    /// Says which protocol action to perform next.
    pub fn next_action(&self) -> (r: MoveAction)
        requires
            self.wf(),
        ensures
            r == self.action_spec(),
    {
        if self.idx < self.ids.len() {
            if self.awaiting_delete {
                MoveAction::MarkDeleted(self.idx)
            } else {
                MoveAction::Copy(self.idx)
            }
        } else if self.any_deleted && !self.expunge_resolved {
            MoveAction::Expunge
        } else {
            MoveAction::Finished
        }
    }

    /// Records the copy result of the current id. A failure fails only
    /// this id, with the copy failure text, and the protocol skips
    /// straight to the next id; a success moves on to the delete step.
    pub fn on_copy_result(&mut self, err: Option<String>)
        requires
            old(self).wf(),
            old(self).action_spec() matches MoveAction::Copy(_),
        ensures
            final(self).wf(),
            final(self).ids == old(self).ids,
            final(self).any_deleted == old(self).any_deleted,
            final(self).expunge_resolved == old(self).expunge_resolved,
            match err {
                None => {
                    &&& final(self).idx == old(self).idx
                    &&& final(self).awaiting_delete
                    &&& final(self).outcomes == old(self).outcomes
                },
                Some(e) => {
                    &&& final(self).idx == old(self).idx + 1
                    &&& !final(self).awaiting_delete
                    &&& final(self).outcomes@.len() == old(self).outcomes@.len() + 1
                    &&& forall|k: int|
                        0 <= k < old(self).outcomes@.len() ==> final(self).outcomes@[k] == old(
                            self,
                        ).outcomes@[k]
                    &&& final(self).outcomes@.last().email_id@ == old(self).ids@[old(
                        self,
                    ).idx as int]@
                    &&& !final(self).outcomes@.last().success
                    &&& opt_str_view(final(self).outcomes@.last().error) == Some(
                        copy_failure_msg(e@),
                    )
                },
            },
    {
        proof {
            assert(old(self).idx < old(self).ids@.len());
        }
        let _ids_len: usize = self.ids.len();
        match err {
            None => {
                self.awaiting_delete = true;
            },
            Some(e) => {
                let mut msg = String::from_str("Copy failed: ");
                msg.append(e.as_str());
                let status = MoveEmailStatus {
                    email_id: self.ids[self.idx].clone(),
                    success: false,
                    error: Some(msg),
                };
                self.outcomes.push(status);
                self.idx = self.idx + 1;
                proof {
                    if old(self).any_deleted {
                        let k = choose|k: int|
                            0 <= k < old(self).idx && (#[trigger] old(self).outcomes@[k]).success;
                        assert(self.outcomes@[k].success);
                    } else {
                        assert forall|k: int|
                            0 <= k < self.idx implies !(#[trigger] self.outcomes@[k]).success by {
                            if k < old(self).idx {
                                assert(self.outcomes@[k] == old(self).outcomes@[k]);
                            }
                        }
                    }
                }
            },
        }
    }

    /// Records the mark-deleted result of the current id. A failure fails
    /// only this id, with the delete failure text; a success records a
    /// successful outcome and remembers that an expunge is owed.
    pub fn on_delete_result(&mut self, err: Option<String>)
        requires
            old(self).wf(),
            old(self).action_spec() matches MoveAction::MarkDeleted(_),
        ensures
            final(self).wf(),
            final(self).ids == old(self).ids,
            final(self).expunge_resolved == old(self).expunge_resolved,
            final(self).idx == old(self).idx + 1,
            !final(self).awaiting_delete,
            final(self).outcomes@.len() == old(self).outcomes@.len() + 1,
            forall|k: int|
                0 <= k < old(self).outcomes@.len() ==> final(self).outcomes@[k] == old(
                    self,
                ).outcomes@[k],
            final(self).outcomes@.last().email_id@ == old(self).ids@[old(self).idx as int]@,
            match err {
                None => {
                    &&& final(self).outcomes@.last().success
                    &&& final(self).outcomes@.last().error is None
                    &&& final(self).any_deleted
                },
                Some(e) => {
                    &&& !final(self).outcomes@.last().success
                    &&& opt_str_view(final(self).outcomes@.last().error) == Some(
                        delete_failure_msg(e@),
                    )
                    &&& final(self).any_deleted == old(self).any_deleted
                },
            },
    {
        proof {
            assert(old(self).idx < old(self).ids@.len());
        }
        let _ids_len: usize = self.ids.len();
        match err {
            None => {
                let status = MoveEmailStatus {
                    email_id: self.ids[self.idx].clone(),
                    success: true,
                    error: None,
                };
                self.outcomes.push(status);
                self.any_deleted = true;
                self.awaiting_delete = false;
                self.idx = self.idx + 1;
                proof {
                    assert(self.outcomes@[old(self).idx as int].success);
                }
            },
            Some(e) => {
                let mut msg = String::from_str("Flag operation failed: Delete flag failed: ");
                msg.append(e.as_str());
                let status = MoveEmailStatus {
                    email_id: self.ids[self.idx].clone(),
                    success: false,
                    error: Some(msg),
                };
                self.outcomes.push(status);
                self.awaiting_delete = false;
                self.idx = self.idx + 1;
                proof {
                    if old(self).any_deleted {
                        let k = choose|k: int|
                            0 <= k < old(self).idx && (#[trigger] old(self).outcomes@[k]).success;
                        assert(self.outcomes@[k].success);
                    } else {
                        assert forall|k: int|
                            0 <= k < self.idx implies !(#[trigger] self.outcomes@[k]).success by {
                            if k < old(self).idx {
                                assert(self.outcomes@[k] == old(self).outcomes@[k]);
                            }
                        }
                    }
                }
            },
        }
    }

    /// How one entry is rewritten by a failed expunge: a previously
    /// successful entry is flipped to failed and carries the expunge
    /// failure text; an entry that had already failed is left untouched.
    pub open spec fn expunge_flip(o: MoveEmailStatus, n: MoveEmailStatus, e: Seq<char>) -> bool {
        if o.success {
            &&& n.email_id@ == o.email_id@
            &&& !n.success
            &&& opt_str_view(n.error) == Some(expunge_failure_msg(e))
        } else {
            n == o
        }
    }

    /// Records the verdict of the single shared expunge. On success the
    /// outcomes stand as recorded. On failure, every entry that was
    /// successful so far is retroactively failed with the expunge failure
    /// text — the physical removal the caller expects never happened —
    /// while entries that had already failed keep their original error.
    pub fn on_expunge_result(&mut self, err: Option<String>)
        requires
            old(self).wf(),
            old(self).action_spec() is Expunge,
        ensures
            final(self).wf(),
            final(self).ids == old(self).ids,
            final(self).expunge_resolved,
            final(self).idx == old(self).idx,
            final(self).outcomes@.len() == old(self).outcomes@.len(),
            match err {
                None => final(self).outcomes == old(self).outcomes,
                Some(e) => forall|k: int|
                    0 <= k < old(self).outcomes@.len() ==> Self::expunge_flip(
                        old(self).outcomes@[k],
                        #[trigger] final(self).outcomes@[k],
                        e@,
                    ),
            },
    {
        match err {
            None => {
                self.expunge_resolved = true;
            },
            Some(e) => {
                let mut msg = String::from_str("Flag operation failed: Expunge failed: ");
                msg.append(e.as_str());
                let ghost evw = e@;
                let mut flipped: Vec<MoveEmailStatus> = Vec::new();
                let mut k: usize = 0;
                while k < self.outcomes.len()
                    invariant
                        k <= self.outcomes.len(),
                        flipped@.len() == k,
                        msg@ == expunge_failure_msg(evw),
                        forall|j: int|
                            0 <= j < k ==> Self::expunge_flip(
                                self.outcomes@[j],
                                #[trigger] flipped@[j],
                                evw,
                            ),
                    decreases self.outcomes.len() - k,
                {
                    let o = &self.outcomes[k];
                    if o.success {
                        flipped.push(
                            MoveEmailStatus {
                                email_id: o.email_id.clone(),
                                success: false,
                                error: Some(msg.clone()),
                            },
                        );
                    } else {
                        let err_copy = match &o.error {
                            Some(s) => Some(s.clone()),
                            None => None,
                        };
                        flipped.push(
                            MoveEmailStatus {
                                email_id: o.email_id.clone(),
                                success: false,
                                error: err_copy,
                            },
                        );
                    }
                    k = k + 1;
                }
                self.outcomes = flipped;
                self.expunge_resolved = true;
            },
        }
    }

    /// Hands the final outcomes out, one per input id, in input order.
    pub fn finish(self) -> (r: Vec<MoveEmailStatus>)
        requires
            self.wf(),
            self.action_spec() is Finished,
        ensures
            r == self.outcomes,
            r@.len() == self.ids@.len(),
    {
        self.outcomes
    }
}

/// How many outcomes of a batch report success.
pub open spec fn success_count(s: Seq<MoveEmailStatus>) -> nat
    decreases s.len(),
{
    if s.len() == 0 {
        0
    } else {
        success_count(s.drop_last()) + if s.last().success {
            1nat
        } else {
            0nat
        }
    }
}

/// Counts the outcomes that report success.
pub fn count_successes(outcomes: &Vec<MoveEmailStatus>) -> (r: usize)
    ensures
        r == success_count(outcomes@),
{
    let mut n: usize = 0;
    let mut i: usize = 0;
    proof {
        assert(outcomes@.take(0) =~= Seq::<MoveEmailStatus>::empty());
    }
    while i < outcomes.len()
        invariant
            i <= outcomes.len(),
            n == success_count(outcomes@.take(i as int)),
            n <= i,
        decreases outcomes.len() - i,
    {
        proof {
            assert(outcomes@.take(i as int + 1).drop_last() =~= outcomes@.take(i as int));
            assert(outcomes@.take(i as int + 1).last() == outcomes@[i as int]);
        }
        if outcomes[i].success {
            n = n + 1;
        }
        i = i + 1;
    }
    proof {
        assert(outcomes@.take(outcomes@.len() as int) =~= outcomes@);
    }
    n
}

/// The steps of a single-message move, in protocol order.
#[derive(Debug, Clone, Copy, PartialEq, Eq)]
pub enum MoveStep {
    Copy,
    MarkDeleted,
    Expunge,
    Done,
}

/// The step after a successful one.
pub open spec fn next_step(s: MoveStep) -> MoveStep {
    match s {
        MoveStep::Copy => MoveStep::MarkDeleted,
        MoveStep::MarkDeleted => MoveStep::Expunge,
        MoveStep::Expunge => MoveStep::Done,
        MoveStep::Done => MoveStep::Done,
    }
}

/// The failure-text prefix recorded for a step of the single move.
pub open spec fn step_failure_prefix(s: MoveStep) -> Seq<char> {
    match s {
        MoveStep::Copy => "Copy failed: "@,
        MoveStep::MarkDeleted => "Delete flag failed: "@,
        _ => "Expunge failed: "@,
    }
}

/// A single-message move: `Select` done by the driver, then
/// `Copy -> MarkDeleted -> Expunge`, aborting at the first failure.
pub struct SingleMove {
    pub step: MoveStep,
    pub failure: Option<ImapError>,
}

impl SingleMove {
    pub open spec fn wf(self) -> bool {
        self.failure is Some ==> self.step is Done
    }

    /// Starts a single move at its copy step.
    pub fn new() -> (r: Self)
        ensures
            r.wf(),
            r.step is Copy,
            r.failure is None,
    {
        SingleMove { step: MoveStep::Copy, failure: None }
    }

    /// Records the result of the current step. Success moves to the next
    /// step; any failure aborts the move, recorded as a flag-operation
    /// error whose detail names the failing step.
    pub fn advance(&mut self, err: Option<String>)
        requires
            old(self).wf(),
            !(old(self).step is Done),
        ensures
            final(self).wf(),
            match err {
                None => {
                    &&& final(self).step == next_step(old(self).step)
                    &&& final(self).failure == old(self).failure
                },
                Some(e) => {
                    &&& final(self).step is Done
                    &&& final(self).failure matches Some(f)
                    &&& final(self).failure matches Some(f) ==> (f matches ImapError::FlagOperation(
                        d,
                    ) && d@ == step_failure_prefix(old(self).step) + e@)
                },
            },
    {
        match err {
            None => {
                self.step = match self.step {
                    MoveStep::Copy => MoveStep::MarkDeleted,
                    MoveStep::MarkDeleted => MoveStep::Expunge,
                    _ => MoveStep::Done,
                };
            },
            Some(e) => {
                let mut d = match self.step {
                    MoveStep::Copy => String::from_str("Copy failed: "),
                    MoveStep::MarkDeleted => String::from_str("Delete flag failed: "),
                    _ => String::from_str("Expunge failed: "),
                };
                d.append(e.as_str());
                self.failure = Some(ImapError::FlagOperation(d));
                self.step = MoveStep::Done;
            },
        }
    }

    /// The result of a finished single move.
    pub fn outcome(self) -> (r: Result<(), ImapError>)
        requires
            self.wf(),
            self.step is Done,
        ensures
            match self.failure {
                Some(f) => r matches Err(g) && g == f,
                None => r is Ok,
            },
    {
        match self.failure {
            Some(f) => Err(f),
            None => Ok(()),
        }
    }
}

} // verus!
