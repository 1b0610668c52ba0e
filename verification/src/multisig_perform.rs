//! The quorum evaluator and the execution engine: live re-validated approval
//! counting, and exactly-once application of an approved action's effect.

use crate::action::{Action, ActionView, MultisigError, PerformOutcome, PerformOutcomeView, Role};
use crate::multisig_state::{keeps_state, Multisig, MultisigStateModule, PendingEntry};
use vstd::prelude::*;

verus! {

/// Between `pre` and `post`, the record of action `id` is gone (its slot is a
/// tombstone, so the id is never reused) and every other action is untouched.
pub open spec fn retires_action<M: MultisigStateModule>(pre: &M, post: &M, id: usize) -> bool {
    &&& post.actions_allocated() == pre.actions_allocated()
    &&& post.pending_action(id) is None
    &&& post.approvers(id) == Set::<u64>::empty()
    &&& forall|j: usize|
        #![trigger pre.pending_action(j)]
        #![trigger post.pending_action(j)]
        j != id ==> post.pending_action(j) == pre.pending_action(j)
    &&& forall|j: usize|
        #![trigger pre.approvers(j)]
        #![trigger post.approvers(j)]
        j != id ==> post.approvers(j) == pre.approvers(j)
}

/// The registry gives `party` role `role` and changes nothing else; the
/// board counter moves in step.
pub open spec fn roles_become<M: MultisigStateModule>(
    pre: &M,
    post: &M,
    party: u64,
    role: Role,
) -> bool {
    &&& forall|p: u64|
        #![trigger pre.party_role(p)]
        #![trigger post.party_role(p)]
        post.party_role(p) == (if p == party {
            role
        } else {
            pre.party_role(p)
        })
    &&& post.board_members_total() == pre.board_members_total() - (if pre.party_role(
        party,
    ) is BoardMember {
        1int
    } else {
        0int
    }) + (if role is BoardMember {
        1int
    } else {
        0int
    })
}

/// No role changed between `pre` and `post`.
pub open spec fn roles_unchanged<M: MultisigStateModule>(pre: &M, post: &M) -> bool {
    &&& forall|p: u64|
        #![trigger pre.party_role(p)]
        #![trigger post.party_role(p)]
        post.party_role(p) == pre.party_role(p)
    &&& post.board_members_total() == pre.board_members_total()
}

/// Why executing `action` is refused even once quorum is reached: an
/// unsatisfiable new quorum, or a membership reduction that would leave the
/// board unable to satisfy the current quorum. `None` means the effect is
/// owed. Note that demoting a board member to proposer reduces the board
/// exactly like removing one, so both are guarded the same way.
pub open spec fn effect_refusal<M: MultisigStateModule>(
    pre: &M,
    action: ActionView,
) -> Option<MultisigError> {
    match action {
        ActionView::ChangeQuorum(n) => if !(1 <= n <= pre.board_members_total()) {
            Some(MultisigError::InvalidQuorum)
        } else {
            None
        },
        ActionView::RemoveUser(p) => if pre.party_role(p) is BoardMember
            && pre.board_members_total() - 1 < pre.quorum_threshold() {
            Some(MultisigError::LastBoardMemberError)
        } else {
            None
        },
        ActionView::AddProposer(p) => if pre.party_role(p) is BoardMember
            && pre.board_members_total() - 1 < pre.quorum_threshold() {
            Some(MultisigError::LastBoardMemberError)
        } else {
            None
        },
        _ => None,
    }
}

/// The one effect of executing `action`: the membership or quorum mutation
/// applied between `pre` and `post`, or the transfer instruction handed back
/// as `outcome` for the ledger to dispatch.
pub open spec fn applies_effect<M: MultisigStateModule>(
    pre: &M,
    post: &M,
    action: ActionView,
    outcome: PerformOutcomeView,
) -> bool {
    match action {
        ActionView::AddBoardMember(p) => {
            &&& outcome is Applied
            &&& roles_become(pre, post, p, Role::BoardMember)
            &&& post.quorum_threshold() == pre.quorum_threshold()
        },
        ActionView::AddProposer(p) => {
            &&& outcome is Applied
            &&& roles_become(pre, post, p, Role::Proposer)
            &&& post.quorum_threshold() == pre.quorum_threshold()
        },
        ActionView::RemoveUser(p) => {
            &&& outcome is Applied
            &&& roles_become(pre, post, p, Role::NoRole)
            &&& post.quorum_threshold() == pre.quorum_threshold()
        },
        ActionView::ChangeQuorum(n) => {
            &&& outcome is Applied
            &&& roles_unchanged(pre, post)
            &&& post.quorum_threshold() == n
        },
        ActionView::SendTransferExecute(d) => {
            &&& outcome == PerformOutcomeView::Transfer(d)
            &&& roles_unchanged(pre, post)
            &&& post.quorum_threshold() == pre.quorum_threshold()
        },
        ActionView::SendEsdtTransferExecute(d) => {
            &&& outcome == PerformOutcomeView::EsdtTransfer(d)
            &&& roles_unchanged(pre, post)
            &&& post.quorum_threshold() == pre.quorum_threshold()
        },
    }
}

impl Multisig {
    /// Whether action `action_id` has enough weight to execute: the count of
    /// approvers whose **current** role still grants signing reaches the
    /// threshold. The raw signer set does not decide; a signer removed after
    /// signing no longer counts, though it stays recorded.
    pub fn is_quorum_reached(&self, action_id: usize) -> (b: bool)
        requires
            self.inv(),
        ensures
            b == (self.pending_action(action_id) is Some && self.live_signers(action_id).len()
                >= self.quorum_threshold()),
    {
        if action_id == 0 || action_id > self.actions.len() {
            return false;
        }
        let entry = match &self.actions[action_id - 1] {
            Some(e) => e,
            None => {
                return false;
            },
        };
        let mut count: usize = 0;
        let mut i: usize = 0;
        let ghost mut live: Set<u64> = Set::empty();
        proof {
            assert(live =~= Set::new(
                |p: u64| entry.signers@.take(0).contains(p) && self.role_of(p).spec_can_sign(),
            ));
        }
        while i < entry.signers.len()
            invariant
                self.inv(),
                1 <= action_id <= self.actions@.len(),
                self.actions@[action_id - 1] == Some(*entry),
                i <= entry.signers@.len(),
                count <= i,
                live.finite(),
                count == live.len(),
                live == Set::new(
                    |p: u64|
                        entry.signers@.take(i as int).contains(p) && self.role_of(
                            p,
                        ).spec_can_sign(),
                ),
            decreases entry.signers@.len() - i,
        {
            let p = entry.signers[i];
            proof {
                broadcast use vstd::seq_lib::group_seq_properties;

                assert(entry.signers@.take(i + 1) =~= entry.signers@.take(i as int).push(p));
            }
            if self.get_role(p).can_sign() {
                proof {
                    assert(!entry.signers@.take(i as int).contains(p)) by {
                        if entry.signers@.take(i as int).contains(p) {
                            let k = choose|k: int|
                                0 <= k < i && entry.signers@.take(i as int)[k] == p;
                            assert(entry.signers@[k] == entry.signers@[i as int]);
                        }
                    }
                    assert(!live.contains(p));
                    assert(live.insert(p).len() == live.len() + 1);
                }
                count = count + 1;
                proof {
                    live = live.insert(p);
                }
            }
            i = i + 1;
            proof {
                broadcast use vstd::seq_lib::group_seq_properties;

                assert(live =~= Set::new(
                    |q: u64|
                        entry.signers@.take(i as int).contains(q) && self.role_of(
                            q,
                        ).spec_can_sign(),
                ));
            }
        }
        proof {
            assert(entry.signers@.take(entry.signers@.len() as int) =~= entry.signers@);
            assert(live =~= self.live_signers(action_id));
        }
        count >= self.quorum
    }

    /// Executes action `action_id` and retires its record, so the same action
    /// can never execute twice. Execution is open to any caller once quorum
    /// is met: the recorded approvals, not the executing identity, carry the
    /// authority. Failures leave every record and the whole state untouched,
    /// so a refused action can be retried later.
    ///
    /// A transfer action is not dispatched here: its payload is returned as
    /// an instruction for the ledger, which the entry layer performs within
    /// the same atomic invocation.
    pub fn perform_action(&mut self, action_id: usize) -> (r: Result<
        PerformOutcome,
        MultisigError,
    >)
        requires
            old(self).inv(),
        ensures
            final(self).inv(),
            ({
                let pre = old(self);
                match pre.pending_action(action_id) {
                    None => r == Err::<PerformOutcome, MultisigError>(
                        MultisigError::ActionNotFound,
                    ) && keeps_state(pre, final(self)),
                    Some(action) => {
                        if pre.live_signers(action_id).len() < pre.quorum_threshold() {
                            r == Err::<PerformOutcome, MultisigError>(
                                MultisigError::QuorumNotReached,
                            ) && keeps_state(pre, final(self))
                        } else {
                            match effect_refusal(pre, action) {
                                Some(e) => r == Err::<PerformOutcome, MultisigError>(e)
                                    && keeps_state(pre, final(self)),
                                None => r matches Ok(outcome) && applies_effect(
                                    pre,
                                    final(self),
                                    action,
                                    outcome@,
                                ) && retires_action(pre, final(self), action_id),
                            }
                        }
                    },
                }
            }),
    {
        if action_id == 0 || action_id > self.actions.len() {
            return Err(MultisigError::ActionNotFound);
        }
        let idx = action_id - 1;
        let live = match &self.actions[idx] {
            Some(_) => true,
            None => false,
        };
        if !live {
            return Err(MultisigError::ActionNotFound);
        }
        if !self.is_quorum_reached(action_id) {
            return Err(MultisigError::QuorumNotReached);
        }
        let refusal: Option<MultisigError> = match &self.actions[idx] {
            Some(entry) => match &entry.action {
                Action::ChangeQuorum(n) => if *n == 0 || *n > self.num_board_members {
                    Some(MultisigError::InvalidQuorum)
                } else {
                    None
                },
                Action::RemoveUser(p) => {
                    if self.get_role(*p).can_sign() && self.quorum > self.num_board_members - 1 {
                        Some(MultisigError::LastBoardMemberError)
                    } else {
                        None
                    }
                },
                Action::AddProposer(p) => {
                    if self.get_role(*p).can_sign() && self.quorum > self.num_board_members - 1 {
                        Some(MultisigError::LastBoardMemberError)
                    } else {
                        None
                    }
                },
                _ => None,
            },
            None => None,
        };
        match refusal {
            Some(e) => {
                return Err(e);
            },
            None => {},
        }
        let mut slot: Option<PendingEntry> = None;
        core::mem::swap(&mut slot, &mut self.actions[idx]);
        proof {
            assert(self.board_members() =~= old(self).board_members());
        }
        match slot {
            Some(entry) => match entry.action {
                Action::AddBoardMember(p) => {
                    self.set_role(p, Role::BoardMember);
                    Ok(PerformOutcome::Applied)
                },
                Action::AddProposer(p) => {
                    self.set_role(p, Role::Proposer);
                    Ok(PerformOutcome::Applied)
                },
                Action::RemoveUser(p) => {
                    self.set_role(p, Role::NoRole);
                    Ok(PerformOutcome::Applied)
                },
                Action::ChangeQuorum(n) => {
                    self.quorum = n;
                    proof {
                        assert(self.board_members() =~= old(self).board_members());
                    }
                    Ok(PerformOutcome::Applied)
                },
                Action::SendTransferExecute(d) => Ok(PerformOutcome::Transfer(d)),
                Action::SendEsdtTransferExecute(d) => Ok(PerformOutcome::EsdtTransfer(d)),
            },
            None => Err(MultisigError::ActionNotFound),
        }
    }
}

} // verus!
