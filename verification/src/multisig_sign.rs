//! The sign/unsign engine: permission-checked approval bookkeeping. Both
//! operations are idempotent: repeating one with the same caller and action
//! leaves the signer set where the first call put it.

use crate::action::MultisigError;
use crate::multisig_state::{keeps_state, Multisig, MultisigStateModule, PendingEntry};
use vstd::prelude::*;

verus! {

/// Between `pre` and `post`, only the signer set of action `id` changed, and
/// it became `signers`; roles, counters, the quorum, and every action body
/// (this one included) are as before.
pub open spec fn updates_signers<M: MultisigStateModule>(
    pre: &M,
    post: &M,
    id: usize,
    signers: Set<u64>,
) -> bool {
    &&& post.approvers(id) == signers
    &&& forall|p: u64|
        #![trigger pre.party_role(p)]
        #![trigger post.party_role(p)]
        post.party_role(p) == pre.party_role(p)
    &&& post.board_members_total() == pre.board_members_total()
    &&& post.quorum_threshold() == pre.quorum_threshold()
    &&& post.actions_allocated() == pre.actions_allocated()
    &&& forall|j: usize|
        #![trigger pre.pending_action(j)]
        #![trigger post.pending_action(j)]
        post.pending_action(j) == pre.pending_action(j)
    &&& forall|j: usize|
        #![trigger pre.approvers(j)]
        #![trigger post.approvers(j)]
        j != id ==> post.approvers(j) == pre.approvers(j)
}

/// Position of `x` in a signer list, if recorded.
fn index_of_signer(v: &Vec<u64>, x: u64) -> (r: Option<usize>)
    ensures
        match r {
            Some(i) => i < v@.len() && v@[i as int] == x && v@.contains(x),
            None => !v@.contains(x),
        },
{
    let mut i: usize = 0;
    while i < v.len()
        invariant
            i <= v@.len(),
            forall|j: int| 0 <= j < i ==> v@[j] != x,
        decreases v@.len() - i,
    {
        if v[i] == x {
            return Some(i);
        }
        i = i + 1;
    }
    None
}

/// Appending an unrecorded signer grows the signer set by exactly that
/// signer and keeps the list free of duplicates.
proof fn lemma_push_signer(s: Seq<u64>, x: u64)
    requires
        s.no_duplicates(),
        !s.contains(x),
    ensures
        s.push(x).to_set() == s.to_set().insert(x),
        s.push(x).no_duplicates(),
{
    broadcast use vstd::seq_lib::group_seq_properties;

    assert(s.push(x).to_set() =~= s.to_set().insert(x));
    assert forall|a: int, b: int|
        0 <= a < b < s.push(x).len() implies s.push(x)[a] != s.push(x)[b] by {
        if b == s.len() {
            assert(s.push(x)[a] == s[a]);
        }
    }
}

/// Dropping the one occurrence of a signer shrinks the signer set by exactly
/// that signer and keeps the list free of duplicates.
proof fn lemma_remove_signer(s: Seq<u64>, i: int)
    requires
        s.no_duplicates(),
        0 <= i < s.len(),
    ensures
        s.remove(i).to_set() == s.to_set().remove(s[i]),
        s.remove(i).no_duplicates(),
{
    s.remove_ensures(i);
    assert forall|x: u64| s.remove(i).contains(x) implies s.contains(x) && x != s[i] by {
        let k = choose|k: int| 0 <= k < s.remove(i).len() && s.remove(i)[k] == x;
        if k < i {
            assert(s[k] == x);
        } else {
            assert(s[k + 1] == x);
        }
    }
    assert forall|x: u64| s.contains(x) && x != s[i] implies s.remove(i).contains(x) by {
        let k = choose|k: int| 0 <= k < s.len() && s[k] == x;
        if k < i {
            assert(s.remove(i)[k] == x);
        } else {
            assert(s.remove(i)[k - 1] == x);
        }
    }
    assert(s.remove(i).to_set() =~= s.to_set().remove(s[i]));
    assert forall|a: int, b: int|
        0 <= a < b < s.remove(i).len() implies s.remove(i)[a] != s.remove(i)[b] by {
        let a2: int = if a < i {
            a
        } else {
            a + 1
        };
        let b2: int = if b < i {
            b
        } else {
            b + 1
        };
        assert(s.remove(i)[a] == s[a2]);
        assert(s.remove(i)[b] == s[b2]);
    }
}

impl Multisig {
    /// Whether `party` is recorded as an approver of action `id` (whatever
    /// its current role).
    pub fn signed(&self, party: u64, action_id: usize) -> (b: bool)
        ensures
            b == self.approvers(action_id).contains(party),
    {
        if action_id == 0 || action_id > self.actions.len() {
            return false;
        }
        match &self.actions[action_id - 1] {
            Some(entry) => index_of_signer(&entry.signers, party).is_some(),
            None => false,
        }
    }

    /// Records `caller`'s approval of action `action_id`. Fails with
    /// `ActionNotFound` for an unknown or retired id and with
    /// `PermissionDenied` for a caller whose role cannot sign; repeat
    /// approvals are a no-op, not an error.
    pub fn sign(&mut self, caller: u64, action_id: usize) -> (r: Result<(), MultisigError>)
        requires
            old(self).inv(),
        ensures
            final(self).inv(),
            match r {
                Ok(_) => {
                    &&& old(self).pending_action(action_id) is Some
                    &&& old(self).party_role(caller).spec_can_sign()
                    &&& updates_signers(
                        old(self),
                        final(self),
                        action_id,
                        old(self).approvers(action_id).insert(caller),
                    )
                },
                Err(e) => {
                    &&& keeps_state(old(self), final(self))
                    &&& !(old(self).pending_action(action_id) is Some && old(self).party_role(
                        caller,
                    ).spec_can_sign())
                    &&& e == (if old(self).pending_action(action_id) is None {
                        MultisigError::ActionNotFound
                    } else {
                        MultisigError::PermissionDenied
                    })
                },
            },
    {
        if action_id == 0 || action_id > self.actions.len() {
            return Err(MultisigError::ActionNotFound);
        }
        let idx = action_id - 1;
        let live = match &self.actions[idx] {
            Some(_) => true,
            None => false,
        };
        if !live {
            return Err(MultisigError::ActionNotFound);
        }
        if !self.get_role(caller).can_sign() {
            return Err(MultisigError::PermissionDenied);
        }
        let mut slot: Option<PendingEntry> = None;
        core::mem::swap(&mut slot, &mut self.actions[idx]);
        match slot {
            Some(mut entry) => {
                if index_of_signer(&entry.signers, caller).is_none() {
                    proof {
                        lemma_push_signer(entry.signers@, caller);
                    }
                    entry.signers.push(caller);
                } else {
                    proof {
                        assert(entry.signers@.to_set().insert(caller) =~= entry.signers@.to_set());
                    }
                }
                self.actions.set(idx, Some(entry));
            },
            None => {},
        }
        proof {
            assert(self.board_members() =~= old(self).board_members());
        }
        Ok(())
    }

    /// Withdraws `caller`'s approval of action `action_id`, under the same
    /// existence and permission checks as [`Multisig::sign`]; withdrawing an
    /// approval that was never given is a no-op, not an error.
    pub fn unsign(&mut self, caller: u64, action_id: usize) -> (r: Result<(), MultisigError>)
        requires
            old(self).inv(),
        ensures
            final(self).inv(),
            match r {
                Ok(_) => {
                    &&& old(self).pending_action(action_id) is Some
                    &&& old(self).party_role(caller).spec_can_sign()
                    &&& updates_signers(
                        old(self),
                        final(self),
                        action_id,
                        old(self).approvers(action_id).remove(caller),
                    )
                },
                Err(e) => {
                    &&& keeps_state(old(self), final(self))
                    &&& !(old(self).pending_action(action_id) is Some && old(self).party_role(
                        caller,
                    ).spec_can_sign())
                    &&& e == (if old(self).pending_action(action_id) is None {
                        MultisigError::ActionNotFound
                    } else {
                        MultisigError::PermissionDenied
                    })
                },
            },
    {
        if action_id == 0 || action_id > self.actions.len() {
            return Err(MultisigError::ActionNotFound);
        }
        let idx = action_id - 1;
        let live = match &self.actions[idx] {
            Some(_) => true,
            None => false,
        };
        if !live {
            return Err(MultisigError::ActionNotFound);
        }
        if !self.get_role(caller).can_sign() {
            return Err(MultisigError::PermissionDenied);
        }
        let mut slot: Option<PendingEntry> = None;
        core::mem::swap(&mut slot, &mut self.actions[idx]);
        match slot {
            Some(mut entry) => {
                match index_of_signer(&entry.signers, caller) {
                    Some(pos) => {
                        proof {
                            lemma_remove_signer(entry.signers@, pos as int);
                        }
                        entry.signers.remove(pos);
                    },
                    None => {
                        proof {
                            assert(entry.signers@.to_set().remove(caller) =~= entry.signers@
                                .to_set());
                        }
                    },
                }
                self.actions.set(idx, Some(entry));
            },
            None => {},
        }
        proof {
            assert(self.board_members() =~= old(self).board_members());
        }
        Ok(())
    }
}

} // verus!
