//! Engine-wide laws: properties that span several operations or hold of
//! every state, stated over the same observations the operations' own
//! contracts use.

use crate::action::Role;
use crate::multisig_sign::updates_signers;
use crate::multisig_state::{keeps_state, Multisig, MultisigStateModule};
use crate::multisig_perform::retires_action;
use vstd::prelude::*;

verus! {

/// `sign` is idempotent: when one successful `sign` takes `s0` to `s1` and a
/// repeat with the same caller and action id takes `s1` to `s2`, the repeat
/// changes nothing.
pub proof fn lemma_sign_idempotent<M: MultisigStateModule>(
    s0: &M,
    s1: &M,
    s2: &M,
    caller: u64,
    id: usize,
)
    requires
        updates_signers(s0, s1, id, s0.approvers(id).insert(caller)),
        updates_signers(s1, s2, id, s1.approvers(id).insert(caller)),
    ensures
        keeps_state(s1, s2),
{
    assert(s2.approvers(id) =~= s1.approvers(id));
}

/// `unsign` is idempotent: when one successful `unsign` takes `s0` to `s1`
/// and a repeat with the same caller and action id takes `s1` to `s2`, the
/// repeat changes nothing.
pub proof fn lemma_unsign_idempotent<M: MultisigStateModule>(
    s0: &M,
    s1: &M,
    s2: &M,
    caller: u64,
    id: usize,
)
    requires
        updates_signers(s0, s1, id, s0.approvers(id).remove(caller)),
        updates_signers(s1, s2, id, s1.approvers(id).remove(caller)),
    ensures
        keeps_state(s1, s2),
{
    assert(s2.approvers(id) =~= s1.approvers(id));
}

/// An action executes at most once: a successful execution leaves no record
/// under its id, and the execution contract answers `ActionNotFound`
/// whenever no record is pending under the requested id.
pub proof fn lemma_executes_at_most_once<M: MultisigStateModule>(pre: &M, post: &M, id: usize)
    requires
        retires_action(pre, post, id),
    ensures
        post.pending_action(id) is None,
{
}

/// Quorum weighs live roles only: an approver whose current role cannot sign
/// is not in the live signer set, however it remains recorded. The live set
/// never goes beyond the recorded one.
pub proof fn lemma_revoked_signer_does_not_count(m: &Multisig, id: usize, party: u64)
    requires
        !m.party_role(party).spec_can_sign(),
    ensures
        !m.live_signers(id).contains(party),
        m.live_signers(id).subset_of(m.approvers(id)),
{
}

/// Revoking one approver's signing capability takes exactly that approver
/// out of an action's live signer set, with the recorded signer set left
/// alone; approvals are re-validated at evaluation time, not pruned at
/// revocation time.
pub proof fn lemma_live_signers_after_revocation(
    s0: &Multisig,
    s1: &Multisig,
    party: u64,
    id: usize,
)
    requires
        s1.approvers(id) == s0.approvers(id),
        !s1.party_role(party).spec_can_sign(),
        forall|q: u64| q != party ==> s1.party_role(q) == s0.party_role(q),
    ensures
        s1.live_signers(id) == s0.live_signers(id).remove(party),
{
    assert(s1.live_signers(id) =~= s0.live_signers(id).remove(party));
}

/// The derived board counter always equals the number of identities
/// currently holding `BoardMember`.
pub proof fn lemma_board_counter_matches_registry(m: &Multisig)
    requires
        m.inv(),
    ensures
        m.board_members().finite(),
        m.board_members_total() == m.board_members().len(),
        forall|p: u64| #[trigger] m.board_members().contains(p) <==> m.party_role(p) is BoardMember,
{
}

/// The quorum parameter stays satisfiable: at least 1, at most the current
/// board count.
pub proof fn lemma_quorum_satisfiable(m: &Multisig)
    requires
        m.inv(),
    ensures
        1 <= m.quorum_threshold() <= m.board_members_total(),
{
}

/// Action id 0 is reserved as "no action": nothing is ever pending under it
/// and nobody is recorded as approving it.
pub proof fn lemma_action_id_zero_reserved(m: &Multisig)
    ensures
        m.pending_action(0) is None,
        m.approvers(0) == Set::<u64>::empty(),
{
}

/// The role model is a strict capability ladder: signing implies proposing,
/// a bare `Proposer` cannot sign, and `NoRole` can do neither.
pub proof fn lemma_role_capabilities(r: Role)
    ensures
        r.spec_can_sign() ==> r.spec_can_propose(),
        r is Proposer ==> r.spec_can_propose() && !r.spec_can_sign(),
        r is NoRole ==> !r.spec_can_propose() && !r.spec_can_sign(),
{
}

} // verus!
