//! The propose engine: permission-checked creation of actions, plus the thin
//! per-action entry points that build a typed action description and hand it
//! to the core.

use crate::action::{
    Action, ActionView, CallData, CallDataView, EsdtCallData, EsdtCallDataView, MultisigError,
};
use crate::multisig_state::{keeps_state, Multisig, MultisigStateModule, PendingEntry};
use vstd::prelude::*;

verus! {

/// Between `pre` and `post`, exactly one new action was recorded, under the
/// freshly allocated `id`: `action` itself, approved already by its proposer
/// where the proposer's role lets it sign, by nobody otherwise. Roles, the
/// board counter, the quorum, and every other action are untouched.
pub open spec fn records_proposal<M: MultisigStateModule>(
    pre: &M,
    post: &M,
    caller: u64,
    action: ActionView,
    id: usize,
) -> bool {
    &&& id == pre.actions_allocated() + 1
    &&& post.actions_allocated() == pre.actions_allocated() + 1
    &&& post.pending_action(id) == Some(action)
    &&& post.approvers(id) == (if pre.party_role(caller).spec_can_sign() {
        Set::<u64>::empty().insert(caller)
    } else {
        Set::<u64>::empty()
    })
    &&& forall|p: u64|
        #![trigger pre.party_role(p)]
        #![trigger post.party_role(p)]
        post.party_role(p) == pre.party_role(p)
    &&& post.board_members_total() == pre.board_members_total()
    &&& post.quorum_threshold() == pre.quorum_threshold()
    &&& forall|j: usize|
        #![trigger pre.pending_action(j)]
        #![trigger post.pending_action(j)]
        j != id ==> post.pending_action(j) == pre.pending_action(j)
    &&& forall|j: usize|
        #![trigger pre.approvers(j)]
        #![trigger post.approvers(j)]
        j != id ==> post.approvers(j) == pre.approvers(j)
}

/// The call payload that the transfer entry points assemble: an absent entry
/// point name collapses to the empty name, meaning a bare value transfer.
pub open spec fn prepared_call_data(
    to: u64,
    egld_amount: Seq<u8>,
    opt_function: Option<Seq<u8>>,
    arguments: Seq<Seq<u8>>,
) -> CallDataView {
    CallDataView {
        to,
        egld_amount,
        endpoint_name: match opt_function {
            Some(name) => name,
            None => Seq::empty(),
        },
        arguments,
    }
}

/// As [`prepared_call_data`], for the named-token payload.
pub open spec fn prepared_esdt_data(
    to: u64,
    token: Seq<u8>,
    amount: Seq<u8>,
    opt_function: Option<Seq<u8>>,
    arguments: Seq<Seq<u8>>,
) -> EsdtCallDataView {
    EsdtCallDataView {
        to,
        token,
        amount,
        endpoint_name: match opt_function {
            Some(name) => name,
            None => Seq::empty(),
        },
        arguments,
    }
}

/// The propose engine's interface. Callers are identified by the opaque
/// handle the entry layer derives from the invoking request's authenticated
/// origin; no external effect is performed at proposal time.
pub trait MultisigProposeModule: MultisigStateModule {
    /// Records `action` under a fresh id when the caller's role allows
    /// proposing; a board member's proposal counts as its first approval.
    fn propose_action(&mut self, caller: u64, action: Action) -> (r: Result<
        usize,
        MultisigError,
    >)
        requires
            old(self).inv(),
        ensures
            final(self).inv(),
            match r {
                Ok(id) => old(self).party_role(caller).spec_can_propose() && records_proposal(
                    old(self),
                    final(self),
                    caller,
                    action@,
                    id,
                ),
                Err(e) => {
                    &&& e is PermissionDenied
                    &&& !old(self).party_role(caller).spec_can_propose()
                    &&& keeps_state(old(self), final(self))
                },
            },
    ;

    /// Initiates a board member addition; also promotes a proposer.
    fn propose_add_board_member(&mut self, caller: u64, board_member: u64) -> (r: Result<
        usize,
        MultisigError,
    >)
        requires
            old(self).inv(),
        ensures
            final(self).inv(),
            match r {
                Ok(id) => old(self).party_role(caller).spec_can_propose() && records_proposal(
                    old(self),
                    final(self),
                    caller,
                    ActionView::AddBoardMember(board_member),
                    id,
                ),
                Err(e) => {
                    &&& e is PermissionDenied
                    &&& !old(self).party_role(caller).spec_can_propose()
                    &&& keeps_state(old(self), final(self))
                },
            },
    ;

    /// Initiates a proposer addition; also demotes a board member.
    fn propose_add_proposer(&mut self, caller: u64, proposer: u64) -> (r: Result<
        usize,
        MultisigError,
    >)
        requires
            old(self).inv(),
        ensures
            final(self).inv(),
            match r {
                Ok(id) => old(self).party_role(caller).spec_can_propose() && records_proposal(
                    old(self),
                    final(self),
                    caller,
                    ActionView::AddProposer(proposer),
                    id,
                ),
                Err(e) => {
                    &&& e is PermissionDenied
                    &&& !old(self).party_role(caller).spec_can_propose()
                    &&& keeps_state(old(self), final(self))
                },
            },
    ;

    /// Initiates removal of a user, whether board member or proposer.
    fn propose_remove_user(&mut self, caller: u64, user: u64) -> (r: Result<usize, MultisigError>)
        requires
            old(self).inv(),
        ensures
            final(self).inv(),
            match r {
                Ok(id) => old(self).party_role(caller).spec_can_propose() && records_proposal(
                    old(self),
                    final(self),
                    caller,
                    ActionView::RemoveUser(user),
                    id,
                ),
                Err(e) => {
                    &&& e is PermissionDenied
                    &&& !old(self).party_role(caller).spec_can_propose()
                    &&& keeps_state(old(self), final(self))
                },
            },
    ;

    /// Initiates a change of the required-approval threshold.
    fn propose_change_quorum(&mut self, caller: u64, new_quorum: usize) -> (r: Result<
        usize,
        MultisigError,
    >)
        requires
            old(self).inv(),
        ensures
            final(self).inv(),
            match r {
                Ok(id) => old(self).party_role(caller).spec_can_propose() && records_proposal(
                    old(self),
                    final(self),
                    caller,
                    ActionView::ChangeQuorum(new_quorum),
                    id,
                ),
                Err(e) => {
                    &&& e is PermissionDenied
                    &&& !old(self).party_role(caller).spec_can_propose()
                    &&& keeps_state(old(self), final(self))
                },
            },
    ;

    /// Proposes an outbound transfer of the native asset, optionally invoking
    /// an entry point at the destination.
    fn propose_transfer_execute(
        &mut self,
        caller: u64,
        to: u64,
        egld_amount: Vec<u8>,
        opt_function: Option<Vec<u8>>,
        arguments: Vec<Vec<u8>>,
    ) -> (r: Result<usize, MultisigError>)
        requires
            old(self).inv(),
        ensures
            final(self).inv(),
            match r {
                Ok(id) => old(self).party_role(caller).spec_can_propose() && records_proposal(
                    old(self),
                    final(self),
                    caller,
                    ActionView::SendTransferExecute(
                        prepared_call_data(
                            to,
                            egld_amount@,
                            opt_function.deep_view(),
                            arguments.deep_view(),
                        ),
                    ),
                    id,
                ),
                Err(e) => {
                    &&& e is PermissionDenied
                    &&& !old(self).party_role(caller).spec_can_propose()
                    &&& keeps_state(old(self), final(self))
                },
            },
    ;

    /// Assembles the native-asset call payload.
    fn prepare_call_data(
        &self,
        to: u64,
        egld_amount: Vec<u8>,
        opt_function: Option<Vec<u8>>,
        arguments: Vec<Vec<u8>>,
    ) -> (r: CallData)
        ensures
            r@ == prepared_call_data(
                to,
                egld_amount@,
                opt_function.deep_view(),
                arguments.deep_view(),
            ),
    ;

    /// Proposes an outbound transfer of a named token, optionally invoking an
    /// entry point at the destination.
    fn propose_esdt_transfer_execute(
        &mut self,
        caller: u64,
        to: u64,
        token: Vec<u8>,
        amount: Vec<u8>,
        opt_function: Option<Vec<u8>>,
        arguments: Vec<Vec<u8>>,
    ) -> (r: Result<usize, MultisigError>)
        requires
            old(self).inv(),
        ensures
            final(self).inv(),
            match r {
                Ok(id) => old(self).party_role(caller).spec_can_propose() && records_proposal(
                    old(self),
                    final(self),
                    caller,
                    ActionView::SendEsdtTransferExecute(
                        prepared_esdt_data(
                            to,
                            token@,
                            amount@,
                            opt_function.deep_view(),
                            arguments.deep_view(),
                        ),
                    ),
                    id,
                ),
                Err(e) => {
                    &&& e is PermissionDenied
                    &&& !old(self).party_role(caller).spec_can_propose()
                    &&& keeps_state(old(self), final(self))
                },
            },
    ;

    /// Assembles the named-token call payload.
    fn prepare_transfer_esdt_data(
        &self,
        to: u64,
        token: Vec<u8>,
        amount: Vec<u8>,
        opt_function: Option<Vec<u8>>,
        arguments: Vec<Vec<u8>>,
    ) -> (r: EsdtCallData)
        ensures
            r@ == prepared_esdt_data(
                to,
                token@,
                amount@,
                opt_function.deep_view(),
                arguments.deep_view(),
            ),
    ;
}

impl MultisigProposeModule for Multisig {
    fn propose_action(&mut self, caller: u64, action: Action) -> (r: Result<
        usize,
        MultisigError,
    >) {
        let caller_role = self.get_role(caller);
        if !caller_role.can_propose() {
            return Err(MultisigError::PermissionDenied);
        }
        let mut signers: Vec<u64> = Vec::new();
        if caller_role.can_sign() {
            // A newly created action has no other approver yet, so the
            // proposer's approval cannot collide with an existing one.
            signers.push(caller);
        }
        self.actions.push(Some(PendingEntry { action, signers }));
        let action_id = self.actions.len();
        proof {
            broadcast use vstd::seq_lib::group_seq_properties;

            assert(self.board_members() =~= old(self).board_members());
            assert((self.actions@[action_id - 1] matches Some(e)
                ==> e.signers@.no_duplicates()));
            if old(self).role_of(caller).spec_can_sign() {
                assert(self.signers_of(action_id) =~= Set::<u64>::empty().insert(caller));
            } else {
                assert(self.signers_of(action_id) =~= Set::<u64>::empty());
            }
        }
        Ok(action_id)
    }

    fn propose_add_board_member(&mut self, caller: u64, board_member: u64) -> (r: Result<
        usize,
        MultisigError,
    >) {
        self.propose_action(caller, Action::AddBoardMember(board_member))
    }

    fn propose_add_proposer(&mut self, caller: u64, proposer: u64) -> (r: Result<
        usize,
        MultisigError,
    >) {
        self.propose_action(caller, Action::AddProposer(proposer))
    }

    fn propose_remove_user(&mut self, caller: u64, user: u64) -> (r: Result<usize, MultisigError>) {
        self.propose_action(caller, Action::RemoveUser(user))
    }

    fn propose_change_quorum(&mut self, caller: u64, new_quorum: usize) -> (r: Result<
        usize,
        MultisigError,
    >) {
        self.propose_action(caller, Action::ChangeQuorum(new_quorum))
    }

    fn propose_transfer_execute(
        &mut self,
        caller: u64,
        to: u64,
        egld_amount: Vec<u8>,
        opt_function: Option<Vec<u8>>,
        arguments: Vec<Vec<u8>>,
    ) -> (r: Result<usize, MultisigError>) {
        let call_data = self.prepare_call_data(to, egld_amount, opt_function, arguments);
        self.propose_action(caller, Action::SendTransferExecute(call_data))
    }

    fn prepare_call_data(
        &self,
        to: u64,
        egld_amount: Vec<u8>,
        opt_function: Option<Vec<u8>>,
        arguments: Vec<Vec<u8>>,
    ) -> (r: CallData) {
        let endpoint_name = match opt_function {
            Some(name) => name,
            None => Vec::new(),
        };
        CallData { to, egld_amount, endpoint_name, arguments }
    }

    fn propose_esdt_transfer_execute(
        &mut self,
        caller: u64,
        to: u64,
        token: Vec<u8>,
        amount: Vec<u8>,
        opt_function: Option<Vec<u8>>,
        arguments: Vec<Vec<u8>>,
    ) -> (r: Result<usize, MultisigError>) {
        let call_data = self.prepare_transfer_esdt_data(to, token, amount, opt_function, arguments);
        self.propose_action(caller, Action::SendEsdtTransferExecute(call_data))
    }

    fn prepare_transfer_esdt_data(
        &self,
        to: u64,
        token: Vec<u8>,
        amount: Vec<u8>,
        opt_function: Option<Vec<u8>>,
        arguments: Vec<Vec<u8>>,
    ) -> (r: EsdtCallData) {
        let endpoint_name = match opt_function {
            Some(name) => name,
            None => Vec::new(),
        };
        EsdtCallData { to, token, amount, endpoint_name, arguments }
    }
}

} // verus!
