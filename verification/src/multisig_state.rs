//! The engine's persisted state: the role registry with its derived board
//! counter, the quorum parameter, and the action store with its embedded
//! signer sets.

use crate::action::{Action, ActionView, MultisigError, Role};
use std::collections::HashMap;
use vstd::prelude::*;

verus! {

/// One live (not yet executed) action: the proposed effect together with the
/// identities that have approved it so far.
pub(crate) struct PendingEntry {
    pub(crate) action: Action,
    pub(crate) signers: Vec<u64>,
}

/// Abstract view of the engine's state, shared by the module interfaces: the
/// role registry, the derived board counter, the quorum parameter, and the
/// action store with its per-action signer sets.
pub trait MultisigStateModule: Sized {
    /// Well-formedness of the state.
    spec fn inv(&self) -> bool;

    /// Current role of a party; unknown identities hold `NoRole`.
    spec fn party_role(&self, party: u64) -> Role;

    /// Number of identities currently holding `BoardMember`.
    spec fn board_members_total(&self) -> nat;

    /// The required-approval threshold.
    spec fn quorum_threshold(&self) -> nat;

    /// How many action ids have been allocated; ids run from 1 to this value.
    spec fn actions_allocated(&self) -> nat;

    /// The pending action stored under `id`, if any.
    spec fn pending_action(&self, id: usize) -> Option<ActionView>;

    /// The identities recorded as approving action `id`.
    spec fn approvers(&self, id: usize) -> Set<u64>;
}

/// The two states cannot be told apart: same roles, same counters, same
/// quorum, and the same action store contents.
pub open spec fn keeps_state<M: MultisigStateModule>(pre: &M, post: &M) -> bool {
    &&& forall|p: u64|
        #![trigger pre.party_role(p)]
        #![trigger post.party_role(p)]
        post.party_role(p) == pre.party_role(p)
    &&& post.board_members_total() == pre.board_members_total()
    &&& post.quorum_threshold() == pre.quorum_threshold()
    &&& post.actions_allocated() == pre.actions_allocated()
    &&& forall|id: usize|
        #![trigger pre.pending_action(id)]
        #![trigger post.pending_action(id)]
        post.pending_action(id) == pre.pending_action(id)
    &&& forall|id: usize|
        #![trigger pre.approvers(id)]
        #![trigger post.approvers(id)]
        post.approvers(id) == pre.approvers(id)
}

impl MultisigStateModule for Multisig {
    open spec fn inv(&self) -> bool {
        Multisig::wf(self)
    }

    open spec fn party_role(&self, party: u64) -> Role {
        Multisig::role_of(self, party)
    }

    open spec fn board_members_total(&self) -> nat {
        Multisig::board_count(self)
    }

    open spec fn quorum_threshold(&self) -> nat {
        Multisig::quorum(self)
    }

    open spec fn actions_allocated(&self) -> nat {
        Multisig::action_count(self)
    }

    open spec fn pending_action(&self, id: usize) -> Option<ActionView> {
        Multisig::action_of(self, id)
    }

    open spec fn approvers(&self, id: usize) -> Set<u64> {
        Multisig::signers_of(self, id)
    }
}

/// The multisig governance engine.
///
/// Action ids are allocated from 1 upward and never reused; a retired action
/// leaves a tombstone in its slot. Identities are opaque handles supplied by
/// the entry layer; the engine never interprets them.
pub struct Multisig {
    /// Identity -> role; identities not present hold `Role::NoRole`.
    pub(crate) roles: HashMap<u64, Role>,
    /// Always equals the number of identities currently holding `BoardMember`.
    pub(crate) num_board_members: usize,
    /// Required number of live approvals; always between 1 and the board count.
    pub(crate) quorum: usize,
    /// Slot `i` holds the action with id `i + 1`, or a tombstone once retired.
    pub(crate) actions: Vec<Option<PendingEntry>>,
}

impl Multisig {
    /// Current role of a party; unknown identities hold `NoRole`.
    pub open(crate) spec fn role_of(&self, party: u64) -> Role {
        if self.roles@.contains_key(party) {
            self.roles@[party]
        } else {
            Role::NoRole
        }
    }

    /// The set of identities currently holding `BoardMember`.
    pub open spec fn board_members(&self) -> Set<u64> {
        Set::new(|p: u64| self.party_role(p) is BoardMember)
    }

    /// The derived board-member counter.
    pub open(crate) spec fn board_count(&self) -> nat {
        self.num_board_members as nat
    }

    /// The required-approval threshold.
    pub open(crate) spec fn quorum(&self) -> nat {
        self.quorum as nat
    }

    /// How many action ids have been allocated; ids run from 1 to this value.
    pub open(crate) spec fn action_count(&self) -> nat {
        self.actions@.len()
    }

    /// The pending action stored under `id`, or `None` if `id` was never
    /// allocated or the action has been retired.
    pub open(crate) spec fn action_of(&self, id: usize) -> Option<ActionView> {
        if 1 <= id && id <= self.actions@.len() {
            match self.actions@[id as int - 1] {
                Some(e) => Some(e.action@),
                None => None,
            }
        } else {
            None
        }
    }

    /// The identities recorded as approving action `id`.
    pub open(crate) spec fn signers_of(&self, id: usize) -> Set<u64> {
        if 1 <= id && id <= self.actions@.len() {
            match self.actions@[id as int - 1] {
                Some(e) => e.signers@.to_set(),
                None => Set::empty(),
            }
        } else {
            Set::empty()
        }
    }

    /// Recorded approvers of action `id` whose current role still grants
    /// signing capability. Quorum is evaluated against this set, not against
    /// the raw signer set, so revoked roles lose their weight.
    pub open spec fn live_signers(&self, id: usize) -> Set<u64> {
        self.approvers(id).filter(|p: u64| self.party_role(p).spec_can_sign())
    }

    /// Well-formedness: the board counter matches the registry, the quorum is
    /// satisfiable, and no signer is recorded twice for one action.
    pub open(crate) spec fn wf(&self) -> bool {
        &&& self.board_members().finite()
        &&& self.num_board_members == self.board_members().len()
        &&& 1 <= self.quorum <= self.num_board_members
        &&& forall|i: int|
            0 <= i < self.actions@.len() ==> ((#[trigger] self.actions@[i]) matches Some(e)
                ==> e.signers@.no_duplicates())
    }

    /// Board count that giving `party` role `role` would leave.
    pub open spec fn board_count_after(&self, party: u64, role: Role) -> int {
        self.board_count() - (if self.role_of(party) is BoardMember {
            1int
        } else {
            0int
        }) + (if role is BoardMember {
            1int
        } else {
            0int
        })
    }

    /// Creates the engine with its initial board and quorum. Every identity
    /// in `board` (duplicates collapse) becomes a board member; the quorum
    /// must be satisfiable by that board, else nothing is created.
    pub fn new(quorum: usize, board: Vec<u64>) -> (r: Result<Multisig, MultisigError>)
        ensures
            match r {
                Ok(m) => {
                    &&& m.inv()
                    &&& 1 <= quorum <= board@.to_set().len()
                    &&& m.quorum_threshold() == quorum
                    &&& m.board_members_total() == board@.to_set().len()
                    &&& forall|p: u64|
                        m.party_role(p) == (if board@.contains(p) {
                            Role::BoardMember
                        } else {
                            Role::NoRole
                        })
                    &&& m.actions_allocated() == 0
                    &&& forall|id: usize| m.pending_action(id) is None
                    &&& forall|id: usize| m.approvers(id) == Set::<u64>::empty()
                },
                Err(e) => {
                    &&& e is InvalidQuorum
                    &&& !(1 <= quorum <= board@.to_set().len())
                },
            },
    {
        let mut roles: HashMap<u64, Role> = HashMap::new();
        let mut count: usize = 0;
        let mut i: usize = 0;
        proof {
            assert(board@.take(0).to_set() =~= Set::<u64>::empty());
        }
        while i < board.len()
            invariant
                i <= board@.len(),
                count <= i,
                roles@.dom().finite(),
                forall|p: u64|
                    (#[trigger] roles@.contains_key(p)) <==> board@.take(i as int).contains(p),
                forall|p: u64| roles@.contains_key(p) ==> roles@[p] == Role::BoardMember,
                count == board@.take(i as int).to_set().len(),
            decreases board@.len() - i,
        {
            let p = board[i];
            proof {
                broadcast use vstd::seq_lib::group_seq_properties;

                assert(board@.take(i + 1) =~= board@.take(i as int).push(board@[i as int]));
            }
            if !roles.contains_key(&p) {
                count = count + 1;
                roles.insert(p, Role::BoardMember);
            }
            proof {
                broadcast use vstd::seq_lib::group_seq_properties;

                assert(board@.take(i + 1).to_set() =~= board@.take(i as int).to_set().insert(p));
                assert(board@.take(i as int).to_set().insert(p).len() == board@.take(
                    i as int,
                ).to_set().len() + (if board@.take(i as int).to_set().contains(p) {
                    0int
                } else {
                    1int
                }));
            }
            i = i + 1;
        }
        proof {
            assert(board@.take(board@.len() as int) =~= board@);
        }
        if quorum == 0 || quorum > count {
            return Err(MultisigError::InvalidQuorum);
        }
        let m = Multisig { roles, num_board_members: count, quorum, actions: Vec::new() };
        proof {
            assert(m.board_members() =~= board@.to_set());
        }
        Ok(m)
    }

    /// Role lookup; the registry's single read entry point.
    pub fn get_role(&self, party: u64) -> (r: Role)
        ensures
            r == self.party_role(party),
    {
        match self.roles.get(&party) {
            Some(role) => *role,
            None => Role::NoRole,
        }
    }

    /// The current number of board members.
    pub fn get_board_member_count(&self) -> (n: usize)
        ensures
            n == self.board_members_total(),
    {
        self.num_board_members
    }

    /// The current required-approval threshold.
    pub fn get_quorum(&self) -> (n: usize)
        ensures
            n == self.quorum_threshold(),
    {
        self.quorum
    }

    /// How many action ids have been allocated so far.
    pub fn get_action_count(&self) -> (n: usize)
        ensures
            n == self.actions_allocated(),
    {
        self.actions.len()
    }

    /// The pending action stored under `action_id`, if that id is allocated
    /// and not yet retired.
    pub fn get_pending_action(&self, action_id: usize) -> (r: Option<&Action>)
        ensures
            match r {
                Some(a) => self.pending_action(action_id) == Some(a@),
                None => self.pending_action(action_id) is None,
            },
    {
        if action_id == 0 || action_id > self.actions.len() {
            return None;
        }
        match &self.actions[action_id - 1] {
            Some(entry) => Some(&entry.action),
            None => None,
        }
    }

    /// The registry's single mutator: gives `party` role `role` and keeps the
    /// board counter in step. Callers must have checked that the board that
    /// remains can still satisfy the quorum.
    pub(crate) fn set_role(&mut self, party: u64, role: Role)
        requires
            old(self).wf(),
            old(self).board_count_after(party, role) >= old(self).quorum(),
        ensures
            final(self).wf(),
            forall|p: u64|
                final(self).role_of(p) == (if p == party {
                    role
                } else {
                    old(self).role_of(p)
                }),
            final(self).board_count() == old(self).board_count_after(party, role),
            final(self).quorum() == old(self).quorum(),
            final(self).action_count() == old(self).action_count(),
            forall|id: usize| final(self).action_of(id) == old(self).action_of(id),
            forall|id: usize| final(self).signers_of(id) == old(self).signers_of(id),
    {
        let old_role = self.get_role(party);
        let was_board = old_role.can_sign();
        let now_board = role.can_sign();
        self.roles.insert(party, role);
        let registered = self.roles.len();
        proof {
            let pre = old(self).board_members();
            assert(pre.contains(party) == was_board);
            if role is BoardMember {
                assert(self.board_members() =~= pre.insert(party));
                assert(pre.insert(party).len() == pre.len() + (if pre.contains(party) {
                    0int
                } else {
                    1int
                }));
            } else {
                assert(self.board_members() =~= pre.remove(party));
                assert(pre.len() == pre.remove(party).len() + (if pre.contains(party) {
                    1int
                } else {
                    0int
                }));
            }
            assert(self.board_members().subset_of(self.roles@.dom()));
            vstd::set_lib::lemma_len_subset(self.board_members(), self.roles@.dom());
            assert(self.roles@.dom().len() == registered);
        }
        if was_board && !now_board {
            self.num_board_members = self.num_board_members - 1;
        } else if !was_board && now_board {
            self.num_board_members = self.num_board_members + 1;
        }
        proof {
            let pre = old(self).board_members();
            if role is BoardMember {
                assert(self.board_members() =~= pre.insert(party));
            } else {
                assert(self.board_members() =~= pre.remove(party));
            }
        }
    }
}

} // verus!
