//! Shared data definitions: party roles, the action tagged union, call
//! payloads, the error taxonomy, and the outcome of executing an action.

use vstd::prelude::*;

verus! {

/// Capability tier of a party. `NoRole` stands for an identity the registry
/// does not know (or one whose role was revoked).
///
/// Invariant of the role model: a `BoardMember` may propose and sign, a
/// `Proposer` may propose but not sign, and `NoRole` may do neither.
#[derive(Clone, Copy, Debug, PartialEq, Eq, Structural)]
pub enum Role {
    NoRole,
    Proposer,
    BoardMember,
}

impl Role {
    /// Whether this role grants the right to create new actions.
    pub open spec fn spec_can_propose(self) -> bool {
        self is Proposer || self is BoardMember
    }

    /// Whether this role grants the right to approve (sign) actions.
    pub open spec fn spec_can_sign(self) -> bool {
        self is BoardMember
    }

    pub fn can_propose(self) -> (b: bool)
        ensures
            b == self.spec_can_propose(),
    {
        match self {
            Role::NoRole => false,
            Role::Proposer => true,
            Role::BoardMember => true,
        }
    }

    pub fn can_sign(self) -> (b: bool)
        ensures
            b == self.spec_can_sign(),
    {
        match self {
            Role::NoRole => false,
            Role::Proposer => false,
            Role::BoardMember => true,
        }
    }
}

/// Payload of a native-asset transfer-execute action: destination, amount
/// (arbitrary-precision unsigned magnitude, big-endian bytes), the entry
/// point to invoke (empty means a bare value transfer), and its arguments.
#[derive(Debug, PartialEq, Eq)]
pub struct CallData {
    pub to: u64,
    pub egld_amount: Vec<u8>,
    pub endpoint_name: Vec<u8>,
    pub arguments: Vec<Vec<u8>>,
}

/// Mathematical model of a [`CallData`] value.
#[verifier::ext_equal]
pub struct CallDataView {
    pub to: u64,
    pub egld_amount: Seq<u8>,
    pub endpoint_name: Seq<u8>,
    pub arguments: Seq<Seq<u8>>,
}

impl View for CallData {
    type V = CallDataView;

    open spec fn view(&self) -> CallDataView {
        CallDataView {
            to: self.to,
            egld_amount: self.egld_amount@,
            endpoint_name: self.endpoint_name@,
            arguments: self.arguments.deep_view(),
        }
    }
}

/// Payload of a named-token transfer-execute action: as [`CallData`], but the
/// amount moved is of the named token instead of the native asset.
#[derive(Debug, PartialEq, Eq)]
pub struct EsdtCallData {
    pub to: u64,
    pub token: Vec<u8>,
    pub amount: Vec<u8>,
    pub endpoint_name: Vec<u8>,
    pub arguments: Vec<Vec<u8>>,
}

/// Mathematical model of an [`EsdtCallData`] value.
#[verifier::ext_equal]
pub struct EsdtCallDataView {
    pub to: u64,
    pub token: Seq<u8>,
    pub amount: Seq<u8>,
    pub endpoint_name: Seq<u8>,
    pub arguments: Seq<Seq<u8>>,
}

impl View for EsdtCallData {
    type V = EsdtCallDataView;

    open spec fn view(&self) -> EsdtCallDataView {
        EsdtCallDataView {
            to: self.to,
            token: self.token@,
            amount: self.amount@,
            endpoint_name: self.endpoint_name@,
            arguments: self.arguments.deep_view(),
        }
    }
}

/// An action a quorum of the board can be asked to approve: a membership
/// change, a quorum change, or an outbound transfer, possibly with a call.
#[derive(Debug, PartialEq, Eq)]
pub enum Action {
    AddBoardMember(u64),
    AddProposer(u64),
    RemoveUser(u64),
    ChangeQuorum(usize),
    SendTransferExecute(CallData),
    SendEsdtTransferExecute(EsdtCallData),
}

/// Mathematical model of an [`Action`] value.
#[verifier::ext_equal]
pub enum ActionView {
    AddBoardMember(u64),
    AddProposer(u64),
    RemoveUser(u64),
    ChangeQuorum(usize),
    SendTransferExecute(CallDataView),
    SendEsdtTransferExecute(EsdtCallDataView),
}

impl View for Action {
    type V = ActionView;

    open spec fn view(&self) -> ActionView {
        match self {
            Action::AddBoardMember(p) => ActionView::AddBoardMember(*p),
            Action::AddProposer(p) => ActionView::AddProposer(*p),
            Action::RemoveUser(p) => ActionView::RemoveUser(*p),
            Action::ChangeQuorum(n) => ActionView::ChangeQuorum(*n),
            Action::SendTransferExecute(d) => ActionView::SendTransferExecute(d@),
            Action::SendEsdtTransferExecute(d) => ActionView::SendEsdtTransferExecute(d@),
        }
    }
}

/// Why an operation was refused. Every failure leaves the engine's state
/// exactly as it was.
#[derive(Clone, Copy, Debug, PartialEq, Eq, Structural)]
pub enum MultisigError {
    PermissionDenied,
    ActionNotFound,
    QuorumNotReached,
    InvalidQuorum,
    LastBoardMemberError,
}

impl MultisigError {
    /// A stable, kind-specific description of the failure.
    pub fn message(self) -> (s: &'static str)
        ensures
            self is PermissionDenied ==> s@ == "permission denied"@,
            self is ActionNotFound ==> s@ == "action does not exist"@,
            self is QuorumNotReached ==> s@ == "quorum has not been reached"@,
            self is InvalidQuorum ==> s@ == "invalid quorum"@,
            self is LastBoardMemberError ==> s@ == "quorum cannot exceed board size"@,
    {
        match self {
            MultisigError::PermissionDenied => "permission denied",
            MultisigError::ActionNotFound => "action does not exist",
            MultisigError::QuorumNotReached => "quorum has not been reached",
            MultisigError::InvalidQuorum => "invalid quorum",
            MultisigError::LastBoardMemberError => "quorum cannot exceed board size",
        }
    }
}

/// What a successful `perform_action` asks its caller to do next. Membership
/// and quorum changes are applied inside the engine; an outbound transfer is
/// handed back as an instruction for the ledger, since dispatching value is
/// the entry layer's job.
#[derive(Debug, PartialEq, Eq)]
pub enum PerformOutcome {
    Applied,
    Transfer(CallData),
    EsdtTransfer(EsdtCallData),
}

/// Mathematical model of a [`PerformOutcome`] value.
#[verifier::ext_equal]
pub enum PerformOutcomeView {
    Applied,
    Transfer(CallDataView),
    EsdtTransfer(EsdtCallDataView),
}

impl View for PerformOutcome {
    type V = PerformOutcomeView;

    open spec fn view(&self) -> PerformOutcomeView {
        match self {
            PerformOutcome::Applied => PerformOutcomeView::Applied,
            PerformOutcome::Transfer(d) => PerformOutcomeView::Transfer(d@),
            PerformOutcome::EsdtTransfer(d) => PerformOutcomeView::EsdtTransfer(d@),
        }
    }
}

} // verus!
