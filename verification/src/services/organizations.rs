use vstd::prelude::*;
use crate::error::AppError;
use crate::role::Role;

verus! {

/// A stored organisation, as far as the flow reads it.
pub struct OrgRecord {
    pub id: [u8; 16],
    pub name: String,
}

/// A stored membership of a user, joined with its organisation; the role is
/// the text of the role column.
pub struct MembershipRow {
    pub org: OrgRecord,
    pub role: String,
}

/// A membership to store.
pub struct NewMembership {
    pub user_id: [u8; 16],
    pub org_id: [u8; 16],
    pub role: Role,
}

/// What the organisation-creation flow asks of storage, or its answer. All the
/// storage operations run in one transaction: nothing is written unless it is committed.
pub enum OrgCommand {
    BeginTransaction,
    InsertOrganization { name: String },
    InsertMembership(NewMembership),
    Commit,
    Reply(Result<OrgRecord, AppError>),
}

/// What storage hands back to the organisation-creation flow.
pub enum OrgEvent {
    TransactionBegun,
    OrganizationInserted(OrgRecord),
    MembershipInserted,
    Committed,
    StorageFailed(String),
}

/// Where an organisation creation stands.
pub enum OrgCreation {
    AwaitTransaction { creator_id: [u8; 16], name: String },
    AwaitOrganization { creator_id: [u8; 16] },
    AwaitMembership { org: OrgRecord },
    AwaitCommit { org: OrgRecord },
    Finished,
}

/// The membership that makes the creator of an organisation its owner.
pub open spec fn owner_membership(creator_id: [u8; 16], org_id: [u8; 16]) -> NewMembership {
    NewMembership { user_id: creator_id, org_id, role: Role::Owner }
}

/// One step of an organisation creation.
pub open spec fn org_transition(state: OrgCreation, event: OrgEvent, next: OrgCreation, cmd: OrgCommand) -> bool {
    let internal = next is Finished && (cmd matches OrgCommand::Reply(Err(e)) && e is Internal);
    if state is Finished {
        internal
    } else if event is StorageFailed {
        next is Finished && (cmd matches OrgCommand::Reply(Err(e)) && (e matches AppError::Database(m)
            && m == event->StorageFailed_0))
    } else {
        match (state, event) {
            (OrgCreation::AwaitTransaction { creator_id, name }, OrgEvent::TransactionBegun) =>
                next == (OrgCreation::AwaitOrganization { creator_id })
                && cmd == (OrgCommand::InsertOrganization { name }),
            (OrgCreation::AwaitOrganization { creator_id }, OrgEvent::OrganizationInserted(org)) =>
                cmd == OrgCommand::InsertMembership(owner_membership(creator_id, org.id))
                && next == (OrgCreation::AwaitMembership { org }),
            (OrgCreation::AwaitMembership { org }, OrgEvent::MembershipInserted) =>
                next == (OrgCreation::AwaitCommit { org }) && cmd is Commit,
            (OrgCreation::AwaitCommit { org }, OrgEvent::Committed) =>
                next is Finished && cmd == OrgCommand::Reply(Ok(org)),
            _ => internal,
        }
    }
}

impl NewMembership {
    /// The membership that makes `creator_id` the owner of `org_id`.
    pub fn owner(creator_id: [u8; 16], org_id: [u8; 16]) -> (m: NewMembership)
        ensures
            m == owner_membership(creator_id, org_id),
    {
        NewMembership { user_id: creator_id, org_id, role: Role::Owner }
    }
}

impl OrgCreation {
    /// Starts creating an organisation named `name` for `creator_id`: open a transaction.
    pub fn start(creator_id: [u8; 16], name: String) -> (res: (OrgCreation, OrgCommand))
        ensures
            res.0 == (OrgCreation::AwaitTransaction { creator_id, name }),
            res.1 is BeginTransaction,
    {
        (OrgCreation::AwaitTransaction { creator_id, name }, OrgCommand::BeginTransaction)
    }

    /// Advances the creation with what storage handed back.
    pub fn step(self, event: OrgEvent) -> (res: (OrgCreation, OrgCommand))
        ensures
            org_transition(self, event, res.0, res.1),
    {
        let internal = (OrgCreation::Finished, OrgCommand::Reply(Err(AppError::Internal)));
        if let OrgCreation::Finished = self {
            return internal;
        }
        if let OrgEvent::StorageFailed(m) = event {
            return (OrgCreation::Finished, OrgCommand::Reply(Err(AppError::Database(m))));
        }
        match (self, event) {
            (OrgCreation::AwaitTransaction { creator_id, name }, OrgEvent::TransactionBegun) =>
                (OrgCreation::AwaitOrganization { creator_id }, OrgCommand::InsertOrganization { name }),
            (OrgCreation::AwaitOrganization { creator_id }, OrgEvent::OrganizationInserted(org)) => {
                let membership = NewMembership::owner(creator_id, org.id);
                (OrgCreation::AwaitMembership { org }, OrgCommand::InsertMembership(membership))
            },
            (OrgCreation::AwaitMembership { org }, OrgEvent::MembershipInserted) =>
                (OrgCreation::AwaitCommit { org }, OrgCommand::Commit),
            (OrgCreation::AwaitCommit { org }, OrgEvent::Committed) =>
                (OrgCreation::Finished, OrgCommand::Reply(Ok(org))),
            _ => internal,
        }
    }
}

} // verus!

verus! {

/// The creator of an organisation becomes its owner, the role that reaches
/// every level.
pub proof fn lemma_creator_becomes_owner(creator_id: [u8; 16], org: OrgRecord, next: OrgCreation, cmd: OrgCommand)
    requires
        org_transition(OrgCreation::AwaitOrganization { creator_id }, OrgEvent::OrganizationInserted(org), next, cmd),
    ensures
        cmd matches OrgCommand::InsertMembership(m) && m.user_id == creator_id && m.org_id == org.id
            && m.role == Role::Owner,
        forall|r: Role| crate::role::role_rank(Role::Owner) >= #[trigger] crate::role::role_rank(r),
{
}

/// Creation is atomic: the organisation is answered only after the commit of
/// the transaction that also holds the owner membership.
pub proof fn lemma_org_answered_after_commit(state: OrgCreation, event: OrgEvent, next: OrgCreation, org: OrgRecord)
    requires
        org_transition(state, event, next, OrgCommand::Reply(Ok(org))),
    ensures
        state == (OrgCreation::AwaitCommit { org }),
        event is Committed,
{
}

} // verus!
