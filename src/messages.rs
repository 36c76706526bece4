//! The messages that transactions carry, the events they emit, and the dispatcher.
use vstd::prelude::*;
use crate::bytes::{AccountId, Bytes128, CheckpointId, H256};
use crate::errors::DispatchError;
use crate::handlers::{
    org_account_of, register_member_spec, register_org_spec, register_project_spec,
    register_user_spec, set_checkpoint_spec, transfer_from_org_spec, transfer_spec,
    unregister_org_spec, unregister_user_spec,
};
use crate::ids::{Id, ProjectName, ProjectRegistrant};
use crate::registry::{checkpoint_id_of, create_checkpoint_spec, Registry, State};
use crate::state::opt_view;

verus! {

/// A ledger message: one kind of registry transaction.
#[derive(Clone, Debug, PartialEq, Eq)]
pub enum Message {
    RegisterOrg { org_id: Id },
    UnregisterOrg { org_id: Id },
    RegisterUser { user_id: Id },
    UnregisterUser { user_id: Id },
    RegisterMember { org_id: Id, user_id: Id },
    RegisterProject {
        project_name: ProjectName,
        project_domain: ProjectRegistrant,
        checkpoint_id: CheckpointId,
        metadata: Bytes128,
    },
    SetCheckpoint {
        project_name: ProjectName,
        project_domain: ProjectRegistrant,
        new_checkpoint_id: CheckpointId,
    },
    CreateCheckpoint { project_hash: H256, previous_checkpoint_id: Option<CheckpointId> },
    Transfer { recipient: AccountId, amount: u128 },
    TransferFromOrg { org_id: Id, recipient: AccountId, amount: u128 },
}

/// An event emitted by a message that succeeded.
#[derive(Clone, Debug, PartialEq, Eq)]
pub enum RegistryEvent {
    /// A user (first) joined an org (second).
    MemberRegistered(Id, Id),
    OrgRegistered(Id),
    OrgUnregistered(Id),
    ProjectRegistered(ProjectName, ProjectRegistrant),
    UserRegistered(Id),
    UserUnregistered(Id),
    CheckpointCreated(CheckpointId),
    CheckpointSet(ProjectName, ProjectRegistrant, CheckpointId),
}

/// What applying `m` does to `s`, once its fee is paid. `seed` is the block's random seed.
pub open spec fn dispatch_spec(s: State, author: Seq<u8>, m: Message, seed: Seq<u8>) -> Result<State, DispatchError> {
    match m {
        Message::RegisterOrg { org_id } => register_org_spec(s, author, org_id@, org_account_of(seed, org_id@)),
        Message::UnregisterOrg { org_id } => unregister_org_spec(s, author, org_id@),
        Message::RegisterUser { user_id } => register_user_spec(s, author, user_id@),
        Message::UnregisterUser { user_id } => unregister_user_spec(s, author, user_id@),
        Message::RegisterMember { org_id, user_id } => register_member_spec(s, author, org_id@, user_id@),
        Message::RegisterProject { project_name, project_domain, checkpoint_id, metadata } =>
            register_project_spec(s, author, project_name@, project_domain@, checkpoint_id@, metadata@),
        Message::SetCheckpoint { project_name, project_domain, new_checkpoint_id } =>
            set_checkpoint_spec(s, author, project_name@, project_domain@, new_checkpoint_id@),
        Message::CreateCheckpoint { project_hash, previous_checkpoint_id } =>
            match create_checkpoint_spec(s, opt_view(previous_checkpoint_id), project_hash@) {
                Ok((s2, _)) => Ok(s2),
                Err(e) => Err(e),
            },
        Message::Transfer { recipient, amount } => transfer_spec(s, author, recipient@, amount),
        Message::TransferFromOrg { org_id, recipient, amount } =>
            transfer_from_org_spec(s, author, org_id@, recipient@, amount),
    }
}

/// `e` is the event that `m` emits when it succeeds; transfers emit none.
pub open spec fn is_success_event(m: Message, e: Option<RegistryEvent>) -> bool {
    match m {
        Message::RegisterOrg { org_id } => e matches Some(RegistryEvent::OrgRegistered(id)) && id@ == org_id@,
        Message::UnregisterOrg { org_id } => e matches Some(RegistryEvent::OrgUnregistered(id)) && id@ == org_id@,
        Message::RegisterUser { user_id } => e matches Some(RegistryEvent::UserRegistered(id)) && id@ == user_id@,
        Message::UnregisterUser { user_id } => e matches Some(RegistryEvent::UserUnregistered(id)) && id@ == user_id@,
        Message::RegisterMember { org_id, user_id } => e matches Some(RegistryEvent::MemberRegistered(u, o))
            && u@ == user_id@ && o@ == org_id@,
        Message::RegisterProject { project_name, project_domain, .. } => e matches Some(
            RegistryEvent::ProjectRegistered(n, d),
        ) && n@ == project_name@ && d@ == project_domain@,
        Message::SetCheckpoint { project_name, project_domain, new_checkpoint_id } => e matches Some(
            RegistryEvent::CheckpointSet(n, d, c),
        ) && n@ == project_name@ && d@ == project_domain@ && c@ == new_checkpoint_id@,
        Message::CreateCheckpoint { project_hash, previous_checkpoint_id } => e matches Some(
            RegistryEvent::CheckpointCreated(c),
        ) && c@ == checkpoint_id_of(opt_view(previous_checkpoint_id), project_hash@),
        Message::Transfer { .. } => e is None,
        Message::TransferFromOrg { .. } => e is None,
    }
}

impl Registry {
    /// Applies `message` on behalf of `author`, whose fee is already paid, and returns the event
    /// it emits. `seed` is the block's random seed, from which new org accounts are derived.
    pub fn dispatch(&mut self, author: &AccountId, message: &Message, seed: &H256) -> (r: Result<Option<RegistryEvent>, DispatchError>)
        requires
            old(self).wf(),
        ensures
            final(self).wf(),
            match dispatch_spec(old(self)@, author@, *message, seed@) {
                Ok(s) => r is Ok && final(self)@ == s && is_success_event(*message, r->Ok_0),
                Err(e) => r == Err::<Option<RegistryEvent>, DispatchError>(e) && final(self)@ == old(self)@,
            },
    {
        match message {
            Message::RegisterOrg { org_id } => match self.register_org(author, org_id, seed) {
                Ok(()) => Ok(Some(RegistryEvent::OrgRegistered(org_id.duplicate()))),
                Err(e) => Err(e),
            },
            Message::UnregisterOrg { org_id } => match self.unregister_org(author, org_id) {
                Ok(()) => Ok(Some(RegistryEvent::OrgUnregistered(org_id.duplicate()))),
                Err(e) => Err(e),
            },
            Message::RegisterUser { user_id } => match self.register_user(author, user_id) {
                Ok(()) => Ok(Some(RegistryEvent::UserRegistered(user_id.duplicate()))),
                Err(e) => Err(e),
            },
            Message::UnregisterUser { user_id } => match self.unregister_user(author, user_id) {
                Ok(()) => Ok(Some(RegistryEvent::UserUnregistered(user_id.duplicate()))),
                Err(e) => Err(e),
            },
            Message::RegisterMember { org_id, user_id } => match self.register_member(author, org_id, user_id) {
                Ok(()) => Ok(Some(RegistryEvent::MemberRegistered(user_id.duplicate(), org_id.duplicate()))),
                Err(e) => Err(e),
            },
            Message::RegisterProject { project_name, project_domain, checkpoint_id, metadata } =>
                match self.register_project(author, project_name, project_domain, checkpoint_id, metadata) {
                    Ok(()) => Ok(Some(RegistryEvent::ProjectRegistered(project_name.duplicate(), project_domain.duplicate()))),
                    Err(e) => Err(e),
                },
            Message::SetCheckpoint { project_name, project_domain, new_checkpoint_id } =>
                match self.set_checkpoint(author, project_name, project_domain, new_checkpoint_id) {
                    Ok(()) => Ok(Some(RegistryEvent::CheckpointSet(
                        project_name.duplicate(),
                        project_domain.duplicate(),
                        *new_checkpoint_id,
                    ))),
                    Err(e) => Err(e),
                },
            Message::CreateCheckpoint { project_hash, previous_checkpoint_id } =>
                match self.create_checkpoint(*previous_checkpoint_id, *project_hash) {
                    Ok(id) => Ok(Some(RegistryEvent::CheckpointCreated(id))),
                    Err(e) => Err(e),
                },
            Message::Transfer { recipient, amount } => match self.transfer(author, recipient, *amount) {
                Ok(()) => Ok(None),
                Err(e) => Err(e),
            },
            Message::TransferFromOrg { org_id, recipient, amount } =>
                match self.transfer_from_org(author, org_id, recipient, *amount) {
                    Ok(()) => Ok(None),
                    Err(e) => Err(e),
                },
        }
    }
}

} // verus!
