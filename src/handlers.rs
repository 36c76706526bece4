//! The message handlers of the registry. Each validates fully before it changes anything: a
//! refused message leaves the state as it was.
use vstd::prelude::*;
use crate::bytes::{append_bytes, AccountId, Bytes128, CheckpointId, H256};
use crate::codec::{blake2_256, blake2_256_of};
use crate::errors::{DispatchError, RegistryError};
use crate::ids::{Id, ProjectName, ProjectRegistrant, Registrant};
use crate::registry::{
    balance_of, has_user_with_account, reaches, is_member_account, user_with_account, with_balance,
    Registry, State,
};
use crate::state::{
    copy_ids, copy_names, ids_contain, Org, OrgView, Project, ProjectView, User,
    UserView,
};

verus! {

/// What registering an org or a user costs, on top of the transaction fee. It is burned.
pub const REGISTRATION_FEE: u128 = 10;

/// `org-account-id`: separates the derivation of org accounts from other uses of the seed.
pub open spec fn org_account_context() -> Seq<u8> {
    seq![0x6fu8, 0x72, 0x67, 0x2d, 0x61, 0x63, 0x63, 0x6f, 0x75, 0x6e, 0x74, 0x2d, 0x69, 0x64]
}

/// The account of a new org: the Blake2-256 hash of the block's random seed, the context
/// `org-account-id` and the org's id.
pub open spec fn org_account_of(seed: Seq<u8>, org_id: Seq<u8>) -> Seq<u8> {
    blake2_256_of(seed + org_account_context() + org_id)@
}

/// How a handler's result and the state after it relate to what its specification gives.
pub open spec fn applied(old: State, new: State, r: Result<(), DispatchError>, outcome: Result<State, DispatchError>) -> bool {
    match outcome {
        Ok(s) => r is Ok && new == s,
        Err(e) => r == Err::<(), DispatchError>(e) && new == old,
    }
}

/// A registry error as the error of a handler.
pub open spec fn refused(e: RegistryError) -> DispatchError {
    DispatchError::Registry(e)
}

/// The id is held by a live org or user.
pub open spec fn id_taken(s: State, id: Seq<u8>) -> bool {
    s.users.contains_key(id) || s.orgs.contains_key(id)
}

/// `s` after `a` paid the registration fee.
pub open spec fn after_registration_fee(s: State, a: Seq<u8>) -> State {
    with_balance(s, a, (balance_of(s, a) - REGISTRATION_FEE) as u128)
}

/// Registering an org.
pub open spec fn register_org_spec(s: State, author: Seq<u8>, org_id: Seq<u8>, org_account: Seq<u8>) -> Result<State, DispatchError> {
    if id_taken(s, org_id) {
        Err(refused(RegistryError::IdAlreadyTaken))
    } else if s.retired.contains(org_id) {
        Err(refused(RegistryError::IdRetired))
    } else if !has_user_with_account(s, author) {
        Err(refused(RegistryError::AuthorHasNoAssociatedUser))
    } else if balance_of(s, author) < REGISTRATION_FEE {
        Err(DispatchError::InsufficientBalance)
    } else {
        let paid = after_registration_fee(s, author);
        Ok(State {
            orgs: paid.orgs.insert(
                org_id,
                OrgView { account: org_account, members: seq![user_with_account(s, author)], projects: seq![] },
            ),
            retired: paid.retired.insert(org_id),
            ..paid
        })
    }
}

/// Unregistering an org.
pub open spec fn unregister_org_spec(s: State, author: Seq<u8>, org_id: Seq<u8>) -> Result<State, DispatchError> {
    if !s.orgs.contains_key(org_id) {
        Err(refused(RegistryError::InexistentOrg))
    } else if !(s.orgs[org_id].projects.len() == 0 && has_user_with_account(s, author)
        && s.orgs[org_id].members == seq![user_with_account(s, author)]) {
        Err(refused(RegistryError::UnregisterableOrg))
    } else {
        Ok(State { orgs: s.orgs.remove(org_id), ..s })
    }
}

/// Registering a user bound to the author's account.
pub open spec fn register_user_spec(s: State, author: Seq<u8>, user_id: Seq<u8>) -> Result<State, DispatchError> {
    if id_taken(s, user_id) {
        Err(refused(RegistryError::IdAlreadyTaken))
    } else if s.retired.contains(user_id) {
        Err(refused(RegistryError::IdRetired))
    } else if has_user_with_account(s, author) {
        Err(refused(RegistryError::UserAccountAssociated))
    } else if balance_of(s, author) < REGISTRATION_FEE {
        Err(DispatchError::InsufficientBalance)
    } else {
        let paid = after_registration_fee(s, author);
        Ok(State {
            users: paid.users.insert(user_id, UserView { account: author, projects: seq![] }),
            retired: paid.retired.insert(user_id),
            ..paid
        })
    }
}

/// The user is a member of some org.
pub open spec fn member_of_some_org(s: State, user_id: Seq<u8>) -> bool {
    exists|k: Seq<u8>| s.orgs.contains_key(k) && #[trigger] s.orgs[k].members.contains(user_id)
}

/// Unregistering the author's own user.
pub open spec fn unregister_user_spec(s: State, author: Seq<u8>, user_id: Seq<u8>) -> Result<State, DispatchError> {
    if !s.users.contains_key(user_id) {
        Err(refused(RegistryError::InexistentUser))
    } else if s.users[user_id].account != author {
        Err(refused(RegistryError::InsufficientSenderPermissions))
    } else if s.users[user_id].projects.len() != 0 || member_of_some_org(s, user_id) {
        Err(refused(RegistryError::UnregisterableUser))
    } else {
        Ok(State { users: s.users.remove(user_id), ..s })
    }
}

/// Adding a member to an org.
pub open spec fn register_member_spec(s: State, author: Seq<u8>, org_id: Seq<u8>, user_id: Seq<u8>) -> Result<State, DispatchError> {
    if !s.orgs.contains_key(org_id) {
        Err(refused(RegistryError::InexistentOrg))
    } else if !is_member_account(s, s.orgs[org_id], author) {
        Err(refused(RegistryError::InsufficientSenderPermissions))
    } else if !s.users.contains_key(user_id) {
        Err(refused(RegistryError::InexistentUser))
    } else if s.orgs[org_id].members.contains(user_id) {
        Err(refused(RegistryError::AlreadyAMember))
    } else {
        let org = s.orgs[org_id];
        Ok(State { orgs: s.orgs.insert(org_id, OrgView { members: org.members.push(user_id), ..org }), ..s })
    }
}

/// Why the author may not act for the registrant, if they may not: the registrant must exist,
/// and the author must be a member of the org, or be the user's account.
pub open spec fn registrant_refusal(s: State, author: Seq<u8>, domain: Registrant) -> Option<RegistryError> {
    match domain {
        Registrant::Org(o) => if !s.orgs.contains_key(o) {
            Some(RegistryError::InexistentOrg)
        } else if !is_member_account(s, s.orgs[o], author) {
            Some(RegistryError::InsufficientSenderPermissions)
        } else {
            None
        },
        Registrant::User(u) => if !s.users.contains_key(u) {
            Some(RegistryError::InexistentUser)
        } else if s.users[u].account != author {
            Some(RegistryError::InsufficientSenderPermissions)
        } else {
            None
        },
    }
}

/// `s` with `name` appended to the project list of the registrant.
pub open spec fn with_owned_project(s: State, domain: Registrant, name: Seq<u8>) -> State {
    match domain {
        Registrant::Org(o) => State {
            orgs: s.orgs.insert(o, OrgView { projects: s.orgs[o].projects.push(name), ..s.orgs[o] }),
            ..s
        },
        Registrant::User(u) => State {
            users: s.users.insert(u, UserView { projects: s.users[u].projects.push(name), ..s.users[u] }),
            ..s
        },
    }
}

/// Registering a project. The checkpoint it names must already exist: a project always starts
/// from a stored checkpoint, so that later checkpoints can be checked against it.
pub open spec fn register_project_spec(
    s: State,
    author: Seq<u8>,
    name: Seq<u8>,
    domain: Registrant,
    checkpoint_id: Seq<u8>,
    metadata: Seq<u8>,
) -> Result<State, DispatchError> {
    if s.projects.contains_key((name, domain)) {
        Err(refused(RegistryError::DuplicateProjectId))
    } else if registrant_refusal(s, author, domain) is Some {
        Err(refused(registrant_refusal(s, author, domain)->Some_0))
    } else if !s.checkpoints.contains_key(checkpoint_id) {
        Err(refused(RegistryError::InexistentCheckpointId))
    } else {
        let owned = with_owned_project(s, domain, name);
        Ok(State {
            projects: owned.projects.insert(
                (name, domain),
                ProjectView { initial_cp: checkpoint_id, current_cp: checkpoint_id, metadata },
            ),
            ..owned
        })
    }
}

/// Moving a project to a new checkpoint, which must descend from its initial checkpoint.
pub open spec fn set_checkpoint_spec(s: State, author: Seq<u8>, name: Seq<u8>, domain: Registrant, new_cp: Seq<u8>) -> Result<State, DispatchError> {
    if !s.checkpoints.contains_key(new_cp) {
        Err(refused(RegistryError::InexistentCheckpointId))
    } else if !s.projects.contains_key((name, domain)) {
        Err(refused(RegistryError::InexistentProjectId))
    } else if registrant_refusal(s, author, domain) is Some {
        Err(refused(registrant_refusal(s, author, domain)->Some_0))
    } else if !s.checkpoints.contains_key(s.projects[(name, domain)].initial_cp) {
        Err(refused(RegistryError::InexistentInitialProjectCheckpoint))
    } else if !reaches(s.checkpoints, new_cp, s.projects[(name, domain)].initial_cp) {
        Err(refused(RegistryError::InvalidCheckpointAncestry))
    } else {
        let p = s.projects[(name, domain)];
        Ok(State { projects: s.projects.insert((name, domain), ProjectView { current_cp: new_cp, ..p }), ..s })
    }
}

/// Moving funds between two accounts. Moving funds to the sender itself changes nothing.
pub open spec fn transfer_spec(s: State, from: Seq<u8>, to: Seq<u8>, amount: u128) -> Result<State, DispatchError> {
    if balance_of(s, from) < amount {
        Err(DispatchError::InsufficientBalance)
    } else {
        let s1 = with_balance(s, from, (balance_of(s, from) - amount) as u128);
        if balance_of(s1, to) + amount > u128::MAX {
            Err(DispatchError::BalanceOverflow)
        } else {
            Ok(with_balance(s1, to, (balance_of(s1, to) + amount) as u128))
        }
    }
}

/// Moving funds out of an org's account, on behalf of one of its members.
pub open spec fn transfer_from_org_spec(s: State, author: Seq<u8>, org_id: Seq<u8>, to: Seq<u8>, amount: u128) -> Result<State, DispatchError> {
    if !s.orgs.contains_key(org_id) {
        Err(refused(RegistryError::InexistentOrg))
    } else if !is_member_account(s, s.orgs[org_id], author) {
        Err(refused(RegistryError::InsufficientSenderPermissions))
    } else {
        transfer_spec(s, s.orgs[org_id].account, to, amount)
    }
}

fn org_account_context_bytes() -> (r: Vec<u8>)
    ensures
        r@ == org_account_context(),
{
    let r = vec![0x6fu8, 0x72, 0x67, 0x2d, 0x61, 0x63, 0x63, 0x6f, 0x75, 0x6e, 0x74, 0x2d, 0x69, 0x64];
    assert(r@ =~= org_account_context());
    r
}

/// The account of a new org, derived from the block's random seed and the org's id.
pub fn org_account(seed: &H256, org_id: &Id) -> (r: AccountId)
    ensures
        r@ == org_account_of(seed@, org_id@),
{
    let mut data: Vec<u8> = Vec::new();
    append_bytes(&mut data, seed.bytes.as_slice());
    let context = org_account_context_bytes();
    append_bytes(&mut data, context.as_slice());
    append_bytes(&mut data, org_id.as_bytes());
    AccountId { bytes: blake2_256(data.as_slice()) }
}

impl Registry {
    /// Whether the id is held by a live org or user.
    pub fn is_id_taken(&self, id: &Id) -> (r: bool)
        requires
            self.wf(),
        ensures
            r == id_taken(self@, id@),
    {
        self.users.contains(id) || self.orgs.contains(id)
    }

    /// Checks that an id is free for a new org or user: held by no live org or user, and never
    /// used before.
    pub fn ensure_id_is_available(&self, id: &Id) -> (r: Result<(), RegistryError>)
        requires
            self.wf(),
        ensures
            id_taken(self@, id@) ==> r == Err::<(), RegistryError>(RegistryError::IdAlreadyTaken),
            !id_taken(self@, id@) && self@.retired.contains(id@) ==> r == Err::<(), RegistryError>(
                RegistryError::IdRetired,
            ),
            !id_taken(self@, id@) && !self@.retired.contains(id@) ==> r is Ok,
    {
        if self.is_id_taken(id) {
            Err(RegistryError::IdAlreadyTaken)
        } else if self.retired_ids.contains(id) {
            Err(RegistryError::IdRetired)
        } else {
            Ok(())
        }
    }

    /// Takes the registration fee from `a`.
    fn pay_registration_fee(&mut self, a: &AccountId)
        requires
            old(self).wf(),
            balance_of(old(self)@, a@) >= REGISTRATION_FEE,
        ensures
            final(self).wf(),
            final(self)@ == after_registration_fee(old(self)@, a@),
    {
        let b = self.free_balance(a);
        self.set_balance(a, b - REGISTRATION_FEE);
    }

    /// Registers an org whose only member is the author's user. Its account is derived from
    /// `seed`, the block's random seed.
    pub fn register_org(&mut self, author: &AccountId, org_id: &Id, seed: &H256) -> (r: Result<(), DispatchError>)
        requires
            old(self).wf(),
        ensures
            final(self).wf(),
            applied(old(self)@, final(self)@, r, register_org_spec(old(self)@, author@, org_id@, org_account_of(seed@, org_id@))),
    {
        let account_id = org_account(seed, org_id);
        self.register_org_with_account(author, org_id, account_id)
    }

    /// Registers an org with the given account, whose only member is the author's user.
    pub fn register_org_with_account(&mut self, author: &AccountId, org_id: &Id, account_id: AccountId) -> (r: Result<(), DispatchError>)
        requires
            old(self).wf(),
        ensures
            final(self).wf(),
            applied(old(self)@, final(self)@, r, register_org_spec(old(self)@, author@, org_id@, account_id@)),
    {
        if let Err(e) = self.ensure_id_is_available(org_id) {
            return Err(DispatchError::Registry(e));
        }
        let user_id = match self.get_user_id_with_account(author) {
            Some(u) => u,
            None => return Err(DispatchError::Registry(RegistryError::AuthorHasNoAssociatedUser)),
        };
        if self.free_balance(author) < REGISTRATION_FEE {
            return Err(DispatchError::InsufficientBalance);
        }
        let ghost s0 = self@;
        self.pay_registration_fee(author);
        let mut members: Vec<Id> = Vec::new();
        members.push(user_id);
        let org = Org { account_id, members, projects: Vec::new() };
        assert(org@.members =~= seq![user_with_account(s0, author@)]);
        assert(org@.projects =~= Seq::<Seq<u8>>::empty());
        self.orgs.insert(org_id.duplicate(), org);
        self.retired_ids.insert(org_id.duplicate(), ());
        assert(self@.retired =~= s0.retired.insert(org_id@));
        Ok(())
    }

    /// Removes an org that has no projects and whose only member is the author's user.
    pub fn unregister_org(&mut self, author: &AccountId, org_id: &Id) -> (r: Result<(), DispatchError>)
        requires
            old(self).wf(),
        ensures
            final(self).wf(),
            applied(old(self)@, final(self)@, r, unregister_org_spec(old(self)@, author@, org_id@)),
    {
        let org = match self.orgs.get(org_id) {
            Some(o) => o,
            None => return Err(DispatchError::Registry(RegistryError::InexistentOrg)),
        };
        let removable = org.projects.len() == 0 && match self.get_user_id_with_account(author) {
            Some(user_id) => org.members.len() == 1 && org.members[0].same(&user_id),
            None => false,
        };
        proof {
            if has_user_with_account(self@, author@) {
                let u = user_with_account(self@, author@);
                if org@.members.len() == 1 {
                    assert((org@.members == seq![u]) == (org@.members[0] == u)) by {
                        if org@.members[0] == u {
                            assert(org@.members =~= seq![u]);
                        }
                    }
                    assert(org@.members[0] == org.members@[0]@);
                }
            }
        }
        if !removable {
            return Err(DispatchError::Registry(RegistryError::UnregisterableOrg));
        }
        self.orgs.remove(org_id);
        Ok(())
    }

    /// Registers a user bound to the author's account.
    pub fn register_user(&mut self, author: &AccountId, user_id: &Id) -> (r: Result<(), DispatchError>)
        requires
            old(self).wf(),
        ensures
            final(self).wf(),
            applied(old(self)@, final(self)@, r, register_user_spec(old(self)@, author@, user_id@)),
    {
        if let Err(e) = self.ensure_id_is_available(user_id) {
            return Err(DispatchError::Registry(e));
        }
        if self.get_user_id_with_account(author).is_some() {
            return Err(DispatchError::Registry(RegistryError::UserAccountAssociated));
        }
        if self.free_balance(author) < REGISTRATION_FEE {
            return Err(DispatchError::InsufficientBalance);
        }
        let ghost s0 = self@;
        self.pay_registration_fee(author);
        let user = User { account_id: *author, projects: Vec::new() };
        assert(user@.projects =~= Seq::<Seq<u8>>::empty());
        self.users.insert(user_id.duplicate(), user);
        self.retired_ids.insert(user_id.duplicate(), ());
        assert(self@.retired =~= s0.retired.insert(user_id@));
        proof {
            assert forall|a: Seq<u8>, b: Seq<u8>|
                self@.users.contains_key(a) && self@.users.contains_key(b) && a != b
                    implies #[trigger] self@.users[a].account != #[trigger] self@.users[b].account by {
                if a != user_id@ && b != user_id@ {
                    assert(s0.users[a].account != s0.users[b].account);
                } else if a == user_id@ {
                    assert(s0.users.contains_key(b));
                    assert(s0.users[b].account != author@);
                } else {
                    assert(s0.users.contains_key(a));
                    assert(s0.users[a].account != author@);
                }
            }
        }
        Ok(())
    }

    /// Whether some org lists the user among its members.
    pub fn is_member_of_some_org(&self, user_id: &Id) -> (r: bool)
        requires
            self.wf(),
        ensures
            r == member_of_some_org(self@, user_id@),
    {
        let mut i: usize = 0;
        while i < self.orgs.len()
            invariant
                self.wf(),
                0 <= i <= self.orgs.entries@.len(),
                forall|j: int| 0 <= j < i ==> !(#[trigger] self.orgs.entries@[j].1@).members.contains(user_id@),
            decreases self.orgs.entries@.len() - i,
        {
            if ids_contain(&self.orgs.entries[i].1.members, user_id) {
                proof {
                    self.orgs.lemma_entry(i as int);
                    let k = self.orgs.key_at(i as int);
                    assert(self@.orgs.contains_key(k) && self@.orgs[k].members.contains(user_id@));
                }
                return true;
            }
            i = i + 1;
        }
        proof {
            assert forall|k: Seq<u8>| self@.orgs.contains_key(k) implies !#[trigger] self@.orgs[k].members.contains(user_id@) by {
                self.orgs.lemma_key(k);
            }
        }
        false
    }

    /// Removes the author's own user, which must own no projects and belong to no org.
    pub fn unregister_user(&mut self, author: &AccountId, user_id: &Id) -> (r: Result<(), DispatchError>)
        requires
            old(self).wf(),
        ensures
            final(self).wf(),
            applied(old(self)@, final(self)@, r, unregister_user_spec(old(self)@, author@, user_id@)),
    {
        let user = match self.users.get(user_id) {
            Some(u) => u,
            None => return Err(DispatchError::Registry(RegistryError::InexistentUser)),
        };
        if !user.account_id.same(author) {
            return Err(DispatchError::Registry(RegistryError::InsufficientSenderPermissions));
        }
        if user.projects.len() != 0 || self.is_member_of_some_org(user_id) {
            return Err(DispatchError::Registry(RegistryError::UnregisterableUser));
        }
        let ghost s0 = self@;
        self.users.remove(user_id);
        proof {
            assert forall|k: Seq<u8>, i: int| self@.orgs.contains_key(k) && 0 <= i < self@.orgs[k].members.len()
                implies self@.users.contains_key(#[trigger] self@.orgs[k].members[i]) by {
                assert(!s0.orgs[k].members.contains(user_id@));
                assert(s0.orgs[k].members[i] != user_id@);
            }
            assert forall|a: Seq<u8>, b: Seq<u8>|
                self@.users.contains_key(a) && self@.users.contains_key(b) && a != b
                    implies #[trigger] self@.users[a].account != #[trigger] self@.users[b].account by {
                assert(s0.users[a].account != s0.users[b].account);
            }
        }
        Ok(())
    }

    /// Adds a user to an org's members, on behalf of a member.
    pub fn register_member(&mut self, author: &AccountId, org_id: &Id, user_id: &Id) -> (r: Result<(), DispatchError>)
        requires
            old(self).wf(),
        ensures
            final(self).wf(),
            applied(old(self)@, final(self)@, r, register_member_spec(old(self)@, author@, org_id@, user_id@)),
    {
        let org = match self.orgs.get(org_id) {
            Some(o) => o,
            None => return Err(DispatchError::Registry(RegistryError::InexistentOrg)),
        };
        if !self.org_has_member_with_account(&org, author) {
            return Err(DispatchError::Registry(RegistryError::InsufficientSenderPermissions));
        }
        if !self.users.contains(user_id) {
            return Err(DispatchError::Registry(RegistryError::InexistentUser));
        }
        if ids_contain(&org.members, user_id) {
            return Err(DispatchError::Registry(RegistryError::AlreadyAMember));
        }
        let mut members = copy_ids(&org.members);
        members.push(user_id.duplicate());
        let new_org = Org { account_id: org.account_id, members, projects: copy_names(&org.projects) };
        assert(new_org@.members =~= org@.members.push(user_id@));
        self.orgs.insert(org_id.duplicate(), new_org);
        Ok(())
    }

    /// Checks that the registrant exists and that the author may act for it.
    pub fn check_registrant(&self, author: &AccountId, domain: &ProjectRegistrant) -> (r: Result<(), RegistryError>)
        requires
            self.wf(),
        ensures
            r is Ok <==> registrant_refusal(self@, author@, domain@) is None,
            r matches Err(e) ==> registrant_refusal(self@, author@, domain@) == Some(e),
    {
        match domain {
            ProjectRegistrant::Org(o) => match self.orgs.get(o) {
                None => Err(RegistryError::InexistentOrg),
                Some(org) => if self.org_has_member_with_account(&org, author) {
                    Ok(())
                } else {
                    Err(RegistryError::InsufficientSenderPermissions)
                },
            },
            ProjectRegistrant::User(u) => match self.users.get(u) {
                None => Err(RegistryError::InexistentUser),
                Some(user) => if user.account_id.same(author) {
                    Ok(())
                } else {
                    Err(RegistryError::InsufficientSenderPermissions)
                },
            },
        }
    }

    /// Appends a project name to the project list of an existing registrant.
    fn add_owned_project(&mut self, domain: &ProjectRegistrant, name: &ProjectName)
        requires
            old(self).wf(),
            registrant_refusal(old(self)@, Seq::empty(), domain@) != Some(RegistryError::InexistentOrg),
            registrant_refusal(old(self)@, Seq::empty(), domain@) != Some(RegistryError::InexistentUser),
        ensures
            final(self).wf(),
            final(self)@ == with_owned_project(old(self)@, domain@, name@),
    {
        match domain {
            ProjectRegistrant::Org(o) => {
                let org = self.orgs.get(o).unwrap();
                let mut projects = copy_names(&org.projects);
                projects.push(name.duplicate());
                let new_org = Org { account_id: org.account_id, members: copy_ids(&org.members), projects };
                assert(new_org@.projects =~= org@.projects.push(name@));
                let ghost s0 = self@;
                self.orgs.insert(o.duplicate(), new_org);
                proof {
                    assert(s0.orgs.contains_key(o@));
                    assert forall|k: Seq<u8>| self@.orgs.contains_key(k) implies s0.orgs.contains_key(k) by {
                        if k != o@ {
                            assert(s0.orgs.contains_key(k));
                        }
                    }
                    assert(self@.users == s0.users && self@.retired == s0.retired);
                    assert forall|k: Seq<u8>| self@.orgs.contains_key(k) implies !self@.users.contains_key(k)
                        && self@.retired.contains(k) by {
                        assert(s0.orgs.contains_key(k));
                    }
                    assert forall|k: Seq<u8>| self@.users.contains_key(k) implies self@.retired.contains(k) by {
                        assert(s0.users.contains_key(k));
                    }
                }
            },
            ProjectRegistrant::User(u) => {
                let ghost s0 = self@;
                let user = self.users.get(u).unwrap();
                let mut projects = copy_names(&user.projects);
                projects.push(name.duplicate());
                let new_user = User { account_id: user.account_id, projects };
                assert(new_user@.projects =~= user@.projects.push(name@));
                self.users.insert(u.duplicate(), new_user);
                proof {
                    assert(crate::registry::ids_retired(s0));
                    assert(self@.retired == s0.retired && self@.orgs == s0.orgs);
                    assert(s0.users.contains_key(u@));
                    assert forall|k: Seq<u8>| self@.users.contains_key(k) implies s0.users.contains_key(k) by {
                        if k != u@ {
                            assert(s0.users.contains_key(k));
                        }
                    }
                    assert forall|a: Seq<u8>, b: Seq<u8>|
                        self@.users.contains_key(a) && self@.users.contains_key(b) && a != b
                            implies #[trigger] self@.users[a].account != #[trigger] self@.users[b].account by {
                        assert(s0.users[a].account != s0.users[b].account);
                    }
                    assert forall|k: Seq<u8>| self@.orgs.contains_key(k) implies !self@.users.contains_key(k) by {
                        assert(!s0.users.contains_key(k));
                    }
                    assert forall|k: Seq<u8>| self@.users.contains_key(k) implies self@.retired.contains(k) by {
                        assert(s0.users.contains_key(k));
                    }
                }
            },
        }
    }

    /// Registers a project under an org or a user, starting from an existing checkpoint.
    pub fn register_project(
        &mut self,
        author: &AccountId,
        project_name: &ProjectName,
        project_domain: &ProjectRegistrant,
        checkpoint_id: &CheckpointId,
        metadata: &Bytes128,
    ) -> (r: Result<(), DispatchError>)
        requires
            old(self).wf(),
        ensures
            final(self).wf(),
            applied(
                old(self)@,
                final(self)@,
                r,
                register_project_spec(old(self)@, author@, project_name@, project_domain@, checkpoint_id@, metadata@),
            ),
    {
        let project_id = (project_name.duplicate(), project_domain.duplicate());
        if self.projects.contains(&project_id) {
            return Err(DispatchError::Registry(RegistryError::DuplicateProjectId));
        }
        match self.check_registrant(author, project_domain) {
            Ok(()) => {},
            Err(e) => return Err(DispatchError::Registry(e)),
        }
        if !self.checkpoints.contains(checkpoint_id) {
            return Err(DispatchError::Registry(RegistryError::InexistentCheckpointId));
        }
        self.add_owned_project(project_domain, project_name);
        let project = Project { initial_cp: *checkpoint_id, current_cp: *checkpoint_id, metadata: metadata.duplicate() };
        self.projects.insert(project_id, project);
        Ok(())
    }

    /// Moves a project to a checkpoint that descends from the one it was registered with.
    pub fn set_checkpoint(
        &mut self,
        author: &AccountId,
        project_name: &ProjectName,
        project_domain: &ProjectRegistrant,
        new_checkpoint_id: &CheckpointId,
    ) -> (r: Result<(), DispatchError>)
        requires
            old(self).wf(),
        ensures
            final(self).wf(),
            applied(
                old(self)@,
                final(self)@,
                r,
                set_checkpoint_spec(old(self)@, author@, project_name@, project_domain@, new_checkpoint_id@),
            ),
    {
        if !self.checkpoints.contains(new_checkpoint_id) {
            return Err(DispatchError::Registry(RegistryError::InexistentCheckpointId));
        }
        let project_id = (project_name.duplicate(), project_domain.duplicate());
        let project = match self.projects.get(&project_id) {
            Some(p) => p,
            None => return Err(DispatchError::Registry(RegistryError::InexistentProjectId)),
        };
        match self.check_registrant(author, project_domain) {
            Ok(()) => {},
            Err(e) => return Err(DispatchError::Registry(e)),
        }
        if !self.checkpoints.contains(&project.initial_cp) {
            return Err(DispatchError::Registry(RegistryError::InexistentInitialProjectCheckpoint));
        }
        if !self.descends_from(new_checkpoint_id, &project.initial_cp) {
            return Err(DispatchError::Registry(RegistryError::InvalidCheckpointAncestry));
        }
        let updated = Project { initial_cp: project.initial_cp, current_cp: *new_checkpoint_id, metadata: project.metadata };
        self.projects.insert(project_id, updated);
        Ok(())
    }

    /// Moves `amount` from one account to another.
    pub fn transfer(&mut self, from: &AccountId, to: &AccountId, amount: u128) -> (r: Result<(), DispatchError>)
        requires
            old(self).wf(),
        ensures
            final(self).wf(),
            applied(old(self)@, final(self)@, r, transfer_spec(old(self)@, from@, to@, amount)),
    {
        let from_balance = self.free_balance(from);
        if from_balance < amount {
            return Err(DispatchError::InsufficientBalance);
        }
        let to_balance = if from.same(to) {
            from_balance - amount
        } else {
            self.free_balance(to)
        };
        if to_balance > u128::MAX - amount {
            return Err(DispatchError::BalanceOverflow);
        }
        self.set_balance(from, from_balance - amount);
        self.set_balance(to, to_balance + amount);
        Ok(())
    }

    /// Moves `amount` out of an org's account, on behalf of one of its members.
    pub fn transfer_from_org(&mut self, author: &AccountId, org_id: &Id, recipient: &AccountId, amount: u128) -> (r: Result<(), DispatchError>)
        requires
            old(self).wf(),
        ensures
            final(self).wf(),
            applied(old(self)@, final(self)@, r, transfer_from_org_spec(old(self)@, author@, org_id@, recipient@, amount)),
    {
        let org = match self.orgs.get(org_id) {
            Some(o) => o,
            None => return Err(DispatchError::Registry(RegistryError::InexistentOrg)),
        };
        if !self.org_has_member_with_account(&org, author) {
            return Err(DispatchError::Registry(RegistryError::InsufficientSenderPermissions));
        }
        self.transfer(&org.account_id, recipient, amount)
    }
}

} // verus!
