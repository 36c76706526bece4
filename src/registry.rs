//! The registry's state: its collections, balances and nonces, the lookups that the message
//! handlers share, and the checkpoint ledger.
use vstd::prelude::*;
use crate::bytes::{AccountId, CheckpointId, H256};
use crate::codec::{blake2_256, blake2_256_of, checkpoint_encoding, encode_checkpoint};
use crate::errors::{DispatchError, RegistryError};
use crate::ids::{Id, ProjectId, Registrant};
use crate::state::{id_seq, Checkpoint, CheckpointView, Org, OrgView, Project, ProjectView, User, UserView, opt_view};
use crate::table::{Stored, Table};

verus! {

/// The registry's state, as a mathematical value.
pub struct State {
    pub genesis: Seq<u8>,
    pub orgs: Map<Seq<u8>, OrgView>,
    pub users: Map<Seq<u8>, UserView>,
    pub projects: Map<(Seq<u8>, Registrant), ProjectView>,
    pub checkpoints: Map<Seq<u8>, CheckpointView>,
    pub retired: Set<Seq<u8>>,
    pub balances: Map<Seq<u8>, u128>,
    pub nonces: Map<Seq<u8>, u64>,
}

/// The registry's collections, balances and per-account transaction counters.
pub struct Registry {
    /// The hash of the chain's first block; transactions must name it.
    pub genesis_hash: H256,
    pub orgs: Table<Id, Org>,
    pub users: Table<Id, User>,
    pub projects: Table<ProjectId, Project>,
    pub checkpoints: Table<CheckpointId, Checkpoint>,
    /// Every id ever used by an org or a user.
    pub retired_ids: Table<Id, ()>,
    pub balances: Table<AccountId, u128>,
    pub nonces: Table<AccountId, u64>,
}

impl View for Registry {
    type V = State;

    open spec fn view(&self) -> State {
        State {
            genesis: self.genesis_hash@,
            orgs: self.orgs@,
            users: self.users@,
            projects: self.projects@,
            checkpoints: self.checkpoints@,
            retired: self.retired_ids@.dom(),
            balances: self.balances@,
            nonces: self.nonces@,
        }
    }
}

/// No two users share an account.
pub open spec fn accounts_unique(users: Map<Seq<u8>, UserView>) -> bool {
    forall|a: Seq<u8>, b: Seq<u8>|
        users.contains_key(a) && users.contains_key(b) && a != b ==> #[trigger] users[a].account
            != #[trigger] users[b].account
}

/// Org and user ids share one namespace: no id names both an org and a user, and every live
/// id is retired, so that it is never handed out again.
pub open spec fn ids_retired(s: State) -> bool {
    &&& forall|k: Seq<u8>| s.orgs.contains_key(k) ==> !s.users.contains_key(k)
    &&& forall|k: Seq<u8>| s.orgs.contains_key(k) ==> s.retired.contains(k)
    &&& forall|k: Seq<u8>| s.users.contains_key(k) ==> s.retired.contains(k)
}

/// Every member of an org is a registered user, listed once.
pub open spec fn members_registered(s: State) -> bool {
    forall|k: Seq<u8>| #[trigger] s.orgs.contains_key(k) ==> {
        &&& s.orgs[k].members.no_duplicates()
        &&& forall|i: int| 0 <= i < s.orgs[k].members.len() ==> s.users.contains_key(#[trigger] s.orgs[k].members[i])
    }
}

/// The balance of an account; an account never credited holds nothing.
pub open spec fn balance_of(s: State, a: Seq<u8>) -> u128 {
    if s.balances.contains_key(a) {
        s.balances[a]
    } else {
        0
    }
}

/// `s` with the balance of `a` set to `v`.
pub open spec fn with_balance(s: State, a: Seq<u8>, v: u128) -> State {
    State { balances: s.balances.insert(a, v), ..s }
}

/// The next nonce expected from an account.
pub open spec fn nonce_of(s: State, a: Seq<u8>) -> u64 {
    if s.nonces.contains_key(a) {
        s.nonces[a]
    } else {
        0
    }
}

/// Some user is bound to account `a`.
pub open spec fn has_user_with_account(s: State, a: Seq<u8>) -> bool {
    exists|k: Seq<u8>| s.users.contains_key(k) && #[trigger] s.users[k].account == a
}

/// The id of the user bound to account `a`.
pub open spec fn user_with_account(s: State, a: Seq<u8>) -> Seq<u8> {
    choose|k: Seq<u8>| s.users.contains_key(k) && #[trigger] s.users[k].account == a
}

/// Account `a` belongs to a user that is a member of `org`.
pub open spec fn is_member_account(s: State, org: OrgView, a: Seq<u8>) -> bool {
    has_user_with_account(s, a) && org.members.contains(user_with_account(s, a))
}

/// The id of a checkpoint: the Blake2-256 hash of its SCALE-encoded contents.
pub open spec fn checkpoint_id_of(parent: Option<Seq<u8>>, hash: Seq<u8>) -> Seq<u8> {
    blake2_256_of(checkpoint_encoding(parent, hash))@
}

/// Walking at most `fuel` parent links from `c` reaches `a`.
pub open spec fn descends_within(cps: Map<Seq<u8>, CheckpointView>, c: Seq<u8>, a: Seq<u8>, fuel: nat) -> bool
    decreases fuel,
{
    if c == a {
        true
    } else if fuel == 0 || !cps.contains_key(c) {
        false
    } else {
        match cps[c].parent {
            None => false,
            Some(p) => descends_within(cps, p, a, (fuel - 1) as nat),
        }
    }
}

/// `c` is `a`, or walking the parents of `c`, at most as many steps as there are checkpoints,
/// reaches `a` before a checkpoint without parent or missing from the store. In a finite store
/// this bound loses nothing: see [`lemma_descends_iff_reaches`].
pub open spec fn descends(cps: Map<Seq<u8>, CheckpointView>, c: Seq<u8>, a: Seq<u8>) -> bool {
    descends_within(cps, c, a, cps.dom().len())
}

/// The outcome of creating a checkpoint in `s`: the new state and the checkpoint's id.
pub open spec fn create_checkpoint_spec(s: State, parent: Option<Seq<u8>>, hash: Seq<u8>)
    -> Result<(State, Seq<u8>), DispatchError>
{
    if parent is Some && !s.checkpoints.contains_key(parent->Some_0) {
        Err(DispatchError::Registry(RegistryError::InexistentCheckpointId))
    } else {
        let id = checkpoint_id_of(parent, hash);
        Ok((State { checkpoints: s.checkpoints.insert(id, CheckpointView { parent, hash }), ..s }, id))
    }
}

/// The id of a checkpoint with the given parent and project state hash.
pub fn checkpoint_id(parent: Option<CheckpointId>, project_hash: H256) -> (r: CheckpointId)
    ensures
        r@ == checkpoint_id_of(opt_view(parent), project_hash@),
{
    let encoded = encode_checkpoint(
        match parent {
            Some(p) => Some(p.bytes),
            None => None,
        },
        project_hash.bytes,
    );
    proof {
        assert(match parent {
            Some(p) => Some(p.bytes@),
            None => None::<Seq<u8>>,
        } == opt_view(parent));
    }
    H256 { bytes: blake2_256(encoded.as_slice()) }
}

impl Checkpoint {
    /// The id of this checkpoint: the hash of its contents.
    pub fn id(&self) -> (r: CheckpointId)
        ensures
            r@ == checkpoint_id_of(self@.parent, self@.hash),
    {
        checkpoint_id(self.parent, self.hash)
    }
}

/// The balance that each endowed account starts with on the development chains.
pub const ENDOWMENT: u128 = 1152921504606846976;

impl Registry {
    /// The invariant of the registry: every table keeps its keys unique and no two users share
    /// an account.
    pub open spec fn wf(&self) -> bool {
        &&& self.orgs.wf()
        &&& self.users.wf()
        &&& self.projects.wf()
        &&& self.checkpoints.wf()
        &&& self.retired_ids.wf()
        &&& self.balances.wf()
        &&& self.nonces.wf()
        &&& accounts_unique(self@.users)
        &&& ids_retired(self@)
        &&& members_registered(self@)
    }

    /// An empty registry for the chain with the given genesis hash.
    pub fn new(genesis_hash: H256) -> (r: Registry)
        ensures
            r.wf(),
            r@.genesis == genesis_hash@,
            r@.orgs.is_empty(),
            r@.users.is_empty(),
            r@.projects.is_empty(),
            r@.checkpoints.is_empty(),
            r@.retired.is_empty(),
            r@.balances.is_empty(),
            r@.nonces.is_empty(),
    {
        let r = Registry {
            genesis_hash,
            orgs: Table::new(),
            users: Table::new(),
            projects: Table::new(),
            checkpoints: Table::new(),
            retired_ids: Table::new(),
            balances: Table::new(),
            nonces: Table::new(),
        };
        assert(r@.retired =~= Set::<Seq<u8>>::empty());
        r
    }

    /// The registry at the start of a chain: nothing registered, and each endowed account
    /// holding [`ENDOWMENT`].
    pub fn genesis(genesis_hash: H256, endowed: &Vec<AccountId>) -> (r: Registry)
        ensures
            r.wf(),
            r@.genesis == genesis_hash@,
            r@.orgs.is_empty(),
            r@.users.is_empty(),
            r@.projects.is_empty(),
            r@.checkpoints.is_empty(),
            r@.retired.is_empty(),
            r@.nonces.is_empty(),
            forall|a: Seq<u8>| #[trigger] r@.balances.contains_key(a) <==> exists|i: int|
                0 <= i < endowed@.len() && endowed@[i]@ == a,
            forall|a: Seq<u8>| #[trigger] r@.balances.contains_key(a) ==> r@.balances[a] == ENDOWMENT,
    {
        let mut r = Registry::new(genesis_hash);
        let mut i: usize = 0;
        while i < endowed.len()
            invariant
                0 <= i <= endowed@.len(),
                r.wf(),
                r@.genesis == genesis_hash@,
                r@.orgs.is_empty(),
                r@.users.is_empty(),
                r@.projects.is_empty(),
                r@.checkpoints.is_empty(),
                r@.retired.is_empty(),
                r@.nonces.is_empty(),
                forall|a: Seq<u8>| #[trigger] r@.balances.contains_key(a) <==> exists|j: int|
                    0 <= j < i && endowed@[j]@ == a,
                forall|a: Seq<u8>| #[trigger] r@.balances.contains_key(a) ==> r@.balances[a] == ENDOWMENT,
            decreases endowed@.len() - i,
        {
            let ghost before = r@;
            r.set_balance(&endowed[i], ENDOWMENT);
            proof {
                assert forall|a: Seq<u8>| #[trigger] r@.balances.contains_key(a) <==> exists|j: int|
                    0 <= j < i + 1 && endowed@[j]@ == a by {
                    if a == endowed@[i as int]@ {
                        assert(0 <= i < i + 1 && endowed@[i as int]@ == a);
                    } else if before.balances.contains_key(a) {
                        let j = choose|j: int| 0 <= j < i && endowed@[j]@ == a;
                        assert(0 <= j < i + 1 && endowed@[j]@ == a);
                    } else if exists|j: int| 0 <= j < i + 1 && endowed@[j]@ == a {
                        let j = choose|j: int| 0 <= j < i + 1 && endowed@[j]@ == a;
                        assert(j != i);
                        assert(0 <= j < i && endowed@[j]@ == a);
                    }
                }
            }
            i = i + 1;
        }
        r
    }

    /// The free balance of an account.
    pub fn free_balance(&self, a: &AccountId) -> (r: u128)
        requires
            self.wf(),
        ensures
            r == balance_of(self@, a@),
    {
        match self.balances.get(a) {
            Some(v) => v,
            None => 0,
        }
    }

    /// Sets the balance of an account.
    pub(crate) fn set_balance(&mut self, a: &AccountId, v: u128)
        requires
            old(self).wf(),
        ensures
            final(self).wf(),
            final(self)@ == with_balance(old(self)@, a@, v),
    {
        self.balances.insert(*a, v);
        assert(self@.orgs == old(self)@.orgs && self@.users == old(self)@.users && self@.retired == old(self)@.retired);
    }

    /// Credits funds to an account, as a genesis allocation or a faucet would.
    pub fn deposit(&mut self, a: &AccountId, amount: u128) -> (r: Result<(), DispatchError>)
        requires
            old(self).wf(),
        ensures
            final(self).wf(),
            balance_of(old(self)@, a@) + amount <= u128::MAX ==> r is Ok && final(self)@ == with_balance(
                old(self)@,
                a@,
                (balance_of(old(self)@, a@) + amount) as u128,
            ),
            balance_of(old(self)@, a@) + amount > u128::MAX ==> r == Err::<(), DispatchError>(
                DispatchError::BalanceOverflow,
            ) && final(self)@ == old(self)@,
    {
        let b = self.free_balance(a);
        if b > u128::MAX - amount {
            return Err(DispatchError::BalanceOverflow);
        }
        self.set_balance(a, b + amount);
        Ok(())
    }

    /// The next nonce expected from an account.
    pub fn account_nonce(&self, a: &AccountId) -> (r: u64)
        requires
            self.wf(),
        ensures
            r == nonce_of(self@, a@),
    {
        match self.nonces.get(a) {
            Some(v) => v,
            None => 0,
        }
    }

    /// The user bound to account `a`, with its id, if any. Scans all users.
    pub fn get_user_with_account(&self, a: &AccountId) -> (r: Option<(Id, User)>)
        requires
            self.wf(),
        ensures
            r is Some <==> has_user_with_account(self@, a@),
            r matches Some((id, user)) ==> id@ == user_with_account(self@, a@) && self@.users.contains_key(id@)
                && user@ == self@.users[id@],
    {
        let mut i: usize = 0;
        while i < self.users.len()
            invariant
                self.wf(),
                0 <= i <= self.users.entries@.len(),
                forall|j: int| 0 <= j < i ==> #[trigger] self.users.entries@[j].1.account_id@ != a@,
            decreases self.users.entries@.len() - i,
        {
            if self.users.entries[i].1.account_id.same(a) {
                proof {
                    self.users.lemma_entry(i as int);
                    let k = self.users.key_at(i as int);
                    assert(self@.users.contains_key(k) && self@.users[k].account == a@);
                    let c = user_with_account(self@, a@);
                    assert(self@.users.contains_key(c) && self@.users[c].account == a@);
                }
                return Some((self.users.entries[i].0.duplicate(), self.users.entries[i].1.duplicate()));
            }
            i = i + 1;
        }
        proof {
            assert forall|k: Seq<u8>| self@.users.contains_key(k) implies #[trigger] self@.users[k].account != a@ by {
                self.users.lemma_key(k);
            }
        }
        None
    }

    /// The id of the user bound to account `a`, if any.
    pub fn get_user_id_with_account(&self, a: &AccountId) -> (r: Option<Id>)
        requires
            self.wf(),
        ensures
            r is Some <==> has_user_with_account(self@, a@),
            r matches Some(id) ==> id@ == user_with_account(self@, a@) && self@.users.contains_key(id@),
    {
        match self.get_user_with_account(a) {
            Some((id, _)) => Some(id),
            None => None,
        }
    }

    /// Whether account `a` belongs to a user that is a member of `org`.
    pub fn org_has_member_with_account(&self, org: &Org, a: &AccountId) -> (r: bool)
        requires
            self.wf(),
        ensures
            r == is_member_account(self@, org@, a@),
    {
        match self.get_user_id_with_account(a) {
            Some(user_id) => crate::state::ids_contain(&org.members, &user_id),
            None => false,
        }
    }

    /// Whether `candidate` is `ancestor` or descends from it through parent links.
    pub fn descends_from(&self, candidate: &CheckpointId, ancestor: &CheckpointId) -> (r: bool)
        requires
            self.wf(),
        ensures
            r == descends(self@.checkpoints, candidate@, ancestor@),
            r == reaches(self@.checkpoints, candidate@, ancestor@),
    {
        proof {
            self.checkpoints.lemma_len();
            lemma_descends_iff_reaches(self@.checkpoints, candidate@, ancestor@);
        }
        let mut cur: CheckpointId = *candidate;
        let mut fuel: usize = self.checkpoints.len();
        loop
            invariant
                self.wf(),
                descends(self@.checkpoints, candidate@, ancestor@) == reaches(self@.checkpoints, candidate@, ancestor@),
                descends(self@.checkpoints, candidate@, ancestor@)
                    == descends_within(self@.checkpoints, cur@, ancestor@, fuel as nat),
            decreases fuel,
        {
            if cur.same(ancestor) {
                return true;
            }
            if fuel == 0 {
                return false;
            }
            match self.checkpoints.get(&cur) {
                None => {
                    return false;
                },
                Some(cp) => match cp.parent {
                    None => {
                        return false;
                    },
                    Some(p) => {
                        cur = p;
                        fuel = fuel - 1;
                    },
                },
            }
        }
    }

    /// The org with the given id, if any.
    pub fn get_org(&self, id: &Id) -> (r: Option<Org>)
        requires
            self.wf(),
        ensures
            r is None <==> !self@.orgs.contains_key(id@),
            r matches Some(o) ==> o@ == self@.orgs[id@],
    {
        self.orgs.get(id)
    }

    /// The user with the given id, if any.
    pub fn get_user(&self, id: &Id) -> (r: Option<User>)
        requires
            self.wf(),
        ensures
            r is None <==> !self@.users.contains_key(id@),
            r matches Some(u) ==> u@ == self@.users[id@],
    {
        self.users.get(id)
    }

    /// The project with the given id, if any.
    pub fn get_project(&self, id: &ProjectId) -> (r: Option<Project>)
        requires
            self.wf(),
        ensures
            r is None <==> !self@.projects.contains_key(id@),
            r matches Some(p) ==> p@ == self@.projects[id@],
    {
        self.projects.get(id)
    }

    /// The ids of all orgs.
    pub fn list_orgs(&self) -> (r: Vec<Id>)
        requires
            self.wf(),
        ensures
            forall|k: Seq<u8>| self@.orgs.contains_key(k) <==> id_seq(r@).contains(k),
    {
        let r = self.orgs.keys();
        proof {
            assert forall|k: Seq<u8>| self@.orgs.contains_key(k) <==> id_seq(r@).contains(k) by {
                if self@.orgs.contains_key(k) {
                    self.orgs.lemma_key(k);
                    assert(id_seq(r@)[self.orgs.index_of(k)] == k);
                }
                if id_seq(r@).contains(k) {
                    let i = choose|i: int| 0 <= i < id_seq(r@).len() && id_seq(r@)[i] == k;
                    self.orgs.lemma_entry(i);
                }
            }
        }
        r
    }

    /// The ids of all users.
    pub fn list_users(&self) -> (r: Vec<Id>)
        requires
            self.wf(),
        ensures
            forall|k: Seq<u8>| self@.users.contains_key(k) <==> id_seq(r@).contains(k),
    {
        let r = self.users.keys();
        proof {
            assert forall|k: Seq<u8>| self@.users.contains_key(k) <==> id_seq(r@).contains(k) by {
                if self@.users.contains_key(k) {
                    self.users.lemma_key(k);
                    assert(id_seq(r@)[self.users.index_of(k)] == k);
                }
                if id_seq(r@).contains(k) {
                    let i = choose|i: int| 0 <= i < id_seq(r@).len() && id_seq(r@)[i] == k;
                    self.users.lemma_entry(i);
                }
            }
        }
        r
    }

    /// The ids of all projects.
    pub fn list_projects(&self) -> (r: Vec<ProjectId>)
        requires
            self.wf(),
        ensures
            forall|k: (Seq<u8>, Registrant)| self@.projects.contains_key(k) <==> exists|i: int|
                0 <= i < r@.len() && #[trigger] r@[i]@ == k,
    {
        let r = self.projects.keys();
        proof {
            assert forall|k: (Seq<u8>, Registrant)| self@.projects.contains_key(k) <==> exists|i: int|
                0 <= i < r@.len() && #[trigger] r@[i]@ == k by {
                if self@.projects.contains_key(k) {
                    self.projects.lemma_key(k);
                    assert(r@[self.projects.index_of(k)]@ == k);
                }
                if exists|i: int| 0 <= i < r@.len() && #[trigger] r@[i]@ == k {
                    let i = choose|i: int| 0 <= i < r@.len() && #[trigger] r@[i]@ == k;
                    self.projects.lemma_entry(i);
                }
            }
        }
        r
    }

    /// The checkpoint stored under `id`, if any.
    pub fn get_checkpoint(&self, id: &CheckpointId) -> (r: Option<Checkpoint>)
        requires
            self.wf(),
        ensures
            r is None <==> !self@.checkpoints.contains_key(id@),
            r matches Some(c) ==> c@ == self@.checkpoints[id@],
    {
        self.checkpoints.get(id)
    }

    /// Stores a checkpoint with the given parent and project state hash, and returns its id, the
    /// hash of its contents. Storing the same contents twice is harmless: the id and the stored
    /// entry are the same.
    pub fn create_checkpoint(&mut self, previous_checkpoint_id: Option<CheckpointId>, project_hash: H256)
        -> (r: Result<CheckpointId, DispatchError>)
        requires
            old(self).wf(),
        ensures
            final(self).wf(),
            match create_checkpoint_spec(old(self)@, opt_view(previous_checkpoint_id), project_hash@) {
                Ok((s, id)) => r is Ok && r->Ok_0@ == id && final(self)@ == s,
                Err(e) => r == Err::<CheckpointId, DispatchError>(e) && final(self)@ == old(self)@,
            },
    {
        if let Some(p) = previous_checkpoint_id {
            if !self.checkpoints.contains(&p) {
                return Err(DispatchError::Registry(RegistryError::InexistentCheckpointId));
            }
        }
        let id = checkpoint_id(previous_checkpoint_id, project_hash);
        self.checkpoints.insert(id, Checkpoint { parent: previous_checkpoint_id, hash: project_hash });
        Ok(id)
    }
}

/// Creating a checkpoint whose contents are already stored yields the same id and leaves the
/// state as the first creation left it.
pub proof fn lemma_create_checkpoint_idempotent(s: State, parent: Option<Seq<u8>>, hash: Seq<u8>)
    requires
        create_checkpoint_spec(s, parent, hash) is Ok,
    ensures
        create_checkpoint_spec(create_checkpoint_spec(s, parent, hash)->Ok_0.0, parent, hash) is Ok,
        create_checkpoint_spec(create_checkpoint_spec(s, parent, hash)->Ok_0.0, parent, hash)->Ok_0.1
            == create_checkpoint_spec(s, parent, hash)->Ok_0.1,
        create_checkpoint_spec(create_checkpoint_spec(s, parent, hash)->Ok_0.0, parent, hash)->Ok_0.0
            == create_checkpoint_spec(s, parent, hash)->Ok_0.0,
        create_checkpoint_spec(create_checkpoint_spec(s, parent, hash)->Ok_0.0, parent, hash)->Ok_0.0.checkpoints.dom()
            == create_checkpoint_spec(s, parent, hash)->Ok_0.0.checkpoints.dom(),
{
    let (s1, id) = create_checkpoint_spec(s, parent, hash)->Ok_0;
    let s2 = create_checkpoint_spec(s1, parent, hash)->Ok_0.0;
    assert(s2.checkpoints =~= s1.checkpoints);
}

/// Every checkpoint descends from itself.
pub proof fn lemma_descends_reflexive(cps: Map<Seq<u8>, CheckpointView>, x: Seq<u8>)
    ensures
        descends(cps, x, x),
{
}

/// Walking from a checkpoint other than the ancestor goes on at its parent: with one step more
/// of fuel, `child` reaches `root` exactly when its parent does.
pub proof fn lemma_descends_step(cps: Map<Seq<u8>, CheckpointView>, child: Seq<u8>, root: Seq<u8>, fuel: nat)
    requires
        child != root,
        cps.contains_key(child),
        cps[child].parent is Some,
    ensures
        descends_within(cps, child, root, fuel + 1) == descends_within(cps, cps[child].parent->Some_0, root, fuel),
{
}

/// A walk that ends at a checkpoint without parent, or missing from the store, before meeting
/// `root` never reaches it.
pub proof fn lemma_descends_stops(cps: Map<Seq<u8>, CheckpointView>, child: Seq<u8>, root: Seq<u8>, fuel: nat)
    requires
        child != root,
        !cps.contains_key(child) || cps[child].parent is None,
    ensures
        !descends_within(cps, child, root, fuel),
{
}

} // verus!
verus! {

/// Some walk along parent links from `c`, of any length, reaches `a`.
pub open spec fn reaches(cps: Map<Seq<u8>, CheckpointView>, c: Seq<u8>, a: Seq<u8>) -> bool {
    exists|n: nat| descends_within(cps, c, a, n)
}

/// The checkpoint `k` parent links above `c`, if the walk gets that far.
pub open spec fn nth_ancestor(cps: Map<Seq<u8>, CheckpointView>, c: Seq<u8>, k: nat) -> Option<Seq<u8>>
    decreases k,
{
    if k == 0 {
        Some(c)
    } else if cps.contains_key(c) && cps[c].parent is Some {
        nth_ancestor(cps, cps[c].parent->Some_0, (k - 1) as nat)
    } else {
        None
    }
}

proof fn lemma_within_to_nth(cps: Map<Seq<u8>, CheckpointView>, c: Seq<u8>, a: Seq<u8>, n: nat)
    requires
        descends_within(cps, c, a, n),
    ensures
        exists|k: nat| k <= n && #[trigger] nth_ancestor(cps, c, k) == Some(a),
    decreases n,
{
    if c == a {
        assert(nth_ancestor(cps, c, 0) == Some(a));
    } else {
        let p = cps[c].parent->Some_0;
        lemma_within_to_nth(cps, p, a, (n - 1) as nat);
        let k = choose|k: nat| k <= (n - 1) as nat && #[trigger] nth_ancestor(cps, p, k) == Some(a);
        assert(nth_ancestor(cps, c, k + 1) == nth_ancestor(cps, p, k));
    }
}

proof fn lemma_nth_to_within(cps: Map<Seq<u8>, CheckpointView>, c: Seq<u8>, a: Seq<u8>, k: nat, n: nat)
    requires
        k <= n,
        nth_ancestor(cps, c, k) == Some(a),
    ensures
        descends_within(cps, c, a, n),
    decreases k,
{
    if c != a {
        assert(k != 0);
        let p = cps[c].parent->Some_0;
        lemma_nth_to_within(cps, p, a, (k - 1) as nat, (n - 1) as nat);
    }
}

proof fn lemma_nth_compose(cps: Map<Seq<u8>, CheckpointView>, c: Seq<u8>, i: nat, t: nat)
    requires
        nth_ancestor(cps, c, i) is Some,
    ensures
        nth_ancestor(cps, c, i + t) == nth_ancestor(cps, nth_ancestor(cps, c, i)->Some_0, t),
    decreases i,
{
    if i > 0 {
        let p = cps[c].parent->Some_0;
        lemma_nth_compose(cps, p, (i - 1) as nat, t);
        assert((i + t - 1) as nat == (i - 1) as nat + t);
    }
}

proof fn lemma_nth_prefix(cps: Map<Seq<u8>, CheckpointView>, c: Seq<u8>, t: nat, k: nat)
    requires
        t < k,
        nth_ancestor(cps, c, k) is Some,
    ensures
        nth_ancestor(cps, c, t) is Some,
        cps.contains_key(nth_ancestor(cps, c, t)->Some_0),
    decreases t,
{
    if t > 0 {
        let p = cps[c].parent->Some_0;
        lemma_nth_prefix(cps, p, (t - 1) as nat, (k - 1) as nat);
    }
}

proof fn lemma_short_walk(cps: Map<Seq<u8>, CheckpointView>, c: Seq<u8>, a: Seq<u8>, k: nat)
    requires
        cps.dom().finite(),
        nth_ancestor(cps, c, k) == Some(a),
    ensures
        exists|m: nat| m <= cps.dom().len() && #[trigger] nth_ancestor(cps, c, m) == Some(a),
    decreases k,
{
    if k <= cps.dom().len() {
        return;
    }
    let s = Seq::new(k, |t: int| nth_ancestor(cps, c, t as nat)->Some_0);
    assert forall|t: int| 0 <= t < s.len() implies cps.dom().contains(#[trigger] s[t]) by {
        lemma_nth_prefix(cps, c, t as nat, k);
    }
    if s.no_duplicates() {
        s.unique_seq_to_set();
        assert(s.to_set().subset_of(cps.dom()));
        vstd::set_lib::lemma_len_subset(s.to_set(), cps.dom());
        assert(false);
    } else {
        let (i, j) = choose|i: int, j: int| 0 <= i < s.len() && 0 <= j < s.len() && i != j && s[i] == s[j];
        let (lo, hi) = if i < j { (i as nat, j as nat) } else { (j as nat, i as nat) };
        lemma_nth_prefix(cps, c, lo, k);
        lemma_nth_prefix(cps, c, hi, k);
        let t = (k - hi) as nat;
        lemma_nth_compose(cps, c, lo, t);
        lemma_nth_compose(cps, c, hi, t);
        assert(hi + t == k);
        lemma_short_walk(cps, c, a, lo + t);
    }
}

/// In a finite store, walking at most as many parent links as there are checkpoints reaches
/// every ancestor that any walk reaches: `descends` holds exactly when some walk along parents
/// from `c` meets `a` before a checkpoint without parent or missing from the store.
pub proof fn lemma_descends_iff_reaches(cps: Map<Seq<u8>, CheckpointView>, c: Seq<u8>, a: Seq<u8>)
    requires
        cps.dom().finite(),
    ensures
        descends(cps, c, a) == reaches(cps, c, a),
{
    if descends(cps, c, a) {
        assert(descends_within(cps, c, a, cps.dom().len()));
    }
    if reaches(cps, c, a) {
        let n = choose|n: nat| descends_within(cps, c, a, n);
        lemma_within_to_nth(cps, c, a, n);
        let k = choose|k: nat| k <= n && #[trigger] nth_ancestor(cps, c, k) == Some(a);
        lemma_short_walk(cps, c, a, k);
        let m = choose|m: nat| m <= cps.dom().len() && #[trigger] nth_ancestor(cps, c, m) == Some(a);
        lemma_nth_to_within(cps, c, a, m, cps.dom().len());
    }
}

} // verus!
