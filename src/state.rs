//! The entities of the registry and their mathematical views.
use vstd::prelude::*;
use crate::bytes::{AccountId, Bytes128, CheckpointId, H256};
use crate::ids::{Id, ProjectName};
use crate::table::Stored;

verus! {

/// The ids held in a vector, as byte strings.
pub open spec fn id_seq(v: Seq<Id>) -> Seq<Seq<u8>> {
    v.map_values(|m: Id| m@)
}

/// The project names held in a vector, as byte strings.
pub open spec fn name_seq(v: Seq<ProjectName>) -> Seq<Seq<u8>> {
    v.map_values(|m: ProjectName| m@)
}

/// A copy of a vector of ids.
pub fn copy_ids(v: &Vec<Id>) -> (r: Vec<Id>)
    ensures
        id_seq(r@) == id_seq(v@),
{
    let mut r: Vec<Id> = Vec::new();
    let mut i: usize = 0;
    while i < v.len()
        invariant
            0 <= i <= v@.len(),
            id_seq(r@) =~= id_seq(v@.subrange(0, i as int)),
        decreases v@.len() - i,
    {
        r.push(v[i].duplicate());
        assert(id_seq(v@.subrange(0, i + 1)) =~= id_seq(v@.subrange(0, i as int)).push(v@[i as int]@));
        i = i + 1;
    }
    assert(v@.subrange(0, v@.len() as int) =~= v@);
    r
}

/// A copy of a vector of project names.
pub fn copy_names(v: &Vec<ProjectName>) -> (r: Vec<ProjectName>)
    ensures
        name_seq(r@) == name_seq(v@),
{
    let mut r: Vec<ProjectName> = Vec::new();
    let mut i: usize = 0;
    while i < v.len()
        invariant
            0 <= i <= v@.len(),
            name_seq(r@) =~= name_seq(v@.subrange(0, i as int)),
        decreases v@.len() - i,
    {
        r.push(v[i].duplicate());
        assert(name_seq(v@.subrange(0, i + 1)) =~= name_seq(v@.subrange(0, i as int)).push(v@[i as int]@));
        i = i + 1;
    }
    assert(v@.subrange(0, v@.len() as int) =~= v@);
    r
}

/// Whether `id` occurs in `v`.
pub fn ids_contain(v: &Vec<Id>, id: &Id) -> (r: bool)
    ensures
        r == id_seq(v@).contains(id@),
{
    let mut i: usize = 0;
    while i < v.len()
        invariant
            0 <= i <= v@.len(),
            forall|j: int| 0 <= j < i ==> #[trigger] v@[j]@ != id@,
        decreases v@.len() - i,
    {
        if v[i].same(id) {
            assert(id_seq(v@)[i as int] == id@);
            return true;
        }
        i = i + 1;
    }
    assert forall|j: int| 0 <= j < id_seq(v@).len() implies id_seq(v@)[j] != id@ by {
        assert(id_seq(v@)[j] == v@[j]@);
    }
    false
}

/// An org: a collective account that owns projects and is run by its members.
#[derive(Debug)]
pub struct Org {
    pub account_id: AccountId,
    pub members: Vec<Id>,
    pub projects: Vec<ProjectName>,
}

/// An org as a mathematical value.
pub struct OrgView {
    pub account: Seq<u8>,
    pub members: Seq<Seq<u8>>,
    pub projects: Seq<Seq<u8>>,
}

impl View for Org {
    type V = OrgView;

    open spec fn view(&self) -> OrgView {
        OrgView {
            account: self.account_id@,
            members: id_seq(self.members@),
            projects: name_seq(self.projects@),
        }
    }
}

impl Stored for Org {
    fn duplicate(&self) -> (r: Org) {
        Org {
            account_id: self.account_id,
            members: copy_ids(&self.members),
            projects: copy_names(&self.projects),
        }
    }
}

impl Clone for Org {
    fn clone(&self) -> (r: Org)
        ensures
            r@ == self@,
    {
        self.duplicate()
    }
}

/// A user: a named identity bound to one account.
#[derive(Debug)]
pub struct User {
    pub account_id: AccountId,
    pub projects: Vec<ProjectName>,
}

/// A user as a mathematical value.
pub struct UserView {
    pub account: Seq<u8>,
    pub projects: Seq<Seq<u8>>,
}

impl View for User {
    type V = UserView;

    open spec fn view(&self) -> UserView {
        UserView { account: self.account_id@, projects: name_seq(self.projects@) }
    }
}

impl Stored for User {
    fn duplicate(&self) -> (r: User) {
        User { account_id: self.account_id, projects: copy_names(&self.projects) }
    }
}

impl Clone for User {
    fn clone(&self) -> (r: User)
        ensures
            r@ == self@,
    {
        self.duplicate()
    }
}

/// A project: the checkpoint it was registered with, its current checkpoint and its metadata.
#[derive(Debug)]
pub struct Project {
    pub initial_cp: CheckpointId,
    pub current_cp: CheckpointId,
    pub metadata: Bytes128,
}

/// A project as a mathematical value.
pub struct ProjectView {
    pub initial_cp: Seq<u8>,
    pub current_cp: Seq<u8>,
    pub metadata: Seq<u8>,
}

impl View for Project {
    type V = ProjectView;

    open spec fn view(&self) -> ProjectView {
        ProjectView {
            initial_cp: self.initial_cp@,
            current_cp: self.current_cp@,
            metadata: self.metadata@,
        }
    }
}

impl Stored for Project {
    fn duplicate(&self) -> (r: Project) {
        Project {
            initial_cp: self.initial_cp,
            current_cp: self.current_cp,
            metadata: self.metadata.duplicate(),
        }
    }
}

impl Clone for Project {
    fn clone(&self) -> (r: Project)
        ensures
            r@ == self@,
    {
        self.duplicate()
    }
}

/// A checkpoint: an optional parent checkpoint and the hash of the project's state.
#[derive(Clone, Copy, Debug, PartialEq, Eq)]
pub struct Checkpoint {
    pub parent: Option<CheckpointId>,
    pub hash: H256,
}

/// An optional checkpoint id as an optional byte string.
pub open spec fn opt_view(o: Option<CheckpointId>) -> Option<Seq<u8>> {
    match o {
        Some(c) => Some(c@),
        None => None,
    }
}

/// A checkpoint as a mathematical value.
pub struct CheckpointView {
    pub parent: Option<Seq<u8>>,
    pub hash: Seq<u8>,
}

impl View for Checkpoint {
    type V = CheckpointView;

    open spec fn view(&self) -> CheckpointView {
        CheckpointView { parent: opt_view(self.parent), hash: self.hash@ }
    }
}

impl Stored for Checkpoint {
    fn duplicate(&self) -> (r: Checkpoint) {
        *self
    }
}

} // verus!
