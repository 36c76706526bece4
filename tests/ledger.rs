use radicle_registry::bytes::{AccountId, Bytes128, Bytes32, CheckpointId, H256};
use radicle_registry::errors::{DispatchError, RegistryError, TransactionError};
use radicle_registry::events::{result_from_events, EventKind, EventParseError};
use radicle_registry::handlers::REGISTRATION_FEE;
use radicle_registry::ids::{Id, ProjectName, ProjectRegistrant};
use radicle_registry::messages::{Message, RegistryEvent};
use radicle_registry::registry::{checkpoint_id, Registry, ENDOWMENT};
use radicle_registry::state::Org;
use radicle_registry::events::{events_at_index, extract_transaction_events, EventRecord, Phase};
use radicle_registry::transaction::{
    watch_step, BlockContext, Event, SubmissionError, SystemEvent, Transaction, TxStatus, WatchStep,
};
use radicle_registry::codec::blake2_256;

const INITIAL: u128 = 1_000_000;

fn key_pair(n: u8) -> AccountId {
    Bytes32::from_array([n; 32])
}

fn hash(n: u8) -> H256 {
    Bytes32::from_array([n; 32])
}

fn block_author() -> AccountId {
    key_pair(250)
}

fn block() -> BlockContext {
    BlockContext { author: Some(block_author()), seed: hash(42) }
}

fn ledger() -> Registry {
    let mut r = Registry::new(hash(7));
    for n in 1..=10u8 {
        r.deposit(&key_pair(n), INITIAL).unwrap();
    }
    r
}

fn id(s: &str) -> Id {
    Id::try_from(s).unwrap()
}

fn name(s: &str) -> ProjectName {
    ProjectName::try_from(s).unwrap()
}

fn metadata(n: u8) -> Bytes128 {
    Bytes128::from_vec(vec![n; 16]).unwrap()
}

struct Applied {
    events: Vec<Event>,
    result: Result<Option<CheckpointId>, DispatchError>,
}

fn submit_ok_with_fee(r: &mut Registry, author: &AccountId, message: Message, fee: u128) -> Applied {
    let tx = Transaction {
        author: *author,
        nonce: r.account_nonce(author),
        genesis_hash: r.genesis_hash,
        fee,
        message: message.clone(),
    };
    let events = r.apply_transaction(&tx, &block()).expect("transaction was not admitted");
    let result = result_from_events(&message, &events).expect("events are not well formed");
    Applied { events, result }
}

fn submit_ok(r: &mut Registry, author: &AccountId, message: Message) -> Applied {
    submit_ok_with_fee(r, author, message, 1)
}

fn register_user(r: &mut Registry, author: &AccountId, user: &str) {
    let applied = submit_ok(r, author, Message::RegisterUser { user_id: id(user) });
    assert_eq!(applied.result, Ok(None));
}

fn create_org(r: &mut Registry, author: &AccountId, org: &str) -> Org {
    let applied = submit_ok(r, author, Message::RegisterOrg { org_id: id(org) });
    assert_eq!(applied.result, Ok(None));
    r.get_org(&id(org)).unwrap()
}

/// Registers an org and gives its account funds, so that its members' transactions can be paid.
fn create_funded_org(r: &mut Registry, author: &AccountId, org: &str) -> Org {
    let created = create_org(r, author, org);
    r.deposit(&created.account_id, 10_000).unwrap();
    created
}

fn create_checkpoint(r: &mut Registry, author: &AccountId, project_hash: H256, parent: Option<CheckpointId>) -> CheckpointId {
    submit_ok(r, author, Message::CreateCheckpoint { project_hash, previous_checkpoint_id: parent })
        .result
        .unwrap()
        .unwrap()
}

/// Registers a user and an org for `author`, and a project "app" under the org with a fresh
/// checkpoint. Returns the project's id and its checkpoint.
fn create_project_with_checkpoint(r: &mut Registry, author: &AccountId, user: &str, org: &str) -> ((ProjectName, ProjectRegistrant), CheckpointId) {
    register_user(r, author, user);
    create_funded_org(r, author, org);
    let cp = create_checkpoint(r, author, hash(100), None);
    let message = Message::RegisterProject {
        project_name: name("app"),
        project_domain: ProjectRegistrant::Org(id(org)),
        checkpoint_id: cp,
        metadata: metadata(1),
    };
    assert_eq!(submit_ok(r, author, message).result, Ok(None));
    ((name("app"), ProjectRegistrant::Org(id(org))), cp)
}

fn refused(e: RegistryError) -> Result<Option<CheckpointId>, DispatchError> {
    Err(DispatchError::Registry(e))
}

#[test]
fn user_registration_register_user() {
    let mut r = ledger();
    let alice = key_pair(1);
    let initial_balance = r.free_balance(&alice);
    let fee = 123;
    let applied = submit_ok_with_fee(&mut r, &alice, Message::RegisterUser { user_id: id("alice") }, fee);
    assert_eq!(applied.events[0], Event::Registry(RegistryEvent::UserRegistered(id("alice"))));
    assert!(r.list_users().contains(&id("alice")), "User not found in users list");
    assert_eq!(
        r.free_balance(&alice),
        initial_balance - fee - REGISTRATION_FEE,
        "The tx fee was not charged properly."
    );
    let user = r.get_user(&id("alice")).unwrap();
    assert_eq!(user.account_id, alice);
    assert!(user.projects.is_empty());
}

#[test]
fn user_registration_register_user_with_duplicate_id() {
    let mut r = ledger();
    let alice = key_pair(1);
    let once = submit_ok(&mut r, &alice, Message::RegisterUser { user_id: id("alice") });
    assert!(once.result.is_ok());
    let twice = submit_ok(&mut r, &key_pair(2), Message::RegisterUser { user_id: id("alice") });
    assert_eq!(twice.result, refused(RegistryError::IdAlreadyTaken));
}

#[test]
fn user_registration_register_user_with_already_associated_account() {
    let mut r = ledger();
    let alice = key_pair(1);
    let first = submit_ok(&mut r, &alice, Message::RegisterUser { user_id: id("alice") });
    assert!(first.result.is_ok());
    let second = submit_ok(&mut r, &alice, Message::RegisterUser { user_id: id("alice-two") });
    assert_eq!(second.result, refused(RegistryError::UserAccountAssociated));
}

#[test]
fn user_registration_unregister_user() {
    let mut r = ledger();
    let alice = key_pair(1);
    let applied = submit_ok(&mut r, &alice, Message::RegisterUser { user_id: id("alice") });
    assert_eq!(applied.events[0], Event::Registry(RegistryEvent::UserRegistered(id("alice"))));
    assert!(applied.result.is_ok());
    assert!(r.get_user(&id("alice")).is_some(), "User not found in users list");

    let initial_balance = r.free_balance(&alice);
    let fee = 77;
    let unregistered = submit_ok_with_fee(&mut r, &alice, Message::UnregisterUser { user_id: id("alice") }, fee);
    assert!(unregistered.result.is_ok());
    assert!(r.get_user(&id("alice")).is_none(), "The user was not expected to exist");
    assert_eq!(r.free_balance(&alice), initial_balance - fee, "The tx fee was not charged properly.");
}

#[test]
fn user_registration_unregister_user_with_invalid_sender() {
    let mut r = ledger();
    let alice = key_pair(1);
    let applied = submit_ok(&mut r, &alice, Message::RegisterUser { user_id: id("alice") });
    assert!(applied.result.is_ok());
    let bad_actor = key_pair(2);
    let unregistered = submit_ok(&mut r, &bad_actor, Message::UnregisterUser { user_id: id("alice") });
    assert_eq!(unregistered.result, refused(RegistryError::InsufficientSenderPermissions));
    assert!(r.get_user(&id("alice")).is_some(), "The user was expected to exist");
}

#[test]
fn unregister_user_member_of_an_org() {
    let mut r = ledger();
    let alice = key_pair(1);
    register_user(&mut r, &alice, "alice");
    create_org(&mut r, &alice, "acme");
    let initial_balance = r.free_balance(&alice);
    let fee = 5;
    let applied = submit_ok_with_fee(&mut r, &alice, Message::UnregisterUser { user_id: id("alice") }, fee);
    assert_eq!(applied.result, refused(RegistryError::UnregisterableUser));
    assert!(r.get_user(&id("alice")).is_some(), "The user was expected to still exist");
    assert_eq!(r.free_balance(&alice), initial_balance - fee, "The tx fee was not charged properly.");
}

#[test]
fn unregister_user_with_no_associated_user() {
    let mut r = ledger();
    let alice = key_pair(1);
    let initial_balance = r.free_balance(&alice);
    let applied = submit_ok_with_fee(&mut r, &alice, Message::UnregisterUser { user_id: id("alice") }, 3);
    assert_eq!(applied.result, refused(RegistryError::InexistentUser));
    assert!(r.get_user(&id("alice")).is_none(), "User should not exist");
    assert_eq!(r.free_balance(&alice), initial_balance - 3, "The tx fee was not charged properly.");
}

#[test]
fn register_org() {
    let mut r = ledger();
    let alice = key_pair(1);
    register_user(&mut r, &alice, "alice");
    let initial_balance = r.free_balance(&alice);
    let applied = submit_ok_with_fee(&mut r, &alice, Message::RegisterOrg { org_id: id("acme") }, 10);
    assert_eq!(applied.events[0], Event::Registry(RegistryEvent::OrgRegistered(id("acme"))));
    assert!(r.list_orgs().contains(&id("acme")), "Registered org not found in orgs list");
    let org = r.get_org(&id("acme")).unwrap();
    assert_eq!(org.members, vec![id("alice")]);
    assert!(org.projects.is_empty());
    assert_ne!(org.account_id, alice);
    assert_eq!(r.free_balance(&alice), initial_balance - 10 - REGISTRATION_FEE, "The tx fee was not charged properly.");
    // Any second registration of the id fails.
    let again = submit_ok(&mut r, &key_pair(2), Message::RegisterOrg { org_id: id("acme") });
    assert_eq!(again.result, refused(RegistryError::IdAlreadyTaken));
    let again_by_alice = submit_ok(&mut r, &alice, Message::RegisterOrg { org_id: id("acme") });
    assert_eq!(again_by_alice.result, refused(RegistryError::IdAlreadyTaken));
}

#[test]
fn register_org_requires_a_user() {
    let mut r = ledger();
    let applied = submit_ok(&mut r, &key_pair(1), Message::RegisterOrg { org_id: id("acme") });
    assert_eq!(applied.result, refused(RegistryError::AuthorHasNoAssociatedUser));
    assert!(r.get_org(&id("acme")).is_none());
}

#[test]
fn org_accounts_differ_per_org() {
    let mut r = ledger();
    let alice = key_pair(1);
    register_user(&mut r, &alice, "alice");
    let first = create_org(&mut r, &alice, "acme");
    let second = create_org(&mut r, &alice, "globex");
    assert_ne!(first.account_id, second.account_id);
}

#[test]
fn retired_ids_are_never_reused() {
    let mut r = ledger();
    let alice = key_pair(1);
    register_user(&mut r, &alice, "alice");
    create_funded_org(&mut r, &alice, "acme");
    let unregistered = submit_ok(&mut r, &alice, Message::UnregisterOrg { org_id: id("acme") });
    assert_eq!(unregistered.events[0], Event::Registry(RegistryEvent::OrgUnregistered(id("acme"))));
    assert!(r.get_org(&id("acme")).is_none());
    let org_again = submit_ok(&mut r, &alice, Message::RegisterOrg { org_id: id("acme") });
    assert_eq!(org_again.result, refused(RegistryError::IdRetired));
    let user_again = submit_ok(&mut r, &key_pair(2), Message::RegisterUser { user_id: id("acme") });
    assert_eq!(user_again.result, refused(RegistryError::IdRetired));

    let bob = key_pair(3);
    register_user(&mut r, &bob, "bob");
    assert!(submit_ok(&mut r, &bob, Message::UnregisterUser { user_id: id("bob") }).result.is_ok());
    let bob_again = submit_ok(&mut r, &bob, Message::RegisterUser { user_id: id("bob") });
    assert_eq!(bob_again.result, refused(RegistryError::IdRetired));
}

#[test]
fn unregister_org_with_other_members_fails() {
    let mut r = ledger();
    let alice = key_pair(1);
    let bob = key_pair(2);
    register_user(&mut r, &alice, "alice");
    register_user(&mut r, &bob, "bob");
    create_funded_org(&mut r, &alice, "acme");
    let added = submit_ok(&mut r, &alice, Message::RegisterMember { org_id: id("acme"), user_id: id("bob") });
    assert!(added.result.is_ok());
    let applied = submit_ok(&mut r, &alice, Message::UnregisterOrg { org_id: id("acme") });
    assert_eq!(applied.result, refused(RegistryError::UnregisterableOrg));
    let missing = submit_ok(&mut r, &alice, Message::UnregisterOrg { org_id: id("nope") });
    assert_eq!(missing.result, refused(RegistryError::InexistentOrg));
}

#[test]
fn register_member() {
    let mut r = ledger();
    let alice = key_pair(1);
    let bob = key_pair(2);
    register_user(&mut r, &alice, "alice");
    register_user(&mut r, &bob, "bob");
    let org = create_org(&mut r, &alice, "acme");
    r.deposit(&org.account_id, 1000).unwrap();
    let alice_balance = r.free_balance(&alice);
    let fee = 9;
    let applied = submit_ok_with_fee(&mut r, &alice, Message::RegisterMember { org_id: id("acme"), user_id: id("bob") }, fee);
    assert_eq!(applied.events[0], Event::Registry(RegistryEvent::MemberRegistered(id("bob"), id("acme"))));
    let org = r.get_org(&id("acme")).unwrap();
    assert!(org.members.contains(&id("alice")), "Expected author id in Org");
    assert!(org.members.contains(&id("bob")), "Expected user id in Org");
    // A member's org transactions are paid by the org.
    assert_eq!(r.free_balance(&org.account_id), 1000 - fee, "The tx fee was not charged properly.");
    assert_eq!(r.free_balance(&alice), alice_balance);

    let again = submit_ok(&mut r, &alice, Message::RegisterMember { org_id: id("acme"), user_id: id("bob") });
    assert_eq!(again.result, refused(RegistryError::AlreadyAMember));
    let ghost = submit_ok(&mut r, &alice, Message::RegisterMember { org_id: id("acme"), user_id: id("carol") });
    assert_eq!(ghost.result, refused(RegistryError::InexistentUser));
    let carol = key_pair(3);
    register_user(&mut r, &carol, "carol");
    let outsider = submit_ok(&mut r, &carol, Message::RegisterMember { org_id: id("acme"), user_id: id("carol") });
    assert_eq!(outsider.result, refused(RegistryError::InsufficientSenderPermissions));
}

#[test]
fn project_registration_register_project() {
    let mut r = ledger();
    let alice = key_pair(1);
    register_user(&mut r, &alice, "alice");
    let project_hash = hash(100);
    let checkpoint_id = create_checkpoint(&mut r, &alice, project_hash, None);
    let org = create_org(&mut r, &alice, "acme");
    let initial_balance = 1000;
    assert!(submit_ok(&mut r, &alice, Message::Transfer { recipient: org.account_id, amount: initial_balance }).result.is_ok());

    let fee = 31;
    let message = Message::RegisterProject {
        project_name: name("app"),
        project_domain: ProjectRegistrant::Org(id("acme")),
        checkpoint_id,
        metadata: metadata(5),
    };
    let applied = submit_ok_with_fee(&mut r, &alice, message, fee);
    let project_id = (name("app"), ProjectRegistrant::Org(id("acme")));
    let project = r.get_project(&project_id).unwrap();
    assert_eq!(project.current_cp, checkpoint_id);
    assert_eq!(project.initial_cp, checkpoint_id);
    assert_eq!(project.metadata, metadata(5));
    assert_eq!(
        applied.events[0],
        Event::Registry(RegistryEvent::ProjectRegistered(name("app"), ProjectRegistrant::Org(id("acme"))))
    );
    assert!(r.list_projects().contains(&project_id), "Registered project not found in project list");
    let checkpoint = r.get_checkpoint(&checkpoint_id).unwrap();
    assert_eq!(checkpoint.parent, None);
    assert_eq!(checkpoint.hash, project_hash);
    let org = r.get_org(&id("acme")).unwrap();
    assert_eq!(org.projects.len(), 1);
    assert!(org.projects.contains(&name("app")), "Org does not contain the added project.");
    assert_eq!(r.free_balance(&org.account_id), initial_balance - fee, "The tx fee was not charged properly.");
}

#[test]
fn register_project_with_inexistent_org() {
    let mut r = ledger();
    let alice = key_pair(1);
    register_user(&mut r, &alice, "alice");
    let checkpoint_id = create_checkpoint(&mut r, &alice, hash(100), None);
    let message = Message::RegisterProject {
        project_name: name("app"),
        project_domain: ProjectRegistrant::Org(id("nowhere")),
        checkpoint_id,
        metadata: metadata(1),
    };
    assert_eq!(submit_ok(&mut r, &alice, message).result, refused(RegistryError::InexistentOrg));
}

#[test]
fn register_project_under_inexistent_domain() {
    let mut r = ledger();
    let alice = key_pair(1);
    let checkpoint_id = create_checkpoint(&mut r, &alice, hash(100), None);
    let message = Message::RegisterProject {
        project_name: name("app"),
        project_domain: ProjectRegistrant::User(id("nobody")),
        checkpoint_id,
        metadata: metadata(1),
    };
    assert_eq!(submit_ok(&mut r, &alice, message).result, refused(RegistryError::InexistentUser));
}

#[test]
fn project_registration_register_project_with_duplicate_id() {
    let mut r = ledger();
    let alice = key_pair(1);
    let (project_id, checkpoint_id) = create_project_with_checkpoint(&mut r, &alice, "alice", "acme");
    let second = Message::RegisterProject {
        project_name: name("app"),
        project_domain: ProjectRegistrant::Org(id("acme")),
        checkpoint_id,
        metadata: metadata(9),
    };
    assert_eq!(submit_ok(&mut r, &alice, second).result, refused(RegistryError::DuplicateProjectId));
    let project = r.get_project(&project_id).unwrap();
    assert_eq!(project.metadata, metadata(1));
    let org = r.get_org(&id("acme")).unwrap();
    assert_eq!(org.projects.len(), 1);
    assert!(org.projects.contains(&name("app")), "Registered project not found in the org project list");
}

#[test]
fn project_registration_register_project_with_bad_checkpoint() {
    let mut r = ledger();
    let alice = key_pair(1);
    register_user(&mut r, &alice, "alice");
    create_funded_org(&mut r, &alice, "acme");
    let message = Message::RegisterProject {
        project_name: name("app"),
        project_domain: ProjectRegistrant::Org(id("acme")),
        checkpoint_id: hash(200),
        metadata: metadata(1),
    };
    assert_eq!(submit_ok(&mut r, &alice, message).result, refused(RegistryError::InexistentCheckpointId));
    assert!(r.get_project(&(name("app"), ProjectRegistrant::Org(id("acme")))).is_none());
}

#[test]
fn project_registration_register_project_with_bad_actor() {
    let mut r = ledger();
    let good_actor = key_pair(1);
    let bad_actor = key_pair(2);
    register_user(&mut r, &good_actor, "alice");
    create_org(&mut r, &good_actor, "acme");
    let initial_balance = r.free_balance(&bad_actor);
    let fee = 55;
    let message = Message::RegisterProject {
        project_name: name("app"),
        project_domain: ProjectRegistrant::Org(id("acme")),
        checkpoint_id: hash(200),
        metadata: metadata(1),
    };
    let applied = submit_ok_with_fee(&mut r, &bad_actor, message, fee);
    assert_eq!(applied.result, refused(RegistryError::InsufficientSenderPermissions));
    assert_eq!(r.free_balance(&bad_actor), initial_balance - fee, "The tx fee was not charged properly.");
    assert!(r.get_project(&(name("app"), ProjectRegistrant::Org(id("acme")))).is_none());
}

#[test]
fn register_same_project_name_under_different_orgs() {
    let mut r = ledger();
    let alice = key_pair(1);
    create_project_with_checkpoint(&mut r, &alice, "alice", "acme");
    create_funded_org(&mut r, &alice, "globex");
    let cp = create_checkpoint(&mut r, &alice, hash(101), None);
    let message = Message::RegisterProject {
        project_name: name("app"),
        project_domain: ProjectRegistrant::Org(id("globex")),
        checkpoint_id: cp,
        metadata: metadata(2),
    };
    assert_eq!(submit_ok(&mut r, &alice, message).result, Ok(None));
}

#[test]
fn register_same_project_name_under_different_users() {
    let mut r = ledger();
    let alice = key_pair(1);
    let bob = key_pair(2);
    register_user(&mut r, &alice, "alice");
    register_user(&mut r, &bob, "bob");
    let cp = create_checkpoint(&mut r, &alice, hash(100), None);
    for (author, user) in [(alice, "alice"), (bob, "bob")] {
        let message = Message::RegisterProject {
            project_name: name("app"),
            project_domain: ProjectRegistrant::User(id(user)),
            checkpoint_id: cp,
            metadata: metadata(3),
        };
        assert_eq!(submit_ok(&mut r, &author, message).result, Ok(None));
    }
    assert_eq!(r.get_user(&id("bob")).unwrap().projects, vec![name("app")]);
    // A user may not register under another user.
    let message = Message::RegisterProject {
        project_name: name("other"),
        project_domain: ProjectRegistrant::User(id("bob")),
        checkpoint_id: cp,
        metadata: metadata(3),
    };
    assert_eq!(submit_ok(&mut r, &alice, message).result, refused(RegistryError::InsufficientSenderPermissions));
}

#[test]
fn re_register_project_same_domain_entity() {
    let mut r = ledger();
    let alice = key_pair(1);
    let (_, cp) = create_project_with_checkpoint(&mut r, &alice, "alice", "acme");
    let message = Message::RegisterProject {
        project_name: name("app"),
        project_domain: ProjectRegistrant::Org(id("acme")),
        checkpoint_id: cp,
        metadata: metadata(1),
    };
    assert_eq!(submit_ok(&mut r, &alice, message).result, refused(RegistryError::DuplicateProjectId));
}

#[test]
fn create_checkpoint_is_idempotent() {
    let mut r = ledger();
    let alice = key_pair(1);
    let first = create_checkpoint(&mut r, &alice, hash(100), None);
    let second = create_checkpoint(&mut r, &alice, hash(100), None);
    assert_eq!(first, second);
    let child = create_checkpoint(&mut r, &alice, hash(100), Some(first));
    assert_ne!(child, first);
    assert_ne!(first, hash(100));
    let orphan = submit_ok(&mut r, &alice, Message::CreateCheckpoint { project_hash: hash(1), previous_checkpoint_id: Some(hash(3)) });
    assert_eq!(orphan.result, refused(RegistryError::InexistentCheckpointId));
}

#[test]
fn descends_from_walks_parents() {
    let mut r = ledger();
    let alice = key_pair(1);
    let c0 = create_checkpoint(&mut r, &alice, hash(100), None);
    let c1 = create_checkpoint(&mut r, &alice, hash(101), Some(c0));
    let c2 = create_checkpoint(&mut r, &alice, hash(102), Some(c1));
    let d0 = create_checkpoint(&mut r, &alice, hash(103), None);
    assert!(r.descends_from(&c0, &c0));
    assert!(r.descends_from(&c2, &c0));
    assert!(r.descends_from(&c2, &c1));
    assert!(!r.descends_from(&c0, &c2));
    assert!(!r.descends_from(&d0, &c0));
    assert!(!r.descends_from(&hash(9), &c0));
}

#[test]
fn set_checkpoint() {
    let mut r = ledger();
    let charles = key_pair(1);
    let (project_id, cp) = create_project_with_checkpoint(&mut r, &charles, "charles", "acme");
    let new_checkpoint_id = create_checkpoint(&mut r, &charles, hash(150), Some(cp));
    let message = Message::SetCheckpoint {
        project_name: project_id.0.clone(),
        project_domain: project_id.1.clone(),
        new_checkpoint_id,
    };
    let applied = submit_ok(&mut r, &charles, message);
    assert_eq!(applied.result, Ok(None));
    assert_eq!(
        applied.events[0],
        Event::Registry(RegistryEvent::CheckpointSet(project_id.0.clone(), project_id.1.clone(), new_checkpoint_id))
    );
    let new_project = r.get_project(&project_id).unwrap();
    assert_eq!(new_checkpoint_id, new_project.current_cp)
}

#[test]
fn set_checkpoint_without_permission() {
    let mut r = ledger();
    let eve = key_pair(1);
    let (project_id, cp) = create_project_with_checkpoint(&mut r, &eve, "eve", "acme");
    let new_checkpoint_id = create_checkpoint(&mut r, &eve, hash(150), Some(cp));
    let frank = key_pair(2);
    let message = Message::SetCheckpoint {
        project_name: project_id.0.clone(),
        project_domain: project_id.1.clone(),
        new_checkpoint_id,
    };
    let applied = submit_ok(&mut r, &frank, message);
    let updated_project = r.get_project(&project_id).unwrap();
    assert_eq!(applied.result, refused(RegistryError::InsufficientSenderPermissions));
    assert_eq!(updated_project.current_cp, cp);
    assert_ne!(updated_project.current_cp, new_checkpoint_id);
}

#[test]
fn fail_to_set_nonexistent_checkpoint() {
    let mut r = ledger();
    let david = key_pair(1);
    let (project_id, cp) = create_project_with_checkpoint(&mut r, &david, "david", "acme");
    let garbage = hash(222);
    let message = Message::SetCheckpoint {
        project_name: project_id.0.clone(),
        project_domain: project_id.1.clone(),
        new_checkpoint_id: garbage,
    };
    let applied = submit_ok(&mut r, &david, message);
    assert_eq!(applied.result, refused(RegistryError::InexistentCheckpointId));
    let updated_project = r.get_project(&project_id).unwrap();
    assert_eq!(updated_project.current_cp, cp);
    assert_ne!(updated_project.current_cp, garbage);
}

#[test]
fn set_fork_checkpoint() {
    let mut r = ledger();
    let grace = key_pair(1);
    let (project_id, cp) = create_project_with_checkpoint(&mut r, &grace, "grace", "acme");
    let mut current_cp = cp;
    let n = 5;
    let mut checkpoints: Vec<CheckpointId> = Vec::with_capacity(n);
    for i in 0..n {
        let new_checkpoint_id = create_checkpoint(&mut r, &grace, hash(110 + i as u8), Some(current_cp));
        current_cp = new_checkpoint_id;
        checkpoints.push(new_checkpoint_id);
    }
    let forked_checkpoint_id = create_checkpoint(&mut r, &grace, hash(180), Some(checkpoints[2]));
    let message = Message::SetCheckpoint {
        project_name: project_id.0.clone(),
        project_domain: project_id.1.clone(),
        new_checkpoint_id: forked_checkpoint_id,
    };
    assert_eq!(submit_ok(&mut r, &grace, message).result, Ok(None));
    let project_1 = r.get_project(&project_id).unwrap();
    assert_eq!(project_1.current_cp, forked_checkpoint_id)
}

#[test]
fn set_unrelated_checkpoint_fails() {
    let mut r = ledger();
    let alice = key_pair(1);
    let (project_id, c0) = create_project_with_checkpoint(&mut r, &alice, "alice", "acme");
    let c1 = create_checkpoint(&mut r, &alice, hash(101), Some(c0));
    let c2 = create_checkpoint(&mut r, &alice, hash(102), Some(c1));
    let c2_fork = create_checkpoint(&mut r, &alice, hash(103), Some(c1));
    let d0 = create_checkpoint(&mut r, &alice, hash(104), None);
    let set = |r: &mut Registry, cp: CheckpointId| {
        let message = Message::SetCheckpoint {
            project_name: project_id.0.clone(),
            project_domain: project_id.1.clone(),
            new_checkpoint_id: cp,
        };
        submit_ok(r, &alice, message).result
    };
    assert_eq!(set(&mut r, c2), Ok(None));
    assert_eq!(set(&mut r, c2_fork), Ok(None));
    assert_eq!(r.get_project(&project_id).unwrap().current_cp, c2_fork);
    assert_eq!(set(&mut r, d0), refused(RegistryError::InvalidCheckpointAncestry));
    assert_eq!(r.get_project(&project_id).unwrap().current_cp, c2_fork);
    let missing = Message::SetCheckpoint {
        project_name: name("zzz"),
        project_domain: project_id.1.clone(),
        new_checkpoint_id: c2,
    };
    assert_eq!(submit_ok(&mut r, &alice, missing).result, refused(RegistryError::InexistentProjectId));
}

#[test]
fn transfer_fail() {
    let mut r = ledger();
    let alice = key_pair(1);
    let bob = key_pair(2);
    let balance_alice = r.free_balance(&alice);
    let applied = submit_ok(&mut r, &alice, Message::Transfer { recipient: bob, amount: balance_alice + 1 });
    assert_eq!(applied.result, Err(DispatchError::InsufficientBalance));
    assert_eq!(r.free_balance(&bob), INITIAL);
}

#[test]
fn project_account_transfer() {
    let mut r = ledger();
    let alice = key_pair(1);
    let bob = key_pair(20);
    register_user(&mut r, &alice, "alice");
    let org = create_org(&mut r, &alice, "acme");
    assert_eq!(r.free_balance(&org.account_id), 0);
    submit_ok(&mut r, &alice, Message::Transfer { recipient: org.account_id, amount: 2000 });
    assert_eq!(r.free_balance(&org.account_id), 2000);
    assert_eq!(r.free_balance(&bob), 0);
    let applied = submit_ok(&mut r, &alice, Message::TransferFromOrg { org_id: id("acme"), recipient: bob, amount: 1000 });
    assert_eq!(applied.result, Ok(None));
    assert_eq!(r.free_balance(&bob), 1000);
    // The org paid the fee of its member's transfer.
    assert_eq!(r.free_balance(&org.account_id), 1000 - 1);
}

#[test]
fn project_account_transfer_non_member() {
    let mut r = ledger();
    let alice = key_pair(1);
    let bob = key_pair(2);
    register_user(&mut r, &alice, "alice");
    let org = create_org(&mut r, &alice, "acme");
    submit_ok(&mut r, &alice, Message::Transfer { recipient: org.account_id, amount: 2000 });
    assert_eq!(r.free_balance(&org.account_id), 2000);
    let bob_balance = r.free_balance(&bob);
    let applied = submit_ok_with_fee(&mut r, &bob, Message::TransferFromOrg { org_id: id("acme"), recipient: bob, amount: 1000 }, 4);
    assert_eq!(applied.result, refused(RegistryError::InsufficientSenderPermissions));
    assert_eq!(r.free_balance(&org.account_id), 2000);
    assert_eq!(r.free_balance(&bob), bob_balance - 4);
}

#[test]
fn transfer_from_org_by_member_and_non_member() {
    let mut r = ledger();
    let alice = key_pair(1);
    let bob = key_pair(21);
    let mallory = key_pair(3);
    register_user(&mut r, &alice, "alice");
    let org = create_org(&mut r, &alice, "acme");
    r.deposit(&org.account_id, 1000).unwrap();
    // A member's transfer out of the org is paid by the org: the base fee of one unit.
    let applied = submit_ok(&mut r, &alice, Message::TransferFromOrg { org_id: id("acme"), recipient: bob, amount: 500 });
    assert_eq!(applied.result, Ok(None));
    assert_eq!(r.free_balance(&org.account_id), 1000 - 500 - 1);
    assert_eq!(r.free_balance(&bob), 500);
    // Someone outside the org pays their own fee and moves nothing.
    let mallory_balance = r.free_balance(&mallory);
    let refused_transfer = submit_ok_with_fee(&mut r, &mallory, Message::TransferFromOrg { org_id: id("acme"), recipient: bob, amount: 500 }, 2);
    assert_eq!(refused_transfer.result, refused(RegistryError::InsufficientSenderPermissions));
    assert_eq!(r.free_balance(&org.account_id), 499);
    assert_eq!(r.free_balance(&bob), 500);
    assert_eq!(r.free_balance(&mallory), mallory_balance - 2);
    let missing = submit_ok(&mut r, &alice, Message::TransferFromOrg { org_id: id("nope"), recipient: bob, amount: 5 });
    assert_eq!(missing.result, refused(RegistryError::InexistentOrg));
}

#[test]
fn pay_fee() {
    let mut r = Registry::new(hash(7));
    let tx_author = key_pair(1);
    r.deposit(&tx_author, 3000).unwrap();
    let fee = 1000;
    let message = Message::RegisterUser { user_id: id("alice") };
    let block_author = key_pair(2);
    assert!(r.pay(&tx_author, fee, &message, &Some(block_author)));
    assert_eq!(r.free_balance(&block_author), 990);
    assert_eq!(r.free_balance(&tx_author), 2000);
}

#[test]
fn pay_without_block_author_burns_everything() {
    let mut r = Registry::new(hash(7));
    let tx_author = key_pair(1);
    r.deposit(&tx_author, 100).unwrap();
    let message = Message::Transfer { recipient: key_pair(2), amount: 1 };
    assert!(!r.pay(&tx_author, 101, &message, &None));
    assert_eq!(r.free_balance(&tx_author), 100);
    assert!(r.pay(&tx_author, 60, &message, &None));
    assert_eq!(r.free_balance(&tx_author), 40);
}

#[test]
fn registration_fee_failure_costs_declared_fee() {
    let mut r = Registry::new(hash(7));
    let poor = key_pair(1);
    r.deposit(&poor, 12).unwrap();
    let applied = submit_ok_with_fee(&mut r, &poor, Message::RegisterUser { user_id: id("poor") }, 5);
    assert_eq!(applied.result, Err(DispatchError::InsufficientBalance));
    assert_eq!(r.free_balance(&poor), 7);
    assert!(r.get_user(&id("poor")).is_none());
}

#[test]
fn insufficient_fee() {
    let mut r = ledger();
    let alice = key_pair(1);
    let tx = Transaction {
        author: alice,
        nonce: 0,
        genesis_hash: r.genesis_hash,
        fee: 0,
        message: Message::RegisterUser { user_id: id("alice") },
    };
    assert_eq!(r.apply_transaction(&tx, &block()), Err(TransactionError::FeeBelowBase));
    assert_eq!(r.free_balance(&alice), INITIAL);
}

#[test]
fn insufficient_funds() {
    let mut r = ledger();
    let poor_actor = key_pair(77);
    let tx = Transaction {
        author: poor_actor,
        nonce: 0,
        genesis_hash: r.genesis_hash,
        fee: 1,
        message: Message::RegisterUser { user_id: id("poor") },
    };
    assert_eq!(r.apply_transaction(&tx, &block()), Err(TransactionError::InsufficientBalance));
    assert_eq!(r.account_nonce(&poor_actor), 0);
}

#[test]
fn invalid_transaction() {
    let mut r = ledger();
    let alice = key_pair(1);
    let message = Message::Transfer { recipient: key_pair(2), amount: 123 };
    let wrong_nonce = Transaction { author: alice, nonce: 1, genesis_hash: r.genesis_hash, fee: 1000, message: message.clone() };
    assert_eq!(r.apply_transaction(&wrong_nonce, &block()), Err(TransactionError::InvalidNonce));
    let wrong_chain = Transaction { author: alice, nonce: 0, genesis_hash: hash(8), fee: 1000, message: message.clone() };
    assert_eq!(r.apply_transaction(&wrong_chain, &block()), Err(TransactionError::WrongGenesisHash));
    let good = Transaction { author: alice, nonce: 0, genesis_hash: r.genesis_hash, fee: 1000, message };
    assert!(r.apply_transaction(&good, &block()).is_ok());
    assert_eq!(r.account_nonce(&alice), 1);
    // Replaying the same transaction is refused.
    assert_eq!(r.apply_transaction(&good, &block()), Err(TransactionError::InvalidNonce));
    assert_eq!(r.free_balance(&alice), INITIAL - 1000 - 123);
    assert_eq!(r.free_balance(&block_author()), 990);
}

#[test]
fn result_from_events_reports_failures() {
    let message = Message::RegisterOrg { org_id: id("acme") };
    let failed = vec![Event::System(SystemEvent::ExtrinsicFailed(DispatchError::Registry(RegistryError::IdRetired)))];
    assert_eq!(result_from_events(&message, &failed), Ok(refused(RegistryError::IdRetired)));
    let missing = vec![Event::System(SystemEvent::ExtrinsicSuccess)];
    assert_eq!(
        result_from_events(&message, &missing),
        Err(EventParseError { missing: EventKind::OrgRegistered })
    );
    assert_eq!(result_from_events(&message, &vec![]), Err(EventParseError { missing: EventKind::System }));
    let transfer = Message::Transfer { recipient: key_pair(1), amount: 1 };
    assert_eq!(result_from_events(&transfer, &missing), Ok(Ok(None)));
}

#[test]
fn checkpoint_ids_are_content_hashes() {
    let mut r = ledger();
    let alice = key_pair(1);
    let c0 = create_checkpoint(&mut r, &alice, hash(100), None);
    assert_eq!(c0, checkpoint_id(None, hash(100)));
    let c1 = create_checkpoint(&mut r, &alice, hash(101), Some(c0));
    assert_eq!(c1, checkpoint_id(Some(c0), hash(101)));
    let stored = r.get_checkpoint(&c1).unwrap();
    assert_eq!(stored.parent, Some(c0));
    assert_eq!(stored.id(), c1);
    // The id is the Blake2-256 hash of the SCALE encoding: tag, parent, hash.
    let mut encoded = vec![1u8];
    encoded.extend_from_slice(&c0.bytes);
    encoded.extend_from_slice(&[101u8; 32]);
    assert_eq!(c1.bytes, blake2_256(&encoded));
    assert_eq!(c0.bytes, blake2_256(&[&[0u8][..], &[100u8; 32][..]].concat()));
}

#[test]
fn genesis_endows_accounts() {
    let endowed = vec![key_pair(1), key_pair(2), key_pair(1)];
    let r = Registry::genesis(hash(7), &endowed);
    assert_eq!(r.free_balance(&key_pair(1)), ENDOWMENT);
    assert_eq!(r.free_balance(&key_pair(2)), ENDOWMENT);
    assert_eq!(r.free_balance(&key_pair(3)), 0);
    assert_eq!(ENDOWMENT, 1u128 << 60);
    assert!(r.list_orgs().is_empty());
}

#[test]
fn user_lookup_by_account() {
    let mut r = ledger();
    let alice = key_pair(1);
    assert!(r.get_user_with_account(&alice).is_none());
    register_user(&mut r, &alice, "alice");
    let (user_id, user) = r.get_user_with_account(&alice).unwrap();
    assert_eq!(user_id, id("alice"));
    assert_eq!(user.account_id, alice);
    assert_eq!(r.get_user_id_with_account(&key_pair(2)), None);
    assert_eq!(r.ensure_id_is_available(&id("alice")), Err(RegistryError::IdAlreadyTaken));
    assert_eq!(r.ensure_id_is_available(&id("bob")), Ok(()));
}

#[test]
fn waiting_for_inclusion() {
    assert_eq!(watch_step(Some(TxStatus::Ready)), WatchStep::Wait);
    assert_eq!(watch_step(Some(TxStatus::Future)), WatchStep::Wait);
    assert_eq!(watch_step(Some(TxStatus::Broadcast)), WatchStep::Wait);
    assert_eq!(watch_step(Some(TxStatus::Finalized(hash(3)))), WatchStep::Included(hash(3)));
    assert_eq!(watch_step(Some(TxStatus::Usurped(hash(3)))), WatchStep::Failed(SubmissionError::Usurped));
    assert_eq!(watch_step(Some(TxStatus::Dropped)), WatchStep::Failed(SubmissionError::Dropped));
    assert_eq!(watch_step(Some(TxStatus::Invalid)), WatchStep::Failed(SubmissionError::Invalid));
    assert_eq!(watch_step(None), WatchStep::Failed(SubmissionError::StreamTerminated));
}

#[test]
fn events_of_one_transaction() {
    let extrinsics = vec![vec![1u8, 2], vec![3u8], vec![4u8, 5, 6]];
    let tx_hash = Bytes32::from_array(blake2_256(&[3u8]));
    let success = Event::System(SystemEvent::ExtrinsicSuccess);
    let registered = Event::Registry(RegistryEvent::UserRegistered(id("alice")));
    let records = vec![
        EventRecord { phase: Phase::Initialization, event: success.clone() },
        EventRecord { phase: Phase::ApplyExtrinsic(0), event: success.clone() },
        EventRecord { phase: Phase::ApplyExtrinsic(1), event: registered.clone() },
        EventRecord { phase: Phase::ApplyExtrinsic(2), event: success.clone() },
        EventRecord { phase: Phase::ApplyExtrinsic(1), event: success.clone() },
        EventRecord { phase: Phase::Finalization, event: success.clone() },
    ];
    let events = extract_transaction_events(&tx_hash, &extrinsics, records.clone()).unwrap();
    assert_eq!(events, vec![registered, success]);
    assert!(extract_transaction_events(&hash(1), &extrinsics, records).is_none());
}

#[test]
fn org_with_given_account() {
    let mut r = ledger();
    let alice = key_pair(1);
    register_user(&mut r, &alice, "alice");
    let account = key_pair(77);
    assert_eq!(r.register_org_with_account(&alice, &id("acme"), account), Ok(()));
    let org = r.get_org(&id("acme")).unwrap();
    assert_eq!(org.account_id, account);
    assert_eq!(org.members, vec![id("alice")]);
    assert_eq!(
        r.register_org_with_account(&key_pair(2), &id("globex"), account),
        Err(DispatchError::Registry(RegistryError::AuthorHasNoAssociatedUser))
    );
}

#[test]
fn events_by_extrinsic_position() {
    let success = Event::System(SystemEvent::ExtrinsicSuccess);
    let failed = Event::System(SystemEvent::ExtrinsicFailed(DispatchError::InsufficientBalance));
    let records = vec![
        EventRecord { phase: Phase::ApplyExtrinsic(0), event: success.clone() },
        EventRecord { phase: Phase::ApplyExtrinsic(1), event: failed.clone() },
        EventRecord { phase: Phase::Finalization, event: success.clone() },
    ];
    assert_eq!(events_at_index(records.clone(), 1), vec![failed]);
    assert_eq!(events_at_index(records.clone(), 0), vec![success]);
    assert!(events_at_index(records, 2).is_empty());
}

#[test]
fn registration_register_project() {
    let mut r = ledger();
    let alice = key_pair(1);
    register_user(&mut r, &alice, "alice");
    let checkpoint_id = create_checkpoint(&mut r, &alice, hash(100), None);
    let message = Message::RegisterProject {
        project_name: name("app"),
        project_domain: ProjectRegistrant::User(id("alice")),
        checkpoint_id,
        metadata: metadata(4),
    };
    let applied = submit_ok(&mut r, &alice, message);
    assert_eq!(applied.result, Ok(None));
    let project_id = (name("app"), ProjectRegistrant::User(id("alice")));
    let project = r.get_project(&project_id).unwrap();
    assert_eq!(project.current_cp, checkpoint_id);
    assert_eq!(project.metadata, metadata(4));
    assert!(r.list_projects().contains(&project_id), "Registered project not found in project list");
    assert_eq!(r.get_user(&id("alice")).unwrap().projects, vec![name("app")]);
}

#[test]
fn registration_register_project_with_duplicate_id() {
    let mut r = ledger();
    let alice = key_pair(1);
    register_user(&mut r, &alice, "alice");
    let checkpoint_id = create_checkpoint(&mut r, &alice, hash(100), None);
    let message = |m: u8| Message::RegisterProject {
        project_name: name("app"),
        project_domain: ProjectRegistrant::User(id("alice")),
        checkpoint_id,
        metadata: metadata(m),
    };
    assert_eq!(submit_ok(&mut r, &alice, message(1)).result, Ok(None));
    assert_eq!(submit_ok(&mut r, &alice, message(2)).result, refused(RegistryError::DuplicateProjectId));
    let project = r.get_project(&(name("app"), ProjectRegistrant::User(id("alice")))).unwrap();
    assert_eq!(project.metadata, metadata(1));
}

#[test]
fn registration_register_project_with_bad_checkpoint() {
    let mut r = ledger();
    let alice = key_pair(1);
    register_user(&mut r, &alice, "alice");
    let message = Message::RegisterProject {
        project_name: name("app"),
        project_domain: ProjectRegistrant::User(id("alice")),
        checkpoint_id: hash(201),
        metadata: metadata(1),
    };
    assert_eq!(submit_ok(&mut r, &alice, message).result, refused(RegistryError::InexistentCheckpointId));
    assert!(r.get_project(&(name("app"), ProjectRegistrant::User(id("alice")))).is_none());
}
