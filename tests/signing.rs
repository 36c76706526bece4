use radicle_registry::bytes::{AccountId, Bytes128, Bytes32};
use radicle_registry::errors::TransactionError;
use radicle_registry::ids::{Id, ProjectName, ProjectRegistrant};
use radicle_registry::messages::Message;
use radicle_registry::registry::Registry;
use radicle_registry::transaction::{BlockContext, SignedTransaction, Transaction};
use radicle_registry::wire::{decode_message, encode_message, signing_payload, MessageDecodeError};
use sp_core::Pair;

fn key_pair(n: u8) -> sp_core::ed25519::Pair {
    sp_core::ed25519::Pair::from_seed(&[n; 32])
}

fn account(pair: &sp_core::ed25519::Pair) -> AccountId {
    let public: [u8; 32] = AsRef::<[u8]>::as_ref(&pair.public()).try_into().unwrap();
    Bytes32::from_array(public)
}

fn sign(pair: &sp_core::ed25519::Pair, tx: Transaction) -> SignedTransaction {
    let signature: [u8; 64] = AsRef::<[u8]>::as_ref(&pair.sign(&signing_payload(&tx))).try_into().unwrap();
    SignedTransaction { transaction: tx, signature }
}

fn block() -> BlockContext {
    BlockContext { author: None, seed: Bytes32::from_array([1u8; 32]) }
}

fn funded(accounts: &[AccountId]) -> Registry {
    let mut r = Registry::new(Bytes32::from_array([7u8; 32]));
    for a in accounts {
        r.deposit(a, 10_000).unwrap();
    }
    r
}

#[test]
fn message_encoding_bytes() {
    let org = Message::RegisterOrg { org_id: Id::try_from("acme").unwrap() };
    assert_eq!(encode_message(&org), vec![0u8, 16, b'a', b'c', b'm', b'e']);

    let transfer = Message::Transfer { recipient: Bytes32::from_array([5u8; 32]), amount: 258 };
    let mut expected = vec![8u8];
    expected.extend_from_slice(&[5u8; 32]);
    expected.extend_from_slice(&[2u8, 1]);
    expected.extend_from_slice(&[0u8; 14]);
    assert_eq!(encode_message(&transfer), expected);

    let project = Message::RegisterProject {
        project_name: ProjectName::try_from("app").unwrap(),
        project_domain: ProjectRegistrant::User(Id::try_from("bo").unwrap()),
        checkpoint_id: Bytes32::from_array([9u8; 32]),
        metadata: Bytes128::from_vec(vec![3u8; 100]).unwrap(),
    };
    let mut expected = vec![5u8, 12, b'a', b'p', b'p', 1, 8, b'b', b'o'];
    expected.extend_from_slice(&[9u8; 32]);
    expected.extend_from_slice(&[0x91, 0x01]);
    expected.extend_from_slice(&[3u8; 100]);
    assert_eq!(encode_message(&project), expected);

    let create = Message::CreateCheckpoint { project_hash: Bytes32::from_array([4u8; 32]), previous_checkpoint_id: None };
    let mut expected = vec![7u8];
    expected.extend_from_slice(&[4u8; 32]);
    expected.push(0);
    assert_eq!(encode_message(&create), expected);
}

#[test]
fn signing_payload_layout() {
    let tx = Transaction {
        author: Bytes32::from_array([1u8; 32]),
        nonce: 3,
        genesis_hash: Bytes32::from_array([7u8; 32]),
        fee: 5,
        message: Message::RegisterUser { user_id: Id::try_from("al").unwrap() },
    };
    let mut expected = vec![2u8, 8, b'a', b'l'];
    expected.extend_from_slice(&[3u8, 0, 0, 0, 0, 0, 0, 0]);
    expected.extend_from_slice(&[7u8; 32]);
    expected.push(5);
    expected.extend_from_slice(&[0u8; 15]);
    assert_eq!(signing_payload(&tx), expected);
}

#[test]
fn signed_transaction_is_applied() {
    let alice = key_pair(1);
    let mut r = funded(&[account(&alice)]);
    let tx = Transaction {
        author: account(&alice),
        nonce: 0,
        genesis_hash: r.genesis_hash,
        fee: 1,
        message: Message::RegisterUser { user_id: Id::try_from("alice").unwrap() },
    };
    assert!(r.apply_signed_transaction(&sign(&alice, tx), &block()).is_ok());
    assert!(r.get_user(&Id::try_from("alice").unwrap()).is_some());
    assert_eq!(r.account_nonce(&account(&alice)), 1);
}

#[test]
fn bad_signature_is_refused() {
    let alice = key_pair(1);
    let mallory = key_pair(2);
    let mut r = funded(&[account(&alice), account(&mallory)]);
    let tx = Transaction {
        author: account(&alice),
        nonce: 0,
        genesis_hash: r.genesis_hash,
        fee: 1,
        message: Message::Transfer { recipient: account(&mallory), amount: 500 },
    };
    // Signed by someone other than the author.
    let forged = sign(&mallory, tx.clone());
    assert_eq!(r.apply_signed_transaction(&forged, &block()), Err(TransactionError::BadSignature));
    // Signed by the author, then altered.
    let mut altered = sign(&alice, tx);
    altered.transaction.message = Message::Transfer { recipient: account(&mallory), amount: 5000 };
    assert_eq!(r.apply_signed_transaction(&altered, &block()), Err(TransactionError::BadSignature));
    assert_eq!(r.free_balance(&account(&alice)), 10_000);
    assert_eq!(r.account_nonce(&account(&alice)), 0);
}

#[test]
fn messages_decode_to_themselves() {
    let id = |s: &str| Id::try_from(s).unwrap();
    let messages = vec![
        Message::RegisterOrg { org_id: id("acme") },
        Message::UnregisterOrg { org_id: id("acme") },
        Message::RegisterUser { user_id: id("alice") },
        Message::UnregisterUser { user_id: id("alice") },
        Message::RegisterMember { org_id: id("acme"), user_id: id("bob") },
        Message::RegisterProject {
            project_name: ProjectName::try_from("app").unwrap(),
            project_domain: ProjectRegistrant::Org(id("acme")),
            checkpoint_id: Bytes32::from_array([9u8; 32]),
            metadata: Bytes128::from_vec(vec![3u8; 128]).unwrap(),
        },
        Message::SetCheckpoint {
            project_name: ProjectName::try_from("app").unwrap(),
            project_domain: ProjectRegistrant::User(id("alice")),
            new_checkpoint_id: Bytes32::from_array([8u8; 32]),
        },
        Message::CreateCheckpoint { project_hash: Bytes32::from_array([4u8; 32]), previous_checkpoint_id: None },
        Message::CreateCheckpoint {
            project_hash: Bytes32::from_array([4u8; 32]),
            previous_checkpoint_id: Some(Bytes32::from_array([5u8; 32])),
        },
        Message::Transfer { recipient: Bytes32::from_array([5u8; 32]), amount: u128::MAX },
        Message::TransferFromOrg { org_id: id("acme"), recipient: Bytes32::from_array([6u8; 32]), amount: 1 << 70 },
    ];
    for m in messages {
        assert_eq!(decode_message(&encode_message(&m)), Ok(m));
    }
}

#[test]
fn malformed_messages_are_refused() {
    assert_eq!(decode_message(&[]), Err(MessageDecodeError));
    assert_eq!(decode_message(&[10]), Err(MessageDecodeError));
    // An invalid id.
    assert_eq!(decode_message(&[0, 8, b'A', b'b']), Err(MessageDecodeError));
    // Trailing bytes.
    assert_eq!(decode_message(&[0, 8, b'a', b'b', 0]), Err(MessageDecodeError));
    // A truncated amount.
    let mut short = vec![8u8];
    short.extend_from_slice(&[1u8; 32]);
    short.extend_from_slice(&[0u8; 15]);
    assert_eq!(decode_message(&short), Err(MessageDecodeError));
    assert_eq!(decode_message(&[0, 8, b'a', b'b']), Ok(Message::RegisterOrg { org_id: Id::try_from("ab").unwrap() }));
}

fn check_signed_transfer_is_accepted(seed: u8) {
    let author = key_pair(seed);
    let mut r = funded(&[account(&author)]);
    let tx = Transaction {
        author: account(&author),
        nonce: 0,
        genesis_hash: r.genesis_hash,
        fee: 1,
        message: Message::Transfer { recipient: Bytes32::from_array([0u8; 32]), amount: 0 },
    };
    r.apply_signed_transaction(&sign(&author, tx), &block()).unwrap();
}

#[test]
fn lib_check_extrinsic() {
    check_signed_transfer_is_accepted(32);
}

#[test]
fn extrinsic_check_extrinsic() {
    check_signed_transfer_is_accepted(33);
}

#[test]
fn end_to_end_register_user() {
    let alice = key_pair(1);
    let mut r = funded(&[account(&alice)]);
    let user_id = Id::try_from("alice").unwrap();
    assert!(r.get_user(&user_id).is_none(), "The user was not expected to exist");
    let tx = Transaction {
        author: account(&alice),
        nonce: 0,
        genesis_hash: r.genesis_hash,
        fee: 1,
        message: Message::RegisterUser { user_id: user_id.clone() },
    };
    r.apply_signed_transaction(&sign(&alice, tx), &block()).unwrap();
    assert!(r.list_users().contains(&user_id), "Registered user not found in users list");
    assert_eq!(r.get_user(&user_id).unwrap().account_id, account(&alice));
}

#[test]
fn end_to_end_register_project() {
    let alice = key_pair(1);
    let mut r = funded(&[account(&alice)]);
    let mut nonce = 0;
    let mut submit = |r: &mut Registry, message: Message, fee: u128| {
        let tx = Transaction { author: account(&alice), nonce, genesis_hash: r.genesis_hash, fee, message };
        nonce += 1;
        r.apply_signed_transaction(&sign(&alice, tx), &block()).unwrap()
    };
    submit(&mut r, Message::RegisterUser { user_id: Id::try_from("alice").unwrap() }, 1);
    submit(&mut r, Message::RegisterOrg { org_id: Id::try_from("monadic").unwrap() }, 1);
    let org = r.get_org(&Id::try_from("monadic").unwrap()).unwrap();
    r.deposit(&org.account_id, 1000).unwrap();
    let project_hash = Bytes32::from_array([3u8; 32]);
    submit(&mut r, Message::CreateCheckpoint { project_hash, previous_checkpoint_id: None }, 1);
    let checkpoint_id = radicle_registry::registry::checkpoint_id(None, project_hash);
    let fee = 10;
    submit(
        &mut r,
        Message::RegisterProject {
            project_name: ProjectName::try_from("radicle").unwrap(),
            project_domain: ProjectRegistrant::Org(Id::try_from("monadic").unwrap()),
            checkpoint_id,
            metadata: Bytes128::from_vec(vec![1, 2, 3]).unwrap(),
        },
        fee,
    );
    let project_id = (ProjectName::try_from("radicle").unwrap(), ProjectRegistrant::Org(Id::try_from("monadic").unwrap()));
    let project = r.get_project(&project_id).unwrap();
    assert_eq!(project.current_cp, checkpoint_id);
    assert!(r.list_projects().contains(&project_id), "Registered project not found in project list");
    assert_eq!(r.free_balance(&org.account_id), 1000 - fee, "The tx fee was not charged properly.");
}
