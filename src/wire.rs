//! The binary encoding of messages and the payload that a transaction's author signs.
//!
//! A message is encoded as its variant's index, then its fields in order: identifiers, names and
//! metadata with a SCALE compact length prefix, hashes and accounts as their 32 bytes, a
//! registrant as `0` (org) or `1` (user) then its id, an optional checkpoint as `0`, or `1`
//! then its bytes, and amounts as 16 little-endian bytes. New kinds of messages get new indices;
//! existing encodings never change.
use vstd::prelude::*;
use crate::bytes::{append_bytes, Bytes128, Bytes32};
use crate::codec::{decode_bytes, decode_u128, encode_bytes, le_value, scale_bytes, scale_payload};
use crate::ids::{valid_id, Id, ProjectName, ProjectRegistrant, Registrant, registrant_id};
use crate::messages::Message;
use crate::state::opt_view;
use crate::transaction::Transaction;

verus! {

/// The `n` low bytes of `x`, least significant first.
pub open spec fn le_bytes(x: nat, n: nat) -> Seq<u8>
    decreases n,
{
    if n == 0 {
        Seq::empty()
    } else {
        seq![(x % 256) as u8] + le_bytes(x / 256, (n - 1) as nat)
    }
}

/// The encoding of a registrant.
pub open spec fn registrant_encoding(r: Registrant) -> Seq<u8> {
    match r {
        Registrant::Org(id) => seq![0u8] + scale_bytes(id),
        Registrant::User(id) => seq![1u8] + scale_bytes(id),
    }
}

/// The encoding of an optional checkpoint id.
pub open spec fn optional_encoding(o: Option<Seq<u8>>) -> Seq<u8> {
    match o {
        None => seq![0u8],
        Some(c) => seq![1u8] + c,
    }
}

/// Every identifier and name of the message is valid and its metadata fits in 128 bytes.
pub open spec fn message_wf(m: Message) -> bool {
    match m {
        Message::RegisterOrg { org_id } => valid_id(org_id@),
        Message::UnregisterOrg { org_id } => valid_id(org_id@),
        Message::RegisterUser { user_id } => valid_id(user_id@),
        Message::UnregisterUser { user_id } => valid_id(user_id@),
        Message::RegisterMember { org_id, user_id } => valid_id(org_id@) && valid_id(user_id@),
        Message::RegisterProject { project_name, project_domain, metadata, .. } => valid_id(project_name@)
            && valid_id(registrant_id(project_domain@)) && metadata@.len() <= 128,
        Message::SetCheckpoint { project_name, project_domain, .. } => valid_id(project_name@)
            && valid_id(registrant_id(project_domain@)),
        Message::CreateCheckpoint { .. } => true,
        Message::Transfer { .. } => true,
        Message::TransferFromOrg { org_id, .. } => valid_id(org_id@),
    }
}

/// The encoding of a message.
pub open spec fn message_encoding(m: Message) -> Seq<u8> {
    match m {
        Message::RegisterOrg { org_id } => seq![0u8] + scale_bytes(org_id@),
        Message::UnregisterOrg { org_id } => seq![1u8] + scale_bytes(org_id@),
        Message::RegisterUser { user_id } => seq![2u8] + scale_bytes(user_id@),
        Message::UnregisterUser { user_id } => seq![3u8] + scale_bytes(user_id@),
        Message::RegisterMember { org_id, user_id } => seq![4u8] + scale_bytes(org_id@) + scale_bytes(user_id@),
        Message::RegisterProject { project_name, project_domain, checkpoint_id, metadata } => seq![5u8]
            + scale_bytes(project_name@) + registrant_encoding(project_domain@) + checkpoint_id@
            + scale_bytes(metadata@),
        Message::SetCheckpoint { project_name, project_domain, new_checkpoint_id } => seq![6u8]
            + scale_bytes(project_name@) + registrant_encoding(project_domain@) + new_checkpoint_id@,
        Message::CreateCheckpoint { project_hash, previous_checkpoint_id } => seq![7u8] + project_hash@
            + optional_encoding(opt_view(previous_checkpoint_id)),
        Message::Transfer { recipient, amount } => seq![8u8] + recipient@ + le_bytes(amount as nat, 16),
        Message::TransferFromOrg { org_id, recipient, amount } => seq![9u8] + scale_bytes(org_id@)
            + recipient@ + le_bytes(amount as nat, 16),
    }
}

/// What the author of a transaction signs: the message's encoding, the nonce (8 little-endian
/// bytes), the genesis hash and the fee (16 little-endian bytes).
pub open spec fn signing_payload_of(tx: Transaction) -> Seq<u8> {
    message_encoding(tx.message) + le_bytes(tx.nonce as nat, 8) + tx.genesis_hash@ + le_bytes(tx.fee as nat, 16)
}

/// Appends the `n` low bytes of `x`, least significant first.
fn push_le(out: &mut Vec<u8>, x: u128, n: usize)
    requires
        n <= 16,
    ensures
        final(out)@ == old(out)@ + le_bytes(x as nat, n as nat),
{
    let mut v: u128 = x;
    let mut i: usize = 0;
    while i < n
        invariant
            i <= n,
            old(out)@ + le_bytes(x as nat, n as nat) == out@ + le_bytes(v as nat, (n - i) as nat),
        decreases n - i,
    {
        let ghost before = out@;
        out.push((v % 256) as u8);
        assert(le_bytes(v as nat, (n - i) as nat) == seq![(v as nat % 256) as u8] + le_bytes(
            v as nat / 256,
            (n - i - 1) as nat,
        ));
        assert(out@ + le_bytes((v / 256) as nat, (n - i - 1) as nat) =~= before + le_bytes(v as nat, (n - i) as nat));
        v = v / 256;
        i = i + 1;
    }
    assert(out@ + le_bytes(v as nat, 0) =~= out@);
}

/// Appends an identifier or name with its length prefix.
fn push_scale(out: &mut Vec<u8>, b: &[u8])
    requires
        b@.len() < 16384,
    ensures
        final(out)@ == old(out)@ + scale_bytes(b@),
{
    let encoded = encode_bytes(b);
    append_bytes(out, encoded.as_slice());
}

fn push_registrant(out: &mut Vec<u8>, r: &ProjectRegistrant)
    requires
        registrant_id(r@).len() < 16384,
    ensures
        final(out)@ == old(out)@ + registrant_encoding(r@),
{
    let (tag, id): (u8, &Id) = match r {
        ProjectRegistrant::Org(id) => (0u8, id),
        ProjectRegistrant::User(id) => (1u8, id),
    };
    out.push(tag);
    push_scale(out, id.as_bytes());
    assert(out@ =~= old(out)@ + registrant_encoding(r@));
}

fn push_bytes32(out: &mut Vec<u8>, b: &Bytes32)
    ensures
        final(out)@ == old(out)@ + b@,
{
    append_bytes(out, b.bytes.as_slice());
}

/// The encoding of a message.
pub fn encode_message(m: &Message) -> (r: Vec<u8>)
    requires
        message_wf(*m),
    ensures
        r@ == message_encoding(*m),
{
    let mut out: Vec<u8> = Vec::new();
    match m {
        Message::RegisterOrg { org_id } => {
            out.push(0u8);
            push_scale(&mut out, org_id.as_bytes());
        },
        Message::UnregisterOrg { org_id } => {
            out.push(1u8);
            push_scale(&mut out, org_id.as_bytes());
        },
        Message::RegisterUser { user_id } => {
            out.push(2u8);
            push_scale(&mut out, user_id.as_bytes());
        },
        Message::UnregisterUser { user_id } => {
            out.push(3u8);
            push_scale(&mut out, user_id.as_bytes());
        },
        Message::RegisterMember { org_id, user_id } => {
            out.push(4u8);
            push_scale(&mut out, org_id.as_bytes());
            push_scale(&mut out, user_id.as_bytes());
        },
        Message::RegisterProject { project_name, project_domain, checkpoint_id, metadata } => {
            out.push(5u8);
            push_scale(&mut out, project_name.as_bytes());
            push_registrant(&mut out, project_domain);
            push_bytes32(&mut out, checkpoint_id);
            push_scale(&mut out, metadata.bytes.as_slice());
        },
        Message::SetCheckpoint { project_name, project_domain, new_checkpoint_id } => {
            out.push(6u8);
            push_scale(&mut out, project_name.as_bytes());
            push_registrant(&mut out, project_domain);
            push_bytes32(&mut out, new_checkpoint_id);
        },
        Message::CreateCheckpoint { project_hash, previous_checkpoint_id } => {
            out.push(7u8);
            push_bytes32(&mut out, project_hash);
            match previous_checkpoint_id {
                None => out.push(0u8),
                Some(c) => {
                    out.push(1u8);
                    push_bytes32(&mut out, c);
                },
            }
        },
        Message::Transfer { recipient, amount } => {
            out.push(8u8);
            push_bytes32(&mut out, recipient);
            push_le(&mut out, *amount, 16);
        },
        Message::TransferFromOrg { org_id, recipient, amount } => {
            out.push(9u8);
            push_scale(&mut out, org_id.as_bytes());
            push_bytes32(&mut out, recipient);
            push_le(&mut out, *amount, 16);
        },
    }
    assert(out@ =~= message_encoding(*m));
    out
}

/// The bytes that the author of `tx` signs.
pub fn signing_payload(tx: &Transaction) -> (r: Vec<u8>)
    requires
        message_wf(tx.message),
    ensures
        r@ == signing_payload_of(*tx),
{
    let mut out = encode_message(&tx.message);
    push_le(&mut out, tx.nonce as u128, 8);
    push_bytes32(&mut out, &tx.genesis_hash);
    push_le(&mut out, tx.fee, 16);
    out
}

} // verus!

verus! {

/// A message as a mathematical value.
pub enum MessageView {
    RegisterOrg(Seq<u8>),
    UnregisterOrg(Seq<u8>),
    RegisterUser(Seq<u8>),
    UnregisterUser(Seq<u8>),
    RegisterMember(Seq<u8>, Seq<u8>),
    RegisterProject(Seq<u8>, Registrant, Seq<u8>, Seq<u8>),
    SetCheckpoint(Seq<u8>, Registrant, Seq<u8>),
    CreateCheckpoint(Seq<u8>, Option<Seq<u8>>),
    Transfer(Seq<u8>, u128),
    TransferFromOrg(Seq<u8>, Seq<u8>, u128),
}

impl View for Message {
    type V = MessageView;

    open spec fn view(&self) -> MessageView {
        match self {
            Message::RegisterOrg { org_id } => MessageView::RegisterOrg(org_id@),
            Message::UnregisterOrg { org_id } => MessageView::UnregisterOrg(org_id@),
            Message::RegisterUser { user_id } => MessageView::RegisterUser(user_id@),
            Message::UnregisterUser { user_id } => MessageView::UnregisterUser(user_id@),
            Message::RegisterMember { org_id, user_id } => MessageView::RegisterMember(org_id@, user_id@),
            Message::RegisterProject { project_name, project_domain, checkpoint_id, metadata } =>
                MessageView::RegisterProject(project_name@, project_domain@, checkpoint_id@, metadata@),
            Message::SetCheckpoint { project_name, project_domain, new_checkpoint_id } =>
                MessageView::SetCheckpoint(project_name@, project_domain@, new_checkpoint_id@),
            Message::CreateCheckpoint { project_hash, previous_checkpoint_id } =>
                MessageView::CreateCheckpoint(project_hash@, opt_view(*previous_checkpoint_id)),
            Message::Transfer { recipient, amount } => MessageView::Transfer(recipient@, *amount),
            Message::TransferFromOrg { org_id, recipient, amount } =>
                MessageView::TransferFromOrg(org_id@, recipient@, *amount),
        }
    }
}

/// A length-prefixed byte string at the front of `s`, and what follows it.
pub open spec fn read_var(s: Seq<u8>) -> Option<(Seq<u8>, Seq<u8>)> {
    match scale_payload(s) {
        Some((p, n)) => Some((p, s.subrange(n as int, s.len() as int))),
        None => None,
    }
}

/// A valid identifier at the front of `s`, and what follows it.
pub open spec fn read_id(s: Seq<u8>) -> Option<(Seq<u8>, Seq<u8>)> {
    match read_var(s) {
        Some((p, rest)) => if valid_id(p) {
            Some((p, rest))
        } else {
            None
        },
        None => None,
    }
}

/// Metadata of at most 128 bytes at the front of `s`, and what follows it.
pub open spec fn read_metadata(s: Seq<u8>) -> Option<(Seq<u8>, Seq<u8>)> {
    match read_var(s) {
        Some((p, rest)) => if p.len() <= 128 {
            Some((p, rest))
        } else {
            None
        },
        None => None,
    }
}

/// 32 bytes at the front of `s`, and what follows them.
pub open spec fn read32(s: Seq<u8>) -> Option<(Seq<u8>, Seq<u8>)> {
    if s.len() >= 32 {
        Some((s.subrange(0, 32), s.subrange(32, s.len() as int)))
    } else {
        None
    }
}

/// A registrant at the front of `s`, and what follows it.
pub open spec fn read_registrant(s: Seq<u8>) -> Option<(Registrant, Seq<u8>)> {
    if s.len() >= 1 && s[0] <= 1 {
        match read_id(s.drop_first()) {
            Some((id, rest)) => Some((if s[0] == 0 { Registrant::Org(id) } else { Registrant::User(id) }, rest)),
            None => None,
        }
    } else {
        None
    }
}

/// An optional checkpoint id at the front of `s`, and what follows it.
pub open spec fn read_optional(s: Seq<u8>) -> Option<(Option<Seq<u8>>, Seq<u8>)> {
    if s.len() >= 1 && s[0] == 0 {
        Some((None, s.drop_first()))
    } else if s.len() >= 1 && s[0] == 1 {
        match read32(s.drop_first()) {
            Some((c, rest)) => Some((Some(c), rest)),
            None => None,
        }
    } else {
        None
    }
}

/// An amount (16 little-endian bytes) at the front of `s`, and what follows it.
pub open spec fn read_amount(s: Seq<u8>) -> Option<(u128, Seq<u8>)> {
    if s.len() >= 16 {
        Some((le_value(s.subrange(0, 16)) as u128, s.subrange(16, s.len() as int)))
    } else {
        None
    }
}

/// The message that `s` encodes, when `s` is exactly the encoding of a well-formed message.
pub open spec fn decode_spec(s: Seq<u8>) -> Option<MessageView> {
    if s.len() == 0 {
        None
    } else {
        let body = s.drop_first();
        let tag = s[0];
        if tag <= 3 {
            match read_id(body) {
                Some((id, rest)) => if rest.len() == 0 {
                    Some(
                        if tag == 0 {
                            MessageView::RegisterOrg(id)
                        } else if tag == 1 {
                            MessageView::UnregisterOrg(id)
                        } else if tag == 2 {
                            MessageView::RegisterUser(id)
                        } else {
                            MessageView::UnregisterUser(id)
                        },
                    )
                } else {
                    None
                },
                None => None,
            }
        } else if tag == 4 {
            match read_id(body) {
                Some((org, r1)) => match read_id(r1) {
                    Some((user, r2)) => if r2.len() == 0 {
                        Some(MessageView::RegisterMember(org, user))
                    } else {
                        None
                    },
                    None => None,
                },
                None => None,
            }
        } else if tag == 5 || tag == 6 {
            match read_id(body) {
                Some((name, r1)) => match read_registrant(r1) {
                    Some((domain, r2)) => match read32(r2) {
                        Some((cp, r3)) => if tag == 6 {
                            if r3.len() == 0 {
                                Some(MessageView::SetCheckpoint(name, domain, cp))
                            } else {
                                None
                            }
                        } else {
                            match read_metadata(r3) {
                                Some((meta, r4)) => if r4.len() == 0 {
                                    Some(MessageView::RegisterProject(name, domain, cp, meta))
                                } else {
                                    None
                                },
                                None => None,
                            }
                        },
                        None => None,
                    },
                    None => None,
                },
                None => None,
            }
        } else if tag == 7 {
            match read32(body) {
                Some((hash, r1)) => match read_optional(r1) {
                    Some((parent, r2)) => if r2.len() == 0 {
                        Some(MessageView::CreateCheckpoint(hash, parent))
                    } else {
                        None
                    },
                    None => None,
                },
                None => None,
            }
        } else if tag == 8 {
            match read32(body) {
                Some((to, r1)) => match read_amount(r1) {
                    Some((amount, r2)) => if r2.len() == 0 {
                        Some(MessageView::Transfer(to, amount))
                    } else {
                        None
                    },
                    None => None,
                },
                None => None,
            }
        } else if tag == 9 {
            match read_id(body) {
                Some((org, r1)) => match read32(r1) {
                    Some((to, r2)) => match read_amount(r2) {
                        Some((amount, r3)) => if r3.len() == 0 {
                            Some(MessageView::TransferFromOrg(org, to, amount))
                        } else {
                            None
                        },
                        None => None,
                    },
                    None => None,
                },
                None => None,
            }
        } else {
            None
        }
    }
}

} // verus!

verus! {

/// 256 to the power `n`.
pub open spec fn pow256(n: nat) -> nat
    decreases n,
{
    if n == 0 {
        1
    } else {
        256 * pow256((n - 1) as nat)
    }
}

proof fn lemma_le_bytes_len(x: nat, n: nat)
    ensures
        le_bytes(x, n).len() == n,
    decreases n,
{
    if n > 0 {
        lemma_le_bytes_len(x / 256, (n - 1) as nat);
    }
}

proof fn lemma_le_round_trip(x: nat, n: nat)
    requires
        x < pow256(n),
    ensures
        le_value(le_bytes(x, n)) == x,
    decreases n,
{
    if n > 0 {
        let p = pow256((n - 1) as nat);
        assert(x / 256 < p) by (nonlinear_arith)
            requires
                x < 256 * p,
        ;
        lemma_le_round_trip(x / 256, (n - 1) as nat);
        let b = le_bytes(x, n);
        assert(b.drop_first() =~= le_bytes(x / 256, (n - 1) as nat));
        assert(x == x % 256 + 256 * (x / 256)) by (nonlinear_arith);
    }
}

proof fn lemma_read_var(b: Seq<u8>, rest: Seq<u8>)
    requires
        b.len() < 16384,
    ensures
        read_var(scale_bytes(b) + rest) == Some((b, rest)),
{
    let s = scale_bytes(b) + rest;
    let n = b.len();
    if n < 64 {
        assert(s[0] == (4 * n) as u8);
        assert((4 * n) as u8 == 4 * n);
        assert(s.subrange(1, 1 + n as int) =~= b);
        assert(s.subrange(1 + n as int, s.len() as int) =~= rest);
    } else {
        let lo = (4 * n + 1) % 256;
        let hi = (4 * n + 1) / 256;
        assert(s[0] == lo as u8 && s[1] == hi as u8);
        assert(lo % 4 == 1 && lo + 256 * hi == 4 * n + 1 && hi < 256) by (nonlinear_arith)
            requires
                lo == (4 * n + 1) % 256,
                hi == (4 * n + 1) / 256,
                n < 16384,
        ;
        assert((s[0] + 256 * s[1]) / 4 == n);
        assert(s.subrange(2, 2 + n as int) =~= b);
        assert(s.subrange(2 + n as int, s.len() as int) =~= rest);
    }
}

proof fn lemma_read_id(b: Seq<u8>, rest: Seq<u8>)
    requires
        valid_id(b),
    ensures
        read_id(scale_bytes(b) + rest) == Some((b, rest)),
{
    lemma_read_var(b, rest);
}

proof fn lemma_read32(b: Seq<u8>, rest: Seq<u8>)
    requires
        b.len() == 32,
    ensures
        read32(b + rest) == Some((b, rest)),
{
    assert((b + rest).subrange(0, 32) =~= b);
    assert((b + rest).subrange(32, (b + rest).len() as int) =~= rest);
}

proof fn lemma_read_registrant(r: Registrant, rest: Seq<u8>)
    requires
        valid_id(registrant_id(r)),
    ensures
        read_registrant(registrant_encoding(r) + rest) == Some((r, rest)),
{
    let s = registrant_encoding(r) + rest;
    assert(s.drop_first() =~= scale_bytes(registrant_id(r)) + rest);
    lemma_read_id(registrant_id(r), rest);
}

proof fn lemma_read_optional(o: Option<Seq<u8>>, rest: Seq<u8>)
    requires
        o matches Some(c) ==> c.len() == 32,
    ensures
        read_optional(optional_encoding(o) + rest) == Some((o, rest)),
{
    let s = optional_encoding(o) + rest;
    match o {
        None => {
            assert(s.drop_first() =~= rest);
        },
        Some(c) => {
            assert(s.drop_first() =~= c + rest);
            lemma_read32(c, rest);
        },
    }
}

proof fn lemma_read_amount(x: u128, rest: Seq<u8>)
    ensures
        read_amount(le_bytes(x as nat, 16) + rest) == Some((x, rest)),
{
    let b = le_bytes(x as nat, 16);
    lemma_le_bytes_len(x as nat, 16);
    reveal_with_fuel(pow256, 17);
    assert(pow256(16) == 0x1_0000_0000_0000_0000_0000_0000_0000_0000);
    lemma_le_round_trip(x as nat, 16);
    assert((b + rest).subrange(0, 16) =~= b);
    assert((b + rest).subrange(16, (b + rest).len() as int) =~= rest);
}

/// Decoding the encoding of a well-formed message gives that message back.
#[verifier::rlimit(30)]
pub proof fn lemma_message_round_trip(m: Message)
    requires
        message_wf(m),
    ensures
        decode_spec(message_encoding(m)) == Some(m@),
{
    let e = message_encoding(m);
    let body = e.drop_first();
    let empty = Seq::<u8>::empty();
    match m {
        Message::RegisterOrg { org_id } => {
            assert(body =~= scale_bytes(org_id@) + empty);
            lemma_read_id(org_id@, empty);
        },
        Message::UnregisterOrg { org_id } => {
            assert(body =~= scale_bytes(org_id@) + empty);
            lemma_read_id(org_id@, empty);
        },
        Message::RegisterUser { user_id } => {
            assert(body =~= scale_bytes(user_id@) + empty);
            lemma_read_id(user_id@, empty);
        },
        Message::UnregisterUser { user_id } => {
            assert(body =~= scale_bytes(user_id@) + empty);
            lemma_read_id(user_id@, empty);
        },
        Message::RegisterMember { org_id, user_id } => {
            let r1 = scale_bytes(user_id@) + empty;
            assert(body =~= scale_bytes(org_id@) + r1);
            lemma_read_id(org_id@, r1);
            lemma_read_id(user_id@, empty);
        },
        Message::RegisterProject { project_name, project_domain, checkpoint_id, metadata } => {
            let r3 = scale_bytes(metadata@) + empty;
            let r2 = checkpoint_id@ + r3;
            let r1 = registrant_encoding(project_domain@) + r2;
            assert(body =~= scale_bytes(project_name@) + r1);
            lemma_read_id(project_name@, r1);
            lemma_read_registrant(project_domain@, r2);
            lemma_read32(checkpoint_id@, r3);
            lemma_read_var(metadata@, empty);
        },
        Message::SetCheckpoint { project_name, project_domain, new_checkpoint_id } => {
            let r2 = new_checkpoint_id@ + empty;
            let r1 = registrant_encoding(project_domain@) + r2;
            assert(body =~= scale_bytes(project_name@) + r1);
            lemma_read_id(project_name@, r1);
            lemma_read_registrant(project_domain@, r2);
            lemma_read32(new_checkpoint_id@, empty);
        },
        Message::CreateCheckpoint { project_hash, previous_checkpoint_id } => {
            let r1 = optional_encoding(opt_view(previous_checkpoint_id)) + empty;
            assert(body =~= project_hash@ + r1);
            lemma_read32(project_hash@, r1);
            lemma_read_optional(opt_view(previous_checkpoint_id), empty);
        },
        Message::Transfer { recipient, amount } => {
            let r1 = le_bytes(amount as nat, 16) + empty;
            assert(body =~= recipient@ + r1);
            lemma_read32(recipient@, r1);
            lemma_read_amount(amount, empty);
        },
        Message::TransferFromOrg { org_id, recipient, amount } => {
            let r2 = le_bytes(amount as nat, 16) + empty;
            let r1 = recipient@ + r2;
            assert(body =~= scale_bytes(org_id@) + r1);
            lemma_read_id(org_id@, r1);
            lemma_read32(recipient@, r2);
            lemma_read_amount(amount, empty);
        },
    }
}

} // verus!

verus! {

/// Returned when bytes are not the encoding of a well-formed message.
#[derive(Clone, Copy, Debug, PartialEq, Eq, Structural)]
pub struct MessageDecodeError;

fn take_var(input: &[u8]) -> (r: Option<(Vec<u8>, usize)>)
    ensures
        r is Some ==> read_var(input@) is Some && r->Some_0.0@ == read_var(input@)->Some_0.0
            && r->Some_0.1 <= input@.len()
            && input@.subrange(r->Some_0.1 as int, input@.len() as int) == read_var(input@)->Some_0.1,
        r is None ==> read_var(input@) is None || read_var(input@)->Some_0.0.len() >= 16384,
{
    match decode_bytes(input) {
        Err(_) => None,
        Ok((v, n)) => if v.len() >= 16384 {
            None
        } else {
            Some((v, n))
        },
    }
}

fn take_id(input: &[u8]) -> (r: Option<(Id, usize)>)
    ensures
        r is Some <==> read_id(input@) is Some,
        r is Some ==> r->Some_0.0@ == read_id(input@)->Some_0.0 && r->Some_0.1 <= input@.len()
            && input@.subrange(r->Some_0.1 as int, input@.len() as int) == read_id(input@)->Some_0.1,
{
    match take_var(input) {
        None => None,
        Some((v, n)) => match Id::from_bytes(v.as_slice()) {
            Ok(id) => Some((id, n)),
            Err(_) => None,
        },
    }
}

fn take_metadata(input: &[u8]) -> (r: Option<(Bytes128, usize)>)
    ensures
        r is Some <==> read_metadata(input@) is Some,
        r is Some ==> r->Some_0.0@ == read_metadata(input@)->Some_0.0 && r->Some_0.1 <= input@.len()
            && input@.subrange(r->Some_0.1 as int, input@.len() as int) == read_metadata(input@)->Some_0.1,
{
    match take_var(input) {
        None => None,
        Some((v, n)) => match Bytes128::from_vec(v) {
            Ok(m) => Some((m, n)),
            Err(_) => None,
        },
    }
}

fn take32(input: &[u8]) -> (r: Option<Bytes32>)
    ensures
        r is Some <==> read32(input@) is Some,
        r is Some ==> r->Some_0@ == read32(input@)->Some_0.0,
{
    if input.len() < 32 {
        return None;
    }
    let mut a: [u8; 32] = [0u8; 32];
    let mut i: usize = 0;
    while i < 32
        invariant
            0 <= i <= 32,
            input@.len() >= 32,
            forall|j: int| 0 <= j < i ==> a@[j] == input@[j],
        decreases 32 - i,
    {
        a.set(i, input[i]);
        i = i + 1;
    }
    assert(a@ =~= input@.subrange(0, 32));
    Some(Bytes32 { bytes: a })
}

fn take_registrant(input: &[u8]) -> (r: Option<(ProjectRegistrant, usize)>)
    ensures
        r is Some <==> read_registrant(input@) is Some,
        r is Some ==> r->Some_0.0@ == read_registrant(input@)->Some_0.0 && r->Some_0.1 <= input@.len()
            && input@.subrange(r->Some_0.1 as int, input@.len() as int) == read_registrant(input@)->Some_0.1,
{
    if input.len() < 1 || input[0] > 1 {
        return None;
    }
    let tail = vstd::slice::slice_subrange(input, 1, input.len());
    assert(tail@ =~= input@.drop_first());
    match take_id(tail) {
        None => None,
        Some((id, n)) => {
            assert(tail@.subrange(n as int, tail@.len() as int) =~= input@.subrange(n + 1, input@.len() as int));
            if input[0] == 0 {
                Some((ProjectRegistrant::Org(id), n + 1))
            } else {
                Some((ProjectRegistrant::User(id), n + 1))
            }
        },
    }
}

/// The rest of `input` after its first `n` bytes.
fn skip(input: &[u8], n: usize) -> (r: &[u8])
    requires
        n <= input@.len(),
    ensures
        r@ == input@.subrange(n as int, input@.len() as int),
{
    vstd::slice::slice_subrange(input, n, input.len())
}

/// Decodes a message; the input must hold exactly one well-formed message's encoding.
#[verifier::rlimit(40)]
pub fn decode_message(input: &[u8]) -> (r: Result<Message, MessageDecodeError>)
    ensures
        r is Ok <==> decode_spec(input@) is Some,
        r is Ok ==> r->Ok_0@ == decode_spec(input@)->Some_0,
{
    if input.len() == 0 {
        return Err(MessageDecodeError);
    }
    let tag = input[0];
    let body = skip(input, 1);
    assert(body@ =~= input@.drop_first());
    if tag <= 3 {
        let (id, n) = match take_id(body) {
            Some(x) => x,
            None => return Err(MessageDecodeError),
        };
        if n != body.len() {
            return Err(MessageDecodeError);
        }
        return Ok(
            if tag == 0 {
                Message::RegisterOrg { org_id: id }
            } else if tag == 1 {
                Message::UnregisterOrg { org_id: id }
            } else if tag == 2 {
                Message::RegisterUser { user_id: id }
            } else {
                Message::UnregisterUser { user_id: id }
            },
        );
    } else if tag == 4 {
        let (org_id, n1) = match take_id(body) {
            Some(x) => x,
            None => return Err(MessageDecodeError),
        };
        let r1 = skip(body, n1);
        let (user_id, n2) = match take_id(r1) {
            Some(x) => x,
            None => return Err(MessageDecodeError),
        };
        if n2 != r1.len() {
            return Err(MessageDecodeError);
        }
        return Ok(Message::RegisterMember { org_id, user_id });
    } else if tag == 5 || tag == 6 {
        let (project_name, n1) = match take_id(body) {
            Some((id, n)) => (ProjectName { bytes: id.bytes }, n),
            None => return Err(MessageDecodeError),
        };
        let r1 = skip(body, n1);
        let (project_domain, n2) = match take_registrant(r1) {
            Some(x) => x,
            None => return Err(MessageDecodeError),
        };
        let r2 = skip(r1, n2);
        let cp = match take32(r2) {
            Some(x) => x,
            None => return Err(MessageDecodeError),
        };
        let r3 = skip(r2, 32);
        if tag == 6 {
            if r3.len() != 0 {
                return Err(MessageDecodeError);
            }
            return Ok(Message::SetCheckpoint { project_name, project_domain, new_checkpoint_id: cp });
        }
        let (metadata, n4) = match take_metadata(r3) {
            Some(x) => x,
            None => return Err(MessageDecodeError),
        };
        if n4 != r3.len() {
            return Err(MessageDecodeError);
        }
        return Ok(Message::RegisterProject { project_name, project_domain, checkpoint_id: cp, metadata });
    } else if tag == 7 {
        let project_hash = match take32(body) {
            Some(x) => x,
            None => return Err(MessageDecodeError),
        };
        let r1 = skip(body, 32);
        if r1.len() == 1 && r1[0] == 0 {
            assert(r1@.drop_first().len() == 0);
            return Ok(Message::CreateCheckpoint { project_hash, previous_checkpoint_id: None });
        }
        if r1.len() < 1 || r1[0] != 1 {
            assert(r1@.len() >= 1 && r1@[0] == 0 ==> r1@.drop_first().len() != 0);
            return Err(MessageDecodeError);
        }
        let r2 = skip(r1, 1);
        assert(r2@ =~= r1@.drop_first());
        let parent = match take32(r2) {
            Some(x) => x,
            None => return Err(MessageDecodeError),
        };
        if r2.len() != 32 {
            return Err(MessageDecodeError);
        }
        return Ok(Message::CreateCheckpoint { project_hash, previous_checkpoint_id: Some(parent) });
    } else if tag == 8 || tag == 9 {
        let (org, n1) = if tag == 9 {
            match take_id(body) {
                Some((id, n)) => (Some(id), n),
                None => return Err(MessageDecodeError),
            }
        } else {
            (None, 0)
        };
        let r1 = skip(body, n1);
        assert(tag == 8 ==> r1@ =~= body@);
        let recipient = match take32(r1) {
            Some(x) => x,
            None => return Err(MessageDecodeError),
        };
        let r2 = skip(r1, 32);
        let amount = match decode_u128(r2) {
            Ok(a) => a,
            Err(_) => return Err(MessageDecodeError),
        };
        if r2.len() != 16 {
            return Err(MessageDecodeError);
        }
        assert(r2@.subrange(0, 16) =~= r2@);
        return match org {
            Some(org_id) => Ok(Message::TransferFromOrg { org_id, recipient, amount }),
            None => Ok(Message::Transfer { recipient, amount }),
        };
    } else {
        return Err(MessageDecodeError);
    }
}

} // verus!
