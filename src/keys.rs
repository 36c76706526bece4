//! Raw storage keys of the registry's collections, and their decoding.
//!
//! A key is the XX-128 hash of the module name, the XX-128 hash of the collection's name, the
//! Blake2-128 hash of the SCALE-encoded entry key, and that encoded key itself. The last part
//! lets a reader of the raw store recover the entry key.
use vstd::prelude::*;
use crate::bytes::append_bytes;
use crate::codec::{
    blake2_128, blake2_128_of, decode_bytes, encode_bytes, scale_short, short_payload, twox_128,
    twox_128_of,
};
use crate::ids::{
    valid_id, Id, ProjectId, ProjectName, ProjectRegistrant, Registrant, registrant_id,
};

verus! {

/// Length of the hashed prefix that precedes the encoded entry key.
pub const KEY_PREFIX_LEN: usize = 48;

/// The collections of the registry's store.
#[derive(Clone, Copy, Debug, PartialEq, Eq, Structural)]
pub enum Collection {
    Orgs,
    Users,
    Projects,
    RetiredIds,
    Checkpoints,
}

/// Returned when raw bytes are not a key of the expected collection's shape.
#[derive(Clone, Copy, Debug, PartialEq, Eq, Structural)]
pub struct KeyDecodeError;

/// `Counter`, the name under which the registry module keeps its storage.
pub open spec fn module_name() -> Seq<u8> {
    seq![0x43u8, 0x6f, 0x75, 0x6e, 0x74, 0x65, 0x72]
}

/// The storage name of each collection: `Orgs1`, `Users1`, `Projects1`, `RetiredIds1`,
/// `Checkpoints1`.
pub open spec fn storage_name(c: Collection) -> Seq<u8> {
    match c {
        Collection::Orgs => seq![0x4fu8, 0x72, 0x67, 0x73, 0x31],
        Collection::Users => seq![0x55u8, 0x73, 0x65, 0x72, 0x73, 0x31],
        Collection::Projects => seq![0x50u8, 0x72, 0x6f, 0x6a, 0x65, 0x63, 0x74, 0x73, 0x31],
        Collection::RetiredIds => seq![0x52u8, 0x65, 0x74, 0x69, 0x72, 0x65, 0x64, 0x49, 0x64, 0x73, 0x31],
        Collection::Checkpoints => seq![0x43u8, 0x68, 0x65, 0x63, 0x6b, 0x70, 0x6f, 0x69, 0x6e, 0x74, 0x73, 0x31],
    }
}

/// The raw key under which the entry with the given encoded key is stored.
pub open spec fn storage_key(c: Collection, encoded: Seq<u8>) -> Seq<u8> {
    twox_128_of(module_name())@ + twox_128_of(storage_name(c))@ + blake2_128_of(encoded)@ + encoded
}

/// The SCALE encoding of a project id: the name, the registrant's variant (`0` for an org,
/// `1` for a user), then the registrant's id.
pub open spec fn project_id_encoding(name: Seq<u8>, registrant: Registrant) -> Seq<u8> {
    scale_short(name) + seq![
        match registrant {
            Registrant::Org(_) => 0u8,
            Registrant::User(_) => 1u8,
        },
    ] + scale_short(registrant_id(registrant))
}

/// The id that a raw key names, if it has the shape of an id-keyed entry's key.
pub open spec fn decoded_id(key: Seq<u8>) -> Option<Seq<u8>> {
    if key.len() < 48 {
        None
    } else {
        match short_payload(key.subrange(48, key.len() as int)) {
            Some(p) => if valid_id(p) {
                Some(p)
            } else {
                None
            },
            None => None,
        }
    }
}

/// The registrant that `rest` encodes: a variant byte, then an id.
pub open spec fn decoded_registrant(rest: Seq<u8>) -> Option<Registrant> {
    if rest.len() < 1 || rest[0] > 1 {
        None
    } else {
        match short_payload(rest.subrange(1, rest.len() as int)) {
            Some(id) => if !valid_id(id) {
                None
            } else if rest[0] == 0 {
                Some(Registrant::Org(id))
            } else {
                Some(Registrant::User(id))
            },
            None => None,
        }
    }
}

/// The project id that a raw key names, if it has the shape of a project entry's key.
pub open spec fn decoded_project_id(key: Seq<u8>) -> Option<(Seq<u8>, Registrant)> {
    if key.len() < 48 {
        None
    } else {
        let rest = key.subrange(48, key.len() as int);
        match short_payload(rest) {
            Some(name) => if !valid_id(name) {
                None
            } else {
                match decoded_registrant(rest.subrange(1 + name.len() as int, rest.len() as int)) {
                    Some(r) => Some((name, r)),
                    None => None,
                }
            },
            None => None,
        }
    }
}

fn module_name_bytes() -> (r: Vec<u8>)
    ensures
        r@ == module_name(),
{
    let r = vec![0x43u8, 0x6f, 0x75, 0x6e, 0x74, 0x65, 0x72];
    assert(r@ =~= module_name());
    r
}

fn storage_name_bytes(c: Collection) -> (r: Vec<u8>)
    ensures
        r@ == storage_name(c),
{
    let r = match c {
        Collection::Orgs => vec![0x4fu8, 0x72, 0x67, 0x73, 0x31],
        Collection::Users => vec![0x55u8, 0x73, 0x65, 0x72, 0x73, 0x31],
        Collection::Projects => vec![0x50u8, 0x72, 0x6f, 0x6a, 0x65, 0x63, 0x74, 0x73, 0x31],
        Collection::RetiredIds => vec![0x52u8, 0x65, 0x74, 0x69, 0x72, 0x65, 0x64, 0x49, 0x64, 0x73, 0x31],
        Collection::Checkpoints => vec![0x43u8, 0x68, 0x65, 0x63, 0x6b, 0x70, 0x6f, 0x69, 0x6e, 0x74, 0x73, 0x31],
    };
    assert(r@ =~= storage_name(c));
    r
}

/// The raw key under which the entry with the given encoded key is stored.
pub fn build_storage_key(c: Collection, encoded: &[u8]) -> (r: Vec<u8>)
    ensures
        r@ == storage_key(c, encoded@),
{
    let mut key: Vec<u8> = Vec::new();
    let module = module_name_bytes();
    let storage = storage_name_bytes(c);
    let module_hash = twox_128(module.as_slice());
    let storage_hash = twox_128(storage.as_slice());
    let key_hash = blake2_128(encoded);
    append_bytes(&mut key, module_hash.as_slice());
    append_bytes(&mut key, storage_hash.as_slice());
    append_bytes(&mut key, key_hash.as_slice());
    append_bytes(&mut key, encoded);
    key
}

/// The raw key of the entry for `id` in an id-keyed collection (orgs, users, retired ids).
pub fn id_storage_key(c: Collection, id: &Id) -> (r: Vec<u8>)
    requires
        id.wf(),
    ensures
        r@ == storage_key(c, scale_short(id@)),
{
    let encoded = encode_bytes(id.as_bytes());
    build_storage_key(c, encoded.as_slice())
}

/// The SCALE encoding of a project id.
pub fn encode_project_id(project_id: &ProjectId) -> (r: Vec<u8>)
    requires
        valid_id(project_id.0@),
        valid_id(registrant_id(project_id.1@)),
    ensures
        r@ == project_id_encoding(project_id.0@, project_id.1@),
{
    let mut out = encode_bytes(project_id.0.as_bytes());
    let (tag, id) = match &project_id.1 {
        ProjectRegistrant::Org(id) => (0u8, id),
        ProjectRegistrant::User(id) => (1u8, id),
    };
    out.push(tag);
    let id_enc = encode_bytes(id.as_bytes());
    append_bytes(&mut out, id_enc.as_slice());
    assert(out@ =~= project_id_encoding(project_id.0@, project_id.1@));
    out
}

/// The raw key of the entry for `project_id` in the projects collection.
pub fn project_storage_key(project_id: &ProjectId) -> (r: Vec<u8>)
    requires
        valid_id(project_id.0@),
        valid_id(registrant_id(project_id.1@)),
    ensures
        r@ == storage_key(Collection::Projects, project_id_encoding(project_id.0@, project_id.1@)),
{
    let encoded = encode_project_id(project_id);
    build_storage_key(Collection::Projects, encoded.as_slice())
}

/// Reads a valid identifier from the front of `input`; returns it and how many bytes it took.
fn decode_id_prefix(input: &[u8]) -> (r: Result<(Id, usize), KeyDecodeError>)
    ensures
        r is Ok <==> (short_payload(input@) is Some && valid_id(short_payload(input@)->Some_0)),
        r is Ok ==> (r->Ok_0.0@ == short_payload(input@)->Some_0 && r->Ok_0.1 == 1 + r->Ok_0.0@.len()),
{
    match decode_bytes(input) {
        Ok((v, n)) => match Id::from_bytes(v.as_slice()) {
            Ok(id) => Ok((id, n)),
            Err(_) => Err(KeyDecodeError),
        },
        Err(_) => Err(KeyDecodeError),
    }
}

/// Recovers the id from a raw key of an id-keyed collection.
pub fn decode_id_key(key: &[u8]) -> (r: Result<Id, KeyDecodeError>)
    ensures
        r is Ok <==> decoded_id(key@) is Some,
        r is Ok ==> r->Ok_0@ == decoded_id(key@)->Some_0,
{
    if key.len() < KEY_PREFIX_LEN {
        return Err(KeyDecodeError);
    }
    let rest = vstd::slice::slice_subrange(key, KEY_PREFIX_LEN, key.len());
    match decode_id_prefix(rest) {
        Ok((id, _)) => Ok(id),
        Err(e) => Err(e),
    }
}

/// Recovers the project id from a raw key of the projects collection.
pub fn decode_project_key(key: &[u8]) -> (r: Result<ProjectId, KeyDecodeError>)
    ensures
        r is Ok <==> decoded_project_id(key@) is Some,
        r is Ok ==> (r->Ok_0.0@, r->Ok_0.1@) == decoded_project_id(key@)->Some_0,
{
    if key.len() < KEY_PREFIX_LEN {
        return Err(KeyDecodeError);
    }
    let rest = vstd::slice::slice_subrange(key, KEY_PREFIX_LEN, key.len());
    let (name_id, n) = match decode_id_prefix(rest) {
        Ok(x) => x,
        Err(e) => return Err(e),
    };
    let name = match ProjectName::from_bytes(name_id.as_bytes()) {
        Ok(name) => name,
        Err(_) => return Err(KeyDecodeError),
    };
    let tail = vstd::slice::slice_subrange(rest, n, rest.len());
    if tail.len() < 1 || tail[0] > 1 {
        return Err(KeyDecodeError);
    }
    let tag = tail[0];
    let id_part = vstd::slice::slice_subrange(tail, 1, tail.len());
    let (id, _) = match decode_id_prefix(id_part) {
        Ok(x) => x,
        Err(e) => return Err(e),
    };
    if tag == 0 {
        Ok((name, ProjectRegistrant::Org(id)))
    } else {
        Ok((name, ProjectRegistrant::User(id)))
    }
}

proof fn lemma_short_payload(b: Seq<u8>, rest: Seq<u8>)
    requires
        b.len() <= 32,
    ensures
        short_payload(scale_short(b) + rest) == Some(b),
{
    let s = scale_short(b) + rest;
    let n = b.len();
    assert(s[0] == (4 * n) as u8);
    assert((4 * n) as u8 == 4 * n);
    assert(s[0] % 4 == 0);
    assert(s[0] / 4 == n);
    assert(s.subrange(1, 1 + n as int) =~= b);
}

/// Decoding the key built for an id gives that id back, in every id-keyed collection.
pub proof fn lemma_id_key_round_trip(c: Collection, id: Seq<u8>)
    requires
        valid_id(id),
    ensures
        decoded_id(storage_key(c, scale_short(id))) == Some(id),
{
    let key = storage_key(c, scale_short(id));
    assert(key.subrange(48, key.len() as int) =~= scale_short(id));
    lemma_short_payload(id, Seq::empty());
    assert(scale_short(id) + Seq::<u8>::empty() =~= scale_short(id));
}

/// Decoding the key built for a project id gives that project id back.
pub proof fn lemma_project_key_round_trip(name: Seq<u8>, registrant: Registrant)
    requires
        valid_id(name),
        valid_id(registrant_id(registrant)),
    ensures
        decoded_project_id(storage_key(Collection::Projects, project_id_encoding(name, registrant)))
            == Some((name, registrant)),
{
    let enc = project_id_encoding(name, registrant);
    let key = storage_key(Collection::Projects, enc);
    let rest = key.subrange(48, key.len() as int);
    assert(rest =~= enc);
    let tag: u8 = match registrant {
        Registrant::Org(_) => 0u8,
        Registrant::User(_) => 1u8,
    };
    let after = seq![tag] + scale_short(registrant_id(registrant));
    assert(enc =~= scale_short(name) + after);
    lemma_short_payload(name, after);
    let tail = rest.subrange(1 + name.len() as int, rest.len() as int);
    assert(tail =~= after);
    let id_part = tail.subrange(1, tail.len() as int);
    assert(id_part =~= scale_short(registrant_id(registrant)) + Seq::<u8>::empty());
    lemma_short_payload(registrant_id(registrant), Seq::empty());
}

} // verus!
