//! The named key pairs of a command-line user, as held in memory. Reading and writing the file
//! that stores them is left to the program around the library.
use vstd::prelude::*;
use vstd::string::StringExecFns;
use crate::table::{Stored, Table, TableKey};

verus! {

/// The secret seed of an Ed25519 key pair.
#[derive(Clone, Copy, Debug, PartialEq, Eq)]
pub struct KeyPairData {
    pub seed: [u8; 32],
}

impl View for KeyPairData {
    type V = Seq<u8>;

    open spec fn view(&self) -> Seq<u8> {
        self.seed@
    }
}

impl Stored for KeyPairData {
    fn duplicate(&self) -> (r: KeyPairData) {
        *self
    }
}

impl Stored for String {
    fn duplicate(&self) -> (r: String) {
        self.clone()
    }
}

impl TableKey for String {
    fn same_key(&self, other: &String) -> (r: bool) {
        *self == *other
    }
}

/// Key pairs by name.
pub type KeyPairs = Table<String, KeyPairData>;

/// Why a key pair could not be stored or found.
#[derive(Clone, Copy, Debug, PartialEq, Eq, Structural)]
pub enum KeyPairError {
    /// A key pair with the given name already exists.
    AlreadyExists,
    /// No key pair has the given name.
    NotFound,
}

/// Stores a key pair under a name that no key pair has yet.
pub fn add(key_pairs: &mut KeyPairs, name: String, data: KeyPairData) -> (r: Result<(), KeyPairError>)
    requires
        old(key_pairs).wf(),
    ensures
        final(key_pairs).wf(),
        old(key_pairs)@.contains_key(name@) ==> r == Err::<(), KeyPairError>(KeyPairError::AlreadyExists)
            && final(key_pairs)@ == old(key_pairs)@,
        !old(key_pairs)@.contains_key(name@) ==> r is Ok && final(key_pairs)@ == old(key_pairs)@.insert(name@, data@),
{
    if key_pairs.contains(&name) {
        return Err(KeyPairError::AlreadyExists);
    }
    key_pairs.insert(name, data);
    Ok(())
}

/// The key pair stored under `name`.
pub fn get(key_pairs: &KeyPairs, name: &str) -> (r: Result<KeyPairData, KeyPairError>)
    requires
        key_pairs.wf(),
    ensures
        key_pairs@.contains_key(name@) ==> r is Ok && r->Ok_0@ == key_pairs@[name@],
        !key_pairs@.contains_key(name@) ==> r == Err::<KeyPairData, KeyPairError>(KeyPairError::NotFound),
{
    let key = String::from_str(name);
    match key_pairs.get(&key) {
        Some(data) => Ok(data),
        None => Err(KeyPairError::NotFound),
    }
}

/// The message of a failure to `action` (read or write) the key-pairs file at `path`.
pub fn io_error_message(action: &str, path: &str) -> (r: String)
    ensures
        r@ == "Failed to "@ + action@ + " the key-pairs file: '"@ + path@ + "'"@,
{
    let mut m = String::from_str("Failed to ");
    m.append(action);
    m.append(" the key-pairs file: '");
    m.append(path);
    m.append("'");
    m
}

} // verus!
