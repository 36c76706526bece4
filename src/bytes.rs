//! Fixed-size byte values: hashes, account ids and project metadata.
use vstd::prelude::*;

verus! {

/// A 32-byte value: a hash (`H256`) or an account id (an Ed25519 public key).
#[derive(Clone, Copy, Debug, Hash)]
pub struct Bytes32 {
    pub bytes: [u8; 32],
}

/// A 256-bit hash, as produced by Blake2-256.
pub type H256 = Bytes32;

/// Identifier of an account: the 32 bytes of an Ed25519 public key.
pub type AccountId = Bytes32;

/// Identifier of a checkpoint: the hash of its contents.
pub type CheckpointId = H256;

impl View for Bytes32 {
    type V = Seq<u8>;

    open spec fn view(&self) -> Seq<u8> {
        self.bytes@
    }
}

impl Bytes32 {
    /// Wraps the given 32 bytes.
    pub fn from_array(bytes: [u8; 32]) -> (r: Bytes32)
        ensures
            r@ == bytes@,
    {
        Bytes32 { bytes }
    }

    /// Compares two values byte by byte.
    pub fn same(&self, other: &Bytes32) -> (r: bool)
        ensures
            r == (self@ == other@),
    {
        let mut i: usize = 0;
        while i < 32
            invariant
                0 <= i <= 32,
                self@.len() == 32,
                other@.len() == 32,
                forall|j: int| 0 <= j < i ==> self@[j] == other@[j],
            decreases 32 - i,
        {
            if self.bytes[i] != other.bytes[i] {
                return false;
            }
            i = i + 1;
        }
        assert(self@ =~= other@);
        true
    }
}

impl PartialEq for Bytes32 {
    fn eq(&self, other: &Bytes32) -> (r: bool) {
        self.same(other)
    }
}

impl vstd::std_specs::cmp::PartialEqSpecImpl for Bytes32 {
    open spec fn obeys_eq_spec() -> bool {
        true
    }

    open spec fn eq_spec(&self, other: &Bytes32) -> bool {
        self@ == other@
    }
}

impl Eq for Bytes32 {
}

/// Largest number of bytes that project metadata may hold.
pub const METADATA_MAX_LEN: usize = 128;

/// Project metadata: at most 128 opaque bytes.
#[derive(Debug)]
pub struct Bytes128 {
    pub bytes: Vec<u8>,
}

impl View for Bytes128 {
    type V = Seq<u8>;

    open spec fn view(&self) -> Seq<u8> {
        self.bytes@
    }
}

/// Returned when metadata longer than 128 bytes is offered.
#[derive(Clone, Copy, Debug, PartialEq, Eq, Structural)]
pub struct InvalidBytes128Error;

impl Bytes128 {
    /// Wraps `bytes` if it holds at most 128 bytes.
    pub fn from_vec(bytes: Vec<u8>) -> (r: Result<Bytes128, InvalidBytes128Error>)
        ensures
            bytes@.len() <= 128 <==> r is Ok,
            r matches Ok(m) ==> m@ == bytes@,
    {
        if bytes.len() <= METADATA_MAX_LEN {
            Ok(Bytes128 { bytes })
        } else {
            Err(InvalidBytes128Error)
        }
    }

    /// A copy of these bytes.
    pub fn duplicate(&self) -> (r: Bytes128)
        ensures
            r@ == self@,
    {
        Bytes128 { bytes: self.bytes.clone() }
    }
}

impl Clone for Bytes128 {
    fn clone(&self) -> (r: Bytes128)
        ensures
            r@ == self@,
    {
        self.duplicate()
    }
}

impl PartialEq for Bytes128 {
    fn eq(&self, other: &Bytes128) -> (r: bool) {
        bytes_equal(&self.bytes, &other.bytes)
    }
}

impl vstd::std_specs::cmp::PartialEqSpecImpl for Bytes128 {
    open spec fn obeys_eq_spec() -> bool {
        true
    }

    open spec fn eq_spec(&self, other: &Bytes128) -> bool {
        self@ == other@
    }
}

impl Eq for Bytes128 {
}

/// Compares two byte vectors element by element.
pub fn bytes_equal(a: &Vec<u8>, b: &Vec<u8>) -> (r: bool)
    ensures
        r == (a@ == b@),
{
    if a.len() != b.len() {
        return false;
    }
    let mut i: usize = 0;
    while i < a.len()
        invariant
            0 <= i <= a@.len(),
            a@.len() == b@.len(),
            forall|j: int| 0 <= j < i ==> a@[j] == b@[j],
        decreases a@.len() - i,
    {
        if a[i] != b[i] {
            return false;
        }
        i = i + 1;
    }
    assert(a@ =~= b@);
    true
}

/// Copies a byte slice into a new vector.
pub fn slice_to_vec(s: &[u8]) -> (r: Vec<u8>)
    ensures
        r@ == s@,
{
    let mut r: Vec<u8> = Vec::new();
    let mut i: usize = 0;
    while i < s.len()
        invariant
            0 <= i <= s@.len(),
            r@ == s@.subrange(0, i as int),
        decreases s@.len() - i,
    {
        r.push(s[i]);
        i = i + 1;
    }
    assert(r@ =~= s@);
    r
}

/// Appends all of `tail` to `v`.
pub fn append_bytes(v: &mut Vec<u8>, tail: &[u8])
    ensures
        final(v)@ == old(v)@ + tail@,
{
    let mut i: usize = 0;
    while i < tail.len()
        invariant
            0 <= i <= tail@.len(),
            v@ == old(v)@ + tail@.subrange(0, i as int),
        decreases tail@.len() - i,
    {
        v.push(tail[i]);
        i = i + 1;
    }
    assert(tail@.subrange(0, tail@.len() as int) =~= tail@);
}

} // verus!
