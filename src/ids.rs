//! Validated identifiers: org and user ids, project names and bounded strings.
use vstd::prelude::*;
use crate::bytes::{bytes_equal, slice_to_vec};
use vstd::utf8::{encode_utf8, valid_utf8};
use crate::codec::{decode_bytes, encode_bytes, scale_bytes, scale_payload};
use vstd::string::StringSliceAdditionalSpecFns;

verus! {

/// Largest number of characters in an identifier or a project name.
pub const ID_MAX_LEN: usize = 32;

/// A character allowed in an identifier: a lowercase ASCII letter, a digit or `-`.
pub open spec fn is_id_char(c: u8) -> bool {
    (0x61 <= c && c <= 0x7a) || (0x30 <= c && c <= 0x39) || c == 0x2d
}

/// An identifier: 1 to 32 characters out of `[a-z0-9-]`, neither starting nor ending with `-`,
/// and never holding two `-` in a row.
pub open spec fn valid_id(s: Seq<u8>) -> bool {
    &&& 1 <= s.len() <= 32
    &&& forall|i: int| 0 <= i < s.len() ==> #[trigger] is_id_char(s[i])
    &&& s[0] != 0x2d
    &&& s[s.len() - 1] != 0x2d
    &&& forall|i: int| 0 <= i < s.len() - 1 ==> !(#[trigger] s[i] == 0x2d && s[i + 1] == 0x2d)
}

/// Checks `s` against [`valid_id`].
pub fn check_id_bytes(s: &[u8]) -> (r: bool)
    ensures
        r == valid_id(s@),
{
    let n = s.len();
    if n < 1 || n > ID_MAX_LEN {
        return false;
    }
    if s[0] == 0x2d || s[n - 1] == 0x2d {
        return false;
    }
    let mut i: usize = 0;
    while i < n
        invariant
            n == s@.len(),
            1 <= n <= 32,
            0 <= i <= n,
            forall|j: int| 0 <= j < i ==> #[trigger] is_id_char(s@[j]),
            forall|j: int| 0 <= j < i && j < n - 1 ==> !(#[trigger] s@[j] == 0x2d && s@[j + 1] == 0x2d),
        decreases n - i,
    {
        let c = s[i];
        if !((0x61 <= c && c <= 0x7a) || (0x30 <= c && c <= 0x39) || c == 0x2d) {
            assert(!is_id_char(s@[i as int]));
            return false;
        }
        if i + 1 < n && c == 0x2d && s[i + 1] == 0x2d {
            return false;
        }
        i = i + 1;
    }
    true
}

/// Identifier of an org or a user. Both share one namespace.
#[derive(Debug)]
pub struct Id {
    pub bytes: Vec<u8>,
}

/// Returned when a string is not a valid [`Id`] or [`ProjectName`].
#[derive(Clone, Copy, Debug, PartialEq, Eq, Structural)]
pub struct InvalidIdError;

impl View for Id {
    type V = Seq<u8>;

    open spec fn view(&self) -> Seq<u8> {
        self.bytes@
    }
}

impl Id {
    /// Whether this value holds a valid identifier.
    pub open spec fn wf(&self) -> bool {
        valid_id(self@)
    }

    /// Parses an identifier from the UTF-8 bytes of `s`.
    pub fn try_from(s: &str) -> (r: Result<Id, InvalidIdError>)
        ensures
            r is Ok <==> valid_id(s.spec_bytes()),
            r matches Ok(id) ==> id@ == s.spec_bytes(),
    {
        Id::from_bytes(s.as_bytes())
    }

    /// Parses an identifier from raw bytes.
    pub fn from_bytes(b: &[u8]) -> (r: Result<Id, InvalidIdError>)
        ensures
            r is Ok <==> valid_id(b@),
            r matches Ok(id) ==> id@ == b@,
    {
        if check_id_bytes(b) {
            Ok(Id { bytes: slice_to_vec(b) })
        } else {
            Err(InvalidIdError)
        }
    }

    /// The bytes of the identifier.
    pub fn as_bytes(&self) -> (r: &[u8])
        ensures
            r@ == self@,
    {
        self.bytes.as_slice()
    }

    /// A copy of this identifier.
    pub fn duplicate(&self) -> (r: Id)
        ensures
            r@ == self@,
    {
        Id { bytes: self.bytes.clone() }
    }

    /// Compares two identifiers.
    pub fn same(&self, other: &Id) -> (r: bool)
        ensures
            r == (self@ == other@),
    {
        bytes_equal(&self.bytes, &other.bytes)
    }
}

impl Clone for Id {
    fn clone(&self) -> (r: Id)
        ensures
            r@ == self@,
    {
        self.duplicate()
    }
}

impl PartialEq for Id {
    fn eq(&self, other: &Id) -> (r: bool) {
        self.same(other)
    }
}

impl vstd::std_specs::cmp::PartialEqSpecImpl for Id {
    open spec fn obeys_eq_spec() -> bool {
        true
    }

    open spec fn eq_spec(&self, other: &Id) -> bool {
        self@ == other@
    }
}

impl Eq for Id {
}

/// Name of a project, unique within its org or user. Follows the rules of [`valid_id`].
#[derive(Debug)]
pub struct ProjectName {
    pub bytes: Vec<u8>,
}

impl View for ProjectName {
    type V = Seq<u8>;

    open spec fn view(&self) -> Seq<u8> {
        self.bytes@
    }
}

impl ProjectName {
    /// Parses a project name from the UTF-8 bytes of `s`.
    pub fn try_from(s: &str) -> (r: Result<ProjectName, InvalidIdError>)
        ensures
            r is Ok <==> valid_id(s.spec_bytes()),
            r matches Ok(n) ==> n@ == s.spec_bytes(),
    {
        ProjectName::from_bytes(s.as_bytes())
    }

    /// Parses a project name from raw bytes.
    pub fn from_bytes(b: &[u8]) -> (r: Result<ProjectName, InvalidIdError>)
        ensures
            r is Ok <==> valid_id(b@),
            r matches Ok(n) ==> n@ == b@,
    {
        if check_id_bytes(b) {
            Ok(ProjectName { bytes: slice_to_vec(b) })
        } else {
            Err(InvalidIdError)
        }
    }

    /// The bytes of the name.
    pub fn as_bytes(&self) -> (r: &[u8])
        ensures
            r@ == self@,
    {
        self.bytes.as_slice()
    }

    /// A copy of this name.
    pub fn duplicate(&self) -> (r: ProjectName)
        ensures
            r@ == self@,
    {
        ProjectName { bytes: self.bytes.clone() }
    }

    /// Compares two names.
    pub fn same(&self, other: &ProjectName) -> (r: bool)
        ensures
            r == (self@ == other@),
    {
        bytes_equal(&self.bytes, &other.bytes)
    }
}

impl Clone for ProjectName {
    fn clone(&self) -> (r: ProjectName)
        ensures
            r@ == self@,
    {
        self.duplicate()
    }
}

impl PartialEq for ProjectName {
    fn eq(&self, other: &ProjectName) -> (r: bool) {
        self.same(other)
    }
}

impl vstd::std_specs::cmp::PartialEqSpecImpl for ProjectName {
    open spec fn obeys_eq_spec() -> bool {
        true
    }

    open spec fn eq_spec(&self, other: &ProjectName) -> bool {
        self@ == other@
    }
}

impl Eq for ProjectName {
}

/// The registrant under which a project lives: an org or a user.
#[derive(Debug)]
pub enum ProjectRegistrant {
    Org(Id),
    User(Id),
}

/// The registrant of a project, as a mathematical value.
pub enum Registrant {
    Org(Seq<u8>),
    User(Seq<u8>),
}

impl View for ProjectRegistrant {
    type V = Registrant;

    open spec fn view(&self) -> Registrant {
        match self {
            ProjectRegistrant::Org(id) => Registrant::Org(id@),
            ProjectRegistrant::User(id) => Registrant::User(id@),
        }
    }
}

/// The identifier of a registrant, whether org or user.
pub open spec fn registrant_id(r: Registrant) -> Seq<u8> {
    match r {
        Registrant::Org(id) => id,
        Registrant::User(id) => id,
    }
}

impl ProjectRegistrant {
    /// The identifier of the org or user.
    pub fn id(&self) -> (r: Id)
        ensures
            r@ == registrant_id(self@),
    {
        match self {
            ProjectRegistrant::Org(id) => id.duplicate(),
            ProjectRegistrant::User(id) => id.duplicate(),
        }
    }

    /// A copy of this registrant.
    pub fn duplicate(&self) -> (r: ProjectRegistrant)
        ensures
            r@ == self@,
    {
        match self {
            ProjectRegistrant::Org(id) => ProjectRegistrant::Org(id.duplicate()),
            ProjectRegistrant::User(id) => ProjectRegistrant::User(id.duplicate()),
        }
    }

    /// Compares two registrants.
    pub fn same(&self, other: &ProjectRegistrant) -> (r: bool)
        ensures
            r == (self@ == other@),
    {
        match (self, other) {
            (ProjectRegistrant::Org(a), ProjectRegistrant::Org(b)) => a.same(b),
            (ProjectRegistrant::User(a), ProjectRegistrant::User(b)) => a.same(b),
            _ => false,
        }
    }
}

impl Clone for ProjectRegistrant {
    fn clone(&self) -> (r: ProjectRegistrant)
        ensures
            r@ == self@,
    {
        self.duplicate()
    }
}

impl PartialEq for ProjectRegistrant {
    fn eq(&self, other: &ProjectRegistrant) -> (r: bool) {
        self.same(other)
    }
}

impl vstd::std_specs::cmp::PartialEqSpecImpl for ProjectRegistrant {
    open spec fn obeys_eq_spec() -> bool {
        true
    }

    open spec fn eq_spec(&self, other: &ProjectRegistrant) -> bool {
        self@ == other@
    }
}

impl Eq for ProjectRegistrant {
}

/// The id of a project: its name and its registrant. The key of the projects collection.
pub type ProjectId = (ProjectName, ProjectRegistrant);

/// Largest number of bytes in a [`String32`].
pub const STRING32_MAX_LEN: usize = 32;

/// A string of at most 32 bytes.
#[derive(Clone, Debug, PartialEq, Eq)]
pub struct String32 {
    pub value: String,
}

impl View for String32 {
    type V = Seq<char>;

    open spec fn view(&self) -> Seq<char> {
        self.value@
    }
}

impl String32 {
    /// Wraps `s` unless its UTF-8 encoding is longer than 32 bytes.
    pub fn from_string(s: String) -> (r: Result<String32, String>)
        ensures
            r is Ok <==> (encode_utf8(s@).len() as usize) <= 32,
            r matches Ok(v) ==> v@ == s@,
            r matches Err(e) ==> e@ == s@,
    {
        if s.as_str().len() > STRING32_MAX_LEN {
            Err(s)
        } else {
            Ok(String32 { value: s })
        }
    }

    /// Whether the string fits in 32 bytes.
    pub open spec fn wf(&self) -> bool {
        encode_utf8(self@).len() <= 32
    }

    /// The SCALE encoding of the string: its length in bytes as a compact prefix, then its UTF-8
    /// bytes.
    pub fn encode(&self) -> (r: Vec<u8>)
        requires
            self.wf(),
        ensures
            r@ == scale_bytes(encode_utf8(self@)),
    {
        encode_bytes(self.value.as_str().as_bytes())
    }

    /// Reads a string from the front of `input`: a length-prefixed byte string of at most 32
    /// bytes that is valid UTF-8.
    pub fn decode(input: &[u8]) -> (r: Result<String32, String32DecodeError>)
        ensures
            r is Ok <==> (scale_payload(input@) is Some && scale_payload(input@)->Some_0.0.len() <= 32
                && valid_utf8(scale_payload(input@)->Some_0.0)),
            r is Ok ==> encode_utf8(r->Ok_0@) == scale_payload(input@)->Some_0.0,
    {
        match decode_bytes(input) {
            Err(_) => Err(String32DecodeError),
            Ok((v, _)) => {
                if v.len() > STRING32_MAX_LEN {
                    return Err(String32DecodeError);
                }
                match string_from_utf8(v) {
                    Some(value) => Ok(String32 { value }),
                    None => Err(String32DecodeError),
                }
            },
        }
    }

    /// The wrapped string.
    pub fn as_str(&self) -> (r: &str)
        ensures
            r@ == self@,
    {
        self.value.as_str()
    }
}

/// Returned when bytes do not start with the encoding of a [`String32`].
#[derive(Clone, Copy, Debug, PartialEq, Eq, Structural)]
pub struct String32DecodeError;

/// Relies on `String::from_utf8`: succeeds exactly on valid UTF-8, and the string then holds
/// those bytes.
#[verifier::external_body]
fn string_from_utf8(v: Vec<u8>) -> (r: Option<String>)
    ensures
        r is Some <==> valid_utf8(v@),
        r matches Some(s) ==> encode_utf8(s@) == v@,
{
    String::from_utf8(v).ok()
}

/// Kind of registrant named on a command line: `org` or `user`, in any letter case.
#[derive(Clone, Copy, Debug, PartialEq, Eq, Structural)]
pub enum DomainType {
    Org,
    User,
}

/// Lowercases an ASCII letter and leaves every other byte as it is.
pub open spec fn ascii_lower(c: u8) -> u8 {
    if 0x41 <= c && c <= 0x5a {
        (c + 32) as u8
    } else {
        c
    }
}

/// Whether `s` equals `word` (lowercase ASCII) when letter case is ignored.
pub open spec fn matches_ignoring_case(s: Seq<u8>, word: Seq<u8>) -> bool {
    s.len() == word.len() && forall|i: int| 0 <= i < s.len() ==> #[trigger] ascii_lower(s[i]) == word[i]
}

/// `org` in ASCII.
pub open spec fn org_word() -> Seq<u8> {
    seq![0x6fu8, 0x72u8, 0x67u8]
}

/// `user` in ASCII.
pub open spec fn user_word() -> Seq<u8> {
    seq![0x75u8, 0x73u8, 0x65u8, 0x72u8]
}

fn lower_byte(c: u8) -> (r: u8)
    ensures
        r == ascii_lower(c),
{
    if 0x41 <= c && c <= 0x5a {
        c + 32
    } else {
        c
    }
}

fn equals_ignoring_case(s: &[u8], word: &[u8]) -> (r: bool)
    ensures
        r == matches_ignoring_case(s@, word@),
{
    if s.len() != word.len() {
        return false;
    }
    let mut i: usize = 0;
    while i < s.len()
        invariant
            0 <= i <= s@.len(),
            s@.len() == word@.len(),
            forall|j: int| 0 <= j < i ==> #[trigger] ascii_lower(s@[j]) == word@[j],
        decreases s@.len() - i,
    {
        if lower_byte(s[i]) != word[i] {
            return false;
        }
        i = i + 1;
    }
    true
}

impl DomainType {
    /// Parses `org` or `user`, ignoring letter case.
    pub fn from_str(s: &str) -> (r: Result<DomainType, String>)
        ensures
            matches_ignoring_case(s.spec_bytes(), org_word()) ==> r == Ok::<DomainType, String>(DomainType::Org),
            matches_ignoring_case(s.spec_bytes(), user_word()) ==> r == Ok::<DomainType, String>(DomainType::User),
            !matches_ignoring_case(s.spec_bytes(), org_word()) && !matches_ignoring_case(s.spec_bytes(), user_word())
                ==> r is Err,
            r matches Err(e) ==> e@ == s@,
    {
        let b = s.as_bytes();
        let org: [u8; 3] = [0x6f, 0x72, 0x67];
        let user: [u8; 4] = [0x75, 0x73, 0x65, 0x72];
        assert(org@ =~= org_word());
        assert(user@ =~= user_word());
        if equals_ignoring_case(b, org.as_slice()) {
            Ok(DomainType::Org)
        } else if equals_ignoring_case(b, user.as_slice()) {
            Ok(DomainType::User)
        } else {
            Err(s.to_owned())
        }
    }
}

} // verus!
