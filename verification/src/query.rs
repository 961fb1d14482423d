//! Queries against the metadata store: each selects Save, File or User
//! records by whichever of its fields are set. The store itself is an
//! external collaborator; these types only carry the selection.

use vstd::prelude::*;

verus! {

/// Whether two optional integers hold the same value.
fn opt_i32_eq(a: &Option<i32>, b: &Option<i32>) -> (r: bool)
    ensures
        r == (a == b),
{
    match (a, b) {
        (None, None) => true,
        (Some(x), Some(y)) => *x == *y,
        _ => false,
    }
}

/// Whether two optional strings hold the same characters.
pub open spec fn opt_str_eq_spec(a: Option<String>, b: Option<String>) -> bool {
    match (a, b) {
        (Option::None, Option::None) => true,
        (Option::Some(x), Option::Some(y)) => x@ == y@,
        _ => false,
    }
}

fn opt_str_eq(a: &Option<String>, b: &Option<String>) -> (r: bool)
    ensures
        r == opt_str_eq_spec(*a, *b),
{
    match (a, b) {
        (None, None) => true,
        (Some(x), Some(y)) => *x == *y,
        _ => false,
    }
}

/// Selects a Save by id, friendly name, uuid, path, or owning user.
#[derive(Debug)]
pub struct SaveQuery {
    pub id: Option<i32>,
    pub friendly_name: Option<String>,
    pub uuid: Option<String>,
    pub path: Option<String>,
    pub user_id: Option<i32>,
}

impl SaveQuery {
    /// A query that selects nothing yet.
    pub fn new() -> (r: SaveQuery)
        ensures
            r.id is None,
            r.friendly_name is None,
            r.uuid is None,
            r.path is None,
            r.user_id is None,
    {
        SaveQuery { id: None, friendly_name: None, uuid: None, path: None, user_id: None }
    }

    pub fn with_id(self, id: i32) -> (r: SaveQuery)
        ensures
            r.id == Some(id),
            r.friendly_name == self.friendly_name,
            r.uuid == self.uuid,
            r.path == self.path,
            r.user_id == self.user_id,
    {
        SaveQuery { id: Some(id), ..self }
    }

    pub fn with_path(self, path: &str) -> (r: SaveQuery)
        ensures
            r.path matches Some(p) && p@ == path@,
            r.id == self.id,
            r.friendly_name == self.friendly_name,
            r.uuid == self.uuid,
            r.user_id == self.user_id,
    {
        SaveQuery { path: Some(path.to_owned()), ..self }
    }

    pub fn with_friendly_name(self, name: &str) -> (r: SaveQuery)
        ensures
            r.friendly_name matches Some(n) && n@ == name@,
            r.id == self.id,
            r.uuid == self.uuid,
            r.path == self.path,
            r.user_id == self.user_id,
    {
        SaveQuery { friendly_name: Some(name.to_owned()), ..self }
    }

    pub fn with_user_id(self, id: i32) -> (r: SaveQuery)
        ensures
            r.user_id == Some(id),
            r.id == self.id,
            r.friendly_name == self.friendly_name,
            r.uuid == self.uuid,
            r.path == self.path,
    {
        SaveQuery { user_id: Some(id), ..self }
    }

    pub fn with_uuid(self, uuid: &str) -> (r: SaveQuery)
        ensures
            r.uuid matches Some(u) && u@ == uuid@,
            r.id == self.id,
            r.friendly_name == self.friendly_name,
            r.path == self.path,
            r.user_id == self.user_id,
    {
        SaveQuery { uuid: Some(uuid.to_owned()), ..self }
    }
}

impl PartialEq for SaveQuery {
    fn eq(&self, other: &SaveQuery) -> (r: bool) {
        opt_i32_eq(&self.id, &other.id) && opt_str_eq(&self.friendly_name, &other.friendly_name)
            && opt_str_eq(&self.uuid, &other.uuid) && opt_str_eq(&self.path, &other.path)
            && opt_i32_eq(&self.user_id, &other.user_id)
    }
}

impl vstd::std_specs::cmp::PartialEqSpecImpl for SaveQuery {
    open spec fn obeys_eq_spec() -> bool {
        true
    }

    open spec fn eq_spec(&self, other: &SaveQuery) -> bool {
        &&& self.id == other.id
        &&& opt_str_eq_spec(self.friendly_name, other.friendly_name)
        &&& opt_str_eq_spec(self.uuid, other.uuid)
        &&& opt_str_eq_spec(self.path, other.path)
        &&& self.user_id == other.user_id
    }
}

impl Default for SaveQuery {
    fn default() -> (r: SaveQuery)
        ensures
            r.id is None,
            r.friendly_name is None,
            r.uuid is None,
            r.path is None,
            r.user_id is None,
    {
        SaveQuery::new()
    }
}

/// Selects a File by id, path, digest, or owning save.
#[derive(Debug)]
pub struct FileQuery {
    pub id: Option<i32>,
    pub path: Option<String>,
    pub hash: Option<Vec<u8>>,
    pub save_id: Option<i32>,
}

/// Whether two optional byte vectors hold the same bytes.
pub open spec fn opt_bytes_eq_spec(a: Option<Vec<u8>>, b: Option<Vec<u8>>) -> bool {
    match (a, b) {
        (Option::None, Option::None) => true,
        (Option::Some(x), Option::Some(y)) => x@ == y@,
        _ => false,
    }
}

/// Whether two byte sequences hold the same bytes.
pub(crate) fn bytes_eq(a: &[u8], b: &[u8]) -> (r: bool)
    ensures
        r == (a@ == b@),
{
    if a.len() != b.len() {
        return false;
    }
    let n = a.len();
    let mut k: usize = 0;
    while k < n
        invariant
            k <= n,
            n == a@.len(),
            n == b@.len(),
            forall|m: int| 0 <= m < k ==> a@[m] == b@[m],
        decreases n - k,
    {
        if a[k] != b[k] {
            return false;
        }
        k += 1;
    }
    proof {
        assert(a@ =~= b@);
    }
    true
}

fn opt_bytes_eq(a: &Option<Vec<u8>>, b: &Option<Vec<u8>>) -> (r: bool)
    ensures
        r == opt_bytes_eq_spec(*a, *b),
{
    match (a, b) {
        (None, None) => true,
        (Some(x), Some(y)) => bytes_eq(x.as_slice(), y.as_slice()),
        _ => false,
    }
}

impl FileQuery {
    /// A query that selects nothing yet.
    pub fn new() -> (r: FileQuery)
        ensures
            r.id is None,
            r.path is None,
            r.hash is None,
            r.save_id is None,
    {
        FileQuery { id: None, path: None, hash: None, save_id: None }
    }

    pub fn with_id(self, id: i32) -> (r: FileQuery)
        ensures
            r.id == Some(id),
            r.path == self.path,
            r.hash == self.hash,
            r.save_id == self.save_id,
    {
        FileQuery { id: Some(id), ..self }
    }

    pub fn with_path(self, path: &str) -> (r: FileQuery)
        ensures
            r.path matches Some(p) && p@ == path@,
            r.id == self.id,
            r.hash == self.hash,
            r.save_id == self.save_id,
    {
        FileQuery { path: Some(path.to_owned()), ..self }
    }

    pub fn with_hash(self, hash: &[u8]) -> (r: FileQuery)
        ensures
            r.hash matches Some(h) && h@ == hash@,
            r.id == self.id,
            r.path == self.path,
            r.save_id == self.save_id,
    {
        FileQuery { hash: Some(vstd::slice::slice_to_vec(hash)), ..self }
    }

    pub fn with_save_id(self, save_id: i32) -> (r: FileQuery)
        ensures
            r.save_id == Some(save_id),
            r.id == self.id,
            r.path == self.path,
            r.hash == self.hash,
    {
        FileQuery { save_id: Some(save_id), ..self }
    }
}

impl PartialEq for FileQuery {
    fn eq(&self, other: &FileQuery) -> (r: bool) {
        opt_i32_eq(&self.id, &other.id) && opt_str_eq(&self.path, &other.path) && opt_bytes_eq(
            &self.hash,
            &other.hash,
        ) && opt_i32_eq(&self.save_id, &other.save_id)
    }
}

impl vstd::std_specs::cmp::PartialEqSpecImpl for FileQuery {
    open spec fn obeys_eq_spec() -> bool {
        true
    }

    open spec fn eq_spec(&self, other: &FileQuery) -> bool {
        &&& self.id == other.id
        &&& opt_str_eq_spec(self.path, other.path)
        &&& opt_bytes_eq_spec(self.hash, other.hash)
        &&& self.save_id == other.save_id
    }
}

impl Default for FileQuery {
    fn default() -> (r: FileQuery)
        ensures
            r.id is None,
            r.path is None,
            r.hash is None,
            r.save_id is None,
    {
        FileQuery::new()
    }
}

/// Selects a User by id or username.
#[derive(Debug)]
pub struct UserQuery {
    pub id: Option<i32>,
    pub username: Option<String>,
}

impl UserQuery {
    /// A query that selects nothing yet.
    pub fn new() -> (r: UserQuery)
        ensures
            r.id is None,
            r.username is None,
    {
        UserQuery { id: None, username: None }
    }

    pub fn with_id(self, id: i32) -> (r: UserQuery)
        ensures
            r.id == Some(id),
            r.username == self.username,
    {
        UserQuery { id: Some(id), ..self }
    }

    pub fn with_username(self, name: &str) -> (r: UserQuery)
        ensures
            r.username matches Some(n) && n@ == name@,
            r.id == self.id,
    {
        UserQuery { username: Some(name.to_owned()), ..self }
    }
}

impl PartialEq for UserQuery {
    fn eq(&self, other: &UserQuery) -> (r: bool) {
        opt_i32_eq(&self.id, &other.id) && opt_str_eq(&self.username, &other.username)
    }
}

impl vstd::std_specs::cmp::PartialEqSpecImpl for UserQuery {
    open spec fn obeys_eq_spec() -> bool {
        true
    }

    open spec fn eq_spec(&self, other: &UserQuery) -> bool {
        &&& self.id == other.id
        &&& opt_str_eq_spec(self.username, other.username)
    }
}

impl Default for UserQuery {
    fn default() -> (r: UserQuery)
        ensures
            r.id is None,
            r.username is None,
    {
        UserQuery::new()
    }
}

} // verus!
