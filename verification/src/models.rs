//! The records of the metadata store. Timestamps are Unix seconds in UTC;
//! digests are the content hasher's 8 little-endian bytes.

use vstd::prelude::*;

verus! {

/// A tracked backup job: one original root and its mirror under the backup
/// root `<data_location>/<uuid>/<basename of save_path>`.
#[derive(Debug, Clone)]
pub struct Save {
    pub id: i32,
    pub friendly_name: String,
    pub save_path: String,
    pub backup_path: String,
    pub uuid: String,
    pub user_id: i32,
    pub created_at: i64,
    pub modified_at: i64,
}

/// A Save about to be recorded in the metadata store.
#[derive(Debug, Clone)]
pub struct NewSave {
    pub friendly_name: String,
    pub save_path: String,
    pub backup_path: String,
    pub uuid: String,
    pub user_id: i32,
    pub created_at: i64,
    pub modified_at: i64,
}

/// An administrative edit of a Save: the fields left `None` keep their value.
#[derive(Debug, Clone)]
pub struct EditSave {
    pub id: i32,
    pub friendly_name: Option<String>,
    pub save_path: Option<String>,
    pub modified_at: i64,
}

/// A tracked file within a Save. The digest reflects the content as of the
/// last successful backup copy, not necessarily what is on disk now.
#[derive(Debug, Clone)]
pub struct File {
    pub id: i32,
    pub file_path: String,
    pub file_hash: Vec<u8>,
    pub save_id: i32,
    pub created_at: i64,
    pub modified_at: i64,
}

/// A File about to be recorded in the metadata store.
#[derive(Debug, Clone)]
pub struct NewFile {
    pub file_path: String,
    pub file_hash: Vec<u8>,
    pub save_id: i32,
    pub created_at: i64,
    pub modified_at: i64,
}

/// An edit of a tracked File after a re-backup: a fresh digest and time.
#[derive(Debug, Clone)]
pub struct EditFile {
    pub id: i32,
    pub file_hash: Vec<u8>,
    pub modified_at: i64,
}

/// The local actor that owns saves.
#[derive(Debug, Clone)]
pub struct User {
    pub id: i32,
    pub username: String,
    pub created_at: i64,
    pub modified_at: i64,
}

/// A User about to be recorded in the metadata store.
#[derive(Debug, Clone)]
pub struct NewUser {
    pub username: String,
    pub created_at: i64,
    pub modified_at: i64,
}

/// An edit of a User: a username left `None` keeps its value.
#[derive(Debug, Clone)]
pub struct EditUser {
    pub id: i32,
    pub username: Option<String>,
    pub modified_at: i64,
}

} // verus!
