//! The content hasher and the archive engine's byte-level operations, plus
//! the error taxonomy shared by the backup workflow.

use crate::config::Config;
use crate::paths::is_component_at;
use vstd::prelude::*;

verus! {

/// Failures of the backup engine. I/O failures carry the underlying message
/// as text; path failures carry the offending path.
#[derive(Debug)]
pub enum ArchiveError {
    IOError(String),
    InvalidPath(String),
    IllegalPath(String),
    UnknownFileName(String),
    UnaccessableConfig,
    NotFound(String),
    AmbiguousUser,
}

impl ArchiveError {
    /// The human-readable description of the failure.
    pub fn message(&self) -> (r: String)
        ensures
            self matches ArchiveError::IOError(m) ==> r@ == m@,
            self matches ArchiveError::InvalidPath(p) ==> r@ == p@
                + " was found to be an invalid path."@,
            self matches ArchiveError::IllegalPath(p) ==> r@ == p@
                + " is not a valid UTF-8 compatible path"@,
            self matches ArchiveError::UnknownFileName(p) ==> r@
                == "Unable to determine the file / path name of "@ + p@,
            self is UnaccessableConfig ==> r@
                == "Unable to obtain reference to the global static config"@,
            self matches ArchiveError::NotFound(p) ==> r@ == "Unable to retrieve "@ + p@
                + " from the database."@,
            self is AmbiguousUser ==> r@ == "Ambiguous user records: manual resolution required."@,
    {
        match self {
            ArchiveError::IOError(m) => m.clone(),
            ArchiveError::InvalidPath(p) => {
                let mut s = p.clone();
                s.append(" was found to be an invalid path.");
                s
            },
            ArchiveError::IllegalPath(p) => {
                let mut s = p.clone();
                s.append(" is not a valid UTF-8 compatible path");
                s
            },
            ArchiveError::UnknownFileName(p) => {
                let mut s = String::new();
                s.append("Unable to determine the file / path name of ");
                s.append(p.as_str());
                s
            },
            ArchiveError::UnaccessableConfig => {
                let mut s = String::new();
                s.append("Unable to obtain reference to the global static config");
                s
            },
            ArchiveError::NotFound(p) => {
                let mut s = String::new();
                s.append("Unable to retrieve ");
                s.append(p.as_str());
                s.append(" from the database.");
                s
            },
            ArchiveError::AmbiguousUser => {
                let mut s = String::new();
                s.append("Ambiguous user records: manual resolution required.");
                s
            },
        }
    }
}

/// The engine for hashing file contents and packing archives.
#[derive(Debug)]
pub struct Archive {}

/// The digest that the seeded 64-bit xxHash algorithm assigns to a byte
/// sequence. The value is a pure function of the seed and the bytes alone:
/// the same bytes hash the same on every run and machine, no matter how the
/// input was chunked while streaming.
pub uninterp spec fn xxhash64_of(seed: u64, data: Seq<u8>) -> u64;

/// The little-endian base-256 digits of a 64-bit value, lowest first.
pub open spec fn u64_le_bytes(n: u64) -> Seq<u8> {
    seq![
        (n % 256) as u8,
        ((n / 0x100) % 256) as u8,
        ((n / 0x1_0000) % 256) as u8,
        ((n / 0x100_0000) % 256) as u8,
        ((n / 0x1_0000_0000) % 256) as u8,
        ((n / 0x100_0000_0000) % 256) as u8,
        ((n / 0x1_0000_0000_0000) % 256) as u8,
        ((n / 0x100_0000_0000_0000) % 256) as u8,
    ]
}

/// Relies on twox_hash::XxHash64 (`with_seed`, `Hasher::write`, `finish`):
/// the finished digest depends only on the seed and the bytes written, so it
/// is named by `xxhash64_of`. The crate documents that feeding the input in
/// chunks of any size yields the same digest as feeding it whole.
#[verifier::external_body]
fn xxhash64(seed: u64, data: &[u8]) -> (r: u64)
    ensures
        r == xxhash64_of(seed, data@),
{
    let mut hasher = twox_hash::XxHash64::with_seed(seed);
    core::hash::Hasher::write(&mut hasher, data);
    core::hash::Hasher::finish(&hasher)
}

impl Default for Archive {
    fn default() -> (r: Archive)
        ensures
            r == (Archive {  }),
    {
        Archive {}
    }
}

impl Archive {
    pub fn new() -> (r: Archive)
        ensures
            r == (Archive {  }),
    {
        Archive {}
    }

    /// Serializes a 64-bit digest as its 8 little-endian bytes, the form in
    /// which digests are stored and compared.
    pub fn u64_to_byte_vec(num: u64) -> (r: Result<Vec<u8>, ArchiveError>)
        ensures
            r matches Ok(bytes) && bytes@ == u64_le_bytes(num),
    {
        let mut bytes: Vec<u8> = Vec::new();
        bytes.push((num % 256) as u8);
        bytes.push(((num / 0x100) % 256) as u8);
        bytes.push(((num / 0x1_0000) % 256) as u8);
        bytes.push(((num / 0x100_0000) % 256) as u8);
        bytes.push(((num / 0x1_0000_0000) % 256) as u8);
        bytes.push(((num / 0x100_0000_0000) % 256) as u8);
        bytes.push(((num / 0x1_0000_0000_0000) % 256) as u8);
        bytes.push(((num / 0x100_0000_0000_0000) % 256) as u8);
        proof {
            assert(bytes@ =~= u64_le_bytes(num));
        }
        Ok(bytes)
    }

    /// Hashes a file's bytes with the seed that the configuration supplies.
    /// For a fixed seed the digest is a pure function of the bytes, so two
    /// runs over unchanged content always agree.
    pub fn calc_hash(config: &Config, data: &[u8]) -> (r: u64)
        ensures
            r == xxhash64_of(crate::config::spec_seed(config.xxhash_seed), data@),
    {
        let seed = config.seed();
        xxhash64(seed, data)
    }

    /// The stored digest of a file's bytes: the seeded hash serialized as its
    /// 8 little-endian bytes.
    pub fn file_digest(config: &Config, data: &[u8]) -> (r: Result<Vec<u8>, ArchiveError>)
        ensures
            r matches Ok(digest) && digest@ == u64_le_bytes(
                xxhash64_of(crate::config::spec_seed(config.xxhash_seed), data@),
            ),
    {
        let num = Self::calc_hash(config, data);
        Self::u64_to_byte_vec(num)
    }

    /// Packages in-memory archive entries into a single compressed
    /// container: a tar archive of the entries, wrapped in a zstd frame.
    /// Succeeds exactly when every entry's path can survive the round trip,
    /// and fails with the offending path otherwise.
    pub fn compress_entries(entries: &Vec<ArchiveEntry>) -> (r: Result<Vec<u8>, ArchiveError>)
        ensures
            r is Ok <==> valid_entries(entries_view(entries@)),
            valid_entries(entries_view(entries@)) ==> (r matches Ok(v) && v@ == zstd_of(
                tar_of(entries_view(entries@)),
            )),
            !valid_entries(entries_view(entries@)) ==> (r matches Err(e) && e matches
                ArchiveError::IllegalPath(m) && exists|t: int|
                0 <= t < entries@.len() && entries@[t].path@ == m@ && !valid_entry_path(
                    entries@[t].path@,
                )),
    {
        let n = entries.len();
        let mut i: usize = 0;
        while i < n
            invariant
                n == entries@.len(),
                i <= n,
                forall|t: int| 0 <= t < i ==> valid_entry_path(#[trigger] entries@[t].path@),
            decreases n - i,
        {
            if !check_entry_path(entries[i].path.as_str()) {
                proof {
                    assert(entries_view(entries@)[i as int].0 == entries@[i as int].path@);
                    assert(!valid_entries(entries_view(entries@)));
                }
                return Err(ArchiveError::IllegalPath(entries[i].path.clone()));
            }
            i += 1;
        }
        proof {
            assert forall|t: int| 0 <= t < entries_view(entries@).len() implies valid_entry_path(
                #[trigger] entries_view(entries@)[t].0,
            ) by {
                assert(entries_view(entries@)[t].0 == entries@[t].path@);
            }
        }
        let packed = tar_pack(entries).unwrap();
        let frame = zstd_compress(packed.as_slice()).unwrap();
        Ok(frame)
    }

    /// Reverses `compress_entries`: whenever the bytes are the container
    /// built from valid entries, decompression succeeds and returns exactly
    /// those entries, paths and contents alike.
    pub fn decompress_entries(data: &[u8]) -> (r: Result<Vec<ArchiveEntry>, ArchiveError>)
        ensures
            forall|items: Seq<(Seq<char>, Seq<u8>)>|
                valid_entries(items) && data@ == zstd_of(tar_of(items)) ==> (r matches Ok(v)
                    && entries_view(v@) == items),
    {
        let raw = match zstd_decompress(data) {
            Err(e) => { return Err(e) },
            Ok(v) => v,
        };
        match tar_unpack(raw.as_slice()) {
            Err(e) => Err(e),
            Ok(v) => Ok(v),
        }
    }

    /// Compresses a single file's bytes into a zstd frame; this always
    /// succeeds.
    pub fn compress_data(data: &[u8]) -> (r: Result<Vec<u8>, ArchiveError>)
        ensures
            r matches Ok(v) && v@ == zstd_of(data@),
    {
        zstd_compress(data)
    }

    /// Reverses `compress_data`: whenever the bytes are a frame that it
    /// produced, decompression succeeds and returns the original bytes.
    pub fn decompress_data(data: &[u8]) -> (r: Result<Vec<u8>, ArchiveError>)
        ensures
            forall|x: Seq<u8>| data@ == zstd_of(x) ==> (r matches Ok(v) && v@ == x),
    {
        zstd_decompress(data)
    }

    /// Relies on chrono's `Utc::now`: the current moment as a Unix timestamp
    /// in UTC. The value depends on the clock, so nothing is stated of it.
    #[verifier::external_body]
    pub fn get_utc_unix_time() -> i64 {
        chrono::Utc::now().timestamp()
    }
}

/// One entry of an in-memory archive: a relative path and the file's bytes.
/// Directories are implied by the paths; the archive holds regular files.
#[derive(Debug, Clone)]
pub struct ArchiveEntry {
    pub path: String,
    pub data: Vec<u8>,
}

/// The paths and contents that a sequence of archive entries holds.
pub open spec fn entries_view(v: Seq<ArchiveEntry>) -> Seq<(Seq<char>, Seq<u8>)> {
    Seq::new(v.len(), |i: int| (v[i].path@, v[i].data@))
}

/// A path an archive entry may carry: nonempty and relative, with no NUL
/// characters, no empty components, and no `.` or `..` components — exactly
/// the paths that survive packing and unpacking unchanged.
pub open spec fn valid_entry_path(p: Seq<char>) -> bool {
    &&& p.len() > 0
    &&& p[0] != '/'
    &&& p[p.len() - 1] != '/'
    &&& forall|i: int| 0 <= i < p.len() ==> p[i] != '\0'
    &&& forall|i: int| #![trigger p[i]] 0 <= i && i + 1 < p.len() ==> !(p[i] == '/' && p[i + 1] == '/')
    &&& forall|i: int| !is_component_at(p, i, seq!['.'])
    &&& forall|i: int| !is_component_at(p, i, seq!['.', '.'])
}

/// Every entry of the archive carries a valid path.
pub open spec fn valid_entries(items: Seq<(Seq<char>, Seq<u8>)>) -> bool {
    forall|t: int| 0 <= t < items.len() ==> valid_entry_path(#[trigger] items[t].0)
}

/// The bytes of the in-memory tar archive built from these entries. With
/// fixed header fields the bytes are a pure function of the entries alone.
pub uninterp spec fn tar_of(items: Seq<(Seq<char>, Seq<u8>)>) -> Seq<u8>;

/// The zstd frame that encoding these bytes produces. For a fixed level the
/// frame is a pure function of the bytes alone.
pub uninterp spec fn zstd_of(data: Seq<u8>) -> Seq<u8>;

/// Relies on tar::Builder (`new`, `append_data`, `into_inner`): appending
/// each entry under a zeroed GNU header writes an archive whose bytes depend
/// only on the entries' paths and contents, named by `tar_of`. The writes go
/// to an in-memory vector, which cannot fail, and a valid entry path is one
/// the header accepts (over-long ones take the GNU long-name fallback), so
/// packing valid entries always succeeds.
#[verifier::external_body]
fn tar_pack(entries: &Vec<ArchiveEntry>) -> (r: Result<Vec<u8>, ArchiveError>)
    requires
        valid_entries(entries_view(entries@)),
    ensures
        r is Ok,
        r matches Ok(v) ==> v@ == tar_of(entries_view(entries@)),
{
    let mut b = tar::Builder::new(Vec::new());
    for e in entries.iter() {
        let mut h = tar::Header::new_gnu();
        h.set_size(e.data.len() as u64);
        h.set_mode(0o644);
        if let Err(err) = b.append_data(&mut h, &e.path, e.data.as_slice()) {
            return Err(ArchiveError::IOError(err.to_string()));
        }
    }
    b.into_inner().map_err(|err| ArchiveError::IOError(err.to_string()))
}

/// Relies on tar::Archive (`entries`, `Entry::path`, `read_to_end`): an
/// archive holds exactly the entries it was built from, in order, so
/// unpacking inverts `tar_of` on every archive built from valid entries.
#[verifier::external_body]
fn tar_unpack(data: &[u8]) -> (r: Result<Vec<ArchiveEntry>, ArchiveError>)
    ensures
        r is Ok <== exists|items: Seq<(Seq<char>, Seq<u8>)>|
            valid_entries(items) && data@ == tar_of(items),
        r matches Ok(v) ==> forall|items: Seq<(Seq<char>, Seq<u8>)>|
            valid_entries(items) && data@ == tar_of(items) ==> entries_view(v@) == items,
{
    let mut archive = tar::Archive::new(data);
    let mut out = Vec::new();
    let iter = archive.entries().map_err(|e| ArchiveError::IOError(e.to_string()))?;
    for entry in iter {
        let mut e = entry.map_err(|e| ArchiveError::IOError(e.to_string()))?;
        let path = e.path().ok().and_then(|p| p.to_str().map(String::from)).ok_or(
            ArchiveError::IllegalPath(String::new()),
        )?;
        let mut buf = Vec::new();
        std::io::Read::read_to_end(&mut e, &mut buf).map_err(|e| ArchiveError::IOError(e.to_string()))?;
        out.push(ArchiveEntry { path, data: buf });
    }
    Ok(out)
}

/// Relies on zstd::stream::encode_all at the default level: the frame is a
/// pure function of the input bytes, named by `zstd_of`, and encoding an
/// in-memory slice into an in-memory vector cannot fail, so the call always
/// succeeds.
#[verifier::external_body]
fn zstd_compress(data: &[u8]) -> (r: Result<Vec<u8>, ArchiveError>)
    ensures
        r is Ok,
        r matches Ok(v) ==> v@ == zstd_of(data@),
{
    zstd::stream::encode_all(data, 0).map_err(|err| ArchiveError::IOError(err.to_string()))
}

/// Relies on zstd::stream::decode_all: decoding any frame that encode_all
/// produced succeeds and recovers exactly the bytes that were encoded.
#[verifier::external_body]
fn zstd_decompress(data: &[u8]) -> (r: Result<Vec<u8>, ArchiveError>)
    ensures
        r is Ok <== exists|x: Seq<u8>| data@ == zstd_of(x),
        r matches Ok(v) ==> forall|x: Seq<u8>| data@ == zstd_of(x) ==> v@ == x,
{
    zstd::stream::decode_all(data).map_err(|err| ArchiveError::IOError(err.to_string()))
}

/// Decides whether a path may enter an archive: nonempty and relative, no
/// NUL, no empty components, no `.` or `..` components.
fn check_entry_path(p: &str) -> (r: bool)
    ensures
        r == valid_entry_path(p@),
{
    let len = p.unicode_len();
    if len == 0 {
        return false;
    }
    if p.get_char(0) == '/' {
        return false;
    }
    if p.get_char(len - 1) == '/' {
        return false;
    }
    let mut i: usize = 0;
    while i < len
        invariant
            len == p@.len(),
            0 < len <= usize::MAX,
            i <= len,
            p@[0] != '/',
            p@[len - 1] != '/',
            forall|j: int| 0 <= j < i ==> p@[j] != '\0',
            forall|j: int| #![trigger p@[j]] 0 <= j && j + 1 < len && j < i ==> !(p@[j] == '/' && p@[j + 1] == '/'),
            forall|j: int| j < i ==> !is_component_at(p@, j, seq!['.']),
            forall|j: int| j < i ==> !is_component_at(p@, j, seq!['.', '.']),
        decreases len - i,
    {
        let c = p.get_char(i);
        if c == '\0' {
            return false;
        }
        if c == '/' && i + 1 < len && p.get_char(i + 1) == '/' {
            return false;
        }
        let starts = i == 0 || p.get_char(i - 1) == '/';
        if c == '.' && starts {
            if i + 1 == len || p.get_char(i + 1) == '/' {
                proof {
                    assert(p@.subrange(i as int, i + 1) =~= seq!['.']);
                    assert(is_component_at(p@, i as int, seq!['.']));
                }
                return false;
            }
            if p.get_char(i + 1) == '.' && (i + 2 == len || p.get_char(i + 2) == '/') {
                proof {
                    assert(p@.subrange(i as int, i + 2) =~= seq!['.', '.']);
                    assert(is_component_at(p@, i as int, seq!['.', '.']));
                }
                return false;
            }
        }
        proof {
            assert(!is_component_at(p@, i as int, seq!['.'])) by {
                if is_component_at(p@, i as int, seq!['.']) {
                    assert(p@.subrange(i as int, i + 1)[0] == p@[i as int]);
                }
            }
            assert(!is_component_at(p@, i as int, seq!['.', '.'])) by {
                if is_component_at(p@, i as int, seq!['.', '.']) {
                    assert(p@.subrange(i as int, i + 2)[0] == p@[i as int]);
                    assert(p@.subrange(i as int, i + 2)[1] == p@[i + 1]);
                }
            }
        }
        i += 1;
    }
    proof {
        assert forall|j: int| !is_component_at(p@, j, seq!['.']) by {
            if 0 <= j < len {
            } else {
                assert(!(0 <= j && j + 1 <= len));
            }
        }
        assert forall|j: int| !is_component_at(p@, j, seq!['.', '.']) by {
            if 0 <= j < len {
            } else {
                assert(!(0 <= j && j + 2 <= len));
            }
        }
    }
    true
}

/// Two hashes of the same bytes under the same seed are the same digest:
/// the digest names a pure function of seed and content.
pub proof fn lemma_hash_deterministic(seed: u64, data: Seq<u8>, h1: u64, h2: u64)
    requires
        h1 == xxhash64_of(seed, data),
        h2 == xxhash64_of(seed, data),
    ensures
        h1 == h2,
{
}

} // verus!
