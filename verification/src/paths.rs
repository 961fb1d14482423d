//! The path model of the backup engine. Paths are UTF-8 strings whose
//! components are separated by `'/'`; a path's basename is what follows its
//! last separator. The backup path mapper locates the save's own root inside
//! an original path by the backup root's basename (the "anchor") and grafts
//! the remaining suffix onto the backup root.

use crate::archive::{Archive, ArchiveError};
use vstd::prelude::*;

verus! {

/// The index of the last `'/'` in `s`, or `-1` if there is none.
pub open spec fn last_slash(s: Seq<char>) -> int
    decreases s.len(),
{
    if s.len() == 0 {
        -1
    } else if s[s.len() - 1] == '/' {
        s.len() - 1
    } else {
        last_slash(s.drop_last())
    }
}

/// What follows the last `'/'` of `s` (all of `s` if it has none). Empty
/// exactly when `s` is empty or ends with a separator.
pub open spec fn basename_of(s: Seq<char>) -> Seq<char> {
    s.subrange(last_slash(s) + 1, s.len() as int)
}

/// The path above the last `'/'` of `s`: `None` when `s` has no separator or
/// is the root `"/"` alone; the root keeps itself as the prefix when the
/// separator is its first character.
pub open spec fn parent_of(s: Seq<char>) -> Option<Seq<char>> {
    if last_slash(s) == -1 {
        None
    } else if s.len() == 1 {
        None
    } else if last_slash(s) == 0 {
        Some(s.subrange(0, 1))
    } else {
        Some(s.subrange(0, last_slash(s)))
    }
}

/// `name` occurs in `s` at index `i` as a whole component: the characters
/// match and both sides are flanked by a separator or an end of the path.
pub open spec fn is_component_at(s: Seq<char>, i: int, name: Seq<char>) -> bool {
    &&& 0 <= i
    &&& i + name.len() <= s.len()
    &&& s.subrange(i, i + name.len()) == name
    &&& (i == 0 || s[i - 1] == '/')
    &&& (i + name.len() == s.len() || s[i + name.len()] == '/')
}

/// The defining properties of `last_slash`: it is a separator position and
/// nothing after it is a separator.
pub proof fn lemma_last_slash_props(s: Seq<char>)
    ensures
        -1 <= last_slash(s) < s.len(),
        last_slash(s) >= 0 ==> s[last_slash(s)] == '/',
        forall|j: int| last_slash(s) < j < s.len() ==> s[j] != '/',
    decreases s.len(),
{
    if s.len() == 0 {
    } else if s[s.len() - 1] == '/' {
    } else {
        lemma_last_slash_props(s.drop_last());
        assert forall|j: int| last_slash(s) < j < s.len() implies s[j] != '/' by {
            if j < s.len() - 1 {
                assert(s.drop_last()[j] == s[j]);
            }
        }
    }
}

/// A nonempty basename stands at the end of its path as a whole component.
pub proof fn lemma_basename_component(s: Seq<char>)
    requires
        basename_of(s).len() > 0,
    ensures
        is_component_at(s, s.len() - basename_of(s).len(), basename_of(s)),
{
    lemma_last_slash_props(s);
    let i = s.len() - basename_of(s).len();
    assert(i == last_slash(s) + 1);
    assert(s.subrange(i, i + basename_of(s).len()) =~= basename_of(s));
}

/// Compares `name` against the characters of `s` starting at `at`.
fn str_eq_at(s: &str, at: usize, name: &str) -> (r: bool)
    requires
        at + name@.len() <= s@.len(),
        s@.len() <= usize::MAX,
    ensures
        r == (s@.subrange(at as int, at + name@.len()) == name@),
{
    let nlen = name.unicode_len();
    let mut k: usize = 0;
    while k < nlen
        invariant
            k <= nlen,
            nlen == name@.len(),
            at + nlen <= s@.len(),
            s@.len() <= usize::MAX,
            forall|m: int| 0 <= m < k ==> s@[at + m] == name@[m],
        decreases nlen - k,
    {
        if s.get_char(at + k) != name.get_char(k) {
            proof {
                assert(s@.subrange(at as int, at + name@.len())[k as int] == s@[at + k]);
            }
            return false;
        }
        k += 1;
    }
    proof {
        assert(s@.subrange(at as int, at + name@.len()) =~= name@);
    }
    true
}

/// The basename of `path`: the component after the last separator, or `None`
/// when there is none left to name (an empty path, or one ending in `'/'`).
pub fn basename(path: &str) -> (r: Option<String>)
    ensures
        r matches Some(b) ==> b@ == basename_of(path@) && basename_of(path@).len() > 0,
        r is None <==> basename_of(path@).len() == 0,
{
    let len = path.unicode_len();
    let mut i: usize = len;
    while i > 0 && path.get_char(i - 1) != '/'
        invariant
            i <= len,
            len == path@.len(),
            forall|j: int| i <= j < len ==> path@[j] != '/',
        decreases i,
    {
        i -= 1;
    }
    proof {
        lemma_last_slash_props(path@);
        if i > 0 {
            assert(path@[i - 1] == '/');
            assert(last_slash(path@) == i - 1);
        } else {
            assert(last_slash(path@) == -1);
        }
    }
    if i == len {
        None
    } else {
        let b = path.substring_char(i, len);
        proof {
            assert(b@ =~= basename_of(path@));
        }
        Some(b.to_owned())
    }
}

/// The parent of `path`: everything above its last separator, or `None` when
/// the path has no separator or is the root alone.
pub fn parent(path: &str) -> (r: Option<String>)
    ensures
        r matches Some(p) ==> parent_of(path@) == Some(p@),
        r is None <==> parent_of(path@) is None,
{
    let len = path.unicode_len();
    let mut i: usize = len;
    while i > 0 && path.get_char(i - 1) != '/'
        invariant
            i <= len,
            len == path@.len(),
            forall|j: int| i <= j < len ==> path@[j] != '/',
        decreases i,
    {
        i -= 1;
    }
    proof {
        lemma_last_slash_props(path@);
        if i > 0 {
            assert(path@[i - 1] == '/');
            assert(last_slash(path@) == i - 1);
        } else {
            assert(last_slash(path@) == -1);
        }
    }
    if i == 0 {
        None
    } else if len == 1 {
        None
    } else if i == 1 {
        let p = path.substring_char(0, 1);
        Some(p.to_owned())
    } else {
        let p = path.substring_char(0, i - 1);
        Some(p.to_owned())
    }
}

/// The anchor (the basename of `b`) occurs somewhere in `p` as a whole
/// component, so `p` can be mapped into the backup tree rooted at `b`.
pub open spec fn mappable(p: Seq<char>, b: Seq<char>) -> bool {
    basename_of(b).len() > 0 && exists|i: int| is_component_at(p, i, basename_of(b))
}

/// `m` is the image of `p` under the backup path mapping into `b`: what
/// follows the first whole-component occurrence of the anchor in `p` is
/// grafted onto `b`.
pub open spec fn maps_to(p: Seq<char>, b: Seq<char>, m: Seq<char>) -> bool {
    exists|i: int|
        {
            &&& #[trigger] is_component_at(p, i, basename_of(b))
            &&& forall|j: int| 0 <= j < i ==> !is_component_at(p, j, basename_of(b))
            &&& m == b + p.subrange(i + basename_of(b).len(), p.len() as int)
        }
}

/// The canonical backup root of a save: the data location, the uuid and the
/// save path's basename, joined by separators.
pub open spec fn backup_root_of(data: Seq<char>, uuid: Seq<char>, save_path: Seq<char>) -> Seq<
    char,
> {
    data + "/"@ + uuid + "/"@ + basename_of(save_path)
}

/// A backup root built from a save path with a basename keeps that basename
/// as its own: everything after its final separator is the save's name.
pub proof fn lemma_backup_root_basename(data: Seq<char>, uuid: Seq<char>, save_path: Seq<char>)
    requires
        basename_of(save_path).len() > 0,
    ensures
        basename_of(backup_root_of(data, uuid, save_path)) == basename_of(save_path),
{
    reveal_strlit("/");
    let name = basename_of(save_path);
    let b = backup_root_of(data, uuid, save_path);
    let k = data.len() + 1 + uuid.len();
    lemma_last_slash_props(save_path);
    assert(b[k as int] == '/');
    assert forall|j: int| k < j < b.len() implies b[j] != '/' by {
        assert(b[j] == name[j - k - 1]);
        assert(name[j - k - 1] == save_path[last_slash(save_path) + 1 + j - k - 1]);
    }
    lemma_last_slash_props(b);
    let ls = last_slash(b);
    if ls < k {
        assert(b[k as int] != '/');
    }
    if ls > k {
        assert(b[ls] != '/');
    }
    assert(ls == k);
    assert(basename_of(b) =~= name);
}

impl Archive {
    /// Maps an original file path into the backup tree: the basename of
    /// `backup_path` is the anchor; everything after the anchor's first
    /// occurrence as a whole component of `file_path` is grafted onto
    /// `backup_path`. Fails when `backup_path` has no basename, or when the
    /// anchor never occurs in `file_path` as a component.
    pub fn get_backup_path(file_path: &str, backup_path: &str) -> (r: Result<
        String,
        ArchiveError,
    >)
        ensures
            r matches Ok(mapped) ==> maps_to(file_path@, backup_path@, mapped@),
            r is Ok <==> mappable(file_path@, backup_path@),
            basename_of(backup_path@).len() == 0 ==> (r matches Err(e) && e matches
                ArchiveError::UnknownFileName(m) && m@ == backup_path@),
            basename_of(backup_path@).len() > 0 && !mappable(file_path@, backup_path@) ==> (
            r matches Err(e) && e matches ArchiveError::InvalidPath(m) && m@ == file_path@),
    {
        let anchor = match basename(backup_path) {
            None => { return Err(ArchiveError::UnknownFileName(backup_path.to_owned())) },
            Some(a) => a,
        };
        let plen = file_path.unicode_len();
        let alen = anchor.as_str().unicode_len();
        if alen > plen {
            return Err(ArchiveError::InvalidPath(file_path.to_owned()));
        }
        let mut i: usize = 0;
        while i <= plen - alen
            invariant
                plen == file_path@.len(),
                alen == anchor@.len(),
                anchor@ == basename_of(backup_path@),
                alen > 0,
                alen <= plen,
                i <= plen - alen + 1,
                forall|j: int| 0 <= j < i ==> !is_component_at(file_path@, j, anchor@),
            decreases plen - alen - i + 1,
        {
            let left_ok = i == 0 || file_path.get_char(i - 1) == '/';
            let right_ok = i + alen == plen || file_path.get_char(i + alen) == '/';
            if left_ok && right_ok && str_eq_at(file_path, i, anchor.as_str()) {
                proof {
                    assert(is_component_at(file_path@, i as int, anchor@));
                }
                let suffix = file_path.substring_char(i + alen, plen);
                let mut out = backup_path.to_owned();
                out.append(suffix);
                proof {
                    assert(maps_to(file_path@, backup_path@, out@));
                }
                return Ok(out);
            }
            proof {
                assert(!is_component_at(file_path@, i as int, anchor@));
            }
            i += 1;
        }
        proof {
            assert forall|j: int| !is_component_at(file_path@, j, anchor@) by {
                if 0 <= j < i {
                } else {
                    assert(!(j + anchor@.len() <= file_path@.len()) || j < 0);
                }
            }
        }
        Err(ArchiveError::InvalidPath(file_path.to_owned()))
    }

    /// The backup root for a save: `<data_location>/<uuid>/<basename of the
    /// save path>`. Fails when the save path has no basename.
    pub fn create_backup_path(save_path: &str, uuid: &str, data_location: &str) -> (r: Result<
        String,
        ArchiveError,
    >)
        ensures
            r matches Ok(p) ==> p@ == backup_root_of(data_location@, uuid@, save_path@)
                && basename_of(save_path@).len() > 0,
            r is Err <==> basename_of(save_path@).len() == 0,
            r matches Err(e) ==> e matches ArchiveError::UnknownFileName(m) && m@ == save_path@,
    {
        let name = match basename(save_path) {
            None => { return Err(ArchiveError::UnknownFileName(save_path.to_owned())) },
            Some(n) => n,
        };
        let mut out = data_location.to_owned();
        out.append("/");
        out.append(uuid);
        out.append("/");
        out.append(name.as_str());
        Ok(out)
    }
}

/// The mapping round trip: for a path `p == root + suffix` under a save root
/// whose basename is the anchor (the basename of the backup root), and in
/// which the anchor does not occur as a component before the end of `root`,
/// the anchor's first component occurrence ends exactly at `root`, so the
/// mapper grafts precisely `suffix` onto the backup root.
pub proof fn lemma_map_round_trip(p: Seq<char>, root: Seq<char>, b: Seq<char>, suffix: Seq<char>)
    requires
        basename_of(b).len() > 0,
        basename_of(root) == basename_of(b),
        p == root + suffix,
        suffix.len() == 0 || suffix[0] == '/',
        forall|j: int|
            0 <= j < root.len() - basename_of(b).len() ==> !is_component_at(p, j, basename_of(b)),
    ensures
        is_component_at(p, root.len() - basename_of(b).len(), basename_of(b)),
        forall|j: int|
            0 <= j < root.len() - basename_of(b).len() ==> !is_component_at(p, j, basename_of(b)),
        p.subrange(root.len() as int, p.len() as int) == suffix,
        mappable(p, b),
        forall|mapped: Seq<char>| maps_to(p, b, mapped) ==> mapped == b + suffix,
{
    let a = basename_of(b);
    let i = root.len() - a.len();
    lemma_basename_component(root);
    assert(is_component_at(root, i, a));
    assert(p.subrange(i, i + a.len()) =~= root.subrange(i, i + a.len()));
    assert(i == 0 || p[i - 1] == root[i - 1]);
    assert(is_component_at(p, i, a));
    assert(p.subrange(root.len() as int, p.len() as int) =~= suffix);
    assert forall|mapped: Seq<char>| maps_to(p, b, mapped) implies mapped == b + suffix by {
        let i2 = choose|i2: int|
            {
                &&& #[trigger] is_component_at(p, i2, basename_of(b))
                &&& forall|j: int| 0 <= j < i2 ==> !is_component_at(p, j, basename_of(b))
                &&& mapped == b + p.subrange(i2 + basename_of(b).len(), p.len() as int)
            };
        if i2 < i {
            assert(!is_component_at(p, i2, basename_of(b)));
        }
        if i2 > i {
            assert(!is_component_at(p, i, basename_of(b)));
        }
        assert(i2 == i);
        assert(p.subrange(i + a.len(), p.len() as int) == suffix);
    }
}

} // verus!
