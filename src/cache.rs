//! The local cache: a directory whose tree mirrors object keys verbatim.
use vstd::prelude::*;

use crate::opt_view;

verus! {

/// `base` joined with `rel` as `std::path::PathBuf::join` joins them: a `rel`
/// that starts with `/` replaces `base`; otherwise `rel` follows `base` after a `/`
/// (none is added when `base` already ends with one).
pub open spec fn join_path(base: Seq<char>, rel: Seq<char>) -> Seq<char> {
    if rel.len() > 0 && rel[0] == '/' {
        rel
    } else if base.len() > 0 && base.last() == '/' {
        base + rel
    } else {
        base + seq!['/'] + rel
    }
}

/// `s` names a single path component: it is not empty, holds no `/`, and is
/// neither `.` nor `..`. Joined to a directory it stays directly inside it.
pub open spec fn single_component(s: Seq<char>) -> bool {
    &&& s.len() > 0
    &&& forall|i: int| 0 <= i < s.len() ==> s[i] != '/'
    &&& s != seq!['.']
    &&& s != seq!['.', '.']
}

/// Whether `s` names a single path component.
pub fn is_single_component(s: &str) -> (r: bool)
    ensures
        r == single_component(s@),
{
    let n = s.unicode_len();
    if n == 0 {
        return false;
    }
    let mut i: usize = 0;
    while i < n
        invariant
            i <= n,
            n == s@.len(),
            forall|j: int| 0 <= j < i ==> s@[j] != '/',
        decreases n - i,
    {
        if s.get_char(i) == '/' {
            return false;
        }
        i = i + 1;
    }
    if n == 1 && s.get_char(0) == '.' {
        proof {
            assert(s@ =~= seq!['.']);
        }
        return false;
    }
    if n == 2 && s.get_char(0) == '.' && s.get_char(1) == '.' {
        proof {
            assert(s@ =~= seq!['.', '.']);
        }
        return false;
    }
    proof {
        if s@ == seq!['.'] {
            assert(s@[0] == '.');
        }
        if s@ == seq!['.', '.'] {
            assert(s@[0] == '.' && s@[1] == '.');
        }
    }
    true
}

/// A single component joined to `dir` lies directly inside `dir`.
pub proof fn lemma_single_component_inside(dir: Seq<char>, f: Seq<char>)
    requires
        single_component(f),
    ensures
        join_path(dir, f) == join_path(dir, Seq::empty()) + f,
{
    assert(f[0] != '/');
    assert(join_path(dir, f) =~= join_path(dir, Seq::empty()) + f);
}

/// The directories above the file `key`, relative to the key's root, deepest first:
/// the prefixes of `key` that end just before one of its `/`.
pub open spec fn parent_dirs(key: Seq<char>) -> Seq<Seq<char>>
    decreases key.len(),
{
    if key.len() == 0 {
        Seq::empty()
    } else if key.last() == '/' {
        seq![key.drop_last()] + parent_dirs(key.drop_last())
    } else {
        parent_dirs(key.drop_last())
    }
}

/// The path `path` relative to `dir`, when it lies under `dir`.
pub open spec fn relative_key(dir: Seq<char>, path: Seq<char>) -> Option<Seq<char>> {
    let prefix = join_path(dir, Seq::empty());
    if prefix.len() <= path.len() && path.subrange(0, prefix.len() as int) == prefix {
        Some(path.subrange(prefix.len() as int, path.len() as int))
    } else {
        None
    }
}

/// The keys, relative to `dir`, of the files `files` that lie under `dir`, in order.
pub open spec fn keys_under(dir: Seq<char>, files: Seq<Seq<char>>) -> Seq<Seq<char>>
    decreases files.len(),
{
    if files.len() == 0 {
        Seq::empty()
    } else {
        let rest = keys_under(dir, files.drop_last());
        match relative_key(dir, files.last()) {
            Some(k) => rest.push(k),
            None => rest,
        }
    }
}

/// `base` joined with the relative path `rel`.
pub fn join(base: &str, rel: &str) -> (r: String)
    ensures
        r@ == join_path(base@, rel@),
{
    let m = rel.unicode_len();
    if m > 0 && rel.get_char(0) == '/' {
        return String::from_str(rel);
    }
    let n = base.unicode_len();
    let mut r = String::from_str(base);
    if n > 0 && base.get_char(n - 1) == '/' {
        r.append(rel);
    } else {
        r.append("/");
        r.append(rel);
    }
    proof {
        reveal_strlit("/");
        assert(r@ =~= join_path(base@, rel@));
    }
    r
}

/// Relies on `std::path::Path::exists`: whether a file or directory is at `path`
/// now, which depends on the filesystem.
#[verifier::external_body]
fn path_exists(path: &str) -> (r: bool) {
    std::path::Path::new(path).exists()
}

/// Object storage cache for backend objects.
#[derive(Clone, Debug)]
pub struct Cache {
    /// The directory where objects are stored.
    pub cache_dir: String,
}

impl Cache {
    /// The cache rooted at `cache_dir`.
    pub fn new(cache_dir: String) -> (r: Cache)
        ensures
            r.cache_dir@ == cache_dir@,
    {
        Cache { cache_dir }
    }

    /// The path of the entry for `key`.
    pub fn entry_path(&self, key: &str) -> (r: String)
        ensures
            r@ == join_path(self.cache_dir@, key@),
    {
        join(self.cache_dir.as_str(), key)
    }

    /// The path of the entry for `key`, when a file is there.
    pub fn get(&self, key: &str) -> (r: Option<String>)
        ensures
            r matches Some(p) ==> p@ == join_path(self.cache_dir@, key@),
    {
        let path = self.entry_path(key);
        if path_exists(path.as_str()) {
            Some(path)
        } else {
            None
        }
    }

    /// The directories that removing the entry for `key` may leave empty, deepest
    /// first; the walk stops before the cache directory itself.
    pub fn prune_dirs(&self, key: &str) -> (r: Vec<String>)
        ensures
            r@.len() == parent_dirs(key@).len(),
            forall|i: int|
                0 <= i < r@.len() ==> (#[trigger] r@[i])@ == join_path(
                    self.cache_dir@,
                    parent_dirs(key@)[i],
                ),
    {
        let n = key.unicode_len();
        let mut r: Vec<String> = Vec::new();
        let mut i: usize = n;
        let ghost mut dirs: Seq<Seq<char>> = Seq::empty();
        proof {
            assert(key@.subrange(0, n as int) =~= key@);
        }
        while i > 0
            invariant
                i <= n,
                n == key@.len(),
                parent_dirs(key@) == dirs + parent_dirs(key@.subrange(0, i as int)),
                r@.len() == dirs.len(),
                forall|k: int|
                    0 <= k < r@.len() ==> (#[trigger] r@[k])@ == join_path(self.cache_dir@, dirs[k]),
            decreases i,
        {
            let ghost pre = key@.subrange(0, i as int);
            assert(pre.drop_last() =~= key@.subrange(0, i - 1));
            if key.get_char(i - 1) == '/' {
                let dir = key.substring_char(0, i - 1);
                let p = self.entry_path(dir);
                r.push(p);
                proof {
                    assert(dirs + parent_dirs(pre) =~= dirs.push(pre.drop_last()) + parent_dirs(
                        pre.drop_last(),
                    ));
                    dirs = dirs.push(pre.drop_last());
                }
            }
            i = i - 1;
        }
        proof {
            assert(key@.subrange(0, 0) =~= Seq::<char>::empty());
            assert(dirs + Seq::<Seq<char>>::empty() =~= dirs);
        }
        r
    }

    /// The key of the cached file at `path`: `path` relative to the cache directory.
    pub fn key_of(&self, path: &str) -> (r: Option<String>)
        ensures
            r matches Some(k) ==> path@ == join_path(self.cache_dir@, Seq::empty()) + k@,
            r is None ==> forall|k: Seq<char>|
                path@ != #[trigger] (join_path(self.cache_dir@, Seq::empty()) + k),
            opt_view(r) == relative_key(self.cache_dir@, path@),
    {
        let prefix = join(self.cache_dir.as_str(), "");
        proof {
            reveal_strlit("");
        }
        let m = prefix.as_str().unicode_len();
        let n = path.unicode_len();
        proof {
            assert(prefix@ =~= join_path(self.cache_dir@, Seq::empty()));
        }
        if m > n {
            proof {
                assert forall|k: Seq<char>| path@ != #[trigger] (prefix@ + k) by {
                    assert((prefix@ + k).len() >= m);
                }
            }
            return None;
        }
        let mut i: usize = 0;
        while i < m
            invariant
                i <= m <= n,
                m == prefix@.len(),
                n == path@.len(),
                forall|j: int| 0 <= j < i ==> path@[j] == prefix@[j],
                prefix@ == join_path(self.cache_dir@, Seq::empty()),
            decreases m - i,
        {
            if path.get_char(i) != prefix.as_str().get_char(i) {
                proof {
                    if m <= n && path@.subrange(0, m as int) == prefix@ {
                        assert(path@.subrange(0, m as int)[i as int] == path@[i as int]);
                    }
                    assert forall|k: Seq<char>| path@ != #[trigger] (prefix@ + k) by {
                        if path@ == prefix@ + k {
                            assert(path@[i as int] == prefix@[i as int]);
                        }
                    }
                }
                return None;
            }
            i = i + 1;
        }
        let rest = String::from_str(path.substring_char(m, n));
        proof {
            assert(path@ =~= prefix@ + rest@);
            assert(path@.subrange(0, m as int) =~= prefix@);
        }
        Some(rest)
    }
}

impl Cache {
    /// The keys of the cached files among `files` (paths found under the cache
    /// directory), in order; paths outside the cache directory are skipped.
    pub fn list_cached(&self, files: &Vec<String>) -> (r: Vec<String>)
        ensures
            r@.map_values(|s: String| s@) == keys_under(
                self.cache_dir@,
                files@.map_values(|s: String| s@),
            ),
    {
        let mut r: Vec<String> = Vec::new();
        let mut i: usize = 0;
        while i < files.len()
            invariant
                i <= files@.len(),
                r@.map_values(|s: String| s@) == keys_under(
                    self.cache_dir@,
                    files@.map_values(|s: String| s@).subrange(0, i as int),
                ),
            decreases files@.len() - i,
        {
            let ghost all = files@.map_values(|s: String| s@);
            proof {
                assert(all.subrange(0, i + 1).drop_last() =~= all.subrange(0, i as int));
                assert(all.subrange(0, i + 1).last() == files@[i as int]@);
            }
            match self.key_of(files[i].as_str()) {
                Some(k) => {
                    r.push(k);
                },
                None => {},
            }
            proof {
                assert(r@.map_values(|s: String| s@) =~= keys_under(
                    self.cache_dir@,
                    all.subrange(0, i + 1),
                ));
            }
            i = i + 1;
        }
        proof {
            assert(files@.map_values(|s: String| s@).subrange(0, files@.len() as int)
                =~= files@.map_values(|s: String| s@));
        }
        r
    }
}

/// A handle on one object of the object store.
#[derive(Clone, Debug)]
pub struct Object {
    pub key: String,
}

impl Object {
    /// The object stored under `key`.
    pub fn new(key: &str) -> (r: Object)
        ensures
            r.key@ == key@,
    {
        Object { key: String::from_str(key) }
    }
}

} // verus!
