//! Paths inside a file system of the build, and how one path lies below another.

use vstd::prelude::*;
use vstd::string::*;

verus! {

/// A path within one of the build's file systems. `path` is `/`-separated and
/// relative to the root of the file system `fs`; the root itself is the empty
/// path.
#[derive(Clone, Debug, PartialEq, Eq)]
pub struct FileSystemPath {
    pub fs: u64,
    pub path: String,
}

/// What a [`FileSystemPath`] denotes.
pub struct PathView {
    pub fs: u64,
    pub path: Seq<char>,
}

impl View for FileSystemPath {
    type V = PathView;

    open spec fn view(&self) -> PathView {
        PathView { fs: self.fs, path: self.path@ }
    }
}

impl DeepView for FileSystemPath {
    type V = PathView;

    open spec fn deep_view(&self) -> PathView {
        self@
    }
}

/// The rest of `inner` below `root`, both within one file system: all of
/// `inner` below the empty root, else what follows `root` and one `/`.
pub open spec fn relative_path(root: Seq<char>, inner: Seq<char>) -> Option<Seq<char>> {
    if root.len() == 0 {
        Some(inner)
    } else if root.len() < inner.len() && inner.subrange(0, root.len() as int) == root
        && inner[root.len() as int] == '/' {
        Some(inner.subrange(root.len() as int + 1, inner.len() as int))
    } else {
        None
    }
}

/// The path that leads from `root` to `inner`; `None` where `inner` is in
/// another file system or not below `root`.
pub open spec fn path_to(root: PathView, inner: PathView) -> Option<Seq<char>> {
    if root.fs != inner.fs {
        None
    } else {
        relative_path(root.path, inner.path)
    }
}

/// `inner` is a descendant of `root`.
pub open spec fn is_inside(root: PathView, inner: PathView) -> bool {
    path_to(root, inner) is Some
}

/// `rel` appended below `root`.
pub open spec fn joined(root: PathView, rel: Seq<char>) -> PathView {
    PathView {
        fs: root.fs,
        path: if root.path.len() == 0 {
            rel
        } else if rel.len() == 0 {
            root.path
        } else {
            root.path + seq!['/'] + rel
        },
    }
}

/// The extension that the first `k` characters of `path` end a search for,
/// looking leftwards from position `k`: the text after the nearest `.`, unless
/// a `/` comes first.
pub open spec fn extension_before(path: Seq<char>, k: int) -> Option<Seq<char>>
    decreases k,
{
    if k <= 0 || k > path.len() {
        None
    } else if path[k - 1] == '.' {
        Some(path.subrange(k, path.len() as int))
    } else if path[k - 1] == '/' {
        None
    } else {
        extension_before(path, k - 1)
    }
}

/// The extension of a path: what follows its last `.`, where no `/` follows
/// that `.`.
pub open spec fn extension_of(path: Seq<char>) -> Option<Seq<char>> {
    extension_before(path, path.len() as int)
}

/// `ext` is what follows a `.` of `path` and holds neither `.` nor `/`.
pub open spec fn is_extension(path: Seq<char>, ext: Seq<char>) -> bool {
    &&& ext.len() < path.len()
    &&& path[path.len() - ext.len() - 1] == '.'
    &&& path.subrange(path.len() - ext.len(), path.len() as int) == ext
    &&& forall|i: int| 0 <= i < ext.len() ==> ext[i] != '.' && ext[i] != '/'
}

/// The extension that marks a chunk as a script that a page loads directly.
pub open spec fn script_extension() -> Seq<char> {
    seq!['j', 's']
}

/// `path` names a directly loadable script.
pub open spec fn is_script_path(path: Seq<char>) -> bool {
    extension_of(path) == Some(script_extension())
}

/// What a search leftwards from `k` finds: the text after a `.` with
/// neither `.` nor `/` between it and `k`, or nothing where every `.` before
/// `k` has a `/` between it and `k`.
proof fn lemma_extension_before(path: Seq<char>, k: int)
    requires
        0 <= k <= path.len(),
    ensures
        match extension_before(path, k) {
            Some(ext) => exists|d: int|
                0 <= d < k && path[d] == '.' && ext == path.subrange(d + 1, path.len() as int)
                    && forall|i: int| d < i < k ==> path[i] != '.' && path[i] != '/',
            None => forall|d: int|
                0 <= d < k && path[d] == '.' ==> exists|i: int| d < i < k && path[i] == '/',
        },
    decreases k,
{
    if k > 0 && path[k - 1] != '.' && path[k - 1] != '/' {
        lemma_extension_before(path, k - 1);
        match extension_before(path, k - 1) {
            Some(ext) => {
                let d = choose|d: int|
                    0 <= d < k - 1 && path[d] == '.' && ext == path.subrange(
                        d + 1,
                        path.len() as int,
                    ) && forall|i: int| d < i < k - 1 ==> path[i] != '.' && path[i] != '/';
                assert(0 <= d < k && path[d] == '.' && ext == path.subrange(
                    d + 1,
                    path.len() as int,
                ) && forall|i: int| d < i < k ==> path[i] != '.' && path[i] != '/');
            },
            None => {
                assert forall|d: int| 0 <= d < k && path[d] == '.' implies exists|i: int|
                    d < i < k && path[i] == '/' by {
                    let i = choose|i: int| d < i < k - 1 && path[i] == '/';
                    assert(d < i < k && path[i] == '/');
                }
            },
        }
    } else if k > 0 && path[k - 1] == '.' {
        assert(0 <= k - 1 < k && path[k - 1] == '.' && path.subrange(k, path.len() as int)
            == path.subrange(k - 1 + 1, path.len() as int));
    } else if k > 0 {
        assert forall|d: int| 0 <= d < k && path[d] == '.' implies exists|i: int|
            d < i < k && path[i] == '/' by {
            assert(d < k - 1 < k && path[k - 1] == '/');
        }
    }
}

/// The extension of a path is the one text that follows one of its dots and
/// holds neither a dot nor a separator.
pub proof fn lemma_extension_is_unique_suffix(path: Seq<char>, ext: Seq<char>)
    ensures
        extension_of(path) == Some(ext) <==> is_extension(path, ext),
{
    let n = path.len() as int;
    lemma_extension_before(path, n);
    if is_extension(path, ext) {
        let d0 = n - ext.len() - 1;
        assert forall|i: int| d0 < i < n implies path[i] != '.' && path[i] != '/' by {
            assert(path.subrange(n - ext.len(), n)[i - (n - ext.len())] == path[i]);
        }
        match extension_of(path) {
            Some(found) => {
                let d = choose|d: int|
                    0 <= d < n && path[d] == '.' && found == path.subrange(d + 1, n)
                        && forall|i: int| d < i < n ==> path[i] != '.' && path[i] != '/';
                assert(d == d0);
            },
            None => {
                let i = choose|i: int| d0 < i < n && path[i] == '/';
                assert(false);
            },
        }
    }
    if extension_of(path) == Some(ext) {
        let d = choose|d: int|
            0 <= d < n && path[d] == '.' && ext == path.subrange(d + 1, n) && forall|i: int|
                d < i < n ==> path[i] != '.' && path[i] != '/';
        assert(path.subrange(n - ext.len(), n) == ext);
        assert forall|i: int| 0 <= i < ext.len() implies ext[i] != '.' && ext[i] != '/' by {
            assert(ext[i] == path[d + 1 + i]);
        }
    }
}

/// A path names a script exactly when it ends in `.js`.
pub proof fn lemma_script_path_ends_in_dot_js(path: Seq<char>)
    ensures
        is_script_path(path) <==> path.len() >= 3 && path.subrange(
            path.len() - 3,
            path.len() as int,
        ) == seq!['.', 'j', 's'],
{
    let n = path.len() as int;
    let js = script_extension();
    lemma_extension_is_unique_suffix(path, js);
    if n >= 3 && path.subrange(n - 3, n) == seq!['.', 'j', 's'] {
        let tail = path.subrange(n - 3, n);
        assert(tail[0] == '.' && tail[1] == 'j' && tail[2] == 's');
        assert(path.subrange(n - 2, n) =~= js);
        assert(is_extension(path, js));
    }
    if is_extension(path, js) {
        assert(path.subrange(n - 2, n)[0] == 'j' && path.subrange(n - 2, n)[1] == 's');
        assert(path.subrange(n - 3, n) =~= seq!['.', 'j', 's']);
    }
}

/// What was joined below a root is found again from that root.
pub proof fn lemma_join_then_path_to(root: PathView, rel: Seq<char>)
    requires
        rel.len() > 0 || root.path.len() == 0,
    ensures
        path_to(root, joined(root, rel)) == Some(rel),
        is_inside(root, joined(root, rel)),
{
    if root.path.len() > 0 {
        let whole = root.path + seq!['/'] + rel;
        assert(whole.subrange(0, root.path.len() as int) =~= root.path);
        assert(whole.subrange(root.path.len() as int + 1, whole.len() as int) =~= rel);
    }
}

/// A path below a root is the root joined with the path that leads to it.
pub proof fn lemma_path_to_then_join(root: PathView, inner: PathView)
    requires
        is_inside(root, inner),
    ensures
        joined(root, path_to(root, inner).unwrap()).fs == inner.fs,
        path_to(root, inner).unwrap().len() > 0 || root.path.len() == 0 ==> joined(
            root,
            path_to(root, inner).unwrap(),
        ) == inner,
{
    if root.path.len() > 0 {
        let rel = path_to(root, inner).unwrap();
        if rel.len() > 0 {
            assert(root.path + seq!['/'] + rel =~= inner.path);
        }
    }
}

impl FileSystemPath {
    /// The path `path` of the file system `fs`.
    pub fn new(fs: u64, path: &str) -> (res: FileSystemPath)
        ensures
            res@ == (PathView { fs, path: path@ }),
    {
        FileSystemPath { fs, path: String::from_str(path) }
    }

    /// A copy of this path, known to be equal to it.
    pub fn duplicate(&self) -> (res: FileSystemPath)
        ensures
            res == *self,
    {
        FileSystemPath { fs: self.fs, path: self.path.clone() }
    }

    /// Whether both name the same place.
    pub fn same_as(&self, other: &FileSystemPath) -> (res: bool)
        ensures
            res == (self@ == other@),
    {
        self.fs == other.fs && self.path == other.path
    }

    /// The path `rel` below this one.
    pub fn join(&self, rel: &str) -> (res: FileSystemPath)
        ensures
            res@ == joined(self@, rel@),
    {
        let own_len = self.path.as_str().unicode_len();
        let rel_len = rel.unicode_len();
        if own_len == 0 {
            FileSystemPath { fs: self.fs, path: String::from_str(rel) }
        } else if rel_len == 0 {
            self.duplicate()
        } else {
            let mut path = self.path.clone();
            path.append("/");
            path.append(rel);
            proof {
                reveal_strlit("/");
                assert("/"@ =~= seq!['/']);
            }
            FileSystemPath { fs: self.fs, path }
        }
    }

    /// The path that leads from this path to `inner`, where `inner` lies below
    /// it in the same file system.
    pub fn get_path_to(&self, inner: &FileSystemPath) -> (res: Option<String>)
        ensures
            res is Some == is_inside(self@, inner@),
            res matches Some(rel) ==> Some(rel@) == path_to(self@, inner@),
    {
        if self.fs != inner.fs {
            return None;
        }
        let root = self.path.as_str();
        let whole = inner.path.as_str();
        let root_len = root.unicode_len();
        let whole_len = whole.unicode_len();
        if root_len == 0 {
            return Some(inner.path.clone());
        }
        if whole_len <= root_len {
            return None;
        }
        let head = String::from_str(whole.substring_char(0, root_len));
        if !(head == self.path) {
            return None;
        }
        if whole.get_char(root_len) != '/' {
            return None;
        }
        Some(String::from_str(whole.substring_char(root_len + 1, whole_len)))
    }

    /// Whether `inner` is a descendant of this path.
    pub fn is_inside(&self, inner: &FileSystemPath) -> (res: bool)
        ensures
            res == is_inside(self@, inner@),
    {
        self.get_path_to(inner).is_some()
    }

    /// The extension of the path, without its dot.
    pub fn extension(&self) -> (res: Option<String>)
        ensures
            res is Some == extension_of(self.path@) is Some,
            res matches Some(ext) ==> Some(ext@) == extension_of(self.path@),
    {
        let path = self.path.as_str();
        let len = path.unicode_len();
        let mut k: usize = len;
        while k > 0
            invariant
                k <= len,
                len == path@.len(),
                path@ == self.path@,
                extension_of(self.path@) == extension_before(self.path@, k as int),
            decreases k,
        {
            let c = path.get_char(k - 1);
            if c == '.' {
                return Some(String::from_str(path.substring_char(k, len)));
            }
            if c == '/' {
                return None;
            }
            k = k - 1;
        }
        None
    }

    /// Whether the path names a directly loadable script.
    pub fn is_script(&self) -> (res: bool)
        ensures
            res == is_script_path(self.path@),
    {
        match self.extension() {
            Some(ext) => {
                proof {
                    reveal_strlit("js");
                    assert("js"@ =~= script_extension());
                }
                ext.as_str().unicode_len() == 2 && ext == String::from_str("js")
            },
            None => false,
        }
    }
}

} // verus!
