//! Filesystems owned by a state.
//!
//! A state maps filesystem names to filesystem implementations with a
//! read/write/list capability. The store here is an in-memory one: an
//! association list from paths to file contents, looked up by first
//! match. Reads and lists never mutate; a write replaces the first
//! entry for the path or appends a new one.

use crate::assoc::{first_where, lemma_first_where_at, lemma_first_where_none};
use crate::errors::{Errors, FilesystemErrors};
use vstd::pervasive::VecAdditionalExecFns;
use vstd::prelude::*;

verus! {

/// Contents of one file, as returned by a read.
#[derive(Debug, PartialEq)]
pub struct FileInfo {
    pub content: String,
}

/// Mathematical value of a [`FileInfo`].
#[verifier::ext_equal]
pub ghost struct FileInfoV {
    pub content: Seq<char>,
}

impl View for FileInfo {
    type V = FileInfoV;

    open spec fn view(&self) -> FileInfoV {
        FileInfoV { content: self.content@ }
    }
}

impl Clone for FileInfo {
    fn clone(&self) -> (r: FileInfo)
        ensures
            r@ == self@,
    {
        FileInfo { content: self.content.clone() }
    }
}

/// One entry of a directory listing.
#[derive(Debug, PartialEq)]
pub struct DirItemInfo {
    pub path: String,
    pub is_file: bool,
}

/// Mathematical value of a [`DirItemInfo`].
#[verifier::ext_equal]
pub ghost struct DirItemInfoV {
    pub path: Seq<char>,
    pub is_file: bool,
}

impl View for DirItemInfo {
    type V = DirItemInfoV;

    open spec fn view(&self) -> DirItemInfoV {
        DirItemInfoV { path: self.path@, is_file: self.is_file }
    }
}

impl Clone for DirItemInfo {
    fn clone(&self) -> (r: DirItemInfo)
        ensures
            r@ == self@,
    {
        DirItemInfo { path: self.path.clone(), is_file: self.is_file }
    }
}

/// An in-memory filesystem: a path-to-content association list.
pub struct MemoryFilesystem {
    files: Vec<(String, String)>,
}

/// Mathematical value of a [`MemoryFilesystem`].
#[verifier::ext_equal]
pub ghost struct MemoryFilesystemV {
    pub files: Seq<(Seq<char>, Seq<char>)>,
}

impl View for MemoryFilesystem {
    type V = MemoryFilesystemV;

    closed spec fn view(&self) -> MemoryFilesystemV {
        MemoryFilesystemV { files: self.files@.map_values(|e: (String, String)| (e.0@, e.1@)) }
    }
}

/// Predicate selecting the store entry for `path`.
pub open spec fn path_is(path: Seq<char>) -> spec_fn((Seq<char>, Seq<char>)) -> bool {
    |e: (Seq<char>, Seq<char>)| e.0 == path
}

/// Index of the first entry stored for `path`, if any.
pub open spec fn find_file(fs: MemoryFilesystemV, path: Seq<char>) -> Option<int> {
    first_where(fs.files, path_is(path))
}

/// What a read returns: the stored content, or `FileNotFound`.
pub open spec fn spec_read(fs: MemoryFilesystemV, path: Seq<char>) -> Result<FileInfoV, Errors> {
    match find_file(fs, path) {
        Some(i) => Ok(FileInfoV { content: fs.files[i].1 }),
        None => Err(Errors::Fs(FilesystemErrors::FileNotFound)),
    }
}

/// The store after a write: the entry for `path` replaced, or a new
/// entry appended.
pub open spec fn spec_write(fs: MemoryFilesystemV, path: Seq<char>, content: Seq<char>) -> MemoryFilesystemV {
    match find_file(fs, path) {
        Some(i) => MemoryFilesystemV { files: fs.files.update(i, (path, content)) },
        None => MemoryFilesystemV { files: fs.files.push((path, content)) },
    }
}

/// What a list returns: one item, in store order, for every file whose
/// path begins with the given directory path.
pub open spec fn spec_list(files: Seq<(Seq<char>, Seq<char>)>, dir: Seq<char>) -> Seq<DirItemInfoV>
    decreases files.len(),
{
    if files.len() == 0 {
        Seq::empty()
    } else {
        let prev = spec_list(files.drop_last(), dir);
        if dir.is_prefix_of(files.last().0) {
            prev.push(DirItemInfoV { path: files.last().0, is_file: true })
        } else {
            prev
        }
    }
}

/// View of a read result, for stating contracts.
pub open spec fn file_result_view(r: Result<FileInfo, Errors>) -> Result<FileInfoV, Errors> {
    match r {
        Ok(f) => Ok(f@),
        Err(e) => Err(e),
    }
}

/// View of a list result, for stating contracts.
pub open spec fn dir_result_view(r: Result<Vec<DirItemInfo>, Errors>) -> Result<Seq<DirItemInfoV>, Errors> {
    match r {
        Ok(v) => Ok(v@.map_values(|d: DirItemInfo| d@)),
        Err(e) => Err(e),
    }
}

/// Whether `prefix` begins `s`, compared character by character.
pub fn str_starts_with(s: &String, prefix: &String) -> (r: bool)
    ensures
        r == prefix@.is_prefix_of(s@),
{
    let s_str = s.as_str();
    let p_str = prefix.as_str();
    let n = p_str.unicode_len();
    if n > s_str.unicode_len() {
        return false;
    }
    let mut i: usize = 0;
    while i < n
        invariant
            i <= n,
            n == p_str@.len(),
            n <= s_str@.len(),
            s_str@ == s@,
            p_str@ == prefix@,
            forall|j: int| 0 <= j < i ==> p_str@[j] == s_str@[j],
        decreases n - i,
    {
        if s_str.get_char(i) != p_str.get_char(i) {
            proof {
                assert(!prefix@.is_prefix_of(s@)) by {
                    if prefix@.is_prefix_of(s@) {
                        assert(prefix@[i as int] == s@.subrange(0, prefix@.len() as int)[i as int]);
                    }
                }
            }
            return false;
        }
        i = i + 1;
    }
    proof {
        assert(prefix@ =~= s@.subrange(0, prefix@.len() as int));
    }
    true
}

impl MemoryFilesystem {
    /// An empty store.
    pub fn new() -> (r: Self)
        ensures
            r@ == (MemoryFilesystemV { files: Seq::empty() }),
    {
        let r = MemoryFilesystem { files: Vec::new() };
        proof {
            assert(r@.files =~= Seq::<(Seq<char>, Seq<char>)>::empty());
        }
        r
    }

    /// Index of the first entry stored for `path`, if any.
    fn find_index(&self, path: &String) -> (r: Option<usize>)
        ensures
            match r {
                Some(i) => i < self.files.len() && find_file(self@, path@) == Some(i as int),
                None => find_file(self@, path@) is None,
            },
    {
        let ghost p = path_is(path@);
        let n = self.files.len();
        let mut i: usize = 0;
        while i < n
            invariant
                i <= n,
                n == self.files.len(),
                forall|j: int| 0 <= j < i ==> !p(self@.files[j]),
                p == path_is(path@),
            decreases n - i,
        {
            if self.files[i].0.eq(path) {
                proof {
                    lemma_first_where_at(self@.files, p, i as int);
                }
                return Some(i);
            }
            i = i + 1;
        }
        proof {
            lemma_first_where_none(self@.files, p);
        }
        None
    }

    /// Content stored under `path`, or `FileNotFound`.
    pub fn read_file_by_path(&self, path: &String) -> (r: Result<FileInfo, Errors>)
        ensures
            file_result_view(r) == spec_read(self@, path@),
    {
        match self.find_index(path) {
            Some(i) => Ok(FileInfo { content: self.files[i].1.clone() }),
            None => Err(Errors::Fs(FilesystemErrors::FileNotFound)),
        }
    }

    /// Replace or create the file at `path`. Always succeeds.
    pub fn write_file_by_path(&mut self, path: &String, content: &String) -> (r: Result<(), Errors>)
        ensures
            final(self)@ == spec_write(old(self)@, path@, content@),
            r == Ok::<(), Errors>(()),
    {
        match self.find_index(path) {
            Some(i) => {
                self.files.set(i, (path.clone(), content.clone()));
                proof {
                    assert(self@.files =~= spec_write(old(self)@, path@, content@).files);
                    assert(self@ =~= spec_write(old(self)@, path@, content@));
                }
            },
            None => {
                self.files.push((path.clone(), content.clone()));
                proof {
                    assert(self@.files =~= spec_write(old(self)@, path@, content@).files);
                    assert(self@ =~= spec_write(old(self)@, path@, content@));
                }
            },
        }
        Ok(())
    }

    /// Items for every file whose path begins with `path`, in store
    /// order. Always succeeds.
    pub fn list_dir_by_path(&self, path: &String) -> (r: Result<Vec<DirItemInfo>, Errors>)
        ensures
            dir_result_view(r) == Ok::<Seq<DirItemInfoV>, Errors>(spec_list(self@.files, path@)),
    {
        let n = self.files.len();
        let mut items: Vec<DirItemInfo> = Vec::new();
        let mut i: usize = 0;
        proof {
            assert(items@.map_values(|d: DirItemInfo| d@) =~= spec_list(self@.files.take(0), path@));
        }
        while i < n
            invariant
                i <= n,
                n == self.files.len(),
                items@.map_values(|d: DirItemInfo| d@) == spec_list(self@.files.take(i as int), path@),
            decreases n - i,
        {
            let ghost prev = self@.files.take(i as int);
            proof {
                assert(self@.files.take(i as int + 1).drop_last() =~= prev);
                assert(self@.files.take(i as int + 1).last() == self@.files[i as int]);
            }
            if str_starts_with(&self.files[i].0, path) {
                items.push(DirItemInfo { path: self.files[i].0.clone(), is_file: true });
                proof {
                    assert(items@.map_values(|d: DirItemInfo| d@) =~= spec_list(
                        self@.files.take(i as int + 1),
                        path@,
                    ));
                }
            } else {
                proof {
                    assert(items@.map_values(|d: DirItemInfo| d@) =~= spec_list(
                        self@.files.take(i as int + 1),
                        path@,
                    ));
                }
            }
            i = i + 1;
        }
        proof {
            assert(self@.files.take(n as int) =~= self@.files);
        }
        Ok(items)
    }
}

} // verus!
