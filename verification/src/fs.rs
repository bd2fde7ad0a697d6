//! The filesystem of one node: a table from paths to files, the files'
//! state machines, and the node's configuration.
//!
//! A file is known by its number in the filesystem. A file never leaves the
//! filesystem: wiping the table of paths leaves the files to the handles
//! that were opened before.

use crate::state::{FileState, FileStateView, FsConfig, Poll, poll_of, MAX_TIME};
use crate::content::max_content_len;
use vstd::prelude::*;

verus! {

/// The errors of the filesystem.
#[derive(Debug, Clone, Copy, PartialEq, Eq, Structural)]
pub enum FsError {
    /// Opened without `create` or `create_new`, and no file is at the path.
    NotFound,
    /// Opened with `create_new`, and a file is at the path.
    AlreadyExists,
    /// A read through a handle that may not read, a write or flush through
    /// one that may not write, or a seek to before the start of the file.
    InvalidInput,
    /// A seek was started while another one was not completed.
    OperationInProgress,
}

/// The flags with which a file is opened. All are off at first.
#[derive(Debug, Clone, Copy, PartialEq, Eq, Structural)]
pub struct OpenOptions {
    pub read: bool,
    pub write: bool,
    pub append: bool,
    pub truncate: bool,
    pub create: bool,
    pub create_new: bool,
}

/// A handle to an open file: what it may do, its cursor, and the file's
/// number in the filesystem that it was opened in.
#[derive(Debug, PartialEq, Eq, Structural)]
pub struct File {
    pub allow_write: bool,
    pub allow_read: bool,
    pub append: bool,
    /// The position of a seek that was started and is not completed.
    pub pending_seek: Option<i64>,
    /// Whether the last poll of a write through this handle was pending.
    pub pending_write: bool,
    pub cursor: u64,
    pub file: usize,
}

struct PathEntry {
    path: String,
    file: usize,
}

pub struct Filesystem {
    paths: Vec<PathEntry>,
    files: Vec<FileState>,
    config: FsConfig,
}

/// A filesystem as a map from paths to file numbers, the files' states by
/// number, and the configuration.
pub ghost struct FilesystemView {
    pub paths: Map<Seq<char>, int>,
    pub files: Seq<FileStateView>,
    pub config: FsConfig,
}

impl FilesystemView {
    /// Every path leads to a file, and every file and the configuration are
    /// well-formed.
    pub open spec fn wf(self) -> bool {
        &&& forall|p: Seq<char>| #[trigger]
            self.paths.contains_key(p) ==> 0 <= self.paths[p] < self.files.len()
        &&& forall|i: int| 0 <= i < self.files.len() ==> (#[trigger] self.files[i]).wf()
        &&& self.config.wf()
    }

    /// The filesystem with the file `file` in the state `state`.
    pub open spec fn with_file(self, file: int, state: FileStateView) -> FilesystemView {
        FilesystemView { files: self.files.update(file, state), ..self }
    }

    /// The handle that `options` give to the file `file`.
    pub open spec fn handle(options: OpenOptions, file: int) -> File {
        File {
            allow_read: options.read,
            allow_write: options.write || options.append,
            append: options.append,
            pending_seek: None,
            pending_write: false,
            cursor: 0,
            file: file as usize,
        }
    }

    /// What opening `path` with `options` does to the filesystem, and what
    /// it returns.
    ///
    /// No file at the path: with `create` or `create_new` a new, empty file
    /// is put there and opened; else `NotFound`. A file at the path: with
    /// `create_new`, `AlreadyExists`; else it is opened, and with `truncate`
    /// it is empty and clean from then on.
    pub open spec fn open_step(self, options: OpenOptions, path: Seq<char>) -> (
        FilesystemView,
        Result<File, FsError>,
    ) {
        let empty = FileStateView::Clean { new: Seq::<u8>::empty() };
        if self.paths.contains_key(path) {
            let file = self.paths[path];
            if options.create_new {
                (self, Err(FsError::AlreadyExists))
            } else if options.truncate {
                (self.with_file(file, empty), Ok(Self::handle(options, file)))
            } else {
                (self, Ok(Self::handle(options, file)))
            }
        } else if options.create || options.create_new {
            (
                FilesystemView {
                    paths: self.paths.insert(path, self.files.len() as int),
                    files: self.files.push(empty),
                    config: self.config,
                },
                Ok(Self::handle(options, self.files.len() as int)),
            )
        } else {
            (self, Err(FsError::NotFound))
        }
    }
}

/// Whether some entry has the path `path`.
spec fn has_path(entries: Seq<PathEntry>, path: Seq<char>) -> bool {
    exists|i: int| 0 <= i < entries.len() && (#[trigger] entries[i]).path@ == path
}

/// An entry with the path `path`, where there is one.
spec fn entry_of(entries: Seq<PathEntry>, path: Seq<char>) -> int {
    choose|i: int| 0 <= i < entries.len() && (#[trigger] entries[i]).path@ == path
}

/// No two entries have the same path.
spec fn distinct_paths(entries: Seq<PathEntry>) -> bool {
    forall|i: int, j: int|
        0 <= i < j < entries.len() ==> (#[trigger] entries[i]).path@ != (#[trigger] entries[j]).path@
}

/// The map that the entries stand for.
spec fn paths_map(entries: Seq<PathEntry>) -> Map<Seq<char>, int> {
    Map::new(
        |path: Seq<char>| has_path(entries, path),
        |path: Seq<char>| entries[entry_of(entries, path)].file as int,
    )
}

/// With distinct paths, the entry at `i` is the one that the map finds for
/// its path.
proof fn lemma_entry_found(entries: Seq<PathEntry>, i: int)
    requires
        distinct_paths(entries),
        0 <= i < entries.len(),
    ensures
        has_path(entries, entries[i].path@),
        entry_of(entries, entries[i].path@) == i,
        paths_map(entries).contains_key(entries[i].path@),
        paths_map(entries)[entries[i].path@] == entries[i].file,
{
    let j = entry_of(entries, entries[i].path@);
    assert(0 <= j < entries.len() && entries[j].path@ == entries[i].path@);
    if j < i {
        assert(entries[j].path@ != entries[i].path@);
    } else if i < j {
        assert(entries[i].path@ != entries[j].path@);
    }
}

/// A new entry under a path that no entry has is one more key of the map.
proof fn lemma_entry_pushed(entries: Seq<PathEntry>, entry: PathEntry)
    requires
        distinct_paths(entries),
        !has_path(entries, entry.path@),
    ensures
        distinct_paths(entries.push(entry)),
        paths_map(entries.push(entry)) == paths_map(entries).insert(entry.path@, entry.file as int),
{
    let grown = entries.push(entry);
    assert forall|i: int, j: int| 0 <= i < j < grown.len() implies (#[trigger] grown[i]).path@ != (
    #[trigger] grown[j]).path@ by {
        if j == entries.len() {
            assert(entries[i].path@ != entry.path@);
        } else {
            assert(entries[i].path@ != entries[j].path@);
        }
    }
    assert forall|path: Seq<char>| #[trigger]
        paths_map(grown).contains_key(path) <==> paths_map(entries).insert(
            entry.path@,
            entry.file as int,
        ).contains_key(path) by {
        if has_path(entries, path) {
            let i = entry_of(entries, path);
            assert(grown[i].path@ == path);
        }
        if has_path(grown, path) && path != entry.path@ {
            let i = entry_of(grown, path);
            assert(entries[i].path@ == path);
        }
        assert(grown[entries.len() as int].path@ == entry.path@);
    }
    assert forall|path: Seq<char>| #[trigger] paths_map(grown).contains_key(path) implies paths_map(
        grown,
    )[path] == paths_map(entries).insert(entry.path@, entry.file as int)[path] by {
        let i = entry_of(grown, path);
        lemma_entry_found(grown, i);
        if i < entries.len() {
            lemma_entry_found(entries, i);
        }
    }
    assert(paths_map(grown) =~= paths_map(entries).insert(entry.path@, entry.file as int));
}

impl View for Filesystem {
    type V = FilesystemView;

    closed spec fn view(&self) -> FilesystemView {
        FilesystemView {
            paths: paths_map(self.paths@),
            files: Seq::new(self.files@.len(), |i: int| self.files@[i]@),
            config: self.config,
        }
    }
}

impl Filesystem {
    /// The invariant: no path stands twice in the table, every path leads to
    /// a file, and every file and the configuration are well-formed.
    pub closed spec fn wf(&self) -> bool {
        &&& distinct_paths(self.paths@)
        &&& forall|i: int|
            0 <= i < self.paths@.len() ==> (#[trigger] self.paths@[i]).file < self.files@.len()
        &&& forall|i: int| 0 <= i < self.files@.len() ==> (#[trigger] self.files@[i])@.wf()
        &&& self.config.wf()
    }

    /// A well-formed filesystem has a well-formed view.
    pub proof fn lemma_view_wf(&self)
        requires
            self.wf(),
        ensures
            self@.wf(),
    {
        assert forall|p: Seq<char>| #[trigger] self@.paths.contains_key(p) implies 0
            <= self@.paths[p] < self@.files.len() by {
            let i = entry_of(self.paths@, p);
            assert(self.paths@[i].file < self.files@.len());
        }
        assert forall|i: int| 0 <= i < self@.files.len() implies (#[trigger] self@.files[i]).wf() by {
            assert(self.files@[i]@.wf());
        }
    }

    /// A filesystem without files, with the configuration of a fresh node.
    pub fn new() -> (fs: Filesystem)
        ensures
            fs.wf(),
            fs@.paths == Map::<Seq<char>, int>::empty(),
            fs@.files == Seq::<FileStateView>::empty(),
            fs@.config == (FsConfig { write_delay: 0, flush_delay: 0, allow_dirty_write: true }),
    {
        let fs = Filesystem { paths: Vec::new(), files: Vec::new(), config: FsConfig::new() };
        assert(fs@.paths =~= Map::<Seq<char>, int>::empty());
        assert(fs@.files =~= Seq::<FileStateView>::empty());
        fs
    }

    /// The node's configuration.
    pub fn config(&self) -> (config: FsConfig)
        ensures
            config == self@.config,
    {
        self.config
    }

    /// Replaces the configuration. No file changes: a flush under way keeps
    /// its deadline.
    pub fn configure(&mut self, config: FsConfig)
        requires
            old(self).wf(),
            config.wf(),
        ensures
            final(self).wf(),
            final(self)@ == (FilesystemView { config, ..old(self)@ }),
    {
        self.config = config;
        assert(self@.files =~= old(self)@.files);
    }

    /// Wipes the table of paths and puts the configuration back to that of a
    /// fresh node. The files stay, for the handles opened before: such a
    /// handle works on its file as before, and no path leads to it any more.
    pub fn reset(&mut self)
        requires
            old(self).wf(),
        ensures
            final(self).wf(),
            final(self)@ == (FilesystemView {
                paths: Map::<Seq<char>, int>::empty(),
                files: old(self)@.files,
                config: FsConfig { write_delay: 0, flush_delay: 0, allow_dirty_write: true },
            }),
    {
        self.paths = Vec::new();
        self.config = FsConfig::new();
        assert(self@.paths =~= Map::<Seq<char>, int>::empty());
        assert(self@.files =~= old(self)@.files);
    }

    /// The number of files, those that no path leads to any more included.
    pub fn file_count(&self) -> (count: usize)
        ensures
            count == self@.files.len(),
    {
        self.files.len()
    }

    /// The state of the file `file`.
    pub fn state(&self, file: usize) -> (state: &FileState)
        requires
            file < self@.files.len(),
        ensures
            state@ == self@.files[file as int],
    {
        &self.files[file]
    }

    /// The number of the file at `path`, where there is one.
    pub fn lookup(&self, path: &str) -> (file: Option<usize>)
        requires
            self.wf(),
        ensures
            file == (if self@.paths.contains_key(path@) {
                Some(self@.paths[path@] as usize)
            } else {
                None
            }),
    {
        let wanted = path.to_owned();
        let mut i: usize = 0;
        while i < self.paths.len()
            invariant
                self.wf(),
                wanted@ == path@,
                i <= self.paths@.len(),
                forall|j: int| 0 <= j < i ==> (#[trigger] self.paths@[j]).path@ != path@,
            decreases self.paths@.len() - i,
        {
            if self.paths[i].path == wanted {
                proof {
                    lemma_entry_found(self.paths@, i as int);
                }
                return Some(self.paths[i].file);
            }
            i += 1;
        }
        assert(!has_path(self.paths@, path@));
        None
    }

    /// Opens the file at `path` with `options`, and creates or empties it
    /// first where they say so.
    pub fn open(&mut self, options: &OpenOptions, path: &str) -> (opened: Result<File, FsError>)
        requires
            old(self).wf(),
        ensures
            final(self).wf(),
            final(self)@ == old(self)@.open_step(*options, path@).0,
            opened == old(self)@.open_step(*options, path@).1,
    {
        let file = match self.lookup(path) {
            Some(file) => {
                if options.create_new {
                    return Err(FsError::AlreadyExists);
                }
                proof {
                    self.lemma_view_wf();
                }
                file
            },
            None => {
                if options.create || options.create_new {
                    let file = self.files.len();
                    let entry = PathEntry { path: path.to_owned(), file };
                    proof {
                        lemma_entry_pushed(self.paths@, entry);
                    }
                    self.files.push(FileState::empty());
                    self.paths.push(entry);
                    assert(self@.files =~= old(self)@.files.push(
                        FileStateView::Clean { new: Seq::<u8>::empty() },
                    ));
                    return Ok(
                        File {
                            allow_read: options.read,
                            allow_write: options.write || options.append,
                            append: options.append,
                            pending_seek: None,
                            pending_write: false,
                            cursor: 0,
                            file,
                        },
                    );
                } else {
                    return Err(FsError::NotFound);
                }
            },
        };
        if options.truncate {
            self.files[file] = FileState::empty();
            assert(self@.files =~= old(self)@.files.update(
                file as int,
                FileStateView::Clean { new: Seq::<u8>::empty() },
            ));
        }
        Ok(
            File {
                allow_read: options.read,
                allow_write: options.write || options.append,
                append: options.append,
                pending_seek: None,
                pending_write: false,
                cursor: 0,
                file,
            },
        )
    }

    /// One poll of a flush of the file `file` at `now`.
    pub fn poll_flush(&mut self, file: usize, now: u64) -> (poll: Poll<()>)
        requires
            old(self).wf(),
            file < old(self)@.files.len(),
            now <= MAX_TIME,
        ensures
            final(self).wf(),
            final(self)@ == old(self)@.with_file(
                file as int,
                old(self)@.files[file as int].flush_step(old(self)@.config, now).0,
            ),
            poll == poll_of(old(self)@.files[file as int].flush_step(old(self)@.config, now).1, ()),
    {
        let config = self.config;
        let poll = self.files[file].poll_flush(now, &config);
        assert(self@.files =~= old(self)@.files.update(file as int, self.files@[file as int]@));
        poll
    }

    /// Whether a write of `len` bytes to the file `file`, through a handle
    /// with this cursor and mode, keeps the file within what a buffer holds.
    pub fn write_fits(&self, file: usize, append: bool, cursor: u64, len: usize) -> (fits: bool)
        requires
            file < self@.files.len(),
        ensures
            fits == (self@.files[file as int].write_offset(append, cursor as int) + len
                <= max_content_len()),
    {
        self.files[file].write_fits(append, cursor, len)
    }

    /// One poll of a write of `buf` to the file `file` at `now`, through a
    /// handle with this cursor and mode; `resumed` says that the handle's
    /// last poll of a write was pending.
    pub fn poll_write(
        &mut self,
        file: usize,
        resumed: bool,
        append: bool,
        cursor: u64,
        buf: &[u8],
        now: u64,
    ) -> (poll: Poll<u64>)
        requires
            old(self).wf(),
            file < old(self)@.files.len(),
            now <= MAX_TIME,
            old(self)@.files[file as int].write_offset(append, cursor as int) + buf@.len()
                <= max_content_len(),
        ensures
            final(self).wf(),
            final(self)@ == old(self)@.with_file(
                file as int,
                old(self)@.files[file as int].write_step(
                    old(self)@.config,
                    resumed,
                    append,
                    cursor as int,
                    buf@,
                    now,
                ).0,
            ),
            poll == poll_of(
                old(self)@.files[file as int].write_step(
                    old(self)@.config,
                    resumed,
                    append,
                    cursor as int,
                    buf@,
                    now,
                ).1,
                old(self)@.files[file as int].write_offset(append, cursor as int) as u64,
            ),
    {
        let config = self.config;
        let poll = self.files[file].poll_write(&config, resumed, append, cursor, buf, now);
        assert(self@.files =~= old(self)@.files.update(file as int, self.files@[file as int]@));
        poll
    }
}

} // verus!
