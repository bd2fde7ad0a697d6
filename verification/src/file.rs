//! Opening files, and what a handle does: seek, read, write and flush.
//!
//! A handle is a plain record. Each operation takes the filesystem that the
//! handle was opened in, and those that depend on time take the current
//! virtual time.

use crate::content::{max_content_len, run_len};
use crate::fs::{File, Filesystem, FilesystemView, FsError, OpenOptions};
use crate::state::{poll_of, FileStateView, Poll, MAX_TIME};
use vstd::prelude::*;
use vstd::slice::{slice_subrange, slice_to_vec};

verus! {

/// Where a seek goes: to an offset from the start, from the end of the
/// content, or from the cursor.
#[derive(Debug, Clone, Copy, PartialEq, Eq, Structural)]
pub enum SeekFrom {
    Start(u64),
    End(i64),
    Current(i64),
}

/// The position that a seek to `pos` resolves to, for a file of `len` bytes
/// and a handle with the cursor at `cursor`. An offset from the start that is
/// past `i64::MAX` reads as a signed number, which is negative.
pub open spec fn seek_target(pos: SeekFrom, len: int, cursor: int) -> int {
    match pos {
        SeekFrom::Start(offset) => if offset <= i64::MAX {
            offset as int
        } else {
            offset - 0x1_0000_0000_0000_0000
        },
        SeekFrom::End(offset) => len + offset,
        SeekFrom::Current(offset) => cursor + offset,
    }
}

/// What one read of at most `max` bytes at `cursor` returns: the bytes from
/// the cursor to the end of the content or of the segment that holds the
/// cursor; nothing at or behind the end.
pub open spec fn read_run(content: Seq<u8>, cursor: int, max: int) -> Seq<u8> {
    let run = run_len(content.len() as int, cursor);
    if cursor >= content.len() {
        Seq::empty()
    } else if max < run {
        content.subrange(cursor, cursor + max)
    } else {
        content.subrange(cursor, cursor + run)
    }
}

impl Default for OpenOptions {
    /// Options with every flag off.
    fn default() -> (options: OpenOptions)
        ensures
            options == (OpenOptions {
                read: false,
                write: false,
                append: false,
                truncate: false,
                create: false,
                create_new: false,
            }),
    {
        OpenOptions::new()
    }
}

impl OpenOptions {
    /// Options with every flag off.
    pub fn new() -> (options: OpenOptions)
        ensures
            options == (OpenOptions {
                read: false,
                write: false,
                append: false,
                truncate: false,
                create: false,
                create_new: false,
            }),
    {
        OpenOptions {
            read: false,
            write: false,
            append: false,
            truncate: false,
            create: false,
            create_new: false,
        }
    }

    /// Sets whether the handle may read.
    pub fn read(&mut self, read: bool) -> (options: &mut OpenOptions)
        ensures
            *options == (OpenOptions { read, ..*old(self) }),
            *final(self) == *final(options),
    {
        self.read = read;
        self
    }

    /// Sets whether the handle may write.
    pub fn write(&mut self, write: bool) -> (options: &mut OpenOptions)
        ensures
            *options == (OpenOptions { write, ..*old(self) }),
            *final(self) == *final(options),
    {
        self.write = write;
        self
    }

    /// Sets whether the handle writes at the end of the file, whatever its
    /// cursor. A handle that appends may write.
    pub fn append(&mut self, append: bool) -> (options: &mut OpenOptions)
        ensures
            *options == (OpenOptions { append, ..*old(self) }),
            *final(self) == *final(options),
    {
        self.append = append;
        self
    }

    /// Sets whether opening empties the file.
    pub fn truncate(&mut self, truncate: bool) -> (options: &mut OpenOptions)
        ensures
            *options == (OpenOptions { truncate, ..*old(self) }),
            *final(self) == *final(options),
    {
        self.truncate = truncate;
        self
    }

    /// Sets whether opening creates the file where there is none.
    pub fn create(&mut self, create: bool) -> (options: &mut OpenOptions)
        ensures
            *options == (OpenOptions { create, ..*old(self) }),
            *final(self) == *final(options),
    {
        self.create = create;
        self
    }

    /// Sets whether opening has to create the file, and fails where there is
    /// one.
    pub fn create_new(&mut self, create_new: bool) -> (options: &mut OpenOptions)
        ensures
            *options == (OpenOptions { create_new, ..*old(self) }),
            *final(self) == *final(options),
    {
        self.create_new = create_new;
        self
    }

    /// Opens the file at `path` in `fs`.
    pub fn open(&self, fs: &mut Filesystem, path: &str) -> (opened: Result<File, FsError>)
        requires
            old(fs).wf(),
        ensures
            final(fs).wf(),
            final(fs)@ == old(fs)@.open_step(*self, path@).0,
            opened == old(fs)@.open_step(*self, path@).1,
    {
        fs.open(self, path)
    }
}

impl File {
    /// The handle belongs to a file of `fs`.
    pub open spec fn wf(&self, fs: FilesystemView) -> bool {
        self.file < fs.files.len()
    }

    /// The state of the handle's file.
    pub open spec fn state(&self, fs: FilesystemView) -> FileStateView {
        fs.files[self.file as int]
    }

    /// The options to read an existing file.
    pub open spec fn open_options() -> OpenOptions {
        OpenOptions {
            read: true,
            write: false,
            append: false,
            truncate: false,
            create: false,
            create_new: false,
        }
    }

    /// The options to write a file from its start, creating or emptying it.
    pub open spec fn create_options() -> OpenOptions {
        OpenOptions {
            read: false,
            write: true,
            append: false,
            truncate: true,
            create: true,
            create_new: false,
        }
    }

    /// The options to read and write a file that has to be new.
    pub open spec fn create_new_options() -> OpenOptions {
        OpenOptions {
            read: true,
            write: true,
            append: false,
            truncate: false,
            create: false,
            create_new: true,
        }
    }

    /// Options with every flag off.
    pub fn options() -> (options: OpenOptions)
        ensures
            options == (OpenOptions {
                read: false,
                write: false,
                append: false,
                truncate: false,
                create: false,
                create_new: false,
            }),
    {
        OpenOptions::new()
    }

    /// Opens an existing file to read it.
    pub fn open(fs: &mut Filesystem, path: &str) -> (opened: Result<File, FsError>)
        requires
            old(fs).wf(),
        ensures
            final(fs).wf(),
            final(fs)@ == old(fs)@.open_step(Self::open_options(), path@).0,
            opened == old(fs)@.open_step(Self::open_options(), path@).1,
    {
        let mut options = File::options();
        options.read(true);
        options.open(fs, path)
    }

    /// Opens a file to write it, creating it where there is none and
    /// emptying it where there is one.
    pub fn create(fs: &mut Filesystem, path: &str) -> (opened: Result<File, FsError>)
        requires
            old(fs).wf(),
        ensures
            final(fs).wf(),
            final(fs)@ == old(fs)@.open_step(Self::create_options(), path@).0,
            opened == old(fs)@.open_step(Self::create_options(), path@).1,
    {
        let mut options = File::options();
        options.write(true).create(true).truncate(true);
        options.open(fs, path)
    }

    /// Creates a file to read and write it; fails where there is one.
    pub fn create_new(fs: &mut Filesystem, path: &str) -> (opened: Result<File, FsError>)
        requires
            old(fs).wf(),
        ensures
            final(fs).wf(),
            final(fs)@ == old(fs)@.open_step(Self::create_new_options(), path@).0,
            opened == old(fs)@.open_step(Self::create_new_options(), path@).1,
    {
        let mut options = File::options();
        options.read(true).write(true).create_new(true);
        options.open(fs, path)
    }

    /// The length of the file's content in memory.
    pub fn len(&self, fs: &Filesystem) -> (len: u64)
        requires
            self.file < fs@.files.len(),
        ensures
            len == self.state(fs@).new().len(),
    {
        fs.state(self.file).new().len() as u64
    }

    /// Starts a seek to `pos`. The position is resolved now, against the
    /// content's length and the cursor as they are, and takes effect when
    /// the seek is completed. Fails where a seek is already started. A
    /// position past `i64::MAX` cannot be held, so it is left out.
    pub fn start_seek(&mut self, fs: &Filesystem, pos: SeekFrom) -> (started: Result<(), FsError>)
        requires
            old(self).wf(fs@),
            old(self).pending_seek is None ==> seek_target(
                pos,
                old(self).state(fs@).new().len() as int,
                old(self).cursor as int,
            ) <= i64::MAX,
        ensures
            old(self).pending_seek is Some ==> started == Err::<(), FsError>(
                FsError::OperationInProgress,
            ) && *final(self) == *old(self),
            old(self).pending_seek is None ==> started == Ok::<(), FsError>(()) && *final(self) == (
                File {
                    pending_seek: Some(
                        seek_target(
                            pos,
                            old(self).state(fs@).new().len() as int,
                            old(self).cursor as int,
                        ) as i64,
                    ),
                    ..*old(self)
                }),
    {
        if self.pending_seek.is_some() {
            return Err(FsError::OperationInProgress);
        }
        let target: i64 = match pos {
            SeekFrom::Start(offset) => {
                if offset <= 0x7FFF_FFFF_FFFF_FFFF {
                    offset as i64
                } else {
                    (offset - 0x8000_0000_0000_0000) as i64 + i64::MIN
                }
            },
            SeekFrom::End(offset) => (self.len(fs) as i128 + offset as i128) as i64,
            SeekFrom::Current(offset) => (self.cursor as i128 + offset as i128) as i64,
        };
        self.pending_seek = Some(target);
        Ok(())
    }

    /// Completes the seek that was started: the cursor is at the position
    /// that the seek resolved to, and that position is returned. A position
    /// before the start of the file is an error and leaves the cursor where
    /// it was. Either way no seek is pending afterwards.
    pub fn poll_complete(&mut self) -> (done: Result<u64, FsError>)
        requires
            old(self).pending_seek is Some,
        ensures
            old(self).pending_seek->0 < 0 ==> done == Err::<u64, FsError>(FsError::InvalidInput)
                && *final(self) == (File { pending_seek: None, ..*old(self) }),
            old(self).pending_seek->0 >= 0 ==> done == Ok::<u64, FsError>(
                old(self).pending_seek->0 as u64,
            ) && *final(self) == (File {
                pending_seek: None,
                cursor: old(self).pending_seek->0 as u64,
                ..*old(self)
            }),
    {
        let target: i64 = self.pending_seek.unwrap();
        self.pending_seek = None;
        if target < 0 {
            Err(FsError::InvalidInput)
        } else {
            self.cursor = target as u64;
            Ok(self.cursor)
        }
    }

    /// Where a write through this handle lands in its file.
    pub open spec fn write_offset(&self, fs: FilesystemView) -> int {
        self.state(fs).write_offset(self.append, self.cursor as int)
    }

    /// One poll of a write through this handle at `now`, on the model: the
    /// file's state after it, and until when the write has to wait.
    pub open spec fn write_step(&self, fs: FilesystemView, data: Seq<u8>, now: u64) -> (
        FileStateView,
        Option<u64>,
    ) {
        self.state(fs).write_step(
            fs.config,
            self.pending_write,
            self.append,
            self.cursor as int,
            data,
            now,
        )
    }

    /// Whether a write of `len` bytes through this handle keeps its file
    /// within what a buffer holds.
    pub fn write_fits(&self, fs: &Filesystem, len: usize) -> (fits: bool)
        requires
            self.file < fs@.files.len(),
        ensures
            fits == (self.write_offset(fs@) + len <= max_content_len()),
    {
        fs.write_fits(self.file, self.append, self.cursor, len)
    }

    /// One poll of a write of `buf` at `now`.
    ///
    /// A handle that may not write gets `InvalidInput`, and nothing changes.
    /// Else the file takes one step of a write. Where the step is done, all
    /// of `buf` is written where the write lands, the cursor stands behind
    /// the written bytes, and the length of `buf` is returned. Where it is
    /// not, the poll is pending until the flush that the write waits for is
    /// done, and the handle remembers that its write is waiting.
    pub fn poll_write(&mut self, fs: &mut Filesystem, buf: &[u8], now: u64) -> (poll: Poll<
        Result<usize, FsError>,
    >)
        requires
            old(fs).wf(),
            old(self).wf(old(fs)@),
            now <= MAX_TIME,
            old(self).allow_write ==> old(self).write_offset(old(fs)@) + buf@.len()
                <= max_content_len(),
        ensures
            final(fs).wf(),
            final(self).wf(final(fs)@),
            !old(self).allow_write ==> {
                &&& poll == Poll::Ready(Err::<usize, FsError>(FsError::InvalidInput))
                &&& final(fs)@ == old(fs)@
                &&& *final(self) == *old(self)
            },
            old(self).allow_write ==> {
                &&& final(fs)@ == old(fs)@.with_file(
                    old(self).file as int,
                    old(self).write_step(old(fs)@, buf@, now).0,
                )
                &&& poll == poll_of(
                    old(self).write_step(old(fs)@, buf@, now).1,
                    Ok::<usize, FsError>(buf.len()),
                )
                &&& *final(self) == (match old(self).write_step(old(fs)@, buf@, now).1 {
                    None => File {
                        pending_write: false,
                        cursor: (old(self).write_offset(old(fs)@) + buf@.len()) as u64,
                        ..*old(self)
                    },
                    Some(_) => File { pending_write: true, ..*old(self) },
                })
            },
    {
        if !self.allow_write {
            return Poll::Ready(Err(FsError::InvalidInput));
        }
        match fs.poll_write(self.file, self.pending_write, self.append, self.cursor, buf, now) {
            Poll::Ready(offset) => {
                self.pending_write = false;
                self.cursor = offset + buf.len() as u64;
                Poll::Ready(Ok(buf.len()))
            },
            Poll::Pending(until) => {
                self.pending_write = true;
                Poll::Pending(until)
            },
        }
    }

    /// What a poll of a flush through this handle does to the filesystem.
    pub open spec fn flushed(&self, fs: FilesystemView, now: u64) -> FilesystemView {
        if self.allow_write {
            fs.with_file(self.file as int, self.state(fs).flush_step(fs.config, now).0)
        } else {
            fs
        }
    }

    /// What a poll of a flush through this handle says.
    pub open spec fn flush_poll(&self, fs: FilesystemView, now: u64) -> Poll<Result<(), FsError>> {
        if self.allow_write {
            poll_of(self.state(fs).flush_step(fs.config, now).1, Ok(()))
        } else {
            Poll::Ready(Err(FsError::InvalidInput))
        }
    }

    /// One poll of a flush at `now`. A handle that may not write gets
    /// `InvalidInput`, and nothing changes. Else the file takes one step of
    /// a flush, and the poll is pending until the flush is done.
    fn poll_flush_inner(&self, fs: &mut Filesystem, now: u64) -> (poll: Poll<Result<(), FsError>>)
        requires
            old(fs).wf(),
            self.wf(old(fs)@),
            now <= MAX_TIME,
        ensures
            final(fs).wf(),
            final(fs)@ == self.flushed(old(fs)@, now),
            poll == self.flush_poll(old(fs)@, now),
    {
        if !self.allow_write {
            return Poll::Ready(Err(FsError::InvalidInput));
        }
        match fs.poll_flush(self.file, now) {
            Poll::Ready(_) => Poll::Ready(Ok(())),
            Poll::Pending(until) => Poll::Pending(until),
        }
    }

    /// One poll of a flush at `now`: the file's content in memory becomes
    /// the durable one, at once or at the deadline that the poll gives.
    pub fn poll_flush(&self, fs: &mut Filesystem, now: u64) -> (poll: Poll<Result<(), FsError>>)
        requires
            old(fs).wf(),
            self.wf(old(fs)@),
            now <= MAX_TIME,
        ensures
            final(fs).wf(),
            final(fs)@ == self.flushed(old(fs)@, now),
            poll == self.flush_poll(old(fs)@, now),
    {
        self.poll_flush_inner(fs, now)
    }

    /// One poll of a shutdown at `now`: a flush under another name.
    pub fn poll_shutdown(&self, fs: &mut Filesystem, now: u64) -> (poll: Poll<Result<(), FsError>>)
        requires
            old(fs).wf(),
            self.wf(old(fs)@),
            now <= MAX_TIME,
        ensures
            final(fs).wf(),
            final(fs)@ == self.flushed(old(fs)@, now),
            poll == self.flush_poll(old(fs)@, now),
    {
        self.poll_flush(fs, now)
    }

    /// One poll, at `now`, of making the file's content and metadata
    /// durable. The filesystem keeps no metadata: this is a flush.
    pub fn sync_all(&self, fs: &mut Filesystem, now: u64) -> (poll: Poll<Result<(), FsError>>)
        requires
            old(fs).wf(),
            self.wf(old(fs)@),
            now <= MAX_TIME,
        ensures
            final(fs).wf(),
            final(fs)@ == self.flushed(old(fs)@, now),
            poll == self.flush_poll(old(fs)@, now),
    {
        self.poll_flush_inner(fs, now)
    }

    /// One poll, at `now`, of making the file's content durable: a flush.
    pub fn sync_data(&self, fs: &mut Filesystem, now: u64) -> (poll: Poll<Result<(), FsError>>)
        requires
            old(fs).wf(),
            self.wf(old(fs)@),
            now <= MAX_TIME,
        ensures
            final(fs).wf(),
            final(fs)@ == self.flushed(old(fs)@, now),
            poll == self.flush_poll(old(fs)@, now),
    {
        self.sync_all(fs, now)
    }

    /// Reads at most `max` bytes at the cursor, from the file's content in
    /// memory whatever the file's state, and moves the cursor behind them.
    /// One read ends where the content ends or, before that, where the
    /// segment of the buffer that holds the cursor ends. At or behind the end
    /// of the content it reads nothing. A handle that may not read gets
    /// `InvalidInput`, and its cursor stays.
    pub fn poll_read(&mut self, fs: &Filesystem, max: usize) -> (read: Result<Vec<u8>, FsError>)
        requires
            old(self).wf(fs@),
        ensures
            final(self).wf(fs@),
            !old(self).allow_read ==> read == Err::<Vec<u8>, FsError>(FsError::InvalidInput)
                && *final(self) == *old(self),
            old(self).allow_read ==> {
                &&& read is Ok
                &&& read->Ok_0@ == read_run(
                    old(self).state(fs@).new(),
                    old(self).cursor as int,
                    max as int,
                )
                &&& *final(self) == (File {
                    cursor: (old(self).cursor + read->Ok_0@.len()) as u64,
                    ..*old(self)
                })
            },
    {
        if !self.allow_read {
            return Err(FsError::InvalidInput);
        }
        let content = fs.state(self.file).new();
        if self.cursor >= content.len() as u64 {
            return Ok(Vec::new());
        }
        let run = content.read(self.cursor as usize);
        let taken: usize = if max < run.len() {
            max
        } else {
            run.len()
        };
        let data = slice_to_vec(slice_subrange(run, 0, taken));
        self.cursor = self.cursor + taken as u64;
        assert(data@ =~= read_run(
            old(self).state(fs@).new(),
            old(self).cursor as int,
            max as int,
        ));
        Ok(data)
    }
}

} // verus!
