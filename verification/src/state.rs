//! The state machine of one file, and the configuration that times it.
//!
//! A file is `Clean`, `Written` (dirty) or `Flush` (dirty, with a flush
//! under way). Virtual time is counted in nanoseconds from the start of the
//! simulation.

use crate::content::{content_bytes, content_limit, max_content_len, write_at};
use snap_buf::SnapBuf;
use vstd::prelude::*;

verus! {

/// The last instant of virtual time, and the longest delay, that the library
/// works with. A deadline is a time plus a delay, so it fits a `u64`.
pub const MAX_TIME: u64 = 0x3FFF_FFFF_FFFF_FFFF;

/// What an operation that may have to wait says: it is done, or the caller
/// has to ask again once virtual time has reached the instant given.
#[derive(Debug, PartialEq, Eq, Structural)]
pub enum Poll<T> {
    Ready(T),
    Pending(u64),
}

/// The configuration of one node's filesystem.
#[derive(Debug, Clone, Copy, PartialEq, Eq, Structural)]
pub struct FsConfig {
    /// How long after a write its bytes can be durable at the earliest.
    pub write_delay: u64,
    /// How long a flush takes at least.
    pub flush_delay: u64,
    /// Whether a write may land on a file that is already dirty.
    pub allow_dirty_write: bool,
}

impl FsConfig {
    /// Both delays are at most `MAX_TIME`.
    pub open spec fn wf(&self) -> bool {
        self.write_delay <= MAX_TIME && self.flush_delay <= MAX_TIME
    }

    /// The instant at which a flush asked for at `now` is done, for a file
    /// last written at `write_time`.
    pub open spec fn flush_deadline(&self, write_time: int, now: int) -> int {
        if now + self.flush_delay >= write_time + self.write_delay {
            now + self.flush_delay
        } else {
            write_time + self.write_delay
        }
    }

    /// The configuration of a fresh node: no delays, dirty writes allowed.
    pub fn new() -> (config: FsConfig)
        ensures
            config == (FsConfig { write_delay: 0, flush_delay: 0, allow_dirty_write: true }),
            config.wf(),
    {
        FsConfig { write_delay: 0, flush_delay: 0, allow_dirty_write: true }
    }

    /// Until when a flush asked for at `now` has to sleep, for a file last
    /// written at `write_time`; `None` where it is done at once.
    pub fn flush_sleep(&self, write_time: u64, now: u64) -> (until: Option<u64>)
        requires
            self.wf(),
            write_time <= MAX_TIME,
            now <= MAX_TIME,
        ensures
            until == (if self.flush_deadline(write_time as int, now as int) == now {
                None
            } else {
                Some(self.flush_deadline(write_time as int, now as int) as u64)
            }),
    {
        let by_flush: u64 = now + self.flush_delay;
        let by_write: u64 = write_time + self.write_delay;
        let deadline: u64 = if by_flush >= by_write {
            by_flush
        } else {
            by_write
        };
        if deadline == now {
            None
        } else {
            Some(deadline)
        }
    }
}

/// One file: its content in memory (`new`) and, while that is not durable,
/// the content that is (`old`).
pub enum FileState {
    /// The content is durable.
    Clean(SnapBuf),
    /// Written to at `time`, and not flushed since.
    Written { old: SnapBuf, new: SnapBuf, time: u64 },
    /// A flush is under way and is done at `until`.
    Flush { old: SnapBuf, new: SnapBuf, until: u64 },
}

/// A file's state with its contents as byte sequences.
pub ghost enum FileStateView {
    Clean { new: Seq<u8> },
    Written { old: Seq<u8>, new: Seq<u8>, time: u64 },
    Flush { old: Seq<u8>, new: Seq<u8>, until: u64 },
}

impl View for FileState {
    type V = FileStateView;

    open spec fn view(&self) -> FileStateView {
        match *self {
            FileState::Clean(new) => FileStateView::Clean { new: content_bytes(new) },
            FileState::Written { old, new, time } => FileStateView::Written {
                old: content_bytes(old),
                new: content_bytes(new),
                time,
            },
            FileState::Flush { old, new, until } => FileStateView::Flush {
                old: content_bytes(old),
                new: content_bytes(new),
                until,
            },
        }
    }
}

impl FileStateView {
    /// The content in memory: what a read sees.
    pub open spec fn new(self) -> Seq<u8> {
        match self {
            FileStateView::Clean { new } => new,
            FileStateView::Written { new, .. } => new,
            FileStateView::Flush { new, .. } => new,
        }
    }

    /// The durable content: what was last seen clean.
    pub open spec fn durable(self) -> Seq<u8> {
        match self {
            FileStateView::Clean { new } => new,
            FileStateView::Written { old, .. } => old,
            FileStateView::Flush { old, .. } => old,
        }
    }

    /// The content is no longer than a buffer can be, and a write time is a
    /// time of the simulation.
    pub open spec fn wf(self) -> bool {
        &&& self.new().len() <= max_content_len()
        &&& (self matches FileStateView::Written { time, .. } ==> time <= MAX_TIME)
    }

    /// One poll of a flush at `now`: the state after it, and until when the
    /// flush still has to wait (`None`: it is done).
    pub open spec fn flush_step(self, config: FsConfig, now: u64) -> (FileStateView, Option<u64>) {
        match self {
            FileStateView::Clean { .. } => (self, None),
            FileStateView::Written { old, new, time } => {
                let deadline = config.flush_deadline(time as int, now as int);
                if deadline == now {
                    (FileStateView::Clean { new }, None)
                } else {
                    (
                        FileStateView::Flush { old, new, until: deadline as u64 },
                        Some(deadline as u64),
                    )
                }
            },
            FileStateView::Flush { old, new, until } => {
                if now >= until {
                    (FileStateView::Clean { new }, None)
                } else {
                    (self, Some(until))
                }
            },
        }
    }

    /// Where a write lands: at the end of the content under append, else at
    /// the handle's cursor.
    pub open spec fn write_offset(self, append: bool, cursor: int) -> int {
        if append {
            self.new().len() as int
        } else {
            cursor
        }
    }

    /// The dirty state that a write of `data` at `now` leaves, with `durable`
    /// as the content that is still the durable one.
    pub open spec fn written(
        self,
        durable: Seq<u8>,
        append: bool,
        cursor: int,
        data: Seq<u8>,
        now: u64,
    ) -> FileStateView {
        FileStateView::Written {
            old: durable,
            new: write_at(self.new(), self.write_offset(append, cursor), data),
            time: now,
        }
    }

    /// One poll of a write at `now`: the state after it, and until when the
    /// write still has to wait (`None`: the bytes are written).
    ///
    /// Where dirty writes are allowed the write always lands at once, and a
    /// flush under way is given up: the durable content stays the old one.
    /// Where they are not, a dirty file is flushed first. A write that finds
    /// a flush under way gives it up and starts one of its own, unless it is
    /// `resumed`, that is, polled again after it had to wait: then it waits
    /// for the flush that is under way.
    pub open spec fn write_step(
        self,
        config: FsConfig,
        resumed: bool,
        append: bool,
        cursor: int,
        data: Seq<u8>,
        now: u64,
    ) -> (FileStateView, Option<u64>) {
        match self {
            FileStateView::Clean { new } => (self.written(new, append, cursor, data, now), None),
            FileStateView::Written { old, new, time } => {
                let deadline = config.flush_deadline(time as int, now as int);
                if config.allow_dirty_write {
                    (self.written(old, append, cursor, data, now), None)
                } else if deadline == now {
                    (self.written(new, append, cursor, data, now), None)
                } else {
                    (
                        FileStateView::Flush { old, new, until: deadline as u64 },
                        Some(deadline as u64),
                    )
                }
            },
            FileStateView::Flush { old, new, until } => {
                let deadline = config.flush_deadline(now as int, now as int);
                if config.allow_dirty_write {
                    (self.written(old, append, cursor, data, now), None)
                } else if resumed {
                    if now >= until {
                        (self.written(new, append, cursor, data, now), None)
                    } else {
                        (self, Some(until))
                    }
                } else if deadline == now {
                    (self.written(new, append, cursor, data, now), None)
                } else {
                    (
                        FileStateView::Flush { old, new, until: deadline as u64 },
                        Some(deadline as u64),
                    )
                }
            },
        }
    }
}

/// What a poll says, from the wait that a step of the model gives.
pub open spec fn poll_of<T>(wait: Option<u64>, done: T) -> Poll<T> {
    match wait {
        None => Poll::Ready(done),
        Some(until) => Poll::Pending(until),
    }
}

impl FileState {
    /// An empty file.
    pub fn empty() -> (state: FileState)
        ensures
            state@ == (FileStateView::Clean { new: Seq::<u8>::empty() }),
            state@.wf(),
    {
        FileState::Clean(SnapBuf::new())
    }

    /// The content in memory.
    pub fn new(&self) -> (content: &SnapBuf)
        ensures
            content_bytes(*content) == self@.new(),
    {
        match self {
            FileState::Clean(new) => new,
            FileState::Written { new, .. } => new,
            FileState::Flush { new, .. } => new,
        }
    }

    /// One poll of a flush at `now`. A clean file is flushed. A dirty one is
    /// clean at once where the deadline is `now`; else the flush starts and
    /// the poll is pending until the deadline. A flush under way is done
    /// once `now` has reached its deadline, which never moves.
    pub fn poll_flush(&mut self, now: u64, config: &FsConfig) -> (poll: Poll<()>)
        requires
            old(self)@.wf(),
            config.wf(),
            now <= MAX_TIME,
        ensures
            final(self)@ == old(self)@.flush_step(*config, now).0,
            poll == poll_of(old(self)@.flush_step(*config, now).1, ()),
            final(self)@.wf(),
    {
        let (next, poll) = match &*self {
            FileState::Clean(_) => (None, Poll::Ready(())),
            FileState::Written { old, new, time } => {
                match config.flush_sleep(*time, now) {
                    Some(until) => (
                        Some(FileState::Flush { old: old.clone(), new: new.clone(), until }),
                        Poll::Pending(until),
                    ),
                    None => (Some(FileState::Clean(new.clone())), Poll::Ready(())),
                }
            },
            FileState::Flush { old, new, until } => {
                if now >= *until {
                    (Some(FileState::Clean(new.clone())), Poll::Ready(()))
                } else {
                    (None, Poll::Pending(*until))
                }
            },
        };
        if let Some(state) = next {
            *self = state;
        }
        poll
    }

    /// Whether a write of `len` bytes through a handle with this cursor and
    /// mode keeps the content within what a buffer can hold.
    pub fn write_fits(&self, append: bool, cursor: u64, len: usize) -> (fits: bool)
        ensures
            fits == (self@.write_offset(append, cursor as int) + len <= max_content_len()),
    {
        let limit = content_limit();
        let offset: u64 = if append {
            self.new().len() as u64
        } else {
            cursor
        };
        len as u64 <= limit && offset <= limit - len as u64
    }

    /// The dirty state after `buf` was written into this state's content,
    /// with `durable` as the durable content, and the offset where the bytes
    /// went.
    fn apply_write(&self, durable: SnapBuf, append: bool, cursor: u64, buf: &[u8], now: u64) -> (done: (
        FileState,
        u64,
    ))
        requires
            self@.wf(),
            self@.write_offset(append, cursor as int) + buf@.len() <= max_content_len(),
            now <= MAX_TIME,
        ensures
            done.0@ == self@.written(content_bytes(durable), append, cursor as int, buf@, now),
            done.1 == self@.write_offset(append, cursor as int),
            done.0@.wf(),
    {
        let mut new = self.new().clone();
        let offset: usize = if append {
            new.len()
        } else {
            cursor as usize
        };
        new.write(offset, buf);
        (FileState::Written { old: durable, new, time: now }, offset as u64)
    }

    /// One poll of a write of `buf` at `now`, through a handle with this
    /// cursor and mode; `resumed` says that the handle's last poll of a
    /// write was pending. Ready with the offset where the bytes went, or
    /// pending until the flush that the write waits for is done.
    pub fn poll_write(
        &mut self,
        config: &FsConfig,
        resumed: bool,
        append: bool,
        cursor: u64,
        buf: &[u8],
        now: u64,
    ) -> (poll: Poll<u64>)
        requires
            old(self)@.wf(),
            config.wf(),
            now <= MAX_TIME,
            old(self)@.write_offset(append, cursor as int) + buf@.len() <= max_content_len(),
        ensures
            final(self)@ == old(self)@.write_step(
                *config,
                resumed,
                append,
                cursor as int,
                buf@,
                now,
            ).0,
            poll == poll_of(
                old(self)@.write_step(*config, resumed, append, cursor as int, buf@, now).1,
                old(self)@.write_offset(append, cursor as int) as u64,
            ),
            final(self)@.wf(),
    {
        let (next, poll) = match &*self {
            FileState::Clean(new) => {
                let (state, offset) = self.apply_write(new.clone(), append, cursor, buf, now);
                (Some(state), Poll::Ready(offset))
            },
            FileState::Written { old, new, time } => {
                if config.allow_dirty_write {
                    let (state, offset) = self.apply_write(old.clone(), append, cursor, buf, now);
                    (Some(state), Poll::Ready(offset))
                } else {
                    match config.flush_sleep(*time, now) {
                        None => {
                            let (state, offset) = self.apply_write(
                                new.clone(),
                                append,
                                cursor,
                                buf,
                                now,
                            );
                            (Some(state), Poll::Ready(offset))
                        },
                        Some(until) => (
                            Some(FileState::Flush { old: old.clone(), new: new.clone(), until }),
                            Poll::Pending(until),
                        ),
                    }
                }
            },
            FileState::Flush { old, new, until } => {
                if config.allow_dirty_write {
                    let (state, offset) = self.apply_write(old.clone(), append, cursor, buf, now);
                    (Some(state), Poll::Ready(offset))
                } else if resumed && now < *until {
                    (None, Poll::Pending(*until))
                } else if resumed {
                    let (state, offset) = self.apply_write(new.clone(), append, cursor, buf, now);
                    (Some(state), Poll::Ready(offset))
                } else {
                    match config.flush_sleep(now, now) {
                        None => {
                            let (state, offset) = self.apply_write(
                                new.clone(),
                                append,
                                cursor,
                                buf,
                                now,
                            );
                            (Some(state), Poll::Ready(offset))
                        },
                        Some(until) => (
                            Some(FileState::Flush { old: old.clone(), new: new.clone(), until }),
                            Poll::Pending(until),
                        ),
                    }
                }
            },
        };
        if let Some(state) = next {
            *self = state;
        }
        poll
    }
}

} // verus!
