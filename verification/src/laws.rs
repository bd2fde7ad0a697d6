//! Laws of the file state machine, proved of the model that the contracts
//! of the operations are stated in.

use crate::content::{write_at, SEGMENT_SIZE};
use crate::file::read_run;
use crate::state::{FileStateView, FsConfig, MAX_TIME};
use vstd::prelude::*;

verus! {

/// One write as a handle's user makes it: the bytes, the time of the first
/// poll and, where that poll is pending, the time at which the user comes
/// back.
pub ghost struct WriteCall {
    pub data: Seq<u8>,
    pub issued: u64,
    pub resumed: u64,
}

/// The time of the second poll of a write that was pending until `until`:
/// the time at which the user comes back, and not before the deadline.
pub open spec fn resume_time(call: WriteCall, until: u64) -> u64 {
    if call.resumed >= until {
        call.resumed
    } else {
        until
    }
}

/// The file's state after a write was polled to its end: once where the
/// first poll is ready, once more at the resume time where it is pending.
pub open spec fn write_completed(
    state: FileStateView,
    config: FsConfig,
    append: bool,
    cursor: int,
    call: WriteCall,
) -> FileStateView {
    let first = state.write_step(config, false, append, cursor, call.data, call.issued);
    match first.1 {
        None => first.0,
        Some(until) => first.0.write_step(
            config,
            true,
            append,
            cursor,
            call.data,
            resume_time(call, until),
        ).0,
    }
}

/// The file's state and the handle's cursor after the writes `calls`, each
/// polled to its end before the next.
pub open spec fn writes_completed(
    state: FileStateView,
    config: FsConfig,
    append: bool,
    cursor: int,
    calls: Seq<WriteCall>,
) -> (FileStateView, int)
    decreases calls.len(),
{
    if calls.len() == 0 {
        (state, cursor)
    } else {
        writes_completed(
            write_completed(state, config, append, cursor, calls[0]),
            config,
            append,
            state.write_offset(append, cursor) + calls[0].data.len(),
            calls.drop_first(),
        )
    }
}

/// `content` after the bytes of `calls` were written into it in order, each
/// where a handle with this mode and cursor puts it.
pub open spec fn writes_applied(
    content: Seq<u8>,
    append: bool,
    cursor: int,
    calls: Seq<WriteCall>,
) -> Seq<u8>
    decreases calls.len(),
{
    if calls.len() == 0 {
        content
    } else {
        let offset = if append {
            content.len() as int
        } else {
            cursor
        };
        writes_applied(
            write_at(content, offset, calls[0].data),
            append,
            offset + calls[0].data.len(),
            calls.drop_first(),
        )
    }
}

/// A write polled to its end has put its bytes into the content in memory,
/// where the write lands, whatever the file's state and the configuration.
pub proof fn lemma_write_lands(
    state: FileStateView,
    config: FsConfig,
    append: bool,
    cursor: int,
    call: WriteCall,
)
    ensures
        write_completed(state, config, append, cursor, call).new() == write_at(
            state.new(),
            state.write_offset(append, cursor),
            call.data,
        ),
        write_completed(state, config, append, cursor, call) is Written,
{
}

/// Read-your-writes. After any writes through one handle, each polled to its
/// end, the content in memory is the initial content with those writes
/// applied in order. A read at offset 0 that asks for at least the whole
/// content returns it, as far as it lies in the buffer's first segment: all
/// of it where it is no longer than one segment.
pub proof fn lemma_read_your_writes(
    state: FileStateView,
    config: FsConfig,
    append: bool,
    cursor: int,
    calls: Seq<WriteCall>,
    max: int,
)
    ensures
        writes_completed(state, config, append, cursor, calls).0.new() == writes_applied(
            state.new(),
            append,
            cursor,
            calls,
        ),
        ({
            let content = writes_completed(state, config, append, cursor, calls).0.new();
            &&& max >= content.len() && content.len() <= SEGMENT_SIZE ==> read_run(content, 0, max)
                == content
            &&& max >= SEGMENT_SIZE && content.len() > SEGMENT_SIZE ==> read_run(content, 0, max)
                == content.subrange(0, SEGMENT_SIZE as int)
        }),
    decreases calls.len(),
{
    if calls.len() > 0 {
        lemma_write_lands(state, config, append, cursor, calls[0]);
        lemma_read_your_writes(
            write_completed(state, config, append, cursor, calls[0]),
            config,
            append,
            state.write_offset(append, cursor) + calls[0].data.len(),
            calls.drop_first(),
            max,
        );
    }
    let content = writes_completed(state, config, append, cursor, calls).0.new();
    if max >= content.len() && content.len() <= SEGMENT_SIZE {
        assert(read_run(content, 0, max) =~= content);
    }
}

/// Flush idempotence. Once a poll of a flush was ready, the file is clean:
/// another poll of a flush, at the same instant or at any other and under
/// any configuration, is ready at once and changes nothing.
pub proof fn lemma_flush_idempotent(
    state: FileStateView,
    config: FsConfig,
    now: u64,
    again: FsConfig,
    later: u64,
)
    requires
        state.flush_step(config, now).1 is None,
    ensures
        state.flush_step(config, now).0 is Clean,
        state.flush_step(config, now).0.flush_step(again, later) == (
            state.flush_step(config, now).0,
            None::<u64>,
        ),
{
}

/// Delay composition. A clean file is written at `written`, and a flush is
/// first polled at `started`, not before the write. The flush is done at
/// the later of `started + flush_delay` and `written + write_delay`: the
/// first poll is ready where that is `started`, else pending until then,
/// and a poll at `later` is ready exactly if `later` has reached it. The
/// content is then the durable one.
pub proof fn lemma_delay_composition(
    state: FileStateView,
    config: FsConfig,
    append: bool,
    cursor: int,
    data: Seq<u8>,
    written: u64,
    started: u64,
    later: u64,
)
    requires
        state is Clean,
        config.wf(),
        written <= started <= MAX_TIME,
    ensures
        ({
            let dirty = state.write_step(config, false, append, cursor, data, written);
            let first = dirty.0.flush_step(config, started);
            let deadline = if started + config.flush_delay >= written + config.write_delay {
                started + config.flush_delay
            } else {
                written + config.write_delay
            };
            let clean = FileStateView::Clean { new: dirty.0.new() };
            &&& dirty.1 is None
            &&& deadline == started ==> first == (clean, None::<u64>)
            &&& deadline > started ==> {
                &&& first.1 == Some(deadline as u64)
                &&& later < deadline ==> first.0.flush_step(config, later) == (
                    first.0,
                    Some(deadline as u64),
                )
                &&& later >= deadline ==> first.0.flush_step(config, later) == (clean, None::<u64>)
            }
        }),
{
}

/// The dirty-write policy. Where dirty writes are allowed, a write is ready
/// at the first poll, whatever the file's state. Where they are not, a write
/// to a dirty file waits for a flush: it is ready at the first poll only
/// where the flush's deadline is the instant of the poll, else it is pending
/// until that deadline, the file is left with the flush under way, and the
/// write is ready when polled again exactly if time has reached the deadline.
pub proof fn lemma_dirty_write_policy(
    state: FileStateView,
    config: FsConfig,
    append: bool,
    cursor: int,
    data: Seq<u8>,
    now: u64,
    later: u64,
)
    requires
        config.wf(),
        now <= MAX_TIME,
        state.wf(),
    ensures
        ({
            let first = state.write_step(config, false, append, cursor, data, now);
            let deadline = match state {
                FileStateView::Written { time, .. } => config.flush_deadline(time as int, now as int),
                _ => config.flush_deadline(now as int, now as int),
            };
            &&& config.allow_dirty_write || state is Clean ==> first.1 is None
            &&& !config.allow_dirty_write && !(state is Clean) ==> {
                &&& deadline == now ==> first.1 is None
                &&& deadline > now ==> {
                    &&& first.1 == Some(deadline as u64)
                    &&& first.0 == (FileStateView::Flush {
                        old: state.durable(),
                        new: state.new(),
                        until: deadline as u64,
                    })
                    &&& first.0.write_step(config, true, append, cursor, data, later).1 is None
                        <==> later >= deadline
                }
            }
        }),
{
}

/// Flush preemption. A write that finds a flush under way leaves the durable
/// content as it was before the flush, whether the write lands or has to
/// wait: the flush is given up. Where dirty writes are allowed, the write
/// lands and the file is dirty with the old durable content. Left out are
/// the two writes that, where dirty writes are not allowed, see a flush done
/// before they land on the clean file: the write that waited and is polled
/// again once the deadline is reached, and the write whose own flush takes
/// no time.
pub proof fn lemma_flush_preemption(
    state: FileStateView,
    config: FsConfig,
    resumed: bool,
    append: bool,
    cursor: int,
    data: Seq<u8>,
    now: u64,
)
    requires
        state is Flush,
        config.allow_dirty_write || !resumed || now < state->Flush_until,
        config.allow_dirty_write || resumed || config.flush_deadline(now as int, now as int) > now,
    ensures
        state.write_step(config, resumed, append, cursor, data, now).0.durable() == state.durable(),
        config.allow_dirty_write ==> state.write_step(
            config,
            resumed,
            append,
            cursor,
            data,
            now,
        ).0 == (FileStateView::Written {
            old: state.durable(),
            new: write_at(state.new(), state.write_offset(append, cursor), data),
            time: now,
        }),
{
}

/// The append cursor. Two writes through a handle that appends, `first` and
/// then `second`, each polled to its end, leave an empty file with the bytes
/// of `first` followed by those of `second`, wherever the handle's cursor
/// stood and whatever the configuration.
pub proof fn lemma_append_cursor(
    config: FsConfig,
    cursor: int,
    first: WriteCall,
    second: WriteCall,
)
    ensures
        writes_completed(
            FileStateView::Clean { new: Seq::<u8>::empty() },
            config,
            true,
            cursor,
            seq![first, second],
        ).0.new() == first.data + second.data,
{
    let empty = FileStateView::Clean { new: Seq::<u8>::empty() };
    let calls = seq![first, second];
    let one = write_completed(empty, config, true, cursor, first);
    lemma_write_lands(empty, config, true, cursor, first);
    lemma_write_lands(one, config, true, first.data.len() as int, second);
    let rest = calls.drop_first();
    assert(rest[0] == second);
    assert(rest.drop_first().len() == 0);
    let two = write_completed(one, config, true, first.data.len() as int, second);
    assert(writes_completed(
        two,
        config,
        true,
        one.write_offset(true, first.data.len() as int) + second.data.len(),
        rest.drop_first(),
    ).0 == two);
    assert(writes_completed(one, config, true, first.data.len() as int, rest).0 == two);
    assert(writes_completed(empty, config, true, cursor, calls).0 == two);
    assert(one.new() =~= first.data);
    assert(two.new() =~= first.data + second.data);
}

} // verus!
