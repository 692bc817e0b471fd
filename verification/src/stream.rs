//! The stream reader handle: a cursor over extracted text that is pulled
//! piece by piece and cannot go back.
//!
//! Reading from the engine's stream happens outside this library. A single
//! read and a read to the end take the read as a function value and call it
//! at most once. A read that fills the buffer may have to read many times,
//! and again after each interruption, with no bound on their number: it is
//! given as two decisions, `stream_read_exact_begin` and
//! `stream_read_exact_step`, and the caller performs the read that each
//! `ReadStep` asks for until one says that the operation is done.
//!
//! A stream is open until a read reports its end. From then on it is
//! exhausted: every further operation reports zero bytes without touching
//! the engine. Releasing the handle closes the stream for good.
use vstd::prelude::*;

use crate::errors::{ERR_IO_ERROR, ERR_NULL_POINTER, ERR_OK};
use crate::types::{CStreamReader, StreamState};

verus! {

/// What one read of the engine's stream reported.
#[derive(Clone, Copy, Debug, PartialEq, Eq, Structural)]
pub enum ReadOutcome {
    /// So many bytes were written to the front of the window; zero means
    /// that the stream has ended.
    Data(usize),
    /// The read was interrupted before it wrote anything.
    Interrupted,
    /// The read failed for good.
    Failed,
}

/// What draining the engine's stream to its end reported.
pub enum DrainOutcome {
    /// Every byte that was left, in order.
    Data(Vec<u8>),
    /// Reading failed for good.
    Failed,
}

/// What a caller does next.
#[derive(Clone, Copy, Debug, PartialEq, Eq, Structural)]
pub enum ReadStep {
    /// Read once from the engine's stream into the window of the caller's
    /// buffer that starts at `offset` and is `len` bytes long, and report
    /// what came of it.
    Pull { offset: usize, len: usize },
    /// Return `code`: the operation is over.
    Done { code: i32 },
}

/// The code of a single read after the stream reported `outcome` for a
/// window of `capacity` bytes. A count beyond the window is no count.
pub open spec fn read_code(capacity: usize, outcome: ReadOutcome) -> int {
    match outcome {
        ReadOutcome::Data(n) => if n <= capacity {
            ERR_OK as int
        } else {
            ERR_IO_ERROR as int
        },
        _ => ERR_IO_ERROR as int,
    }
}

/// The state of a stream after one read of it reported `outcome`: the end
/// was reached where a window with room in it received nothing.
pub open spec fn state_after_read(
    before: StreamState,
    window: usize,
    outcome: ReadOutcome,
) -> StreamState {
    if window > 0 && outcome == ReadOutcome::Data(0) {
        StreamState::Exhausted
    } else {
        before
    }
}

/// Finishes a single read of a window of `capacity` bytes with what the
/// read reported. Where it wrote at most `capacity` bytes the code is
/// `ERR_OK` and the count, where a place for it was given, is what the read
/// wrote; zero bytes mean that the stream has ended. Every other outcome is
/// `ERR_IO_ERROR`, and the count stays as it was.
pub fn stream_read_finish(
    handle: &mut CStreamReader,
    capacity: usize,
    outcome: ReadOutcome,
    bytes_read: Option<&mut usize>,
) -> (code: i32)
    ensures
        code == read_code(capacity, outcome),
        final(handle).state == state_after_read(old(handle).state, capacity, outcome),
        match bytes_read {
            Some(n) => *final(n) == (match outcome {
                ReadOutcome::Data(count) => if count <= capacity {
                    count
                } else {
                    *n
                },
                _ => *n,
            }),
            None => true,
        },
{
    match outcome {
        ReadOutcome::Data(count) => {
            if count > capacity {
                ERR_IO_ERROR
            } else {
                if count == 0 && capacity > 0 {
                    handle.state = StreamState::Exhausted;
                }
                match bytes_read {
                    Some(n) => {
                        *n = count;
                    },
                    None => {},
                }
                ERR_OK
            }
        },
        _ => ERR_IO_ERROR,
    }
}

/// The number of bytes that a single read reports for `outcome`.
pub open spec fn read_count(capacity: usize, outcome: ReadOutcome) -> usize {
    match outcome {
        ReadOutcome::Data(n) => if n <= capacity {
            n
        } else {
            0
        },
        _ => 0,
    }
}

/// Reads once from the stream into `buffer`. `read` performs the read on
/// the engine's stream. With a null handle or buffer nothing is touched:
/// neither the stream, nor the buffer, nor the count. An empty buffer and
/// an exhausted stream are a success with zero bytes, and `read` is not
/// called. Otherwise `read` is called once, on the caller's buffer and on
/// nothing else: the buffer holds afterwards what `read` left in it. What
/// `read` reports decides the code, the count and whether the stream is
/// exhausted. The count, where a place for it was given, is zero unless the
/// read succeeded. After a failure the contents of the buffer are not
/// defined.
pub fn extractous_stream_read<F: FnOnce(&mut [u8]) -> ReadOutcome>(
    handle: Option<&mut CStreamReader>,
    buffer: Option<&mut [u8]>,
    bytes_read: Option<&mut usize>,
    read: F,
) -> (code: i32)
    requires
        forall|window: &mut [u8]| call_requires(read, (window,)),
    ensures
        match (handle, buffer) {
            (Some(h), Some(buf)) => if buf@.len() == 0 || h.state == StreamState::Exhausted {
                &&& code == ERR_OK
                &&& *final(h) == *h
                &&& final(buf)@ == buf@
                &&& bytes_read matches Some(n) ==> *final(n) == 0
            } else {
                exists|window: &mut [u8], outcome: ReadOutcome|
                    {
                        &&& #[trigger] call_ensures(read, (window,), outcome)
                        &&& window@ == buf@
                        &&& final(window)@ == final(buf)@
                        &&& code == read_code(buf@.len() as usize, outcome)
                        &&& final(h).state == state_after_read(
                            h.state,
                            buf@.len() as usize,
                            outcome,
                        )
                        &&& bytes_read matches Some(n) ==> *final(n) == read_count(
                            buf@.len() as usize,
                            outcome,
                        )
                    }
            },
            _ => {
                &&& code == ERR_NULL_POINTER
                &&& handle matches Some(h) ==> *final(h) == *h
                &&& buffer matches Some(buf) ==> final(buf)@ == buf@
                &&& bytes_read matches Some(n) ==> *final(n) == *n
            },
        },
{
    match (handle, buffer) {
        (Some(h), Some(buf)) => {
            let capacity: usize = buf.len();
            let open = match h.state {
                StreamState::Open => true,
                StreamState::Exhausted => false,
            };
            if capacity == 0 || !open {
                match bytes_read {
                    Some(n) => {
                        *n = 0;
                    },
                    None => {},
                }
                ERR_OK
            } else {
                let outcome = read(buf);
                let mut count: usize = 0;
                let code = stream_read_finish(h, capacity, outcome, Some(&mut count));
                match bytes_read {
                    Some(n) => {
                        *n = count;
                    },
                    None => {},
                }
                code
            }
        },
        _ => ERR_NULL_POINTER,
    }
}

/// The first step of a read that fills the buffer.
pub open spec fn read_exact_plan(
    reader: Option<CStreamReader>,
    capacity: Option<usize>,
    count_given: bool,
) -> ReadStep {
    match (reader, capacity) {
        (Some(r), Some(cap)) => if !count_given {
            ReadStep::Done { code: ERR_NULL_POINTER }
        } else if cap == 0 || r.state == StreamState::Exhausted {
            ReadStep::Done { code: ERR_OK }
        } else {
            ReadStep::Pull { offset: 0, len: cap }
        },
        _ => ReadStep::Done { code: ERR_NULL_POINTER },
    }
}

/// Begins a read that fills a buffer of `capacity` bytes; `None` stands for
/// a null buffer. The handle, the buffer and the place for the count are
/// all required: where one is null nothing is touched. Otherwise the count
/// is set to zero, and reading starts at the front of the buffer unless the
/// buffer is empty or the stream is exhausted: both are a success with zero
/// bytes.
pub fn stream_read_exact_begin(
    handle: Option<&CStreamReader>,
    capacity: Option<usize>,
    bytes_read: Option<&mut usize>,
) -> (step: ReadStep)
    ensures
        step == read_exact_plan(
            match handle {
                Some(h) => Some(*h),
                None => None,
            },
            capacity,
            bytes_read is Some,
        ),
        match bytes_read {
            Some(n) => *final(n) == (if handle is Some && capacity is Some {
                0usize
            } else {
                *n
            }),
            None => true,
        },
{
    match (handle, capacity, bytes_read) {
        (Some(h), Some(cap), Some(n)) => {
            *n = 0;
            if cap == 0 {
                ReadStep::Done { code: ERR_OK }
            } else {
                match h.state {
                    StreamState::Exhausted => ReadStep::Done { code: ERR_OK },
                    StreamState::Open => ReadStep::Pull { offset: 0, len: cap },
                }
            }
        },
        _ => ReadStep::Done { code: ERR_NULL_POINTER },
    }
}

/// What follows, in a read that fills the buffer, when the read of the
/// window at `offset` of `len` bytes reported `outcome`. The end of the
/// stream finishes the read with what was collected, and so does a full
/// buffer. An interruption asks for the same window again. Fewer bytes than
/// the window holds move the window behind them. A failure, and a count
/// that the window cannot hold, end the read with `ERR_IO_ERROR`.
pub open spec fn read_exact_next(offset: usize, len: usize, outcome: ReadOutcome) -> ReadStep {
    match outcome {
        ReadOutcome::Data(n) => if n == 0 {
            ReadStep::Done { code: ERR_OK }
        } else if n > len || offset + n > usize::MAX {
            ReadStep::Done { code: ERR_IO_ERROR }
        } else if n == len {
            ReadStep::Done { code: ERR_OK }
        } else {
            ReadStep::Pull { offset: (offset + n) as usize, len: (len - n) as usize }
        },
        ReadOutcome::Interrupted => ReadStep::Pull { offset, len },
        ReadOutcome::Failed => ReadStep::Done { code: ERR_IO_ERROR },
    }
}

/// The number of bytes that a read that fills the buffer has collected
/// once the window at `offset` reported `outcome`.
pub open spec fn read_exact_collected(offset: usize, len: usize, outcome: ReadOutcome) -> int {
    match outcome {
        ReadOutcome::Data(n) => if n <= len {
            offset + n
        } else {
            offset as int
        },
        _ => offset as int,
    }
}

/// Continues a read that fills the buffer: `offset` and `len` are the
/// window of the step before, and `outcome` is what the read of it
/// reported. When the step is `Done` with `ERR_OK`, the count is the
/// number of bytes collected, which is less than the buffer holds only
/// where the stream ended first. Until then, and on failure, the count
/// stays as it was.
pub fn stream_read_exact_step(
    handle: &mut CStreamReader,
    offset: usize,
    len: usize,
    outcome: ReadOutcome,
    bytes_read: &mut usize,
) -> (step: ReadStep)
    ensures
        step == read_exact_next(offset, len, outcome),
        final(handle).state == state_after_read(old(handle).state, len, outcome),
        *final(bytes_read) == (if step == (ReadStep::Done { code: ERR_OK }) {
            read_exact_collected(offset, len, outcome) as usize
        } else {
            *old(bytes_read)
        }),
{
    match outcome {
        ReadOutcome::Data(n) => {
            if n == 0 {
                if len > 0 {
                    handle.state = StreamState::Exhausted;
                }
                *bytes_read = offset;
                ReadStep::Done { code: ERR_OK }
            } else if n > len || n > usize::MAX - offset {
                ReadStep::Done { code: ERR_IO_ERROR }
            } else if n == len {
                *bytes_read = offset + n;
                ReadStep::Done { code: ERR_OK }
            } else {
                ReadStep::Pull { offset: offset + n, len: len - n }
            }
        },
        ReadOutcome::Interrupted => ReadStep::Pull { offset, len },
        ReadOutcome::Failed => ReadStep::Done { code: ERR_IO_ERROR },
    }
}

/// In a read that fills a buffer of `capacity` bytes, every window has room
/// and ends where the buffer ends, no window starts before the one before
/// it, and each read that brings bytes leaves a shorter window. A read that
/// ends well has collected no more than the buffer holds: the whole buffer,
/// unless the stream ended first.
pub proof fn lemma_read_exact_stays_in_buffer(
    capacity: usize,
    offset: usize,
    len: usize,
    outcome: ReadOutcome,
)
    requires
        offset + len == capacity,
        len > 0,
    ensures
        match read_exact_next(offset, len, outcome) {
            ReadStep::Pull { offset: o, len: l } => {
                &&& o + l == capacity
                &&& o >= offset
                &&& l > 0
                &&& outcome is Data ==> l < len
            },
            ReadStep::Done { code } => code == ERR_OK ==> {
                &&& offset <= read_exact_collected(offset, len, outcome) <= capacity
                &&& read_exact_collected(offset, len, outcome) < capacity ==> outcome
                    == ReadOutcome::Data(0)
            },
        },
{
}

/// The number of bytes that the reads brought which reported `outcomes`.
pub open spec fn bytes_reported(outcomes: Seq<ReadOutcome>) -> int
    decreases outcomes.len(),
{
    if outcomes.len() == 0 {
        0
    } else {
        bytes_reported(outcomes.drop_last()) + (match outcomes.last() {
            ReadOutcome::Data(n) => n as int,
            _ => 0,
        })
    }
}

/// Where a read that fills the buffer stands after the reads that it asked
/// for reported `outcomes` in turn, the first of them for the window at
/// `offset` of `len` bytes. Once a step is `Done` the read is over, and
/// what later outcomes say changes nothing.
pub open spec fn read_exact_run(offset: usize, len: usize, outcomes: Seq<ReadOutcome>) -> ReadStep
    decreases outcomes.len(),
{
    if outcomes.len() == 0 {
        ReadStep::Pull { offset, len }
    } else {
        match read_exact_run(offset, len, outcomes.drop_last()) {
            ReadStep::Pull { offset: o, len: l } => read_exact_next(o, l, outcomes.last()),
            done => done,
        }
    }
}

/// While a read that fills a buffer of `capacity` bytes still asks for a
/// read, its window starts behind every byte that the reads have brought
/// and ends where the buffer ends.
pub proof fn lemma_read_exact_run_window(
    capacity: usize,
    offset: usize,
    len: usize,
    outcomes: Seq<ReadOutcome>,
)
    requires
        offset + len == capacity,
        len > 0,
    ensures
        read_exact_run(offset, len, outcomes) matches ReadStep::Pull { offset: o, len: l } ==> {
            &&& o == offset + bytes_reported(outcomes)
            &&& o + l == capacity
            &&& l > 0
        },
    decreases outcomes.len(),
{
    if outcomes.len() > 0 {
        lemma_read_exact_run_window(capacity, offset, len, outcomes.drop_last());
        match read_exact_run(offset, len, outcomes.drop_last()) {
            ReadStep::Pull { offset: o, len: l } => {
                lemma_read_exact_stays_in_buffer(capacity, o, l, outcomes.last());
            },
            _ => {},
        }
    }
}

/// A read that fills a buffer of `capacity` bytes and ends well at the last
/// of `outcomes` has collected every byte that the reads brought, and no
/// more than the buffer holds. It has collected fewer only where the last
/// read reported the end of the stream.
pub proof fn lemma_read_exact_run_collects(capacity: usize, outcomes: Seq<ReadOutcome>)
    requires
        capacity > 0,
        outcomes.len() > 0,
        read_exact_run(0, capacity, outcomes.drop_last()) is Pull,
        read_exact_run(0, capacity, outcomes) == (ReadStep::Done { code: ERR_OK }),
    ensures
        read_exact_run(0, capacity, outcomes.drop_last()) matches ReadStep::Pull {
            offset: o,
            len: l,
        } ==> {
            &&& read_exact_collected(o, l, outcomes.last()) == bytes_reported(outcomes)
            &&& bytes_reported(outcomes) <= capacity
            &&& bytes_reported(outcomes) < capacity ==> outcomes.last() == ReadOutcome::Data(0)
        },
{
    lemma_read_exact_run_window(capacity, 0, capacity, outcomes.drop_last());
    match read_exact_run(0, capacity, outcomes.drop_last()) {
        ReadStep::Pull { offset: o, len: l } => {
            lemma_read_exact_stays_in_buffer(capacity, o, l, outcomes.last());
        },
        _ => {},
    }
}

/// What reading a stream to its end leaves behind. `reader`, `buffer` and
/// `size` each hold the value before and the value after. Where the stream
/// was read to its end, the buffer slot holds every byte that was left, the
/// size slot their number, the stream is exhausted and the code is
/// `ERR_OK`. Where reading failed, the code is `ERR_IO_ERROR`, no buffer is
/// handed out and everything is as it was.
pub open spec fn drained(
    outcome: DrainOutcome,
    code: i32,
    reader: (CStreamReader, CStreamReader),
    buffer: (Option<Vec<u8>>, Option<Vec<u8>>),
    size: (usize, usize),
) -> bool {
    match outcome {
        DrainOutcome::Data(data) => {
            &&& code == ERR_OK
            &&& buffer.1 == Some(data)
            &&& size.1 == data@.len()
            &&& reader.1.state == StreamState::Exhausted
        },
        DrainOutcome::Failed => {
            &&& code == ERR_IO_ERROR
            &&& buffer.1 == buffer.0
            &&& size.1 == size.0
            &&& reader.1 == reader.0
        },
    }
}

/// Finishes reading a stream to its end with what draining it reported.
pub fn stream_read_all_finish(
    handle: &mut CStreamReader,
    outcome: DrainOutcome,
    out_buffer: &mut Option<Vec<u8>>,
    out_size: &mut usize,
) -> (code: i32)
    ensures
        drained(
            outcome,
            code,
            (*old(handle), *final(handle)),
            (*old(out_buffer), *final(out_buffer)),
            (*old(out_size), *final(out_size)),
        ),
{
    match outcome {
        DrainOutcome::Data(data) => {
            *out_size = data.len();
            *out_buffer = Some(data);
            handle.state = StreamState::Exhausted;
            ERR_OK
        },
        DrainOutcome::Failed => ERR_IO_ERROR,
    }
}

/// Reads the stream to its end into a buffer of its own. `drain` does so on
/// the engine's stream. The handle and both output slots are required:
/// where one is null nothing is touched. An exhausted stream has nothing
/// left: the slots receive an empty buffer and the size zero, and `drain` is
/// not called. Otherwise `drain` is called once, and what it reports
/// decides the rest.
pub fn extractous_stream_read_all<F: FnOnce() -> DrainOutcome>(
    handle: Option<&mut CStreamReader>,
    out_buffer: Option<&mut Option<Vec<u8>>>,
    out_size: Option<&mut usize>,
    drain: F,
) -> (code: i32)
    requires
        call_requires(drain, ()),
    ensures
        match (handle, out_buffer, out_size) {
            (Some(h), Some(b), Some(n)) => if h.state == StreamState::Exhausted {
                &&& code == ERR_OK
                &&& *final(b) matches Some(data) && data@.len() == 0
                &&& *final(n) == 0
                &&& *final(h) == *h
            } else {
                exists|outcome: DrainOutcome|
                    call_ensures(drain, (), outcome) && drained(
                        outcome,
                        code,
                        (*h, *final(h)),
                        (*b, *final(b)),
                        (*n, *final(n)),
                    )
            },
            _ => {
                &&& code == ERR_NULL_POINTER
                &&& handle matches Some(h) ==> *final(h) == *h
                &&& out_buffer matches Some(b) ==> *final(b) == *b
                &&& out_size matches Some(n) ==> *final(n) == *n
            },
        },
{
    match (handle, out_buffer, out_size) {
        (Some(h), Some(b), Some(n)) => {
            match h.state {
                StreamState::Exhausted => {
                    *b = Some(Vec::new());
                    *n = 0;
                    ERR_OK
                },
                StreamState::Open => {
                    let outcome = drain();
                    stream_read_all_finish(h, outcome, b, n)
                },
            }
        },
        _ => ERR_NULL_POINTER,
    }
}

/// Releases a buffer that draining a stream handed out; `size` is the size
/// that came with it. Nothing happens for the null pointer.
pub fn extractous_buffer_free(buffer: Option<Vec<u8>>, size: usize) {
}

/// Closes a stream and releases its handle. Nothing happens for the null
/// handle.
pub fn extractous_stream_free(handle: Option<Box<CStreamReader>>) {
}

/// Once a stream is exhausted it stays so, whatever a read reports, and a
/// read that fills the buffer is over before it starts.
pub proof fn lemma_exhausted_is_final(window: usize, capacity: usize, outcome: ReadOutcome)
    ensures
        state_after_read(StreamState::Exhausted, window, outcome) == StreamState::Exhausted,
        read_exact_plan(Some(CStreamReader { state: StreamState::Exhausted }), Some(capacity), true)
            == (ReadStep::Done { code: ERR_OK }),
{
}

} // verus!
