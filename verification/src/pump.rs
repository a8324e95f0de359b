//! The one shared PTY-output read loop.
//!
//! Every consumer of a session reader needs the same skeleton: fixed buffer,
//! retry on EINTR, stop on EOF or any other error.

use std::io::ErrorKind;
use vstd::prelude::*;

verus! {

/// A byte source read chunk by chunk (the PTY's output stream).
pub trait PtyRead: Sized {
    /// The relation one read establishes between the source and buffer
    /// before (`self`, `buf`) and after (`next`, `next_buf`) and its result.
    /// Sources that do not state it relate nothing more than `read`'s own
    /// clauses say.
    closed spec fn read_post(self, buf: Seq<u8>, next: Self, next_buf: Seq<u8>, r: Result<usize, std::io::Error>) -> bool {
        true
    }

    /// Reads into `buf`; `Ok(n)` fills the first `n` bytes, `Ok(0)` is EOF.
    fn read(&mut self, buf: &mut [u8]) -> (r: Result<usize, std::io::Error>)
        ensures
            final(buf)@.len() == old(buf)@.len(),
            r matches Ok(n) ==> n <= old(buf)@.len(),
            old(self).read_post(old(buf)@, *final(self), final(buf)@, r),
    ;
}

/// What reading a byte slice into `buf` does: it copies the slice's front
/// (as much as fits) into `buf`, leaves the rest of `buf` as it was, and
/// advances past the bytes read; an empty slice is at EOF.
pub open spec fn slice_read(src: Seq<u8>, buf: Seq<u8>, next: Seq<u8>, next_buf: Seq<u8>, r: Result<usize, std::io::Error>) -> bool {
    r matches Ok(n) && n == min_len(src.len(), buf.len())
        && next_buf.len() == buf.len()
        && next_buf.take(n as int) == src.take(n as int)
        && next_buf.skip(n as int) == buf.skip(n as int)
        && next == src.skip(n as int)
}

impl<'a> PtyRead for &'a [u8] {
    open spec fn read_post(self, buf: Seq<u8>, next: Self, next_buf: Seq<u8>, r: Result<usize, std::io::Error>) -> bool {
        slice_read(self@, buf, next@, next_buf, r)
    }

    fn read(&mut self, buf: &mut [u8]) -> (r: Result<usize, std::io::Error>) {
        let src: &[u8] = *self;
        let n = if src.len() < buf.len() { src.len() } else { buf.len() };
        let mut i: usize = 0;
        while i < n
            invariant
                n == min_len(src@.len(), old(buf)@.len()),
                i <= n,
                buf@.len() == old(buf)@.len(),
                forall|j: int| 0 <= j < i ==> buf@[j] == src@[j],
                forall|j: int| n <= j < buf@.len() ==> buf@[j] == old(buf)@[j],
            decreases n - i,
        {
            buf[i] = src[i];
            i = i + 1;
        }
        let rest = vstd::slice::slice_subrange(src, n, src.len());
        *self = rest;
        assert(buf@.take(n as int) =~= src@.take(n as int));
        assert(buf@.skip(n as int) =~= old(buf)@.skip(n as int));
        assert(rest@ =~= src@.skip(n as int));
        Ok(n)
    }
}

/// The smaller of two lengths.
pub open spec fn min_len(a: nat, b: nat) -> nat {
    if a < b { a } else { b }
}

/// The size of the pump's read buffer: the most any one chunk can hold.
pub const PUMP_CHUNK_LEN: usize = 4096;

/// Whether `std::io::Error::kind` of `e` is `ErrorKind::Interrupted`.
pub uninterp spec fn io_error_interrupted(e: std::io::Error) -> bool;

/// Whether a read failure is a transient interruption (EINTR): calls
/// `std::io::Error::kind` and tells `ErrorKind::Interrupted` apart.
#[verifier::external_body]
fn is_interrupted(e: &std::io::Error) -> (r: bool)
    ensures
        r == io_error_interrupted(*e),
{
    e.kind() == ErrorKind::Interrupted
}

/// One read's outcome, as the pump sees it.
pub enum ReadEvent {
    Data(usize),
    Eof,
    Interrupted,
    Failed,
}

/// Classifies one read's outcome: `Ok(0)` is EOF, `Ok(n)` data, and an
/// error either a transient interruption or a failure.
pub fn classify_read(r: &Result<usize, std::io::Error>) -> (ev: ReadEvent)
    ensures
        r matches Ok(n) ==> (n == 0 ==> ev is Eof) && (n > 0 ==> ev == ReadEvent::Data(*n)),
        r matches Err(e) ==> (io_error_interrupted(*e) ==> ev is Interrupted)
            && (!io_error_interrupted(*e) ==> ev is Failed),
{
    match r {
        Ok(0) => ReadEvent::Eof,
        Ok(n) => ReadEvent::Data(*n),
        Err(e) => if is_interrupted(e) { ReadEvent::Interrupted } else { ReadEvent::Failed },
    }
}

/// One read as the pump recorded it.
pub ghost enum PumpRecord {
    /// A successful read of these bytes, handed to the callback.
    Chunk(Seq<u8>),
    /// A transient interruption, retried.
    Interrupted,
    /// End of input: the pump returned.
    Eof,
    /// Any other read error: the pump returned.
    Failed,
}

/// A record the pump reads past: a retried interruption, or a chunk that is
/// nonempty and at most [`PUMP_CHUNK_LEN`] bytes long.
pub open spec fn is_pump_step(rec: PumpRecord) -> bool {
    ||| rec is Interrupted
    ||| rec matches PumpRecord::Chunk(s) && 0 < s.len() <= PUMP_CHUNK_LEN
}

/// A record the pump stops at: end of input or a read failure.
pub open spec fn is_pump_end(rec: PumpRecord) -> bool {
    rec is Eof || rec is Failed
}

/// The record of one read's outcome, given the buffer afterwards.
pub open spec fn pump_record(r: Result<usize, std::io::Error>, buf: Seq<u8>) -> PumpRecord {
    match r {
        Ok(n) => if n == 0 { PumpRecord::Eof } else { PumpRecord::Chunk(buf.take(n as int)) },
        Err(e) => if io_error_interrupted(e) { PumpRecord::Interrupted } else { PumpRecord::Failed },
    }
}

/// One read the pump made: the reader and buffer before and after, and
/// the read's result.
pub ghost struct PumpRead<R> {
    pub before: R,
    pub buf_before: Seq<u8>,
    pub after: R,
    pub buf_after: Seq<u8>,
    pub result: Result<usize, std::io::Error>,
}

/// How the pump records a read.
pub open spec fn record_of<R>(read: PumpRead<R>) -> PumpRecord {
    pump_record(read.result, read.buf_after)
}

/// Reads `reader` to EOF, invoking `on_chunk` for every nonempty chunk, in
/// order. Retries transient interruptions (EINTR); returns on EOF or any
/// other read error, reading no further.
///
/// The returned trace holds every read in order: the first starts from
/// `reader`, each next one from the state the previous one left, each with
/// a buffer of [`PUMP_CHUNK_LEN`] bytes and related by the reader's
/// `read_post`. Each read but the last is a retried interruption or a chunk
/// (nonempty, at most [`PUMP_CHUNK_LEN`] bytes: the bytes that read put in
/// the buffer, handed to `on_chunk`), and the last is the EOF or failure
/// the pump stopped at. The loop also ends after `u64::MAX` read attempts,
/// a bound no reader reaches in practice.
///
/// Pair with session close: a session reader reaches EOF only once the
/// session is closed, so close before joining a thread running this.
pub fn pump_reader<R: PtyRead, F: FnMut(&[u8])>(reader: R, on_chunk: F) -> (trace: Ghost<Seq<PumpRead<R>>>)
    requires
        forall|c: &[u8]| 0 < c@.len() <= PUMP_CHUNK_LEN ==> #[trigger] on_chunk.requires((c,)),
    ensures
        trace@.len() > 0,
        trace@[0].before == reader,
        forall|i: int| 0 <= i < trace@.len() - 1 ==> #[trigger] trace@[i + 1].before == trace@[i].after,
        forall|i: int| 0 <= i < trace@.len() ==> {
            &&& (#[trigger] trace@[i]).buf_before.len() == PUMP_CHUNK_LEN
            &&& trace@[i].before.read_post(trace@[i].buf_before, trace@[i].after, trace@[i].buf_after, trace@[i].result)
        },
        forall|i: int| 0 <= i < trace@.len() - 1 ==> is_pump_step(record_of(#[trigger] trace@[i])),
        is_pump_end(record_of(trace@.last()))
            || (trace@.len() == u64::MAX && is_pump_step(record_of(trace@.last()))),
        forall|i: int| 0 <= i < trace@.len() ==> (record_of(#[trigger] trace@[i]) matches PumpRecord::Chunk(s) ==>
            exists|c: &[u8]| c@ == s && call_ensures(on_chunk, (c,), ())),
{
    let ghost callback = on_chunk;
    let ghost start = reader;
    let mut reader = reader;
    let mut on_chunk = on_chunk;
    let mut buf = [0u8; 4096];
    let mut attempts: u64 = 0;
    let mut done = false;
    let ghost mut trace: Seq<PumpRead<R>> = Seq::empty();
    while attempts < u64::MAX && !done
        invariant
            buf@.len() == PUMP_CHUNK_LEN,
            on_chunk == callback,
            forall|c: &[u8]| 0 < c@.len() <= PUMP_CHUNK_LEN ==> #[trigger] on_chunk.requires((c,)),
            trace.len() == attempts,
            trace.len() == 0 ==> reader == start,
            trace.len() > 0 ==> trace[0].before == start && trace.last().after == reader,
            forall|i: int| 0 <= i < trace.len() - 1 ==> #[trigger] trace[i + 1].before == trace[i].after,
            forall|i: int| 0 <= i < trace.len() ==> {
                &&& (#[trigger] trace[i]).buf_before.len() == PUMP_CHUNK_LEN
                &&& trace[i].before.read_post(trace[i].buf_before, trace[i].after, trace[i].buf_after, trace[i].result)
            },
            done ==> trace.len() > 0 && is_pump_end(record_of(trace.last())),
            forall|i: int| 0 <= i < trace.len() - 1 ==> is_pump_step(record_of(#[trigger] trace[i])),
            !done && trace.len() > 0 ==> is_pump_step(record_of(trace.last())),
            forall|i: int| 0 <= i < trace.len() ==> (record_of(#[trigger] trace[i]) matches PumpRecord::Chunk(s) ==>
                exists|c: &[u8]| c@ == s && call_ensures(callback, (c,), ())),
        decreases u64::MAX - attempts,
    {
        let ghost before = reader;
        let ghost buf_before = buf@;
        attempts = attempts + 1;
        let r = reader.read(&mut buf);
        let ghost rec = PumpRead { before, buf_before, after: reader, buf_after: buf@, result: r };
        match classify_read(&r) {
            ReadEvent::Eof => {
                done = true;
            },
            ReadEvent::Data(n) => {
                let (chunk, _) = buf.split_at(n);
                assert(chunk@ == buf@.take(n as int));
                on_chunk(chunk);
            },
            ReadEvent::Interrupted => {},
            ReadEvent::Failed => {
                done = true;
            },
        }
        proof {
            trace = trace.push(rec);
        }
    }
    Ghost(trace)
}

/// The bytes a pump trace handed on: its chunks, concatenated in order.
pub open spec fn pump_bytes<R>(t: Seq<PumpRead<R>>) -> Seq<u8>
    decreases t.len(),
{
    if t.len() == 0 {
        Seq::empty()
    } else {
        pump_bytes(t.drop_last()) + match record_of(t.last()) {
            PumpRecord::Chunk(s) => s,
            _ => Seq::empty(),
        }
    }
}

/// Whether `t` is a chain of slice reads, each from the state the previous
/// one left, each with a [`PUMP_CHUNK_LEN`]-byte buffer.
pub open spec fn slice_read_chain<'a>(t: Seq<PumpRead<&'a [u8]>>) -> bool {
    &&& forall|i: int| 0 <= i < t.len() - 1 ==> #[trigger] t[i + 1].before == t[i].after
    &&& forall|i: int| 0 <= i < t.len() ==> {
        &&& (#[trigger] t[i]).buf_before.len() == PUMP_CHUNK_LEN
        &&& t[i].before.read_post(t[i].buf_before, t[i].after, t[i].buf_after, t[i].result)
    }
}

proof fn lemma_slice_chain_prefix<'a>(t: Seq<PumpRead<&'a [u8]>>, k: int)
    requires
        slice_read_chain(t),
        1 <= k <= t.len(),
    ensures
        pump_bytes(t.take(k)) + t[k - 1].after@ == t[0].before@,
    decreases k,
{
    let rd = t[k - 1];
    assert(rd.before.read_post(rd.buf_before, rd.after, rd.buf_after, rd.result));
    let n = rd.result->Ok_0;
    assert(rd.before@ =~= rd.before@.take(n as int) + rd.after@);
    assert(t.take(k).drop_last() =~= t.take(k - 1));
    assert(t.take(k).last() == rd);
    if k == 1 {
        assert(t.take(0) =~= Seq::<PumpRead<&'a [u8]>>::empty());
        if n == 0 {
            assert(rd.before@.take(0) =~= Seq::<u8>::empty());
        }
    } else {
        lemma_slice_chain_prefix(t, k - 1);
        assert(t[(k - 2) + 1].before == t[k - 2].after);
        if n == 0 {
            assert(rd.before@.take(0) =~= Seq::<u8>::empty());
        }
    }
}

/// Pumping a byte slice hands on exactly its bytes: over a trace of slice
/// reads that ends at EOF (as [`pump_reader`]'s does for a slice), the
/// chunks concatenate to the slice the pump started from.
pub proof fn law_slice_pump_delivers_input<'a>(t: Seq<PumpRead<&'a [u8]>>)
    requires
        t.len() > 0,
        slice_read_chain(t),
        record_of(t.last()) is Eof,
    ensures
        pump_bytes(t) == t[0].before@,
{
    lemma_slice_chain_prefix(t, t.len() as int);
    assert(t.take(t.len() as int) =~= t);
    let rd = t.last();
    assert(rd.before.read_post(rd.buf_before, rd.after, rd.buf_after, rd.result));
    assert(rd.after@ =~= Seq::<u8>::empty());
}

} // verus!
