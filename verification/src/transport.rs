//! What the driver asks of whatever carries bytes to the printer.
//!
//! A transport is anything that can take a run of bytes and either deliver all
//! of them or fail, and that may also hand bytes back. Opening, closing and
//! flushing a link are the caller's business and have no place here.
//!
//! To say what a piece of code did with a transport, a transport may keep a
//! log: the sequence of requests made of it, each with the answer it gave. A
//! request enters the log whether it succeeded or not, so the log shows both
//! what was delivered and what was merely attempted. The log exists in proofs
//! only. A transport need not keep one, and none that is written in plain Rust
//! does; of such a transport nothing is claimed.

use vstd::prelude::*;

verus! {

/// One write request as a transport saw it.
pub struct WriteRecord<E> {
    /// The bytes the transport was asked to deliver.
    pub data: Seq<u8>,
    /// `Ok` if it delivered all of them, else the failure it reported.
    pub result: Result<(), E>,
}

/// One read request as a transport answered it.
pub struct ReadRecord<E> {
    /// The caller's buffer as the transport left it.
    pub buffer: Seq<u8>,
    /// The number of bytes it read, or the failure it reported.
    pub result: Result<usize, E>,
}

/// A log after one more request. Where no log is kept, none appears.
pub open spec fn logged<R>(log: Option<Seq<R>>, record: R) -> Option<Seq<R>> {
    match log {
        Some(earlier) => Some(earlier.push(record)),
        None => None,
    }
}

/// Trait for writing bytes to an underlying transport.
pub trait Write {
    /// Error type produced when writing fails.
    type Error;

    /// Every write request made of this transport so far, oldest first, or
    /// `None` where the transport keeps no log.
    open spec fn write_log(&self) -> Option<Seq<WriteRecord<Self::Error>>> {
        None
    }

    /// Write raw bytes to the transport: all of them, or fail.
    ///
    /// A transport that can only take part of a buffer at a time retries on its
    /// own until it is done or gives up; a short write is never a success.
    fn write(&mut self, data: &[u8]) -> (r: Result<(), Self::Error>)
        ensures
            (*final(self)).write_log() == logged(
                (*old(self)).write_log(),
                WriteRecord { data: data@, result: r },
            ),
    ;
}

impl<T: Write + ?Sized> Write for &mut T {
    type Error = T::Error;

    open spec fn write_log(&self) -> Option<Seq<WriteRecord<Self::Error>>> {
        (**self).write_log()
    }

    fn write(&mut self, data: &[u8]) -> (r: Result<(), Self::Error>) {
        (**self).write(data)
    }
}

/// Trait for reading bytes from an underlying transport.
pub trait Read {
    /// Error type produced when reading fails.
    type Error;

    /// Every read request made of this transport so far, oldest first, or
    /// `None` where the transport keeps no log.
    open spec fn read_log(&self) -> Option<Seq<ReadRecord<Self::Error>>> {
        None
    }

    /// Read bytes into the provided buffer, returning the number of bytes read.
    ///
    /// The count never exceeds the buffer's length, and is zero when no data is
    /// available.
    fn read(&mut self, data: &mut [u8]) -> (r: Result<usize, Self::Error>)
        ensures
            r matches Ok(n) ==> n <= old(data)@.len(),
            final(data)@.len() == old(data)@.len(),
            (*final(self)).read_log() == logged(
                (*old(self)).read_log(),
                ReadRecord { buffer: final(data)@, result: r },
            ),
    ;
}

impl<T: Read + ?Sized> Read for &mut T {
    type Error = T::Error;

    open spec fn read_log(&self) -> Option<Seq<ReadRecord<Self::Error>>> {
        (**self).read_log()
    }

    fn read(&mut self, buf: &mut [u8]) -> (r: Result<usize, Self::Error>) {
        (**self).read(buf)
    }
}

/// One request is entered once, at the end, whatever the log held before:
/// the earlier entries stay as they were and in their order.
pub proof fn lemma_logged_appends_once<R>(before: Seq<R>, record: R)
    ensures
        logged(Some(before), record) matches Some(after) && {
            &&& after.len() == before.len() + 1
            &&& after.subrange(0, before.len() as int) == before
            &&& after[before.len() as int] == record
        },
{
    assert(before.push(record).subrange(0, before.len() as int) == before);
}

/// The bytes that a transport with this log has delivered: the data of every
/// request it answered with `Ok`, end to end in the order they were made.
///
/// A failed request adds nothing, since no part of it is known to have arrived.
pub open spec fn accepted_bytes<E>(log: Seq<WriteRecord<E>>) -> Seq<u8>
    decreases log.len(),
{
    if log.len() == 0 {
        Seq::empty()
    } else if log.last().result is Ok {
        accepted_bytes(log.drop_last()) + log.last().data
    } else {
        accepted_bytes(log.drop_last())
    }
}

/// One more request extends the delivered bytes by its data if it succeeded,
/// and leaves them as they were if it failed.
pub proof fn lemma_accepted_bytes_push<E>(log: Seq<WriteRecord<E>>, record: WriteRecord<E>)
    ensures
        record.result is Ok ==> accepted_bytes(log.push(record)) == accepted_bytes(log)
            + record.data,
        record.result is Err ==> accepted_bytes(log.push(record)) == accepted_bytes(log),
{
    assert(log.push(record).drop_last() == log);
    assert(log.push(record).last() == record);
}

/// What an operation of two writes leaves in a transport's log, where it
/// started from `before` and returned `r`.
///
/// Either the first write failed, `r` is that failure and the second write was
/// never attempted; or the first write succeeded, the second was attempted
/// and `r` is its answer. Nothing undoes the first write when the second fails.
pub open spec fn wrote_pair<E>(
    before: Option<Seq<WriteRecord<E>>>,
    first: Seq<u8>,
    second: Seq<u8>,
    r: Result<(), E>,
    after: Option<Seq<WriteRecord<E>>>,
) -> bool {
    ||| r is Err && after == logged(before, WriteRecord { data: first, result: r })
    ||| after == logged(
        logged(before, WriteRecord { data: first, result: Ok(()) }),
        WriteRecord { data: second, result: r },
    )
}

/// Two writes in a row, the second made only where the first succeeded, are
/// one operation of two writes: `first` and `second` are the transport's
/// answers, `mid` and `after` its log after each.
pub proof fn lemma_two_writes_make_a_pair<E>(
    before: Option<Seq<WriteRecord<E>>>,
    first_data: Seq<u8>,
    first: Result<(), E>,
    mid: Option<Seq<WriteRecord<E>>>,
    second_data: Seq<u8>,
    second: Result<(), E>,
    after: Option<Seq<WriteRecord<E>>>,
)
    requires
        mid == logged(before, WriteRecord { data: first_data, result: first }),
        after == logged(mid, WriteRecord { data: second_data, result: second }),
    ensures
        first is Err ==> wrote_pair(before, first_data, second_data, first, mid),
        first is Ok ==> wrote_pair(before, first_data, second_data, second, after),
{
    if first is Ok {
        assert(first->Ok_0 == ());
    }
}

/// A failure of the first write ends an operation of two writes: the log
/// grows by that one request, the second write is not attempted, and the
/// failure is what the operation returns. Only after a first write that
/// succeeded does the second request follow, and the operation returns its
/// answer.
pub proof fn lemma_first_failure_ends_pair<E>(
    before: Seq<WriteRecord<E>>,
    first: Seq<u8>,
    second: Seq<u8>,
    r: Result<(), E>,
    after: Seq<WriteRecord<E>>,
)
    requires
        wrote_pair(Some(before), first, second, r, Some(after)),
    ensures
        after.len() > before.len(),
        after.subrange(0, before.len() as int) == before,
        after[before.len() as int].data == first,
        after[before.len() as int].result is Err ==> {
            &&& after.len() == before.len() + 1
            &&& r == after[before.len() as int].result
        },
        after[before.len() as int].result is Ok ==> {
            &&& after.len() == before.len() + 2
            &&& after[before.len() as int + 1] == WriteRecord { data: second, result: r }
        },
{
    let one = WriteRecord { data: first, result: r };
    let ok = WriteRecord::<E> { data: first, result: Ok(()) };
    let two = WriteRecord { data: second, result: r };
    if after == before.push(one) {
        assert(before.push(one).subrange(0, before.len() as int) == before);
    } else {
        assert(before.push(ok).push(two).subrange(0, before.len() as int) == before);
    }
}

/// An operation of two writes that succeeds has made both, in order, and the
/// transport has delivered the first run of bytes followed by the second.
pub proof fn lemma_pair_success<E>(
    before: Seq<WriteRecord<E>>,
    first: Seq<u8>,
    second: Seq<u8>,
    r: Result<(), E>,
    after: Seq<WriteRecord<E>>,
)
    requires
        wrote_pair(Some(before), first, second, r, Some(after)),
        r is Ok,
    ensures
        after == before.push(WriteRecord { data: first, result: Ok(()) }).push(
            WriteRecord { data: second, result: Ok(()) },
        ),
        accepted_bytes(after) == accepted_bytes(before) + first + second,
{
    assert(r->Ok_0 == ());
    let one = WriteRecord::<E> { data: first, result: Ok(()) };
    let two = WriteRecord::<E> { data: second, result: Ok(()) };
    lemma_accepted_bytes_push(before, one);
    lemma_accepted_bytes_push(before.push(one), two);
}

} // verus!
