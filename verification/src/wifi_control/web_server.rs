//! The access point's small web server: when a request has been received,
//! and whether it is answered.
//!
//! A request is read chunk by chunk into a buffer of fixed capacity until the
//! blank line that ends its header arrives. It is answered when that blank
//! line arrives or when reading fails; it is dropped unanswered when the
//! deadline passes first.
use vstd::prelude::*;

verus! {

/// Capacity in bytes of the request buffer.
pub const REQUEST_CAPACITY: usize = 1024;

/// How long in milliseconds a client may take to send its request.
pub const REQUEST_TIMEOUT_MILLIS: u64 = 20_000;

/// How long in milliseconds the server keeps the socket working between
/// two looks for a client.
pub const COOLDOWN_MILLIS: u64 = 5_000;

/// The page sent in answer to every request.
pub const RESPONSE_PAGE: &'static str = "HTTP/1.0 200 OK\r\n\r\n<html><body><h1>Hello Rust! Hello esp-wifi!</h1></body></html>\r\n";

/// The listening socket is opened again whenever it is found closed.
pub fn needs_listen(socket_open: bool) -> (r: bool)
    ensures
        r == !socket_open,
{
    !socket_open
}

/// The end of the pause between two looks for a client, `COOLDOWN_MILLIS`
/// after `now`; `None` where that time does not fit the clock.
pub fn cooldown_deadline(now: u64) -> (r: Option<u64>)
    ensures
        r == (if now + COOLDOWN_MILLIS <= u64::MAX {
            Some((now + COOLDOWN_MILLIS) as u64)
        } else {
            None::<u64>
        }),
{
    if now <= u64::MAX - COOLDOWN_MILLIS {
        Some(now + COOLDOWN_MILLIS)
    } else {
        None
    }
}

/// The pause is over once the clock has reached its end.
pub fn cooldown_over(now: u64, deadline: u64) -> (r: bool)
    ensures
        r == (now >= deadline),
{
    now >= deadline
}

/// `bytes` holds the blank line `\r\n\r\n` that ends a request header.
pub open spec fn has_header_end(bytes: Seq<u8>) -> bool {
    exists|i: int| 0 <= i && i + 4 <= bytes.len() && #[trigger] header_end_at(bytes, i)
}

pub open spec fn header_end_at(bytes: Seq<u8>, i: int) -> bool {
    &&& bytes[i] == 0x0d
    &&& bytes[i + 1] == 0x0a
    &&& bytes[i + 2] == 0x0d
    &&& bytes[i + 3] == 0x0a
}

/// What became of a request after a read.
#[derive(Debug, Clone, Copy, PartialEq, Eq, Structural)]
pub enum ReadOutcome {
    /// The header is not complete yet; read on.
    Pending,
    /// The header is complete: answer it.
    Complete,
    /// Reading failed: answer with what there is.
    ReadFailed,
    /// The deadline passed: drop the client unanswered.
    TimedOut,
}

/// Whether the client gets the page after this outcome.
pub open spec fn is_answered(outcome: ReadOutcome) -> bool {
    outcome == ReadOutcome::Complete || outcome == ReadOutcome::ReadFailed
}

impl ReadOutcome {
    /// Whether the client gets the page.
    pub fn answers(&self) -> (r: bool)
        ensures
            r == is_answered(*self),
    {
        match self {
            ReadOutcome::Complete | ReadOutcome::ReadFailed => true,
            _ => false,
        }
    }

    /// Whether reading goes on.
    pub fn reads_on(&self) -> (r: bool)
        ensures
            r == (*self == ReadOutcome::Pending),
    {
        match self {
            ReadOutcome::Pending => true,
            _ => false,
        }
    }
}

/// Once the end of the header has arrived, more bytes do not undo it: a
/// complete request stays complete.
pub proof fn lemma_header_end_persists(received: Seq<u8>, more: Seq<u8>)
    requires
        has_header_end(received),
    ensures
        has_header_end(received + more),
{
    let i = choose|i: int| 0 <= i && i + 4 <= received.len() && #[trigger] header_end_at(received, i);
    assert(header_end_at(received + more, i));
}

/// The outcome of a successful read that left `received` in the buffer at time `now`.
pub open spec fn outcome_after_read(received: Seq<u8>, now: u64, deadline: u64) -> ReadOutcome {
    if has_header_end(received) {
        ReadOutcome::Complete
    } else if now > deadline {
        ReadOutcome::TimedOut
    } else {
        ReadOutcome::Pending
    }
}

/// Looks for the blank line that ends a request header.
pub fn find_header_end(bytes: &[u8]) -> (r: bool)
    ensures
        r == has_header_end(bytes@),
{
    let n = bytes.len();
    if n < 4 {
        return false;
    }
    let mut i: usize = 0;
    while i <= n - 4
        invariant
            n == bytes@.len(),
            4 <= n,
            i <= n - 3,
            forall|k: int| 0 <= k < i ==> !#[trigger] header_end_at(bytes@, k),
        decreases n - i,
    {
        if bytes[i] == 0x0d && bytes[i + 1] == 0x0a && bytes[i + 2] == 0x0d && bytes[i + 3] == 0x0a {
            assert(header_end_at(bytes@, i as int));
            return true;
        }
        i = i + 1;
    }
    assert forall|k: int| 0 <= k && k + 4 <= bytes@.len() implies !#[trigger] header_end_at(
        bytes@,
        k,
    ) by {
        assert(k < i);
    }
    false
}

/// A request being received from one client.
pub struct RequestReader {
    received: Vec<u8>,
    deadline: u64,
}

impl RequestReader {
    /// The bytes received so far.
    pub closed spec fn received_bytes(self) -> Seq<u8> {
        self.received@
    }

    /// The time after which the request is dropped.
    pub closed spec fn deadline_millis(self) -> u64 {
        self.deadline
    }

    pub open spec fn wf(self) -> bool {
        self.received_bytes().len() <= REQUEST_CAPACITY
    }

    /// Starts receiving a request at time `now`: nothing received yet, and
    /// `REQUEST_TIMEOUT_MILLIS` to complete it.
    pub fn start(now: u64) -> (r: RequestReader)
        requires
            now + REQUEST_TIMEOUT_MILLIS <= u64::MAX,
        ensures
            r.wf(),
            r.received_bytes() == Seq::<u8>::empty(),
            r.deadline_millis() == now + REQUEST_TIMEOUT_MILLIS,
    {
        RequestReader { received: Vec::new(), deadline: now + REQUEST_TIMEOUT_MILLIS }
    }

    /// How many more bytes the buffer takes.
    pub fn room(&self) -> (r: usize)
        requires
            self.wf(),
        ensures
            r == REQUEST_CAPACITY - self.received_bytes().len(),
    {
        REQUEST_CAPACITY - self.received.len()
    }

    /// The bytes received so far.
    pub fn received(&self) -> (r: &[u8])
        ensures
            r@ == self.received_bytes(),
    {
        self.received.as_slice()
    }

    pub fn deadline(&self) -> (r: u64)
        ensures
            r == self.deadline_millis(),
    {
        self.deadline
    }

    /// Takes in the result of a read at time `now`: the bytes read, or `None`
    /// when reading failed. A failed read is answered at once; otherwise the
    /// bytes are appended and the request is complete when the buffer holds the
    /// end of the header, dropped when `now` is past the deadline, and pending
    /// else.
    pub fn on_read(&mut self, chunk: Option<&[u8]>, now: u64) -> (r: ReadOutcome)
        requires
            old(self).wf(),
            chunk matches Some(c) ==> c@.len() <= REQUEST_CAPACITY - old(self).received_bytes().len(),
        ensures
            final(self).wf(),
            final(self).deadline_millis() == old(self).deadline_millis(),
            match chunk {
                None => {
                    &&& r == ReadOutcome::ReadFailed
                    &&& final(self).received_bytes() == old(self).received_bytes()
                },
                Some(c) => {
                    &&& final(self).received_bytes() == old(self).received_bytes() + c@
                    &&& r == outcome_after_read(
                        final(self).received_bytes(),
                        now,
                        old(self).deadline_millis(),
                    )
                },
            },
    {
        match chunk {
            None => ReadOutcome::ReadFailed,
            Some(c) => {
                let ghost before = self.received@;
                let mut k: usize = 0;
                while k < c.len()
                    invariant
                        k <= c@.len(),
                        self.received@ == before + c@.take(k as int),
                        self.deadline == old(self).deadline,
                    decreases c@.len() - k,
                {
                    self.received.push(c[k]);
                    k = k + 1;
                    assert(c@.take(k as int) =~= c@.take(k - 1).push(c@[k - 1]));
                }
                assert(c@.take(k as int) =~= c@);
                if find_header_end(self.received.as_slice()) {
                    ReadOutcome::Complete
                } else if now > self.deadline {
                    ReadOutcome::TimedOut
                } else {
                    ReadOutcome::Pending
                }
            },
        }
    }
}

/// The four bytes `\r\n\r\n`.
pub open spec fn blank_line() -> Seq<u8> {
    seq![0x0du8, 0x0a, 0x0d, 0x0a]
}

/// A request header has ended exactly when the four bytes `\r\n\r\n` stand
/// together somewhere in the buffer, at any position.
pub proof fn lemma_header_end_is_blank_line_anywhere(bytes: Seq<u8>)
    ensures
        has_header_end(bytes) <==> exists|i: int|
            0 <= i && i + 4 <= bytes.len() && #[trigger] bytes.subrange(i, i + 4) == blank_line(),
{
    if has_header_end(bytes) {
        let i = choose|i: int| 0 <= i && i + 4 <= bytes.len() && #[trigger] header_end_at(bytes, i);
        assert(bytes.subrange(i, i + 4) =~= blank_line());
    }
    if exists|i: int| 0 <= i && i + 4 <= bytes.len() && #[trigger] bytes.subrange(i, i + 4) == blank_line() {
        let i = choose|i: int| 0 <= i && i + 4 <= bytes.len() && #[trigger] bytes.subrange(i, i + 4) == blank_line();
        assert(bytes.subrange(i, i + 4)[0] == bytes[i]);
        assert(bytes.subrange(i, i + 4)[1] == bytes[i + 1]);
        assert(bytes.subrange(i, i + 4)[2] == bytes[i + 2]);
        assert(bytes.subrange(i, i + 4)[3] == bytes[i + 3]);
        assert(header_end_at(bytes, i));
    }
}

/// Whatever comes before and after it, a blank line completes the header.
pub proof fn lemma_blank_line_completes_header(before: Seq<u8>, after: Seq<u8>)
    ensures
        has_header_end(before + blank_line() + after),
{
    let b = before + blank_line() + after;
    let i = before.len() as int;
    assert(b.subrange(i, i + 4) =~= blank_line());
    lemma_header_end_is_blank_line_anywhere(b);
}

/// Bytes without `\r\n\r\n` anywhere do not complete the header.
pub proof fn lemma_no_blank_line_no_header_end(bytes: Seq<u8>)
    requires
        forall|i: int| 0 <= i && i + 4 <= bytes.len() ==> #[trigger] bytes.subrange(i, i + 4) != blank_line(),
    ensures
        !has_header_end(bytes),
{
    lemma_header_end_is_blank_line_anywhere(bytes);
}

/// The timeout is measured from when the client connected: for a reader
/// started at `start` (deadline `start + 20 000` ms), a read that leaves no
/// `\r\n\r\n` in the buffer is still pending at every time up to
/// `start + 20 000`, and timed out at every later time; a buffer with the
/// blank line is complete at any time.
pub proof fn lemma_timeout_counts_from_start(received: Seq<u8>, start: u64, now: u64)
    requires
        start + 20_000 <= u64::MAX,
    ensures
        (forall|i: int| 0 <= i && i + 4 <= received.len() ==> #[trigger] received.subrange(i, i + 4)
            != blank_line()) ==> (now <= start + 20_000 ==> outcome_after_read(
            received,
            now,
            (start + 20_000) as u64,
        ) == ReadOutcome::Pending) && (now > start + 20_000 ==> outcome_after_read(
            received,
            now,
            (start + 20_000) as u64,
        ) == ReadOutcome::TimedOut),
        (exists|i: int| 0 <= i && i + 4 <= received.len() && #[trigger] received.subrange(i, i + 4)
            == blank_line()) ==> outcome_after_read(received, now, (start + 20_000) as u64)
            == ReadOutcome::Complete,
{
    lemma_header_end_is_blank_line_anywhere(received);
}

/// A reader started at `start` has its deadline 20 000 ms later.
pub proof fn lemma_deadline_is_twenty_seconds_after_start(start: u64, r: RequestReader)
    requires
        start + 20_000 <= u64::MAX,
        r.deadline_millis() == start + REQUEST_TIMEOUT_MILLIS,
    ensures
        r.deadline_millis() == start + 20_000,
{
}

/// A request is answered only when it ended or reading failed: the page is
/// never sent while reading goes on, and never after the deadline dropped
/// the client; complete and failed reads are always answered.
pub proof fn lemma_answered_only_when_reading_stopped(outcome: ReadOutcome)
    ensures
        is_answered(outcome) ==> outcome != ReadOutcome::Pending,
        is_answered(outcome) ==> outcome != ReadOutcome::TimedOut,
        outcome == ReadOutcome::Complete ==> is_answered(outcome),
        outcome == ReadOutcome::ReadFailed ==> is_answered(outcome),
{
}

} // verus!
