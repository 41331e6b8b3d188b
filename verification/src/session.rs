//! One in-flight search: a worker bound to one haystack and one pattern, a
//! non-blocking result channel, and a cancellation protocol.
//!
//! The worker body is the verified `SearchTask::run`: it scans incrementally
//! and pushes each offset into the channel as it is found, stopping early as
//! soon as a send fails — which happens exactly when the receiving side has
//! been dropped. Dropping the receiver is therefore the cancellation signal,
//! and cancellation latency is bounded by one in-flight offset.
//!
//! The library cannot start an execution unit itself, so `create` takes the
//! one capability it lacks as an argument: a spawner that runs a task to
//! completion on a detached worker and returns a handle that can be joined.

use crate::search::find_from;
use vstd::std_specs::convert::IntoSpec;
use crate::search::Haystack;
use crate::search::Needle;
use crate::search::NeedleOwned;
use vstd::prelude::*;

verus! {

/// The observable status of a session when no offset is ready: the worker
/// may still produce (`Pending`), or it has exited and every buffered
/// offset has been read (`Finished`).
#[derive(Debug, Clone, Copy, PartialEq, Eq, Structural)]
pub enum SearchState {
    Pending,
    Finished,
}

/// The one failure a session can report: the worker did not terminate
/// cleanly. It is surfaced only by `cancel`, never per offset.
#[derive(Debug, Clone, Copy, PartialEq, Eq, Structural)]
pub enum SessionError {
    WorkerPanicked,
}

impl SessionError {
    /// A human-readable account of the failure.
    pub fn message(&self) -> (r: &'static str)
        ensures
            r@ == "Sub-thread panicked"@,
    {
        "Sub-thread panicked"
    }
}

/// A joinable handle on a detached worker, supplied by the driver. Joining
/// waits for the worker to exit; `Err` means it did not terminate cleanly.
pub trait WorkerHandle: Sized {
    /// Blocks until the worker has exited.
    fn join_worker(self) -> Result<(), ()>;
}

#[verifier::external_type_specification]
#[verifier::external_body]
#[verifier::reject_recursive_types(T)]
pub struct ExSender<T>(std::sync::mpsc::Sender<T>);

#[verifier::external_type_specification]
#[verifier::external_body]
#[verifier::reject_recursive_types(T)]
pub struct ExReceiver<T>(std::sync::mpsc::Receiver<T>);

/// Relies on std::sync::mpsc::channel: a fresh connected FIFO channel,
/// returned as its send and receive endpoints.
#[verifier::external_body]
fn new_channel() -> (r: (std::sync::mpsc::Sender<usize>, std::sync::mpsc::Receiver<usize>)) {
    std::sync::mpsc::channel()
}

/// Relies on std::sync::mpsc::Sender::send: returns Ok while the receiver
/// is alive and Err once it has been dropped; the sent value is only
/// buffered, never blocked on.
#[verifier::external_body]
fn send_offset(tx: &std::sync::mpsc::Sender<usize>, v: usize) -> (r: bool) {
    match tx.send(v) {
        Ok(()) => true,
        Err(_) => false,
    }
}

/// One outcome of a non-blocking poll of the result channel.
#[derive(Debug, Clone, Copy, PartialEq, Eq, Structural)]
pub enum PollOutcome {
    /// An offset was buffered and is handed out.
    Item(usize),
    /// Nothing is buffered right now, but the sender is still alive.
    Empty,
    /// The sender is gone and the buffer is exhausted.
    Closed,
}

/// Relies on std::sync::mpsc::Receiver::try_recv: a non-blocking poll that
/// returns a buffered value, or says that none is buffered yet, or that the
/// sender is gone and the buffer is exhausted.
#[verifier::external_body]
fn poll_channel(rx: &std::sync::mpsc::Receiver<usize>) -> (r: PollOutcome) {
    match rx.try_recv() {
        Ok(v) => PollOutcome::Item(v),
        Err(std::sync::mpsc::TryRecvError::Empty) => PollOutcome::Empty,
        Err(std::sync::mpsc::TryRecvError::Disconnected) => PollOutcome::Closed,
    }
}

/// Relies on std::mem::drop: dropping the receiver disconnects the channel,
/// which is the signal the worker observes as a failed send.
#[verifier::external_body]
fn close_receiver(rx: std::sync::mpsc::Receiver<usize>) {
    drop(rx)
}

/// How one poll outcome is reported to a caller: a buffered offset is an
/// `Ok`, an empty-but-open channel is `Pending`, a closed and exhausted
/// channel is `Finished`.
pub open spec fn state_of_poll(o: PollOutcome) -> Result<usize, SearchState> {
    match o {
        PollOutcome::Item(v) => Ok(v),
        PollOutcome::Empty => Err(SearchState::Pending),
        PollOutcome::Closed => Err(SearchState::Finished),
    }
}

/// Turns a poll outcome into the caller-facing result, exactly as
/// `state_of_poll` says.
pub fn resolve_poll(o: PollOutcome) -> (r: Result<usize, SearchState>)
    ensures
        r == state_of_poll(o),
{
    match o {
        PollOutcome::Item(v) => Ok(v),
        PollOutcome::Empty => Err(SearchState::Pending),
        PollOutcome::Closed => Err(SearchState::Finished),
    }
}

/// Everything one worker needs: the haystack, the encoded pattern, and the
/// sending end of the result channel.
pub struct SearchTask<H: Haystack> {
    haystack: H,
    needle: NeedleOwned,
    tx: std::sync::mpsc::Sender<usize>,
}

impl<H: Haystack> SearchTask<H> {
    /// The haystack the worker searches.
    pub closed spec fn spec_haystack(&self) -> H {
        self.haystack
    }

    /// The pattern bytes the worker searches for.
    pub closed spec fn spec_needle(&self) -> Seq<u8> {
        self.needle@
    }

    /// The worker body. Scans the haystack and sends every offset at which
    /// the pattern occurs — overlapping occurrences included — in strictly
    /// increasing order, one send each, and returns early at the first
    /// failed send. An empty pattern, and one longer than the haystack,
    /// sends nothing.
    pub fn run(self) {
        let SearchTask { haystack, needle, tx } = self;
        let hs: &[u8] = haystack.as_bytes();
        let pat: &[u8] = needle.as_bytes();
        let hn: usize = hs.len();
        if pat.len() >= 1 && pat.len() <= hn {
            let mut pos: usize = 0;
            let mut running: bool = true;
            while running
                invariant
                    pat@.len() >= 1,
                    hn == hs@.len(),
                    pos <= hs@.len(),
                decreases hs@.len() - pos + (if running {
                    1int
                } else {
                    0int
                }),
            {
                match find_from(hs, pat, pos) {
                    Some(m) => {
                        if send_offset(&tx, m) {
                            pos = m + 1;
                        } else {
                            running = false;
                        }
                    },
                    None => {
                        running = false;
                    },
                }
            }
        }
    }
}

/// One search bound to one haystack and one pattern: a handle on the
/// worker, and the receiving end of its result channel.
pub struct AsyncSearch<W: WorkerHandle> {
    join_handle: W,
    receiver: std::sync::mpsc::Receiver<usize>,
}

impl<W: WorkerHandle> AsyncSearch<W> {
    /// The handle on this session's worker.
    pub closed spec fn spec_handle(&self) -> W {
        self.join_handle
    }

    /// Builds the task for an already encoded pattern, hands it to the
    /// spawner, and returns at once; the spawner must run the task on a
    /// detached worker. The session's worker is bound to exactly this
    /// haystack and this pattern: the task handed to the spawner carries
    /// them, and the handle held is the one the spawner returned for it.
    /// The worker emits the offsets that `crate::search::find_all` would
    /// return, in the same strictly increasing order.
    pub fn create_from_owned<H, S>(haystack: H, needle: NeedleOwned, spawn: S) -> (r: Self) where
        H: Haystack,
        S: FnOnce(SearchTask<H>) -> W,

        requires
            forall|t: SearchTask<H>| #[trigger] spawn.requires((t,)),
        ensures
            exists|t: SearchTask<H>|
                #[trigger] spawn.ensures((t,), r.spec_handle()) && t.spec_haystack() == haystack
                    && t.spec_needle() == needle@,
    {
        let (tx, rx) = new_channel();
        let task = SearchTask { haystack, needle, tx };
        let ghost witness = task;
        let join_handle = spawn(task);
        let result = Self { join_handle, receiver: rx };
        proof {
            assert(witness.spec_haystack() == haystack);
            assert(witness.spec_needle() == needle@);
            assert(spawn.ensures((witness,), result.spec_handle()));
        }
        result
    }

    /// Encodes a typed needle and starts a session for it. Non-blocking.
    /// The worker is bound to this haystack and the encoding of this
    /// needle, as in `create_from_owned`.
    pub fn create<'s, H, S, N>(haystack: H, s: N, spawn: S) -> (r: Self) where
        H: Haystack,
        S: FnOnce(SearchTask<H>) -> W,
        N: Into<Needle<'s>>,

        requires
            forall|t: SearchTask<H>| #[trigger] spawn.requires((t,)),
        ensures
            <N as vstd::std_specs::convert::IntoSpec<Needle<'s>>>::obeys_into_spec() ==> (exists|
                t: SearchTask<H>,
            |
                #[trigger] spawn.ensures((t,), r.spec_handle()) && t.spec_haystack() == haystack
                    && t.spec_needle() == crate::search::encoded_bytes(s.into_spec())),
    {
        let needle: Needle<'s> = s.into();
        let owned: NeedleOwned = NeedleOwned::encode(needle);
        Self::create_from_owned(haystack, owned, spawn)
    }

    /// Non-blocking poll: the next buffered offset if one is ready,
    /// otherwise `Pending` while the worker may still produce, or
    /// `Finished` once the worker has exited and the buffer is drained.
    /// The poll outcome is reported exactly as `state_of_poll` says.
    pub fn try_get(&self) -> (r: Result<usize, SearchState>) {
        resolve_poll(poll_channel(&self.receiver))
    }

    /// Calls `callback` on each offset that is ready, without blocking,
    /// until a poll yields no offset; returns the state that ended the
    /// burst. The burst is capped at `usize::MAX` offsets so that the loop
    /// provably terminates; a burst cut off at the cap reports `Pending`,
    /// and the next call picks up where it left off.
    pub fn drain<F>(&self, callback: F) -> (r: SearchState) where F: Fn(usize)
        requires
            forall|v: usize| #[trigger] callback.requires((v,)),
    {
        let mut budget: usize = usize::MAX;
        while budget > 0
            invariant
                forall|v: usize| #[trigger] callback.requires((v,)),
            decreases budget,
        {
            match self.try_get() {
                Ok(v) => callback(v),
                Err(state) => {
                    return state;
                },
            }
            budget = budget - 1;
        }
        SearchState::Pending
    }

    /// Cancels the session: drops the receiver, which tells the worker to
    /// stop at its next send, then waits for the worker to exit. Returns
    /// `Err` exactly when the worker did not terminate cleanly.
    pub fn cancel(self) -> (r: Result<(), SessionError>) {
        let AsyncSearch { join_handle, receiver } = self;
        close_receiver(receiver);
        match join_handle.join_worker() {
            Ok(_) => Ok(()),
            Err(_) => Err(SessionError::WorkerPanicked),
        }
    }
}

/// The search a driver currently holds, tagged with the pattern's byte
/// length so a match offset can be turned into a selection of that many
/// bytes.
pub enum CurrentSearch<W: WorkerHandle> {
    /// No search has been started.
    Empty,
    /// A worker is (or may still be) producing offsets.
    Searching(usize, AsyncSearch<W>),
    /// The worker has exited and the channel is drained.
    Finished(usize),
}

/// What `finish` leaves behind: a running search becomes `Finished` with
/// the same byte length; the other states stay as they are.
pub open spec fn after_finish<W: WorkerHandle>(c: CurrentSearch<W>) -> CurrentSearch<W> {
    match c {
        CurrentSearch::Searching(i, _) => CurrentSearch::Finished(i),
        other => other,
    }
}

impl<W: WorkerHandle> CurrentSearch<W> {
    /// Takes the current search out, leaving `Empty` behind.
    pub fn take(&mut self) -> (r: CurrentSearch<W>)
        ensures
            r == *old(self),
            *final(self) matches CurrentSearch::Empty,
    {
        let mut res = CurrentSearch::Empty;
        core::mem::swap(&mut res, self);
        res
    }

    /// Marks a running search as finished, keeping its byte length.
    pub fn finish(&mut self)
        ensures
            *final(self) == after_finish(*old(self)),
    {
        match self {
            CurrentSearch::Empty => {},
            CurrentSearch::Searching(i, _) => {
                let len: usize = *i;
                *self = CurrentSearch::Finished(len);
            },
            CurrentSearch::Finished(_) => {},
        }
    }
}

} // verus!
