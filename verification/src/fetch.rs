//! The decision core of the retrying content fetcher. The fetcher streams a
//! response body to a destination file; connection failures, read failures,
//! and stream anomalies (a body that runs short of or past its declared
//! length) restart the whole request, up to a fixed attempt ceiling,
//! truncating the file first. The surrounding driver performs the network and
//! file work and feeds every outcome back as an event; each step here decides
//! what happens next. Every event sequence ends in `Finish` or `Fail`: each
//! attempt connects once, each accepted chunk strictly advances the position
//! toward the declared length, and every other outcome either ends the fetch
//! or consumes one of the at most `max_attempts` attempts.

use vstd::prelude::*;

verus! {

#[derive(Clone, Copy, PartialEq, Eq, Structural, Debug)]
pub enum FetchError {
    /// The request failed at the connection or read level on every attempt.
    Network,
    /// The response declared no content length; fatal at once, never retried.
    LengthUnknown,
}

/// What the driver observed.
pub enum FetchEvent {
    /// A request went through; the response declared this content length.
    ConnectOk { content_length: Option<u64> },
    /// The request itself failed.
    ConnectFailed,
    /// A chunk of this many bytes was read and written to the destination.
    ChunkRead { len: u64 },
    /// Reading the body failed mid-stream.
    ReadFailed,
}

/// What the driver must do next.
#[derive(Clone, Copy, PartialEq, Eq, Structural, Debug)]
pub enum FetchAction {
    /// Issue the request (again).
    Connect,
    /// Read the next chunk of the body.
    ReadChunk,
    /// Truncate the destination file to length zero, rewind it to offset
    /// zero, then issue the request again.
    Rewind,
    /// The body is complete: the destination holds exactly the declared byte
    /// count.
    Finish,
    /// Give up: the attempt ceiling is exhausted.
    Fail(FetchError),
}

#[derive(Clone, Copy)]
pub struct FetchState {
    /// Attempts started so far, counting the current one.
    pub attempts: u32,
    /// The attempt ceiling.
    pub max_attempts: u32,
    /// The content length the current response declared.
    pub expected: u64,
    /// Bytes of the current response written to the destination so far.
    pub received: u64,
    /// Whether a response with a known length is currently being streamed.
    pub streaming: bool,
}

impl FetchState {
    pub open spec fn wf(self) -> bool {
        1 <= self.attempts <= self.max_attempts
    }
}

/// The state at the start of the first attempt; the driver connects next.
pub fn fetch_begin(max_attempts: u32) -> (r: (FetchState, FetchAction))
    requires
        max_attempts >= 1,
    ensures
        r.0.wf(),
        r.0.attempts == 1,
        r.0.max_attempts == max_attempts,
        r.0.received == 0,
        !r.0.streaming,
        r.1 == FetchAction::Connect,
{
    (
        FetchState { attempts: 1, max_attempts, expected: 0, received: 0, streaming: false },
        FetchAction::Connect,
    )
}

/// One decision of the fetch loop. A failure retries the whole request while
/// attempts remain and otherwise fails with the network error; a missing
/// content length fails at once; accepted chunks advance the byte position
/// strictly, completing exactly at the declared length. A zero-length read
/// below the declared length, or a chunk that would pass it, is a stream
/// anomaly and is retried like a read failure: the fetch never stalls and
/// never finishes with the wrong byte count.
pub fn fetch_step(st: &FetchState, ev: &FetchEvent) -> (r: (FetchState, FetchAction))
    requires
        st.wf(),
        st.streaming <==> (*ev matches FetchEvent::ChunkRead { .. } || *ev
            matches FetchEvent::ReadFailed),
    ensures
        r.0.wf(),
        r.0.max_attempts == st.max_attempts,
        // A failed connection retries whole while attempts remain, else fails.
        *ev matches FetchEvent::ConnectFailed ==> if st.attempts < st.max_attempts {
            r.0.attempts == st.attempts + 1 && r.0.received == 0 && !r.0.streaming && r.1
                == FetchAction::Connect
        } else {
            r.1 == FetchAction::Fail(FetchError::Network)
        },
        // A response without a content length is fatal at once.
        *ev matches FetchEvent::ConnectOk { content_length: None } ==> r.1 == FetchAction::Fail(
            FetchError::LengthUnknown,
        ),
        // A response with a length starts streaming from byte zero.
        forall|l: u64|
            *ev == (FetchEvent::ConnectOk { content_length: Some(l) }) ==> r.0.attempts
                == st.attempts && r.0.expected == l && r.0.received == 0 && r.0.streaming && r.1
                == (if l == 0 {
                FetchAction::Finish
            } else {
                FetchAction::ReadChunk
            }),
        // An accepted chunk advances the position, never past the declared
        // length; the body is done exactly when it reaches it.
        forall|len: u64|
            *ev == (FetchEvent::ChunkRead { len }) && 1 <= len <= st.expected - st.received
                ==> r.0.attempts == st.attempts && r.0.expected == st.expected && r.0.received
                == st.received + len && r.0.streaming && r.1 == (if st.received + len
                == st.expected {
                FetchAction::Finish
            } else {
                FetchAction::ReadChunk
            }),
        // A zero-length read below the declared length, or a chunk that would
        // pass it, restarts the whole request while attempts remain, else the
        // fetch fails: it neither counts as progress nor as completion.
        forall|len: u64|
            *ev == (FetchEvent::ChunkRead { len }) && !(1 <= len <= st.expected - st.received)
                ==> if st.attempts < st.max_attempts {
                r.0.attempts == st.attempts + 1 && r.0.received == 0 && !r.0.streaming && r.1
                    == FetchAction::Rewind
            } else {
                r.1 == FetchAction::Fail(FetchError::Network)
            },
        // A mid-stream read failure rewinds and retries the whole request
        // while attempts remain, else fails.
        *ev matches FetchEvent::ReadFailed ==> if st.attempts < st.max_attempts {
            r.0.attempts == st.attempts + 1 && r.0.received == 0 && !r.0.streaming && r.1
                == FetchAction::Rewind
        } else {
            r.1 == FetchAction::Fail(FetchError::Network)
        },
        // Failure is only ever declared with the attempt ceiling exhausted.
        r.1 == FetchAction::Fail(FetchError::Network) ==> st.attempts >= st.max_attempts,
        // Completion is only ever declared with exactly the declared length
        // on disk.
        r.1 == FetchAction::Finish ==> r.0.streaming && r.0.received == r.0.expected,
        // Termination measure: every step finishes, fails, starts a new
        // attempt (of which there are at most `max_attempts`), or strictly
        // advances the position toward the declared length.
        (r.1 == FetchAction::ReadChunk && *ev matches FetchEvent::ChunkRead { .. })
            ==> r.0.received > st.received && r.0.received < r.0.expected && r.0.expected
            == st.expected,
        (r.1 == FetchAction::Connect || r.1 == FetchAction::Rewind) ==> r.0.attempts == st.attempts
            + 1,
{
    match ev {
        FetchEvent::ConnectFailed => {
            if st.attempts < st.max_attempts {
                (
                    FetchState {
                        attempts: st.attempts + 1,
                        max_attempts: st.max_attempts,
                        expected: 0,
                        received: 0,
                        streaming: false,
                    },
                    FetchAction::Connect,
                )
            } else {
                (*st, FetchAction::Fail(FetchError::Network))
            }
        },
        FetchEvent::ConnectOk { content_length } => {
            match content_length {
                None => (*st, FetchAction::Fail(FetchError::LengthUnknown)),
                Some(l) => {
                    let next = FetchState {
                        attempts: st.attempts,
                        max_attempts: st.max_attempts,
                        expected: *l,
                        received: 0,
                        streaming: true,
                    };
                    if *l == 0 {
                        (next, FetchAction::Finish)
                    } else {
                        (next, FetchAction::ReadChunk)
                    }
                },
            }
        },
        FetchEvent::ChunkRead { len } => {
            let room = if st.received <= st.expected {
                st.expected - st.received
            } else {
                0
            };
            if 1 <= *len && *len <= room {
                let got = st.received + *len;
                let next = FetchState {
                    attempts: st.attempts,
                    max_attempts: st.max_attempts,
                    expected: st.expected,
                    received: got,
                    streaming: true,
                };
                if got == st.expected {
                    (next, FetchAction::Finish)
                } else {
                    (next, FetchAction::ReadChunk)
                }
            } else if st.attempts < st.max_attempts {
                (
                    FetchState {
                        attempts: st.attempts + 1,
                        max_attempts: st.max_attempts,
                        expected: 0,
                        received: 0,
                        streaming: false,
                    },
                    FetchAction::Rewind,
                )
            } else {
                (*st, FetchAction::Fail(FetchError::Network))
            }
        },
        FetchEvent::ReadFailed => {
            if st.attempts < st.max_attempts {
                (
                    FetchState {
                        attempts: st.attempts + 1,
                        max_attempts: st.max_attempts,
                        expected: 0,
                        received: 0,
                        streaming: false,
                    },
                    FetchAction::Rewind,
                )
            } else {
                (*st, FetchAction::Fail(FetchError::Network))
            }
        },
    }
}

} // verus!
