//! Establishing a session with the tracking server.
//!
//! The decisions are here: whether a failed attempt is followed by another,
//! and what is done once the connection stands. The calls into the tracking
//! client are the caller's.
use crate::status::{classify, ErrorView, ViconError, SUCCESS_CODE};
use vstd::prelude::*;

verus! {

/// The number of times a failed attempt to connect is followed by another.
pub const MAX_CONNECT_RETRIES: usize = 3;

/// Timeout of one attempt to connect, in milliseconds.
pub const MAX_CONNECT_TIMEOUT: u32 = 1000;

/// Time to wait after the stream is configured, in milliseconds, so that the
/// server has frames buffered when the first poll comes.
pub const SETTLE_MILLIS: u64 = 1000;

/// How the server delivers frames.
#[derive(Debug, Clone, Copy, PartialEq, Eq, Structural)]
pub enum StreamMode {
    ClientPull,
    ClientPullPreFetch,
    ServerPush,
}

/// A direction that an axis of the capture volume can point in.
#[derive(Debug, Clone, Copy, PartialEq, Eq, Structural)]
pub enum Direction {
    Up,
    Down,
    Left,
    Right,
    Forward,
    Backward,
}

/// A step taken once the connection stands. The status that the tracking
/// client returns for a step is not looked at.
#[derive(Debug, Clone, Copy, PartialEq, Eq, Structural)]
pub enum SetupCall {
    SetStreamMode { mode: StreamMode },
    SetAxisMapping { x: Direction, y: Direction, z: Direction },
    EnableSegmentData,
    EnableMarkerData,
    /// Wait for this many milliseconds.
    Settle { millis: u64 },
}

/// The steps that follow a successful connect, in order: frames are pulled
/// by the client, X points forward, Y left and Z up, segment and marker data
/// are switched on, and the stream is given time to settle.
pub open spec fn setup_sequence() -> Seq<SetupCall> {
    seq![
        SetupCall::SetStreamMode { mode: StreamMode::ClientPull },
        SetupCall::SetAxisMapping {
            x: Direction::Forward,
            y: Direction::Left,
            z: Direction::Up,
        },
        SetupCall::EnableSegmentData,
        SetupCall::EnableMarkerData,
        SetupCall::Settle { millis: SETTLE_MILLIS },
    ]
}

/// The steps to take once the connection stands, in order.
pub fn stream_setup() -> (calls: Vec<SetupCall>)
    ensures
        calls@ == setup_sequence(),
{
    let mut calls: Vec<SetupCall> = Vec::new();
    calls.push(SetupCall::SetStreamMode { mode: StreamMode::ClientPull });
    calls.push(
        SetupCall::SetAxisMapping { x: Direction::Forward, y: Direction::Left, z: Direction::Up },
    );
    calls.push(SetupCall::EnableSegmentData);
    calls.push(SetupCall::EnableMarkerData);
    calls.push(SetupCall::Settle { millis: SETTLE_MILLIS });
    proof {
        assert(calls@ =~= setup_sequence());
    }
    calls
}

/// A session that is being connected: the attempts that have failed so far
/// are counted.
#[derive(Debug)]
pub struct ConnectAttempts {
    failed: usize,
}

/// Where the connecting stands after an attempt.
#[derive(Debug)]
pub enum ConnectProgress {
    /// The attempt failed and another is to be made.
    Retry(ConnectAttempts),
    /// The connection stands. The steps of `stream_setup` follow.
    Connected,
    /// The last attempt allowed has failed, with this error.
    Failed(ViconError),
}

/// Where the connecting stands, with the count of failed attempts as a
/// number.
pub enum ConnectProgressView {
    Retry(nat),
    Connected,
    Failed(ErrorView),
}

impl View for ConnectAttempts {
    type V = nat;

    closed spec fn view(&self) -> nat {
        self.failed as nat
    }
}

impl View for ConnectProgress {
    type V = ConnectProgressView;

    open spec fn view(&self) -> ConnectProgressView {
        match *self {
            ConnectProgress::Retry(attempts) => ConnectProgressView::Retry(attempts@),
            ConnectProgress::Connected => ConnectProgressView::Connected,
            ConnectProgress::Failed(error) => ConnectProgressView::Failed(error@),
        }
    }
}

/// Where the connecting stands after an attempt that was answered with
/// `code`, when `failed` attempts had failed before it.
pub open spec fn after_attempt(failed: nat, code: i32) -> ConnectProgressView {
    if code == SUCCESS_CODE {
        ConnectProgressView::Connected
    } else if failed < MAX_CONNECT_RETRIES {
        ConnectProgressView::Retry(failed + 1)
    } else {
        ConnectProgressView::Failed(ErrorView::SdkError { source: classify(code) })
    }
}

/// Where the connecting stands after the attempts answered with `codes`, one
/// after the other, when `failed` attempts had failed before them. Codes
/// that come after the connection stands or is given up are not looked at.
pub open spec fn after_attempts(failed: nat, codes: Seq<i32>) -> ConnectProgressView
    decreases codes.len(),
{
    if codes.len() == 0 {
        ConnectProgressView::Retry(failed)
    } else {
        match after_attempt(failed, codes.first()) {
            ConnectProgressView::Retry(next) => after_attempts(next, codes.drop_first()),
            settled => settled,
        }
    }
}

impl ConnectAttempts {
    /// A session on which no attempt to connect has been made.
    pub fn new() -> (attempts: ConnectAttempts)
        ensures
            attempts@ == 0,
    {
        ConnectAttempts { failed: 0 }
    }

    /// The number of attempts that have failed.
    pub fn failed(&self) -> (count: usize)
        ensures
            count == self@,
    {
        self.failed
    }

    /// The timeout to set for the next attempt, in milliseconds: the same
    /// for every attempt.
    pub fn timeout(&self) -> (millis: u32)
        ensures
            millis == MAX_CONNECT_TIMEOUT,
    {
        MAX_CONNECT_TIMEOUT
    }

    /// Takes the status code that an attempt to connect was answered with.
    ///
    /// The success code ends the connecting. Any other code is followed by
    /// another attempt, at once and with the same timeout, unless the bound
    /// on retries is reached: then the connecting fails with the error that
    /// carries the status of this last attempt.
    pub fn attempt_finished(self, code: i32) -> (progress: ConnectProgress)
        ensures
            progress@ == after_attempt(self@, code),
    {
        match ViconError::try_from(code) {
            Ok(_) => ConnectProgress::Connected,
            Err(error) => {
                if self.failed < MAX_CONNECT_RETRIES {
                    ConnectProgress::Retry(ConnectAttempts { failed: self.failed + 1 })
                } else {
                    ConnectProgress::Failed(error)
                }
            },
        }
    }
}

/// An attempt that is answered with the success code connects, whatever
/// came before it; no other code does.
pub proof fn lemma_connected_iff_success(failed: nat, code: i32)
    ensures
        after_attempt(failed, code) is Connected <==> code == SUCCESS_CODE,
{
}

/// When every attempt fails until one succeeds, and that one is among the
/// first attempt and its three retries, the connection stands.
pub proof fn lemma_connects_on_first_success(failed: nat, codes: Seq<i32>, first_success: int)
    requires
        0 <= first_success < codes.len(),
        failed + first_success <= MAX_CONNECT_RETRIES,
        codes[first_success] == SUCCESS_CODE,
        forall|i: int| 0 <= i < first_success ==> codes[i] != SUCCESS_CODE,
    ensures
        after_attempts(failed, codes) == ConnectProgressView::Connected,
    decreases first_success,
{
    if first_success > 0 {
        let rest = codes.drop_first();
        assert forall|i: int| 0 <= i < first_success - 1 implies rest[i] != SUCCESS_CODE by {
            assert(rest[i] == codes[i + 1]);
        }
        lemma_connects_on_first_success(failed + 1, rest, first_success - 1);
    }
}

/// When the first attempt and its three retries all fail, the connecting
/// fails, and the error carries the status of the last of these attempts.
/// What the server would have answered after that plays no part.
pub proof fn lemma_gives_up_after_retries(failed: nat, codes: Seq<i32>)
    requires
        failed <= MAX_CONNECT_RETRIES,
        codes.len() > MAX_CONNECT_RETRIES - failed,
        forall|i: int| 0 <= i <= MAX_CONNECT_RETRIES - failed ==> codes[i] != SUCCESS_CODE,
    ensures
        after_attempts(failed, codes) == ConnectProgressView::Failed(
            ErrorView::SdkError { source: classify(codes[MAX_CONNECT_RETRIES - failed]) },
        ),
    decreases MAX_CONNECT_RETRIES - failed,
{
    if failed < MAX_CONNECT_RETRIES {
        let rest = codes.drop_first();
        assert forall|i: int| 0 <= i <= MAX_CONNECT_RETRIES - (failed + 1) implies rest[i]
            != SUCCESS_CODE by {
            assert(rest[i] == codes[i + 1]);
        }
        lemma_gives_up_after_retries(failed + 1, rest);
        assert(rest[MAX_CONNECT_RETRIES - (failed + 1)] == codes[MAX_CONNECT_RETRIES - failed]);
    }
}

/// No state that the connecting hands out has more failed attempts than
/// there are retries: at most four attempts are ever made.
pub proof fn lemma_attempts_bounded(failed: nat, code: i32)
    requires
        failed <= MAX_CONNECT_RETRIES,
    ensures
        after_attempt(failed, code) matches ConnectProgressView::Retry(next) ==> next
            <= MAX_CONNECT_RETRIES,
{
}

} // verus!
