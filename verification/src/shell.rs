//! Interactive-shell read engine: a bounded, best-effort drain of a
//! non-blocking byte channel.
//!
//! The channel has no message framing, so a read means "whatever is
//! available right now, within a fixed wall-clock budget".  The engine is a
//! step function: the embedding application performs one non-blocking read,
//! reports what happened and how much time has elapsed, and is told whether
//! to poll again, to make one final trailing read, to return the
//! accumulated bytes, or to surface an error.  An empty accumulation is a
//! valid, non-error result meaning "nothing to show yet".

use vstd::prelude::*;

verus! {

/// How long a freshly started shell is given to present its first prompt
/// before it is considered ready.
pub const SETTLE_DELAY_MS: u64 = 500;

/// The pause after each shell write, giving the remote side time to
/// process before further operations.
pub const WRITE_THROTTLE_MS: u64 = 10;

/// The overall wall-clock budget of one drain.
pub const DRAIN_BUDGET_MS: u64 = 50;

/// The pause before retrying after a read that found nothing.
pub const DRAIN_POLL_MS: u64 = 1;

/// The pause before the single trailing read that catches a just-arrived
/// remainder once some data has been accumulated.
pub const TRAILING_DELAY_MS: u64 = 5;

/// What one non-blocking read of the channel reported.
#[derive(Debug)]
pub enum ReadEvent {
    /// The read returned these bytes (possibly none).
    Data(Vec<u8>),
    /// The read returned zero bytes: nothing ready now.
    Empty,
    /// The transport reported would-block: nothing more is coming right
    /// now.
    WouldBlock,
    /// Any other I/O error; fatal for this read call.
    Failed(String),
}

/// Whether the drain is still in its main loop or about to make its one
/// trailing read.
#[derive(Debug)]
pub enum DrainPhase {
    Main,
    Trailing,
}

/// The running accumulation of one drain.
#[derive(Debug)]
pub struct DrainState {
    pub acc: Vec<u8>,
    pub phase: DrainPhase,
}

/// What the application must do next.
#[derive(Debug)]
pub enum DrainStep {
    /// Sleep for the given delay, read again, and step again.
    Continue(DrainState, u64),
    /// Sleep for the given delay, make one final best-effort read, and
    /// step again; the next step always finishes.
    Finishing(DrainState, u64),
    /// The drain is over: hand the accumulated bytes to the caller.
    Done(Vec<u8>),
    /// The read failed; this read call reports the error and the shell is
    /// left as it is.
    Fail(String),
}

/// A fresh drain: nothing accumulated, main phase.
pub fn drain_start() -> (r: DrainState)
    ensures
        r.acc@ == Seq::<u8>::empty(),
        r.phase is Main,
{
    DrainState { acc: Vec::new(), phase: DrainPhase::Main }
}

/// One step of the drain protocol.
///
/// In the main phase: data is accumulated and reading continues at once;
/// a zero-byte read polls again after the poll pause while the budget
/// lasts; would-block — or an exhausted budget — ends the loop, with one
/// trailing read if anything was accumulated; any other error is surfaced
/// immediately.  The trailing read is best-effort: whatever it reports,
/// the drain finishes with the accumulated bytes, extended by trailing
/// data if any arrived.
pub fn drain_step(state: DrainState, event: ReadEvent, elapsed_ms: u64) -> (r: DrainStep)
    ensures
        ({
            let acc0 = state.acc@;
            match state.phase {
                DrainPhase::Main => match event {
                    ReadEvent::Failed(e) => r matches DrainStep::Fail(msg) && msg == e,
                    ReadEvent::WouldBlock => if acc0.len() > 0 {
                        r matches DrainStep::Finishing(s2, d) && s2.acc@ == acc0 && s2.phase
                            is Trailing && d == TRAILING_DELAY_MS
                    } else {
                        r matches DrainStep::Done(out) && out@ == acc0
                    },
                    ReadEvent::Empty => if elapsed_ms >= DRAIN_BUDGET_MS {
                        if acc0.len() > 0 {
                            r matches DrainStep::Finishing(s2, d) && s2.acc@ == acc0 && s2.phase
                                is Trailing && d == TRAILING_DELAY_MS
                        } else {
                            r matches DrainStep::Done(out) && out@ == acc0
                        }
                    } else {
                        r matches DrainStep::Continue(s2, d) && s2.acc@ == acc0 && s2.phase
                            is Main && d == DRAIN_POLL_MS
                    },
                    ReadEvent::Data(data) => if elapsed_ms >= DRAIN_BUDGET_MS {
                        if acc0.len() + data@.len() > 0 {
                            r matches DrainStep::Finishing(s2, d) && s2.acc@ == acc0 + data@
                                && s2.phase is Trailing && d == TRAILING_DELAY_MS
                        } else {
                            r matches DrainStep::Done(out) && out@ == acc0 + data@
                        }
                    } else {
                        r matches DrainStep::Continue(s2, d) && s2.acc@ == acc0 + data@ && s2.phase
                            is Main && d == (if data@.len() > 0 {
                            0u64
                        } else {
                            DRAIN_POLL_MS
                        })
                    },
                },
                DrainPhase::Trailing => match event {
                    ReadEvent::Data(data) => r matches DrainStep::Done(out) && out@ == acc0
                        + data@,
                    _ => r matches DrainStep::Done(out) && out@ == acc0,
                },
            }
        }),
        r matches DrainStep::Continue(s2, d) ==> elapsed_ms < DRAIN_BUDGET_MS && s2.phase is Main,
        r matches DrainStep::Finishing(s2, d) ==> s2.phase is Trailing,
        state.phase is Main && state.acc@.len() == 0 && (event is WouldBlock || (event is Empty
            && elapsed_ms >= DRAIN_BUDGET_MS)) ==> (r matches DrainStep::Done(out) && out@.len()
            == 0),
{
    let DrainState { acc, phase } = state;
    match phase {
        DrainPhase::Main => match event {
            ReadEvent::Failed(e) => DrainStep::Fail(e),
            ReadEvent::WouldBlock => {
                if acc.len() > 0 {
                    DrainStep::Finishing(
                        DrainState { acc, phase: DrainPhase::Trailing },
                        TRAILING_DELAY_MS,
                    )
                } else {
                    DrainStep::Done(acc)
                }
            },
            ReadEvent::Empty => {
                if elapsed_ms >= DRAIN_BUDGET_MS {
                    if acc.len() > 0 {
                        DrainStep::Finishing(
                            DrainState { acc, phase: DrainPhase::Trailing },
                            TRAILING_DELAY_MS,
                        )
                    } else {
                        DrainStep::Done(acc)
                    }
                } else {
                    DrainStep::Continue(DrainState { acc, phase: DrainPhase::Main }, DRAIN_POLL_MS)
                }
            },
            ReadEvent::Data(data) => {
                let mut acc = acc;
                let mut data = data;
                let got = data.len() > 0;
                acc.append(&mut data);
                if elapsed_ms >= DRAIN_BUDGET_MS {
                    if acc.len() > 0 {
                        DrainStep::Finishing(
                            DrainState { acc, phase: DrainPhase::Trailing },
                            TRAILING_DELAY_MS,
                        )
                    } else {
                        DrainStep::Done(acc)
                    }
                } else {
                    let delay: u64 = if got {
                        0
                    } else {
                        DRAIN_POLL_MS
                    };
                    DrainStep::Continue(DrainState { acc, phase: DrainPhase::Main }, delay)
                }
            },
        },
        DrainPhase::Trailing => match event {
            ReadEvent::Data(data) => {
                let mut acc = acc;
                let mut data = data;
                acc.append(&mut data);
                DrainStep::Done(acc)
            },
            _ => DrainStep::Done(acc),
        },
    }
}

} // verus!
