//! Busy-wait strategies: the decisions of the two ways of waiting for the
//! busy line to go low. The caller samples the line, reads its clock and
//! waits for edges; these functions say what to do with what it saw.
use vstd::prelude::*;

use crate::Lr2021Error;

verus! {

/// What a busy-wait does next.
#[derive(Debug, Clone, Copy, PartialEq, Eq, Structural)]
pub enum WaitStep {
    /// The busy line is low: the chip is ready
    Ready,
    /// Sample the line again
    Poll,
    /// Wait for the line to go low, within what is left of the timeout
    AwaitLow,
    /// The wait failed with this error
    Failed(Lr2021Error),
}

/// Busy-wait that polls the busy line until it goes low or the time runs out.
pub struct BusyBlocking;

/// Busy-wait that samples the line once, then waits for its falling edge.
pub struct BusyAsync;

/// The step of a polling wait, given a sample of the line (`None` when it
/// could not be read) and the time elapsed since the wait began.
pub open spec fn poll_step(sample: Option<bool>, elapsed_us: u64, timeout_us: u64) -> WaitStep {
    match sample {
        None => WaitStep::Failed(Lr2021Error::Pin),
        Some(false) => WaitStep::Ready,
        Some(true) => if elapsed_us >= timeout_us {
            WaitStep::Failed(Lr2021Error::BusyTimeout)
        } else {
            WaitStep::Poll
        },
    }
}

/// The index of the sample at which a polling wait stops, over samples of a
/// line that stays high: the first one taken once the timeout has elapsed.
pub open spec fn first_late_sample(elapsed_us: Seq<u64>, timeout_us: u64) -> int
    decreases elapsed_us.len(),
{
    if elapsed_us.len() == 0 {
        0
    } else if elapsed_us[0] >= timeout_us {
        0
    } else {
        1 + first_late_sample(elapsed_us.drop_first(), timeout_us)
    }
}

impl BusyBlocking {
    /// Decide the next step of a polling wait from one sample of the busy line
    pub fn wait_ready(sample: Option<bool>, elapsed_us: u64, timeout_us: u64) -> (r: WaitStep)
        ensures
            r == poll_step(sample, elapsed_us, timeout_us),
    {
        match sample {
            None => WaitStep::Failed(Lr2021Error::Pin),
            Some(false) => WaitStep::Ready,
            Some(true) => {
                if elapsed_us >= timeout_us {
                    WaitStep::Failed(Lr2021Error::BusyTimeout)
                } else {
                    WaitStep::Poll
                }
            },
        }
    }
}

impl BusyAsync {
    /// Decide the first step of an edge-driven wait from one sample of the busy line
    pub fn wait_ready(sample: Option<bool>) -> (r: WaitStep)
        ensures
            sample is None ==> r == WaitStep::Failed(Lr2021Error::Pin),
            sample == Some(false) ==> r == WaitStep::Ready,
            sample == Some(true) ==> r == WaitStep::AwaitLow,
    {
        match sample {
            None => WaitStep::Failed(Lr2021Error::Pin),
            Some(false) => WaitStep::Ready,
            Some(true) => WaitStep::AwaitLow,
        }
    }

    /// The result of waiting for the falling edge: whether it came in time
    pub fn wait_done(in_time: bool) -> (r: Result<(), Lr2021Error>)
        ensures
            in_time ==> r == Ok::<(), Lr2021Error>(()),
            !in_time ==> r == Err::<(), Lr2021Error>(Lr2021Error::BusyTimeout),
    {
        if in_time {
            Ok(())
        } else {
            Err(Lr2021Error::BusyTimeout)
        }
    }
}

/// On a busy line that never clears, a polling wait keeps polling on every
/// sample taken before the timeout, and stops with `BusyTimeout` on the first
/// sample taken once it has elapsed.
pub proof fn lemma_poll_times_out(elapsed_us: Seq<u64>, timeout_us: u64)
    requires
        exists|j: int| 0 <= j < elapsed_us.len() && elapsed_us[j] >= timeout_us,
    ensures
        0 <= first_late_sample(elapsed_us, timeout_us) < elapsed_us.len(),
        forall|i: int|
            0 <= i < first_late_sample(elapsed_us, timeout_us) ==> poll_step(Some(true), #[trigger] elapsed_us[i], timeout_us)
                == WaitStep::Poll,
        poll_step(Some(true), elapsed_us[first_late_sample(elapsed_us, timeout_us)], timeout_us)
            == WaitStep::Failed(Lr2021Error::BusyTimeout),
    decreases elapsed_us.len(),
{
    if elapsed_us[0] < timeout_us {
        let rest = elapsed_us.drop_first();
        let j = choose|j: int| 0 <= j < elapsed_us.len() && elapsed_us[j] >= timeout_us;
        assert(rest[j - 1] >= timeout_us);
        lemma_poll_times_out(rest, timeout_us);
        assert forall|i: int| 0 <= i < first_late_sample(elapsed_us, timeout_us) implies poll_step(
            Some(true),
            #[trigger] elapsed_us[i],
            timeout_us,
        ) == WaitStep::Poll by {
            if i > 0 {
                assert(elapsed_us[i] == rest[i - 1]);
            }
        }
    }
}

} // verus!
