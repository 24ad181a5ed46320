//! The notifier's delivery policy: one webhook attempt per accepted event,
//! one bounded retry after a rate-limit response, and no failure ever
//! surfaced to the processor. The HTTP delivery itself happens outside the
//! crate; the state machine here makes every decision.

use vstd::prelude::*;

verus! {

/// How many delivery retries may follow rate-limit responses.
pub const NOTIFY_MAX_RETRIES: u64 = 1;

/// The cool-down before a delivery retry, in milliseconds.
pub const NOTIFY_RETRY_DELAY_MS: u64 = 5000;

/// What one delivery attempt came to, as the transport reports it.
#[derive(Debug, Clone, Copy, PartialEq, Eq, Structural)]
pub enum DeliveryStatus {
    /// A success response: the payload arrived.
    Delivered,
    /// A rate-limit response: the sink asks for a cool-down.
    RateLimited,
    /// Any other error response, or a transport failure.
    Failed,
}

/// What the notifier does after one attempt's status is recorded.
#[derive(Debug, Clone, Copy, PartialEq, Eq, Structural)]
pub enum NotifyStep {
    /// Delivery is over; the flag says whether the payload arrived. A
    /// failure ends delivery quietly: it is never fatal to the pipeline.
    Finished(bool),
    /// Wait this many milliseconds, then try again.
    RetryAfter(u64),
}

/// The notifier's state for one payload: retries spent so far.
pub struct NotifyState {
    pub retries: u64,
}

impl NotifyState {
    /// Well-formed: retries within the budget.
    pub open spec fn wf(self) -> bool {
        self.retries <= NOTIFY_MAX_RETRIES
    }

    /// A fresh delivery, no retry spent.
    pub fn new() -> (s: NotifyState)
        ensures
            s.wf(),
            s.retries == 0,
    {
        NotifyState { retries: 0 }
    }

    /// Records one attempt's status: success finishes delivered; a
    /// rate-limit response waits out the cool-down and retries while budget
    /// remains and otherwise drops the payload; any other failure drops it
    /// at once. No status ever ends as an error to the caller.
    pub fn record_status(&mut self, status: DeliveryStatus) -> (step: NotifyStep)
        requires
            old(self).wf(),
        ensures
            final(self).wf(),
            status == DeliveryStatus::Delivered ==> step == NotifyStep::Finished(true)
                && *final(self) == *old(self),
            status == DeliveryStatus::Failed ==> step == NotifyStep::Finished(false)
                && *final(self) == *old(self),
            status == DeliveryStatus::RateLimited && old(self).retries < NOTIFY_MAX_RETRIES
                ==> step == NotifyStep::RetryAfter(NOTIFY_RETRY_DELAY_MS) && final(self).retries
                == old(self).retries + 1,
            status == DeliveryStatus::RateLimited && old(self).retries >= NOTIFY_MAX_RETRIES
                ==> step == NotifyStep::Finished(false) && *final(self) == *old(self),
    {
        match status {
            DeliveryStatus::Delivered => NotifyStep::Finished(true),
            DeliveryStatus::Failed => NotifyStep::Finished(false),
            DeliveryStatus::RateLimited => {
                if self.retries < NOTIFY_MAX_RETRIES {
                    self.retries = self.retries + 1;
                    NotifyStep::RetryAfter(NOTIFY_RETRY_DELAY_MS)
                } else {
                    NotifyStep::Finished(false)
                }
            },
        }
    }
}

} // verus!
