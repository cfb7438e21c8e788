//! When a failed download is tried again, and after how long.

use crate::error::description;
use crate::error::retryable;
use crate::error::DlmError;
use crate::error::ErrorModel;
use tokio_retry::strategy::ExponentialBackoff;
use vstd::prelude::*;

verus! {

/// The product of two delays, held at the largest value where it would
/// pass it.
pub open spec fn saturating_product(a: u64, b: u64) -> u64 {
    if a * b > u64::MAX {
        u64::MAX
    } else {
        (a * b) as u64
    }
}

/// The delay, in milliseconds, before the retry that follows
/// `past_retries` earlier ones, under exponential back-off from `base`:
/// `base`, then `base` times `base`, and so on, never above the largest
/// value.
pub open spec fn backoff_delay(base: u64, past_retries: nat) -> u64
    decreases past_retries,
{
    if past_retries == 0 {
        base
    } else {
        saturating_product(backoff_delay(base, (past_retries - 1) as nat), base)
    }
}

/// `ExponentialBackoff::from_millis(base)`, advanced to the delay that
/// follows `past_retries` earlier ones, in whole milliseconds. The strategy
/// starts at `base` and multiplies by `base` each time, saturating; it
/// never ends, so a delay always comes.
#[verifier::external_body]
fn backoff_millis(base: u64, past_retries: usize) -> (millis: u64)
    ensures
        millis == backoff_delay(base, past_retries as nat),
{
    match ExponentialBackoff::from_millis(base).nth(past_retries) {
        Some(delay) => delay.as_millis() as u64,
        None => u64::MAX,
    }
}

/// Whether a failure is answered by another attempt: the error must be
/// retryable and the schedule must have a delay left.
pub open spec fn grants_retry(error: ErrorModel, retries: nat, used: nat) -> bool {
    retryable(error) && used < retries
}

/// The log line that announces a retry.
pub open spec fn retry_line(link: Seq<char>, error: ErrorModel) -> Seq<char> {
    "Scheduling retry for "@ + link + " after error "@ + description(error)
}

/// What follows a failed attempt.
#[derive(Debug, PartialEq, Eq)]
pub enum Verdict {
    /// The failure is final.
    GiveUp,
    /// Wait so many milliseconds, then try again; `log` announces it.
    Again { delay_millis: u64, log: String },
}

pub enum VerdictModel {
    GiveUp,
    Again { delay_millis: u64, log: Seq<char> },
}

impl View for Verdict {
    type V = VerdictModel;

    open spec fn view(&self) -> VerdictModel {
        match self {
            Verdict::GiveUp => VerdictModel::GiveUp,
            Verdict::Again { delay_millis, log } => VerdictModel::Again {
                delay_millis: *delay_millis,
                log: log@,
            },
        }
    }
}

/// The retry schedule of one download: exponential back-off with a bounded
/// number of retries, so at most `retries + 1` attempts.
#[derive(Debug)]
pub struct RetryPolicy {
    base_millis: u64,
    retries: usize,
    used: usize,
}

impl RetryPolicy {
    pub closed spec fn base_millis(&self) -> u64 {
        self.base_millis
    }

    /// How many retries the schedule grants in all.
    pub closed spec fn retries(&self) -> nat {
        self.retries as nat
    }

    /// How many retries were granted so far.
    pub closed spec fn used(&self) -> nat {
        self.used as nat
    }

    /// A schedule that has granted nothing yet.
    pub fn new(base_millis: u64, retries: usize) -> (policy: RetryPolicy)
        ensures
            policy.base_millis() == base_millis,
            policy.retries() == retries,
            policy.used() == 0,
    {
        RetryPolicy { base_millis, retries, used: 0 }
    }

    /// Decides on a failed attempt at `link`. A retry is granted to a
    /// retryable error while the schedule lasts; it is logged and delayed
    /// by the back-off. Any other failure is final and logs nothing: a
    /// cancellation in particular is never retried nor announced.
    pub fn retry_handler(&mut self, error: &DlmError, link: &str) -> (verdict: Verdict)
        ensures
            final(self).base_millis() == old(self).base_millis(),
            final(self).retries() == old(self).retries(),
            grants_retry(error@, old(self).retries(), old(self).used()) ==> {
                &&& verdict@ == VerdictModel::Again {
                    delay_millis: backoff_delay(old(self).base_millis(), old(self).used()),
                    log: retry_line(link@, error@),
                }
                &&& final(self).used() == old(self).used() + 1
            },
            !grants_retry(error@, old(self).retries(), old(self).used()) ==> {
                &&& verdict@ == VerdictModel::GiveUp
                &&& final(self).used() == old(self).used()
            },
    {
        if error.is_retryable() && self.used < self.retries {
            let delay_millis = backoff_millis(self.base_millis, self.used);
            let log = String::from_str("Scheduling retry for ").concat(link).concat(
                " after error ",
            ).concat(error.describe().as_str());
            self.used = self.used + 1;
            Verdict::Again { delay_millis, log }
        } else {
            Verdict::GiveUp
        }
    }
}

/// How many attempts are made when the attempts fail, one after the other,
/// with `errors`, under a schedule with `retries` retries of which `used`
/// are spent. Each failure that is granted a retry leads to the next
/// attempt; the first that is not ends the run.
pub open spec fn attempts_made(errors: Seq<ErrorModel>, retries: nat, used: nat) -> nat
    decreases errors.len(),
{
    if errors.len() == 0 {
        0
    } else if grants_retry(errors[0], retries, used) {
        1 + attempts_made(errors.drop_first(), retries, used + 1)
    } else {
        1
    }
}

/// A run of failures exhausts the schedule exactly: when every attempt
/// meets a retryable error, as a transport error is, a schedule of
/// `retries` retries makes `retries + 1` attempts, no more and no fewer,
/// and the failure of the last one is final.
pub proof fn law_retry_exhaustion(errors: Seq<ErrorModel>, retries: nat, used: nat)
    requires
        used <= retries,
        errors.len() > retries - used,
        forall|i: int| 0 <= i < errors.len() ==> retryable(#[trigger] errors[i]),
    ensures
        attempts_made(errors, retries, used) == retries - used + 1,
        !grants_retry(errors[retries - used], retries, retries),
    decreases errors.len(),
{
    if used < retries {
        let rest = errors.drop_first();
        assert forall|i: int| 0 <= i < rest.len() implies retryable(#[trigger] rest[i]) by {
            assert(rest[i] == errors[i + 1]);
        }
        law_retry_exhaustion(rest, retries, used + 1);
    }
}

/// A cancellation ends the run at once: however much of the schedule is
/// left, the attempt that was cancelled is the last.
pub proof fn law_cancellation_is_final(errors: Seq<ErrorModel>, retries: nat, used: nat)
    requires
        errors.len() > 0,
        errors[0] is ProgramInterrupted,
    ensures
        attempts_made(errors, retries, used) == 1,
        !grants_retry(errors[0], retries, used),
{
}

} // verus!
