//! Retrying transient failures.

use vstd::prelude::*;
use crate::client::error::Error;
use crate::time::Span;

verus! {

/// The factor by which the delay between attempts grows. It is a floating-point number,
/// held by its bits, of which only one thing matters here.
#[derive(Debug, Clone, Copy, PartialEq, Eq, Structural)]
pub struct Multiplier {
    /// The bits of the number.
    pub bits: u64,
    /// Whether the number is less than one.
    pub below_one: bool,
}

/// Client retry options.
#[derive(Debug, Clone, Copy, PartialEq, Eq, Structural)]
pub struct RetryOptions {
    pub max_retries: u32,
    pub initial_backoff: Span,
    pub max_backoff: Span,
    pub backoff_multiplier: Multiplier,
}

impl RetryOptions {
    /// Why the options are rejected, if they are.
    pub open spec fn rejection(self) -> Option<Seq<char>> {
        if self.initial_backoff.total() == 0 {
            Some("retry initial_backoff must be greater than zero"@)
        } else if self.max_backoff.total() < self.initial_backoff.total() {
            Some("retry max_backoff must be greater than or equal to initial_backoff"@)
        } else if self.backoff_multiplier.below_one {
            Some("retry backoff_multiplier must be at least 1.0"@)
        } else {
            None
        }
    }
}

/// What follows from a failed attempt.
#[derive(Debug, Clone, Copy, PartialEq, Eq, Structural)]
pub enum RetryStep {
    /// Wait for the delay and try again.
    RetryAfter(Span),
    /// Give up with the error.
    GiveUp,
}

/// Retry policy for transient operations.
#[derive(Debug, Clone, Copy)]
pub struct RetryPolicy {
    pub options: RetryOptions,
    /// How many attempts have failed.
    pub attempt: u32,
    /// The delay before the next attempt.
    pub delay: Span,
}

impl RetryPolicy {
    /// The policy before the first attempt.
    pub open spec fn fresh(options: RetryOptions) -> RetryPolicy {
        RetryPolicy { options, attempt: 0, delay: options.initial_backoff }
    }

    /// Whether a failed attempt leads to another one.
    pub open spec fn retries(self, retryable: bool) -> bool {
        self.attempt < self.options.max_retries && retryable
    }

    /// The policy after a failed attempt that leads to another one.
    pub open spec fn after_failure(self) -> RetryPolicy {
        RetryPolicy { attempt: (self.attempt + 1) as u32, ..self }
    }

    /// The policy with the delay multiplied.
    pub open spec fn grown(self, multiplied: Span) -> RetryPolicy {
        RetryPolicy { delay: capped(multiplied, self.options.max_backoff), ..self }
    }

    /// The policy after failures, each given by whether it can be retried and by the delay
    /// multiplied; none where it has given up.
    pub open spec fn after_failures(self, failures: Seq<(bool, Span)>) -> Option<RetryPolicy>
        decreases failures.len(),
    {
        if failures.len() == 0 {
            Some(self)
        } else {
            match self.after_failures(failures.drop_last()) {
                Some(p) => if p.retries(failures.last().0) {
                    Some(p.after_failure().grown(failures.last().1))
                } else {
                    None
                },
                None => None,
            }
        }
    }

    /// A policy before the first attempt.
    #[must_use]
    pub fn new(options: RetryOptions) -> (r: Self)
        ensures
            r == RetryPolicy::fresh(options),
    {
        RetryPolicy { options, attempt: 0, delay: options.initial_backoff }
    }

    /// Checks the options.
    pub fn validate(options: RetryOptions) -> (r: Result<(), Error>)
        ensures
            match r {
                Ok(_) => options.rejection() is None,
                Err(Error::InvalidArgument(m)) => options.rejection() == Some(m@),
                Err(_) => false,
            },
    {
        if options.initial_backoff.is_zero() {
            return Err(Error::invalid_argument("retry initial_backoff must be greater than zero"));
        }
        if options.max_backoff.less_than(&options.initial_backoff) {
            return Err(
                Error::invalid_argument(
                    "retry max_backoff must be greater than or equal to initial_backoff",
                ),
            );
        }
        if options.backoff_multiplier.below_one {
            return Err(Error::invalid_argument("retry backoff_multiplier must be at least 1.0"));
        }
        Ok(())
    }

    /// Takes a failed attempt: a retryable error leads to another attempt while there are
    /// attempts left.
    pub fn on_failure(&mut self, error: &Error) -> (r: RetryStep)
        ensures
            if old(self).retries(error.retryable()) {
                r == RetryStep::RetryAfter(old(self).delay) && *final(self)
                    == old(self).after_failure()
            } else {
                r == RetryStep::GiveUp && *final(self) == *old(self)
            },
    {
        if self.attempt < self.options.max_retries && error.is_retryable() {
            self.attempt = self.attempt + 1;
            RetryStep::RetryAfter(self.delay)
        } else {
            RetryStep::GiveUp
        }
    }

    /// Takes the delay multiplied, for the attempt after the next.
    pub fn grow_delay(&mut self, multiplied: Span)
        ensures
            *final(self) == old(self).grown(multiplied),
    {
        self.delay = next_delay(multiplied, self.options.max_backoff);
    }
}

/// The shorter of a delay and the maximum.
pub open spec fn capped(delay: Span, max_delay: Span) -> Span {
    if max_delay.total() < delay.total() {
        max_delay
    } else {
        delay
    }
}

/// The next delay: the last one multiplied, but no more than the maximum.
#[must_use]
pub fn next_delay(multiplied: Span, max_delay: Span) -> (r: Span)
    ensures
        r == capped(multiplied, max_delay),
        r.total() <= max_delay.total(),
{
    if max_delay.less_than(&multiplied) {
        max_delay
    } else {
        multiplied
    }
}

/// An operation is tried again at most as often as the options allow, and only after failures
/// that can be retried.
pub proof fn law_retries_are_bounded(options: RetryOptions, failures: Seq<(bool, Span)>)
    ensures
        RetryPolicy::fresh(options).after_failures(failures) matches Some(p) ==> p.options == options
            && p.attempt == failures.len() && failures.len() <= options.max_retries && (forall|i: int|
            0 <= i < failures.len() ==> (#[trigger] failures[i]).0),
    decreases failures.len(),
{
    if failures.len() > 0 {
        let most = failures.drop_last();
        law_retries_are_bounded(options, most);
        if RetryPolicy::fresh(options).after_failures(failures) is Some {
            assert forall|i: int| 0 <= i < failures.len() implies (#[trigger] failures[i]).0 by {
                if i < most.len() {
                    assert(most[i].0);
                }
            }
        }
    }
}

/// With valid options no delay between attempts is longer than the maximum.
pub proof fn law_delays_are_capped(options: RetryOptions, failures: Seq<(bool, Span)>)
    requires
        options.rejection() is None,
    ensures
        RetryPolicy::fresh(options).after_failures(failures) matches Some(p) ==> p.options == options
            && p.delay.total() <= options.max_backoff.total(),
    decreases failures.len(),
{
    if failures.len() > 0 {
        law_delays_are_capped(options, failures.drop_last());
    }
}

/// An operation is tried again after every failure that can be retried, for as long as the options
/// allow; the first delay is the initial one, and each later one is the last multiplied, or the
/// maximum where that is shorter.
pub proof fn law_transient_failures_are_retried(options: RetryOptions, failures: Seq<(bool, Span)>)
    requires
        failures.len() <= options.max_retries,
        forall|i: int| 0 <= i < failures.len() ==> (#[trigger] failures[i]).0,
    ensures
        RetryPolicy::fresh(options).after_failures(failures) matches Some(p) && p.delay.total()
            == if failures.len() == 0 {
            options.initial_backoff.total()
        } else if failures.last().1.total() <= options.max_backoff.total() {
            failures.last().1.total()
        } else {
            options.max_backoff.total()
        },
    decreases failures.len(),
{
    if failures.len() > 0 {
        let most = failures.drop_last();
        assert forall|i: int| 0 <= i < most.len() implies (#[trigger] most[i]).0 by {
            assert(failures[i].0);
        }
        law_transient_failures_are_retried(options, most);
        law_retries_are_bounded(options, most);
        assert(failures[failures.len() - 1].0);
    }
}

/// Options are accepted exactly where the delays begin above zero, have room to grow and do not
/// shrink.
pub proof fn law_accepted_options_can_grow(options: RetryOptions)
    ensures
        options.rejection() is None <==> 0 < options.initial_backoff.total()
            <= options.max_backoff.total() && !options.backoff_multiplier.below_one,
{
}

} // verus!
