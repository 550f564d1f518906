//! Polling for a condition that an accepted write has not brought about yet.
//!
//! A write that the daemon accepts takes effect later. The poller repeats a
//! read, a bounded number of times and with a pause between two reads, until
//! what it reads satisfies a condition. It knows nothing of units or of the
//! wire: the read, the condition and the pause are handed to it.
use vstd::prelude::*;

verus! {

/// Why polling ended without a value that satisfies the condition.
#[derive(Debug, Clone, PartialEq, Eq)]
pub enum PollError<T, E> {
    /// A read failed. Its error is handed on; nothing is read after it.
    Failed(E),
    /// Every read succeeded, and none satisfied the condition. The value is
    /// what the last read returned.
    TimedOut(T),
}

/// What to do after one read.
#[derive(Debug, Clone, PartialEq, Eq)]
pub enum PollStep<T, E> {
    /// The value satisfies the condition: return it.
    Return(T),
    /// The read failed: hand its error on.
    Fail(E),
    /// The value does not satisfy the condition, and reads are left: pause
    /// and read again.
    Retry,
    /// The value does not satisfy the condition, and it was the last read
    /// allowed: give up, with the value.
    GiveUp(T),
}

/// What one read brought: its outcome, and whether the condition accepted
/// the value (of no account where the read failed).
pub type Observed<T, E> = (Result<T, E>, bool);

/// What to do after the read that is number `attempt`, counted from one,
/// where `limit` reads are allowed.
pub open spec fn step_of<T, E>(attempt: nat, limit: nat, outcome: Result<T, E>, accepted: bool) -> PollStep<
    T,
    E,
> {
    match outcome {
        Err(error) => PollStep::Fail(error),
        Ok(value) => if accepted {
            PollStep::Return(value)
        } else if attempt >= limit {
            PollStep::GiveUp(value)
        } else {
            PollStep::Retry
        },
    }
}

/// Whether `reads` is a whole run of the poller: at least one read and at
/// most `limit`, each but the last followed by another read, and the last
/// one not.
pub open spec fn is_run<T, E>(reads: Seq<Observed<T, E>>, limit: nat) -> bool {
    &&& 1 <= reads.len() <= limit
    &&& forall|i: int|
        0 <= i < reads.len() - 1 ==> step_of((i + 1) as nat, limit, (#[trigger] reads[i]).0, reads[i].1)
            is Retry
    &&& !(step_of(reads.len(), limit, reads.last().0, reads.last().1) is Retry)
}

/// What a whole run returns: the accepted value, the error of the failed
/// read, or the value of the last read allowed.
pub open spec fn verdict<T, E>(reads: Seq<Observed<T, E>>, limit: nat) -> Result<T, PollError<T, E>> {
    match step_of(reads.len(), limit, reads.last().0, reads.last().1) {
        PollStep::Return(value) => Ok(value),
        PollStep::Fail(error) => Err(PollError::Failed(error)),
        PollStep::GiveUp(value) => Err(PollError::TimedOut(value)),
        PollStep::Retry => arbitrary(),
    }
}

/// Whether every read of `reads` is one that `read` can return, with the
/// answer that `accept` can give to its value.
pub open spec fn observed_from<T, E, R: Fn() -> Result<T, E>, P: Fn(&T) -> bool>(
    read: R,
    accept: P,
    reads: Seq<Observed<T, E>>,
) -> bool {
    forall|i: int|
        0 <= i < reads.len() ==> {
            &&& call_ensures(read, (), (#[trigger] reads[i]).0)
            &&& reads[i].0 matches Ok(value) ==> call_ensures(accept, (&value,), reads[i].1)
        }
}

/// Decides what to do after one read: the read that is number `attempt`,
/// counted from one, of `limit` reads allowed.
pub fn poll_step<T, E>(attempt: u32, limit: u32, outcome: Result<T, E>, accepted: bool) -> (r:
    PollStep<T, E>)
    ensures
        r == step_of(attempt as nat, limit as nat, outcome, accepted),
{
    match outcome {
        Err(error) => PollStep::Fail(error),
        Ok(value) => {
            if accepted {
                PollStep::Return(value)
            } else if attempt >= limit {
                PollStep::GiveUp(value)
            } else {
                PollStep::Retry
            }
        },
    }
}

/// Reads until a value satisfies the condition.
///
/// `read` is called at most `max_attempts` times. A failed read ends the
/// polling with its error. A value that `accept` takes is returned at once.
/// Between two reads `wait` is called with `delay`. When the last read
/// allowed brings a value that `accept` does not take, the polling ends with
/// that value in [`PollError::TimedOut`].
pub fn poll<T, E, R: Fn() -> Result<T, E>, P: Fn(&T) -> bool, W: Fn(u64) -> ()>(
    max_attempts: u32,
    delay: u64,
    read: R,
    accept: P,
    wait: W,
) -> (r: Result<T, PollError<T, E>>)
    requires
        max_attempts >= 1,
        call_requires(read, ()),
        forall|value: &T| call_requires(accept, (value,)),
        call_requires(wait, (delay,)),
    ensures
        exists|reads: Seq<Observed<T, E>>|
            #![trigger is_run(reads, max_attempts as nat)]
            {
                &&& is_run(reads, max_attempts as nat)
                &&& observed_from(read, accept, reads)
                &&& r == verdict(reads, max_attempts as nat)
            },
{
    let ghost mut reads: Seq<Observed<T, E>> = Seq::empty();
    let mut attempt: u32 = 1;
    loop
        invariant
            1 <= attempt <= max_attempts,
            reads.len() == attempt - 1,
            call_requires(read, ()),
            forall|value: &T| call_requires(accept, (value,)),
            call_requires(wait, (delay,)),
            observed_from(read, accept, reads),
            forall|i: int|
                0 <= i < reads.len() ==> step_of(
                    (i + 1) as nat,
                    max_attempts as nat,
                    (#[trigger] reads[i]).0,
                    reads[i].1,
                ) is Retry,
        decreases max_attempts - attempt,
    {
        let outcome = read();
        let accepted = match &outcome {
            Ok(value) => accept(value),
            Err(_) => false,
        };
        proof {
            reads = reads.push((outcome, accepted));
        }
        match poll_step(attempt, max_attempts, outcome, accepted) {
            PollStep::Return(value) => {
                assert(is_run(reads, max_attempts as nat));
                return Ok(value);
            },
            PollStep::Fail(error) => {
                assert(is_run(reads, max_attempts as nat));
                return Err(PollError::Failed(error));
            },
            PollStep::GiveUp(value) => {
                assert(is_run(reads, max_attempts as nat));
                return Err(PollError::TimedOut(value));
            },
            PollStep::Retry => {
                wait(delay);
                attempt = attempt + 1;
            },
        }
    }
}

} // verus!
