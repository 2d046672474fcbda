//! The retry policy of the clients of OpenAI-compatible services. After a
//! failed attempt the client waits and tries again, 100 ms before the first
//! retry and twice as long before each further one, except after a client
//! error other than a rate limit, and never beyond the configured number of
//! retries. When it stops, it reports the last failure.

use vstd::prelude::*;

use crate::conflict::internal_error;
use crate::error::Error;
use crate::text::owned;

verus! {

/// How an attempt failed.
#[derive(Debug, Clone)]
pub enum AttemptFailure {
    /// The service answered with a status that is not a success; `shown` is
    /// how the status is written (its code and reason), `body` the text of the
    /// answer.
    Status { code: u16, shown: String, body: String },
    /// No answer came back.
    Transport { message: String },
}

/// What to do after a failed attempt.
#[derive(Debug, Clone)]
pub enum NextStep {
    /// Wait this many milliseconds, then make the next attempt.
    Retry { delay_ms: u64 },
    /// Stop, and report this error.
    Stop { error: Error },
}

/// The message that reports a failed attempt.
pub open spec fn failure_message(f: AttemptFailure) -> Seq<char> {
    match f {
        AttemptFailure::Status { shown, body, .. } => "OpenAI API error "@ + shown@ + ": "@ + body@,
        AttemptFailure::Transport { message } => "HTTP request failed: "@ + message@,
    }
}

/// A failure that no retry can mend: a client error (4xx) other than a rate
/// limit (429).
pub open spec fn is_permanent(f: AttemptFailure) -> bool {
    f matches AttemptFailure::Status { code, .. } && 400 <= code < 500 && code != 429
}

/// Two to the power `n`.
pub open spec fn doubling(n: nat) -> nat
    decreases n,
{
    if n == 0 {
        1
    } else {
        2 * doubling((n - 1) as nat)
    }
}

/// The wait before retry number `n` (from one): 100 ms, doubled for each
/// retry before it.
pub open spec fn retry_delay_ms(n: nat) -> nat {
    100 * doubling((n - 1) as nat)
}

/// The client stops after attempt `attempt` (from zero) when the failure is
/// permanent or no retry is left.
pub open spec fn stops_after(attempt: u32, max_retries: u32, f: AttemptFailure) -> bool {
    is_permanent(f) || attempt >= max_retries
}

proof fn lemma_doubling_grows(i: nat, j: nat)
    requires
        i <= j,
    ensures
        doubling(i) <= doubling(j),
    decreases j - i,
{
    if i < j {
        lemma_doubling_grows(i, (j - 1) as nat);
    }
}

/// The wait before the retry that follows attempt `attempt`.
fn delay_after(attempt: u32) -> (r: u64)
    requires
        attempt < 58,
    ensures
        r == retry_delay_ms(attempt as nat + 1),
{
    proof {
        reveal_with_fuel(doubling, 58);
        assert(doubling(57) == 0x200_0000_0000_0000);
    }
    let mut d: u64 = 100;
    let mut i: u32 = 0;
    while i < attempt
        invariant
            i <= attempt < 58,
            d == 100 * doubling(i as nat),
            doubling(57) == 0x200_0000_0000_0000,
        decreases attempt - i,
    {
        proof {
            lemma_doubling_grows(i as nat + 1, 57);
        }
        d = d * 2;
        i += 1;
    }
    d
}

/// Decide what follows a failed attempt: stop with the failure's message when
/// it is permanent or the last retry is spent, else wait and retry.
pub fn next_step(attempt: u32, max_retries: u32, failure: AttemptFailure) -> (r: NextStep)
    requires
        stops_after(attempt, max_retries, failure) || attempt < 58,
    ensures
        stops_after(attempt, max_retries, failure) ==> (r matches NextStep::Stop { error }
            && internal_error(error, failure_message(failure))),
        !stops_after(attempt, max_retries, failure) ==> (r matches NextStep::Retry { delay_ms }
            && delay_ms == retry_delay_ms(attempt as nat + 1)),
        attempt < max_retries && (failure matches AttemptFailure::Status { code, .. } && (code >= 500
            || code == 429)) ==> r is Retry,
        attempt < max_retries && failure is Transport ==> r is Retry,
{
    proof {
        lemma_which_failures_are_retried(attempt, max_retries, failure);
    }
    let permanent = match &failure {
        AttemptFailure::Status { code, .. } => *code >= 400 && *code < 500 && *code != 429,
        AttemptFailure::Transport { .. } => false,
    };
    if permanent || attempt >= max_retries {
        let message = match failure {
            AttemptFailure::Status { shown, body, .. } => {
                let mut m = owned("OpenAI API error ");
                m.append(shown.as_str());
                m.append(": ");
                m.append(body.as_str());
                m
            },
            AttemptFailure::Transport { message } => {
                let mut m = owned("HTTP request failed: ");
                m.append(message.as_str());
                m
            },
        };
        NextStep::Stop { error: Error::Internal(message) }
    } else {
        NextStep::Retry { delay_ms: delay_after(attempt) }
    }
}

/// The waits grow: each retry waits twice as long as the one before it.
pub proof fn lemma_delays_double(n: nat)
    requires
        n >= 1,
    ensures
        retry_delay_ms(n + 1) == 2 * retry_delay_ms(n),
        retry_delay_ms(1) == 100,
{
    assert(doubling(n) == 2 * doubling((n - 1) as nat));
}

/// However many retries are configured, a client error other than a rate
/// limit ends them at once.
pub proof fn lemma_client_errors_end_retries(attempt: u32, max_retries: u32, f: AttemptFailure)
    requires
        is_permanent(f),
    ensures
        stops_after(attempt, max_retries, f),
{
}

/// After a failed attempt with retries left, the client retries unless the
/// service answered with a client error (400 to 499) other than 429: a
/// server error (500 and above), a rate limit, any status below 400 and a
/// transport failure are all retried, the first retry after 100 ms. A client
/// error other than 429 stops at once, and so does every failure once the
/// retries are spent.
pub proof fn lemma_which_failures_are_retried(attempt: u32, max_retries: u32, f: AttemptFailure)
    ensures
        attempt < max_retries && (f matches AttemptFailure::Status { code, .. } && code >= 500)
            ==> !stops_after(attempt, max_retries, f),
        attempt < max_retries && (f matches AttemptFailure::Status { code, .. } && code == 429)
            ==> !stops_after(attempt, max_retries, f),
        attempt < max_retries && (f matches AttemptFailure::Status { code, .. } && code < 400)
            ==> !stops_after(attempt, max_retries, f),
        attempt < max_retries && f is Transport ==> !stops_after(attempt, max_retries, f),
        (f matches AttemptFailure::Status { code, .. } && 400 <= code <= 499 && code != 429)
            ==> stops_after(attempt, max_retries, f),
        attempt >= max_retries ==> stops_after(attempt, max_retries, f),
        retry_delay_ms(1) == 100,
        retry_delay_ms(2) == 200,
        retry_delay_ms(3) == 400,
{
    reveal_with_fuel(doubling, 3);
}

} // verus!
