//! The command executor: bounded retry with a fixed delay between attempts.
//!
//! The executor never spawns anything itself. A caller runs the command,
//! reports each attempt's outcome to a [`Retry`], and follows the [`Step`]
//! that comes back.

use vstd::prelude::*;
use crate::text::{contains_text, has_infix};

verus! {

/// Seconds to wait between two attempts of one command.
pub const RETRY_DELAY_SECS: u64 = 5;

/// What one attempt of a command produced.
pub enum Outcome {
    /// The process ran to completion.
    Exited { success: bool, stdout: String, stderr: String },
    /// The process could not be started.
    SpawnFailed { message: String },
}

/// What the caller does after reporting an attempt.
pub enum Step {
    /// The command succeeded; carries its standard output.
    Succeeded(String),
    /// Wait [`RETRY_DELAY_SECS`] and run the command again.
    RetryAfterDelay,
    /// All attempts are spent; carries the last error text.
    GaveUp(String),
}

/// Whether a command is a repository pull, whose failure is harmless.
pub open spec fn is_pull(cmd: Seq<char>) -> bool {
    has_infix(cmd, "git pull"@)
}

/// Whether an attempt counts as a success.
pub open spec fn attempt_ok(tolerant: bool, o: Outcome) -> bool {
    match o {
        Outcome::Exited { success, .. } => success || tolerant,
        Outcome::SpawnFailed { .. } => false,
    }
}

/// The standard output of an attempt, empty if nothing ran.
pub open spec fn output_of(o: Outcome) -> Seq<char> {
    match o {
        Outcome::Exited { stdout, .. } => stdout@,
        Outcome::SpawnFailed { .. } => Seq::empty(),
    }
}

/// The error text of an attempt: its stderr, or why it could not start.
pub open spec fn error_of(o: Outcome) -> Seq<char> {
    match o {
        Outcome::Exited { stderr, .. } => stderr@,
        Outcome::SpawnFailed { message } => message@,
    }
}

/// The number of attempts made when the outcomes from position `i` on are
/// `outs`, with at most `max` attempts in all.
pub open spec fn attempts_from(tolerant: bool, outs: Seq<Outcome>, i: nat, max: nat) -> nat
    decreases max - i,
{
    if i >= max {
        max
    } else if attempt_ok(tolerant, outs[i as int]) {
        i + 1
    } else {
        attempts_from(tolerant, outs, i + 1, max)
    }
}

/// How many times a command runs when its attempts produce `outs`.
pub open spec fn attempts_made(tolerant: bool, outs: Seq<Outcome>, max: nat) -> nat {
    attempts_from(tolerant, outs, 0, max)
}

/// What the command's last attempt yields: its output on success, else its error.
pub open spec fn final_result(tolerant: bool, outs: Seq<Outcome>, max: nat) -> Result<Seq<char>, Seq<char>> {
    let last = outs[attempts_made(tolerant, outs, max) - 1];
    if attempt_ok(tolerant, last) {
        Ok(output_of(last))
    } else {
        Err(error_of(last))
    }
}

/// Retry bookkeeping for one command.
pub struct Retry {
    /// Failures of this command count as success.
    pub tolerant: bool,
    /// The number of the attempt being made, from 1.
    pub attempt: u32,
    /// The bound on attempts.
    pub max_attempts: u32,
}

impl Retry {
    pub open spec fn wf(&self) -> bool {
        1 <= self.attempt <= self.max_attempts
    }

    /// Starts the bookkeeping for `command`, to be tried at most `max_attempts` times.
    pub fn new(command: &str, max_attempts: u32) -> (r: Retry)
        requires
            max_attempts >= 1,
        ensures
            r.wf(),
            r.attempt == 1,
            r.max_attempts == max_attempts,
            r.tolerant == is_pull(command@),
    {
        let tolerant = contains_text(command, "git pull");
        Retry { tolerant, attempt: 1, max_attempts }
    }

    /// Records the outcome of the current attempt and says what comes next.
    pub fn record(&mut self, o: &Outcome) -> (s: Step)
        requires
            old(self).wf(),
        ensures
            final(self).tolerant == old(self).tolerant,
            final(self).max_attempts == old(self).max_attempts,
            attempt_ok(old(self).tolerant, *o) ==> (s matches Step::Succeeded(out) && out@ == output_of(*o)),
            !attempt_ok(old(self).tolerant, *o) && old(self).attempt < old(self).max_attempts ==> (
                s is RetryAfterDelay && final(self).wf() && final(self).attempt == old(self).attempt + 1),
            !attempt_ok(old(self).tolerant, *o) && old(self).attempt == old(self).max_attempts ==> (
                s matches Step::GaveUp(e) && e@ == error_of(*o)),
            !(s is RetryAfterDelay) ==> final(self).attempt == old(self).attempt,
    {
        match o {
            Outcome::Exited { success, stdout, stderr } => {
                if *success || self.tolerant {
                    return Step::Succeeded(stdout.clone());
                }
                if self.attempt < self.max_attempts {
                    self.attempt = self.attempt + 1;
                    Step::RetryAfterDelay
                } else {
                    Step::GaveUp(stderr.clone())
                }
            },
            Outcome::SpawnFailed { message } => {
                if self.attempt < self.max_attempts {
                    self.attempt = self.attempt + 1;
                    Step::RetryAfterDelay
                } else {
                    Step::GaveUp(message.clone())
                }
            },
        }
    }
}

/// What running a command through the executor came to.
pub struct Report {
    /// How many times the command ran.
    pub invocations: u32,
    /// How many delays were waited.
    pub delays: u32,
    /// The output of the successful attempt, or the last error.
    pub result: Result<String, String>,
}

/// Runs the retry policy for `command` on the outcomes that its attempts
/// produce, in order.
pub fn run_recorded(command: &str, max_attempts: u32, outcomes: &Vec<Outcome>) -> (r: Report)
    requires
        max_attempts >= 1,
        outcomes@.len() >= max_attempts,
    ensures
        r.invocations == attempts_made(is_pull(command@), outcomes@, max_attempts as nat),
        r.delays == r.invocations - 1,
        r.result matches Ok(out) ==> final_result(is_pull(command@), outcomes@, max_attempts as nat) == Ok::<Seq<char>, Seq<char>>(out@),
        r.result matches Err(e) ==> final_result(is_pull(command@), outcomes@, max_attempts as nat) == Err::<Seq<char>, Seq<char>>(e@),
{
    let mut retry = Retry::new(command, max_attempts);
    let ghost tolerant = retry.tolerant;
    let ghost outs = outcomes@;
    let ghost max = max_attempts as nat;
    let mut delays: u32 = 0;
    loop
        invariant
            retry.wf(),
            retry.tolerant == tolerant,
            tolerant == is_pull(command@),
            retry.max_attempts == max_attempts,
            max == max_attempts as nat,
            outs == outcomes@,
            outs.len() >= max,
            delays + 1 == retry.attempt,
            attempts_made(tolerant, outs, max) == attempts_from(tolerant, outs, (retry.attempt - 1) as nat, max),
        decreases max_attempts - retry.attempt,
    {
        let i = retry.attempt - 1;
        let step = retry.record(&outcomes[i as usize]);
        match step {
            Step::Succeeded(out) => {
                return Report { invocations: i + 1, delays, result: Ok(out) };
            },
            Step::RetryAfterDelay => {
                delays = delays + 1;
            },
            Step::GaveUp(e) => {
                assert(attempts_from(tolerant, outs, (i + 1) as nat, max) == max);
                return Report { invocations: i + 1, delays, result: Err(e) };
            },
        }
    }
}

/// A command that is not a pull and fails on every attempt runs exactly
/// `max_attempts` times and ends in the last attempt's error; as
/// [`run_recorded`] waits one delay fewer than it runs, a delay separates
/// each two attempts and none follows the last.
pub proof fn lemma_persistent_failure_exhausts_attempts(cmd: Seq<char>, max_attempts: nat, outs: Seq<Outcome>)
    requires
        max_attempts >= 1,
        outs.len() >= max_attempts,
        !is_pull(cmd),
        forall|i: int| 0 <= i < max_attempts ==> !(#[trigger] outs[i] matches Outcome::Exited { success: true, .. }),
    ensures
        attempts_made(is_pull(cmd), outs, max_attempts) == max_attempts,
        final_result(is_pull(cmd), outs, max_attempts) == Err::<Seq<char>, Seq<char>>(error_of(outs[max_attempts - 1])),
{
    lemma_failures_from(is_pull(cmd), outs, 0, max_attempts);
}

proof fn lemma_failures_from(tolerant: bool, outs: Seq<Outcome>, i: nat, max: nat)
    requires
        i <= max,
        outs.len() >= max,
        forall|j: int| i <= j < max ==> !attempt_ok(tolerant, #[trigger] outs[j]),
    ensures
        attempts_from(tolerant, outs, i, max) == max,
    decreases max - i,
{
    if i < max {
        assert(!attempt_ok(tolerant, outs[i as int]));
        lemma_failures_from(tolerant, outs, i + 1, max);
    }
}

/// A pull whose process runs to completion succeeds on the first attempt,
/// whatever its exit status.
pub proof fn lemma_pull_succeeds_at_once(cmd: Seq<char>, max_attempts: nat, outs: Seq<Outcome>)
    requires
        max_attempts >= 1,
        outs.len() >= max_attempts,
        is_pull(cmd),
        outs[0] is Exited,
    ensures
        attempts_made(is_pull(cmd), outs, max_attempts) == 1,
        final_result(is_pull(cmd), outs, max_attempts) == Ok::<Seq<char>, Seq<char>>(output_of(outs[0])),
{
}

} // verus!
