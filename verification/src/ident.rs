//! Collision-safe random identifier allocation.
//!
//! A caller draws a fresh random value (a UUID or an alphanumeric
//! secret), asks the store to persist it under a uniqueness constraint,
//! and inspects the outcome: success keeps the value, a uniqueness
//! violation on the target constraint triggers a retry with a fresh
//! value, and any other failure aborts the operation at once.
//!
//! The store itself lives outside this crate; it reports each attempt's
//! outcome as an [`AttemptOutcome`] holding plain values.  The decision
//! of what to do next ([`alloc_step`]) and the whole retry discipline
//! over a trace of outcomes ([`run_allocation`]) are verified here.

use vstd::prelude::*;

use crate::errors::ServiceError;
use crate::text::{contains_str, spec_has_substr, str_eq};

verus! {

/// SQLSTATE code with which the database reports a uniqueness violation.
pub open spec fn spec_unique_violation_code() -> Seq<char> {
    "23505"@
}

/// A database error as plain values: the SQLSTATE code, if the driver
/// reported one, and the driver's message text, which names the violated
/// constraint.
#[derive(Clone, Debug)]
pub struct DbErrorInfo {
    pub code: Option<String>,
    pub message: String,
}

impl DbErrorInfo {
    /// The code as a sequence of characters, when present.
    pub open spec fn code_view(&self) -> Option<Seq<char>> {
        match self.code {
            Option::Some(c) => Option::Some(c@),
            Option::None => Option::None,
        }
    }
}

/// A uniqueness violation on the allocator's own constraint: the
/// uniqueness SQLSTATE code together with the constraint's name in the
/// error message.
pub open spec fn spec_is_collision(err: &DbErrorInfo, constraint: Seq<char>) -> bool {
    err.code_view() == Option::Some(spec_unique_violation_code()) && spec_has_substr(
        err.message@,
        constraint,
    )
}

/// Decides whether a database error is a collision on the given
/// uniqueness constraint.
pub fn is_collision(err: &DbErrorInfo, constraint: &str) -> (r: bool)
    ensures
        r == spec_is_collision(err, constraint@),
{
    match &err.code {
        Option::Some(c) => {
            let code_matches = str_eq(c.as_str(), "23505");
            code_matches && contains_str(err.message.as_str(), constraint)
        },
        Option::None => false,
    }
}

/// Outcome of one persistence attempt, as the store reports it.
pub enum AttemptOutcome {
    /// the row was committed
    Persisted,
    /// the statement failed with this database error
    Failed(DbErrorInfo),
}

/// What the allocator does after one attempt.
pub enum AllocStep {
    /// keep the candidate: it is durably unique now
    Accept,
    /// collision on the target constraint: draw a fresh candidate and retry
    RetryFresh,
    /// any other failure: stop and surface this error
    Abort(ServiceError),
}

/// The allocator's decision on one outcome.
pub open spec fn spec_alloc_step(outcome: &AttemptOutcome, constraint: Seq<char>) -> AllocStep {
    match outcome {
        AttemptOutcome::Persisted => AllocStep::Accept,
        AttemptOutcome::Failed(err) => if spec_is_collision(err, constraint) {
            AllocStep::RetryFresh
        } else {
            AllocStep::Abort(ServiceError::InternalServerError)
        },
    }
}

/// Decides the next step after one persistence attempt: accept on
/// success, retry on a collision, abort with an internal error on
/// anything else.
pub fn alloc_step(outcome: &AttemptOutcome, constraint: &str) -> (r: AllocStep)
    ensures
        r == spec_alloc_step(outcome, constraint@),
{
    match outcome {
        AttemptOutcome::Persisted => AllocStep::Accept,
        AttemptOutcome::Failed(err) => {
            if is_collision(err, constraint) {
                AllocStep::RetryFresh
            } else {
                AllocStep::Abort(ServiceError::InternalServerError)
            }
        },
    }
}

/// An outcome that ends the retry loop: a success, or a failure that is
/// no collision.
pub open spec fn spec_is_terminal(outcome: AttemptOutcome, constraint: Seq<char>) -> bool {
    match outcome {
        AttemptOutcome::Persisted => true,
        AttemptOutcome::Failed(err) => !spec_is_collision(&err, constraint),
    }
}

/// Index of the first outcome that ends the retry loop, if any.
pub open spec fn spec_first_terminal(outcomes: Seq<AttemptOutcome>, constraint: Seq<char>) -> Option<
    int,
>
    decreases outcomes.len(),
{
    if outcomes.len() == 0 {
        Option::None
    } else if spec_is_terminal(outcomes[0], constraint) {
        Option::Some(0)
    } else {
        match spec_first_terminal(outcomes.skip(1), constraint) {
            Option::Some(k) => Option::Some(k + 1),
            Option::None => Option::None,
        }
    }
}

proof fn lemma_first_terminal_shift(outcomes: Seq<AttemptOutcome>, constraint: Seq<char>, i: int)
    requires
        0 <= i <= outcomes.len(),
        forall|j: int| 0 <= j < i ==> !spec_is_terminal(#[trigger] outcomes[j], constraint),
    ensures
        spec_first_terminal(outcomes, constraint) == match spec_first_terminal(
            outcomes.skip(i),
            constraint,
        ) {
            Option::Some(k) => Option::Some(k + i),
            Option::None => Option::<int>::None,
        },
    decreases i,
{
    if i == 0 {
        assert(outcomes.skip(0) =~= outcomes);
    } else {
        lemma_first_terminal_shift(outcomes.skip(1), constraint, i - 1);
        assert(outcomes.skip(1).skip(i - 1) =~= outcomes.skip(i));
        assert(forall|j: int|
            0 <= j < i - 1 ==> #[trigger] outcomes.skip(1)[j] == outcomes[j + 1]);
        assert(!spec_is_terminal(outcomes[0], constraint));
    }
}

/// How one allocation call ends when replayed against a trace of
/// attempt outcomes.
pub enum AllocOutcome {
    /// the candidate of the successful attempt, and how many attempts ran
    Allocated { value: String, attempts: usize },
    /// a non-collision failure surfaced after this many attempts
    Aborted { error: ServiceError, attempts: usize },
    /// the trace ran out while every attempt collided
    Exhausted { attempts: usize },
}

/// Replays one allocation against a trace: `candidates[i]` is the value
/// drawn for attempt `i` and `outcomes[i]` what the store answered.  The
/// first success returns its candidate; the first non-collision failure
/// aborts; collisions only consume attempts.
pub fn run_allocation(candidates: &Vec<String>, outcomes: &Vec<AttemptOutcome>, constraint: &str) -> (r:
    AllocOutcome)
    requires
        candidates@.len() == outcomes@.len(),
    ensures
        match spec_first_terminal(outcomes@, constraint@) {
            Option::Some(k) => match outcomes@[k] {
                AttemptOutcome::Persisted => r matches AllocOutcome::Allocated { value, attempts }
                    && value@ == candidates@[k]@ && attempts == k + 1,
                AttemptOutcome::Failed(_) => r matches AllocOutcome::Aborted { error, attempts }
                    && error == ServiceError::InternalServerError && attempts == k + 1,
            },
            Option::None => r matches AllocOutcome::Exhausted { attempts } && attempts
                == outcomes@.len(),
        },
{
    let n = outcomes.len();
    let mut i: usize = 0;
    while i < n
        invariant
            0 <= i <= n,
            n == outcomes@.len(),
            candidates@.len() == outcomes@.len(),
            forall|j: int| 0 <= j < i ==> !spec_is_terminal(#[trigger] outcomes@[j], constraint@),
        decreases n - i,
    {
        let step = alloc_step(&outcomes[i], constraint);
        match step {
            AllocStep::Accept => {
                proof {
                    lemma_first_terminal_shift(outcomes@, constraint@, i as int);
                    assert(outcomes@.skip(i as int)[0] == outcomes@[i as int]);
                }
                return AllocOutcome::Allocated { value: candidates[i].clone(), attempts: i + 1 };
            },
            AllocStep::Abort(error) => {
                proof {
                    lemma_first_terminal_shift(outcomes@, constraint@, i as int);
                    assert(outcomes@.skip(i as int)[0] == outcomes@[i as int]);
                }
                return AllocOutcome::Aborted { error, attempts: i + 1 };
            },
            AllocStep::RetryFresh => {
                proof {
                    assert(!spec_is_terminal(outcomes@[i as int], constraint@));
                }
                i += 1;
            },
        }
    }
    proof {
        lemma_first_terminal_shift(outcomes@, constraint@, n as int);
        assert(outcomes@.skip(n as int) =~= Seq::<AttemptOutcome>::empty());
    }
    AllocOutcome::Exhausted { attempts: n }
}

/// Uniqueness retry law: a trace of `n` collision failures followed by a
/// success makes the allocator run exactly `n + 1` attempts and accept
/// the candidate of the successful attempt; a trace whose first outcome
/// is a non-collision failure makes it run exactly one attempt and
/// surface the error.  Together with [`run_allocation`]'s contract this
/// pins the allocator's result on every such trace.
pub proof fn lemma_uniqueness_retry(
    outcomes: Seq<AttemptOutcome>,
    constraint: Seq<char>,
    n: int,
)
    requires
        0 <= n < outcomes.len(),
        forall|j: int|
            0 <= j < n ==> ((#[trigger] outcomes[j]) matches AttemptOutcome::Failed(err)
                && spec_is_collision(&err, constraint)),
        outcomes[n] matches AttemptOutcome::Persisted,
    ensures
        spec_first_terminal(outcomes, constraint) == Option::Some(n),
{
    assert(forall|j: int| 0 <= j < n ==> !spec_is_terminal(#[trigger] outcomes[j], constraint));
    lemma_first_terminal_shift(outcomes, constraint, n);
    assert(outcomes.skip(n)[0] == outcomes[n]);
}

/// The immediate-abort half of the retry law: a first outcome that fails
/// without colliding ends the allocation after exactly one attempt.
pub proof fn lemma_abort_first_attempt(outcomes: Seq<AttemptOutcome>, constraint: Seq<char>)
    requires
        outcomes.len() > 0,
        outcomes[0] matches AttemptOutcome::Failed(err) && !spec_is_collision(&err, constraint),
    ensures
        spec_first_terminal(outcomes, constraint) == Option::Some(0int),
{
}

/// Relies on `uuid::Uuid::new_v4` and its `Display` implementation: a
/// freshly generated random (version 4) UUID, rendered in the hyphenated
/// form, which is documented to be exactly 36 characters.  The value
/// itself is random; nothing more is assumed of it.
#[verifier::external_body]
pub fn new_uuid_string() -> (r: String)
    ensures
        r@.len() == 36,
{
    uuid::Uuid::new_v4().to_string()
}

/// Relies on `rand`'s `Alphanumeric` distribution sampled from
/// `thread_rng`: each drawn byte is documented to be an ASCII letter or
/// digit.  The values are random; only the length and character class
/// are assumed.
#[verifier::external_body]
pub fn get_random(len: usize) -> (r: String)
    ensures
        r@.len() == len as int,
        forall|i: int|
            0 <= i < r@.len() ==> (48 <= #[trigger] r@[i] as u32 <= 57 || 65 <= r@[i] as u32 <= 90
                || 97 <= r@[i] as u32 <= 122),
{
    let rng = rand::thread_rng();
    rand::Rng::sample_iter(rng, &rand::distributions::Alphanumeric).take(len).map(
        char::from,
    ).collect()
}

} // verus!
