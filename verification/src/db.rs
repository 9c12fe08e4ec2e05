//! Where the pet keeps its database.

use vstd::prelude::*;

use crate::text::{trim, trimmed};

verus! {

/// A database path given through the environment counts when it is not
/// blank.
pub fn env_db_path(raw: Option<String>) -> (r: Option<String>)
    ensures
        r == (match raw {
            Some(p) => if trimmed(p@).len() > 0 {
                Some(p)
            } else {
                None
            },
            None => None,
        }),
{
    match raw {
        Some(p) => {
            let t = trim(p.as_str());
            if t.as_str().is_empty() {
                None
            } else {
                Some(p)
            }
        },
        None => None,
    }
}

/// The places to try for the database, in order: the path from the
/// environment, the application's data directory, then a fallback.
pub open spec fn candidate_seq<P>(env_path: Option<P>, app_data_path: Option<P>, fallback_path: P) -> Seq<P> {
    let a = match env_path {
        Some(p) => seq![p],
        None => Seq::empty(),
    };
    let b = match app_data_path {
        Some(p) => seq![p],
        None => Seq::empty(),
    };
    a + b + seq![fallback_path]
}

/// Lists the places to try for the database, in order.
pub fn db_candidates<P>(env_path: Option<P>, app_data_path: Option<P>, fallback_path: P) -> (v: Vec<P>)
    ensures
        v@ == candidate_seq(env_path, app_data_path, fallback_path),
{
    let ghost spec_env = env_path;
    let ghost spec_app = app_data_path;
    let mut v: Vec<P> = Vec::new();
    match env_path {
        Some(p) => v.push(p),
        None => {},
    }
    match app_data_path {
        Some(p) => v.push(p),
        None => {},
    }
    v.push(fallback_path);
    assert(v@ =~= candidate_seq(spec_env, spec_app, fallback_path));
    v
}

/// What to do next while opening the database.
#[derive(Clone, Debug, PartialEq, Eq)]
pub enum PoolStep {
    /// Try the candidate with this index.
    Try(usize),
    /// The candidate with this index opened: use it.
    Use(usize),
    /// No candidate opened; this is the error to report.
    Fail(String),
}

/// The error reported when there is no place to try at all.
pub open spec fn no_candidate_error() -> Seq<char> {
    "failed to initialize sqlite pool"@
}

/// The first step over `len` candidates: try the first, or fail when there
/// is none.
pub fn first_attempt(len: usize) -> (s: PoolStep)
    ensures
        len == 0 ==> (s matches PoolStep::Fail(e) && e@ == no_candidate_error()),
        len > 0 ==> s == PoolStep::Try(0),
{
    if len == 0 {
        PoolStep::Fail(String::from_str("failed to initialize sqlite pool"))
    } else {
        PoolStep::Try(0)
    }
}

/// A step of opening the database, as a value of the model.
pub enum Step {
    Try(int),
    Use(int),
    Fail(Seq<char>),
}

/// The model of a step.
pub open spec fn step_of(s: PoolStep) -> Step {
    match s {
        PoolStep::Try(i) => Step::Try(i as int),
        PoolStep::Use(i) => Step::Use(i as int),
        PoolStep::Fail(e) => Step::Fail(e@),
    }
}

/// The outcome of a try, with its error as text.
pub open spec fn outcome_text(o: Result<(), String>) -> Result<(), Seq<char>> {
    match o {
        Ok(()) => Ok(()),
        Err(e) => Err(e@),
    }
}

/// The step after trying candidate `index` of `len` with `outcome`: use it
/// when it opened, otherwise try the next one, or fail with its error when
/// it was the last.
pub open spec fn next_step(index: int, len: int, outcome: Result<(), Seq<char>>) -> Step {
    match outcome {
        Ok(()) => Step::Use(index),
        Err(e) => if index + 1 < len {
            Step::Try(index + 1)
        } else {
            Step::Fail(e)
        },
    }
}

/// The step after trying candidate `index` of `len`: use it when it opened,
/// otherwise try the next one, or fail with this error when it was the
/// last.
pub fn after_attempt(index: usize, len: usize, outcome: Result<(), String>) -> (s: PoolStep)
    ensures
        step_of(s) == next_step(index as int, len as int, outcome_text(outcome)),
        outcome is Ok ==> s == PoolStep::Use(index),
        outcome matches Err(e) ==> (if index + 1 < len {
            s == PoolStep::Try((index + 1) as usize)
        } else {
            s matches PoolStep::Fail(m) && m@ == e@
        }),
{
    match outcome {
        Ok(()) => PoolStep::Use(index),
        Err(e) => if index < len && index + 1 < len {
            PoolStep::Try(index + 1)
        } else {
            PoolStep::Fail(e)
        },
    }
}

/// The outcome of opening the database when the candidates from `i` on
/// give `outcomes`: the steps of `next_step` followed from candidate `i`
/// until one uses a candidate or fails; with no candidate left to try, the
/// fixed error.
pub open spec fn chosen(outcomes: Seq<Result<(), Seq<char>>>, i: int) -> Result<int, Seq<char>>
    decreases outcomes.len() - i,
{
    if i < 0 || i >= outcomes.len() {
        Err(no_candidate_error())
    } else {
        match next_step(i, outcomes.len() as int, outcomes[i]) {
            Step::Use(k) => Ok(k),
            Step::Try(_) => chosen(outcomes, i + 1),
            Step::Fail(e) => Err(e),
        }
    }
}

proof fn lemma_chosen(outcomes: Seq<Result<(), Seq<char>>>, i: int)
    requires
        0 <= i,
    ensures
        chosen(outcomes, i) matches Ok(k) ==> i <= k < outcomes.len() && outcomes[k] is Ok && (
        forall|j: int| i <= j < k ==> (#[trigger] outcomes[j]) is Err),
        chosen(outcomes, i) matches Err(e) ==> (forall|j: int|
            i <= j < outcomes.len() ==> (#[trigger] outcomes[j]) is Err) && (if i < outcomes.len() {
            outcomes.last() == Err::<(), Seq<char>>(e)
        } else {
            e == no_candidate_error()
        }),
    decreases outcomes.len() - i,
{
    if i < outcomes.len() {
        if outcomes[i] is Err && i + 1 < outcomes.len() {
            lemma_chosen(outcomes, i + 1);
        }
    }
}

/// Law: opening the database uses the first candidate that opens and tries
/// no later one; when none opens, the last candidate's error is reported,
/// and with no candidate at all the fixed message.
pub proof fn law_first_candidate_that_opens_is_used(outcomes: Seq<Result<(), Seq<char>>>)
    ensures
        chosen(outcomes, 0) matches Ok(k) ==> 0 <= k < outcomes.len() && outcomes[k] is Ok && (
        forall|j: int| 0 <= j < k ==> (#[trigger] outcomes[j]) is Err),
        (exists|j: int| 0 <= j < outcomes.len() && (#[trigger] outcomes[j]) is Ok) ==> chosen(
            outcomes,
            0,
        ) is Ok,
        outcomes.len() == 0 ==> chosen(outcomes, 0) == Err::<int, Seq<char>>(no_candidate_error()),
        chosen(outcomes, 0) matches Err(e) ==> (forall|j: int|
            0 <= j < outcomes.len() ==> (#[trigger] outcomes[j]) is Err) && (outcomes.len() > 0
            ==> outcomes.last() == Err::<(), Seq<char>>(e)),
{
    lemma_chosen(outcomes, 0);
}

} // verus!
