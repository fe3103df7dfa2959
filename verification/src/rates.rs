//! Which hourly rate applies to a project: its own rate, else its client's,
//! else the default rate. The store is asked scope by scope; `rate_step`
//! decides, from each answer, whether to stop or where to look next.

use vstd::prelude::*;
use crate::models::Rate;

verus! {

/// A place a rate may be set.
#[derive(Debug, Clone, Copy, PartialEq, Eq, Structural)]
pub enum RateScope {
    Project(i64),
    Client(i64),
    Default,
}

/// What resolving the rate does next: ask the store about a scope, or stop
/// with the rate found (if any), or with the complaint about a failed query.
#[derive(Debug)]
pub enum RateStep {
    Look(RateScope),
    Found(Option<Rate>),
    Failed(String),
}

/// The first scope to ask about: the project's, else the client's, else
/// the default.
pub open spec fn first_scope(project_id: Option<i64>, client_id: Option<i64>) -> RateScope {
    match project_id {
        Some(p) => RateScope::Project(p),
        None => match client_id {
            Some(c) => RateScope::Client(c),
            None => RateScope::Default,
        },
    }
}

/// The scope to ask about after `s` came back empty, if any is left.
pub open spec fn scope_after(s: RateScope, client_id: Option<i64>) -> Option<RateScope> {
    match s {
        RateScope::Project(_) => Some(
            match client_id {
                Some(c) => RateScope::Client(c),
                None => RateScope::Default,
            },
        ),
        RateScope::Client(_) => Some(RateScope::Default),
        RateScope::Default => None,
    }
}

/// The complaint when asking about scope `s` failed.
pub open spec fn failure_text(s: RateScope) -> Seq<char> {
    match s {
        RateScope::Project(_) => "Failed to query project rate"@,
        RateScope::Client(_) => "Failed to query client rate"@,
        RateScope::Default => "Failed to query default rate"@,
    }
}

/// The first scope to ask about.
pub fn first_rate_scope(project_id: Option<i64>, client_id: Option<i64>) -> (s: RateScope)
    ensures
        s == first_scope(project_id, client_id),
{
    match project_id {
        Some(p) => RateScope::Project(p),
        None => match client_id {
            Some(c) => RateScope::Client(c),
            None => RateScope::Default,
        },
    }
}

/// What `rate_step` does on answer `answer` about scope `asked`.
pub open spec fn stepped_to(asked: RateScope, client_id: Option<i64>, answer: Result<Option<Rate>, String>, next: RateStep) -> bool {
    match answer {
        Ok(Some(r)) => next == RateStep::Found(Some(r)),
        Ok(None) => match scope_after(asked, client_id) {
            Some(s) => next == RateStep::Look(s),
            None => next == RateStep::Found(None),
        },
        Err(_) => next matches RateStep::Failed(m) && m@ == failure_text(asked),
    }
}

/// Decides on the store's answer about scope `asked`: a rate found there
/// applies; an empty scope passes on to the next one; a failed query stops.
pub fn rate_step(asked: RateScope, client_id: Option<i64>, answer: Result<Option<Rate>, String>) -> (next: RateStep)
    ensures
        stepped_to(asked, client_id, answer, next),
{
    match answer {
        Ok(Some(r)) => RateStep::Found(Some(r)),
        Ok(None) => match asked {
            RateScope::Project(_) => match client_id {
                Some(c) => RateStep::Look(RateScope::Client(c)),
                None => RateStep::Look(RateScope::Default),
            },
            RateScope::Client(_) => RateStep::Look(RateScope::Default),
            RateScope::Default => RateStep::Found(None),
        },
        Err(_) => RateStep::Failed(
            match asked {
                RateScope::Project(_) => crate::cli::text_of("Failed to query project rate"),
                RateScope::Client(_) => crate::cli::text_of("Failed to query client rate"),
                RateScope::Default => crate::cli::text_of("Failed to query default rate"),
            },
        ),
    }
}

/// The rate that applies when the project's scope holds `own`, the
/// client's `of_client` and the default scope `fallback`: the project's
/// rate, else the client's, else the default one.
pub open spec fn effective_rate(
    project_id: Option<i64>,
    client_id: Option<i64>,
    own: Option<Rate>,
    of_client: Option<Rate>,
    fallback: Option<Rate>,
) -> Option<Rate> {
    if project_id is Some && own is Some {
        own
    } else if client_id is Some && of_client is Some {
        of_client
    } else {
        fallback
    }
}

/// The store's answer about scope `s` when each scope holds the given rate.
pub open spec fn answer_for(s: RateScope, own: Option<Rate>, of_client: Option<Rate>, fallback: Option<Rate>) -> Result<Option<Rate>, String> {
    match s {
        RateScope::Project(_) => Ok(own),
        RateScope::Client(_) => Ok(of_client),
        RateScope::Default => Ok(fallback),
    }
}

/// Project rate over client rate over default rate: asking scope by scope
/// as `rate_step` says, with every query answered, ends within three
/// questions on the project's own rate when it has one, else on its
/// client's when there is a client with one, else on the default rate (or
/// on none).
pub proof fn law_rate_cascade(
    project_id: Option<i64>,
    client_id: Option<i64>,
    own: Option<Rate>,
    of_client: Option<Rate>,
    fallback: Option<Rate>,
    step1: RateStep,
    step2: RateStep,
    step3: RateStep,
)
    requires
        stepped_to(
            first_scope(project_id, client_id),
            client_id,
            answer_for(first_scope(project_id, client_id), own, of_client, fallback),
            step1,
        ),
        step1 matches RateStep::Look(s) ==> stepped_to(
            s,
            client_id,
            answer_for(s, own, of_client, fallback),
            step2,
        ),
        step2 matches RateStep::Look(s) ==> stepped_to(
            s,
            client_id,
            answer_for(s, own, of_client, fallback),
            step3,
        ),
    ensures
        match step1 {
            RateStep::Found(r) => r == effective_rate(project_id, client_id, own, of_client, fallback),
            RateStep::Look(_) => match step2 {
                RateStep::Found(r) => r == effective_rate(project_id, client_id, own, of_client, fallback),
                RateStep::Look(_) => step3 == RateStep::Found(
                    effective_rate(project_id, client_id, own, of_client, fallback),
                ),
                RateStep::Failed(_) => false,
            },
            RateStep::Failed(_) => false,
        },
{
}

} // verus!
