//! Properties of the lifecycle that hold over every agreement and every
//! sequence of operations.
use vstd::prelude::*;
use crate::machine::{payment_due, raw_due, step, Action};
use crate::settlement::sum;
use crate::state::{ErrorKind, IsaState, IsaStatus};

verus! {

/// The agreement after the investments `amounts`, in order, or `None` if one
/// of them fails.
pub open spec fn invest_all(s: IsaState, amounts: Seq<u64>) -> Option<IsaState>
    decreases amounts.len(),
{
    if amounts.len() == 0 {
        Some(s)
    } else {
        match invest_all(s, amounts.drop_last()) {
            Some(t) => match step(t, Action::Invest(amounts.last())) {
                Ok(n) => Some(n),
                Err(_) => None,
            },
            None => None,
        }
    }
}

/// The agreement after the operations `actions`, in order; an operation that
/// fails leaves it as it was.
pub open spec fn run(s: IsaState, actions: Seq<Action>) -> IsaState
    decreases actions.len(),
{
    if actions.len() == 0 {
        s
    } else {
        let t = run(s, actions.drop_last());
        match step(t, actions.last()) {
            Ok(n) => n,
            Err(_) => t,
        }
    }
}

/// Every operation that succeeds keeps the agreement well formed.
pub proof fn lemma_step_preserves_wf(s: IsaState, a: Action)
    requires
        s.wf(),
    ensures
        step(s, a) matches Ok(n) ==> n.wf(),
{
    if a is PayShare && step(s, a) is Ok {
        if s.percent == 0 {
            assert(raw_due(s) == 0);
        }
    }
}

/// When a sequence of investments all succeed, the amount invested grew by
/// exactly their sum and stays within the course cost.
pub proof fn lemma_investments_accumulate(s: IsaState, amounts: Seq<u64>)
    requires
        s.wf(),
    ensures
        invest_all(s, amounts) matches Some(t) ==> {
            &&& t.total_invested == s.total_invested + sum(amounts)
            &&& t.total_invested <= t.course_cost
            &&& t.course_cost == s.course_cost
            &&& t.wf()
        },
    decreases amounts.len(),
{
    if amounts.len() > 0 {
        lemma_investments_accumulate(s, amounts.drop_last());
        if let Some(t) = invest_all(s, amounts.drop_last()) {
            lemma_step_preserves_wf(t, Action::Invest(amounts.last()));
        }
    }
}

/// A payment is the raw installment cut down to what is left under the cap,
/// and never takes what was paid past the cap.
pub proof fn lemma_payment_within_cap(s: IsaState)
    requires
        s.wf(),
    ensures
        step(s, Action::PayShare) matches Ok(n) ==> {
            &&& n.already_paid == s.already_paid + payment_due(s)
            &&& n.already_paid <= n.max_cap
            &&& payment_due(s) <= raw_due(s)
            &&& payment_due(s) == raw_due(s) || n.already_paid == n.max_cap
        },
{
}

/// The edges of the lifecycle graph.
pub open spec fn is_edge(from: IsaStatus, to: IsaStatus) -> bool {
    ||| from == IsaStatus::Learning && to == IsaStatus::StudyingPaid
    ||| to == IsaStatus::Working || to == IsaStatus::Unemployed
    ||| (from == IsaStatus::Working || from == IsaStatus::Unemployed) && to == IsaStatus::Delinquent
    ||| (from == IsaStatus::Working || from == IsaStatus::Delinquent) && to == IsaStatus::Completed
    ||| from != IsaStatus::Completed && from != IsaStatus::DroppedOut && to == IsaStatus::DroppedOut
}

/// The statuses from which an operation may start.
pub open spec fn allowed_from(a: Action, from: IsaStatus) -> bool {
    match a {
        Action::Invest(_) => from == IsaStatus::Learning,
        Action::Release(_) => from == IsaStatus::Learning,
        Action::PayShare => from == IsaStatus::Working || from == IsaStatus::Delinquent,
        Action::ReportDelinquency => from == IsaStatus::Working || from == IsaStatus::Unemployed,
        Action::ReportDropout => from != IsaStatus::Completed && from != IsaStatus::DroppedOut,
        Action::UpdateSalary(_) => true,
        Action::Distribute(_) => true,
    }
}

/// An operation started from a status it is not allowed in fails with an
/// invalid-state error; one started where it is allowed never does; and a
/// successful one either keeps the status or follows an edge of the graph.
pub proof fn lemma_transitions_follow_graph(s: IsaState, a: Action)
    ensures
        !allowed_from(a, s.status) ==> (step(s, a) matches Err(e) && e.kind_spec()
            == ErrorKind::InvalidState),
        allowed_from(a, s.status) ==> !(step(s, a) matches Err(e) && e.kind_spec()
            == ErrorKind::InvalidState),
        step(s, a) matches Ok(n) ==> n.status == s.status || is_edge(s.status, n.status),
{
}

/// After a dropout the rate and the cap stay zero whatever follows, and
/// every later payment fails.
pub proof fn lemma_dropout_is_final(s: IsaState, actions: Seq<Action>)
    requires
        step(s, Action::ReportDropout) is Ok,
    ensures
        ({
            let t = run(step(s, Action::ReportDropout)->Ok_0, actions);
            &&& t.percent == 0
            &&& t.max_cap == 0
            &&& step(t, Action::PayShare) is Err
        }),
    decreases actions.len(),
{
    if actions.len() > 0 {
        lemma_dropout_is_final(s, actions.drop_last());
    }
}

} // verus!
