//! Whole runs of the deployment machine, and what holds of every one of them.
//!
//! A run is the sequence of events that a caller sends to a fresh
//! [`Deployment`](crate::deployment::Deployment). [`run`] gives the stage that the
//! machine has reached after them and the actions that it has asked for on
//! the way. Each action is one call on the chain, so counting actions counts
//! calls. The laws below hold for every budget and every sequence of events,
//! also for one that a correct caller would never send.

use crate::deployment::{step_spec, Action, Deployment, Event, Stage};
use crate::error::ErrorKind;
use crate::request::InstantiationRequest;
use crate::weight::{WeightBudget, WeightLimit};
use vstd::prelude::*;

verus! {

/// The result of a run: the stage reached, and the actions asked for, in
/// order.
pub ghost struct Trace {
    pub stage: Stage,
    pub actions: Seq<Action>,
}

/// The actions so far, with the action of one more step behind them.
pub open spec fn extended(actions: Seq<Action>, action: Option<Action>) -> Seq<Action> {
    match action {
        Some(action) => actions.push(action),
        None => actions,
    }
}

/// The run of a request with the given budget over `events`.
pub open spec fn run(budget: WeightBudget, events: Seq<Event>) -> Trace
    decreases events.len(),
{
    if events.len() == 0 {
        Trace { stage: Stage::AwaitingBudget, actions: Seq::empty() }
    } else {
        let before = run(budget, events.drop_last());
        let (stage, action) = step_spec(budget, before.stage, events.last());
        Trace { stage, actions: extended(before.actions, action) }
    }
}

/// The number of dry runs among the actions.
pub open spec fn simulations(actions: Seq<Action>) -> nat
    decreases actions.len(),
{
    if actions.len() == 0 {
        0
    } else {
        simulations(actions.drop_last()) + if actions.last() is Simulate {
            1nat
        } else {
            0nat
        }
    }
}

/// The number of submissions among the actions.
pub open spec fn submissions(actions: Seq<Action>) -> nat
    decreases actions.len(),
{
    if actions.len() == 0 {
        0
    } else {
        submissions(actions.drop_last()) + if actions.last() is Submit {
            1nat
        } else {
            0nat
        }
    }
}

/// Sends `events` to a fresh deployment of `request`, one after the other,
/// and collects the actions that the machine asks for. Nothing is performed:
/// the events are the answers that the caller has at hand, as in a rehearsal
/// of a deployment or in the reading of a recorded one.
pub fn replay(request: InstantiationRequest, events: Vec<Event>) -> (replayed: (
    Deployment,
    Vec<Action>,
))
    ensures
        replayed.0@.request == request,
        replayed.0@.stage == run(request@.budget, events@).stage,
        replayed.1@ == run(request@.budget, events@).actions,
{
    let ghost budget = request@.budget;
    let ghost all = events@;
    let mut events = events;
    let mut deployment = Deployment::new(request);
    let mut actions: Vec<Action> = Vec::new();
    let ghost mut sent: Seq<Event> = Seq::empty();
    while events.len() > 0
        invariant
            deployment@.request == request,
            sent + events@ == all,
            deployment@.stage == run(budget, sent).stage,
            actions@ == run(budget, sent).actions,
            budget == request@.budget,
        decreases events.len(),
    {
        let ghost waiting = events@;
        let event = events.remove(0);
        proof {
            assert(sent.push(event).drop_last() =~= sent);
            assert(sent.push(event) + events@ =~= sent + waiting);
            sent = sent.push(event);
        }
        let (next, action) = deployment.step(event);
        deployment = next;
        match action {
            Some(action) => actions.push(action),
            None => {},
        }
    }
    proof {
        assert(sent =~= all);
    }
    (deployment, actions)
}

/// Whether the stage is one that a submission leads to: the submission is in
/// flight, or it has ended, well or badly.
pub open spec fn has_submitted(stage: Stage) -> bool {
    match stage {
        Stage::Submitting(_) => true,
        Stage::Done(_) => true,
        Stage::Failed(error) => error.kind.may_have_reached_chain(),
        _ => false,
    }
}

/// The actions of a run that has submitted with `limit`: the submission
/// alone for a fixed budget, and one dry run before it otherwise.
pub open spec fn actions_up_to_submission(budget: WeightBudget, limit: WeightLimit) -> Seq<Action> {
    match budget {
        WeightBudget::Fixed(_) => seq![Action::Submit(limit)],
        WeightBudget::ToBeEstimated => seq![Action::Simulate, Action::Submit(limit)],
    }
}

/// How the stage of a run and its actions belong together.
pub open spec fn consistent(budget: WeightBudget, trace: Trace) -> bool {
    match trace.stage {
        Stage::AwaitingBudget => trace.actions =~= Seq::empty(),
        Stage::Estimating => budget is ToBeEstimated && trace.actions =~= seq![Action::Simulate],
        Stage::Submitting(limit) => {
            &&& budget matches WeightBudget::Fixed(fixed) ==> fixed == limit
            &&& trace.actions =~= actions_up_to_submission(budget, limit)
        },
        Stage::Failed(error) if !error.kind.may_have_reached_chain() => {
            &&& error.kind == ErrorKind::EstimationFailed
            &&& budget is ToBeEstimated
            &&& trace.actions =~= seq![Action::Simulate]
        },
        _ => exists|limit: WeightLimit|
            {
                &&& budget matches WeightBudget::Fixed(fixed) ==> fixed == limit
                &&& trace.actions =~= #[trigger] actions_up_to_submission(budget, limit)
            },
    }
}

/// Every run is consistent.
pub proof fn lemma_run_is_consistent(budget: WeightBudget, events: Seq<Event>)
    ensures
        consistent(budget, run(budget, events)),
    decreases events.len(),
{
    if events.len() > 0 {
        lemma_run_is_consistent(budget, events.drop_last());
        let before = run(budget, events.drop_last());
        match before.stage {
            Stage::Submitting(limit) => {
                assert(before.actions =~= actions_up_to_submission(budget, limit));
            },
            _ => {},
        }
    }
}

/// The counts of a run that has not submitted, and of one that has.
proof fn lemma_counts(budget: WeightBudget, limit: WeightLimit)
    ensures
        simulations(Seq::<Action>::empty()) == 0,
        submissions(Seq::<Action>::empty()) == 0,
        simulations(seq![Action::Simulate]) == 1,
        submissions(seq![Action::Simulate]) == 0,
        simulations(actions_up_to_submission(budget, limit)) == if budget is Fixed {
            0nat
        } else {
            1nat
        },
        submissions(actions_up_to_submission(budget, limit)) == 1,
{
    let none = Seq::<Action>::empty();
    let estimate = seq![Action::Simulate];
    let direct = seq![Action::Submit(limit)];
    let both = seq![Action::Simulate, Action::Submit(limit)];
    reveal_with_fuel(simulations, 3);
    reveal_with_fuel(submissions, 3);
    assert(estimate.drop_last() =~= none);
    assert(direct.drop_last() =~= none);
    assert(both.drop_last() =~= estimate);
    assert(simulations(estimate) == 1);
    assert(submissions(estimate) == 0);
    assert(simulations(direct) == 0);
    assert(submissions(direct) == 1);
    assert(simulations(both) == 1);
    assert(submissions(both) == 1);
}

/// A request that carries both bounds is never simulated: whatever events
/// arrive, the machine asks for no dry run, and every action that it asks for
/// is the submission with the caller's own limit.
pub proof fn law_fixed_budget_is_never_simulated(limit: WeightLimit, events: Seq<Event>)
    ensures
        simulations(run(WeightBudget::Fixed(limit), events).actions) == 0,
        forall|i: int|
            0 <= i < run(WeightBudget::Fixed(limit), events).actions.len() ==> run(
                WeightBudget::Fixed(limit),
                events,
            ).actions[i] == Action::Submit(limit),
{
    let budget = WeightBudget::Fixed(limit);
    lemma_run_is_consistent(budget, events);
    lemma_counts(budget, limit);
}

/// A request that lacks a bound is simulated once, and is submitted only
/// after that dry run: a run that has begun holds exactly one dry run, and in
/// a run with a submission the dry run comes first.
pub proof fn law_estimate_comes_once_and_first(events: Seq<Event>)
    ensures
        simulations(run(WeightBudget::ToBeEstimated, events).actions) <= 1,
        !(run(WeightBudget::ToBeEstimated, events).stage is AwaitingBudget) ==> simulations(
            run(WeightBudget::ToBeEstimated, events).actions,
        ) == 1,
        submissions(run(WeightBudget::ToBeEstimated, events).actions) > 0 ==> {
            let actions = run(WeightBudget::ToBeEstimated, events).actions;
            &&& simulations(actions) == 1
            &&& actions.len() == 2
            &&& actions[0] == Action::Simulate
            &&& actions[1] is Submit
        },
{
    let budget = WeightBudget::ToBeEstimated;
    let trace = run(budget, events);
    lemma_run_is_consistent(budget, events);
    lemma_counts(budget, WeightLimit { compute_units: 0, proof_size: 0 });
    if has_submitted(trace.stage) {
        let limit = choose|limit: WeightLimit|
            trace.actions =~= #[trigger] actions_up_to_submission(budget, limit);
        lemma_counts(budget, limit);
    }
}

/// The limit of a submission that followed a dry run is the weight that the
/// dry run reported: where a run of a request without a fixed limit asks for
/// `Submit(limit)`, one of its events is `Simulated(Ok(limit))`, and it
/// reached the machine while the dry run was in flight.
pub proof fn law_estimated_limit_is_the_simulated_weight(
    events: Seq<Event>,
    limit: WeightLimit,
) -> (at: int)
    requires
        run(WeightBudget::ToBeEstimated, events).actions.contains(Action::Submit(limit)),
    ensures
        0 <= at < events.len(),
        events[at] == Event::Simulated(Ok(limit)),
        run(WeightBudget::ToBeEstimated, events.take(at)).stage == Stage::Estimating,
    decreases events.len(),
{
    let budget = WeightBudget::ToBeEstimated;
    let before = run(budget, events.drop_last());
    let last = events.len() - 1;
    if before.actions.contains(Action::Submit(limit)) {
        let at = law_estimated_limit_is_the_simulated_weight(events.drop_last(), limit);
        assert(events.drop_last().take(at) =~= events.take(at));
        at
    } else {
        let after = run(budget, events);
        let i = choose|i: int| 0 <= i < after.actions.len() && after.actions[i] == Action::Submit(limit);
        assert(i == before.actions.len()) by {
            if i < before.actions.len() {
                assert(before.actions[i] == Action::Submit(limit));
            }
        }
        assert(events.take(last) =~= events.drop_last());
        last
    }
}

/// A failed dry run is the end: a run that stands at `EstimationFailed` has
/// asked for one dry run and for no submission.
pub proof fn law_failed_estimate_submits_nothing(budget: WeightBudget, events: Seq<Event>)
    ensures
        run(budget, events).stage matches Stage::Failed(error) && error.kind
            == ErrorKind::EstimationFailed ==> {
            &&& simulations(run(budget, events).actions) == 1
            &&& submissions(run(budget, events).actions) == 0
        },
{
    lemma_run_is_consistent(budget, events);
    lemma_counts(budget, WeightLimit { compute_units: 0, proof_size: 0 });
}

/// A dry run that fails never leads to a submission: where the answer
/// `Simulated(Err(..))` reaches the machine while the dry run is in flight,
/// the run ends at `EstimationFailed`, and whatever events follow, it asks
/// for no submission.
pub proof fn law_failing_simulation_never_leads_to_submission(
    budget: WeightBudget,
    events: Seq<Event>,
    at: int,
)
    requires
        0 <= at < events.len(),
        run(budget, events.take(at)).stage == Stage::Estimating,
        events[at] matches Event::Simulated(Err(_)),
    ensures
        run(budget, events).stage matches Stage::Failed(error) && error.kind
            == ErrorKind::EstimationFailed,
        submissions(run(budget, events).actions) == 0,
{
    let answered = events.take(at + 1);
    assert(answered.drop_last() =~= events.take(at));
    assert(answered.last() == events[at]);
    assert(run(budget, answered).stage is Failed);
    law_finished_run_stays_finished(budget, answered, events.skip(at + 1));
    assert(answered + events.skip(at + 1) =~= events);
    law_failed_estimate_submits_nothing(budget, events);
}

/// No request is submitted twice, and a run has submitted once exactly when
/// its stage says so: while the submission is in flight, and after it has
/// ended with an address or with a failure that may have reached the chain.
pub proof fn law_submits_at_most_once(budget: WeightBudget, events: Seq<Event>)
    ensures
        submissions(run(budget, events).actions) <= 1,
        submissions(run(budget, events).actions) == 1 <==> has_submitted(run(budget, events).stage),
{
    let trace = run(budget, events);
    lemma_run_is_consistent(budget, events);
    lemma_counts(budget, WeightLimit { compute_units: 0, proof_size: 0 });
    if has_submitted(trace.stage) {
        match trace.stage {
            Stage::Submitting(limit) => {
                lemma_counts(budget, limit);
            },
            _ => {
                let limit = choose|limit: WeightLimit|
                    trace.actions =~= #[trigger] actions_up_to_submission(budget, limit);
                lemma_counts(budget, limit);
            },
        }
    }
}

/// A deployment that has ended stays as it ended: after `Done` or `Failed`
/// no event changes the stage or brings another action, so nothing is ever
/// tried again.
pub proof fn law_finished_run_stays_finished(
    budget: WeightBudget,
    events: Seq<Event>,
    more: Seq<Event>,
)
    requires
        run(budget, events).stage is Done || run(budget, events).stage is Failed,
    ensures
        run(budget, events + more) == run(budget, events),
    decreases more.len(),
{
    if more.len() == 0 {
        assert(events + more =~= events);
    } else {
        law_finished_run_stays_finished(budget, events, more.drop_last());
        assert((events + more).drop_last() =~= events + more.drop_last());
    }
}

/// A deployment is repeatable: what a run reaches and asks for depends on
/// the budget of the request and on the answers alone, so the same budget
/// with the same answers gives the same dry run, the same submission and the
/// same end.
pub proof fn law_same_answers_give_the_same_run(
    first_budget: WeightBudget,
    first: Seq<Event>,
    second_budget: WeightBudget,
    second: Seq<Event>,
)
    requires
        first_budget == second_budget,
        first.len() == second.len(),
        forall|i: int| 0 <= i < first.len() ==> first[i] == second[i],
    ensures
        run(first_budget, first) == run(second_budget, second),
{
    assert(first =~= second);
}

/// The address of a finished deployment is the one that the chain returned:
/// where a run stands at `Done(address)`, one of its events is
/// `Submitted(Ok(address))`, and it reached the machine while the submission
/// was in flight.
pub proof fn law_deployed_address_is_the_submitted_one(
    budget: WeightBudget,
    events: Seq<Event>,
) -> (at: int)
    requires
        run(budget, events).stage is Done,
    ensures
        0 <= at < events.len(),
        events[at] matches Event::Submitted(Ok(address)) && run(budget, events).stage
            == Stage::Done(address),
        run(budget, events.take(at)).stage is Submitting,
    decreases events.len(),
{
    let before = run(budget, events.drop_last());
    let last = events.len() - 1;
    if before.stage is Done {
        let at = law_deployed_address_is_the_submitted_one(budget, events.drop_last());
        assert(events.drop_last().take(at) =~= events.take(at));
        at
    } else {
        assert(events.take(last) =~= events.drop_last());
        last
    }
}

} // verus!
