//! The weight resolver and executor: the state machine that decides how much
//! weight a deployment carries, and that submits the request once.
//!
//! The machine calls nothing. Its caller sends [`Event::Begin`], performs the
//! [`Action`] that each step returns, and sends the answer as the next event,
//! until a step returns no action.

use crate::error::{DeployError, ErrorKind};
use crate::request::{ContractAddress, InstantiationRequest};
use crate::weight::{WeightBudget, WeightLimit};
use vstd::prelude::*;

verus! {

/// Where a deployment stands.
#[derive(Clone, Debug, PartialEq, Eq)]
pub enum Stage {
    /// Nothing was asked of the chain yet.
    AwaitingBudget,
    /// A dry run is in flight.
    Estimating,
    /// The submission is in flight, with this limit.
    Submitting(WeightLimit),
    /// The contract is deployed at this address.
    Done(ContractAddress),
    /// The deployment ended with this failure.
    Failed(DeployError),
}

/// What the caller tells the machine.
#[derive(Debug, PartialEq, Eq)]
pub enum Event {
    /// The deployment may start.
    Begin,
    /// The dry run ended: with the weight that it consumed, or with the
    /// reason for which it failed.
    Simulated(Result<WeightLimit, String>),
    /// The submission ended: with the address of the new contract, or with
    /// the reason for which it failed.
    Submitted(Result<ContractAddress, String>),
    /// The call in flight was cancelled or ran out of time.
    Interrupted(String),
}

/// What the machine asks of the caller.
#[derive(Clone, Copy, Debug, PartialEq, Eq, Structural)]
pub enum Action {
    /// Run the request read-only against the current chain state, with no
    /// resource limit, and measure what it consumes.
    Simulate,
    /// Sign the request, submit it with this limit, and wait for its
    /// inclusion.
    Submit(WeightLimit),
}

/// The failure of the given kind and cause.
pub open spec fn failed(kind: ErrorKind, cause: String) -> Stage {
    Stage::Failed(DeployError { kind, cause })
}

/// The transition function: the stage that follows `stage` on `event` for a
/// request with the given budget, and the action to perform next, if any.
///
/// An event moves the machine only when it answers what the machine waits
/// for. Every other event leaves the stage as it is and asks for nothing, so
/// no event can make the machine repeat a call.
pub open spec fn step_spec(budget: WeightBudget, stage: Stage, event: Event) -> (
    Stage,
    Option<Action>,
) {
    match (stage, event) {
        (Stage::AwaitingBudget, Event::Begin) => match budget {
            WeightBudget::Fixed(limit) => (Stage::Submitting(limit), Some(Action::Submit(limit))),
            WeightBudget::ToBeEstimated => (Stage::Estimating, Some(Action::Simulate)),
        },
        (Stage::Estimating, Event::Simulated(Ok(limit))) => (
            Stage::Submitting(limit),
            Some(Action::Submit(limit)),
        ),
        (Stage::Estimating, Event::Simulated(Err(cause))) => (
            failed(ErrorKind::EstimationFailed, cause),
            None,
        ),
        (Stage::Estimating, Event::Interrupted(cause)) => (
            failed(ErrorKind::EstimationFailed, cause),
            None,
        ),
        (Stage::Submitting(_), Event::Submitted(Ok(address))) => (Stage::Done(address), None),
        (Stage::Submitting(_), Event::Submitted(Err(cause))) => (
            failed(ErrorKind::SubmissionFailed, cause),
            None,
        ),
        (Stage::Submitting(_), Event::Interrupted(cause)) => (
            failed(ErrorKind::IndeterminateOutcome, cause),
            None,
        ),
        (stage, _) => (stage, None),
    }
}

/// How a stage reads as the end of a deployment: the address when it is
/// done, the failure when it has failed, and nothing while it is under way.
pub open spec fn outcome_of(stage: Stage) -> Option<Result<ContractAddress, DeployError>> {
    match stage {
        Stage::Done(address) => Some(Ok(address)),
        Stage::Failed(error) => Some(Err(error)),
        _ => None,
    }
}

/// The exit status that stands for the end of a deployment: 0 for a
/// deployed contract, 1 for any failure.
pub fn exit_status(outcome: &Result<ContractAddress, DeployError>) -> (status: u8)
    ensures
        status == if outcome is Ok {
            0u8
        } else {
            1u8
        },
{
    match outcome {
        Ok(_) => 0,
        Err(_) => 1,
    }
}

/// The deployment of one request.
#[derive(Debug)]
pub struct Deployment {
    request: InstantiationRequest,
    stage: Stage,
}

/// What a [`Deployment`] holds.
pub ghost struct DeploymentView {
    /// The request that is deployed.
    pub request: InstantiationRequest,
    /// Where the deployment stands.
    pub stage: Stage,
}

impl View for Deployment {
    type V = DeploymentView;

    closed spec fn view(&self) -> DeploymentView {
        DeploymentView { request: self.request, stage: self.stage }
    }
}

impl Deployment {
    /// The deployment of `request`, before anything was asked of the chain.
    pub fn new(request: InstantiationRequest) -> (deployment: Deployment)
        ensures
            deployment@.request == request,
            deployment@.stage == Stage::AwaitingBudget,
    {
        Deployment { request, stage: Stage::AwaitingBudget }
    }

    /// The request that is deployed.
    pub fn request(&self) -> (request: &InstantiationRequest)
        ensures
            *request == self@.request,
    {
        &self.request
    }

    /// Where the deployment stands.
    pub fn stage(&self) -> (stage: &Stage)
        ensures
            *stage == self@.stage,
    {
        &self.stage
    }

    /// Ends the use of the deployment and hands out what came of it: the
    /// address, the failure, or nothing when it was still under way.
    pub fn into_outcome(self) -> (outcome: Option<Result<ContractAddress, DeployError>>)
        ensures
            outcome == outcome_of(self@.stage),
    {
        match self.stage {
            Stage::Done(address) => Some(Ok(address)),
            Stage::Failed(error) => Some(Err(error)),
            _ => None,
        }
    }

    /// Takes one event. Returns the deployment at its next stage and the
    /// action that the caller must perform now; `None` when there is nothing
    /// to perform. The request stays as it is.
    pub fn step(self, event: Event) -> (next: (Deployment, Option<Action>))
        ensures
            next.0@.request == self@.request,
            (next.0@.stage, next.1) == step_spec(self@.request@.budget, self@.stage, event),
    {
        let Deployment { request, stage } = self;
        let (stage, action) = match (stage, event) {
            (Stage::AwaitingBudget, Event::Begin) => match request.budget() {
                WeightBudget::Fixed(limit) => (Stage::Submitting(limit), Some(Action::Submit(limit))),
                WeightBudget::ToBeEstimated => (Stage::Estimating, Some(Action::Simulate)),
            },
            (Stage::Estimating, Event::Simulated(Ok(limit))) => (
                Stage::Submitting(limit),
                Some(Action::Submit(limit)),
            ),
            (Stage::Estimating, Event::Simulated(Err(cause))) => (
                Stage::Failed(DeployError { kind: ErrorKind::EstimationFailed, cause }),
                None,
            ),
            (Stage::Estimating, Event::Interrupted(cause)) => (
                Stage::Failed(DeployError { kind: ErrorKind::EstimationFailed, cause }),
                None,
            ),
            (Stage::Submitting(_), Event::Submitted(Ok(address))) => (Stage::Done(address), None),
            (Stage::Submitting(_), Event::Submitted(Err(cause))) => (
                Stage::Failed(DeployError { kind: ErrorKind::SubmissionFailed, cause }),
                None,
            ),
            (Stage::Submitting(_), Event::Interrupted(cause)) => (
                Stage::Failed(DeployError { kind: ErrorKind::IndeterminateOutcome, cause }),
                None,
            ),
            (stage, _) => (stage, None),
        };
        (Deployment { request, stage }, action)
    }
}

} // verus!
