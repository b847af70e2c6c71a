use up_contract::deployment::exit_status;
use up_contract::trace::replay;
use up_contract::{
    Action, ContractAddress, DeployError, Deployment, ErrorKind, Event, InstantiationRequest,
    SigningIdentity, Stage, WeightBudget, WeightLimit,
};

/// A chain client that answers from a script and counts what it is asked.
struct ScriptedChain {
    simulation: Result<WeightLimit, String>,
    submission: Result<ContractAddress, String>,
    simulations: usize,
    submitted_with: Vec<WeightLimit>,
}

impl ScriptedChain {
    fn new(
        simulation: Result<WeightLimit, String>,
        submission: Result<ContractAddress, String>,
    ) -> ScriptedChain {
        ScriptedChain { simulation, submission, simulations: 0, submitted_with: Vec::new() }
    }

    fn perform(&mut self, action: Action) -> Event {
        match action {
            Action::Simulate => {
                self.simulations += 1;
                Event::Simulated(self.simulation.clone())
            }
            Action::Submit(limit) => {
                self.submitted_with.push(limit);
                Event::Submitted(self.submission.clone())
            }
        }
    }
}

fn request_with(budget: WeightBudget) -> InstantiationRequest {
    InstantiationRequest::new(
        "flipper/Cargo.toml".to_string(),
        "new".to_string(),
        vec!["false".to_string()],
        0,
        budget,
        None,
        SigningIdentity::from_secret_uri("//Alice").expect("a development account"),
        "ws://localhost:9944".to_string(),
    )
}

fn deploy(
    request: InstantiationRequest,
    chain: &mut ScriptedChain,
) -> Result<ContractAddress, DeployError> {
    let (mut deployment, mut action) = Deployment::new(request).step(Event::Begin);
    while let Some(asked) = action {
        let answer = chain.perform(asked);
        let next = deployment.step(answer);
        deployment = next.0;
        action = next.1;
    }
    deployment.into_outcome().expect("a deployment that asks for nothing more has ended")
}

fn address(text: &str) -> ContractAddress {
    ContractAddress::new(text.to_string())
}

fn limit(compute_units: u64, proof_size: u64) -> WeightLimit {
    WeightLimit { compute_units, proof_size }
}

#[test]
fn fixed_limit_skips_the_dry_run() {
    let mut chain = ScriptedChain::new(Ok(limit(1, 1)), Ok(address("5Contract")));
    let request = request_with(WeightBudget::from_overrides(Some(100_000_000), Some(131_072)));
    let outcome = deploy(request, &mut chain);
    assert_eq!(chain.simulations, 0);
    assert_eq!(chain.submitted_with, vec![limit(100_000_000, 131_072)]);
    assert_eq!(outcome, Ok(address("5Contract")));
}

#[test]
fn missing_limit_is_estimated_and_submitted_as_measured() {
    let mut chain = ScriptedChain::new(Ok(limit(84_213_000, 98_304)), Ok(address("5Contract")));
    let request = request_with(WeightBudget::from_overrides(None, None));
    let outcome = deploy(request, &mut chain);
    assert_eq!(chain.simulations, 1);
    assert_eq!(chain.submitted_with, vec![limit(84_213_000, 98_304)]);
    assert_eq!(outcome, Ok(address("5Contract")));
}

#[test]
fn half_a_limit_is_estimated_too() {
    let mut chain = ScriptedChain::new(Ok(limit(84_213_000, 98_304)), Ok(address("5Contract")));
    let request = request_with(WeightBudget::from_overrides(Some(100_000_000), None));
    let outcome = deploy(request, &mut chain);
    assert_eq!(chain.simulations, 1);
    assert_eq!(chain.submitted_with, vec![limit(84_213_000, 98_304)]);
    assert!(outcome.is_ok());
}

#[test]
fn failed_dry_run_ends_the_flow_without_a_submission() {
    let mut chain = ScriptedChain::new(
        Err("contract trapped during execution".to_string()),
        Ok(address("5Contract")),
    );
    let outcome = deploy(request_with(WeightBudget::ToBeEstimated), &mut chain);
    assert_eq!(chain.simulations, 1);
    assert!(chain.submitted_with.is_empty());
    assert_eq!(
        outcome,
        Err(DeployError {
            kind: ErrorKind::EstimationFailed,
            cause: "contract trapped during execution".to_string(),
        })
    );
    assert_ne!(exit_status(&outcome), 0);
    assert_eq!(exit_status(&outcome), 1);
}

#[test]
fn failed_submission_after_an_estimate_yields_no_address() {
    let mut chain =
        ScriptedChain::new(Ok(limit(84_213_000, 98_304)), Err("insufficient balance".to_string()));
    let outcome = deploy(request_with(WeightBudget::ToBeEstimated), &mut chain);
    assert_eq!(chain.simulations, 1);
    assert_eq!(chain.submitted_with.len(), 1);
    assert_eq!(
        outcome,
        Err(DeployError {
            kind: ErrorKind::SubmissionFailed,
            cause: "insufficient balance".to_string(),
        })
    );
    assert_eq!(exit_status(&outcome), 1);
}

#[test]
fn failed_submission_with_a_fixed_limit_is_not_tried_again() {
    let mut chain = ScriptedChain::new(Ok(limit(1, 1)), Err("transaction rejected".to_string()));
    let outcome = deploy(request_with(WeightBudget::Fixed(limit(5, 6))), &mut chain);
    assert_eq!(chain.simulations, 0);
    assert_eq!(chain.submitted_with, vec![limit(5, 6)]);
    assert_eq!(outcome.unwrap_err().kind, ErrorKind::SubmissionFailed);
}

#[test]
fn successful_deployment_exits_with_zero() {
    let outcome: Result<ContractAddress, DeployError> = Ok(address("5Contract"));
    assert_eq!(exit_status(&outcome), 0);
}

#[test]
fn a_new_deployment_awaits_its_budget_and_keeps_its_request() {
    let deployment = Deployment::new(request_with(WeightBudget::Fixed(limit(5, 6))));
    assert_eq!(*deployment.stage(), Stage::AwaitingBudget);
    assert_eq!(deployment.request().budget(), WeightBudget::Fixed(limit(5, 6)));
    assert_eq!(deployment.request().constructor(), "new");
    assert!(deployment.into_outcome().is_none());
}

#[test]
fn stages_follow_the_events() {
    let deployment = Deployment::new(request_with(WeightBudget::ToBeEstimated));
    let (deployment, action) = deployment.step(Event::Begin);
    assert_eq!(*deployment.stage(), Stage::Estimating);
    assert_eq!(action, Some(Action::Simulate));
    let (deployment, action) = deployment.step(Event::Simulated(Ok(limit(10, 20))));
    assert_eq!(*deployment.stage(), Stage::Submitting(limit(10, 20)));
    assert_eq!(action, Some(Action::Submit(limit(10, 20))));
    let (deployment, action) = deployment.step(Event::Submitted(Ok(address("5Contract"))));
    assert_eq!(*deployment.stage(), Stage::Done(address("5Contract")));
    assert_eq!(action, None);
    assert_eq!(deployment.request().endpoint(), "ws://localhost:9944");
}

#[test]
fn events_that_answer_nothing_are_ignored() {
    let deployment = Deployment::new(request_with(WeightBudget::ToBeEstimated));
    let (deployment, action) = deployment.step(Event::Simulated(Ok(limit(1, 2))));
    assert_eq!(*deployment.stage(), Stage::AwaitingBudget);
    assert_eq!(action, None);
    let (deployment, action) = deployment.step(Event::Interrupted("too early".to_string()));
    assert_eq!(*deployment.stage(), Stage::AwaitingBudget);
    assert_eq!(action, None);
    let (deployment, _) = deployment.step(Event::Begin);
    let (deployment, action) = deployment.step(Event::Submitted(Ok(address("5Stray"))));
    assert_eq!(*deployment.stage(), Stage::Estimating);
    assert_eq!(action, None);
    let (deployment, action) = deployment.step(Event::Begin);
    assert_eq!(*deployment.stage(), Stage::Estimating);
    assert_eq!(action, None);
    let (deployment, _) = deployment.step(Event::Simulated(Ok(limit(1, 2))));
    let (deployment, action) = deployment.step(Event::Simulated(Ok(limit(3, 4))));
    assert_eq!(*deployment.stage(), Stage::Submitting(limit(1, 2)));
    assert_eq!(action, None);
}

#[test]
fn interrupted_dry_run_is_a_clean_failure() {
    let deployment = Deployment::new(request_with(WeightBudget::ToBeEstimated));
    let (deployment, _) = deployment.step(Event::Begin);
    let (deployment, action) = deployment.step(Event::Interrupted("cancelled".to_string()));
    assert_eq!(action, None);
    let error = deployment.into_outcome().unwrap().unwrap_err();
    assert_eq!(error.kind, ErrorKind::EstimationFailed);
    assert_eq!(error.cause, "cancelled");
    assert!(!error.kind.may_have_reached_chain());
}

#[test]
fn interrupted_submission_has_an_indeterminate_outcome() {
    let deployment = Deployment::new(request_with(WeightBudget::Fixed(limit(5, 6))));
    let (deployment, _) = deployment.step(Event::Begin);
    let (deployment, action) = deployment.step(Event::Interrupted("deadline passed".to_string()));
    assert_eq!(action, None);
    let error = deployment.into_outcome().unwrap().unwrap_err();
    assert_eq!(error.kind, ErrorKind::IndeterminateOutcome);
    assert_eq!(error.cause, "deadline passed");
    assert!(error.kind.may_have_reached_chain());
}

#[test]
fn a_finished_deployment_takes_no_more_events() {
    let events = vec![
        Event::Begin,
        Event::Simulated(Err("contract trapped during execution".to_string())),
        Event::Begin,
        Event::Simulated(Ok(limit(1, 2))),
        Event::Submitted(Ok(address("5Late"))),
        Event::Interrupted("late".to_string()),
    ];
    let (deployment, actions) = replay(request_with(WeightBudget::ToBeEstimated), events);
    assert_eq!(actions, vec![Action::Simulate]);
    assert_eq!(
        *deployment.stage(),
        Stage::Failed(DeployError {
            kind: ErrorKind::EstimationFailed,
            cause: "contract trapped during execution".to_string(),
        })
    );
}

#[test]
fn replay_of_a_fixed_limit_never_asks_for_a_dry_run() {
    let events = vec![
        Event::Simulated(Ok(limit(1, 2))),
        Event::Begin,
        Event::Simulated(Ok(limit(3, 4))),
        Event::Begin,
        Event::Submitted(Err("transaction rejected".to_string())),
        Event::Submitted(Ok(address("5Late"))),
    ];
    let (deployment, actions) = replay(request_with(WeightBudget::Fixed(limit(5, 6))), events);
    assert_eq!(actions, vec![Action::Submit(limit(5, 6))]);
    assert_eq!(
        deployment.into_outcome(),
        Some(Err(DeployError {
            kind: ErrorKind::SubmissionFailed,
            cause: "transaction rejected".to_string(),
        }))
    );
}

#[test]
fn replay_of_an_estimate_submits_once_with_the_first_answer() {
    let events = vec![
        Event::Begin,
        Event::Submitted(Ok(address("5Stray"))),
        Event::Simulated(Ok(limit(84_213_000, 98_304))),
        Event::Simulated(Ok(limit(1, 2))),
        Event::Submitted(Ok(address("5Contract"))),
        Event::Submitted(Ok(address("5Again"))),
    ];
    let (deployment, actions) = replay(request_with(WeightBudget::ToBeEstimated), events);
    assert_eq!(actions, vec![Action::Simulate, Action::Submit(limit(84_213_000, 98_304))]);
    assert_eq!(deployment.into_outcome(), Some(Ok(address("5Contract"))));
}

#[test]
fn replay_of_nothing_asks_for_nothing() {
    let (deployment, actions) = replay(request_with(WeightBudget::ToBeEstimated), Vec::new());
    assert!(actions.is_empty());
    assert_eq!(*deployment.stage(), Stage::AwaitingBudget);
}

#[test]
fn same_answers_give_the_same_flow() {
    let script = || {
        vec![
            Event::Begin,
            Event::Simulated(Ok(limit(84_213_000, 98_304))),
            Event::Submitted(Ok(address("5Contract"))),
        ]
    };
    let (first, first_actions) = replay(request_with(WeightBudget::ToBeEstimated), script());
    let (second, second_actions) = replay(request_with(WeightBudget::ToBeEstimated), script());
    assert_eq!(first_actions, second_actions);
    assert_eq!(first.stage(), second.stage());
    assert_eq!(first.into_outcome(), Some(Ok(address("5Contract"))));
}

#[test]
fn contract_address_keeps_its_text() {
    assert_eq!(address("5GrwvaEF5zXb26Fz9rcQpDWS57CtERHpNehXCPcNoHGKutQY").as_str(),
        "5GrwvaEF5zXb26Fz9rcQpDWS57CtERHpNehXCPcNoHGKutQY");
}
