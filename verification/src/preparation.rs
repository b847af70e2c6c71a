//! The deployment preparer: the state machine that gathers what a deployment
//! needs and binds it into one request.
//!
//! The preparation reads and changes nothing on the chain. Its caller
//! performs the [`PrepAction`] that each step returns and sends the answer as
//! the next [`PrepEvent`], until a step returns no action. The first failure
//! ends the preparation.

use crate::command::UpContractCommand;
use crate::error::{DeployError, ErrorKind};
use crate::request::{InstantiationRequest, TokenMetadata};
use crate::signer::SigningIdentity;
use crate::weight::WeightBudget;
use vstd::prelude::*;

verus! {

/// What the preparation asks of the caller.
#[derive(Clone, Debug, PartialEq, Eq)]
pub enum PrepAction {
    /// Locate the manifest of the build artifact: at `candidate`, or by the
    /// default rule when there is none.
    ResolveManifest { candidate: Option<String> },
    /// Ask the node at `endpoint` for the metadata of its token.
    QueryTokenMetadata { endpoint: String },
    /// Resolve the secret URI into a signing identity.
    ResolveSigner { suri: String },
    /// Convert the balance `expression` into the chain's native unit.
    ParseBalance { expression: String, metadata: TokenMetadata },
    /// Bind the request to the node at `endpoint`.
    BindEndpoint { endpoint: String },
}

/// What the caller tells the preparation. Each event carries the result of
/// one action, or the reason for which the action failed.
#[derive(Debug)]
pub enum PrepEvent {
    /// The manifest was looked for; on success, where it is.
    ManifestResolved(Result<String, String>),
    /// The node was asked for its token metadata.
    TokenMetadataQueried(Result<TokenMetadata, String>),
    /// The secret URI was resolved.
    SignerResolved(Result<SigningIdentity, String>),
    /// The balance expression was converted; on success, the amount.
    BalanceParsed(Result<u128, String>),
    /// The endpoint was bound.
    EndpointBound(Result<(), String>),
}

/// Where a preparation stands, with what it has gathered so far.
#[derive(Debug)]
pub enum PrepStage {
    /// The manifest is being located.
    ResolvingManifest { command: UpContractCommand },
    /// The token metadata is being fetched.
    QueryingTokenMetadata { command: UpContractCommand, manifest: String },
    /// The signing identity is being resolved.
    ResolvingSigner { command: UpContractCommand, manifest: String, metadata: TokenMetadata },
    /// The balance expression is being converted.
    ParsingBalance { command: UpContractCommand, manifest: String, signer: SigningIdentity },
    /// The request is made and is being bound to its endpoint.
    BindingEndpoint { request: InstantiationRequest },
    /// The request is ready to be deployed.
    Ready(InstantiationRequest),
    /// The preparation ended with this failure.
    Failed(DeployError),
}

/// The failure of the given kind and cause.
pub open spec fn failed(kind: ErrorKind, cause: String) -> PrepStage {
    PrepStage::Failed(DeployError { kind, cause })
}

/// The request that a command, the place of its manifest, the amount of its
/// balance and its signer make.
pub open spec fn request_of(
    command: UpContractCommand,
    manifest: String,
    value: u128,
    signer: SigningIdentity,
) -> InstantiationRequest {
    InstantiationRequest::bound(
        manifest,
        command.constructor,
        command.args,
        value,
        WeightBudget::of(command.gas_limit, command.proof_size),
        command.salt,
        signer,
        command.url,
    )
}

/// The transition function: the stage that follows `stage` on `event`, and
/// the action to perform next, if any.
///
/// The stages follow each other in one order: manifest, token metadata,
/// signer, balance, endpoint. An event moves the preparation only when it
/// answers the action in flight; every other event leaves the stage as it is
/// and asks for nothing.
pub open spec fn step_spec(stage: PrepStage, event: PrepEvent) -> (PrepStage, Option<PrepAction>) {
    match (stage, event) {
        (PrepStage::ResolvingManifest { command }, PrepEvent::ManifestResolved(Ok(manifest))) => (
            PrepStage::QueryingTokenMetadata { command, manifest },
            Some(PrepAction::QueryTokenMetadata { endpoint: command.url }),
        ),
        (PrepStage::ResolvingManifest { .. }, PrepEvent::ManifestResolved(Err(cause))) => (
            failed(ErrorKind::ManifestNotFound, cause),
            None,
        ),
        (
            PrepStage::QueryingTokenMetadata { command, manifest },
            PrepEvent::TokenMetadataQueried(Ok(metadata)),
        ) => (
            PrepStage::ResolvingSigner { command, manifest, metadata },
            Some(PrepAction::ResolveSigner { suri: command.suri }),
        ),
        (PrepStage::QueryingTokenMetadata { .. }, PrepEvent::TokenMetadataQueried(Err(cause))) => (
            failed(ErrorKind::BalanceResolutionFailed, cause),
            None,
        ),
        (
            PrepStage::ResolvingSigner { command, manifest, metadata },
            PrepEvent::SignerResolved(Ok(signer)),
        ) => (
            PrepStage::ParsingBalance { command, manifest, signer },
            Some(PrepAction::ParseBalance { expression: command.value, metadata }),
        ),
        (PrepStage::ResolvingSigner { .. }, PrepEvent::SignerResolved(Err(cause))) => (
            failed(ErrorKind::InvalidSigningKey, cause),
            None,
        ),
        (
            PrepStage::ParsingBalance { command, manifest, signer },
            PrepEvent::BalanceParsed(Ok(value)),
        ) => (
            PrepStage::BindingEndpoint { request: request_of(command, manifest, value, signer) },
            Some(PrepAction::BindEndpoint { endpoint: command.url }),
        ),
        (PrepStage::ParsingBalance { .. }, PrepEvent::BalanceParsed(Err(cause))) => (
            failed(ErrorKind::BalanceResolutionFailed, cause),
            None,
        ),
        (PrepStage::BindingEndpoint { request }, PrepEvent::EndpointBound(Ok(_))) => (
            PrepStage::Ready(request),
            None,
        ),
        (PrepStage::BindingEndpoint { .. }, PrepEvent::EndpointBound(Err(cause))) => (
            failed(ErrorKind::NetworkError, cause),
            None,
        ),
        (stage, _) => (stage, None),
    }
}

/// How a stage reads as the end of a preparation: the request when it is
/// ready, the failure when it has failed, and nothing while it is under way.
pub open spec fn outcome_of(stage: PrepStage) -> Option<Result<InstantiationRequest, DeployError>> {
    match stage {
        PrepStage::Ready(request) => Some(Ok(request)),
        PrepStage::Failed(error) => Some(Err(error)),
        _ => None,
    }
}

/// The preparation of one deployment.
#[derive(Debug)]
pub struct Preparation {
    stage: PrepStage,
}

impl View for Preparation {
    type V = PrepStage;

    closed spec fn view(&self) -> PrepStage {
        self.stage
    }
}

impl Preparation {
    /// The preparation of `command`, at its first stage.
    pub(crate) fn begin(command: UpContractCommand) -> (preparation: Preparation)
        ensures
            preparation@ == (PrepStage::ResolvingManifest { command }),
    {
        Preparation { stage: PrepStage::ResolvingManifest { command } }
    }

    /// Where the preparation stands.
    pub fn stage(&self) -> (stage: &PrepStage)
        ensures
            *stage == self@,
    {
        &self.stage
    }

    /// Ends the use of the preparation and hands out what came of it: the
    /// request, the failure, or nothing when it was still under way.
    pub fn into_outcome(self) -> (outcome: Option<Result<InstantiationRequest, DeployError>>)
        ensures
            outcome == outcome_of(self@),
    {
        match self.stage {
            PrepStage::Ready(request) => Some(Ok(request)),
            PrepStage::Failed(error) => Some(Err(error)),
            _ => None,
        }
    }

    /// Takes one event. Returns the preparation at its next stage and the
    /// action that the caller must perform now; `None` when there is nothing
    /// to perform.
    pub fn step(self, event: PrepEvent) -> (next: (Preparation, Option<PrepAction>))
        ensures
            (next.0@, next.1) == step_spec(self@, event),
    {
        let (stage, action) = match (self.stage, event) {
            (PrepStage::ResolvingManifest { command }, PrepEvent::ManifestResolved(Ok(manifest))) => {
                let endpoint = command.url.clone();
                (
                    PrepStage::QueryingTokenMetadata { command, manifest },
                    Some(PrepAction::QueryTokenMetadata { endpoint }),
                )
            },
            (PrepStage::ResolvingManifest { .. }, PrepEvent::ManifestResolved(Err(cause))) => (
                PrepStage::Failed(DeployError { kind: ErrorKind::ManifestNotFound, cause }),
                None,
            ),
            (
                PrepStage::QueryingTokenMetadata { command, manifest },
                PrepEvent::TokenMetadataQueried(Ok(metadata)),
            ) => {
                let suri = command.suri.clone();
                (
                    PrepStage::ResolvingSigner { command, manifest, metadata },
                    Some(PrepAction::ResolveSigner { suri }),
                )
            },
            (
                PrepStage::QueryingTokenMetadata { .. },
                PrepEvent::TokenMetadataQueried(Err(cause)),
            ) => (
                PrepStage::Failed(DeployError { kind: ErrorKind::BalanceResolutionFailed, cause }),
                None,
            ),
            (
                PrepStage::ResolvingSigner { command, manifest, metadata },
                PrepEvent::SignerResolved(Ok(signer)),
            ) => {
                let expression = command.value.clone();
                (
                    PrepStage::ParsingBalance { command, manifest, signer },
                    Some(PrepAction::ParseBalance { expression, metadata }),
                )
            },
            (PrepStage::ResolvingSigner { .. }, PrepEvent::SignerResolved(Err(cause))) => (
                PrepStage::Failed(DeployError { kind: ErrorKind::InvalidSigningKey, cause }),
                None,
            ),
            (
                PrepStage::ParsingBalance { command, manifest, signer },
                PrepEvent::BalanceParsed(Ok(value)),
            ) => {
                let endpoint = command.url.clone();
                let budget = WeightBudget::from_overrides(command.gas_limit, command.proof_size);
                let request = InstantiationRequest::new(
                    manifest,
                    command.constructor,
                    command.args,
                    value,
                    budget,
                    command.salt,
                    signer,
                    command.url,
                );
                (PrepStage::BindingEndpoint { request }, Some(PrepAction::BindEndpoint { endpoint }))
            },
            (PrepStage::ParsingBalance { .. }, PrepEvent::BalanceParsed(Err(cause))) => (
                PrepStage::Failed(DeployError { kind: ErrorKind::BalanceResolutionFailed, cause }),
                None,
            ),
            (PrepStage::BindingEndpoint { request }, PrepEvent::EndpointBound(Ok(_))) => (
                PrepStage::Ready(request),
                None,
            ),
            (PrepStage::BindingEndpoint { .. }, PrepEvent::EndpointBound(Err(cause))) => (
                PrepStage::Failed(DeployError { kind: ErrorKind::NetworkError, cause }),
                None,
            ),
            (stage, _) => (stage, None),
        };
        (Preparation { stage }, action)
    }
}

} // verus!
