//! Deployment of a compiled smart contract to a blockchain node, as a pair of
//! verified state machines.
//!
//! The crate holds the decisions of a deployment and leaves the network, the
//! disk and the terminal to its caller. A caller performs each [`PrepAction`]
//! and [`Action`] that the machines hand out, and feeds the answer back as an
//! event:
//!
//! 1. [`UpContractCommand::set_up_deployment`] starts a [`Preparation`], which
//!    gathers the manifest location, the signing identity and the balance to
//!    transfer, and ends with one [`InstantiationRequest`].
//! 2. [`Deployment`] resolves the weight limit of that request, either from
//!    the caller's own overrides or from one dry run, and then submits the
//!    request once.
//!
//! What holds of every run of the second machine is proved in
//! [`trace`].

pub mod command;
pub mod deployment;
pub mod error;
pub mod preparation;
pub mod request;
pub mod signer;
pub mod trace;
pub mod weight;

pub use command::UpContractCommand;
pub use deployment::{Action, Deployment, DeploymentView, Event, Stage};
pub use error::{DeployError, ErrorKind};
pub use preparation::{PrepAction, PrepEvent, PrepStage, Preparation};
pub use request::{ContractAddress, InstantiationRequest, RequestView, TokenMetadata};
pub use signer::{Junction, SecretUriParts, SigningIdentity};
pub use weight::{WeightBudget, WeightLimit};
