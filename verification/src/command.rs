//! What the caller asks for: the inputs of one deployment.

use crate::preparation::{PrepAction, PrepStage, Preparation};
use vstd::prelude::*;
use vstd::string::StringExecFns;

verus! {

/// The inputs of a deployment, as the caller gave them.
#[derive(Clone, Debug)]
pub struct UpContractCommand {
    /// The contract's build folder; the current directory when absent.
    pub path: Option<String>,
    /// The name of the contract constructor to call.
    pub constructor: String,
    /// The constructor arguments, encoded as strings.
    pub args: Vec<String>,
    /// The initial balance to transfer to the contract, as the caller wrote
    /// it: a plain amount, or an amount with a unit of the chain's token.
    pub value: String,
    /// The most computation that the deployment may use.
    pub gas_limit: Option<u64>,
    /// The largest proof that the deployment may need.
    pub proof_size: Option<u64>,
    /// A salt for the address derivation of the new contract, to create
    /// several instances of one code from one account.
    pub salt: Option<Vec<u8>>,
    /// The websocket endpoint of a node.
    pub url: String,
    /// The secret key URI of the account that deploys the contract, such as
    /// `//Alice` or, with a password, `//Alice///SECRET_PASSWORD`.
    pub suri: String,
}

/// The name of the manifest file inside a build folder, behind its separator.
pub open spec fn manifest_suffix() -> Seq<char> {
    "/Cargo.toml"@
}

/// The text of an optional string.
pub open spec fn text_of(text: Option<String>) -> Option<Seq<char>> {
    match text {
        Some(text) => Some(text@),
        None => None,
    }
}

impl UpContractCommand {
    /// Where the manifest is expected: inside the build folder when the
    /// caller named one, and nowhere in particular otherwise, which leaves
    /// the place to the resolver's default.
    pub open spec fn manifest_candidate_spec(self) -> Option<Seq<char>> {
        match self.path {
            Some(folder) => Some(folder@ + manifest_suffix()),
            None => None,
        }
    }

    /// The path at which the manifest is expected, if the caller named a
    /// build folder.
    pub fn manifest_candidate(&self) -> (candidate: Option<String>)
        ensures
            text_of(candidate) == self.manifest_candidate_spec(),
    {
        match &self.path {
            Some(folder) => Some(folder.clone().concat("/Cargo.toml")),
            None => None,
        }
    }

    /// Starts the preparation of the deployment. The first thing to do is to
    /// resolve the manifest, at the place that `manifest_candidate` gives.
    pub fn set_up_deployment(self) -> (started: (Preparation, PrepAction))
        ensures
            started.0@ == (PrepStage::ResolvingManifest { command: self }),
            started.1 matches PrepAction::ResolveManifest { candidate } && text_of(candidate)
                == self.manifest_candidate_spec(),
    {
        let candidate = self.manifest_candidate();
        (Preparation::begin(self), PrepAction::ResolveManifest { candidate })
    }
}

} // verus!
