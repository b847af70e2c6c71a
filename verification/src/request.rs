//! The values that a deployment is made of.

use crate::signer::SigningIdentity;
use crate::weight::WeightBudget;
use vstd::prelude::*;

verus! {

/// The identifier under which the chain holds a deployed contract. The chain
/// hands it out, and the flow passes it on as it came.
#[derive(Clone, Debug, PartialEq, Eq)]
pub struct ContractAddress {
    text: String,
}

impl View for ContractAddress {
    type V = Seq<char>;

    closed spec fn view(&self) -> Seq<char> {
        self.text@
    }
}

impl ContractAddress {
    /// The address with the given text.
    pub fn new(text: String) -> (address: ContractAddress)
        ensures
            address@ == text@,
    {
        ContractAddress { text }
    }

    /// The text of the address.
    pub fn as_str(&self) -> (text: &str)
        ensures
            text@ == self@,
    {
        self.text.as_str()
    }
}

/// What a chain says of its native token: the number of decimals of one
/// unit, and the unit's symbol.
#[derive(Clone, Debug, PartialEq, Eq)]
pub struct TokenMetadata {
    pub decimals: usize,
    pub symbol: String,
}

/// One fully formed request to instantiate a contract, bound to a
/// constructor, an account and an endpoint. It has no operation that changes
/// it.
#[derive(Debug)]
pub struct InstantiationRequest {
    manifest: String,
    constructor: String,
    args: Vec<String>,
    value: u128,
    budget: WeightBudget,
    salt: Option<Vec<u8>>,
    signer: SigningIdentity,
    endpoint: String,
}

/// What an [`InstantiationRequest`] holds.
pub ghost struct RequestView {
    /// Where the manifest of the build artifact was found.
    pub manifest: Seq<char>,
    /// The name of the constructor to call.
    pub constructor: Seq<char>,
    /// The constructor's arguments, each encoded as a string, in order.
    pub args: Seq<Seq<char>>,
    /// The balance to transfer, in the chain's native unit.
    pub value: u128,
    /// The caller's weight limit, or the request to estimate one.
    pub budget: WeightBudget,
    /// The bytes mixed into the address derivation, if any.
    pub salt: Option<Seq<u8>>,
    /// The identity that signs the transaction.
    pub signer: SigningIdentity,
    /// The node to deploy to.
    pub endpoint: Seq<char>,
}

impl View for InstantiationRequest {
    type V = RequestView;

    closed spec fn view(&self) -> RequestView {
        RequestView {
            manifest: self.manifest@,
            constructor: self.constructor@,
            args: self.args.deep_view(),
            value: self.value,
            budget: self.budget,
            salt: match self.salt {
                Some(bytes) => Some(bytes@),
                None => None,
            },
            signer: self.signer,
            endpoint: self.endpoint@,
        }
    }
}

impl InstantiationRequest {
    /// The request made of the given parts.
    pub closed spec fn bound(
        manifest: String,
        constructor: String,
        args: Vec<String>,
        value: u128,
        budget: WeightBudget,
        salt: Option<Vec<u8>>,
        signer: SigningIdentity,
        endpoint: String,
    ) -> InstantiationRequest {
        InstantiationRequest { manifest, constructor, args, value, budget, salt, signer, endpoint }
    }

    /// A request holds the parts that it was made of.
    pub broadcast proof fn lemma_bound_view(
        manifest: String,
        constructor: String,
        args: Vec<String>,
        value: u128,
        budget: WeightBudget,
        salt: Option<Vec<u8>>,
        signer: SigningIdentity,
        endpoint: String,
    )
        ensures
            (#[trigger] InstantiationRequest::bound(
                manifest,
                constructor,
                args,
                value,
                budget,
                salt,
                signer,
                endpoint,
            ))@ == (RequestView {
                manifest: manifest@,
                constructor: constructor@,
                args: args.deep_view(),
                value,
                budget,
                salt: match salt {
                    Some(bytes) => Some(bytes@),
                    None => None,
                },
                signer,
                endpoint: endpoint@,
            }),
    {
    }

    /// Binds the parts of a deployment into one request.
    pub fn new(
        manifest: String,
        constructor: String,
        args: Vec<String>,
        value: u128,
        budget: WeightBudget,
        salt: Option<Vec<u8>>,
        signer: SigningIdentity,
        endpoint: String,
    ) -> (request: InstantiationRequest)
        ensures
            request == InstantiationRequest::bound(
                manifest,
                constructor,
                args,
                value,
                budget,
                salt,
                signer,
                endpoint,
            ),
    {
        InstantiationRequest { manifest, constructor, args, value, budget, salt, signer, endpoint }
    }

    /// Where the manifest of the build artifact was found.
    pub fn manifest(&self) -> (manifest: &str)
        ensures
            manifest@ == self@.manifest,
    {
        self.manifest.as_str()
    }

    /// The name of the constructor to call.
    pub fn constructor(&self) -> (constructor: &str)
        ensures
            constructor@ == self@.constructor,
    {
        self.constructor.as_str()
    }

    /// The constructor's arguments, each encoded as a string, in order.
    pub fn args(&self) -> (args: &Vec<String>)
        ensures
            args.deep_view() == self@.args,
    {
        &self.args
    }

    /// The balance to transfer, in the chain's native unit.
    pub fn value(&self) -> (value: u128)
        ensures
            value == self@.value,
    {
        self.value
    }

    /// The caller's weight limit, or the request to estimate one.
    pub fn budget(&self) -> (budget: WeightBudget)
        ensures
            budget == self@.budget,
    {
        self.budget
    }

    /// The bytes mixed into the address derivation, if any.
    pub fn salt(&self) -> (salt: &Option<Vec<u8>>)
        ensures
            match *salt {
                Some(bytes) => self@.salt == Some(bytes@),
                None => self@.salt is None,
            },
    {
        &self.salt
    }

    /// The identity that signs the transaction.
    pub fn signer(&self) -> (signer: &SigningIdentity)
        ensures
            *signer == self@.signer,
    {
        &self.signer
    }

    /// The node to deploy to.
    pub fn endpoint(&self) -> (endpoint: &str)
        ensures
            endpoint@ == self@.endpoint,
    {
        self.endpoint.as_str()
    }
}

} // verus!
