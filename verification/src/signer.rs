//! The signing identity of a deployment, derived from a secret URI by the
//! `subxt_signer` crate.

use subxt_signer::sr25519::Keypair;
use subxt_signer::DeriveJunction;
use subxt_signer::ExposeSecret;
use subxt_signer::SecretString;
use subxt_signer::SecretUri;
use subxt_signer::SecretUriError;
use vstd::prelude::*;

verus! {

/// `subxt_signer::SecretUriError`: why a string is no secret URI.
#[verifier::external_type_specification]
#[verifier::external_body]
pub struct ExSecretUriError(subxt_signer::SecretUriError);

/// `subxt_signer::sr25519::Keypair`: an sr25519 key pair. Nothing of its
/// contents is known here.
#[verifier::external_type_specification]
#[verifier::external_body]
pub struct ExKeypair(subxt_signer::sr25519::Keypair);

/// `subxt_signer::sr25519::Error`: why no key pair came of a secret URI.
#[verifier::external_type_specification]
#[verifier::external_body]
pub struct ExKeypairError(subxt_signer::sr25519::Error);

/// The parts of a secret URI: the phrase or hex seed that the key starts
/// from, the password that goes with the phrase, and the derivation path.
pub struct SecretUriParts {
    pub phrase: String,
    pub password: Option<String>,
    pub junctions: Vec<Junction>,
}

/// What [`SecretUriParts`] hold.
pub ghost struct SecretUriView {
    pub phrase: Seq<char>,
    pub password: Option<Seq<char>>,
    pub junctions: Seq<Junction>,
}

/// What `subxt_signer` reads out of a text as a secret URI (an optional
/// phrase, junctions that each start with `/` or `//`, and an optional
/// password behind `///`), or `None` for a text that it does not accept.
pub uninterp spec fn parsed_secret_uri(suri: Seq<char>) -> Option<SecretUriView>;

/// Whether `subxt_signer` derives an sr25519 key pair from the given parts.
pub uninterp spec fn keypair_derivable(parts: SecretUriView) -> bool;

/// Whether a text reads as a secret URI of which a key pair comes.
pub open spec fn secret_uri_resolves(suri: Seq<char>) -> bool {
    parsed_secret_uri(suri) matches Some(parts) && keypair_derivable(parts)
}

/// The identity that signs the deployment transaction.
#[derive(Debug)]
pub struct SigningIdentity {
    pub keypair: Keypair,
}

impl SigningIdentity {
    /// Resolves a secret URI such as `//Alice` or
    /// `//Alice///SECRET_PASSWORD` into a signing identity, or says why it
    /// yields none. It yields one exactly when the text reads as a secret
    /// URI and a key pair can be derived from its parts.
    pub fn from_secret_uri(suri: &str) -> (resolved: Result<SigningIdentity, String>)
        ensures
            resolved is Ok <==> secret_uri_resolves(suri@),
    {
        match parse_secret_uri(suri) {
            Ok(parts) => SigningIdentity::from_parts(&parts),
            Err(error) => Err(error.to_string()),
        }
    }

    /// Derives the signing identity from the parts of a secret URI, or says
    /// why they yield none.
    pub fn from_parts(parts: &SecretUriParts) -> (resolved: Result<SigningIdentity, String>)
        ensures
            resolved is Ok <==> keypair_derivable(parts@),
    {
        SigningIdentity::from_derivation(keypair_from_parts(parts))
    }

    /// Wraps the outcome of a key derivation: the key pair as the identity,
    /// or the derivation's own words as the cause of the failure.
    pub fn from_derivation(derived: Result<Keypair, subxt_signer::sr25519::Error>) -> (resolved:
        Result<SigningIdentity, String>)
        ensures
            match derived {
                Ok(keypair) => resolved == Ok::<SigningIdentity, String>(SigningIdentity { keypair }),
                Err(error) => resolved matches Err(cause)
                    && vstd::string::to_string_from_display_ensures(&error, cause),
            },
    {
        match derived {
            Ok(keypair) => Ok(SigningIdentity { keypair }),
            Err(error) => Err(error.to_string()),
        }
    }
}

/// One step of a derivation path, with its chain code. A step written
/// behind `//` is hard, one behind `/` is soft.
#[derive(Clone, Copy, Debug, PartialEq, Eq)]
pub enum Junction {
    Soft([u8; 32]),
    Hard([u8; 32]),
}

impl View for SecretUriParts {
    type V = SecretUriView;

    open spec fn view(&self) -> SecretUriView {
        SecretUriView {
            phrase: self.phrase@,
            password: match self.password {
                Some(password) => Some(password@),
                None => None,
            },
            junctions: self.junctions@,
        }
    }
}

/// Calls `SecretUri::from_str` and hands out the three fields of the result
/// as plain values. Trusted: what comes back is `parsed_secret_uri` of the
/// text, which says only that the same text always reads the same way. The
/// parser matches the text against a fixed pattern, takes the development
/// phrase where the text has none, and reads nothing else.
#[verifier::external_body]
fn parse_secret_uri(suri: &str) -> (parsed: Result<SecretUriParts, SecretUriError>)
    ensures
        match parsed {
            Ok(parts) => parsed_secret_uri(suri@) == Some(parts@),
            Err(_) => parsed_secret_uri(suri@) is None,
        },
{
    let uri = suri.parse::<SecretUri>()?;
    Ok(SecretUriParts {
        phrase: uri.phrase.expose_secret().to_string(),
        password: uri.password.as_ref().map(|password| password.expose_secret().to_string()),
        junctions: uri.junctions.iter().map(|junction| match junction {
            DeriveJunction::Soft(code) => Junction::Soft(*code),
            DeriveJunction::Hard(code) => Junction::Hard(*code),
        }).collect(),
    })
}

/// Calls `Keypair::from_uri` on a `SecretUri` with the given three fields.
/// Trusted: whether a key pair comes back is `keypair_derivable` of the
/// parts, which says only that the same parts always fare the same way. The
/// call fails where the phrase is neither `0x` with a hex seed of 32 bytes
/// nor a BIP-39 mnemonic. Nothing is claimed of the key pair itself: a soft
/// junction puts random bytes into it.
#[verifier::external_body]
fn keypair_from_parts(parts: &SecretUriParts) -> (derived: Result<
    Keypair,
    subxt_signer::sr25519::Error,
>)
    ensures
        derived is Ok <==> keypair_derivable(parts@),
{
    let uri = SecretUri {
        phrase: SecretString::from(parts.phrase.clone()),
        password: parts.password.clone().map(SecretString::from),
        junctions: parts.junctions.iter().map(|junction| match junction {
            Junction::Soft(code) => DeriveJunction::Soft(*code),
            Junction::Hard(code) => DeriveJunction::Hard(*code),
        }).collect(),
    };
    Keypair::from_uri(&uri)
}

} // verus!
