//! The failures of a deployment.

use vstd::prelude::*;
use vstd::string::StringExecFns;

verus! {

/// What went wrong, by the stage at which it did.
#[derive(Clone, Copy, Debug, PartialEq, Eq, Structural)]
pub enum ErrorKind {
    /// No manifest was found at the build-artifact location.
    ManifestNotFound,
    /// The token metadata could not be fetched, or the balance expression
    /// could not be converted with it.
    BalanceResolutionFailed,
    /// The secret URI does not yield a signing key.
    InvalidSigningKey,
    /// The dry run failed, so nothing was submitted.
    EstimationFailed,
    /// The chain or the network refused the submission.
    SubmissionFailed,
    /// The endpoint could not be bound.
    NetworkError,
    /// The submission was interrupted, and whether the transaction was
    /// included is not known.
    IndeterminateOutcome,
}

impl ErrorKind {
    /// The words that stand for the kind in a failure message.
    pub open spec fn label_spec(self) -> Seq<char> {
        match self {
            ErrorKind::ManifestNotFound => "manifest not found"@,
            ErrorKind::BalanceResolutionFailed => "balance resolution failed"@,
            ErrorKind::InvalidSigningKey => "invalid signing key"@,
            ErrorKind::EstimationFailed => "estimation failed"@,
            ErrorKind::SubmissionFailed => "submission failed"@,
            ErrorKind::NetworkError => "network error"@,
            ErrorKind::IndeterminateOutcome => "indeterminate outcome"@,
        }
    }

    /// Whether a failure of this kind comes from a submission.
    pub open spec fn follows_submission(self) -> bool {
        self == ErrorKind::SubmissionFailed || self == ErrorKind::IndeterminateOutcome
    }

    /// Whether a failure of this kind can have left a transaction on the
    /// chain. A failure that cannot has had no effect; one that can must not
    /// be answered by submitting the same request again.
    #[verifier::when_used_as_spec(follows_submission)]
    pub fn may_have_reached_chain(self) -> (reached: bool)
        ensures
            reached == self.follows_submission(),
    {
        match self {
            ErrorKind::SubmissionFailed => true,
            ErrorKind::IndeterminateOutcome => true,
            _ => false,
        }
    }

    /// The label as text.
    pub fn label(self) -> (text: &'static str)
        ensures
            text@ == self.label_spec(),
    {
        match self {
            ErrorKind::ManifestNotFound => "manifest not found",
            ErrorKind::BalanceResolutionFailed => "balance resolution failed",
            ErrorKind::InvalidSigningKey => "invalid signing key",
            ErrorKind::EstimationFailed => "estimation failed",
            ErrorKind::SubmissionFailed => "submission failed",
            ErrorKind::NetworkError => "network error",
            ErrorKind::IndeterminateOutcome => "indeterminate outcome",
        }
    }
}

/// The one failure that an invocation reports: its kind, and the cause as
/// the collaborator that failed worded it.
#[derive(Clone, Debug, PartialEq, Eq)]
pub struct DeployError {
    pub kind: ErrorKind,
    pub cause: String,
}

impl DeployError {
    /// The text of the failure message: the kind's label, a colon and a
    /// space, then the cause.
    pub open spec fn message_spec(self) -> Seq<char> {
        self.kind.label_spec() + ": "@ + self.cause@
    }

    /// The failure message shown to the user.
    pub fn message(&self) -> (text: String)
        ensures
            text@ == self.message_spec(),
    {
        let label = String::from_str(self.kind.label());
        label.concat(": ").concat(self.cause.as_str())
    }
}

} // verus!
