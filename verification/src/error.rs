//! Errors and client status.

use vstd::prelude::*;

use crate::height::Height;

verus! {

/// The status of a client, derived from its state and the host time.
#[derive(Clone, Copy, Debug, PartialEq, Eq, Structural, Hash)]
pub enum Status {
    Active,
    Expired,
    Frozen,
    Unknown,
}

impl Status {
    pub fn is_active(&self) -> (r: bool)
        ensures
            r == (*self == Status::Active),
    {
        match self {
            Status::Active => true,
            _ => false,
        }
    }
}

/// What can go wrong in handling a client message.
#[derive(Clone, Copy, Debug, PartialEq, Eq, Structural, Hash)]
pub enum ClientError {
    /// A header is malformed, names the wrong chain, or its validator hash
    /// does not match its validator set.
    InvalidHeader,
    /// The commit or the overlap with the trusted validators is too small.
    InsufficientVotingPower,
    /// The header's time is not before the host time plus the clock drift.
    HeaderInTheFuture,
    /// The trusted consensus state is older than the trusting period.
    HeaderInThePast,
    /// The header's height or time is not after the trusted one.
    NonMonotonicHeader,
    /// The trusted validator set supplied does not hash to the stored value.
    TrustedValidatorSetMismatch,
    /// No client state is stored under the client id.
    ClientNotFound,
    /// A client state is stored already under the client id.
    ClientAlreadyExists,
    /// No consensus state is stored at the height.
    ConsensusStateNotFound { height: Height },
    /// No processing metadata is stored at the height.
    ProcessedTimeNotFound { height: Height },
    /// The client is frozen or expired.
    ClientNotActive { status: Status },
    /// A membership proof of an upgrade failed.
    InvalidProof,
    /// Evidence was submitted that shows no misbehaviour.
    MisbehaviourNotDetected,
    /// The two headers of a misbehaviour message are ill-formed as a pair.
    InvalidMisbehaviour,
    /// A message or state belongs to another client type.
    ClientTypeMismatch,
    /// A type url names no known client or consensus state.
    UnknownStateType,
    /// The upgraded client is not above the current one.
    LowUpgradeHeight,
    /// No upgrade path is set on the client.
    MissingUpgradePath,
    /// An upgraded client state is ill-formed.
    InvalidClientState,
    /// A height of zero.
    InvalidHeight,
}

/// An error of a handler: a client error, or a fault of the host.
#[derive(Clone, Copy, Debug, PartialEq, Eq, Structural, Hash)]
pub enum ContextError {
    ClientError(ClientError),
    /// The signer of a message is not accepted by the host.
    InvalidSigner,
    /// The host's store failed.
    HostFault,
}

/// The result of a handler that a client's result amounts to.
pub open spec fn client_result(r: Result<(), ClientError>) -> Result<(), ContextError> {
    match r {
        Ok(()) => Ok(()),
        Err(e) => Err(ContextError::ClientError(e)),
    }
}

} // verus!
