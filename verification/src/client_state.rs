//! The state of a Tendermint client, and the checks that it makes on the
//! headers submitted to it.

use vstd::prelude::*;

use crate::block::{
    set_power, sets_verdict, signers_overlap, signers_verdict, threshold_evaluable, total_power,
    trusted_verdict, validators_and_signers_overlap, verdict_class, verdict_kind,
    verify_validator_sets, VerdictKind,
};
use crate::bytes::{byte_strings, byte_strings_clone, bytes_eq};
use crate::consensus_state::{ConsensusState, ConsensusStateView};
use crate::error::ClientError;
use crate::header::{header_consensus_state, is_adjacent, Header, HeaderView};
use crate::height::Height;
use crate::identifier::{chain_revision, ChainId};
use crate::text::{strings, strings_clone};
use crate::timestamp::{Duration, Timestamp};

verus! {

/// The fraction of the trusted validators' voting power that must sign a
/// header for the client to follow it.
#[derive(Clone, Copy, Debug, PartialEq, Eq, Structural, Hash)]
pub struct TrustThreshold {
    pub numerator: u64,
    pub denominator: u64,
}

impl TrustThreshold {
    /// A threshold of at least one third and at most one. A validated
    /// header must be signed by more than this share of the trusted power.
    pub open spec fn valid(self) -> bool {
        &&& 0 < self.denominator
        &&& self.numerator <= self.denominator
        &&& self.denominator <= 3 * self.numerator
    }

    pub fn is_valid(&self) -> (r: bool)
        ensures
            r == self.valid(),
    {
        0 < self.denominator && self.numerator <= self.denominator && (self.denominator / 3
            < self.numerator || (self.denominator / 3 == self.numerator && self.denominator % 3
            == 0))
    }

    pub fn one_third() -> (r: TrustThreshold)
        ensures
            r == (TrustThreshold { numerator: 1, denominator: 3 }),
            r.valid(),
    {
        TrustThreshold { numerator: 1, denominator: 3 }
    }

    pub fn two_thirds() -> (r: TrustThreshold)
        ensures
            r == (TrustThreshold { numerator: 2, denominator: 3 }),
            r.valid(),
    {
        TrustThreshold { numerator: 2, denominator: 3 }
    }
}

/// The mathematical value of a client state.
pub struct ClientStateView {
    pub chain_id: Seq<char>,
    pub trust_level: TrustThreshold,
    pub trusting_period: Duration,
    pub unbonding_period: Duration,
    pub max_clock_drift: Duration,
    pub latest_height: Height,
    pub proof_specs: Seq<Seq<u8>>,
    pub upgrade_path: Seq<Seq<char>>,
    pub frozen_height: Option<Height>,
    pub allow_update_after_expiry: bool,
    pub allow_update_after_misbehaviour: bool,
}

impl ClientStateView {
    /// What holds of every client state: the trusting period is positive
    /// and shorter than the unbonding period, the clock drift is positive,
    /// the trust level lies between one third and one, and the latest height
    /// is of the revision that the chain identifier names.
    pub open spec fn valid(self) -> bool {
        &&& 0 < self.trusting_period.nanos < self.unbonding_period.nanos
        &&& self.max_clock_drift.nanos > 0
        &&& self.trust_level.valid()
        &&& chain_revision(self.chain_id) == self.latest_height.revision_number
    }

    pub open spec fn is_frozen(self) -> bool {
        self.frozen_height.is_some()
    }
}

/// The state of a Tendermint client.
#[derive(Debug)]
pub struct ClientState {
    chain_id: ChainId,
    trust_level: TrustThreshold,
    trusting_period: Duration,
    unbonding_period: Duration,
    max_clock_drift: Duration,
    latest_height: Height,
    proof_specs: Vec<Vec<u8>>,
    upgrade_path: Vec<String>,
    frozen_height: Option<Height>,
    allow_update_after_expiry: bool,
    allow_update_after_misbehaviour: bool,
}

impl View for ClientState {
    type V = ClientStateView;

    closed spec fn view(&self) -> ClientStateView {
        ClientStateView {
            chain_id: self.chain_id@,
            trust_level: self.trust_level,
            trusting_period: self.trusting_period,
            unbonding_period: self.unbonding_period,
            max_clock_drift: self.max_clock_drift,
            latest_height: self.latest_height,
            proof_specs: byte_strings(self.proof_specs@),
            upgrade_path: strings(self.upgrade_path@),
            frozen_height: self.frozen_height,
            allow_update_after_expiry: self.allow_update_after_expiry,
            allow_update_after_misbehaviour: self.allow_update_after_misbehaviour,
        }
    }
}

/// The first fault in how a header is placed relative to the client and to
/// the trusted consensus state: another chain, a height that is not above
/// the trusted one, or a time that is not after the trusted one.
pub open spec fn placement_fault(
    cs: ClientStateView,
    h: HeaderView,
    trusted: ConsensusStateView,
) -> Option<ClientError> {
    if h.chain_id != cs.chain_id {
        Some(ClientError::InvalidHeader)
    } else if !h.trusted_height.lt(h.height) {
        Some(ClientError::NonMonotonicHeader)
    } else if h.time.nanos <= trusted.timestamp.nanos {
        Some(ClientError::NonMonotonicHeader)
    } else {
        None
    }
}

/// The first fault of a header against the host's clock: a time that is not
/// before the host time plus the clock drift, or a trusted consensus state
/// that has reached the age of the trusting period.
pub open spec fn clock_fault(
    cs: ClientStateView,
    h: HeaderView,
    trusted: ConsensusStateView,
    now: Timestamp,
) -> Option<ClientError> {
    if h.time.nanos >= now.nanos + cs.max_clock_drift.nanos {
        Some(ClientError::HeaderInTheFuture)
    } else if now.nanos - trusted.timestamp.nanos >= cs.trusting_period.nanos {
        Some(ClientError::HeaderInThePast)
    } else {
        None
    }
}

/// The fault of the trusted next validator set that came with a header:
/// it does not hash to what the trusted consensus state holds.
pub open spec fn trusted_set_fault(h: HeaderView, trusted: ConsensusStateView) -> Option<
    ClientError,
> {
    if h.trusted_next_validator_set_hash != trusted.next_validators_hash {
        Some(ClientError::TrustedValidatorSetMismatch)
    } else {
        None
    }
}

/// The first fault among a header's own hashes: a validator set that does
/// not hash to what the block states, no hash of the next validators, or,
/// for an adjacent header, validators other than those that the trusted
/// consensus state announced.
pub open spec fn own_hash_fault(h: HeaderView, trusted: ConsensusStateView) -> Option<
    ClientError,
> {
    if h.validators_hash != h.validator_set_hash || h.next_validators_hash.len() == 0 {
        Some(ClientError::InvalidHeader)
    } else if is_adjacent(h) && h.validators_hash != trusted.next_validators_hash {
        Some(ClientError::InvalidHeader)
    } else {
        None
    }
}

/// The first fault among the hashes of a header: that of the trusted next
/// validator set, then that of the header's own hashes.
pub open spec fn hash_fault(h: HeaderView, trusted: ConsensusStateView) -> Option<ClientError> {
    if trusted_set_fault(h, trusted).is_some() {
        trusted_set_fault(h, trusted)
    } else {
        own_hash_fault(h, trusted)
    }
}

/// The first fault that is found in a header of an update before any
/// signature is looked at.
pub open spec fn header_fault(
    cs: ClientStateView,
    h: HeaderView,
    trusted: ConsensusStateView,
    now: Timestamp,
) -> Option<ClientError> {
    if placement_fault(cs, h, trusted).is_some() {
        placement_fault(cs, h, trusted)
    } else if clock_fault(cs, h, trusted, now).is_some() {
        clock_fault(cs, h, trusted, now)
    } else {
        hash_fault(h, trusted)
    }
}

/// The first fault that is found in a header of a misbehaviour message
/// before any signature is looked at: that of the trusted next validator
/// set, then that of the header's placement, then that of its own hashes.
/// Such a header may be old: the host's clock is not consulted.
pub open spec fn misbehaviour_header_fault(
    cs: ClientStateView,
    h: HeaderView,
    trusted: ConsensusStateView,
) -> Option<ClientError> {
    if trusted_set_fault(h, trusted).is_some() {
        trusted_set_fault(h, trusted)
    } else if placement_fault(cs, h, trusted).is_some() {
        placement_fault(cs, h, trusted)
    } else {
        own_hash_fault(h, trusted)
    }
}

/// What the checks of a header's commit amount to for a client with the
/// given trust level.
///
/// First the validator set and the commit are checked against the block.
/// An adjacent header must then be signed by more than two thirds of its
/// own validators. Any other must besides be signed by validators of the
/// trusted set that hold more than the trust level of its power; where the
/// trust level cannot be evaluated against that power within 64 bits, the
/// header is refused for want of voting power.
pub open spec fn commit_outcome(level: TrustThreshold, h: Header) -> Result<(), ClientError> {
    let sets = verdict_outcome(verdict_class(sets_verdict(h.block(), h.validators())));
    if sets.is_err() {
        sets
    } else if is_adjacent(h@) {
        verdict_outcome(verdict_class(signers_verdict(h.block(), h.validators())))
    } else if !threshold_evaluable(level.numerator, level.denominator, set_power(h.trusted())) {
        Err(ClientError::InsufficientVotingPower)
    } else {
        overlap_outcome(
            match trusted_verdict(
                h.block(),
                h.trusted(),
                level.numerator,
                level.denominator,
                h.validators(),
            ) {
                Some(verdict) => Some(verdict_class(verdict)),
                None => None,
            },
        )
    }
}

/// What a header at a height is to the consensus state stored there.
#[derive(Clone, Copy, Debug, PartialEq, Eq, Structural, Hash)]
pub enum Detection {
    /// The header gives rise to another consensus state than the stored
    /// one.
    Conflict,
    /// The header gives rise to the stored consensus state.
    Consistent,
}

/// Compares the consensus state stored at a height with a header that
/// comes in at that height.
pub fn detect_misbehaviour(stored: &ConsensusState, incoming: &Header) -> (r: Detection)
    ensures
        r == (if stored@ == header_consensus_state(incoming@) {
            Detection::Consistent
        } else {
            Detection::Conflict
        }),
{
    if stored.same(&incoming.consensus_state()) {
        Detection::Consistent
    } else {
        Detection::Conflict
    }
}

/// What a check of a commit amounts to for the client.
pub open spec fn verdict_outcome(kind: VerdictKind) -> Result<(), ClientError> {
    match kind {
        VerdictKind::Success => Ok(()),
        VerdictKind::NotEnoughTrust => Err(ClientError::InsufficientVotingPower),
        VerdictKind::InsufficientSigners => Err(ClientError::InsufficientVotingPower),
        VerdictKind::Invalid => Err(ClientError::InvalidHeader),
    }
}

/// Turns the outcome of a check of a commit into the client's result.
pub fn verdict_result(kind: VerdictKind) -> (r: Result<(), ClientError>)
    ensures
        r == verdict_outcome(kind),
{
    match kind {
        VerdictKind::Success => Ok(()),
        VerdictKind::NotEnoughTrust => Err(ClientError::InsufficientVotingPower),
        VerdictKind::InsufficientSigners => Err(ClientError::InsufficientVotingPower),
        VerdictKind::Invalid => Err(ClientError::InvalidHeader),
    }
}

impl ClientState {
    #[verifier::type_invariant]
    spec fn well_formed(self) -> bool {
        self@.valid()
    }

    /// Builds a client state that is not frozen. It is refused where the
    /// periods, the clock drift, the trust level or the revision of the
    /// latest height break what holds of every client state.
    pub fn new(
        chain_id: ChainId,
        trust_level: TrustThreshold,
        trusting_period: Duration,
        unbonding_period: Duration,
        max_clock_drift: Duration,
        latest_height: Height,
        proof_specs: Vec<Vec<u8>>,
        upgrade_path: Vec<String>,
        allow_update_after_expiry: bool,
        allow_update_after_misbehaviour: bool,
    ) -> (r: Result<ClientState, ClientError>)
        ensures
            ({
                let v = ClientStateView {
                    chain_id: chain_id@,
                    trust_level,
                    trusting_period,
                    unbonding_period,
                    max_clock_drift,
                    latest_height,
                    proof_specs: byte_strings(proof_specs@),
                    upgrade_path: strings(upgrade_path@),
                    frozen_height: None,
                    allow_update_after_expiry,
                    allow_update_after_misbehaviour,
                };
                if v.valid() {
                    r.is_ok() && r.unwrap()@ == v
                } else {
                    r == Err::<ClientState, ClientError>(ClientError::InvalidClientState)
                }
            }),
    {
        let periods = 0 < trusting_period.nanos && trusting_period.nanos < unbonding_period.nanos;
        let revision = chain_id.revision_number() == latest_height.revision_number;
        if periods && max_clock_drift.nanos > 0 && trust_level.is_valid() && revision {
            Ok(
                ClientState {
                    chain_id,
                    trust_level,
                    trusting_period,
                    unbonding_period,
                    max_clock_drift,
                    latest_height,
                    proof_specs,
                    upgrade_path,
                    frozen_height: None,
                    allow_update_after_expiry,
                    allow_update_after_misbehaviour,
                },
            )
        } else {
            Err(ClientError::InvalidClientState)
        }
    }

    /// The latest height; with it, what holds of every client state.
    pub fn latest_height(&self) -> (r: Height)
        ensures
            r == self@.latest_height,
            self@.valid(),
    {
        proof {
            use_type_invariant(self);
        }
        self.latest_height
    }

    pub fn chain_id(&self) -> (r: &ChainId)
        ensures
            r@ == self@.chain_id,
    {
        &self.chain_id
    }

    pub fn trust_level(&self) -> (r: TrustThreshold)
        ensures
            r == self@.trust_level,
            r.valid(),
    {
        proof {
            use_type_invariant(self);
        }
        self.trust_level
    }

    pub fn trusting_period(&self) -> (r: Duration)
        ensures
            r == self@.trusting_period,
    {
        self.trusting_period
    }

    pub fn unbonding_period(&self) -> (r: Duration)
        ensures
            r == self@.unbonding_period,
    {
        self.unbonding_period
    }

    pub fn max_clock_drift(&self) -> (r: Duration)
        ensures
            r == self@.max_clock_drift,
    {
        self.max_clock_drift
    }

    pub fn frozen_height(&self) -> (r: Option<Height>)
        ensures
            r == self@.frozen_height,
    {
        self.frozen_height
    }

    pub fn is_frozen(&self) -> (r: bool)
        ensures
            r == self@.is_frozen(),
    {
        self.frozen_height.is_some()
    }

    pub fn allow_update_after_expiry(&self) -> (r: bool)
        ensures
            r == self@.allow_update_after_expiry,
    {
        self.allow_update_after_expiry
    }

    pub fn allow_update_after_misbehaviour(&self) -> (r: bool)
        ensures
            r == self@.allow_update_after_misbehaviour,
    {
        self.allow_update_after_misbehaviour
    }

    pub fn proof_specs(&self) -> (r: &Vec<Vec<u8>>)
        ensures
            byte_strings(r@) == self@.proof_specs,
    {
        &self.proof_specs
    }

    pub fn upgrade_path(&self) -> (r: &Vec<String>)
        ensures
            strings(r@) == self@.upgrade_path,
    {
        &self.upgrade_path
    }

    /// A copy of the client with the latest height and the frozen height
    /// given.
    fn copy_with(&self, latest_height: Height, frozen_height: Option<Height>) -> (r: ClientState)
        requires
            latest_height.revision_number == self.latest_height.revision_number,
        ensures
            r@ == (ClientStateView { latest_height, frozen_height, ..self@ }),
    {
        proof {
            use_type_invariant(self);
        }
        ClientState {
            chain_id: self.chain_id.clone(),
            trust_level: self.trust_level,
            trusting_period: self.trusting_period,
            unbonding_period: self.unbonding_period,
            max_clock_drift: self.max_clock_drift,
            latest_height,
            proof_specs: byte_strings_clone(&self.proof_specs),
            upgrade_path: strings_clone(&self.upgrade_path),
            frozen_height,
            allow_update_after_expiry: self.allow_update_after_expiry,
            allow_update_after_misbehaviour: self.allow_update_after_misbehaviour,
        }
    }

    /// The same client with its latest height raised to `height`, where that
    /// is above it.
    pub fn with_height(&self, height: Height) -> (r: ClientState)
        requires
            height.revision_number == self@.latest_height.revision_number,
        ensures
            r@ == (ClientStateView {
                latest_height: if self@.latest_height.lt(height) {
                    height
                } else {
                    self@.latest_height
                },
                ..self@
            }),
    {
        self.copy_with(self.latest_height.max(height), self.frozen_height)
    }

    /// The same client, frozen at `height`.
    pub fn with_frozen_height(&self, height: Height) -> (r: ClientState)
        ensures
            r@ == (ClientStateView { frozen_height: Some(height), ..self@ }),
    {
        self.copy_with(self.latest_height, Some(height))
    }

    /// The same client without a frozen height.
    pub fn unfrozen(&self) -> (r: ClientState)
        ensures
            r@ == (ClientStateView { frozen_height: None, ..self@ }),
    {
        self.copy_with(self.latest_height, None)
    }

    /// Checks how a header is placed relative to the client and to the
    /// trusted consensus state.
    pub(crate) fn check_placement(&self, header: &Header, trusted: &ConsensusState) -> (r: Result<
        (),
        ClientError,
    >)
        ensures
            match placement_fault(self@, header@, trusted@) {
                Some(e) => r == Err::<(), ClientError>(e),
                None => r.is_ok(),
            },
    {
        if !header.chain_id().same(&self.chain_id) {
            return Err(ClientError::InvalidHeader);
        }
        if !header.trusted_height().is_lt(&header.height()) {
            return Err(ClientError::NonMonotonicHeader);
        }
        if header.time().nanos <= trusted.timestamp.nanos {
            return Err(ClientError::NonMonotonicHeader);
        }
        Ok(())
    }

    /// Checks a header against the host's clock.
    fn check_clock(&self, header: &Header, trusted: &ConsensusState, now: Timestamp) -> (r:
        Result<(), ClientError>)
        ensures
            match clock_fault(self@, header@, trusted@, now) {
                Some(e) => r == Err::<(), ClientError>(e),
                None => r.is_ok(),
            },
    {
        if !now.plus_is_after(self.max_clock_drift, &header.time()) {
            return Err(ClientError::HeaderInTheFuture);
        }
        if !trusted.timestamp.plus_is_after(self.trusting_period, &now) {
            return Err(ClientError::HeaderInThePast);
        }
        Ok(())
    }

    /// Checks that the trusted next validator set that came with a header
    /// hashes to what the trusted consensus state holds.
    pub(crate) fn check_trusted_set(&self, header: &Header, trusted: &ConsensusState) -> (r:
        Result<(), ClientError>)
        ensures
            match trusted_set_fault(header@, trusted@) {
                Some(e) => r == Err::<(), ClientError>(e),
                None => r.is_ok(),
            },
    {
        if !bytes_eq(header.trusted_next_validator_set_hash(), &trusted.next_validators_hash) {
            return Err(ClientError::TrustedValidatorSetMismatch);
        }
        Ok(())
    }

    /// Checks a header's own hashes against each other and against the
    /// trusted consensus state.
    pub(crate) fn check_own_hashes(&self, header: &Header, trusted: &ConsensusState) -> (r:
        Result<(), ClientError>)
        ensures
            match own_hash_fault(header@, trusted@) {
                Some(e) => r == Err::<(), ClientError>(e),
                None => r.is_ok(),
            },
    {
        if !bytes_eq(header.validators_hash(), header.validator_set_hash())
            || header.next_validators_hash().len() == 0 {
            return Err(ClientError::InvalidHeader);
        }
        let adjacent = header.is_adjacent();
        if adjacent && !bytes_eq(header.validators_hash(), &trusted.next_validators_hash) {
            return Err(ClientError::InvalidHeader);
        }
        Ok(())
    }

    /// Checks the hashes of a header: the trusted next validator set first,
    /// then the header's own.
    pub(crate) fn check_hashes(&self, header: &Header, trusted: &ConsensusState) -> (r: Result<
        (),
        ClientError,
    >)
        ensures
            match hash_fault(header@, trusted@) {
                Some(e) => r == Err::<(), ClientError>(e),
                None => r.is_ok(),
            },
    {
        self.check_trusted_set(header, trusted)?;
        self.check_own_hashes(header, trusted)
    }

    /// Has the signatures of a header's commit checked: see
    /// `commit_outcome`.
    pub(crate) fn check_commit(&self, header: &Header) -> (r: Result<(), ClientError>)
        ensures
            r == commit_outcome(self@.trust_level, *header),
    {
        let sets = verify_validator_sets(header.signed_header(), header.validator_set());
        verdict_result(verdict_kind(&sets))?;
        let adjacent = header.is_adjacent();
        if adjacent {
            let overlap = signers_overlap(header.signed_header(), header.validator_set());
            verdict_result(verdict_kind(&overlap))
        } else {
            let level = self.trust_level();
            let power = total_power(header.trusted_next_validator_set());
            let evaluable = level.numerator <= level.denominator && level.numerator <= u64::MAX
                / 3 && (power == 0 || level.denominator <= u64::MAX / power);
            assert(evaluable == threshold_evaluable(
                level.numerator,
                level.denominator,
                power,
            )) by (nonlinear_arith)
                requires
                    evaluable == (level.numerator <= level.denominator && level.numerator
                        <= u64::MAX / 3 && (power == 0 || level.denominator <= u64::MAX / power)),
            ;
            if !evaluable {
                return Err(ClientError::InsufficientVotingPower);
            }
            let kind = match validators_and_signers_overlap(
                header.signed_header(),
                header.trusted_next_validator_set(),
                level.numerator,
                level.denominator,
                header.validator_set(),
            ) {
                Some(overlap) => Some(verdict_kind(&overlap)),
                None => None,
            };
            overlap_result(kind)
        }
    }

    /// Verifies a header of an update against the consensus state at its
    /// trusted height and the host time `now`.
    ///
    /// The header is refused with the first fault that `header_fault`
    /// finds. Where there is none, the checks of the commit decide: the
    /// result is `commit_outcome`.
    /// An accepted header is later than the trusted state and earlier than
    /// the host time plus the clock drift, and the trusted state is younger
    /// than the trusting period.
    pub fn verify_header(&self, header: &Header, trusted: &ConsensusState, now: Timestamp) -> (r:
        Result<(), ClientError>)
        ensures
            header_fault(self@, header@, trusted@, now) matches Some(e) ==> r == Err::<
                (),
                ClientError,
            >(e),
            header_fault(self@, header@, trusted@, now).is_none() ==> r == commit_outcome(
                self@.trust_level,
                *header,
            ),
            r.is_ok() ==> trusted@.timestamp.nanos < header@.time.nanos < now.nanos
                + self@.max_clock_drift.nanos && now.nanos - trusted@.timestamp.nanos
                < self@.trusting_period.nanos,
    {
        self.check_placement(header, trusted)?;
        self.check_clock(header, trusted, now)?;
        self.check_hashes(header, trusted)?;
        self.check_commit(header)
    }
}

impl Clone for ClientState {
    fn clone(&self) -> (r: ClientState)
        ensures
            r@ == self@,
    {
        self.copy_with(self.latest_height, self.frozen_height)
    }
}

/// What the check of a commit against the trusted validators amounts to
/// for the client: where the trust level was refused as a threshold, and so
/// no check was made, the header is invalid; else the outcome of the check.
pub open spec fn overlap_outcome(kind: Option<VerdictKind>) -> Result<(), ClientError> {
    match kind {
        Some(kind) => verdict_outcome(kind),
        None => Err(ClientError::InvalidHeader),
    }
}

/// Turns the outcome of the check of a commit against the trusted
/// validators, if it was made, into the client's result.
pub fn overlap_result(kind: Option<VerdictKind>) -> (r: Result<(), ClientError>)
    ensures
        r == overlap_outcome(kind),
{
    match kind {
        Some(kind) => verdict_result(kind),
        None => Err(ClientError::InvalidHeader),
    }
}

} // verus!
