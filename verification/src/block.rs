//! The boundary to the Tendermint crates: the block types that are carried
//! through, the values read out of them, and the checks on commits that only
//! those crates can make. Nothing in this file is proved; each item says
//! what it takes from the code it calls.

use vstd::prelude::*;

use tendermint::block::signed_header::SignedHeader;
use tendermint::trust_threshold::TrustThresholdFraction;
use tendermint::validator;
use tendermint_light_client_verifier::errors::VerificationErrorDetail;
use tendermint_light_client_verifier::operations::ProdVotingPowerCalculator;
use tendermint_light_client_verifier::predicates::{ProdPredicates, VerificationPredicates};
use tendermint_light_client_verifier::types::UntrustedBlockState;
use tendermint_light_client_verifier::{ProdVerifier, Verdict};

verus! {

/// A block header together with the commit that signs it, as Tendermint
/// defines it. Its contents are not visible to proofs.
#[verifier::external_type_specification]
#[verifier::external_body]
pub struct ExSignedHeader(SignedHeader);

/// A validator set, as Tendermint defines it. Its contents are not visible
/// to proofs.
#[verifier::external_type_specification]
#[verifier::external_body]
pub struct ExValidatorSet(validator::Set);

/// The outcome of a check of the Tendermint light client verifier. Its
/// contents are not visible to proofs; `verdict_kind` classifies it.
#[verifier::external_type_specification]
#[verifier::external_body]
pub struct ExVerdict(Verdict);

/// How a check of a commit ended.
#[derive(Clone, Copy, Debug, PartialEq, Eq, Structural, Hash)]
pub enum VerdictKind {
    /// The check passed.
    Success,
    /// Too little of the trusted validators' power signed the commit.
    NotEnoughTrust,
    /// Not more than two thirds of the block's own validators signed.
    InsufficientSigners,
    /// The block or its commit is invalid in another way.
    Invalid,
}

/// What the client's rules read in a signed header.
#[derive(Debug)]
pub struct BlockFacts {
    /// The field `header.chain_id`.
    pub chain_id: String,
    /// The field `header.height`.
    pub height: u64,
    /// The field `header.time`, in nanoseconds since the Unix epoch.
    pub time: u64,
    /// The field `commit.block_id.hash`: the hash of the block that the
    /// commit signs.
    pub block_hash: Vec<u8>,
    /// The field `header.app_hash`.
    pub app_hash: Vec<u8>,
    /// The field `header.validators_hash`.
    pub validators_hash: Vec<u8>,
    /// The field `header.next_validators_hash`.
    pub next_validators_hash: Vec<u8>,
}

/// The mathematical value of what is read in a signed header.
pub struct BlockFactsView {
    pub chain_id: Seq<char>,
    pub height: u64,
    pub time: u64,
    pub block_hash: Seq<u8>,
    pub app_hash: Seq<u8>,
    pub validators_hash: Seq<u8>,
    pub next_validators_hash: Seq<u8>,
}

impl View for BlockFacts {
    type V = BlockFactsView;

    open spec fn view(&self) -> BlockFactsView {
        BlockFactsView {
            chain_id: self.chain_id@,
            height: self.height,
            time: self.time,
            block_hash: self.block_hash@,
            app_hash: self.app_hash@,
            validators_hash: self.validators_hash@,
            next_validators_hash: self.next_validators_hash@,
        }
    }
}

/// What `read_signed_header` reads in a signed header.
pub uninterp spec fn block_facts(block: SignedHeader) -> Option<BlockFactsView>;

/// What `checked_validator_set` makes of a validator set.
pub uninterp spec fn admitted_set(validators: validator::Set) -> Option<validator::Set>;

/// What `validator_set_hash` gives for a validator set.
pub uninterp spec fn set_hash(validators: validator::Set) -> Seq<u8>;

/// What `total_power` gives for a validator set.
pub uninterp spec fn set_power(validators: validator::Set) -> u64;

/// What `verify_validator_sets` finds of a block and its validators.
pub uninterp spec fn sets_verdict(block: SignedHeader, validators: validator::Set) -> Verdict;

/// What `signers_overlap` finds of a block and its validators.
pub uninterp spec fn signers_verdict(block: SignedHeader, validators: validator::Set) -> Verdict;

/// What `validators_and_signers_overlap` finds of a block, the trusted
/// validators, a trust threshold and the block's validators.
pub uninterp spec fn trusted_verdict(
    block: SignedHeader,
    trusted: validator::Set,
    numerator: u64,
    denominator: u64,
    validators: validator::Set,
) -> Option<Verdict>;

/// What `verdict_kind` makes of a verdict.
pub uninterp spec fn verdict_class(verdict: Verdict) -> VerdictKind;

/// Whether a validator set is one that Tendermint's decoder has admitted:
/// its voting powers sum to no more than `Set::MAX_TOTAL_VOTING_POWER`, and
/// to the total that the set states.
pub open spec fn admitted(validators: validator::Set) -> bool {
    exists|given: validator::Set| admitted_set(given) == Some(validators)
}

/// Whether a trust threshold can be evaluated against a trusted set of
/// the given total power without leaving 64 bits: the numerator is not
/// above the denominator, three times the numerator fit, and so does the
/// product of the power and the denominator.
pub open spec fn threshold_evaluable(numerator: u64, denominator: u64, power: u64) -> bool {
    numerator <= denominator && 3 * numerator <= u64::MAX && power * denominator <= u64::MAX
}

/// Reads out of a signed header the fields that `BlockFacts` names, each as
/// a plain value: the chain identifier through `chain::Id::as_str`, the
/// height through `Height::value`, the time through
/// `Time::unix_timestamp_nanos`, the hashes through `as_bytes`. `None` where
/// the time does not fit a `u64`. The result is a function of the signed
/// header alone.
#[verifier::external_body]
pub(crate) fn read_signed_header(signed_header: &SignedHeader) -> (r: Option<BlockFacts>)
    ensures
        match r {
            Some(facts) => block_facts(*signed_header) == Some(facts@),
            None => block_facts(*signed_header).is_none(),
        },
{
    let header = &signed_header.header;
    Some(
        BlockFacts {
            chain_id: header.chain_id.as_str().to_string(),
            height: header.height.value(),
            time: u64::try_from(header.time.unix_timestamp_nanos()).ok()?,
            block_hash: signed_header.commit.block_id.hash.as_bytes().to_vec(),
            app_hash: header.app_hash.as_bytes().to_vec(),
            validators_hash: header.validators_hash.as_bytes().to_vec(),
            next_validators_hash: header.next_validators_hash.as_bytes().to_vec(),
        },
    )
}

/// `Set::try_from`, on the wire form that `RawValidatorSet::from` gives of
/// the validator set: the set as Tendermint's own decoder admits it, with
/// its validators in their canonical order; `None` where the decoder
/// refuses it, as it does where the voting powers sum to more than
/// `Set::MAX_TOTAL_VOTING_POWER` or not to the total that the set states.
/// The result is a function of the set alone.
#[verifier::external_body]
pub(crate) fn checked_validator_set(validators: validator::Set) -> (r: Option<validator::Set>)
    ensures
        r == admitted_set(validators),
{
    validator::Set::try_from(tendermint_proto::types::ValidatorSet::from(validators)).ok()
}

/// `Set::hash`: the Merkle hash of a validator set, a function of the set
/// alone.
#[verifier::external_body]
pub(crate) fn validator_set_hash(validators: &validator::Set) -> (r: Vec<u8>)
    ensures
        r@ == set_hash(*validators),
{
    validators.hash().as_bytes().to_vec()
}

/// `Set::total_voting_power`: the total voting power that a validator set
/// states. In a set that the decoder has admitted it is the sum of the
/// validators' powers.
#[verifier::external_body]
pub(crate) fn total_power(validators: &validator::Set) -> (r: u64)
    ensures
        r == set_power(*validators),
{
    validators.total_voting_power().value()
}

/// `PredicateVerifier::verify_validator_sets`, on the production verifier:
/// the validator set hashes to the header's `validators_hash`, the header
/// hashes to the block id of the commit, and the commit is well-formed for
/// the validator set. No next validator set is handed over. The verdict is
/// a function of the block and the validator set alone.
#[verifier::external_body]
pub(crate) fn verify_validator_sets(
    signed_header: &SignedHeader,
    validators: &validator::Set,
) -> (r: Verdict)
    ensures
        r == sets_verdict(*signed_header, *validators),
{
    let untrusted = UntrustedBlockState { signed_header, validators, next_validators: None };
    ProdVerifier::default().verify_validator_sets(&untrusted)
}

/// `VerificationPredicates::has_sufficient_signers_overlap`, on the
/// production predicates and voting power calculator: more than two thirds
/// of the voting power of `validators` signed the commit validly. The
/// verdict is a function of the block and the validator set alone. The set
/// must be one that the decoder has admitted: then the sums and products
/// of the tally stay within `u64`.
#[verifier::external_body]
pub(crate) fn signers_overlap(
    signed_header: &SignedHeader,
    validators: &validator::Set,
) -> (r: Verdict)
    requires
        admitted(*validators),
    ensures
        r == signers_verdict(*signed_header, *validators),
{
    let calculator = ProdVotingPowerCalculator::default();
    Verdict::from(
        ProdPredicates.has_sufficient_signers_overlap(signed_header, validators, &calculator),
    )
}

/// `VerificationPredicates::has_sufficient_validators_and_signers_overlap`,
/// on the production predicates and voting power calculator, with the trust
/// threshold `numerator / denominator` built by
/// `TrustThresholdFraction::new`: validators of `trusted_validators` holding
/// more than that fraction of its power signed the commit, and more than two
/// thirds of the power of `validators` did. `None` where the fraction is
/// refused as a trust threshold. The verdict is a function of the arguments
/// alone. Both sets must be ones that the decoder has admitted, and the
/// threshold must be evaluable against the trusted set: then the sums and
/// products of the tally stay within `u64`.
#[verifier::external_body]
pub(crate) fn validators_and_signers_overlap(
    signed_header: &SignedHeader,
    trusted_validators: &validator::Set,
    numerator: u64,
    denominator: u64,
    validators: &validator::Set,
) -> (r: Option<Verdict>)
    requires
        admitted(*trusted_validators),
        admitted(*validators),
        threshold_evaluable(numerator, denominator, set_power(*trusted_validators)),
    ensures
        r == trusted_verdict(
            *signed_header,
            *trusted_validators,
            numerator,
            denominator,
            *validators,
        ),
{
    let threshold = TrustThresholdFraction::new(numerator, denominator).ok()?;
    let calculator = ProdVotingPowerCalculator::default();
    Some(
        Verdict::from(
            ProdPredicates.has_sufficient_validators_and_signers_overlap(
                signed_header,
                trusted_validators,
                &threshold,
                validators,
                &calculator,
            ),
        ),
    )
}

/// Tells the variants of a `Verdict` apart, and among the invalid ones the
/// error `InsufficientSignersOverlap` from the rest.
#[verifier::external_body]
pub(crate) fn verdict_kind(verdict: &Verdict) -> (r: VerdictKind)
    ensures
        r == verdict_class(*verdict),
{
    match verdict {
        Verdict::Success => VerdictKind::Success,
        Verdict::NotEnoughTrust(_) => VerdictKind::NotEnoughTrust,
        Verdict::Invalid(VerificationErrorDetail::InsufficientSignersOverlap(_)) => {
            VerdictKind::InsufficientSigners
        },
        Verdict::Invalid(_) => VerdictKind::Invalid,
    }
}

} // verus!
