//! Tendermint headers as a client receives them from a relayer.

use vstd::prelude::*;

use tendermint::block::signed_header::SignedHeader;
use tendermint::validator;

use crate::block::{
    admitted, admitted_set, block_facts, checked_validator_set, read_signed_header, set_hash,
    validator_set_hash, BlockFacts, BlockFactsView,
};
use crate::bytes::bytes_clone;
use crate::consensus_state::{ConsensusState, ConsensusStateView};
use crate::error::ClientError;
use crate::height::Height;
use crate::identifier::{chain_revision, valid_chain_id, ChainId};
use crate::timestamp::Timestamp;

verus! {

/// What the client's rules read in a header.
pub struct HeaderView {
    /// The identifier of the chain that the block belongs to.
    pub chain_id: Seq<char>,
    /// The block's height; its revision is the one that the chain
    /// identifier names.
    pub height: Height,
    /// The block's time.
    pub time: Timestamp,
    /// The hash of the block that the commit signs.
    pub block_hash: Seq<u8>,
    /// The root of the application state.
    pub app_hash: Seq<u8>,
    /// The hash of the block's validators, as the block header states it.
    pub validators_hash: Seq<u8>,
    /// The hash of the next block's validators, as the block header states
    /// it.
    pub next_validators_hash: Seq<u8>,
    /// The hash of the validator set that came with the header.
    pub validator_set_hash: Seq<u8>,
    /// The height of the consensus state that the header builds on.
    pub trusted_height: Height,
    /// The hash of the trusted next validator set that came with the header.
    pub trusted_next_validator_set_hash: Seq<u8>,
}

/// A signed block header with its validator set, the height of the consensus
/// state that it is to be verified against, and the validator set that
/// followed that state.
///
/// The block data is kept as Tendermint defines it; beside it stand the
/// values that were read out of it when the header was built.
#[derive(Debug)]
pub struct Header {
    signed_header: SignedHeader,
    validator_set: validator::Set,
    trusted_next_validator_set: validator::Set,
    chain_id: ChainId,
    height: Height,
    time: Timestamp,
    block_hash: Vec<u8>,
    app_hash: Vec<u8>,
    validators_hash: Vec<u8>,
    next_validators_hash: Vec<u8>,
    validator_set_hash: Vec<u8>,
    trusted_height: Height,
    trusted_next_validator_set_hash: Vec<u8>,
}

impl View for Header {
    type V = HeaderView;

    closed spec fn view(&self) -> HeaderView {
        HeaderView {
            chain_id: self.chain_id@,
            height: self.height,
            time: self.time,
            block_hash: self.block_hash@,
            app_hash: self.app_hash@,
            validators_hash: self.validators_hash@,
            next_validators_hash: self.next_validators_hash@,
            validator_set_hash: self.validator_set_hash@,
            trusted_height: self.trusted_height,
            trusted_next_validator_set_hash: self.trusted_next_validator_set_hash@,
        }
    }
}

/// The consensus state that a header gives rise to: its time, its
/// application root and the hash of its next validators.
pub open spec fn header_consensus_state(h: HeaderView) -> ConsensusStateView {
    ConsensusStateView {
        timestamp: h.time,
        root: h.app_hash,
        next_validators_hash: h.next_validators_hash,
    }
}

/// Whether a header lies directly above the consensus state it builds on.
pub open spec fn is_adjacent(h: HeaderView) -> bool {
    h.height.is_successor_of(h.trusted_height)
}

/// The view of the header that is built from block data, where one is
/// built: the values read in the signed header, the hashes of the two
/// validator sets as Tendermint admits them, and the trusted height. None
/// is built where the signed header cannot be read, a validator set is not
/// admitted, the chain identifier read is not valid, or the height read is
/// zero.
pub open spec fn built_view(
    block: SignedHeader,
    validators: validator::Set,
    trusted_height: Height,
    trusted: validator::Set,
) -> Option<HeaderView> {
    match (block_facts(block), admitted_set(validators), admitted_set(trusted)) {
        (Some(facts), Some(own), Some(followed)) => {
            if valid_chain_id(facts.chain_id) && facts.height != 0 {
                Some(assembled_view(facts, set_hash(own), trusted_height, set_hash(followed)))
            } else {
                None
            }
        },
        _ => None,
    }
}

/// The view of a header put together from the values read in its block
/// and the hashes of its validator sets. The revision of the header's
/// height is the one that the chain identifier names.
pub open spec fn assembled_view(
    facts: BlockFactsView,
    validator_set_hash: Seq<u8>,
    trusted_height: Height,
    trusted_next_validator_set_hash: Seq<u8>,
) -> HeaderView {
    HeaderView {
        chain_id: facts.chain_id,
        height: Height {
            revision_number: chain_revision(facts.chain_id),
            revision_height: facts.height,
        },
        time: Timestamp { nanos: facts.time },
        block_hash: facts.block_hash,
        app_hash: facts.app_hash,
        validators_hash: facts.validators_hash,
        next_validators_hash: facts.next_validators_hash,
        validator_set_hash,
        trusted_height,
        trusted_next_validator_set_hash,
    }
}

impl Header {
    #[verifier::type_invariant]
    spec fn well_formed(self) -> bool {
        admitted(self.validator_set) && admitted(self.trusted_next_validator_set)
    }

    /// Builds a header from block data. The values that the rules read are
    /// taken from the block data here, once, and the validator sets are
    /// kept as Tendermint's decoder admits them: no header holds a
    /// validator set whose voting power is beyond Tendermint's bound.
    ///
    /// The header is refused as invalid exactly where `built_view` gives
    /// none. Else the header has that view, and carries the signed header
    /// and the two admitted validator sets.
    pub fn new(
        signed_header: SignedHeader,
        validator_set: validator::Set,
        trusted_height: Height,
        trusted_next_validator_set: validator::Set,
    ) -> (r: Result<Header, ClientError>)
        ensures
            match built_view(
                signed_header,
                validator_set,
                trusted_height,
                trusted_next_validator_set,
            ) {
                Some(view) => r.is_ok() && r.unwrap()@ == view && r.unwrap().block()
                    == signed_header && Some(r.unwrap().validators()) == admitted_set(
                    validator_set,
                ) && Some(r.unwrap().trusted()) == admitted_set(trusted_next_validator_set),
                None => r == Err::<Header, ClientError>(ClientError::InvalidHeader),
            },
    {
        let facts = match read_signed_header(&signed_header) {
            Some(facts) => facts,
            None => {
                return Err(ClientError::InvalidHeader);
            },
        };
        let ghost given = validator_set;
        let validator_set = match checked_validator_set(validator_set) {
            Some(set) => set,
            None => {
                return Err(ClientError::InvalidHeader);
            },
        };
        assert(admitted(validator_set)) by {
            assert(admitted_set(given) == Some(validator_set));
        }
        let ghost given_trusted = trusted_next_validator_set;
        let trusted_next_validator_set = match checked_validator_set(trusted_next_validator_set) {
            Some(set) => set,
            None => {
                return Err(ClientError::InvalidHeader);
            },
        };
        assert(admitted(trusted_next_validator_set)) by {
            assert(admitted_set(given_trusted) == Some(trusted_next_validator_set));
        }
        let trusted_next_validator_set_hash = validator_set_hash(&trusted_next_validator_set);
        let validator_set_hash = validator_set_hash(&validator_set);
        Header::assemble(
            signed_header,
            validator_set,
            trusted_height,
            trusted_next_validator_set,
            facts,
            validator_set_hash,
            trusted_next_validator_set_hash,
        )
    }

    /// Puts a header together from block data and the values read out of
    /// it. The header is refused where the chain identifier read is not
    /// valid, or the height read is zero.
    pub(crate) fn assemble(
        signed_header: SignedHeader,
        validator_set: validator::Set,
        trusted_height: Height,
        trusted_next_validator_set: validator::Set,
        facts: BlockFacts,
        validator_set_hash: Vec<u8>,
        trusted_next_validator_set_hash: Vec<u8>,
    ) -> (r: Result<Header, ClientError>)
        requires
            admitted(validator_set),
            admitted(trusted_next_validator_set),
        ensures
            !valid_chain_id(facts.chain_id@) || facts.height == 0 ==> r == Err::<
                Header,
                ClientError,
            >(ClientError::InvalidHeader),
            valid_chain_id(facts.chain_id@) && facts.height != 0 ==> r.is_ok() && r.unwrap()@
                == assembled_view(
                facts@,
                validator_set_hash@,
                trusted_height,
                trusted_next_validator_set_hash@,
            ) && r.unwrap().block() == signed_header && r.unwrap().validators() == validator_set
                && r.unwrap().trusted() == trusted_next_validator_set,
    {
        let chain_id = match ChainId::from_str(facts.chain_id.as_str()) {
            Ok(c) => c,
            Err(_) => {
                return Err(ClientError::InvalidHeader);
            },
        };
        if facts.height == 0 {
            return Err(ClientError::InvalidHeader);
        }
        let height = Height {
            revision_number: chain_id.revision_number(),
            revision_height: facts.height,
        };
        Ok(
            Header {
                signed_header,
                validator_set,
                trusted_next_validator_set,
                chain_id,
                height,
                time: Timestamp { nanos: facts.time },
                block_hash: facts.block_hash,
                app_hash: facts.app_hash,
                validators_hash: facts.validators_hash,
                next_validators_hash: facts.next_validators_hash,
                validator_set_hash,
                trusted_height,
                trusted_next_validator_set_hash,
            },
        )
    }

    pub fn height(&self) -> (r: Height)
        ensures
            r == self@.height,
    {
        self.height
    }

    /// Whether the header lies directly above the consensus state it
    /// builds on.
    pub fn is_adjacent(&self) -> (r: bool)
        ensures
            r == is_adjacent(self@),
    {
        self.height.revision_number == self.trusted_height.revision_number
            && self.trusted_height.revision_height < u64::MAX && self.height.revision_height
            == self.trusted_height.revision_height + 1
    }

    pub fn trusted_height(&self) -> (r: Height)
        ensures
            r == self@.trusted_height,
    {
        self.trusted_height
    }

    pub fn time(&self) -> (r: Timestamp)
        ensures
            r == self@.time,
    {
        self.time
    }

    pub fn chain_id(&self) -> (r: &ChainId)
        ensures
            r@ == self@.chain_id,
    {
        &self.chain_id
    }

    pub fn block_hash(&self) -> (r: &Vec<u8>)
        ensures
            r@ == self@.block_hash,
    {
        &self.block_hash
    }

    pub fn validators_hash(&self) -> (r: &Vec<u8>)
        ensures
            r@ == self@.validators_hash,
    {
        &self.validators_hash
    }

    pub fn next_validators_hash(&self) -> (r: &Vec<u8>)
        ensures
            r@ == self@.next_validators_hash,
    {
        &self.next_validators_hash
    }

    pub fn validator_set_hash(&self) -> (r: &Vec<u8>)
        ensures
            r@ == self@.validator_set_hash,
    {
        &self.validator_set_hash
    }

    pub fn trusted_next_validator_set_hash(&self) -> (r: &Vec<u8>)
        ensures
            r@ == self@.trusted_next_validator_set_hash,
    {
        &self.trusted_next_validator_set_hash
    }

    /// The signed header that the header carries.
    pub fn signed_header(&self) -> (r: &SignedHeader)
        ensures
            *r == self.block(),
    {
        &self.signed_header
    }

    /// The validator set that the header carries for its own block; it is
    /// one that Tendermint's decoder has admitted.
    pub fn validator_set(&self) -> (r: &validator::Set)
        ensures
            *r == self.validators(),
            admitted(self.validators()),
    {
        proof {
            use_type_invariant(self);
        }
        &self.validator_set
    }

    /// The validator set that the header carries as the one that followed
    /// the consensus state it builds on; it is one that Tendermint's
    /// decoder has admitted.
    pub fn trusted_next_validator_set(&self) -> (r: &validator::Set)
        ensures
            *r == self.trusted(),
            admitted(self.trusted()),
    {
        proof {
            use_type_invariant(self);
        }
        &self.trusted_next_validator_set
    }

    /// The signed header that the header carries, as Tendermint defines it.
    pub closed spec fn block(&self) -> SignedHeader {
        self.signed_header
    }

    /// The validator set that the header carries for its own block, as
    /// Tendermint defines it.
    pub closed spec fn validators(&self) -> validator::Set {
        self.validator_set
    }

    /// The validator set that the header carries as the one that followed
    /// the consensus state it builds on, as Tendermint defines it.
    pub closed spec fn trusted(&self) -> validator::Set {
        self.trusted_next_validator_set
    }

    /// The consensus state that the header gives rise to.
    pub fn consensus_state(&self) -> (r: ConsensusState)
        ensures
            r@ == header_consensus_state(self@),
    {
        ConsensusState {
            timestamp: self.time,
            root: bytes_clone(&self.app_hash),
            next_validators_hash: bytes_clone(&self.next_validators_hash),
        }
    }
}

} // verus!
