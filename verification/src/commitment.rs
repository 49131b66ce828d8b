//! Proofs that a value is committed under a root: chains of ICS-23
//! existence proofs, checked by the `ics23` crate.

use vstd::prelude::*;

use ics23::{CommitmentProof, HostFunctionsManager, ProofSpec};
use prost::Message;

use crate::bytes::{byte_strings, bytes_clone, bytes_eq};
use crate::error::ClientError;

verus! {

/// One proof of a chain, as ICS-23 defines it. Its contents are not visible
/// to proofs.
#[verifier::external_type_specification]
#[verifier::external_body]
pub struct ExCommitmentProof(CommitmentProof);

/// The shape that the proofs of one kind of tree must have, as ICS-23
/// defines it. Its contents are not visible to proofs.
#[verifier::external_type_specification]
#[verifier::external_body]
pub struct ExProofSpec(ProofSpec);

/// What the checks of ICS-23 read in the inner spec of a proof spec.
#[derive(Clone, Copy, Debug, PartialEq, Eq, Structural)]
pub struct InnerSpecFacts {
    /// The number of entries of the field `child_order`.
    pub children: u64,
    /// The field `child_size`.
    pub child_size: i32,
    /// The field `max_prefix_length`.
    pub max_prefix_length: i32,
}

/// What `decode_merkle_proof` makes of bytes.
pub uninterp spec fn decoded_merkle_proof(bytes: Seq<u8>) -> Option<Seq<CommitmentProof>>;

/// What `decode_proof_spec` makes of bytes.
pub uninterp spec fn decoded_proof_spec(bytes: Seq<u8>) -> Option<ProofSpec>;

/// What `read_inner_spec` reads in a proof spec.
pub uninterp spec fn inner_spec_facts(spec: ProofSpec) -> Option<InnerSpecFacts>;

/// What `existence_root` computes for a proof.
pub uninterp spec fn proof_root(proof: CommitmentProof) -> Option<Seq<u8>>;

/// What `membership_holds` finds of a proof, a spec, a root, a key and a
/// value.
pub uninterp spec fn proves_membership(
    proof: CommitmentProof,
    spec: ProofSpec,
    root: Seq<u8>,
    key: Seq<u8>,
    value: Seq<u8>,
) -> bool;

/// Whether the checks of ICS-23 can compute with an inner spec within 32
/// bits: it names at least one child, and the bytes of all children but one
/// together with the longest prefix stay within range. A proof spec without
/// inner spec is refused by those checks before they compute.
pub open spec fn spec_computable(facts: Option<InnerSpecFacts>) -> bool {
    match facts {
        Some(inner) => {
            &&& 1 <= inner.children <= i32::MAX
            &&& i32::MIN <= (inner.children - 1) * inner.child_size <= i32::MAX
            &&& i32::MIN <= inner.max_prefix_length + (inner.children - 1) * inner.child_size
                <= i32::MAX
        },
        None => true,
    }
}

/// `Message::decode` of prost, on the wire form of a `MerkleProof`: the
/// proofs of the chain, from the leaf to the root; `None` where the bytes
/// are no such message. The result is a function of the bytes alone.
#[verifier::external_body]
fn decode_merkle_proof(bytes: &[u8]) -> (r: Option<Vec<CommitmentProof>>)
    ensures
        match r {
            Some(proofs) => decoded_merkle_proof(bytes@) == Some(proofs@),
            None => decoded_merkle_proof(bytes@).is_none(),
        },
{
    let decoded = ibc_proto::ibc::core::commitment::v1::MerkleProof::decode(bytes);
    decoded.ok().map(|merkle| merkle.proofs)
}

/// `Message::decode` of prost, on the wire form of a `ProofSpec`; `None`
/// where the bytes are no such message. The result is a function of the
/// bytes alone.
#[verifier::external_body]
fn decode_proof_spec(bytes: &[u8]) -> (r: Option<ProofSpec>)
    ensures
        r == decoded_proof_spec(bytes@),
{
    ProofSpec::decode(bytes).ok()
}

/// Reads out of a proof spec the fields of its inner spec that
/// `InnerSpecFacts` names; `None` where it has no inner spec.
#[verifier::external_body]
fn read_inner_spec(spec: &ProofSpec) -> (r: Option<InnerSpecFacts>)
    ensures
        r == inner_spec_facts(*spec),
{
    spec.inner_spec.as_ref().map(
        |inner|
            InnerSpecFacts {
                children: inner.child_order.len() as u64,
                child_size: inner.child_size,
                max_prefix_length: inner.max_prefix_length,
            },
    )
}

/// `ics23::calculate_existence_root`, with the host functions of the crate:
/// the root that an existence proof leads to; `None` where the proof is of
/// another kind, or the root cannot be computed. The result is a function
/// of the proof alone.
#[verifier::external_body]
fn existence_root(proof: &CommitmentProof) -> (r: Option<Vec<u8>>)
    ensures
        match r {
            Some(root) => proof_root(*proof) == Some(root@),
            None => proof_root(*proof).is_none(),
        },
{
    match &proof.proof {
        Some(ics23::commitment_proof::Proof::Exist(existence)) => {
            ics23::calculate_existence_root::<HostFunctionsManager>(existence).ok()
        },
        _ => None,
    }
}

/// `ics23::verify_membership`, with the host functions of the crate:
/// whether the proof shows, in the shape that the spec demands, that `value`
/// stands under `key` in the tree with the given root. The result is a
/// function of the arguments alone. The spec must be one that the checks
/// can compute with: its inner spec names a child, and its sizes stay
/// within 32 bits.
#[verifier::external_body]
fn membership_holds(
    proof: &CommitmentProof,
    spec: &ProofSpec,
    root: &Vec<u8>,
    key: &[u8],
    value: &[u8],
) -> (r: bool)
    requires
        spec_computable(inner_spec_facts(*spec)),
    ensures
        r == proves_membership(*proof, *spec, root@, key@, value@),
{
    ics23::verify_membership::<HostFunctionsManager>(proof, spec, root, key, value)
}

/// Whether a chain of proofs can be checked at all: there is a root, a
/// value, and as many specs as keys, and at least one.
pub open spec fn membership_checkable(
    specs: Seq<Seq<u8>>,
    root: Seq<u8>,
    keys: Seq<Seq<u8>>,
    value: Seq<u8>,
) -> bool {
    root.len() > 0 && value.len() > 0 && keys.len() > 0 && specs.len() == keys.len()
}

/// The root that one proof of a chain leads to from a value under a key,
/// where the proof holds: the spec must decode and be one that the checks
/// can compute with, the proof must lead to a root, and it must show that
/// the value stands under the key in the tree with that root.
pub open spec fn step_root(
    proof: CommitmentProof,
    spec: Seq<u8>,
    key: Seq<u8>,
    value: Seq<u8>,
) -> Option<Seq<u8>> {
    match (decoded_proof_spec(spec), proof_root(proof)) {
        (Some(decoded), Some(root)) => {
            if spec_computable(inner_spec_facts(decoded)) && proves_membership(
                proof,
                decoded,
                root,
                key,
                value,
            ) {
                Some(root)
            } else {
                None
            }
        },
        _ => None,
    }
}

/// The root that the first `steps` proofs of a chain lead to from a value,
/// where each of them holds. The proofs and specs run from the leaf to the
/// root, the keys from the root to the leaf.
pub open spec fn climbed(
    proofs: Seq<CommitmentProof>,
    specs: Seq<Seq<u8>>,
    keys: Seq<Seq<u8>>,
    value: Seq<u8>,
    steps: nat,
) -> Option<Seq<u8>>
    decreases steps,
{
    if steps == 0 {
        Some(value)
    } else {
        match climbed(proofs, specs, keys, value, (steps - 1) as nat) {
            Some(below) => step_root(
                proofs[steps - 1],
                specs[steps - 1],
                keys[keys.len() - steps],
                below,
            ),
            None => None,
        }
    }
}

/// Whether a chain of proofs shows that a value is committed under a root
/// at a path of keys: the chain can be checked at all, the proof decodes to
/// as many proofs as there are keys, every proof holds for the value that
/// the proof below it led to, and the last leads to the root.
pub open spec fn membership_proved(
    proof: Seq<u8>,
    specs: Seq<Seq<u8>>,
    root: Seq<u8>,
    keys: Seq<Seq<u8>>,
    value: Seq<u8>,
) -> bool {
    &&& membership_checkable(specs, root, keys, value)
    &&& decoded_merkle_proof(proof) matches Some(proofs) && proofs.len() == keys.len()
        && climbed(proofs, specs, keys, value, proofs.len()) == Some(root)
}

/// Checks that `value` is committed under `root` at the path `keys`.
///
/// `keys` runs from the root to the leaf; the proofs in `proof` and the
/// `specs` run from the leaf to the root. The check succeeds exactly where
/// `membership_proved` holds; every refusal is `InvalidProof`.
pub fn verify_membership(
    proof: &Vec<u8>,
    specs: &Vec<Vec<u8>>,
    root: &Vec<u8>,
    keys: &Vec<Vec<u8>>,
    value: &Vec<u8>,
) -> (r: Result<(), ClientError>)
    ensures
        r.is_ok() == membership_proved(
            proof@,
            byte_strings(specs@),
            root@,
            byte_strings(keys@),
            value@,
        ),
        r matches Err(e) ==> e == ClientError::InvalidProof,
{
    if root.len() == 0 || value.len() == 0 || keys.len() == 0 || specs.len() != keys.len() {
        return Err(ClientError::InvalidProof);
    }
    let proofs = match decode_merkle_proof(proof.as_slice()) {
        Some(proofs) => proofs,
        None => {
            return Err(ClientError::InvalidProof);
        },
    };
    if proofs.len() != keys.len() {
        return Err(ClientError::InvalidProof);
    }
    let count = proofs.len();
    let ghost all_specs = byte_strings(specs@);
    let ghost all_keys = byte_strings(keys@);
    let mut current = bytes_clone(value);
    let mut i: usize = 0;
    while i < count
        invariant
            i <= count,
            count == proofs.len(),
            count == keys.len(),
            count == specs.len(),
            all_specs == byte_strings(specs@),
            all_keys == byte_strings(keys@),
            root.len() > 0,
            value.len() > 0,
            decoded_merkle_proof(proof@) == Some(proofs@),
            climbed(proofs@, all_specs, all_keys, value@, i as nat) == Some(current@),
        decreases count - i,
    {
        let ghost below = current@;
        assert(all_specs[i as int] == specs@[i as int]@);
        assert(all_keys[count - 1 - i] == keys@[count - 1 - i]@);
        let spec = match decode_proof_spec(specs[i].as_slice()) {
            Some(spec) => spec,
            None => {
                proof {
                    lemma_climb_stops(
                        proofs@,
                        all_specs,
                        all_keys,
                        value@,
                        (i + 1) as nat,
                        count as nat,
                    );
                }
                return Err(ClientError::InvalidProof);
            },
        };
        let computable = match read_inner_spec(&spec) {
            Some(inner) => computable_inner(&inner),
            None => true,
        };
        if !computable {
            proof {
                lemma_climb_stops(
                    proofs@,
                    all_specs,
                    all_keys,
                    value@,
                    (i + 1) as nat,
                    count as nat,
                );
            }
            return Err(ClientError::InvalidProof);
        }
        let subroot = match existence_root(&proofs[i]) {
            Some(subroot) => subroot,
            None => {
                proof {
                    lemma_climb_stops(
                        proofs@,
                        all_specs,
                        all_keys,
                        value@,
                        (i + 1) as nat,
                        count as nat,
                    );
                }
                return Err(ClientError::InvalidProof);
            },
        };
        let key = &keys[count - 1 - i];
        if !membership_holds(&proofs[i], &spec, &subroot, key.as_slice(), current.as_slice()) {
            proof {
                lemma_climb_stops(
                    proofs@,
                    all_specs,
                    all_keys,
                    value@,
                    (i + 1) as nat,
                    count as nat,
                );
            }
            return Err(ClientError::InvalidProof);
        }
        current = subroot;
        i += 1;
    }
    if bytes_eq(root, &current) {
        Ok(())
    } else {
        Err(ClientError::InvalidProof)
    }
}

/// Decides whether the checks of ICS-23 can compute with an inner spec.
fn computable_inner(inner: &InnerSpecFacts) -> (r: bool)
    ensures
        r == spec_computable(Some(*inner)),
{
    if inner.children < 1 || inner.children > 0x7fff_ffff {
        return false;
    }
    let others: i128 = (inner.children - 1) as i128;
    let size: i128 = inner.child_size as i128;
    assert(-0x4000_0000_0000_0000 <= others * size <= 0x4000_0000_0000_0000) by (nonlinear_arith)
        requires
            0 <= others <= 0x7fff_ffff,
            -0x8000_0000 <= size <= 0x7fff_ffff,
    ;
    let left: i128 = others * size;
    if left < -0x8000_0000 || left > 0x7fff_ffff {
        return false;
    }
    let longest: i128 = inner.max_prefix_length as i128 + left;
    -0x8000_0000 <= longest && longest <= 0x7fff_ffff
}

/// A chain in which one proof does not hold leads nowhere, however many
/// proofs follow.
proof fn lemma_climb_stops(
    proofs: Seq<CommitmentProof>,
    specs: Seq<Seq<u8>>,
    keys: Seq<Seq<u8>>,
    value: Seq<u8>,
    failed: nat,
    steps: nat,
)
    requires
        failed <= steps,
        climbed(proofs, specs, keys, value, failed).is_none(),
    ensures
        climbed(proofs, specs, keys, value, steps).is_none(),
    decreases steps,
{
    if failed < steps {
        lemma_climb_stops(proofs, specs, keys, value, failed, (steps - 1) as nat);
    }
}

} // verus!
