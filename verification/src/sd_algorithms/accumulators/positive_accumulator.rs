//! The positive accumulator of `vb_accumulator` over the curve BN254, and the
//! values that it works on. Their types are generic over traits of the curve
//! libraries, which Verus cannot be told about, so each value is held in a
//! structure of this library that hides it. In a specification such a
//! structure stands for the value that it holds: two of them are equal where
//! the values are.

use vstd::prelude::*;
use std::collections::HashSet;
use ark_bn254::{Bn254, Fr, G1Affine};
use ark_ff::PrimeField;
use ark_serialize::{CanonicalDeserialize, CanonicalSerialize, SerializationError};
use ark_std::rand::rngs::StdRng;
use digest::Digest;
use sha2::Sha256;
use vb_accumulator::error::VBAccumulatorError;
use vb_accumulator::positive::{Accumulator, PositiveAccumulator};
use vb_accumulator::setup::{Keypair, PublicKey, SecretKey, SetupParams};
use vb_accumulator::witness::MembershipWitness;
use crate::sd_algorithms::accumulators::csd_jwt::InMemoryState;

verus! {

#[verifier::external_type_specification]
#[verifier::external_body]
pub struct ExVBAccumulatorError(VBAccumulatorError);

#[verifier::external_type_specification]
#[verifier::external_body]
pub struct ExSerializationError(SerializationError);

#[verifier::external_type_specification]
#[verifier::external_body]
pub struct ExStdRng(StdRng);

/// An element of the scalar field of BN254: what a claim is mapped to.
#[verifier::external_body]
pub struct Scalar {
    pub(crate) inner: Fr,
}

/// The value of a positive accumulator.
#[verifier::external_body]
pub struct AccumulatorValue {
    pub(crate) inner: PositiveAccumulator<G1Affine>,
}

/// The witness that an element is a member of an accumulator.
#[verifier::external_body]
pub struct Witness {
    pub(crate) inner: MembershipWitness<G1Affine>,
}

/// The public parameters that an issuer's accumulators start from.
#[verifier::external_body]
pub struct SetupParameters {
    pub(crate) inner: SetupParams<Bn254>,
}

/// The key with which an issuer adds elements and derives witnesses.
#[verifier::external_body]
pub struct IssuerSecretKey {
    pub(crate) inner: SecretKey<Fr>,
}

/// The key with which anyone verifies a witness.
#[verifier::external_body]
pub struct IssuerPublicKey {
    pub(crate) inner: PublicKey<Bn254>,
}

/// The two keys of an issuer.
pub struct IssuerKeypair {
    /// The key that stays with the issuer.
    pub secret_key: IssuerSecretKey,
    /// The key that the issuer hands out.
    pub public_key: IssuerPublicKey,
}

/// The SHA-256 digest of the bytes.
pub uninterp spec fn sha256(bytes: Seq<u8>) -> Seq<u8>;

/// The scalar that big-endian bytes denote, reduced modulo the order of the
/// field.
pub uninterp spec fn reduced_scalar(bytes: Seq<u8>) -> Scalar;

/// The public key that belongs to a secret key under the parameters: the one
/// that `Keypair::generate_using_rng` derives from the secret key that it drew.
pub uninterp spec fn derived_public_key(
    secret_key: IssuerSecretKey,
    params: SetupParameters,
) -> IssuerPublicKey;

/// The accumulator that holds no element yet.
pub uninterp spec fn initial_accumulator(params: SetupParameters) -> AccumulatorValue;

/// The accumulator after a batch of elements is added to it.
pub uninterp spec fn batch_added(
    accumulator: AccumulatorValue,
    elements: Seq<Scalar>,
    key: IssuerSecretKey,
) -> AccumulatorValue;

/// The witnesses of a batch of members of the accumulator, in the order of the
/// members.
pub uninterp spec fn batch_witnesses(
    accumulator: AccumulatorValue,
    members: Seq<Scalar>,
    key: IssuerSecretKey,
) -> Seq<Witness>;

/// Whether the witness proves that the element is a member of the
/// accumulator.
pub uninterp spec fn membership_holds(
    accumulator: AccumulatorValue,
    member: Scalar,
    witness: Witness,
    key: IssuerPublicKey,
    params: SetupParameters,
) -> bool;

/// The compressed canonical bytes of an accumulator, where it can be written.
pub uninterp spec fn compressed_accumulator(accumulator: AccumulatorValue) -> Option<Seq<u8>>;

/// The accumulator that compressed canonical bytes denote, where they denote
/// one.
pub uninterp spec fn decompressed_accumulator(bytes: Seq<u8>) -> Option<AccumulatorValue>;

/// The compressed canonical bytes of a scalar, where it can be written.
pub uninterp spec fn compressed_scalar(scalar: Scalar) -> Option<Seq<u8>>;

/// The scalar that compressed canonical bytes denote, where they denote one.
pub uninterp spec fn decompressed_scalar(bytes: Seq<u8>) -> Option<Scalar>;

/// The compressed canonical bytes of a witness, where it can be written.
pub uninterp spec fn compressed_witness(witness: Witness) -> Option<Seq<u8>>;

/// The witness that compressed canonical bytes denote, where they denote one.
pub uninterp spec fn decompressed_witness(bytes: Seq<u8>) -> Option<Witness>;

/// The JSON text of a public key, where it can be written.
pub uninterp spec fn public_key_json(key: IssuerPublicKey) -> Option<Seq<char>>;

/// The JSON text of a secret key, where it can be written.
pub uninterp spec fn secret_key_json(key: IssuerSecretKey) -> Option<Seq<char>>;

impl Clone for Scalar {
    /// `Clone` of the field element: the same scalar.
    #[verifier::external_body]
    fn clone(&self) -> (copy: Self)
        ensures
            copy == *self,
    {
        Scalar { inner: self.inner }
    }
}

impl PartialEq for Scalar {
    /// `==` of the field elements.
    #[verifier::external_body]
    fn eq(&self, other: &Self) -> (same: bool)
        ensures
            same == (*self == *other),
    {
        self.inner == other.inner
    }
}

impl Eq for Scalar {

}

impl std::hash::Hash for Scalar {
    /// `Hash` of the field element.
    #[verifier::external_body]
    fn hash<H: std::hash::Hasher>(&self, state: &mut H) {
        self.inner.hash(state)
    }
}

/// `Sha256::digest`: the SHA-256 digest of the bytes, 32 bytes long.
#[verifier::external_body]
pub(crate) fn sha256_digest(bytes: &[u8]) -> (digest: Vec<u8>)
    ensures
        digest@ == sha256(bytes@),
        digest@.len() == 32,
{
    Sha256::digest(bytes).to_vec()
}

/// `from_be_bytes_mod_order` of the scalar field: the scalar that the bytes
/// denote as a big-endian number, reduced modulo the order of the field.
#[verifier::external_body]
pub(crate) fn scalar_from_be_bytes(bytes: &[u8]) -> (scalar: Scalar)
    ensures
        scalar == reduced_scalar(bytes@),
{
    Scalar { inner: Fr::from_be_bytes_mod_order(bytes) }
}

/// `SetupParams::generate_using_rng`: parameters drawn from the random source.
#[verifier::external_body]
pub(crate) fn generate_params(rng: &mut StdRng) -> (params: SetupParameters) {
    SetupParameters { inner: SetupParams::<Bn254>::generate_using_rng(rng) }
}

/// `Keypair::generate_using_rng`: a secret key drawn from the random source,
/// and the public key that is derived from it and the parameters. Nothing is
/// said of the secret key.
#[verifier::external_body]
pub(crate) fn generate_keypair(rng: &mut StdRng, params: &SetupParameters) -> (keys: IssuerKeypair)
    ensures
        keys.public_key == derived_public_key(keys.secret_key, *params),
{
    let keys = Keypair::<Bn254>::generate_using_rng(rng, &params.inner);
    IssuerKeypair {
        secret_key: IssuerSecretKey { inner: keys.secret_key.clone() },
        public_key: IssuerPublicKey { inner: keys.public_key.clone() },
    }
}

/// `PositiveAccumulator::initialize`: the accumulator that holds no element,
/// which depends on the parameters alone.
#[verifier::external_body]
pub(crate) fn initialize(params: &SetupParameters) -> (accumulator: AccumulatorValue)
    ensures
        accumulator == initial_accumulator(*params),
{
    AccumulatorValue { inner: PositiveAccumulator::initialize(&params.inner) }
}

/// `PositiveAccumulator::add_batch`: fails, and leaves the state as it is,
/// where the state holds one of the elements; else gives the accumulator with
/// the elements added and puts them into the state.
#[verifier::external_body]
pub(crate) fn add_batch(
    accumulator: &AccumulatorValue,
    elements: &Vec<Scalar>,
    key: &IssuerSecretKey,
    state: &mut InMemoryState<Scalar>,
) -> (added: Result<AccumulatorValue, VBAccumulatorError>)
    ensures
        match added {
            Ok(a) => {
                &&& forall|i: int| 0 <= i < elements@.len() ==> !old(state).db@.contains(elements@[i])
                &&& a == batch_added(*accumulator, elements@, *key)
                &&& final(state).db@ == old(state).db@.union(elements@.to_set())
            },
            Err(_) => {
                &&& exists|i: int| 0 <= i < elements@.len() && old(state).db@.contains(elements@[i])
                &&& final(state).db@ == old(state).db@
            },
        },
{
    let mut inner = InMemoryState { db: state.db.iter().map(|s| s.inner).collect::<HashSet<Fr>>() };
    let elements = elements.iter().map(|s| s.inner).collect();
    let added = accumulator.inner.add_batch(elements, &key.inner, &mut inner);
    state.db = inner.db.into_iter().map(|inner| Scalar { inner }).collect();
    added.map(|inner| AccumulatorValue { inner })
}

/// `get_membership_witnesses_for_batch` of the accumulator: fails where the
/// state lacks one of the members; else gives one witness for each member, in
/// their order.
#[verifier::external_body]
pub(crate) fn membership_witnesses_for_batch(
    accumulator: &AccumulatorValue,
    members: &Vec<Scalar>,
    key: &IssuerSecretKey,
    state: &InMemoryState<Scalar>,
) -> (witnesses: Result<Vec<Witness>, VBAccumulatorError>)
    ensures
        match witnesses {
            Ok(w) => {
                &&& forall|i: int| 0 <= i < members@.len() ==> state.db@.contains(members@[i])
                &&& w@ == batch_witnesses(*accumulator, members@, *key)
                &&& w@.len() == members@.len()
            },
            Err(_) => exists|i: int| 0 <= i < members@.len() && !state.db@.contains(members@[i]),
        },
{
    let inner = InMemoryState { db: state.db.iter().map(|s| s.inner).collect::<HashSet<Fr>>() };
    let members: Vec<Fr> = members.iter().map(|s| s.inner).collect();
    let witnesses = accumulator.inner.get_membership_witnesses_for_batch(&members, &key.inner, &inner);
    witnesses.map(|w| w.into_iter().map(|inner| Witness { inner }).collect())
}

/// `verify_membership` of the accumulator: whether the witness proves that the
/// element is a member, which depends on the five values alone.
#[verifier::external_body]
pub(crate) fn verify_membership(
    accumulator: &AccumulatorValue,
    member: &Scalar,
    witness: &Witness,
    key: &IssuerPublicKey,
    params: &SetupParameters,
) -> (holds: bool)
    ensures
        holds == membership_holds(*accumulator, *member, *witness, *key, *params),
{
    accumulator.inner.verify_membership(&member.inner, &witness.inner, &key.inner, &params.inner)
}

/// `serde_json::to_string` on the public key: its JSON text.
#[verifier::external_body]
pub(crate) fn public_key_to_json(key: &IssuerPublicKey) -> (text: Result<String, serde_json::Error>)
    ensures
        match text {
            Ok(t) => public_key_json(*key) == Some(t@),
            Err(_) => public_key_json(*key).is_none(),
        },
{
    serde_json::to_string(&key.inner)
}

/// `serde_json::to_string` on the secret key: its JSON text.
#[verifier::external_body]
pub(crate) fn secret_key_to_json(key: &IssuerSecretKey) -> (text: Result<String, serde_json::Error>)
    ensures
        match text {
            Ok(t) => secret_key_json(*key) == Some(t@),
            Err(_) => secret_key_json(*key).is_none(),
        },
{
    serde_json::to_string(&key.inner)
}

/// A value that has compressed canonical bytes.
pub trait Compressed: Sized {
    /// The compressed canonical bytes of the value, where it can be written.
    spec fn compressed(&self) -> Option<Seq<u8>>;

    /// The value that compressed canonical bytes denote, where they denote
    /// one.
    spec fn decompressed(bytes: Seq<u8>) -> Option<Self>;

    /// Writes the value as compressed canonical bytes.
    fn compress(&self) -> (bytes: Result<Vec<u8>, SerializationError>)
        ensures
            match bytes {
                Ok(b) => self.compressed() == Some(b@),
                Err(_) => self.compressed().is_none(),
            },
    ;

    /// Reads a value from compressed canonical bytes.
    fn decompress(bytes: &[u8]) -> (value: Result<Self, SerializationError>)
        ensures
            match value {
                Ok(v) => Self::decompressed(bytes@) == Some(v),
                Err(_) => Self::decompressed(bytes@).is_none(),
            },
    ;
}

/// `serialize_compressed` of the accumulator, into a fresh vector: its
/// compressed canonical bytes, which depend on the accumulator alone.
#[verifier::external_body]
fn compress_accumulator(accumulator: &AccumulatorValue) -> (bytes: Result<
    Vec<u8>,
    SerializationError,
>)
    ensures
        match bytes {
            Ok(b) => compressed_accumulator(*accumulator) == Some(b@),
            Err(_) => compressed_accumulator(*accumulator).is_none(),
        },
{
    let mut bytes = Vec::new();
    accumulator.inner.serialize_compressed(&mut bytes).map(|_| bytes)
}

/// `deserialize_compressed` for an accumulator: the accumulator that the
/// bytes denote, or an error where they denote none.
#[verifier::external_body]
fn decompress_accumulator(bytes: &[u8]) -> (accumulator: Result<
    AccumulatorValue,
    SerializationError,
>)
    ensures
        match accumulator {
            Ok(a) => decompressed_accumulator(bytes@) == Some(a),
            Err(_) => decompressed_accumulator(bytes@).is_none(),
        },
{
    PositiveAccumulator::deserialize_compressed(bytes).map(|inner| AccumulatorValue { inner })
}

/// `serialize_compressed` of the witness, into a fresh vector: its compressed
/// canonical bytes, which depend on the witness alone.
#[verifier::external_body]
fn compress_witness(witness: &Witness) -> (bytes: Result<Vec<u8>, SerializationError>)
    ensures
        match bytes {
            Ok(b) => compressed_witness(*witness) == Some(b@),
            Err(_) => compressed_witness(*witness).is_none(),
        },
{
    let mut bytes = Vec::new();
    witness.inner.serialize_compressed(&mut bytes).map(|_| bytes)
}

/// `deserialize_compressed` for a witness: the witness that the bytes denote,
/// or an error where they denote none.
#[verifier::external_body]
fn decompress_witness(bytes: &[u8]) -> (witness: Result<Witness, SerializationError>)
    ensures
        match witness {
            Ok(w) => decompressed_witness(bytes@) == Some(w),
            Err(_) => decompressed_witness(bytes@).is_none(),
        },
{
    MembershipWitness::deserialize_compressed(bytes).map(|inner| Witness { inner })
}

/// `serialize_compressed` of the scalar, into a fresh vector: its compressed
/// canonical bytes, which depend on the scalar alone.
#[verifier::external_body]
fn compress_scalar(scalar: &Scalar) -> (bytes: Result<Vec<u8>, SerializationError>)
    ensures
        match bytes {
            Ok(b) => compressed_scalar(*scalar) == Some(b@),
            Err(_) => compressed_scalar(*scalar).is_none(),
        },
{
    let mut bytes = Vec::new();
    scalar.inner.serialize_compressed(&mut bytes).map(|_| bytes)
}

/// `deserialize_compressed` for a scalar: the scalar that the bytes denote, or
/// an error where they denote none.
#[verifier::external_body]
fn decompress_scalar(bytes: &[u8]) -> (scalar: Result<Scalar, SerializationError>)
    ensures
        match scalar {
            Ok(s) => decompressed_scalar(bytes@) == Some(s),
            Err(_) => decompressed_scalar(bytes@).is_none(),
        },
{
    Fr::deserialize_compressed(bytes).map(|inner| Scalar { inner })
}

impl Compressed for Scalar {
    open spec fn compressed(&self) -> Option<Seq<u8>> {
        compressed_scalar(*self)
    }

    open spec fn decompressed(bytes: Seq<u8>) -> Option<Self> {
        decompressed_scalar(bytes)
    }

    fn compress(&self) -> (bytes: Result<Vec<u8>, SerializationError>) {
        compress_scalar(self)
    }

    fn decompress(bytes: &[u8]) -> (value: Result<Self, SerializationError>) {
        decompress_scalar(bytes)
    }
}

impl Compressed for AccumulatorValue {
    open spec fn compressed(&self) -> Option<Seq<u8>> {
        compressed_accumulator(*self)
    }

    open spec fn decompressed(bytes: Seq<u8>) -> Option<Self> {
        decompressed_accumulator(bytes)
    }

    fn compress(&self) -> (bytes: Result<Vec<u8>, SerializationError>) {
        compress_accumulator(self)
    }

    fn decompress(bytes: &[u8]) -> (value: Result<Self, SerializationError>) {
        decompress_accumulator(bytes)
    }
}

impl Compressed for Witness {
    open spec fn compressed(&self) -> Option<Seq<u8>> {
        compressed_witness(*self)
    }

    open spec fn decompressed(bytes: Seq<u8>) -> Option<Self> {
        decompressed_witness(bytes)
    }

    fn compress(&self) -> (bytes: Result<Vec<u8>, SerializationError>) {
        compress_witness(self)
    }

    fn decompress(bytes: &[u8]) -> (value: Result<Self, SerializationError>) {
        decompress_witness(bytes)
    }
}

} // verus!
