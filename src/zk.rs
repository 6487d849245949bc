use vstd::prelude::*;

use bellman::groth16;
use bls12_381::{Bls12, Scalar};
use sha2::Digest;

verus! {

/// The SHA-256 digest of a byte string.
pub uninterp spec fn sha256_of(data: Seq<u8>) -> Seq<u8>;

/// Relies on sha2's `Sha256::digest`: the SHA-256 digest of `data`.
#[verifier::external_body]
fn sha256_digest(data: &[u8]) -> (r: [u8; 32])
    ensures
        r@ == sha256_of(data@),
{
    sha2::Sha256::digest(data).into()
}

/// The canonical 32-byte encoding of the scalar that a little-endian 512-bit
/// integer reduces to modulo the scalar field's order.
pub uninterp spec fn field_element_bytes(wide: Seq<u8>) -> Seq<u8>;

/// Relies on bls12_381's `Scalar::from_bytes_wide`: reduces the little-endian
/// 512-bit integer in `bytes` modulo the scalar field's order; the result is
/// handed back in its canonical encoding (`Scalar::to_bytes`).
#[verifier::external_body]
fn reduce_wide(bytes: &[u8; 64]) -> (r: [u8; 32])
    ensures
        r@ == field_element_bytes(bytes@),
{
    Scalar::from_bytes_wide(bytes).to_bytes()
}

/// Whether a Groth16 proof over BLS12-381 checks against a verifying key and
/// two public inputs, each given by its encoding.
pub uninterp spec fn groth16_verifies(vk: Seq<u8>, proof: Seq<u8>, input0: Seq<u8>, input1: Seq<u8>) -> bool;

/// Relies on bellman's `groth16::verify_proof`: whether the proof checks
/// against the verifying key and the public inputs. The key, the proof and the
/// inputs are first decoded from their bytes (`VerifyingKey::read`,
/// `Proof::read`, `Scalar::from_bytes`) and the key prepared
/// (`prepare_verifying_key`); bytes that do not decode are refused. Each of
/// these is a function of its arguments alone.
#[verifier::external_body]
fn groth16_accepts(vk: &[u8], proof: &[u8], input0: &[u8; 32], input1: &[u8; 32]) -> (r: bool)
    ensures
        r == groth16_verifies(vk@, proof@, input0@, input1@),
{
    let (Ok(vk), Ok(proof)) = (groth16::VerifyingKey::<Bls12>::read(vk), groth16::Proof::<Bls12>::read(proof)) else {
        return false;
    };
    let (Some(a), Some(b)) = (Option::from(Scalar::from_bytes(input0)), Option::from(Scalar::from_bytes(input1))) else {
        return false;
    };
    groth16::verify_proof(&groth16::prepare_verifying_key(&vk), &proof, &[a, b]).is_ok()
}

/// Bytes in an encoded proof: two compressed points of G1 and one of G2.
pub const PROOF_BYTES: usize = 192;

/// The 64 little-endian bytes that a 32-byte digest stands for, widened with zeros.
pub open spec fn widened(d: Seq<u8>) -> Seq<u8> {
    d + Seq::new(32, |i: int| 0u8)
}

/// Widens a digest to the 64 bytes that field reduction takes, keeping its value.
pub fn widen_digest(d: &[u8; 32]) -> (r: [u8; 64])
    ensures
        r@ == widened(d@),
{
    let mut w: [u8; 64] = [0u8; 64];
    let mut i: usize = 0;
    while i < 32
        invariant
            0 <= i <= 32,
            w@.len() == 64,
            forall|j: int| 0 <= j < i ==> w@[j] == d@[j],
            forall|j: int| 32 <= j < 64 ==> w@[j] == 0u8,
        decreases 32 - i,
    {
        w[i] = d[i];
        i = i + 1;
    }
    assert(w@ =~= widened(d@));
    w
}

/// The wide bytes that encode `data` as a field element: its SHA-256 digest
/// read as a little-endian integer.
pub fn field_input_bytes(data: &[u8]) -> (r: [u8; 64])
    ensures
        r@ == widened(sha256_of(data@)),
{
    let d = sha256_digest(data);
    widen_digest(&d)
}

/// The field element that a byte string stands for, in its canonical encoding.
pub open spec fn field_encoding(data: Seq<u8>) -> Seq<u8> {
    field_element_bytes(widened(sha256_of(data)))
}

/// Maps a byte string to a scalar: its digest reduced modulo the field's
/// order, returned in the scalar's canonical 32-byte encoding.
pub fn encode_field_element(data: &[u8]) -> (r: [u8; 32])
    ensures
        r@ == field_encoding(data@),
{
    let wide = field_input_bytes(data);
    reduce_wide(&wide)
}

/// Whether a proof blob is accepted for a file hash and a recipient under an
/// encoded verifying key: it has the length of an encoded proof, and it checks
/// against the key with the field encodings of the two as public inputs.
pub open spec fn proof_accepted(vk: Seq<u8>, proof: Seq<u8>, file_hash: Seq<u8>, recipient: Seq<u8>) -> bool {
    proof.len() == PROOF_BYTES && groth16_verifies(vk, proof, field_encoding(file_hash), field_encoding(recipient))
}

/// The witness and public inputs of the transfer relation: the secret equals
/// the sum of the encoded file hash and the encoded recipient. Each value is
/// the 32-byte canonical encoding of a scalar; a missing value is one that the
/// key generator does not know.
pub struct FileTransferCircuit {
    pub file_hash: Option<[u8; 32]>,
    pub recipient: Option<[u8; 32]>,
    pub secret: Option<[u8; 32]>,
}

impl FileTransferCircuit {
    /// A circuit with every value assigned, as a prover builds it.
    pub fn new(file_hash: [u8; 32], recipient: [u8; 32], secret: [u8; 32]) -> (r: FileTransferCircuit)
        ensures
            r.file_hash == Some(file_hash),
            r.recipient == Some(recipient),
            r.secret == Some(secret),
    {
        FileTransferCircuit { file_hash: Some(file_hash), recipient: Some(recipient), secret: Some(secret) }
    }

    /// A circuit with no values, as key generation takes it.
    pub fn blank() -> (r: FileTransferCircuit)
        ensures
            r.file_hash is None,
            r.recipient is None,
            r.secret is None,
    {
        FileTransferCircuit { file_hash: None, recipient: None, secret: None }
    }
}

/// An encoded Groth16 proof over BLS12-381.
pub struct Proof(pub Vec<u8>);

impl Proof {
    /// Whether this proof shows knowledge of a secret bound to `file_hash` and
    /// `recipient` under the encoded verifying key `vk`. A blob of the wrong
    /// length is refused without decoding.
    pub fn verify(&self, vk: &[u8], file_hash: &[u8], recipient: &[u8]) -> (r: bool)
        ensures
            r == proof_accepted(vk@, self.0@, file_hash@, recipient@),
    {
        if self.0.len() != PROOF_BYTES {
            return false;
        }
        let h = encode_field_element(file_hash);
        let rc = encode_field_element(recipient);
        groth16_accepts(vk, self.0.as_slice(), &h, &rc)
    }
}

} // verus!
