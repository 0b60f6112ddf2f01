//! The stub verifier: the cryptographic work that a post-quantum TLS 1.3
//! verifier circuit does, without validating any transcript, ending in a
//! SHA-256 commitment to every input and the signature verdict.
use vstd::prelude::*;
use vstd::string::StringSliceAdditionalSpecFns;
use crate::digest::{sha256, sha256_of};
use crate::dsa::{
    ml_dsa_65_valid, ml_dsa_verify_65, ML_DSA_65_SIGNATURE_LEN, ML_DSA_65_VERIFYING_KEY_LEN,
};
use crate::kem::{
    ml_kem_768_decaps, ml_kem_decap_768, ML_KEM_768_CIPHERTEXT_LEN, ML_KEM_768_DECAP_KEY_LEN,
};
use crate::key_schedule::{derive_traffic_keys, traffic_secret};
use crate::record::{record_plaintext, record_round_trip, sealed_record};

verus! {

/// What the stub verifier runs on.
pub struct StubInputs {
    /// The hybrid shared secret the key schedule is keyed off.
    pub hybrid_shared_secret: [u8; 32],
    /// The handshake transcript hash up to ServerFinished.
    pub transcript_hash: [u8; 32],
    /// An ML-KEM-768 ciphertext (1088 bytes).
    pub ml_kem_ciphertext: Vec<u8>,
    /// An encoded ML-KEM-768 decapsulation key (2400 bytes).
    pub ml_kem_decap_key: Vec<u8>,
    /// The message the ML-DSA-65 signature is on.
    pub ml_dsa_msg: Vec<u8>,
    /// An encoded ML-DSA-65 signature (3309 bytes).
    pub ml_dsa_sig: Vec<u8>,
    /// An encoded ML-DSA-65 verifying key (1952 bytes).
    pub ml_dsa_verifying_key: Vec<u8>,
}

/// What the stub verifier makes public.
pub struct StubOutput {
    /// SHA-256 over the domain tag, every input, the values the computation
    /// derived from them, and the verdict.
    pub commitment: [u8; 32],
    /// Whether the ML-DSA-65 signature verified.
    pub signature_ok: bool,
}

/// An input whose length the fixed-size encodings forbid.
#[derive(Clone, Copy, Debug, PartialEq, Eq)]
pub enum InputSizeError {
    KemDecapKey,
    KemCiphertext,
    DsaVerifyingKey,
    DsaSignature,
}

/// The domain tag that starts every commitment.
pub const COMMITMENT_DOMAIN: &'static str = "sacredvote-pq-bench/v0.1";

/// The bytes of the domain tag.
pub open spec fn commitment_domain() -> Seq<u8> {
    COMMITMENT_DOMAIN.spec_bytes()
}

/// The byte a verdict is committed as.
pub open spec fn verdict_byte(ok: bool) -> u8 {
    if ok {
        1
    } else {
        0
    }
}

/// What the commitment hashes: the domain tag, the hybrid shared secret, the
/// transcript hash, the ML-KEM shared key, the verdict byte and the sealed
/// record, followed by the remaining inputs: the ML-KEM ciphertext and
/// decapsulation key, the ML-DSA verifying key and signature, and last the
/// signed message.
pub open spec fn spec_commitment_preimage(
    inputs: StubInputs,
    kem_shared: Seq<u8>,
    signature_ok: bool,
    record_ciphertext: Seq<u8>,
) -> Seq<u8> {
    commitment_domain() + inputs.hybrid_shared_secret@ + inputs.transcript_hash@ + kem_shared
        + seq![verdict_byte(signature_ok)] + record_ciphertext + inputs.ml_kem_ciphertext@
        + inputs.ml_kem_decap_key@ + inputs.ml_dsa_verifying_key@ + inputs.ml_dsa_sig@
        + inputs.ml_dsa_msg@
}

/// Whether every variable-length input has the length its encoding fixes.
pub open spec fn well_sized(inputs: StubInputs) -> bool {
    &&& inputs.ml_kem_decap_key.len() == ML_KEM_768_DECAP_KEY_LEN
    &&& inputs.ml_kem_ciphertext.len() == ML_KEM_768_CIPHERTEXT_LEN
    &&& inputs.ml_dsa_verifying_key.len() == ML_DSA_65_VERIFYING_KEY_LEN
    &&& inputs.ml_dsa_sig.len() == ML_DSA_65_SIGNATURE_LEN
}

/// The first wrong length, checked in the order the stub consumes the
/// inputs: decapsulation key, ciphertext, verifying key, signature.
pub open spec fn spec_input_size_error(inputs: StubInputs) -> Option<InputSizeError> {
    if inputs.ml_kem_decap_key.len() != ML_KEM_768_DECAP_KEY_LEN {
        Some(InputSizeError::KemDecapKey)
    } else if inputs.ml_kem_ciphertext.len() != ML_KEM_768_CIPHERTEXT_LEN {
        Some(InputSizeError::KemCiphertext)
    } else if inputs.ml_dsa_verifying_key.len() != ML_DSA_65_VERIFYING_KEY_LEN {
        Some(InputSizeError::DsaVerifyingKey)
    } else if inputs.ml_dsa_sig.len() != ML_DSA_65_SIGNATURE_LEN {
        Some(InputSizeError::DsaSignature)
    } else {
        None
    }
}

/// The record sealed under the client application traffic secret, with the
/// server application traffic secret's first 12 bytes as nonce and the
/// transcript hash as associated data.
pub open spec fn stub_record_ciphertext(inputs: StubInputs) -> Seq<u8> {
    let t = inputs.transcript_hash@;
    let h = inputs.hybrid_shared_secret@;
    sealed_record(traffic_secret(t, h, 2), traffic_secret(t, h, 3), t)
}

/// The stub's verdict on the ML-DSA-65 signature.
pub open spec fn stub_signature_ok(inputs: StubInputs) -> bool {
    ml_dsa_65_valid(inputs.ml_dsa_verifying_key@, inputs.ml_dsa_msg@, inputs.ml_dsa_sig@)
}

/// The stub's commitment.
pub open spec fn stub_commitment(inputs: StubInputs) -> Seq<u8> {
    sha256(
        spec_commitment_preimage(
            inputs,
            ml_kem_768_decaps(inputs.ml_kem_decap_key@, inputs.ml_kem_ciphertext@),
            stub_signature_ok(inputs),
            stub_record_ciphertext(inputs),
        ),
    )
}

/// Reports the first input whose length is wrong, or `None` when the stub
/// can run on `inputs`.
pub fn input_size_error(inputs: &StubInputs) -> (err: Option<InputSizeError>)
    ensures
        err == spec_input_size_error(*inputs),
        err is None <==> well_sized(*inputs),
{
    if inputs.ml_kem_decap_key.len() != ML_KEM_768_DECAP_KEY_LEN {
        Some(InputSizeError::KemDecapKey)
    } else if inputs.ml_kem_ciphertext.len() != ML_KEM_768_CIPHERTEXT_LEN {
        Some(InputSizeError::KemCiphertext)
    } else if inputs.ml_dsa_verifying_key.len() != ML_DSA_65_VERIFYING_KEY_LEN {
        Some(InputSizeError::DsaVerifyingKey)
    } else if inputs.ml_dsa_sig.len() != ML_DSA_65_SIGNATURE_LEN {
        Some(InputSizeError::DsaSignature)
    } else {
        None
    }
}

/// Lays out the bytes that the commitment hashes.
pub fn commitment_preimage(
    inputs: &StubInputs,
    kem_shared: &[u8; 32],
    signature_ok: bool,
    record_ciphertext: &[u8],
) -> (preimage: Vec<u8>)
    ensures
        preimage@ == spec_commitment_preimage(*inputs, kem_shared@, signature_ok, record_ciphertext@),
{
    let mut preimage: Vec<u8> = Vec::new();
    preimage.extend_from_slice(COMMITMENT_DOMAIN.as_bytes());
    assert(preimage@ =~= commitment_domain());
    let ghost step = preimage@;
    preimage.extend_from_slice(inputs.hybrid_shared_secret.as_slice());
    assert(preimage@ =~= step + inputs.hybrid_shared_secret@);
    let ghost step = preimage@;
    preimage.extend_from_slice(inputs.transcript_hash.as_slice());
    assert(preimage@ =~= step + inputs.transcript_hash@);
    let ghost step = preimage@;
    preimage.extend_from_slice(kem_shared.as_slice());
    assert(preimage@ =~= step + kem_shared@);
    let verdict: u8 = if signature_ok {
        1
    } else {
        0
    };
    preimage.push(verdict);
    let ghost step = preimage@;
    preimage.extend_from_slice(record_ciphertext);
    assert(preimage@ =~= step + record_ciphertext@);
    let ghost step = preimage@;
    preimage.extend_from_slice(inputs.ml_kem_ciphertext.as_slice());
    assert(preimage@ =~= step + inputs.ml_kem_ciphertext@);
    let ghost step = preimage@;
    preimage.extend_from_slice(inputs.ml_kem_decap_key.as_slice());
    assert(preimage@ =~= step + inputs.ml_kem_decap_key@);
    let ghost step = preimage@;
    preimage.extend_from_slice(inputs.ml_dsa_verifying_key.as_slice());
    assert(preimage@ =~= step + inputs.ml_dsa_verifying_key@);
    let ghost step = preimage@;
    preimage.extend_from_slice(inputs.ml_dsa_sig.as_slice());
    assert(preimage@ =~= step + inputs.ml_dsa_sig@);
    let ghost step = preimage@;
    preimage.extend_from_slice(inputs.ml_dsa_msg.as_slice());
    assert(preimage@ =~= step + inputs.ml_dsa_msg@);
    preimage
}

/// The commitment: SHA-256 of [`spec_commitment_preimage`].
pub fn commitment(
    inputs: &StubInputs,
    kem_shared: &[u8; 32],
    signature_ok: bool,
    record_ciphertext: &[u8],
) -> (digest: [u8; 32])
    ensures
        digest@ == sha256(
            spec_commitment_preimage(*inputs, kem_shared@, signature_ok, record_ciphertext@),
        ),
{
    let preimage = commitment_preimage(inputs, kem_shared, signature_ok, record_ciphertext);
    sha256_of(preimage.as_slice())
}

/// Runs the stub verifier: derives the five traffic secrets, seals and opens
/// one record, decapsulates the ML-KEM-768 ciphertext, verifies the ML-DSA-65
/// signature, and commits to the result.
pub fn run_stub(inputs: &StubInputs) -> (out: StubOutput)
    requires
        well_sized(*inputs),
    ensures
        out.signature_ok == stub_signature_ok(*inputs),
        out.commitment@ == stub_commitment(*inputs),
        stub_record_ciphertext(*inputs).len() == record_plaintext().len() + 16,
{
    let keys = derive_traffic_keys(&inputs.transcript_hash, &inputs.hybrid_shared_secret);
    let (record_ciphertext, _recovered) = record_round_trip(
        &keys[2],
        &keys[3],
        &inputs.transcript_hash,
    );
    let kem_shared = ml_kem_decap_768(
        inputs.ml_kem_decap_key.as_slice(),
        inputs.ml_kem_ciphertext.as_slice(),
    );
    let signature_ok = ml_dsa_verify_65(
        inputs.ml_dsa_verifying_key.as_slice(),
        inputs.ml_dsa_msg.as_slice(),
        inputs.ml_dsa_sig.as_slice(),
    );
    let digest = commitment(inputs, &kem_shared, signature_ok, record_ciphertext.as_slice());
    StubOutput { commitment: digest, signature_ok }
}

/// The commitment's preimage determines everything laid out in it: for
/// well-sized inputs and sealed records of one length, two preimages agree
/// only when all the inputs, the ML-KEM shared keys, the verdicts and the
/// sealed records agree.
pub proof fn lemma_commitment_preimage_injective(
    inputs1: StubInputs,
    kem_shared1: Seq<u8>,
    signature_ok1: bool,
    record_ciphertext1: Seq<u8>,
    inputs2: StubInputs,
    kem_shared2: Seq<u8>,
    signature_ok2: bool,
    record_ciphertext2: Seq<u8>,
)
    requires
        well_sized(inputs1),
        well_sized(inputs2),
        kem_shared1.len() == 32,
        kem_shared2.len() == 32,
        record_ciphertext1.len() == record_ciphertext2.len(),
        spec_commitment_preimage(inputs1, kem_shared1, signature_ok1, record_ciphertext1)
            == spec_commitment_preimage(inputs2, kem_shared2, signature_ok2, record_ciphertext2),
    ensures
        inputs1.hybrid_shared_secret@ == inputs2.hybrid_shared_secret@,
        inputs1.transcript_hash@ == inputs2.transcript_hash@,
        inputs1.ml_kem_ciphertext@ == inputs2.ml_kem_ciphertext@,
        inputs1.ml_kem_decap_key@ == inputs2.ml_kem_decap_key@,
        inputs1.ml_dsa_msg@ == inputs2.ml_dsa_msg@,
        inputs1.ml_dsa_sig@ == inputs2.ml_dsa_sig@,
        inputs1.ml_dsa_verifying_key@ == inputs2.ml_dsa_verifying_key@,
        kem_shared1 == kem_shared2,
        signature_ok1 == signature_ok2,
        record_ciphertext1 == record_ciphertext2,
{
    let p = spec_commitment_preimage(inputs1, kem_shared1, signature_ok1, record_ciphertext1);
    let q = spec_commitment_preimage(inputs2, kem_shared2, signature_ok2, record_ciphertext2);
    let d = commitment_domain().len() as int;
    let r = record_ciphertext1.len() as int;
    let c0 = d + 97 + r;
    let c1 = c0 + ML_KEM_768_CIPHERTEXT_LEN;
    let c2 = c1 + ML_KEM_768_DECAP_KEY_LEN;
    let c3 = c2 + ML_DSA_65_VERIFYING_KEY_LEN;
    let c4 = c3 + ML_DSA_65_SIGNATURE_LEN;
    assert(inputs1.hybrid_shared_secret@ =~= p.subrange(d, d + 32));
    assert(inputs2.hybrid_shared_secret@ =~= q.subrange(d, d + 32));
    assert(inputs1.transcript_hash@ =~= p.subrange(d + 32, d + 64));
    assert(inputs2.transcript_hash@ =~= q.subrange(d + 32, d + 64));
    assert(kem_shared1 =~= p.subrange(d + 64, d + 96));
    assert(kem_shared2 =~= q.subrange(d + 64, d + 96));
    assert(p[d + 96] == verdict_byte(signature_ok1));
    assert(q[d + 96] == verdict_byte(signature_ok2));
    assert(record_ciphertext1 =~= p.subrange(d + 97, c0));
    assert(record_ciphertext2 =~= q.subrange(d + 97, c0));
    assert(inputs1.ml_kem_ciphertext@ =~= p.subrange(c0, c1));
    assert(inputs2.ml_kem_ciphertext@ =~= q.subrange(c0, c1));
    assert(inputs1.ml_kem_decap_key@ =~= p.subrange(c1, c2));
    assert(inputs2.ml_kem_decap_key@ =~= q.subrange(c1, c2));
    assert(inputs1.ml_dsa_verifying_key@ =~= p.subrange(c2, c3));
    assert(inputs2.ml_dsa_verifying_key@ =~= q.subrange(c2, c3));
    assert(inputs1.ml_dsa_sig@ =~= p.subrange(c3, c4));
    assert(inputs2.ml_dsa_sig@ =~= q.subrange(c3, c4));
    assert(inputs1.ml_dsa_msg@ =~= p.subrange(c4, p.len() as int));
    assert(inputs2.ml_dsa_msg@ =~= q.subrange(c4, q.len() as int));
}

/// The stub is a function of its inputs: inputs with the same contents give
/// the same verdict and the same commitment.
pub proof fn lemma_stub_deterministic(a: StubInputs, b: StubInputs)
    requires
        a.hybrid_shared_secret@ == b.hybrid_shared_secret@,
        a.transcript_hash@ == b.transcript_hash@,
        a.ml_kem_ciphertext@ == b.ml_kem_ciphertext@,
        a.ml_kem_decap_key@ == b.ml_kem_decap_key@,
        a.ml_dsa_msg@ == b.ml_dsa_msg@,
        a.ml_dsa_sig@ == b.ml_dsa_sig@,
        a.ml_dsa_verifying_key@ == b.ml_dsa_verifying_key@,
    ensures
        stub_signature_ok(a) == stub_signature_ok(b),
        stub_commitment(a) == stub_commitment(b),
{
}

} // verus!
