//! ML-DSA-65 (FIPS 204), as the `ml-dsa` crate implements it.
use vstd::prelude::*;
use ml_dsa::signature::Verifier;

verus! {

/// Bytes in an encoded ML-DSA-65 verifying key.
pub const ML_DSA_65_VERIFYING_KEY_LEN: usize = 1952;

/// Bytes in an encoded ML-DSA-65 signature: 3309 in FIPS 204 as published
/// (the draft's 3293 is not a size the `ml-dsa` crate encodes or decodes).
pub const ML_DSA_65_SIGNATURE_LEN: usize = 3309;

/// Whether an encoded ML-DSA-65 signature decodes (FIPS 204 sigDecode
/// succeeds and the response vector is within its norm bound).
pub uninterp spec fn ml_dsa_65_signature_decodes(sig: Seq<u8>) -> bool;

/// Whether ML-DSA-65 verification, with the empty context string, accepts the
/// encoded signature `sig` on `msg` under the encoded verifying key `vk`.
pub uninterp spec fn ml_dsa_65_accepts(vk: Seq<u8>, msg: Seq<u8>, sig: Seq<u8>) -> bool;

/// Trusted: calls `ml_dsa::Signature::<MlDsa65>::decode` on `sig` (converted
/// to the fixed-size encoding; the conversion panics unless `sig` has 3309
/// bytes, so the contract requires that) and reports whether it returned
/// `Some`. The contract claims that this is whether the encoding is well
/// formed.
#[verifier::external_body]
fn signature_decodes(sig: &[u8]) -> (decodes: bool)
    requires
        sig.len() == ML_DSA_65_SIGNATURE_LEN,
    ensures
        decodes == ml_dsa_65_signature_decodes(sig@),
{
    let sig_arr: &[u8; 3309] = sig.try_into().expect("ml-dsa-65 sig length");
    ml_dsa::Signature::<ml_dsa::MlDsa65>::decode(sig_arr.into()).is_some()
}

/// Trusted: decodes `sig` with `ml_dsa::Signature::<MlDsa65>::decode` (which
/// returns `Some` on a well-formed encoding, as the contract requires) and
/// `vk` with `ml_dsa::VerifyingKey::<MlDsa65>::decode` (infallible on a
/// 1952-byte encoding; the conversions panic on other lengths, so the
/// contract requires them), then calls `signature::Verifier::verify` on `msg`,
/// reading `Ok` as acceptance. The contract claims that the answer is
/// ML-DSA-65 verification of `sig` on `msg` under `vk`.
#[verifier::external_body]
fn verify_decoded(vk: &[u8], msg: &[u8], sig: &[u8]) -> (accepted: bool)
    requires
        vk.len() == ML_DSA_65_VERIFYING_KEY_LEN,
        sig.len() == ML_DSA_65_SIGNATURE_LEN,
        ml_dsa_65_signature_decodes(sig@),
    ensures
        accepted == ml_dsa_65_accepts(vk@, msg@, sig@),
{
    let vk_arr: &[u8; 1952] = vk.try_into().expect("ml-dsa-65 vk length");
    let sig_arr: &[u8; 3309] = sig.try_into().expect("ml-dsa-65 sig length");
    let key = ml_dsa::VerifyingKey::<ml_dsa::MlDsa65>::decode(vk_arr.into());
    let signature = ml_dsa::Signature::<ml_dsa::MlDsa65>::decode(sig_arr.into()).expect("ml-dsa-65 sig");
    key.verify(msg, &signature).is_ok()
}

/// Whether the ML-DSA-65 signature `sig_bytes` on `msg` is valid under the
/// verifying key `verifying_key_bytes`: it must decode, and verification must
/// accept it.
pub open spec fn ml_dsa_65_valid(vk: Seq<u8>, msg: Seq<u8>, sig: Seq<u8>) -> bool {
    ml_dsa_65_signature_decodes(sig) && ml_dsa_65_accepts(vk, msg, sig)
}

/// Verifies an ML-DSA-65 signature; `true` means the signature is valid.
/// A signature that does not decode is invalid.
pub fn ml_dsa_verify_65(verifying_key_bytes: &[u8], msg: &[u8], sig_bytes: &[u8]) -> (valid: bool)
    requires
        verifying_key_bytes.len() == ML_DSA_65_VERIFYING_KEY_LEN,
        sig_bytes.len() == ML_DSA_65_SIGNATURE_LEN,
    ensures
        valid == ml_dsa_65_valid(verifying_key_bytes@, msg@, sig_bytes@),
{
    if !signature_decodes(sig_bytes) {
        return false;
    }
    verify_decoded(verifying_key_bytes, msg, sig_bytes)
}

} // verus!
