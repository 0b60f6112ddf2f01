//! ML-KEM-768 (FIPS 203), as the `ml-kem` crate implements it.
use vstd::prelude::*;
use ml_kem::kem::{Decapsulate, Encapsulate};
use ml_kem::{EncodedSizeUser, KemCore};

verus! {

/// Bytes in an encoded ML-KEM-768 decapsulation key.
pub const ML_KEM_768_DECAP_KEY_LEN: usize = 2400;

/// Bytes in an encoded ML-KEM-768 encapsulation key.
pub const ML_KEM_768_ENCAP_KEY_LEN: usize = 1184;

/// Bytes in an ML-KEM-768 ciphertext.
pub const ML_KEM_768_CIPHERTEXT_LEN: usize = 1088;

/// Where the encoded encapsulation key sits inside an encoded decapsulation
/// key: right after the 1152-byte decryption key.
pub const ML_KEM_768_EMBEDDED_EK_START: usize = 1152;

/// The encapsulation key embedded in an encoded decapsulation key.
pub open spec fn embedded_encapsulation_key(dk: Seq<u8>) -> Seq<u8> {
    dk.subrange(
        ML_KEM_768_EMBEDDED_EK_START as int,
        ML_KEM_768_EMBEDDED_EK_START + ML_KEM_768_ENCAP_KEY_LEN,
    )
}

/// ML-KEM-768 encapsulation (FIPS 203 ML-KEM.Encaps_internal) to the encoded
/// encapsulation key `ek` with the 32-byte random message `m`: the ciphertext
/// and the 32-byte shared key.
pub uninterp spec fn ml_kem_768_encaps(ek: Seq<u8>, m: Seq<u8>) -> (Seq<u8>, Seq<u8>);

/// A ciphertext and the shared key it encapsulates.
pub struct Encapsulation {
    pub ciphertext: Vec<u8>,
    pub shared: [u8; 32],
}

impl Encapsulation {
    /// The ciphertext and shared key as byte strings.
    pub open spec fn view_pair(&self) -> (Seq<u8>, Seq<u8>) {
        (self.ciphertext@, self.shared@)
    }
}

/// ML-KEM-768 decapsulation: the 32-byte shared key that the decapsulation
/// key `dk` recovers from the ciphertext `ct` (with implicit rejection).
pub uninterp spec fn ml_kem_768_decaps(dk: Seq<u8>, ct: Seq<u8>) -> Seq<u8>;

/// Trusted: decodes `dk` with `EncodedSizeUser::from_bytes` into the
/// `DecapsulationKey` of `ml_kem::MlKem768` (infallible on a 2400-byte
/// encoding) and calls its `Decapsulate::decapsulate` on `ct`, which always
/// returns `Ok` in this version. The slice-to-array conversions panic unless
/// the lengths are right, so the contract requires them. It claims that the
/// shared key is ML-KEM-768 decapsulation of `ct` under `dk`.
#[verifier::external_body]
fn decapsulate(dk: &[u8], ct: &[u8]) -> (shared: [u8; 32])
    requires
        dk.len() == ML_KEM_768_DECAP_KEY_LEN,
        ct.len() == ML_KEM_768_CIPHERTEXT_LEN,
    ensures
        shared@ == ml_kem_768_decaps(dk@, ct@),
{
    let dk_arr: &ml_kem::Encoded<<ml_kem::MlKem768 as KemCore>::DecapsulationKey> =
        dk.try_into().expect("ml-kem decap key length");
    let ct_arr: &ml_kem::Ciphertext<ml_kem::MlKem768> =
        ct.try_into().expect("ml-kem ciphertext length");
    let key = <ml_kem::MlKem768 as KemCore>::DecapsulationKey::from_bytes(dk_arr);
    key.decapsulate(ct_arr).expect("ml-kem decap").into()
}

/// ML-KEM-768 decapsulation of `ciphertext_bytes` under the encoded key
/// `decap_key_bytes`.
pub fn ml_kem_decap_768(decap_key_bytes: &[u8], ciphertext_bytes: &[u8]) -> (shared: [u8; 32])
    requires
        decap_key_bytes.len() == ML_KEM_768_DECAP_KEY_LEN,
        ciphertext_bytes.len() == ML_KEM_768_CIPHERTEXT_LEN,
    ensures
        shared@ == ml_kem_768_decaps(decap_key_bytes@, ciphertext_bytes@),
{
    decapsulate(decap_key_bytes, ciphertext_bytes)
}

/// Trusted: calls `ml_kem::MlKem768::generate` (`KemCore::generate`) with the
/// operating system's random number generator and encodes both keys with
/// `as_bytes`. The keys are random; the contract claims their lengths and
/// that the encoded decapsulation key holds the encoded encapsulation key at
/// bytes 1152..2336 (the source lays it out as decryption key, encapsulation
/// key, hash of the encapsulation key, secret seed).
#[verifier::external_body]
pub(crate) fn ml_kem_768_generate() -> (keys: (Vec<u8>, Vec<u8>))
    ensures
        keys.0.len() == ML_KEM_768_DECAP_KEY_LEN,
        keys.1.len() == ML_KEM_768_ENCAP_KEY_LEN,
        keys.1@ == embedded_encapsulation_key(keys.0@),
{
    let (dk, ek) = ml_kem::MlKem768::generate(&mut rand::rngs::OsRng);
    (dk.as_bytes().to_vec(), ek.as_bytes().to_vec())
}

/// Trusted: decodes `ek` with `EncodedSizeUser::from_bytes` into the
/// `EncapsulationKey` of `ml_kem::MlKem768` and calls its
/// `Encapsulate::encapsulate` with the operating system's random number
/// generator (always `Ok` in this version). The source draws a 32-byte
/// message `m` from the generator and returns the deterministic encapsulation
/// of `m` to the key; the contract claims that, for some such `m`, with the
/// ciphertext's length. Left unsaid: that decapsulation recovers the shared
/// key, which FIPS 203 guarantees only up to a decryption-failure probability
/// (about 2^-165 for ML-KEM-768).
#[verifier::external_body]
pub(crate) fn ml_kem_768_encapsulate(ek: &[u8]) -> (encapsulated: Encapsulation)
    requires
        ek.len() == ML_KEM_768_ENCAP_KEY_LEN,
    ensures
        encapsulated.ciphertext.len() == ML_KEM_768_CIPHERTEXT_LEN,
        !(forall|m: Seq<u8>|
            m.len() == 32 ==> encapsulated.view_pair() != #[trigger] ml_kem_768_encaps(ek@, m)),
{
    let ek_arr: &ml_kem::Encoded<<ml_kem::MlKem768 as KemCore>::EncapsulationKey> =
        ek.try_into().expect("ml-kem encap key length");
    let key = <ml_kem::MlKem768 as KemCore>::EncapsulationKey::from_bytes(ek_arr);
    let (ct, shared) = key.encapsulate(&mut rand::rngs::OsRng).expect("ml-kem encapsulate");
    Encapsulation { ciphertext: ct.as_slice().to_vec(), shared: shared.into() }
}

} // verus!
