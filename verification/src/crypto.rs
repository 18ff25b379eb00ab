//! SHA-256 and RSA signatures, as computed by the `sha2` and `rsa` crates.

use vstd::prelude::*;

verus! {

/// The SHA-256 digest of a byte string.
pub uninterp spec fn sha256_digest(data: Seq<u8>) -> Seq<u8>;

/// What signing a digest with a PEM-encoded key comes to.
#[derive(Debug)]
pub enum SignOutcome {
    /// The signature bytes.
    Signed(Vec<u8>),
    /// The text is not a PKCS#1 PEM RSA private key.
    InvalidKey,
    /// The key was read, but the RSA operation failed.
    Failed,
}

/// The mathematical value of a [`SignOutcome`].
pub enum SignOutcomeView {
    Signed(Seq<u8>),
    InvalidKey,
    Failed,
}

impl View for SignOutcome {
    type V = SignOutcomeView;

    open spec fn view(&self) -> SignOutcomeView {
        match self {
            SignOutcome::Signed(bytes) => SignOutcomeView::Signed(bytes@),
            SignOutcome::InvalidKey => SignOutcomeView::InvalidKey,
            SignOutcome::Failed => SignOutcomeView::Failed,
        }
    }
}

/// The RSASSA-PKCS1-v1_5 signature, with the SHA-256 digest prefix, that
/// the key written in `pem` gives for `digest`.
pub uninterp spec fn rsa_sha256_signature(pem: Seq<char>, digest: Seq<u8>) -> SignOutcomeView;

/// `Sha256::digest` of the `sha2` crate: the SHA-256 digest of `data`,
/// which is 32 bytes long.
#[verifier::external_body]
pub(crate) fn sha256(data: &[u8]) -> (digest: Vec<u8>)
    ensures
        digest@ == sha256_digest(data@),
        digest@.len() == 32,
{
    <sha2::Sha256 as sha2::Digest>::digest(data).to_vec()
}

/// `RsaPrivateKey::from_pkcs1_pem` followed by `RsaPrivateKey::sign` with
/// `Pkcs1v15Sign::new::<Sha256>()`, both of the `rsa` crate. The signature
/// is computed without randomness, so it depends on the key text and the
/// digest alone. A key that cannot be read gives `InvalidKey`; an error
/// of the signing step gives `Failed`.
#[verifier::external_body]
pub(crate) fn rsa_sha256_sign(pem: &str, digest: &[u8]) -> (outcome: SignOutcome)
    ensures
        outcome@ == rsa_sha256_signature(pem@, digest@),
{
    match <rsa::RsaPrivateKey as rsa::pkcs1::DecodeRsaPrivateKey>::from_pkcs1_pem(pem) {
        Err(_) => SignOutcome::InvalidKey,
        Ok(key) => match key.sign(rsa::Pkcs1v15Sign::new::<rsa::sha2::Sha256>(), digest) {
            Ok(signature) => SignOutcome::Signed(signature),
            Err(_) => SignOutcome::Failed,
        },
    }
}

} // verus!
