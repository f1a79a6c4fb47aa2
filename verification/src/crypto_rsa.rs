//! RSA keys as the engine holds them, their encodings, and RSASSA-PKCS1-v1_5
//! signatures over SHA-256.
//!
//! A key is held as its PKCS#1 DER encoding. The arithmetic and the
//! encodings are the work of the `rsa` crate: each call stands behind a
//! private function whose contract names the result.

use vstd::prelude::*;
use vstd::string::*;
use rsa::pkcs1::{DecodeRsaPrivateKey, DecodeRsaPublicKey, EncodeRsaPrivateKey, EncodeRsaPublicKey};
use rsa::pkcs8::{DecodePrivateKey, DecodePublicKey, EncodePrivateKey, EncodePublicKey, LineEnding};
use rsa::signature::{SignatureEncoding, Signer, Verifier};
use rand::SeedableRng;
use crate::text::{bytes_eq, contains_text, has_text, trim, trimmed};

verus! {

broadcast use vstd::string::group_string_axioms;

/// The PKCS#1 DER encoding of the private key that the PKCS#1 DER text
/// `der` decodes to; `None` where it decodes to none.
pub uninterp spec fn private_key_from_pkcs1_der(der: Seq<u8>) -> Option<Seq<u8>>;

/// The PKCS#1 DER encoding of the private key that the PKCS#1 PEM text
/// `pem` decodes to.
pub uninterp spec fn private_key_from_pkcs1_pem(pem: Seq<char>) -> Option<Seq<u8>>;

/// The PKCS#1 DER encoding of the private key that the PKCS#8 PEM text
/// `pem` decodes to.
pub uninterp spec fn private_key_from_pkcs8_pem(pem: Seq<char>) -> Option<Seq<u8>>;

/// The PKCS#1 PEM text, with line feeds, of the private key `key`.
pub uninterp spec fn private_key_pkcs1_pem(key: Seq<u8>) -> Option<Seq<char>>;

/// The PKCS#8 PEM text, with line feeds, of the private key `key`.
pub uninterp spec fn private_key_pkcs8_pem(key: Seq<u8>) -> Option<Seq<char>>;

/// The PKCS#1 DER encoding of the public half of the private key `key`.
pub uninterp spec fn public_half(key: Seq<u8>) -> Option<Seq<u8>>;

/// The PKCS#1 DER encoding of the public key that the PKCS#1 DER text
/// `der` decodes to.
pub uninterp spec fn public_key_from_pkcs1_der(der: Seq<u8>) -> Option<Seq<u8>>;

/// The PKCS#1 DER encoding of the public key that the PKCS#1 PEM text
/// `pem` decodes to.
pub uninterp spec fn public_key_from_pkcs1_pem(pem: Seq<char>) -> Option<Seq<u8>>;

/// The PKCS#1 DER encoding of the public key that the PEM text `pem` of a
/// SubjectPublicKeyInfo decodes to.
pub uninterp spec fn public_key_from_spki_pem(pem: Seq<char>) -> Option<Seq<u8>>;

/// The PKCS#1 PEM text, with line feeds, of the public key `key`.
pub uninterp spec fn public_key_pkcs1_pem(key: Seq<u8>) -> Option<Seq<char>>;

/// The PEM text of the SubjectPublicKeyInfo, with line feeds, of the public
/// key `key`.
pub uninterp spec fn public_key_spki_pem(key: Seq<u8>) -> Option<Seq<char>>;

/// The PEM text `pem` read and written again with the standard line width.
pub uninterp spec fn pem_rewrapped(pem: Seq<char>) -> Option<Seq<char>>;

/// The RSASSA-PKCS1-v1_5 signature with SHA-256 of `message` under the
/// private key `key`.
pub uninterp spec fn rsa_sha256_signature(key: Seq<u8>, message: Seq<u8>) -> Option<Seq<u8>>;

/// Whether `signature` is accepted as the RSASSA-PKCS1-v1_5 signature with
/// SHA-256 of `message` under the public key `key`.
pub uninterp spec fn rsa_sha256_accepts(key: Seq<u8>, message: Seq<u8>, signature: Seq<u8>) -> bool;

/// The number of bits of the modulus of the private key `key`; `None`
/// where `key` decodes to no key.
pub uninterp spec fn modulus_bits(key: Seq<u8>) -> Option<usize>;

/// A failure of the RSA arithmetic, with the message of the `rsa` crate.
#[derive(Debug)]
pub struct RsaError(pub String);

/// A key text that could not be read or written.
#[derive(Debug)]
pub enum RsaSerializationError {
    /// A PKCS#1 text was refused.
    Pkcs1Error(String),
    /// A PKCS#8 or SubjectPublicKeyInfo text was refused.
    Pkcs8Error(String),
    /// The PEM framing was refused.
    PemError(String),
}

impl RsaSerializationError {
    /// The words of the error.
    pub open spec fn words(self) -> Seq<char> {
        match self {
            RsaSerializationError::Pkcs1Error(text) => text@,
            RsaSerializationError::Pkcs8Error(text) => text@,
            RsaSerializationError::PemError(text) => text@,
        }
    }
}

/// An RSA private key, held as its PKCS#1 DER encoding together with that
/// of its public half.
#[derive(Debug, PartialEq, Eq)]
pub struct RsaPrivateKey {
    der: Vec<u8>,
    public_der: Vec<u8>,
}

/// An RSA public key, held as its PKCS#1 DER encoding.
#[derive(Debug, PartialEq, Eq)]
pub struct RsaPublicKey {
    der: Vec<u8>,
}

impl View for RsaPrivateKey {
    type V = Seq<u8>;

    closed spec fn view(&self) -> Seq<u8> {
        self.der@
    }
}

impl View for RsaPublicKey {
    type V = Seq<u8>;

    closed spec fn view(&self) -> Seq<u8> {
        self.der@
    }
}

impl RsaPrivateKey {
    #[verifier::type_invariant]
    spec fn paired(self) -> bool {
        &&& private_key_from_pkcs1_der(self.der@) == Some(self.der@)
        &&& public_half(self.der@) == Some(self.public_der@)
        &&& public_key_from_pkcs1_der(self.public_der@) == Some(self.public_der@)
    }

    /// The public half of the key.
    pub fn public_key(&self) -> (public: RsaPublicKey)
        ensures
            public_half(self@) == Some(public@),
            is_public_key(public@),
    {
        proof {
            use_type_invariant(self);
        }
        RsaPublicKey { der: copy_bytes(&self.public_der) }
    }
}

impl Clone for RsaPrivateKey {
    fn clone(&self) -> (copy: Self)
        ensures
            copy@ == self@,
    {
        proof {
            use_type_invariant(self);
        }
        RsaPrivateKey { der: copy_bytes(&self.der), public_der: copy_bytes(&self.public_der) }
    }
}

impl RsaPublicKey {
    #[verifier::type_invariant]
    spec fn read_back(self) -> bool {
        public_key_from_pkcs1_der(self.der@) == Some(self.der@)
    }
}

impl Clone for RsaPublicKey {
    fn clone(&self) -> (copy: Self)
        ensures
            copy@ == self@,
    {
        proof {
            use_type_invariant(self);
        }
        RsaPublicKey { der: copy_bytes(&self.der) }
    }
}

/// The public half of a key, as [`RsaPrivateKey::public_key`] gives it; what
/// it is stands there, and nothing is stated of the conversion itself.
impl From<&RsaPrivateKey> for RsaPublicKey {
    fn from(private_key: &RsaPrivateKey) -> (public: RsaPublicKey) {
        private_key.public_key()
    }
}

impl vstd::std_specs::convert::FromSpecImpl<&RsaPrivateKey> for RsaPublicKey {
    open spec fn obeys_from_spec() -> bool {
        false
    }

    open spec fn from_spec(private_key: &RsaPrivateKey) -> RsaPublicKey {
        arbitrary()
    }
}

/// The public half of a key, as [`RsaPrivateKey::public_key`] gives it; what
/// it is stands there, and nothing is stated of the conversion itself.
impl From<RsaPrivateKey> for RsaPublicKey {
    fn from(private_key: RsaPrivateKey) -> (public: RsaPublicKey) {
        private_key.public_key()
    }
}

impl vstd::std_specs::convert::FromSpecImpl<RsaPrivateKey> for RsaPublicKey {
    open spec fn obeys_from_spec() -> bool {
        false
    }

    open spec fn from_spec(private_key: RsaPrivateKey) -> RsaPublicKey {
        arbitrary()
    }
}

/// A copy of `bytes`.
fn copy_bytes(bytes: &Vec<u8>) -> (copy: Vec<u8>)
    ensures
        copy@ == bytes@,
{
    let mut copy: Vec<u8> = Vec::new();
    let mut i: usize = 0;
    while i < bytes.len()
        invariant
            i <= bytes.len(),
            copy@ == bytes@.take(i as int),
        decreases bytes.len() - i,
    {
        copy.push(bytes[i]);
        assert(bytes@.take(i + 1) =~= bytes@.take(i as int).push(bytes@[i as int]));
        i += 1;
    }
    assert(bytes@.take(bytes@.len() as int) =~= bytes@);
    copy
}

/// Makes a fresh key of `bits` bits from the randomness of the operating
/// system.
///
/// Trusted: `RsaPrivateKey::new` of `rsa` with `OsRng` of `rand`, handed
/// back as `EncodeRsaPrivateKey::to_pkcs1_der` writes it. The key depends
/// on chance: nothing is said of it. Below 64 bits the crate may search
/// without end, so such sizes are left out.
#[verifier::external_body]
fn fresh_key(bits: usize) -> (made: Result<Vec<u8>, String>)
    requires
        bits >= 64,
{
    let key = ::rsa::RsaPrivateKey::new(&mut ::rand::rngs::OsRng, bits).map_err(|e| e.to_string())?;
    key.to_pkcs1_der().map(|der| der.as_bytes().to_vec()).map_err(|e| e.to_string())
}

/// Makes a key of `bits` bits from a generator seeded with `seed`.
///
/// Trusted: `RsaPrivateKey::new` of `rsa` with `StdRng::seed_from_u64` of
/// `rand`, handed back as `EncodeRsaPrivateKey::to_pkcs1_der` writes it.
/// The stream of the generator may differ between versions of `rand`:
/// nothing is said of the key.
#[verifier::external_body]
fn seeded_key(seed: u64, bits: usize) -> (made: Result<Vec<u8>, String>)
    requires
        bits >= 64,
{
    let mut rng = ::rand::rngs::StdRng::seed_from_u64(seed);
    let key = ::rsa::RsaPrivateKey::new(&mut rng, bits).map_err(|e| e.to_string())?;
    key.to_pkcs1_der().map(|der| der.as_bytes().to_vec()).map_err(|e| e.to_string())
}

/// Counts the bits of the modulus of a private key.
///
/// Trusted: `BigUint::bits` on `PublicKeyParts::n` of the key of `rsa` that
/// `key` decodes to; `None` where it decodes to none. The count is a
/// function of the key alone and is named [`modulus_bits`].
#[verifier::external_body]
fn count_modulus_bits(key: &[u8]) -> (bits: Option<usize>)
    ensures
        bits == modulus_bits(key@),
{
    let key = ::rsa::RsaPrivateKey::from_pkcs1_der(key).ok()?;
    Some(::rsa::traits::PublicKeyParts::n(&key).bits())
}

/// The public half of a private key.
///
/// Trusted: `RsaPublicKey::from` of `rsa` on the key that `key` decodes
/// to, handed back as `EncodeRsaPublicKey::to_pkcs1_der` writes it.
#[verifier::external_body]
fn derive_public(key: &[u8]) -> (public: Result<Vec<u8>, String>)
    ensures
        public is Ok <==> public_half(key@) is Some,
        public matches Ok(der) ==> public_half(key@) == Some(der@),
{
    let key = ::rsa::RsaPrivateKey::from_pkcs1_der(key).map_err(|e| e.to_string())?;
    let public = ::rsa::RsaPublicKey::from(&key);
    public.to_pkcs1_der().map(|der| der.as_bytes().to_vec()).map_err(|e| e.to_string())
}

/// Reads a private key from PKCS#1 DER.
///
/// Trusted: `DecodeRsaPrivateKey::from_pkcs1_der` of `rsa`; the key read is
/// handed back as `EncodeRsaPrivateKey::to_pkcs1_der` writes it.
#[verifier::external_body]
fn read_private_pkcs1_der(bytes: &[u8]) -> (read: Result<Vec<u8>, String>)
    ensures
        read is Ok <==> private_key_from_pkcs1_der(bytes@) is Some,
        read matches Ok(der) ==> private_key_from_pkcs1_der(bytes@) == Some(der@),
{
    let key = ::rsa::RsaPrivateKey::from_pkcs1_der(bytes).map_err(|e| e.to_string())?;
    key.to_pkcs1_der().map(|der| der.as_bytes().to_vec()).map_err(|e| e.to_string())
}

/// Reads a private key from PKCS#1 PEM.
///
/// Trusted: `DecodeRsaPrivateKey::from_pkcs1_pem` of `rsa`; the key read is
/// handed back in PKCS#1 DER.
#[verifier::external_body]
fn read_private_pkcs1_pem(pem: &str) -> (read: Result<Vec<u8>, String>)
    ensures
        read is Ok <==> private_key_from_pkcs1_pem(pem@) is Some,
        read matches Ok(der) ==> private_key_from_pkcs1_pem(pem@) == Some(der@),
{
    let key = ::rsa::RsaPrivateKey::from_pkcs1_pem(pem).map_err(|e| e.to_string())?;
    key.to_pkcs1_der().map(|der| der.as_bytes().to_vec()).map_err(|e| e.to_string())
}

/// Reads a private key from PKCS#8 PEM.
///
/// Trusted: `DecodePrivateKey::from_pkcs8_pem` of `rsa`; the key read is
/// handed back in PKCS#1 DER.
#[verifier::external_body]
fn read_private_pkcs8_pem(pem: &str) -> (read: Result<Vec<u8>, String>)
    ensures
        read is Ok <==> private_key_from_pkcs8_pem(pem@) is Some,
        read matches Ok(der) ==> private_key_from_pkcs8_pem(pem@) == Some(der@),
{
    let key = ::rsa::RsaPrivateKey::from_pkcs8_pem(pem).map_err(|e| e.to_string())?;
    key.to_pkcs1_der().map(|der| der.as_bytes().to_vec()).map_err(|e| e.to_string())
}

/// Writes a private key as PKCS#1 PEM with line feeds.
///
/// Trusted: `EncodeRsaPrivateKey::to_pkcs1_pem` of `pkcs1`, on the key of
/// `rsa` that `key` decodes to.
#[verifier::external_body]
fn write_private_pkcs1_pem(key: &[u8]) -> (written: Result<String, String>)
    ensures
        written is Ok <==> private_key_pkcs1_pem(key@) is Some,
        written matches Ok(pem) ==> private_key_pkcs1_pem(key@) == Some(pem@),
{
    let key = ::rsa::RsaPrivateKey::from_pkcs1_der(key).map_err(|e| e.to_string())?;
    ::pkcs1::EncodeRsaPrivateKey::to_pkcs1_pem(&key, ::pkcs1::LineEnding::LF)
        .map(|pem| pem.to_string())
        .map_err(|e| e.to_string())
}

/// Writes a private key as PKCS#8 PEM with line feeds.
///
/// Trusted: `EncodePrivateKey::to_pkcs8_pem` of `rsa`, on the key that
/// `key` decodes to.
#[verifier::external_body]
fn write_private_pkcs8_pem(key: &[u8]) -> (written: Result<String, String>)
    ensures
        written is Ok <==> private_key_pkcs8_pem(key@) is Some,
        written matches Ok(pem) ==> private_key_pkcs8_pem(key@) == Some(pem@),
{
    let key = ::rsa::RsaPrivateKey::from_pkcs1_der(key).map_err(|e| e.to_string())?;
    key.to_pkcs8_pem(LineEnding::LF).map(|pem| pem.to_string()).map_err(|e| e.to_string())
}

/// Reads a public key from PKCS#1 DER.
///
/// Trusted: `DecodeRsaPublicKey::from_pkcs1_der` of `rsa`; the key read is
/// handed back as `EncodeRsaPublicKey::to_pkcs1_der` writes it.
#[verifier::external_body]
fn read_public_pkcs1_der(bytes: &[u8]) -> (read: Result<Vec<u8>, String>)
    ensures
        read is Ok <==> public_key_from_pkcs1_der(bytes@) is Some,
        read matches Ok(der) ==> public_key_from_pkcs1_der(bytes@) == Some(der@),
{
    let key = ::rsa::RsaPublicKey::from_pkcs1_der(bytes).map_err(|e| e.to_string())?;
    key.to_pkcs1_der().map(|der| der.as_bytes().to_vec()).map_err(|e| e.to_string())
}

/// Reads a public key from PKCS#1 PEM.
///
/// Trusted: `DecodeRsaPublicKey::from_pkcs1_pem` of `rsa`; the key read is
/// handed back in PKCS#1 DER.
#[verifier::external_body]
fn read_public_pkcs1_pem(pem: &str) -> (read: Result<Vec<u8>, String>)
    ensures
        read is Ok <==> public_key_from_pkcs1_pem(pem@) is Some,
        read matches Ok(der) ==> public_key_from_pkcs1_pem(pem@) == Some(der@),
{
    let key = ::rsa::RsaPublicKey::from_pkcs1_pem(pem).map_err(|e| e.to_string())?;
    key.to_pkcs1_der().map(|der| der.as_bytes().to_vec()).map_err(|e| e.to_string())
}

/// Reads a public key from the PEM text of a SubjectPublicKeyInfo.
///
/// Trusted: `DecodePublicKey::from_public_key_pem` of `rsa`; the key read
/// is handed back in PKCS#1 DER.
#[verifier::external_body]
fn read_public_spki_pem(pem: &str) -> (read: Result<Vec<u8>, String>)
    ensures
        read is Ok <==> public_key_from_spki_pem(pem@) is Some,
        read matches Ok(der) ==> public_key_from_spki_pem(pem@) == Some(der@),
{
    let key = ::rsa::RsaPublicKey::from_public_key_pem(pem).map_err(|e| e.to_string())?;
    key.to_pkcs1_der().map(|der| der.as_bytes().to_vec()).map_err(|e| e.to_string())
}

/// Writes a public key as PKCS#1 PEM with line feeds.
///
/// Trusted: `EncodeRsaPublicKey::to_pkcs1_pem` of `pkcs1`, on the key of
/// `rsa` that `key` decodes to.
#[verifier::external_body]
fn write_public_pkcs1_pem(key: &[u8]) -> (written: Result<String, String>)
    ensures
        written is Ok <==> public_key_pkcs1_pem(key@) is Some,
        written matches Ok(pem) ==> public_key_pkcs1_pem(key@) == Some(pem@),
{
    let key = ::rsa::RsaPublicKey::from_pkcs1_der(key).map_err(|e| e.to_string())?;
    ::pkcs1::EncodeRsaPublicKey::to_pkcs1_pem(&key, ::pkcs1::LineEnding::LF)
        .map_err(|e| e.to_string())
}

/// Writes a public key as the PEM text of a SubjectPublicKeyInfo, with line
/// feeds.
///
/// Trusted: `EncodePublicKey::to_public_key_pem` of `rsa`, on the key that
/// `key` decodes to.
#[verifier::external_body]
fn write_public_spki_pem(key: &[u8]) -> (written: Result<String, String>)
    ensures
        written is Ok <==> public_key_spki_pem(key@) is Some,
        written matches Ok(pem) ==> public_key_spki_pem(key@) == Some(pem@),
{
    let key = ::rsa::RsaPublicKey::from_pkcs1_der(key).map_err(|e| e.to_string())?;
    key.to_public_key_pem(LineEnding::LF).map_err(|e| e.to_string())
}

/// Reads a PEM text and writes it again with the standard line width.
///
/// Trusted: `pem::parse` followed by `pem::encode`.
#[verifier::external_body]
fn rewrap_pem(pem: &str) -> (rewrapped: Result<String, String>)
    ensures
        rewrapped is Ok <==> pem_rewrapped(pem@) is Some,
        rewrapped matches Ok(text) ==> pem_rewrapped(pem@) == Some(text@),
{
    ::pem::parse(pem.as_bytes()).map(|parsed| ::pem::encode(&parsed)).map_err(|e| e.to_string())
}

/// Signs `message`.
///
/// Trusted: `Signer::try_sign` of the `SigningKey<Sha256>` that
/// `SigningKey::new` of `rsa` makes of the key that `key` decodes to. The
/// crate checks each signature against the public exponent before it hands
/// it out, and its verification repeats that computation: a signature that
/// comes back is accepted under the public half of the key, where the
/// public half can be read as a public key at all (the crate reads none of
/// more than 4096 bits).
#[verifier::external_body]
fn sign_sha256(key: &[u8], message: &[u8]) -> (signed: Result<Vec<u8>, String>)
    ensures
        signed is Ok <==> rsa_sha256_signature(key@, message@) is Some,
        signed matches Ok(signature) ==> rsa_sha256_signature(key@, message@) == Some(
            signature@,
        ),
        signed matches Ok(signature) ==> (has_public_half(key@) ==> rsa_sha256_accepts(
            public_half(key@)->Some_0,
            message@,
            signature@,
        )),
{
    let key = ::rsa::RsaPrivateKey::from_pkcs1_der(key).map_err(|e| e.to_string())?;
    let signing_key = ::rsa::pkcs1v15::SigningKey::<::sha2::Sha256>::new(key);
    signing_key.try_sign(message).map(|signature| signature.to_vec()).map_err(|e| e.to_string())
}

/// Checks `signature` against `message`.
///
/// Trusted: `Verifier::verify` of the `VerifyingKey<Sha256>` that
/// `VerifyingKey::new` of `rsa` makes of the key that `key` decodes to, on
/// the signature that `Signature::try_from` reads; `false` where one of
/// them fails.
#[verifier::external_body]
fn verify_sha256(key: &[u8], message: &[u8], signature: &[u8]) -> (accepted: bool)
    ensures
        accepted == rsa_sha256_accepts(key@, message@, signature@),
{
    let Ok(key) = ::rsa::RsaPublicKey::from_pkcs1_der(key) else { return false; };
    let Ok(signature) = ::rsa::pkcs1v15::Signature::try_from(signature) else { return false; };
    ::rsa::pkcs1v15::VerifyingKey::<::sha2::Sha256>::new(key).verify(message, &signature).is_ok()
}

/// Whether `key` is the encoding of a public key: read as PKCS#1 DER, it
/// gives the key with this very encoding.
pub open spec fn is_public_key(key: Seq<u8>) -> bool {
    public_key_from_pkcs1_der(key) == Some(key)
}

/// Whether the private key `key` has a public half that reads as a public
/// key.
pub open spec fn has_public_half(key: Seq<u8>) -> bool {
    public_half(key) matches Some(public) && is_public_key(public)
}

/// Whether `key` is the encoding of a private key: read as PKCS#1 DER, it
/// gives the key with this very encoding, and the key has a public half
/// that reads as a public key.
pub open spec fn is_private_key(key: Seq<u8>) -> bool {
    private_key_from_pkcs1_der(key) == Some(key) && has_public_half(key)
}

/// Whether a private key was read and its encoding is that of a private
/// key.
pub open spec fn is_key_read(read: Option<Seq<u8>>) -> bool {
    read matches Some(der) && is_private_key(der)
}

/// Whether a public key was read and its encoding is that of a public
/// key.
pub open spec fn is_public_key_read(read: Option<Seq<u8>>) -> bool {
    read matches Some(der) && is_public_key(der)
}

/// The public key with the encoding `der`; fails where `der`, read as
/// PKCS#1 DER, does not give the key with this very encoding.
fn public_key_of(der: Vec<u8>) -> (made: Result<RsaPublicKey, String>)
    ensures
        made is Ok <==> is_public_key(der@),
        made matches Ok(key) ==> key@ == der@,
{
    match read_public_pkcs1_der(der.as_slice()) {
        Ok(read) => {
            if bytes_eq(read.as_slice(), der.as_slice()) {
                Ok(RsaPublicKey { der })
            } else {
                Err(String::from_str("The key reads as another key."))
            }
        },
        Err(text) => Err(text),
    }
}

/// The key with the encoding `der`, together with its public half; fails
/// where `der`, read as PKCS#1 DER, does not give the key with this very
/// encoding, or the key has no public half that reads as a public key.
fn key_of(der: Vec<u8>) -> (made: Result<RsaPrivateKey, String>)
    ensures
        made is Ok <==> is_private_key(der@),
        made matches Ok(key) ==> key@ == der@,
{
    match read_private_pkcs1_der(der.as_slice()) {
        Ok(read) => {
            if !bytes_eq(read.as_slice(), der.as_slice()) {
                return Err(String::from_str("The key reads as another key."));
            }
        },
        Err(text) => {
            return Err(text);
        },
    }
    let public_der = match derive_public(der.as_slice()) {
        Ok(public_der) => public_der,
        Err(text) => {
            return Err(text);
        },
    };
    match read_public_pkcs1_der(public_der.as_slice()) {
        Ok(read) => {
            if bytes_eq(read.as_slice(), public_der.as_slice()) {
                Ok(RsaPrivateKey { der, public_der })
            } else {
                Err(String::from_str("The public half of the key reads as another key."))
            }
        },
        Err(text) => Err(text),
    }
}

/// Whether `key` is the encoding of a private key of `bits` bits.
pub open spec fn is_key_of_size(key: Seq<u8>, bits: usize) -> bool {
    is_private_key(key) && modulus_bits(key) == Some(bits)
}

/// Makes a key of what a generator handed out for a key of `bits` bits.
///
/// A generator that failed makes no key, and its words come back. An
/// encoding that it handed out makes the key that it encodes, where that
/// key has `bits` bits and a public half that reads as a public key.
fn key_of_size(generated: Result<Vec<u8>, String>, bits: usize) -> (made: Result<
    RsaPrivateKey,
    RsaError,
>)
    ensures
        made is Ok <==> (generated matches Ok(der) && is_key_of_size(der@, bits)),
        made matches Ok(key) ==> key@ == generated->Ok_0@,
        generated matches Err(words) ==> made->Err_0.0@ == words@,
{
    let der = match generated {
        Ok(der) => der,
        Err(words) => {
            return Err(RsaError(words));
        },
    };
    match count_modulus_bits(der.as_slice()) {
        Some(counted) => {
            if counted != bits {
                return Err(RsaError(String::from_str("The key has another size than asked for.")));
            }
        },
        None => {
            return Err(RsaError(String::from_str("The key cannot be read.")));
        },
    }
    match key_of(der) {
        Ok(key) => Ok(key),
        Err(words) => Err(RsaError(words)),
    }
}

/// Generates a key of 2048 bits from the randomness of the operating
/// system. Which key comes back is chance; a key that comes back has 2048
/// bits and a public half that reads as a public key.
pub fn generate_rsa_key() -> (made: Result<RsaPrivateKey, RsaError>)
    ensures
        made matches Ok(key) ==> is_key_of_size(key@, 2048),
{
    key_of_size(fresh_key(2048), 2048)
}

/// Generates a key of 512 bits from a fixed seed: quick to make and of no
/// use but in trials. A key that comes back has 512 bits and a public
/// half that reads as a public key.
pub fn generate_weak_rsa_key() -> (made: Result<RsaPrivateKey, RsaError>)
    ensures
        made matches Ok(key) ==> is_key_of_size(key@, 512),
{
    key_of_size(seeded_key(0, 512), 512)
}

/// The PKCS#1 DER encoding of a private key. Read again, it gives the key
/// back.
pub fn rsa_private_key_to_pkcs1_der(private_key: &RsaPrivateKey) -> (written: Result<
    Vec<u8>,
    RsaSerializationError,
>)
    ensures
        written is Ok,
        written->Ok_0@ == private_key@,
        is_private_key(private_key@),
{
    proof {
        use_type_invariant(private_key);
    }
    Ok(copy_bytes(&private_key.der))
}

/// Reads a private key from PKCS#1 DER.
pub fn rsa_private_key_from_pkcs1_der(bytes: &[u8]) -> (read: Result<
    RsaPrivateKey,
    RsaSerializationError,
>)
    ensures
        read is Ok <==> is_key_read(private_key_from_pkcs1_der(bytes@)),
        read matches Ok(key) ==> private_key_from_pkcs1_der(bytes@) == Some(key@),
        read matches Err(e) ==> e is Pkcs1Error,
{
    let der = match read_private_pkcs1_der(bytes) {
        Ok(der) => der,
        Err(message) => {
            return Err(RsaSerializationError::Pkcs1Error(message));
        },
    };
    match key_of(der) {
        Ok(key) => Ok(key),
        Err(message) => Err(RsaSerializationError::Pkcs1Error(message)),
    }
}

/// The PKCS#1 DER encoding of a public key. Read again, it gives the key
/// back.
pub fn rsa_public_key_to_pkcs1_der(public_key: &RsaPublicKey) -> (written: Result<
    Vec<u8>,
    RsaSerializationError,
>)
    ensures
        written is Ok,
        written->Ok_0@ == public_key@,
        is_public_key(public_key@),
{
    proof {
        use_type_invariant(public_key);
    }
    Ok(copy_bytes(&public_key.der))
}

/// Reads a public key from PKCS#1 DER.
pub fn rsa_public_key_from_pkcs1_der(bytes: &[u8]) -> (read: Result<
    RsaPublicKey,
    RsaSerializationError,
>)
    ensures
        read is Ok <==> is_public_key_read(public_key_from_pkcs1_der(bytes@)),
        read matches Ok(key) ==> public_key_from_pkcs1_der(bytes@) == Some(key@),
        read matches Err(e) ==> e is Pkcs1Error,
{
    let der = match read_public_pkcs1_der(bytes) {
        Ok(der) => der,
        Err(message) => {
            return Err(RsaSerializationError::Pkcs1Error(message));
        },
    };
    match public_key_of(der) {
        Ok(key) => Ok(key),
        Err(message) => Err(RsaSerializationError::Pkcs1Error(message)),
    }
}

/// Reads a private key from PKCS#1 PEM.
pub fn rsa_private_key_from_pkcs1_pem(private_key_pem: &str) -> (read: Result<
    RsaPrivateKey,
    RsaSerializationError,
>)
    ensures
        read is Ok <==> is_key_read(private_key_from_pkcs1_pem(private_key_pem@)),
        read matches Ok(key) ==> private_key_from_pkcs1_pem(private_key_pem@) == Some(key@),
        read matches Err(e) ==> e is Pkcs1Error,
{
    let der = match read_private_pkcs1_pem(private_key_pem) {
        Ok(der) => der,
        Err(message) => {
            return Err(RsaSerializationError::Pkcs1Error(message));
        },
    };
    match key_of(der) {
        Ok(key) => Ok(key),
        Err(message) => Err(RsaSerializationError::Pkcs1Error(message)),
    }
}

/// The PKCS#1 PEM text of a private key, with line feeds.
pub fn rsa_private_key_to_pkcs1_pem(private_key: &RsaPrivateKey) -> (written: Result<
    String,
    RsaSerializationError,
>)
    ensures
        written is Ok <==> private_key_pkcs1_pem(private_key@) is Some,
        written matches Ok(pem) ==> private_key_pkcs1_pem(private_key@) == Some(pem@),
        written matches Err(e) ==> e is Pkcs1Error,
{
    match write_private_pkcs1_pem(private_key.der.as_slice()) {
        Ok(pem) => Ok(pem),
        Err(message) => Err(RsaSerializationError::Pkcs1Error(message)),
    }
}

/// The PKCS#8 PEM text of a private key, with line feeds.
pub fn rsa_private_key_to_pkcs8_pem(private_key: &RsaPrivateKey) -> (written: Result<
    String,
    RsaSerializationError,
>)
    ensures
        written is Ok <==> private_key_pkcs8_pem(private_key@) is Some,
        written matches Ok(pem) ==> private_key_pkcs8_pem(private_key@) == Some(pem@),
        written matches Err(e) ==> e is Pkcs8Error,
{
    match write_private_pkcs8_pem(private_key.der.as_slice()) {
        Ok(pem) => Ok(pem),
        Err(message) => Err(RsaSerializationError::Pkcs8Error(message)),
    }
}

/// Reads a private key from PKCS#8 PEM.
pub fn rsa_private_key_from_pkcs8_pem(private_key_pem: &str) -> (read: Result<
    RsaPrivateKey,
    RsaSerializationError,
>)
    ensures
        read is Ok <==> is_key_read(private_key_from_pkcs8_pem(private_key_pem@)),
        read matches Ok(key) ==> private_key_from_pkcs8_pem(private_key_pem@) == Some(key@),
        read matches Err(e) ==> e is Pkcs8Error,
{
    let der = match read_private_pkcs8_pem(private_key_pem) {
        Ok(der) => der,
        Err(message) => {
            return Err(RsaSerializationError::Pkcs8Error(message));
        },
    };
    match key_of(der) {
        Ok(key) => Ok(key),
        Err(message) => Err(RsaSerializationError::Pkcs8Error(message)),
    }
}

/// The PKCS#1 PEM text of a public key, with line feeds.
pub fn rsa_public_key_to_pkcs1_pem(public_key: &RsaPublicKey) -> (written: Result<
    String,
    RsaSerializationError,
>)
    ensures
        written is Ok <==> public_key_pkcs1_pem(public_key@) is Some,
        written matches Ok(pem) ==> public_key_pkcs1_pem(public_key@) == Some(pem@),
        written matches Err(e) ==> e is Pkcs1Error,
{
    match write_public_pkcs1_pem(public_key.der.as_slice()) {
        Ok(pem) => Ok(pem),
        Err(message) => Err(RsaSerializationError::Pkcs1Error(message)),
    }
}

/// The PEM text of the SubjectPublicKeyInfo of a public key, with line
/// feeds.
pub fn rsa_public_key_to_pkcs8_pem(public_key: &RsaPublicKey) -> (written: Result<
    String,
    RsaSerializationError,
>)
    ensures
        written is Ok <==> public_key_spki_pem(public_key@) is Some,
        written matches Ok(pem) ==> public_key_spki_pem(public_key@) == Some(pem@),
        written matches Err(e) ==> e is Pkcs8Error,
{
    match write_public_spki_pem(public_key.der.as_slice()) {
        Ok(pem) => Ok(pem),
        Err(message) => Err(RsaSerializationError::Pkcs8Error(message)),
    }
}

/// The marker of a PKCS#1 public key in a PEM text.
pub open spec fn pkcs1_public_marker() -> Seq<char> {
    "BEGIN RSA PUBLIC KEY"@
}

/// What reading the PEM text `pem` of a public key gives: the key, or the
/// kind of text that was refused. A text is also refused where the key it
/// holds does not read back from its own encoding.
pub open spec fn deserialized_public_key(pem: Seq<char>) -> Result<Seq<u8>, PublicKeyRefusal> {
    if contains_text(pem, pkcs1_public_marker()) {
        if is_public_key_read(public_key_from_pkcs1_pem(trimmed(pem))) {
            Ok(public_key_from_pkcs1_pem(trimmed(pem))->Some_0)
        } else {
            Err(PublicKeyRefusal::Pkcs1)
        }
    } else {
        match pem_rewrapped(trimmed(pem)) {
            None => Err(PublicKeyRefusal::Pem),
            Some(text) => if is_public_key_read(public_key_from_spki_pem(text)) {
                Ok(public_key_from_spki_pem(text)->Some_0)
            } else {
                Err(PublicKeyRefusal::Pkcs8)
            },
        }
    }
}

/// Which text of a public key was refused.
pub enum PublicKeyRefusal {
    Pkcs1,
    Pkcs8,
    Pem,
}

/// The kind of text that an error stands for.
pub open spec fn refusal_of(e: RsaSerializationError) -> PublicKeyRefusal {
    match e {
        RsaSerializationError::Pkcs1Error(_) => PublicKeyRefusal::Pkcs1,
        RsaSerializationError::Pkcs8Error(_) => PublicKeyRefusal::Pkcs8,
        RsaSerializationError::PemError(_) => PublicKeyRefusal::Pem,
    }
}

/// Reads a public key from PEM. A text that holds the PKCS#1 marker is read
/// as PKCS#1. Any other is read as a SubjectPublicKeyInfo, after its lines
/// were wrapped anew: remote servers send lines of any width. Blank space
/// around the text is dropped first.
pub fn deserialize_rsa_public_key(public_key_pem: &str) -> (read: Result<
    RsaPublicKey,
    RsaSerializationError,
>)
    ensures
        read matches Ok(key) ==> deserialized_public_key(public_key_pem@) == Ok::<
            Seq<u8>,
            PublicKeyRefusal,
        >(key@),
        read matches Err(e) ==> deserialized_public_key(public_key_pem@) == Err::<
            Seq<u8>,
            PublicKeyRefusal,
        >(refusal_of(e)),
{
    let inner = trim(public_key_pem);
    if has_text(public_key_pem, "BEGIN RSA PUBLIC KEY") {
        let der = match read_public_pkcs1_pem(inner.as_str()) {
            Ok(der) => der,
            Err(message) => {
                return Err(RsaSerializationError::Pkcs1Error(message));
            },
        };
        return match public_key_of(der) {
            Ok(key) => Ok(key),
            Err(message) => Err(RsaSerializationError::Pkcs1Error(message)),
        };
    }
    match rewrap_pem(inner.as_str()) {
        Err(message) => Err(RsaSerializationError::PemError(message)),
        Ok(text) => {
            let der = match read_public_spki_pem(text.as_str()) {
                Ok(der) => der,
                Err(message) => {
                    return Err(RsaSerializationError::Pkcs8Error(message));
                },
            };
            match public_key_of(der) {
                Ok(key) => Ok(key),
                Err(message) => Err(RsaSerializationError::Pkcs8Error(message)),
            }
        },
    }
}

/// Signs `message` with RSASSA-PKCS1-v1_5 over SHA-256. A signature that
/// comes back is accepted under the public half of the key.
pub fn create_rsa_sha256_signature(private_key: &RsaPrivateKey, message: &str) -> (signed: Result<
    Vec<u8>,
    RsaError,
>)
    ensures
        signed is Ok <==> rsa_sha256_signature(private_key@, message.spec_bytes()) is Some,
        signed matches Ok(signature) ==> rsa_sha256_signature(
            private_key@,
            message.spec_bytes(),
        ) == Some(signature@),
        signed matches Ok(signature) ==> (public_half(private_key@) matches Some(public)
            && rsa_sha256_accepts(public, message.spec_bytes(), signature@)),
{
    proof {
        use_type_invariant(private_key);
    }
    match sign_sha256(private_key.der.as_slice(), message.as_bytes()) {
        Ok(signature) => Ok(signature),
        Err(text) => Err(RsaError(text)),
    }
}

/// Whether `signature` is the RSASSA-PKCS1-v1_5 signature over SHA-256 of
/// `message` under `public_key`.
pub fn verify_rsa_sha256_signature(public_key: &RsaPublicKey, message: &str, signature: &[u8]) -> (accepted:
    bool)
    ensures
        accepted == rsa_sha256_accepts(public_key@, message.spec_bytes(), signature@),
{
    verify_sha256(public_key.der.as_slice(), message.as_bytes(), signature)
}

} // verus!
