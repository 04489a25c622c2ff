use vstd::prelude::*;
use std::str::FromStr;
use bitcoin_encrypted_backup::miniscript::{Descriptor, DescriptorPublicKey};
use bitcoin_encrypted_backup::{Decrypted, EncryptedBackup};

verus! {

/// Outcome of one decryption attempt on a structurally valid payload.
#[derive(Debug, Clone, PartialEq, Eq)]
pub enum DecryptOutcome {
    /// Decryption succeeded and the plaintext is a descriptor, given here in
    /// its canonical text form.
    Descriptor(String),
    /// Decryption succeeded but the plaintext is not of the descriptor kind.
    NotDescriptor,
    /// No key matched: the payload could not be decrypted.
    Failure,
}

/// Whether a byte sequence is a structurally well-formed encrypted backup
/// container; a function of the bytes alone.
pub uninterp spec fn payload_structure_ok(bytes: Seq<u8>) -> bool;

/// Relies on `EncryptedBackup::set_encrypted_payload`: whether the bytes
/// decode as a backup container, a structural check independent of any key.
#[verifier::external_body]
pub(crate) fn payload_structure_is_valid(bytes: &Vec<u8>) -> (r: bool)
    ensures
        r == payload_structure_ok(bytes@),
{
    EncryptedBackup::new().set_encrypted_payload(bytes).is_ok()
}

/// Whether a string parses as a public descriptor key; a function of the
/// characters alone.
pub uninterp spec fn key_ok(s: Seq<char>) -> bool;

/// Relies on `DescriptorPublicKey::from_str`: whether the string parses as a
/// public descriptor key.
#[verifier::external_body]
pub(crate) fn key_is_valid(s: &str) -> (r: bool)
    ensures
        r == key_ok(s@),
{
    DescriptorPublicKey::from_str(s).is_ok()
}

/// Whether a string parses as an output descriptor; a function of the
/// characters alone.
pub uninterp spec fn descriptor_ok(s: Seq<char>) -> bool;

/// Relies on `Descriptor::<DescriptorPublicKey>::from_str`: whether the
/// string parses as an output descriptor.
#[verifier::external_body]
pub(crate) fn descriptor_is_valid(s: &str) -> (r: bool)
    ensures
        r == descriptor_ok(s@),
{
    Descriptor::<DescriptorPublicKey>::from_str(s).is_ok()
}

/// What decrypting a payload with one key yields; a function of the payload
/// and the key alone. `None` means no key matched; `Some(None)` means the
/// plaintext is not a descriptor; `Some(Some(d))` gives the descriptor's
/// canonical text.
pub uninterp spec fn decryption(payload: Seq<u8>, key: Seq<char>) -> Option<Option<Seq<char>>>;

/// Relies on `EncryptedBackup::decrypt` (with `set_keys`,
/// `set_encrypted_payload`, `descriptor::dpk_to_pk` and
/// `DescriptorPublicKey::from_str` to assemble its input): attempts to
/// decrypt the payload with the single key given as a string.
#[verifier::external_body]
pub(crate) fn decrypt_payload(payload: &Vec<u8>, key: &str) -> (r: DecryptOutcome)
    requires
        payload_structure_ok(payload@),
        key_ok(key@),
    ensures
        match r {
            DecryptOutcome::Descriptor(d) => decryption(payload@, key@) == Some(Some(d@)),
            DecryptOutcome::NotDescriptor => decryption(payload@, key@) == Some(
                None::<Seq<char>>,
            ),
            DecryptOutcome::Failure => decryption(payload@, key@) is None,
        },
{
    let dpk = DescriptorPublicKey::from_str(key).expect("checked by the caller");
    let backup = EncryptedBackup::new()
        .set_keys(vec![bitcoin_encrypted_backup::descriptor::dpk_to_pk(&dpk)])
        .set_encrypted_payload(payload)
        .expect("checked by the caller");
    match backup.decrypt() {
        Ok(Decrypted::Descriptor(d)) => DecryptOutcome::Descriptor(d.to_string()),
        Ok(_) => DecryptOutcome::NotDescriptor,
        Err(_) => DecryptOutcome::Failure,
    }
}

/// What encrypting a descriptor under a given nonce yields; a function of the
/// descriptor text and the nonce alone. `Err` carries the crypto library's
/// own account of the failure.
pub uninterp spec fn encryption(desc: Seq<char>, nonce: Seq<u8>) -> Result<Seq<u8>, Seq<char>>;

/// Relies on `EncryptedBackup::encrypt` (with `set_payload` and
/// `Descriptor::<DescriptorPublicKey>::from_str` to assemble its input):
/// encrypts the descriptor under the given nonce, deriving the encryption
/// keys from the descriptor's own public keys.
#[verifier::external_body]
pub(crate) fn encrypt_descriptor(desc: &str, nonce: [u8; 12]) -> (r: Result<Vec<u8>, String>)
    requires
        descriptor_ok(desc@),
    ensures
        match r {
            Ok(bytes) => encryption(desc@, nonce@) == Ok::<Seq<u8>, Seq<char>>(bytes@),
            Err(e) => encryption(desc@, nonce@) == Err::<Seq<u8>, Seq<char>>(e@),
        },
{
    let d = Descriptor::<DescriptorPublicKey>::from_str(desc).expect("checked by the caller");
    match EncryptedBackup::new().set_payload(&d) {
        Ok(backup) => match backup.encrypt(nonce) {
            Ok(bytes) => Ok(bytes),
            Err(e) => Err(format!("{:?}", e)),
        },
        Err(e) => Err(format!("{:?}", e)),
    }
}

/// Relies on `getrandom::fill`: draws 12 bytes from the operating system's
/// cryptographically secure source. Nothing can be promised of the value;
/// `None` reports that the source failed.
#[verifier::external_body]
pub(crate) fn generate_nonce() -> (r: Option<[u8; 12]>)
{
    let mut buf = [0u8; 12];
    match getrandom::fill(&mut buf) {
        Ok(()) => Some(buf),
        Err(_) => None,
    }
}

} // verus!
