//! Symmetric encryption of stored OAuth tokens with `magic_crypt`
//! (AES-256-CBC, key = SHA-256 of the configured key, zero IV, PKCS#7
//! padding, standard base64 text).
use magic_crypt::{MagicCrypt256, MagicCryptTrait};
use vstd::prelude::*;

verus! {

/// The base64 cipher text `MagicCrypt256::new(key, None).encrypt_str_to_base64(plain)` gives.
pub uninterp spec fn spec_encrypt(key: Seq<char>, plain: Seq<char>) -> Seq<char>;

/// The plain text `MagicCrypt256::new(key, None).decrypt_base64_to_string(cipher)`
/// gives, or `None` where it returns an error.
pub uninterp spec fn spec_decrypt(key: Seq<char>, cipher: Seq<char>) -> Option<Seq<char>>;

/// Calls `MagicCrypt256::new(key, None::<String>).encrypt_str_to_base64(plain)`.
/// Trusted: the cipher text is the name applied to the arguments (the key and
/// IV are fixed by `key`, so the result depends on the arguments alone).
#[verifier::external_body]
pub(crate) fn encrypt_str_to_base64(key: &str, plain: &str) -> (cipher: String)
    ensures
        cipher@ == spec_encrypt(key@, plain@),
{
    MagicCrypt256::new(key, None::<String>).encrypt_str_to_base64(plain)
}

/// Calls `MagicCrypt256::new(key, None::<String>).decrypt_base64_to_string(cipher)`
/// and keeps the plain text of a success. Trusted: the result is the name
/// applied to the arguments, and decrypting what `encrypt_str_to_base64` wrote
/// under the same key gives back the plain text (base64 decoding, AES-CBC
/// decryption with the same key and IV, PKCS#7 unpadding and UTF-8 decoding
/// undo the encryption of a string).
#[verifier::external_body]
pub(crate) fn decrypt_base64_to_string(key: &str, cipher: &str) -> (plain: Option<String>)
    ensures
        plain is Some <==> spec_decrypt(key@, cipher@) is Some,
        plain matches Some(p) ==> spec_decrypt(key@, cipher@) == Some(p@),
        plain matches Some(p) ==> forall|q: Seq<char>| #[trigger] spec_encrypt(key@, q) == cipher@ ==> p@ == q,
        plain is None ==> forall|q: Seq<char>| #[trigger] spec_encrypt(key@, q) != cipher@,
{
    MagicCrypt256::new(key, None::<String>).decrypt_base64_to_string(cipher).ok()
}

} // verus!
