//! Base64 (the `base64` crate), AES-256-CBC with PKCS#7 padding (the `aes`
//! and `cbc` crates) and UTF-8 decoding of byte strings.
use base64::Engine;
use cbc::cipher::{block_padding::Pkcs7, BlockDecryptMut, BlockEncryptMut, KeyIvInit};
use vstd::prelude::*;

verus! {

/// What the standard base64 engine decodes `s` to, or the text of its error.
pub uninterp spec fn b64_std_decode_spec(s: Seq<char>) -> Result<Seq<u8>, Seq<char>>;

/// What the standard base64 engine that accepts non-zero trailing bits decodes
/// `s` to, or the text of its error.
pub uninterp spec fn b64_lenient_decode_spec(s: Seq<char>) -> Result<Seq<u8>, Seq<char>>;

/// The padded standard base64 text of `bytes`.
pub uninterp spec fn b64_std_encode_spec(bytes: Seq<u8>) -> Seq<char>;

/// AES-256-CBC encryption of `plain` under `key` and `iv`, PKCS#7 padded.
pub uninterp spec fn aes_cbc_encrypt_spec(key: Seq<u8>, iv: Seq<u8>, plain: Seq<u8>) -> Seq<u8>;

/// AES-256-CBC decryption of `cipher` under `key` and `iv` with PKCS#7
/// unpadding; `None` where the padding is invalid.
pub uninterp spec fn aes_cbc_decrypt_spec(key: Seq<u8>, iv: Seq<u8>, cipher: Seq<u8>) -> Option<Seq<u8>>;

/// The text of the error that `String::from_utf8` reports for invalid bytes.
pub uninterp spec fn utf8_error_spec(bytes: Seq<u8>) -> Seq<char>;

/// `base64::engine::general_purpose::STANDARD.decode`.
/// Trusted: the result is the engine's decoding of `s`, or its error rendered as text.
#[verifier::external_body]
pub(crate) fn b64_std_decode(s: &str) -> (r: Result<Vec<u8>, String>)
    ensures
        match r {
            Ok(v) => b64_std_decode_spec(s@) == Ok::<Seq<u8>, Seq<char>>(v@),
            Err(m) => b64_std_decode_spec(s@) == Err::<Seq<u8>, Seq<char>>(m@),
        },
{
    base64::engine::general_purpose::STANDARD.decode(s).map_err(|err| err.to_string())
}

/// `GeneralPurpose::decode` of the standard alphabet, configured with
/// `with_decode_allow_trailing_bits(true)`.
/// Trusted: the result is that engine's decoding of `s`, or its error rendered as text.
#[verifier::external_body]
pub(crate) fn b64_lenient_decode(s: &str) -> (r: Result<Vec<u8>, String>)
    ensures
        match r {
            Ok(v) => b64_lenient_decode_spec(s@) == Ok::<Seq<u8>, Seq<char>>(v@),
            Err(m) => b64_lenient_decode_spec(s@) == Err::<Seq<u8>, Seq<char>>(m@),
        },
{
    let engine = base64::engine::general_purpose::GeneralPurpose::new(
        &base64::alphabet::STANDARD,
        base64::engine::general_purpose::GeneralPurposeConfig::new().with_decode_allow_trailing_bits(
            true,
        ),
    );
    engine.decode(s).map_err(|err| err.to_string())
}

/// `base64::engine::general_purpose::STANDARD.encode`.
/// Trusted: the result is the padded base64 text of `bytes`, which the same
/// engine decodes back to `bytes`.
#[verifier::external_body]
pub(crate) fn b64_std_encode(bytes: &[u8]) -> (r: String)
    ensures
        r@ == b64_std_encode_spec(bytes@),
        b64_std_decode_spec(r@) is Ok && b64_std_decode_spec(r@)->Ok_0 == bytes@,
{
    base64::engine::general_purpose::STANDARD.encode(bytes)
}

/// `cbc::Encryptor::<aes::Aes256>::encrypt_padded_vec_mut::<Pkcs7>`.
/// Trusted: the result is the AES-256-CBC encryption of `plain`, and
/// decryption under the same key and iv gives `plain` back.
#[verifier::external_body]
pub(crate) fn aes_cbc_encrypt(key: &[u8], iv: &[u8], plain: &[u8]) -> (r: Vec<u8>)
    requires
        key@.len() == 32,
        iv@.len() == 16,
    ensures
        r@ == aes_cbc_encrypt_spec(key@, iv@, plain@),
        aes_cbc_decrypt_spec(key@, iv@, r@) == Some(plain@),
{
    cbc::Encryptor::<aes::Aes256>::new_from_slices(key, iv)
        .expect("key and iv lengths are checked by the caller")
        .encrypt_padded_vec_mut::<Pkcs7>(plain)
}

/// `cbc::Decryptor::<aes::Aes256>::decrypt_padded_vec_mut::<Pkcs7>`.
/// Trusted: the result is the AES-256-CBC decryption of `cipher`, or `None`
/// where the crate reports an unpadding error.
#[verifier::external_body]
pub(crate) fn aes_cbc_decrypt(key: &[u8], iv: &[u8], cipher: &[u8]) -> (r: Option<Vec<u8>>)
    requires
        key@.len() == 32,
        iv@.len() == 16,
    ensures
        match r {
            Some(v) => aes_cbc_decrypt_spec(key@, iv@, cipher@) == Some(v@),
            None => aes_cbc_decrypt_spec(key@, iv@, cipher@) is None,
        },
{
    cbc::Decryptor::<aes::Aes256>::new_from_slices(key, iv)
        .expect("key and iv lengths are checked by the caller")
        .decrypt_padded_vec_mut::<Pkcs7>(cipher)
        .ok()
}

/// `String::from_utf8`.
/// Trusted: bytes that are valid UTF-8 give the string they encode; others
/// give the text of the error.
#[verifier::external_body]
pub(crate) fn utf8_string(bytes: Vec<u8>) -> (r: Result<String, String>)
    ensures
        match r {
            Ok(s) => vstd::utf8::valid_utf8(bytes@) && s@ == vstd::utf8::decode_utf8(bytes@),
            Err(m) => !vstd::utf8::valid_utf8(bytes@) && m@ == utf8_error_spec(bytes@),
        },
{
    String::from_utf8(bytes).map_err(|err| err.to_string())
}

} // verus!
