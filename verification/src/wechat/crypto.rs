//! WeChat's encrypted callback mode: AES-256-CBC under the key decoded from
//! `EncodingAESKey`, over a frame of 16 random bytes, the message length as
//! a big-endian `u32`, the message and the app id.
use vstd::prelude::*;

use crate::codec::{
    self, aes_cbc_decrypt, aes_cbc_encrypt, b64_lenient_decode, b64_std_decode, b64_std_encode,
    utf8_string,
};
use crate::error::{BridgeError, ErrorKind, ErrorView};
use crate::text::{push_str, str_eq, string_from};
use crate::wechat::signature::{
    self, calculate_encrypted_signature, verify_encrypted_signature,
};

verus! {

/// The encrypted payload of an encrypted callback body.
#[derive(Debug, Clone, PartialEq, Eq)]
pub struct EncryptedEnvelope {
    pub encrypted_payload: String,
}

/// A decrypted callback: the plain message XML and the app id it was sent to.
#[derive(Debug, Clone, PartialEq, Eq)]
pub struct DecryptedMessage {
    pub xml: String,
    pub app_id: String,
}

impl View for DecryptedMessage {
    type V = (Seq<char>, Seq<char>);

    open spec fn view(&self) -> (Seq<char>, Seq<char>) {
        (self.xml@, self.app_id@)
    }
}

/// The 16 bytes that open every frame the bridge encrypts: `"0123456789abcdef"`.
pub open spec fn frame_prefix_spec() -> Seq<u8> {
    Seq::new(16, |i: int| if i < 10 { (48 + i) as u8 } else { (87 + i) as u8 })
}

/// The big-endian bytes of a 32-bit number.
pub open spec fn be32_spec(n: nat) -> Seq<u8> {
    seq![
        ((n / 16777216) % 256) as u8,
        ((n / 65536) % 256) as u8,
        ((n / 256) % 256) as u8,
        (n % 256) as u8,
    ]
}

/// The number that four big-endian bytes denote.
pub open spec fn be32_value(b: Seq<u8>) -> nat {
    (b[0] as nat) * 16777216 + (b[1] as nat) * 65536 + (b[2] as nat) * 256 + (b[3] as nat)
}

/// The AES key that an `EncodingAESKey` stands for: the 43 characters with
/// `=` appended, base64-decoded, must give 32 bytes.
pub open spec fn aes_key_spec(encoding_aes_key: Seq<char>) -> Result<Seq<u8>, ErrorView> {
    if vstd::utf8::encode_utf8(encoding_aes_key).len() as usize != 43 {
        Err((ErrorKind::Config, "WECHAT_ENCODING_AES_KEY must be 43 characters"@))
    } else {
        match codec::b64_lenient_decode_spec(encoding_aes_key + "="@) {
            Err(m) => Err((ErrorKind::Config, "invalid WECHAT_ENCODING_AES_KEY: "@ + m)),
            Ok(bytes) => if bytes.len() == 32 {
                Ok(bytes)
            } else {
                Err((ErrorKind::Config, "WECHAT_ENCODING_AES_KEY must decode to 32 bytes"@))
            },
        }
    }
}

/// The frame that is encrypted for a message and an app id.
pub open spec fn frame_spec(xml: Seq<char>, app_id: Seq<char>) -> Seq<u8> {
    let body = vstd::utf8::encode_utf8(xml);
    frame_prefix_spec() + be32_spec(body.len() % 4294967296) + body + vstd::utf8::encode_utf8(
        app_id,
    )
}

/// The base64 text of the encrypted frame.
pub open spec fn encrypt_payload_spec(key: Seq<u8>, xml: Seq<char>, app_id: Seq<char>) -> Seq<
    char,
> {
    codec::b64_std_encode_spec(codec::aes_cbc_encrypt_spec(key, key.take(16), frame_spec(xml, app_id)))
}

/// The plaintext of an encrypted payload.
pub open spec fn decrypt_payload_spec(key: Seq<u8>, payload: Seq<char>) -> Result<
    Seq<u8>,
    ErrorView,
> {
    match codec::b64_std_decode_spec(payload) {
        Err(m) => Err((ErrorKind::ExternalPayloadInvalid, m)),
        Ok(cipher) => match codec::aes_cbc_decrypt_spec(key, key.take(16), cipher) {
            None => Err((ErrorKind::ExternalPayloadInvalid, "decrypt failed: Unpad Error"@)),
            Some(plain) => Ok(plain),
        },
    }
}

/// Bytes read as UTF-8 text.
pub open spec fn utf8_text_spec(bytes: Seq<u8>) -> Result<Seq<char>, ErrorView> {
    if vstd::utf8::valid_utf8(bytes) {
        Ok(vstd::utf8::decode_utf8(bytes))
    } else {
        Err((ErrorKind::ExternalPayloadInvalid, codec::utf8_error_spec(bytes)))
    }
}

/// The message and the app id that a decrypted frame holds.
pub open spec fn split_plaintext_spec(plain: Seq<u8>) -> Result<(Seq<char>, Seq<char>), ErrorView> {
    if plain.len() < 20 {
        Err((ErrorKind::ExternalPayloadInvalid, "decrypted payload too short"@))
    } else {
        let xml_end = 20 + be32_value(plain.subrange(16, 20));
        if plain.len() < xml_end {
            Err(
                (
                    ErrorKind::ExternalPayloadInvalid,
                    "decrypted message length exceeds payload"@,
                ),
            )
        } else {
            match utf8_text_spec(plain.subrange(20, xml_end as int)) {
                Err(e) => Err(e),
                Ok(xml) => match utf8_text_spec(plain.subrange(xml_end as int, plain.len() as int)) {
                    Err(e) => Err(e),
                    Ok(app_id) => Ok((xml, app_id)),
                },
            }
        }
    }
}

/// What decrypting an encrypted callback gives.
pub open spec fn decrypt_callback_spec(
    token: Seq<char>,
    encoding_aes_key: Seq<char>,
    expected_app_id: Seq<char>,
    timestamp: Seq<char>,
    nonce: Seq<char>,
    msg_signature: Seq<char>,
    encrypted_payload: Seq<char>,
) -> Result<(Seq<char>, Seq<char>), ErrorView> {
    if msg_signature != signature::signature_spec(
        seq![token, timestamp, nonce, encrypted_payload],
    ) {
        Err((ErrorKind::WechatSignatureInvalid, Seq::empty()))
    } else {
        match aes_key_spec(encoding_aes_key) {
            Err(e) => Err(e),
            Ok(key) => match decrypt_payload_spec(key, encrypted_payload) {
                Err(e) => Err(e),
                Ok(plain) => match split_plaintext_spec(plain) {
                    Err(e) => Err(e),
                    Ok((xml, app_id)) => if app_id != expected_app_id {
                        Err(
                            (
                                ErrorKind::Config,
                                "decrypted appid mismatch: expected "@ + expected_app_id
                                    + ", got "@ + app_id,
                            ),
                        )
                    } else {
                        Ok((xml, app_id))
                    },
                },
            },
        }
    }
}

/// The encrypted payload and signature of a message.
pub open spec fn encrypt_callback_spec(
    token: Seq<char>,
    encoding_aes_key: Seq<char>,
    app_id: Seq<char>,
    timestamp: Seq<char>,
    nonce: Seq<char>,
    xml: Seq<char>,
) -> Result<(Seq<char>, Seq<char>), ErrorView> {
    match aes_key_spec(encoding_aes_key) {
        Err(e) => Err(e),
        Ok(key) => {
            let payload = encrypt_payload_spec(key, xml, app_id);
            Ok((payload, signature::signature_spec(seq![token, timestamp, nonce, payload])))
        },
    }
}

/// The XML envelope of an encrypted passive reply.
pub open spec fn reply_envelope_spec(
    payload: Seq<char>,
    signature: Seq<char>,
    timestamp: Seq<char>,
    nonce: Seq<char>,
) -> Seq<char> {
    "<xml><Encrypt><![CDATA["@ + payload + "]]></Encrypt><MsgSignature><![CDATA["@ + signature
        + "]]></MsgSignature><TimeStamp>"@ + timestamp + "</TimeStamp><Nonce><![CDATA["@ + nonce
        + "]]></Nonce></xml>"@
}

/// An error made of a kind and a literal message.
fn error_with(kind: ErrorKind, message: &str) -> (e: BridgeError)
    requires
        kind != ErrorKind::WechatSignatureInvalid,
    ensures
        e@ == (kind, message@),
{
    let m = string_from(message);
    match kind {
        ErrorKind::Config => BridgeError::Config(m),
        ErrorKind::WechatSignatureInvalid => BridgeError::WechatSignatureInvalid,
        ErrorKind::WechatXmlInvalid => BridgeError::WechatXmlInvalid(m),
        ErrorKind::MessageUnsupported => BridgeError::MessageUnsupported(m),
        ErrorKind::UrlNotAllowed => BridgeError::UrlNotAllowed(m),
        ErrorKind::Io => BridgeError::Io(m),
        ErrorKind::PathOutsideRoot => BridgeError::PathOutsideRoot(m),
        ErrorKind::Database => BridgeError::Database(m),
        ErrorKind::ExternalRequest => BridgeError::ExternalRequest(m),
        ErrorKind::ExternalPayloadInvalid => BridgeError::ExternalPayloadInvalid(m),
    }
}

/// The 32-byte AES key that an `EncodingAESKey` stands for.
pub fn decode_encoding_aes_key(encoding_aes_key: &str) -> (r: Result<Vec<u8>, BridgeError>)
    ensures
        match r {
            Ok(key) => aes_key_spec(encoding_aes_key@) == Ok::<Seq<u8>, ErrorView>(key@),
            Err(e) => aes_key_spec(encoding_aes_key@) == Err::<Seq<u8>, ErrorView>(e@),
        },
{
    if encoding_aes_key.len() != 43 {
        return Err(
            BridgeError::Config(string_from("WECHAT_ENCODING_AES_KEY must be 43 characters")),
        );
    }
    let mut padded = string_from(encoding_aes_key);
    push_str(&mut padded, "=");
    match b64_lenient_decode(padded.as_str()) {
        Err(m) => {
            let mut message = string_from("invalid WECHAT_ENCODING_AES_KEY: ");
            push_str(&mut message, m.as_str());
            Err(BridgeError::Config(message))
        },
        Ok(bytes) => if bytes.len() == 32 {
            Ok(bytes)
        } else {
            Err(
                BridgeError::Config(
                    string_from("WECHAT_ENCODING_AES_KEY must decode to 32 bytes"),
                ),
            )
        },
    }
}

/// The first 16 bytes of the key, which WeChat uses as the IV.
fn iv_of(key: &Vec<u8>) -> (iv: Vec<u8>)
    requires
        key@.len() == 32,
    ensures
        iv@ == key@.take(16),
{
    let mut iv: Vec<u8> = Vec::new();
    let mut i: usize = 0;
    while i < 16
        invariant
            key@.len() == 32,
            i <= 16,
            iv@ == key@.take(i as int),
        decreases 16 - i,
    {
        iv.push(key[i]);
        assert(key@.take(i + 1) == key@.take(i as int).push(key@[i as int]));
        i += 1;
    }
    iv
}

fn decrypt_payload(key: &Vec<u8>, encrypted_payload: &str) -> (r: Result<Vec<u8>, BridgeError>)
    requires
        key@.len() == 32,
    ensures
        match r {
            Ok(plain) => decrypt_payload_spec(key@, encrypted_payload@) == Ok::<
                Seq<u8>,
                ErrorView,
            >(plain@),
            Err(e) => decrypt_payload_spec(key@, encrypted_payload@) == Err::<Seq<u8>, ErrorView>(
                e@,
            ),
        },
{
    let cipher = match b64_std_decode(encrypted_payload) {
        Ok(bytes) => bytes,
        Err(m) => return Err(BridgeError::ExternalPayloadInvalid(m)),
    };
    let iv = iv_of(key);
    match aes_cbc_decrypt(key.as_slice(), iv.as_slice(), cipher.as_slice()) {
        Some(plain) => Ok(plain),
        None => Err(error_with(ErrorKind::ExternalPayloadInvalid, "decrypt failed: Unpad Error")),
    }
}

/// The frame prefix `"0123456789abcdef"`.
fn frame_prefix() -> (v: Vec<u8>)
    ensures
        v@ == frame_prefix_spec(),
{
    let mut v: Vec<u8> = Vec::new();
    let mut i: u8 = 0;
    while i < 16
        invariant
            i <= 16,
            v@ == frame_prefix_spec().take(i as int),
        decreases 16 - i,
    {
        let b: u8 = if i < 10 {
            48 + i
        } else {
            87 + i
        };
        v.push(b);
        assert(frame_prefix_spec().take(i + 1) =~= frame_prefix_spec().take(i as int).push(b));
        i += 1;
    }
    assert(frame_prefix_spec().take(16) =~= frame_prefix_spec());
    v
}

/// Appends the bytes of `s` to `v`.
fn push_bytes(v: &mut Vec<u8>, s: &[u8])
    ensures
        final(v)@ == old(v)@ + s@,
{
    let ghost start = v@;
    let mut i: usize = 0;
    while i < s.len()
        invariant
            i <= s.len(),
            v@ == start + s@.take(i as int),
        decreases s.len() - i,
    {
        v.push(s[i]);
        assert(s@.take(i + 1) == s@.take(i as int).push(s@[i as int]));
        i += 1;
    }
    assert(s@.take(s@.len() as int) == s@);
}

fn encrypt_payload(key: &Vec<u8>, xml: &str, app_id: &str) -> (r: String)
    requires
        key@.len() == 32,
    ensures
        r@ == encrypt_payload_spec(key@, xml@, app_id@),
        decrypt_payload_spec(key@, r@) == Ok::<Seq<u8>, ErrorView>(frame_spec(xml@, app_id@)),
{
    let mut plain = frame_prefix();
    let body = xml.as_bytes();
    let len: u64 = body.len() as u64;
    #[verifier::truncate]
    let n: u32 = len as u32;
    assert(n == len % 4294967296) by (bit_vector)
        requires
            n == len as u32,
    ;
    let b0: u8 = (n / 16777216) as u8;
    let b1: u8 = ((n / 65536) % 256) as u8;
    let b2: u8 = ((n / 256) % 256) as u8;
    let b3: u8 = (n % 256) as u8;
    plain.push(b0);
    plain.push(b1);
    plain.push(b2);
    plain.push(b3);
    assert(be32_spec(n as nat) =~= seq![b0, b1, b2, b3]);
    push_bytes(&mut plain, body);
    push_bytes(&mut plain, app_id.as_bytes());
    assert(plain@ =~= frame_spec(xml@, app_id@));
    let iv = iv_of(key);
    let cipher = aes_cbc_encrypt(key.as_slice(), iv.as_slice(), plain.as_slice());
    b64_std_encode(cipher.as_slice())
}

/// The big-endian number in `plain[16..20]`.
fn be32_at_16(plain: &[u8]) -> (n: u64)
    requires
        plain@.len() >= 20,
    ensures
        n as nat == be32_value(plain@.subrange(16, 20)),
{
    let ghost w = plain@.subrange(16, 20);
    assert(w[0] == plain@[16] && w[1] == plain@[17] && w[2] == plain@[18] && w[3] == plain@[19]);
    (plain[16] as u64) * 16777216 + (plain[17] as u64) * 65536 + (plain[18] as u64) * 256
        + (plain[19] as u64)
}

/// The bytes `v[from..to]`.
fn bytes_range(v: &[u8], from: usize, to: usize) -> (r: Vec<u8>)
    requires
        from <= to <= v@.len(),
    ensures
        r@ == v@.subrange(from as int, to as int),
{
    let mut r: Vec<u8> = Vec::new();
    let mut i: usize = from;
    while i < to
        invariant
            from <= i <= to <= v@.len(),
            r@ == v@.subrange(from as int, i as int),
        decreases to - i,
    {
        r.push(v[i]);
        assert(v@.subrange(from as int, i + 1) == v@.subrange(from as int, i as int).push(
            v@[i as int],
        ));
        i += 1;
    }
    r
}

/// The message and the app id of a decrypted frame.
pub fn split_plaintext(plain: &[u8]) -> (r: Result<(String, String), BridgeError>)
    ensures
        match r {
            Ok((xml, app_id)) => split_plaintext_spec(plain@) == Ok::<
                (Seq<char>, Seq<char>),
                ErrorView,
            >((xml@, app_id@)),
            Err(e) => split_plaintext_spec(plain@) == Err::<(Seq<char>, Seq<char>), ErrorView>(e@),
        },
{
    if plain.len() < 20 {
        return Err(error_with(ErrorKind::ExternalPayloadInvalid, "decrypted payload too short"));
    }
    let msg_len = be32_at_16(plain);
    let xml_end_wide: u64 = 20 + msg_len;
    if (plain.len() as u64) < xml_end_wide {
        return Err(
            error_with(ErrorKind::ExternalPayloadInvalid, "decrypted message length exceeds payload"),
        );
    }
    let xml_end = xml_end_wide as usize;
    let xml = match utf8_string(bytes_range(plain, 20, xml_end)) {
        Ok(s) => s,
        Err(m) => return Err(BridgeError::ExternalPayloadInvalid(m)),
    };
    let app_id = match utf8_string(bytes_range(plain, xml_end, plain.len())) {
        Ok(s) => s,
        Err(m) => return Err(BridgeError::ExternalPayloadInvalid(m)),
    };
    Ok((xml, app_id))
}

/// Checks the signature of an encrypted callback, decrypts it and checks the app id.
pub fn decrypt_callback_message(
    token: &str,
    encoding_aes_key: &str,
    expected_app_id: &str,
    timestamp: &str,
    nonce: &str,
    msg_signature: &str,
    encrypted_payload: &str,
) -> (r: Result<DecryptedMessage, BridgeError>)
    ensures
        match r {
            Ok(m) => decrypt_callback_spec(
                token@,
                encoding_aes_key@,
                expected_app_id@,
                timestamp@,
                nonce@,
                msg_signature@,
                encrypted_payload@,
            ) == Ok::<(Seq<char>, Seq<char>), ErrorView>(m@),
            Err(e) => decrypt_callback_spec(
                token@,
                encoding_aes_key@,
                expected_app_id@,
                timestamp@,
                nonce@,
                msg_signature@,
                encrypted_payload@,
            ) == Err::<(Seq<char>, Seq<char>), ErrorView>(e@),
        },
{
    if !verify_encrypted_signature(token, timestamp, nonce, encrypted_payload, msg_signature) {
        return Err(BridgeError::WechatSignatureInvalid);
    }
    let key = decode_encoding_aes_key(encoding_aes_key)?;
    let plain = decrypt_payload(&key, encrypted_payload)?;
    let (xml, app_id) = split_plaintext(plain.as_slice())?;
    if !str_eq(app_id.as_str(), expected_app_id) {
        let mut message = string_from("decrypted appid mismatch: expected ");
        push_str(&mut message, expected_app_id);
        push_str(&mut message, ", got ");
        push_str(&mut message, app_id.as_str());
        return Err(BridgeError::Config(message));
    }
    Ok(DecryptedMessage { xml, app_id })
}

/// Encrypts a message as WeChat would and signs it; returns the encrypted
/// payload and its signature.
///
/// What it produces decrypts back to the same message and app id.
pub fn encrypt_callback_message_for_test(
    token: &str,
    encoding_aes_key: &str,
    app_id: &str,
    timestamp: &str,
    nonce: &str,
    xml: &str,
) -> (r: Result<(String, String), BridgeError>)
    ensures
        match r {
            Ok((payload, sig)) => {
                &&& encrypt_callback_spec(token@, encoding_aes_key@, app_id@, timestamp@, nonce@, xml@)
                    == Ok::<(Seq<char>, Seq<char>), ErrorView>((payload@, sig@))
                &&& vstd::utf8::encode_utf8(xml@).len() < 4294967296 ==> decrypt_callback_spec(
                    token@,
                    encoding_aes_key@,
                    app_id@,
                    timestamp@,
                    nonce@,
                    sig@,
                    payload@,
                ) == Ok::<(Seq<char>, Seq<char>), ErrorView>((xml@, app_id@))
            },
            Err(e) => encrypt_callback_spec(
                token@,
                encoding_aes_key@,
                app_id@,
                timestamp@,
                nonce@,
                xml@,
            ) == Err::<(Seq<char>, Seq<char>), ErrorView>(e@),
        },
{
    let key = decode_encoding_aes_key(encoding_aes_key)?;
    let payload = encrypt_payload(&key, xml, app_id);
    let sig = calculate_encrypted_signature(token, timestamp, nonce, payload.as_str());
    proof {
        if vstd::utf8::encode_utf8(xml@).len() < 4294967296 {
            lemma_frame_splits(xml@, app_id@);
        }
    }
    Ok((payload, sig))
}

/// Encrypts a passive reply and wraps it in the XML envelope WeChat expects.
pub fn encrypt_reply_message(
    token: &str,
    encoding_aes_key: &str,
    app_id: &str,
    timestamp: &str,
    nonce: &str,
    xml: &str,
) -> (r: Result<String, BridgeError>)
    ensures
        match r {
            Ok(reply) => match encrypt_callback_spec(
                token@,
                encoding_aes_key@,
                app_id@,
                timestamp@,
                nonce@,
                xml@,
            ) {
                Ok((payload, sig)) => {
                    &&& reply@ == reply_envelope_spec(payload, sig, timestamp@, nonce@)
                    &&& sig == signature::signature_spec(seq![token@, timestamp@, nonce@, payload])
                    &&& vstd::utf8::encode_utf8(xml@).len() < 4294967296 ==> decrypt_callback_spec(
                        token@,
                        encoding_aes_key@,
                        app_id@,
                        timestamp@,
                        nonce@,
                        sig,
                        payload,
                    ) == Ok::<(Seq<char>, Seq<char>), ErrorView>((xml@, app_id@))
                },
                Err(_) => false,
            },
            Err(e) => encrypt_callback_spec(
                token@,
                encoding_aes_key@,
                app_id@,
                timestamp@,
                nonce@,
                xml@,
            ) == Err::<(Seq<char>, Seq<char>), ErrorView>(e@),
        },
{
    let (payload, sig) = encrypt_callback_message_for_test(
        token,
        encoding_aes_key,
        app_id,
        timestamp,
        nonce,
        xml,
    )?;
    let mut out = string_from("<xml><Encrypt><![CDATA[");
    push_str(&mut out, payload.as_str());
    push_str(&mut out, "]]></Encrypt><MsgSignature><![CDATA[");
    push_str(&mut out, sig.as_str());
    push_str(&mut out, "]]></MsgSignature><TimeStamp>");
    push_str(&mut out, timestamp);
    push_str(&mut out, "</TimeStamp><Nonce><![CDATA[");
    push_str(&mut out, nonce);
    push_str(&mut out, "]]></Nonce></xml>");
    Ok(out)
}

proof fn lemma_be32_round_trip(n: nat)
    requires
        n < 4294967296,
    ensures
        be32_value(be32_spec(n)) == n,
{
    let b = be32_spec(n);
    assert(b[0] as nat == (n / 16777216) % 256);
    assert(b[1] as nat == (n / 65536) % 256);
    assert(b[2] as nat == (n / 256) % 256);
    assert(b[3] as nat == n % 256);
    assert(((n / 16777216) % 256) * 16777216 + ((n / 65536) % 256) * 65536 + ((n / 256) % 256)
        * 256 + n % 256 == n) by (nonlinear_arith)
        requires
            n < 4294967296,
    ;
}

/// A frame splits back into the message and the app id it was built from.
proof fn lemma_frame_splits(xml: Seq<char>, app_id: Seq<char>)
    requires
        vstd::utf8::encode_utf8(xml).len() < 4294967296,
    ensures
        split_plaintext_spec(frame_spec(xml, app_id)) == Ok::<(Seq<char>, Seq<char>), ErrorView>(
            (xml, app_id),
        ),
{
    let body = vstd::utf8::encode_utf8(xml);
    let tail = vstd::utf8::encode_utf8(app_id);
    let f = frame_spec(xml, app_id);
    let n = body.len();
    assert(n % 4294967296 == n);
    lemma_be32_round_trip(n);
    assert(f.subrange(16, 20) =~= be32_spec(n));
    assert(f.subrange(20, 20 + n as int) =~= body);
    assert(f.subrange(20 + n as int, f.len() as int) =~= tail);
    vstd::utf8::encode_utf8_valid_utf8(xml);
    vstd::utf8::encode_utf8_valid_utf8(app_id);
    vstd::utf8::encode_utf8_decode_utf8(xml);
    vstd::utf8::encode_utf8_decode_utf8(app_id);
}

/// The layout of an encrypted frame: 16 bytes of prefix, the length of the
/// message in UTF-8 bytes as four bytes with the most significant first,
/// the message's bytes, then the app id's bytes; reading the frame back
/// gives the message and the app id.
pub proof fn lemma_frame_layout(xml: Seq<char>, app_id: Seq<char>)
    requires
        vstd::utf8::encode_utf8(xml).len() < 4294967296,
    ensures
        ({
            let f = frame_spec(xml, app_id);
            let body = vstd::utf8::encode_utf8(xml);
            let n = body.len() as int;
            &&& f.len() == 20 + n + vstd::utf8::encode_utf8(app_id).len()
            &&& (f[16] as int) * 16777216 + (f[17] as int) * 65536 + (f[18] as int) * 256 + (f[19] as int) == n
            &&& f.subrange(20, 20 + n) == body
            &&& f.skip(20 + n) == vstd::utf8::encode_utf8(app_id)
            &&& split_plaintext_spec(f) == Ok::<(Seq<char>, Seq<char>), ErrorView>((xml, app_id))
        }),
{
    lemma_frame_splits(xml, app_id);
    let body = vstd::utf8::encode_utf8(xml);
    let f = frame_spec(xml, app_id);
    let n = body.len();
    assert(n % 4294967296 == n);
    lemma_be32_round_trip(n);
    assert(f.subrange(16, 20) =~= be32_spec(n));
    assert(f[16] == be32_spec(n)[0] && f[17] == be32_spec(n)[1] && f[18] == be32_spec(n)[2] && f[19] == be32_spec(n)[3]);
    assert(f.subrange(20, 20 + n as int) =~= body);
    assert(f.skip(20 + n as int) =~= vstd::utf8::encode_utf8(app_id));
}

} // verus!
