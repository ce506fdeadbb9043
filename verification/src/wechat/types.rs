//! Identifiers that WeChat hands to the bridge.
use vstd::prelude::*;

use crate::digest::{self, sha256_digest};
use crate::text::{self, hex_lower, push_str, string_from};

verus! {

/// The OpenID of a WeChat user.
#[derive(Debug, Clone, PartialEq, Eq, Hash)]
pub struct OpenId(String);

impl View for OpenId {
    type V = Seq<char>;

    closed spec fn view(&self) -> Seq<char> {
        self.0@
    }
}

impl OpenId {
    pub fn new(value: &str) -> (r: Self)
        ensures
            r@ == value@,
    {
        OpenId(string_from(value))
    }

    pub fn as_str(&self) -> (r: &str)
        ensures
            r@ == self@,
    {
        self.0.as_str()
    }
}

/// The id WeChat gives a message.
#[derive(Debug, Clone, PartialEq, Eq, Hash)]
pub struct WechatMsgId(String);

impl View for WechatMsgId {
    type V = Seq<char>;

    closed spec fn view(&self) -> Seq<char> {
        self.0@
    }
}

impl WechatMsgId {
    pub fn new(value: &str) -> (r: Self)
        ensures
            r@ == value@,
    {
        WechatMsgId(string_from(value))
    }

    pub fn as_str(&self) -> (r: &str)
        ensures
            r@ == self@,
    {
        self.0.as_str()
    }
}

/// The id of a media object stored by WeChat.
#[derive(Debug, Clone, PartialEq, Eq, Hash)]
pub struct MediaId(String);

impl View for MediaId {
    type V = Seq<char>;

    closed spec fn view(&self) -> Seq<char> {
        self.0@
    }
}

impl MediaId {
    pub fn new(value: &str) -> (r: Self)
        ensures
            r@ == value@,
    {
        MediaId(string_from(value))
    }

    pub fn as_str(&self) -> (r: &str)
        ensures
            r@ == self@,
    {
        self.0.as_str()
    }
}

/// A URL as WeChat sent it.
#[derive(Debug, Clone, PartialEq, Eq, Hash)]
pub struct UrlString(String);

impl View for UrlString {
    type V = Seq<char>;

    closed spec fn view(&self) -> Seq<char> {
        self.0@
    }
}

impl UrlString {
    pub fn new(value: &str) -> (r: Self)
        ensures
            r@ == value@,
    {
        UrlString(string_from(value))
    }

    pub fn as_str(&self) -> (r: &str)
        ensures
            r@ == self@,
    {
        self.0.as_str()
    }
}

/// The displayable pseudonym of an OpenID: `"sha256:"` and the lower-case hex
/// SHA-256 digest of its UTF-8 bytes.
pub open spec fn openid_hash_spec(openid: Seq<char>) -> Seq<char> {
    "sha256:"@ + text::hex_spec(digest::sha256_spec(vstd::utf8::encode_utf8(openid)))
}

/// A hashed OpenID, safe to show and log.
#[derive(Debug, Clone, PartialEq, Eq, Hash)]
pub struct OpenIdHash(String);

impl View for OpenIdHash {
    type V = Seq<char>;

    closed spec fn view(&self) -> Seq<char> {
        self.0@
    }
}

impl OpenIdHash {
    pub fn sha256_for_display(openid: &OpenId) -> (r: Self)
        ensures
            r@ == openid_hash_spec(openid@),
    {
        let digest = sha256_digest(openid.as_str().as_bytes());
        let mut s = String::new();
        push_str(&mut s, "sha256:");
        let hex = hex_lower(digest.as_slice());
        push_str(&mut s, hex.as_str());
        OpenIdHash(s)
    }

    /// The text of the hash (what `Display` writes).
    pub fn as_str(&self) -> (r: &str)
        ensures
            r@ == self@,
    {
        self.0.as_str()
    }
}

} // verus!
