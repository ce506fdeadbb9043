//! The error type of the bridge.
use vstd::prelude::*;

use crate::text::push_str;

verus! {

/// What went wrong, without its detail message.
#[derive(Debug, Clone, Copy, PartialEq, Eq, Structural)]
pub enum ErrorKind {
    Config,
    WechatSignatureInvalid,
    WechatXmlInvalid,
    MessageUnsupported,
    UrlNotAllowed,
    Io,
    PathOutsideRoot,
    Database,
    ExternalRequest,
    ExternalPayloadInvalid,
}

/// Errors of the bridge; each variant but `WechatSignatureInvalid` carries a detail message.
#[derive(Debug, Clone)]
pub enum BridgeError {
    Config(String),
    WechatSignatureInvalid,
    WechatXmlInvalid(String),
    MessageUnsupported(String),
    UrlNotAllowed(String),
    Io(String),
    PathOutsideRoot(String),
    Database(String),
    ExternalRequest(String),
    ExternalPayloadInvalid(String),
}

/// An error as a kind and its detail message.
pub type ErrorView = (ErrorKind, Seq<char>);

impl View for BridgeError {
    type V = ErrorView;

    open spec fn view(&self) -> ErrorView {
        match self {
            BridgeError::Config(m) => (ErrorKind::Config, m@),
            BridgeError::WechatSignatureInvalid => (ErrorKind::WechatSignatureInvalid, Seq::empty()),
            BridgeError::WechatXmlInvalid(m) => (ErrorKind::WechatXmlInvalid, m@),
            BridgeError::MessageUnsupported(m) => (ErrorKind::MessageUnsupported, m@),
            BridgeError::UrlNotAllowed(m) => (ErrorKind::UrlNotAllowed, m@),
            BridgeError::Io(m) => (ErrorKind::Io, m@),
            BridgeError::PathOutsideRoot(m) => (ErrorKind::PathOutsideRoot, m@),
            BridgeError::Database(m) => (ErrorKind::Database, m@),
            BridgeError::ExternalRequest(m) => (ErrorKind::ExternalRequest, m@),
            BridgeError::ExternalPayloadInvalid(m) => (ErrorKind::ExternalPayloadInvalid, m@),
        }
    }
}

/// The text that introduces each kind of error in its rendered message.
pub open spec fn kind_prefix(kind: ErrorKind) -> Seq<char> {
    match kind {
        ErrorKind::Config => "configuration error: "@,
        ErrorKind::WechatSignatureInvalid => "wechat signature invalid"@,
        ErrorKind::WechatXmlInvalid => "wechat xml invalid: "@,
        ErrorKind::MessageUnsupported => "unsupported message type: "@,
        ErrorKind::UrlNotAllowed => "url not allowed: "@,
        ErrorKind::Io => "io error: "@,
        ErrorKind::PathOutsideRoot => "path escapes configured root: "@,
        ErrorKind::Database => "database error: "@,
        ErrorKind::ExternalRequest => "external request failed: "@,
        ErrorKind::ExternalPayloadInvalid => "external payload invalid: "@,
    }
}

/// The rendered message of an error: its kind's text, then its detail.
pub open spec fn describe_spec(e: ErrorView) -> Seq<char> {
    kind_prefix(e.0) + e.1
}

impl BridgeError {
    /// The kind of the error.
    pub fn kind(&self) -> (k: ErrorKind)
        ensures
            k == self@.0,
    {
        match self {
            BridgeError::Config(_) => ErrorKind::Config,
            BridgeError::WechatSignatureInvalid => ErrorKind::WechatSignatureInvalid,
            BridgeError::WechatXmlInvalid(_) => ErrorKind::WechatXmlInvalid,
            BridgeError::MessageUnsupported(_) => ErrorKind::MessageUnsupported,
            BridgeError::UrlNotAllowed(_) => ErrorKind::UrlNotAllowed,
            BridgeError::Io(_) => ErrorKind::Io,
            BridgeError::PathOutsideRoot(_) => ErrorKind::PathOutsideRoot,
            BridgeError::Database(_) => ErrorKind::Database,
            BridgeError::ExternalRequest(_) => ErrorKind::ExternalRequest,
            BridgeError::ExternalPayloadInvalid(_) => ErrorKind::ExternalPayloadInvalid,
        }
    }

    /// The human-readable message of the error (what the service logs and stores).
    pub fn describe(&self) -> (s: String)
        ensures
            s@ == describe_spec(self@),
    {
        let mut s = String::new();
        match self {
            BridgeError::Config(m) => {
                push_str(&mut s, "configuration error: ");
                push_str(&mut s, m.as_str());
            },
            BridgeError::WechatSignatureInvalid => {
                push_str(&mut s, "wechat signature invalid");
            },
            BridgeError::WechatXmlInvalid(m) => {
                push_str(&mut s, "wechat xml invalid: ");
                push_str(&mut s, m.as_str());
            },
            BridgeError::MessageUnsupported(m) => {
                push_str(&mut s, "unsupported message type: ");
                push_str(&mut s, m.as_str());
            },
            BridgeError::UrlNotAllowed(m) => {
                push_str(&mut s, "url not allowed: ");
                push_str(&mut s, m.as_str());
            },
            BridgeError::Io(m) => {
                push_str(&mut s, "io error: ");
                push_str(&mut s, m.as_str());
            },
            BridgeError::PathOutsideRoot(m) => {
                push_str(&mut s, "path escapes configured root: ");
                push_str(&mut s, m.as_str());
            },
            BridgeError::Database(m) => {
                push_str(&mut s, "database error: ");
                push_str(&mut s, m.as_str());
            },
            BridgeError::ExternalRequest(m) => {
                push_str(&mut s, "external request failed: ");
                push_str(&mut s, m.as_str());
            },
            BridgeError::ExternalPayloadInvalid(m) => {
                push_str(&mut s, "external payload invalid: ");
                push_str(&mut s, m.as_str());
            },
        }
        assert(s@ =~= describe_spec(self@));
        s
    }
}

} // verus!
