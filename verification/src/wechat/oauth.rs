//! WeChat web authorization: the authorize URL that sends a user back with
//! a code, and the subject read from the code's exchange.
//!
//! The exchange request itself is left to the caller.
use vstd::prelude::*;

use crate::error::{BridgeError, ErrorKind};
use crate::text::{i64_to_dec, push_str, string_from};

verus! {

/// The account's OAuth settings.
#[derive(Debug, Clone, PartialEq, Eq)]
pub struct WechatOAuthConfig {
    pub app_id: String,
    pub app_secret: String,
    pub api_base: String,
    pub authorize_base: String,
}

/// Who a code was exchanged for.
#[derive(Debug, Clone, PartialEq, Eq)]
pub struct OAuthSubject {
    pub openid: String,
    pub unionid: Option<String>,
    pub scope: Option<String>,
}

/// The fields of an exchange answer that the bridge reads, already parsed
/// from its JSON.
#[derive(Debug, Clone, PartialEq, Eq)]
pub struct OAuthAccessTokenResponse {
    pub openid: Option<String>,
    pub unionid: Option<String>,
    pub scope: Option<String>,
    pub errcode: Option<i64>,
    pub errmsg: Option<String>,
}

/// The query of an authorize URL: the app id, where to return, a code
/// response of the base scope, and the caller's state.
pub open spec fn authorize_pairs_spec(app_id: Seq<char>, redirect_uri: Seq<char>, state: Seq<char>) -> Seq<(Seq<char>, Seq<char>)> {
    seq![
        ("appid"@, app_id),
        ("redirect_uri"@, redirect_uri),
        ("response_type"@, "code"@),
        ("scope"@, "snsapi_base"@),
        ("state"@, state),
    ]
}

impl WechatOAuthConfig {
    /// The authorize URL that returns the user to `redirect_uri` with a
    /// code and `state`; an error when the authorize base is not a URL.
    pub fn authorize_url(&self, redirect_uri: &str, state: &str) -> (r: Result<String, BridgeError>)
        ensures
            match r {
                Ok(u) => crate::enrich::url_with_query_fragment_spec(
                    self.authorize_base@,
                    authorize_pairs_spec(self.app_id@, redirect_uri@, state@),
                    "wechat_redirect"@,
                ) == Ok::<Seq<char>, Seq<char>>(u@),
                Err(e) => crate::enrich::url_parse_spec(self.authorize_base@) is Err && e@ == (
                    ErrorKind::Config,
                    crate::enrich::url_parse_spec(self.authorize_base@)->Err_0,
                ),
            },
    {
        let mut pairs: Vec<(String, String)> = Vec::new();
        pairs.push((string_from("appid"), string_from(self.app_id.as_str())));
        pairs.push((string_from("redirect_uri"), string_from(redirect_uri)));
        pairs.push((string_from("response_type"), string_from("code")));
        pairs.push((string_from("scope"), string_from("snsapi_base")));
        pairs.push((string_from("state"), string_from(state)));
        assert(crate::config::settings::pairs_view(pairs@) =~= authorize_pairs_spec(
            self.app_id@,
            redirect_uri@,
            state@,
        ));
        match crate::enrich::url_with_query_fragment(
            self.authorize_base.as_str(),
            &pairs,
            "wechat_redirect",
        ) {
            Ok(u) => Ok(u),
            Err(m) => Err(BridgeError::Config(m)),
        }
    }

    /// The endpoint that exchanges a code.
    pub fn exchange_url(&self) -> (r: String)
        ensures
            r@ == crate::enrich::trim_slashes_end_spec(self.api_base@) + "/sns/oauth2/access_token"@,
    {
        let mut u = crate::enrich::trim_slashes_end(self.api_base.as_str());
        push_str(&mut u, "/sns/oauth2/access_token");
        u
    }

    /// The query of a code exchange.
    pub fn exchange_query(&self, code: &str) -> (r: Vec<(String, String)>)
        ensures
            crate::config::settings::pairs_view(r@) == seq![
                ("appid"@, self.app_id@),
                ("secret"@, self.app_secret@),
                ("code"@, code@),
                ("grant_type"@, "authorization_code"@),
            ],
    {
        let mut q: Vec<(String, String)> = Vec::new();
        q.push((string_from("appid"), string_from(self.app_id.as_str())));
        q.push((string_from("secret"), string_from(self.app_secret.as_str())));
        q.push((string_from("code"), string_from(code)));
        q.push((string_from("grant_type"), string_from("authorization_code")));
        assert(crate::config::settings::pairs_view(q@) =~= seq![
            ("appid"@, self.app_id@),
            ("secret"@, self.app_secret@),
            ("code"@, code@),
            ("grant_type"@, "authorization_code"@),
        ]);
        q
    }
}

/// The subject of an exchange answer: an error code fails with its message;
/// an answer without an OpenID is invalid.
pub fn oauth_subject_from(response: OAuthAccessTokenResponse) -> (r: Result<OAuthSubject, BridgeError>)
    ensures
        match response.errcode {
            Some(code) => r matches Err(e) && e@ == (
                ErrorKind::ExternalRequest,
                "WeChat OAuth errcode "@ + crate::text::signed_dec_spec(code as int) + ": "@
                    + match response.errmsg {
                    Some(m) => m@,
                    None => Seq::<char>::empty(),
                },
            ),
            None => match response.openid {
                None => r matches Err(e) && e@ == (
                    ErrorKind::ExternalPayloadInvalid,
                    "WeChat OAuth response missing openid"@,
                ),
                Some(o) => r matches Ok(s) && s.openid == o && s.unionid == response.unionid
                    && s.scope == response.scope,
            },
        },
{
    match response.errcode {
        Some(code) => {
            let mut m = string_from("WeChat OAuth errcode ");
            let d = i64_to_dec(code);
            push_str(&mut m, d.as_str());
            push_str(&mut m, ": ");
            match &response.errmsg {
                Some(msg) => push_str(&mut m, msg.as_str()),
                None => {},
            }
            Err(BridgeError::ExternalRequest(m))
        },
        None => match response.openid {
            None => Err(
                BridgeError::ExternalPayloadInvalid(string_from("WeChat OAuth response missing openid")),
            ),
            Some(openid) => Ok(OAuthSubject { openid, unionid: response.unionid, scope: response.scope }),
        },
    }
}

} // verus!
