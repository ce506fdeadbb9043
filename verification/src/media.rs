//! WeChat's media API: where tokens and media are fetched from, and the
//! size limit a download must keep.
//!
//! The HTTP requests and the file writes are left to the caller.
use vstd::prelude::*;

use crate::error::{BridgeError, ErrorKind};
use crate::text::{push_str, string_from};

verus! {

/// The WeChat API and the account's credentials.
#[derive(Debug, Clone, PartialEq, Eq)]
pub struct WechatApiConfig {
    pub api_base: String,
    pub app_id: String,
    pub app_secret: String,
}

/// An access token and how long it lives, in seconds.
#[derive(Debug, Clone, PartialEq, Eq)]
pub struct AccessToken {
    pub token: String,
    pub expires_in: u64,
}

/// A downloaded media file: where it was written, its content type, size
/// and SHA-256 digest in lower-case hexadecimal.
#[derive(Debug, Clone, PartialEq, Eq)]
pub struct DownloadedMedia {
    pub path: String,
    pub content_type: Option<String>,
    pub size_bytes: u64,
    pub sha256: String,
}

/// An API endpoint: the base without trailing slashes, then the path.
pub open spec fn endpoint_spec(api_base: Seq<char>, path: Seq<char>) -> Seq<char> {
    crate::enrich::trim_slashes_end_spec(api_base) + path
}

fn endpoint(api_base: &str, path: &str) -> (r: String)
    ensures
        r@ == endpoint_spec(api_base@, path@),
{
    let mut u = crate::enrich::trim_slashes_end(api_base);
    push_str(&mut u, path);
    u
}

impl WechatApiConfig {
    /// The token endpoint.
    pub fn token_url(&self) -> (r: String)
        ensures
            r@ == endpoint_spec(self.api_base@, "/cgi-bin/token"@),
    {
        endpoint(self.api_base.as_str(), "/cgi-bin/token")
    }

    /// The query of a token request: client credentials with the account's id and secret.
    pub fn token_query(&self) -> (r: Vec<(String, String)>)
        ensures
            crate::config::settings::pairs_view(r@) == seq![
                ("grant_type"@, "client_credential"@),
                ("appid"@, self.app_id@),
                ("secret"@, self.app_secret@),
            ],
    {
        let mut q: Vec<(String, String)> = Vec::new();
        q.push((string_from("grant_type"), string_from("client_credential")));
        q.push((string_from("appid"), string_from(self.app_id.as_str())));
        q.push((string_from("secret"), string_from(self.app_secret.as_str())));
        assert(crate::config::settings::pairs_view(q@) =~= seq![
            ("grant_type"@, "client_credential"@),
            ("appid"@, self.app_id@),
            ("secret"@, self.app_secret@),
        ]);
        q
    }

    /// The media endpoint.
    pub fn media_url(&self) -> (r: String)
        ensures
            r@ == endpoint_spec(self.api_base@, "/cgi-bin/media/get"@),
    {
        endpoint(self.api_base.as_str(), "/cgi-bin/media/get")
    }
}

/// The query of a media request.
pub fn media_query(access_token: &str, media_id: &str) -> (r: Vec<(String, String)>)
    ensures
        crate::config::settings::pairs_view(r@) == seq![
            ("access_token"@, access_token@),
            ("media_id"@, media_id@),
        ],
{
    let mut q: Vec<(String, String)> = Vec::new();
    q.push((string_from("access_token"), string_from(access_token)));
    q.push((string_from("media_id"), string_from(media_id)));
    assert(crate::config::settings::pairs_view(q@) =~= seq![
        ("access_token"@, access_token@),
        ("media_id"@, media_id@),
    ]);
    q
}

/// One more chunk of a download: the size so far grows by the chunk, and a
/// download that passes the limit fails.
pub fn download_step(received: u64, chunk_len: u64, max_media_bytes: u64) -> (r: Result<u64, BridgeError>)
    ensures
        received + chunk_len <= max_media_bytes ==> r == Ok::<u64, BridgeError>(
            (received + chunk_len) as u64,
        ),
        received + chunk_len > max_media_bytes ==> (r matches Err(e) && e@ == (
            ErrorKind::ExternalPayloadInvalid,
            "media exceeds max size "@ + crate::text::dec_spec(max_media_bytes as nat),
        )),
{
    if received > max_media_bytes || chunk_len > max_media_bytes - received {
        let mut m = string_from("media exceeds max size ");
        let d = crate::text::u64_to_dec(max_media_bytes);
        push_str(&mut m, d.as_str());
        return Err(BridgeError::ExternalPayloadInvalid(m));
    }
    Ok(received + chunk_len)
}

/// Whether an access token fetched at `fetched_at` (seconds) with a
/// lifetime of `expires_in` seconds may still be used at `now`: it is
/// refreshed `skew` seconds before it expires.
pub open spec fn token_fresh_spec(fetched_at: u64, expires_in: u64, skew: u64, now: u64) -> bool {
    now + skew < fetched_at + expires_in
}

/// A token that is fresh at some time was fresh at every earlier time; a
/// token whose refresh margin is at least its lifetime is never fresh; a
/// token is fresh right after it is fetched when its lifetime exceeds the
/// margin.
pub proof fn lemma_token_freshness(fetched_at: u64, expires_in: u64, skew: u64, t1: u64, t2: u64)
    ensures
        t1 <= t2 && token_fresh_spec(fetched_at, expires_in, skew, t2) ==> token_fresh_spec(fetched_at, expires_in, skew, t1),
        skew >= expires_in && t1 >= fetched_at ==> !token_fresh_spec(fetched_at, expires_in, skew, t1),
        skew < expires_in ==> token_fresh_spec(fetched_at, expires_in, skew, fetched_at),
{
}

/// Whether a cached access token may still be used (see `token_fresh_spec`).
pub fn token_is_fresh(fetched_at: u64, expires_in: u64, skew: u64, now: u64) -> (r: bool)
    ensures
        r == token_fresh_spec(fetched_at, expires_in, skew, now),
{
    (now as u128) + (skew as u128) < (fetched_at as u128) + (expires_in as u128)
}

/// The record of a finished download: where it was written, the content
/// type the server gave, and the size and SHA-256 (lower-case hex) of the
/// bytes received.
pub fn downloaded_media(path: String, content_type: Option<String>, bytes: &[u8]) -> (r: DownloadedMedia)
    ensures
        r.path == path,
        r.content_type == content_type,
        r.size_bytes == bytes@.len(),
        r.sha256@ == crate::archive::sha256_hex_spec(bytes@),
{
    DownloadedMedia {
        path,
        content_type,
        size_bytes: bytes.len() as u64,
        sha256: crate::archive::sha256_hex(bytes),
    }
}

} // verus!
