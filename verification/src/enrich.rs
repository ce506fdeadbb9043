//! Enrichment through outside services: Tencent LBS reverse geocoding and
//! Jina Reader, and the rule that keeps the reader away from private hosts.
use vstd::prelude::*;

use crate::error::{BridgeError, ErrorKind, ErrorView};
use crate::text::{ascii_lowercase, chars_of, push_str, string_from, string_of_range, str_eq};

verus! {

/// Options of the Tencent LBS reverse geocoder.
#[derive(Debug, Clone, PartialEq, Eq)]
pub struct TencentLbsOptions {
    pub endpoint: String,
    pub key: String,
    pub get_poi: bool,
    pub radius_meters: Option<u32>,
}

/// What the reverse geocoder said about a place.
#[derive(Debug, Clone, PartialEq, Eq)]
pub struct LocationSummary {
    pub address: Option<String>,
    pub province: Option<String>,
    pub city: Option<String>,
    pub district: Option<String>,
    pub adcode: Option<String>,
    pub city_code: Option<String>,
}

/// Options of Jina Reader.
#[derive(Debug, Clone, PartialEq, Eq)]
pub struct JinaReaderOptions {
    pub endpoint: String,
}

/// The host of a parsed URL.
pub enum HostView {
    Domain(Seq<char>),
    Ipv4(Seq<u8>),
    Ipv6(Seq<u16>, Seq<char>),
}

/// The host of a parsed URL, as plain values; an IPv6 host carries its
/// eight segments and the text the url crate writes for it.
#[derive(Debug, Clone, PartialEq, Eq)]
pub enum UrlHost {
    Domain(String),
    Ipv4(Vec<u8>),
    Ipv6(Vec<u16>, String),
}

impl View for UrlHost {
    type V = HostView;

    open spec fn view(&self) -> HostView {
        match self {
            UrlHost::Domain(d) => HostView::Domain(d@),
            UrlHost::Ipv4(o) => HostView::Ipv4(o@),
            UrlHost::Ipv6(s, t) => HostView::Ipv6(s@, t@),
        }
    }
}

/// A URL as `url::Url::parse` understood it: its serialization, its scheme and its host.
#[derive(Debug, Clone, PartialEq, Eq)]
pub struct ParsedUrl {
    pub serialized: String,
    pub scheme: String,
    pub host: Option<UrlHost>,
}

pub open spec fn host_view(h: Option<UrlHost>) -> Option<HostView> {
    match h {
        Some(x) => Some(x@),
        None => None,
    }
}

/// What `url::Url::parse` makes of a text: its serialization, scheme and
/// host, or the text of its error.
pub uninterp spec fn url_parse_spec(s: Seq<char>) -> Result<(Seq<char>, Seq<char>, Option<HostView>), Seq<char>>;

/// `url::Url::parse`, with the serialization (`as_str`), `scheme` and `host` of the result.
/// Trusted: the fields are what the crate reports for `s`, an IPv4 host as
/// its four octets and an IPv6 host as its eight segments together with the
/// host's `Display` text, which the crate writes between `[` and `]`.
#[verifier::external_body]
pub(crate) fn parse_url(s: &str) -> (r: Result<ParsedUrl, String>)
    ensures
        match r {
            Ok(p) => {
                &&& url_parse_spec(s@) is Ok
                &&& url_parse_spec(s@)->Ok_0 == (p.serialized@, p.scheme@, host_view(p.host))
                &&& p.host matches Some(UrlHost::Ipv4(o)) ==> o@.len() == 4
                &&& p.host matches Some(UrlHost::Ipv6(g, t)) ==> g@.len() == 8 && t@.len() >= 2
                    && t@[0] == '[' && t@.last() == ']'
            },
            Err(m) => url_parse_spec(s@) is Err && url_parse_spec(s@)->Err_0 == m@,
        },
{
    match url::Url::parse(s) {
        Ok(url) => Ok(ParsedUrl {
            serialized: url.as_str().to_string(),
            scheme: url.scheme().to_string(),
            host: match url.host() {
                Some(url::Host::Domain(d)) => Some(UrlHost::Domain(d.to_string())),
                Some(url::Host::Ipv4(ip)) => Some(UrlHost::Ipv4(ip.octets().to_vec())),
                Some(url::Host::Ipv6(ip)) => Some(
                    UrlHost::Ipv6(ip.segments().to_vec(), url::Host::<&str>::Ipv6(ip).to_string()),
                ),
                None => None,
            },
        }),
        Err(err) => Err(err.to_string()),
    }
}

/// An IPv4 address the reader must not reach: private (10/8, 172.16/12,
/// 192.168/16), loopback (127/8), link-local (169.254/16), broadcast,
/// documentation (192.0.2/24, 198.51.100/24, 203.0.113/24) or in 0/8.
pub open spec fn ipv4_rejected(o: Seq<u8>) -> bool {
    ||| o[0] == 10
    ||| o[0] == 172 && 16 <= o[1] <= 31
    ||| o[0] == 192 && o[1] == 168
    ||| o[0] == 127
    ||| o[0] == 169 && o[1] == 254
    ||| o[0] == 255 && o[1] == 255 && o[2] == 255 && o[3] == 255
    ||| o[0] == 192 && o[1] == 0 && o[2] == 2
    ||| o[0] == 198 && o[1] == 51 && o[2] == 100
    ||| o[0] == 203 && o[1] == 0 && o[2] == 113
    ||| o[0] == 0
}

/// An IPv6 address the reader must not reach: loopback, unspecified,
/// unique local (fc00::/7) or link-local (fe80::/10).
pub open spec fn ipv6_rejected(g: Seq<u16>) -> bool {
    let zero_prefix = g[0] == 0 && g[1] == 0 && g[2] == 0 && g[3] == 0 && g[4] == 0 && g[5] == 0
        && g[6] == 0;
    ||| zero_prefix && g[7] == 1
    ||| zero_prefix && g[7] == 0
    ||| 0xfc00 <= g[0] <= 0xfdff
    ||| 0xfe80 <= g[0] <= 0xfebf
}

/// The dotted text of an IPv4 address.
pub open spec fn ipv4_text_spec(o: Seq<u8>) -> Seq<char> {
    crate::text::dec_spec(o[0] as nat) + "."@ + crate::text::dec_spec(o[1] as nat) + "."@
        + crate::text::dec_spec(o[2] as nat) + "."@ + crate::text::dec_spec(o[3] as nat)
}

/// Whether a URL may be handed to the reader: it parses, it is `http` or
/// `https`, it has a host, and the host is neither a localhost name nor a
/// private, loopback or otherwise local address.
pub open spec fn validate_url_spec(target: Seq<char>) -> Result<(), ErrorView> {
    match url_parse_spec(target) {
        Err(m) => Err((ErrorKind::UrlNotAllowed, m)),
        Ok((_, scheme, host)) => if scheme != "http"@ && scheme != "https"@ {
            Err((ErrorKind::UrlNotAllowed, "scheme "@ + scheme))
        } else {
            match host {
                None => Err((ErrorKind::UrlNotAllowed, "missing host"@)),
                Some(HostView::Domain(d)) => {
                    let lower = crate::text::ascii_lower_spec(d);
                    if lower == "localhost"@ || crate::text::ends_with_spec(lower, ".localhost"@) {
                        Err((ErrorKind::UrlNotAllowed, d))
                    } else {
                        Ok(())
                    }
                },
                Some(HostView::Ipv4(o)) => if ipv4_rejected(o) {
                    Err((ErrorKind::UrlNotAllowed, ipv4_text_spec(o)))
                } else {
                    Ok(())
                },
                Some(HostView::Ipv6(g, t)) => if ipv6_rejected(g) {
                    Err((ErrorKind::UrlNotAllowed, t.subrange(1, t.len() - 1)))
                } else {
                    Ok(())
                },
            }
        },
    }
}

/// An IPv4 address as one 32-bit number.
pub open spec fn ipv4_number(o: Seq<u8>) -> int {
    o[0] * 16777216 + o[1] * 65536 + o[2] * 256 + o[3]
}

/// Whether an IPv4 address, as a number, lies in one of the blocked
/// ranges: 0.0.0.0/8, 10.0.0.0/8, 127.0.0.0/8, 169.254.0.0/16,
/// 172.16.0.0/12, 192.0.2.0/24, 192.168.0.0/16, 198.51.100.0/24,
/// 203.0.113.0/24, or the broadcast address.
pub open spec fn ipv4_in_blocked_range(v: int) -> bool {
    ||| 0x00000000 <= v <= 0x00ffffff
    ||| 0x0a000000 <= v <= 0x0affffff
    ||| 0x7f000000 <= v <= 0x7fffffff
    ||| 0xa9fe0000 <= v <= 0xa9feffff
    ||| 0xac100000 <= v <= 0xac1fffff
    ||| 0xc0000200 <= v <= 0xc00002ff
    ||| 0xc0a80000 <= v <= 0xc0a8ffff
    ||| 0xc6336400 <= v <= 0xc63364ff
    ||| 0xcb007100 <= v <= 0xcb0071ff
    ||| v == 0xffffffff
}

/// The reader is refused an http(s) URL whose host is an IPv4 address
/// exactly when the address lies in a blocked range (see
/// `ipv4_in_blocked_range`), and the refusal names the address.
pub proof fn lemma_blocked_ipv4_ranges(target: Seq<char>, serialized: Seq<char>, scheme: Seq<char>, o: Seq<u8>)
    requires
        url_parse_spec(target) == Ok::<(Seq<char>, Seq<char>, Option<HostView>), Seq<char>>(
            (serialized, scheme, Some(HostView::Ipv4(o))),
        ),
        scheme == "http"@ || scheme == "https"@,
        o.len() == 4,
    ensures
        validate_url_spec(target) is Err <==> ipv4_in_blocked_range(ipv4_number(o)),
        validate_url_spec(target) is Err ==> validate_url_spec(target)->Err_0 == (
            ErrorKind::UrlNotAllowed,
            ipv4_text_spec(o),
        ),
{
    let a: int = o[0] as int;
    let b: int = o[1] as int;
    let c: int = o[2] as int;
    let d: int = o[3] as int;
    assert(0 <= a <= 255 && 0 <= b <= 255 && 0 <= c <= 255 && 0 <= d <= 255);
    assert(ipv4_number(o) == a * 16777216 + b * 65536 + c * 256 + d);
    assert(ipv4_rejected(o) <==> ipv4_in_blocked_range(ipv4_number(o)));
}

fn ends_with(s: &Vec<char>, p: &Vec<char>) -> (r: bool)
    ensures
        r == crate::text::ends_with_spec(s@, p@),
{
    if p.len() > s.len() {
        return false;
    }
    let r = crate::text::matches_at(s, p, s.len() - p.len());
    assert(s@.subrange(s.len() - p.len(), s.len() - p.len() + p.len()) == s@.skip(
        s.len() - p.len(),
    ));
    r
}

fn ipv4_text(o: &Vec<u8>) -> (r: String)
    requires
        o@.len() == 4,
    ensures
        r@ == ipv4_text_spec(o@),
{
    let mut s = crate::text::u64_to_dec(o[0] as u64);
    push_str(&mut s, ".");
    let b = crate::text::u64_to_dec(o[1] as u64);
    push_str(&mut s, b.as_str());
    push_str(&mut s, ".");
    let c = crate::text::u64_to_dec(o[2] as u64);
    push_str(&mut s, c.as_str());
    push_str(&mut s, ".");
    let d = crate::text::u64_to_dec(o[3] as u64);
    push_str(&mut s, d.as_str());
    s
}

/// Rejects URLs that the reader must not fetch (see `validate_url_spec`).
pub fn validate_public_http_url(target_url: &str) -> (r: Result<(), BridgeError>)
    ensures
        match r {
            Ok(()) => validate_url_spec(target_url@) == Ok::<(), ErrorView>(()),
            Err(e) => validate_url_spec(target_url@) == Err::<(), ErrorView>(e@),
        },
{
    let parsed = match parse_url(target_url) {
        Ok(p) => p,
        Err(m) => return Err(BridgeError::UrlNotAllowed(m)),
    };
    if !str_eq(parsed.scheme.as_str(), "http") && !str_eq(parsed.scheme.as_str(), "https") {
        let mut m = string_from("scheme ");
        push_str(&mut m, parsed.scheme.as_str());
        return Err(BridgeError::UrlNotAllowed(m));
    }
    match &parsed.host {
        None => Err(BridgeError::UrlNotAllowed(string_from("missing host"))),
        Some(UrlHost::Domain(d)) => {
            let lower = ascii_lowercase(d.as_str());
            let lower_chars = chars_of(lower.as_str());
            let suffix = chars_of(".localhost");
            if str_eq(lower.as_str(), "localhost") || ends_with(&lower_chars, &suffix) {
                Err(BridgeError::UrlNotAllowed(string_from(d.as_str())))
            } else {
                Ok(())
            }
        },
        Some(UrlHost::Ipv4(o)) => {
            let rejected = o[0] == 10 || (o[0] == 172 && 16 <= o[1] && o[1] <= 31) || (o[0] == 192
                && o[1] == 168) || o[0] == 127 || (o[0] == 169 && o[1] == 254) || (o[0] == 255
                && o[1] == 255 && o[2] == 255 && o[3] == 255) || (o[0] == 192 && o[1] == 0 && o[2]
                == 2) || (o[0] == 198 && o[1] == 51 && o[2] == 100) || (o[0] == 203 && o[1] == 0
                && o[2] == 113) || o[0] == 0;
            if rejected {
                Err(BridgeError::UrlNotAllowed(ipv4_text(o)))
            } else {
                Ok(())
            }
        },
        Some(UrlHost::Ipv6(g, t)) => {
            let zero_prefix = g[0] == 0 && g[1] == 0 && g[2] == 0 && g[3] == 0 && g[4] == 0 && g[5]
                == 0 && g[6] == 0;
            let rejected = (zero_prefix && g[7] == 1) || (zero_prefix && g[7] == 0) || (0xfc00
                <= g[0] && g[0] <= 0xfdff) || (0xfe80 <= g[0] && g[0] <= 0xfebf);
            if rejected {
                let tv = chars_of(t.as_str());
                Err(BridgeError::UrlNotAllowed(string_of_range(&tv, 1, tv.len() - 1)))
            } else {
                Ok(())
            }
        },
    }
}

/// The text with trailing `'/'` characters removed.
pub open spec fn trim_slashes_end_spec(s: Seq<char>) -> Seq<char>
    decreases s.len(),
{
    if s.len() > 0 && s.last() == '/' {
        trim_slashes_end_spec(s.drop_last())
    } else {
        s
    }
}

/// `str::trim_end_matches('/')`.
pub fn trim_slashes_end(s: &str) -> (r: String)
    ensures
        r@ == trim_slashes_end_spec(s@),
{
    let v = chars_of(s);
    let mut b: usize = v.len();
    assert(v@.subrange(0, v@.len() as int) == v@);
    while b > 0 && v[b - 1] == '/'
        invariant
            b <= v.len(),
            trim_slashes_end_spec(v@) == trim_slashes_end_spec(v@.subrange(0, b as int)),
        decreases b,
    {
        assert(v@.subrange(0, b as int).drop_last() == v@.subrange(0, b - 1));
        b -= 1;
    }
    string_of_range(&v, 0, b)
}

/// The reader URL of a target: the endpoint without trailing slashes, a
/// slash, and the target, as `url::Url` serializes it.
pub open spec fn reader_url_spec(endpoint: Seq<char>, target: Seq<char>) -> Result<Seq<char>, ErrorView> {
    match validate_url_spec(target) {
        Err(e) => Err(e),
        Ok(()) => match url_parse_spec(trim_slashes_end_spec(endpoint) + "/"@ + target) {
            Err(m) => Err((ErrorKind::Config, m)),
            Ok((serialized, _, _)) => Ok(serialized),
        },
    }
}

impl JinaReaderOptions {
    /// The URL at which the reader serves the target page.
    pub fn build_reader_url(&self, target_url: &str) -> (r: Result<String, BridgeError>)
        ensures
            match r {
                Ok(u) => reader_url_spec(self.endpoint@, target_url@) == Ok::<Seq<char>, ErrorView>(u@),
                Err(e) => reader_url_spec(self.endpoint@, target_url@) == Err::<Seq<char>, ErrorView>(e@),
            },
    {
        validate_public_http_url(target_url)?;
        let mut reader_url = trim_slashes_end(self.endpoint.as_str());
        push_str(&mut reader_url, "/");
        push_str(&mut reader_url, target_url);
        match parse_url(reader_url.as_str()) {
            Ok(p) => Ok(p.serialized),
            Err(m) => Err(BridgeError::Config(m)),
        }
    }
}

/// What `url::Url::parse` of a base URL, with query pairs appended through
/// `query_pairs_mut`, serializes to; or the text of the parse error.
pub uninterp spec fn url_with_query_spec(base: Seq<char>, pairs: Seq<(Seq<char>, Seq<char>)>) -> Result<Seq<char>, Seq<char>>;

/// `url::Url::parse` of `base`, then `query_pairs_mut().extend_pairs(pairs)`,
/// serialized.
/// Trusted: the result is the crate's serialization of that URL; it fails
/// exactly when parsing the base fails, with the parse error's text (the
/// crate's query setter does not fail).
#[verifier::external_body]
pub(crate) fn url_with_query(base: &str, pairs: &Vec<(String, String)>) -> (r: Result<String, String>)
    ensures
        match r {
            Ok(u) => url_with_query_spec(base@, crate::config::settings::pairs_view(pairs@))
                == Ok::<Seq<char>, Seq<char>>(u@) && url_parse_spec(base@) is Ok,
            Err(m) => url_parse_spec(base@) is Err && url_parse_spec(base@)->Err_0 == m@
                && url_with_query_spec(base@, crate::config::settings::pairs_view(pairs@))
                == Err::<Seq<char>, Seq<char>>(m@),
        },
{
    let mut url = url::Url::parse(base).map_err(|err| err.to_string())?;
    url.query_pairs_mut().extend_pairs(pairs.iter().map(|(k, v)| (k.as_str(), v.as_str())));
    Ok(url.to_string())
}

/// What `url::Url::parse` of a base URL, with query pairs appended through
/// `query_pairs_mut` and the fragment set, serializes to; or the text of the
/// parse error.
pub uninterp spec fn url_with_query_fragment_spec(base: Seq<char>, pairs: Seq<(Seq<char>, Seq<char>)>, fragment: Seq<char>) -> Result<Seq<char>, Seq<char>>;

/// `url::Url::parse` of `base`, then `query_pairs_mut().extend_pairs(pairs)`
/// and `set_fragment(Some(fragment))`, serialized.
/// Trusted: the result is the crate's serialization of that URL; it fails
/// exactly when parsing the base fails, with the parse error's text (the
/// crate's query and fragment setters do not fail).
#[verifier::external_body]
pub(crate) fn url_with_query_fragment(base: &str, pairs: &Vec<(String, String)>, fragment: &str) -> (r: Result<String, String>)
    ensures
        match r {
            Ok(u) => url_with_query_fragment_spec(base@, crate::config::settings::pairs_view(pairs@), fragment@)
                == Ok::<Seq<char>, Seq<char>>(u@) && url_parse_spec(base@) is Ok,
            Err(m) => url_parse_spec(base@) is Err && url_parse_spec(base@)->Err_0 == m@
                && url_with_query_fragment_spec(base@, crate::config::settings::pairs_view(pairs@), fragment@)
                == Err::<Seq<char>, Seq<char>>(m@),
        },
{
    let mut url = url::Url::parse(base).map_err(|err| err.to_string())?;
    url.query_pairs_mut().extend_pairs(pairs.iter().map(|(k, v)| (k.as_str(), v.as_str())));
    url.set_fragment(Some(fragment));
    Ok(url.to_string())
}

/// The query pairs of a reverse-geocoding request: the coordinates as
/// `latitude,longitude`, the key, whether points of interest are wanted,
/// and the search radius when one is set.
pub open spec fn geocode_pairs_spec(o: TencentLbsOptions, latitude: Seq<char>, longitude: Seq<char>) -> Seq<(Seq<char>, Seq<char>)> {
    let base = seq![
        ("location"@, latitude + ","@ + longitude),
        ("key"@, o.key@),
        ("get_poi"@, if o.get_poi {
            "1"@
        } else {
            "0"@
        }),
    ];
    match o.radius_meters {
        Some(r) => base.push(("radius"@, crate::text::dec_spec(r as nat))),
        None => base,
    }
}

impl TencentLbsOptions {
    /// The reverse-geocoding URL of a coordinate, given as decimal text; an
    /// error when the endpoint is not a URL.
    pub fn build_reverse_geocode_url(&self, latitude: &str, longitude: &str) -> (r: Result<String, BridgeError>)
        ensures
            match r {
                Ok(u) => url_with_query_spec(
                    self.endpoint@,
                    geocode_pairs_spec(*self, latitude@, longitude@),
                ) == Ok::<Seq<char>, Seq<char>>(u@),
                Err(e) => url_parse_spec(self.endpoint@) is Err && e@ == (
                    ErrorKind::Config,
                    url_parse_spec(self.endpoint@)->Err_0,
                ),
            },
    {
        let mut location = string_from(latitude);
        push_str(&mut location, ",");
        push_str(&mut location, longitude);
        let mut pairs: Vec<(String, String)> = Vec::new();
        pairs.push((string_from("location"), location));
        pairs.push((string_from("key"), string_from(self.key.as_str())));
        pairs.push((string_from("get_poi"), string_from(if self.get_poi {
            "1"
        } else {
            "0"
        })));
        match self.radius_meters {
            Some(radius) => pairs.push((string_from("radius"), crate::text::u64_to_dec(radius as u64))),
            None => {},
        }
        assert(crate::config::settings::pairs_view(pairs@) =~= geocode_pairs_spec(
            *self,
            latitude@,
            longitude@,
        ));
        match url_with_query(self.endpoint.as_str(), &pairs) {
            Ok(u) => Ok(u),
            Err(m) => Err(BridgeError::Config(m)),
        }
    }
}

/// The fields of a reverse-geocoding result that the bridge keeps, already
/// read from the service's JSON.
#[derive(Debug, Clone, PartialEq, Eq)]
pub struct LbsResult {
    pub address: Option<String>,
    pub province: Option<String>,
    pub city: Option<String>,
    pub district: Option<String>,
    pub adcode: Option<String>,
    pub city_code: Option<String>,
}

/// The summary of a reverse-geocoding answer: an error when it has no
/// result, else the result's fields.
pub fn location_summary_from(result: Option<LbsResult>) -> (r: Result<LocationSummary, BridgeError>)
    ensures
        match result {
            None => r matches Err(e) && e@ == (ErrorKind::Config, "Tencent LBS response missing result"@),
            Some(x) => r matches Ok(s) && s.address == x.address && s.province == x.province
                && s.city == x.city && s.district == x.district && s.adcode == x.adcode
                && s.city_code == x.city_code,
        },
{
    match result {
        None => Err(BridgeError::Config(string_from("Tencent LBS response missing result"))),
        Some(x) => Ok(
            LocationSummary {
                address: x.address,
                province: x.province,
                city: x.city,
                district: x.district,
                adcode: x.adcode,
                city_code: x.city_code,
            },
        ),
    }
}

} // verus!
