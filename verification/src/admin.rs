//! The admin pages: who may see them, how listing requests are read, and
//! the HTML of each page.
//!
//! Serving the pages and querying the store are left to the caller.
use vstd::prelude::*;

use crate::store::{MessageDetail, MessageListItem, MessageListPage, MessageListQuery};
use crate::text::{chars_of, i64_to_dec, push_str, str_eq, string_from, trim, u64_to_dec};
use crate::wechat::message::opt_view;

verus! {

/// The style sheet shared by the admin pages.
pub const STYLE: &'static str = "<style>\nbody{font-family:system-ui,-apple-system,BlinkMacSystemFont,\"Segoe UI\",sans-serif;margin:24px;color:#1f2933}\ntable{border-collapse:collapse;width:100%;font-size:14px}\nth,td{border:1px solid #d8dee4;padding:8px;text-align:left;vertical-align:top}\nth{background:#f6f8fa}\ninput,select,button{font:inherit;padding:6px;margin-right:6px}\nnav{display:flex;gap:12px;margin-top:16px}\npre{white-space:pre-wrap;border:1px solid #d8dee4;padding:12px;background:#f6f8fa}\ndd{margin:0 0 8px 0}\ndt{font-weight:700}\n</style>";

/// A page may be shown when a key is configured, is not empty, and is the
/// one given.
pub open spec fn authorized_spec(provided: Option<Seq<char>>, expected: Option<Seq<char>>) -> bool {
    match expected {
        Some(e) => e.len() > 0 && provided == Some(e),
        None => false,
    }
}

/// Whether the given key opens a page guarded by the expected one.
pub fn authorized(provided: Option<&str>, expected: Option<&str>) -> (r: bool)
    ensures
        r == authorized_spec(
            match provided {
                Some(p) => Some(p@),
                None => None,
            },
            match expected {
                Some(e) => Some(e@),
                None => None,
            },
        ),
{
    let e = match expected {
        Some(e) => e,
        None => return false,
    };
    if e.is_empty() {
        return false;
    }
    match provided {
        Some(p) => str_eq(p, e),
        None => false,
    }
}

/// The token of an `Authorization: Bearer TOKEN` header.
pub open spec fn bearer_spec(header: Option<Seq<char>>) -> Option<Seq<char>> {
    match header {
        Some(h) => if crate::text::starts_with_spec(h, "Bearer "@) {
            Some(h.skip(7))
        } else {
            None
        },
        None => None,
    }
}

/// Keys and bearer tokens: nothing opens a page when no key, or an empty
/// key, is configured; a configured key opens it when given as itself and
/// only then; and a header `Bearer ` followed by a key carries exactly that
/// key, while a header without that prefix carries none.
pub proof fn lemma_keys_and_bearer_tokens(k: Seq<char>, p: Option<Seq<char>>, h: Seq<char>)
    ensures
        !authorized_spec(p, None),
        !authorized_spec(p, Some(Seq::<char>::empty())),
        k.len() > 0 ==> (authorized_spec(p, Some(k)) <==> p == Some(k)),
        bearer_spec(Some("Bearer "@ + k)) == Some(k),
        bearer_spec(Some(h)) is Some ==> h == "Bearer "@ + bearer_spec(Some(h))->Some_0,
        bearer_spec(None) is None,
{
    reveal_strlit("Bearer ");
    assert(("Bearer "@ + k).take(7) =~= "Bearer "@);
    assert(("Bearer "@ + k).skip(7) =~= k);
    if bearer_spec(Some(h)) is Some {
        assert(h =~= h.take(7) + h.skip(7));
    }
}

/// The status report opens to the admin key given as the `key` query
/// parameter or as a bearer token.
pub fn status_authorized(query_key: Option<&str>, authorization: Option<&str>, expected: Option<&str>) -> (r: bool)
    ensures
        r == (authorized_spec(
            match query_key {
                Some(k) => Some(k@),
                None => None,
            },
            match expected {
                Some(e) => Some(e@),
                None => None,
            },
        ) || authorized_spec(
            bearer_spec(
                match authorization {
                    Some(h) => Some(h@),
                    None => None,
                },
            ),
            match expected {
                Some(e) => Some(e@),
                None => None,
            },
        )),
{
    if authorized(query_key, expected) {
        return true;
    }
    match authorization {
        Some(h) => {
            let v = chars_of(h);
            let p = chars_of("Bearer ");
            proof {
                reveal_strlit("Bearer ");
            }
            if crate::text::starts_with(&v, &p) {
                let token = crate::text::string_of_range(&v, 7, v.len());
                assert(v@.subrange(7, v@.len() as int) == v@.skip(7));
                authorized(Some(token.as_str()), expected)
            } else {
                false
            }
        },
        None => false,
    }
}

/// The HTML escape of one character.
pub open spec fn escape_char(c: char) -> Seq<char> {
    if c == '&' {
        "&amp;"@
    } else if c == '<' {
        "&lt;"@
    } else if c == '>' {
        "&gt;"@
    } else if c == '"' {
        "&quot;"@
    } else if c == '\'' {
        "&#39;"@
    } else {
        seq![c]
    }
}

/// Text escaped for HTML: `&`, `<`, `>`, `"` and `'` become entities.
pub open spec fn escape_html_spec(s: Seq<char>) -> Seq<char>
    decreases s.len(),
{
    if s.len() == 0 {
        Seq::empty()
    } else {
        escape_html_spec(s.drop_last()) + escape_char(s.last())
    }
}

/// A character that may not stand unescaped in HTML text or attributes.
pub open spec fn is_html_special(c: char) -> bool {
    c == '<' || c == '>' || c == '"' || c == '\''
}

/// Escaped text holds no `<`, `>`, `"` or `'`, so it can neither open a tag
/// nor close an attribute.
pub proof fn lemma_escaped_html_is_inert(s: Seq<char>)
    ensures
        forall|i: int|
            0 <= i < escape_html_spec(s).len() ==> !is_html_special(
                #[trigger] escape_html_spec(s)[i],
            ),
    decreases s.len(),
{
    if s.len() > 0 {
        lemma_escaped_html_is_inert(s.drop_last());
        let a = escape_html_spec(s.drop_last());
        let b = escape_char(s.last());
        reveal_strlit("&amp;");
        reveal_strlit("&lt;");
        reveal_strlit("&gt;");
        reveal_strlit("&quot;");
        reveal_strlit("&#39;");
        assert forall|i: int| 0 <= i < (a + b).len() implies !is_html_special(#[trigger] (a + b)[i]) by {
            if i >= a.len() {
                assert((a + b)[i] == b[i - a.len()]);
            } else {
                assert((a + b)[i] == a[i]);
            }
        }
    }
}

/// Whether an HTML entity the escape writes begins at `i`.
pub open spec fn entity_at(s: Seq<char>, i: int) -> bool {
    let t = s.skip(i);
    ||| crate::text::starts_with_spec(t, "&amp;"@)
    ||| crate::text::starts_with_spec(t, "&lt;"@)
    ||| crate::text::starts_with_spec(t, "&gt;"@)
    ||| crate::text::starts_with_spec(t, "&quot;"@)
    ||| crate::text::starts_with_spec(t, "&#39;"@)
}

proof fn lemma_entity_at_extends(a: Seq<char>, b: Seq<char>, i: int)
    requires
        0 <= i < a.len(),
        entity_at(a, i),
    ensures
        entity_at(a + b, i),
{
    reveal_strlit("&amp;");
    reveal_strlit("&lt;");
    reveal_strlit("&gt;");
    reveal_strlit("&quot;");
    reveal_strlit("&#39;");
    let t = a.skip(i);
    let u = (a + b).skip(i);
    assert forall|k: int| 0 <= k < t.len() implies u[k] == t[k] by {
        assert(u[k] == (a + b)[i + k]);
    }
    if crate::text::starts_with_spec(t, "&amp;"@) {
        assert(u.take(5) =~= t.take(5));
    } else if crate::text::starts_with_spec(t, "&lt;"@) {
        assert(u.take(4) =~= t.take(4));
    } else if crate::text::starts_with_spec(t, "&gt;"@) {
        assert(u.take(4) =~= t.take(4));
    } else if crate::text::starts_with_spec(t, "&quot;"@) {
        assert(u.take(6) =~= t.take(6));
    } else {
        assert(u.take(5) =~= t.take(5));
    }
}

/// Every `&` in escaped text begins one of the entities `&amp;`, `&lt;`,
/// `&gt;`, `&quot;` and `&#39;`, so none of the original text can be read
/// as an entity; text without `&`, `<`, `>`, `"` and `'` is left as it is.
pub proof fn lemma_escaped_ampersands_begin_entities(s: Seq<char>)
    ensures
        forall|i: int|
            0 <= i < escape_html_spec(s).len() && #[trigger] escape_html_spec(s)[i] == '&' ==> entity_at(
                escape_html_spec(s),
                i,
            ),
        (forall|i: int| 0 <= i < s.len() ==> #[trigger] s[i] != '&' && s[i] != '<' && s[i] != '>' && s[i] != '"' && s[i] != '\'')
            ==> escape_html_spec(s) == s,
    decreases s.len(),
{
    reveal_strlit("&amp;");
    reveal_strlit("&lt;");
    reveal_strlit("&gt;");
    reveal_strlit("&quot;");
    reveal_strlit("&#39;");
    if s.len() > 0 {
        let p = s.drop_last();
        lemma_escaped_ampersands_begin_entities(p);
        let a = escape_html_spec(p);
        let b = escape_char(s.last());
        let out = a + b;
        assert(escape_html_spec(s) == out);
        assert forall|i: int| 0 <= i < out.len() && #[trigger] out[i] == '&' implies entity_at(out, i) by {
            if i < a.len() {
                assert(out[i] == a[i]);
                lemma_entity_at_extends(a, b, i);
            } else {
                assert(out[i] == b[i - a.len()]);
                assert(out.skip(i) =~= b.skip(i - a.len()));
                if i > a.len() {
                    assert(b.len() > 1);
                }
                assert(i == a.len());
                assert(b.skip(0) =~= b);
                if s.last() == '&' {
                    assert(b.take(5) =~= "&amp;"@);
                } else if s.last() == '<' {
                    assert(b.take(4) =~= "&lt;"@);
                } else if s.last() == '>' {
                    assert(b.take(4) =~= "&gt;"@);
                } else if s.last() == '"' {
                    assert(b.take(6) =~= "&quot;"@);
                } else {
                    assert(b.take(5) =~= "&#39;"@);
                }
            }
        }
        if forall|i: int| 0 <= i < s.len() ==> #[trigger] s[i] != '&' && s[i] != '<' && s[i] != '>' && s[i] != '"' && s[i] != '\'' {
            assert forall|i: int| 0 <= i < p.len() implies #[trigger] p[i] != '&' && p[i] != '<' && p[i] != '>' && p[i] != '"' && p[i] != '\'' by {
                assert(p[i] == s[i]);
            }
            assert(s.last() == s[s.len() - 1]);
            assert(out =~= s);
        }
    }
}

/// Text escaped for HTML (see `escape_html_spec`).
pub fn escape_html(value: &str) -> (r: String)
    ensures
        r@ == escape_html_spec(value@),
{
    let v = chars_of(value);
    let mut out = String::new();
    let mut i: usize = 0;
    while i < v.len()
        invariant
            i <= v.len(),
            out@ == escape_html_spec(v@.take(i as int)),
        decreases v.len() - i,
    {
        let c = v[i];
        assert(v@.take(i + 1).drop_last() == v@.take(i as int));
        if c == '&' {
            push_str(&mut out, "&amp;");
        } else if c == '<' {
            push_str(&mut out, "&lt;");
        } else if c == '>' {
            push_str(&mut out, "&gt;");
        } else if c == '"' {
            push_str(&mut out, "&quot;");
        } else if c == '\'' {
            push_str(&mut out, "&#39;");
        } else {
            crate::text::push_char(&mut out, c);
            assert(out@ =~= escape_html_spec(v@.take(i as int)) + seq![c]);
        }
        i += 1;
    }
    assert(v@.take(v.len() as int) == v@);
    out
}

/// Text escaped for an HTML attribute: the same as for HTML text.
pub fn escape_attr(value: &str) -> (r: String)
    ensures
        r@ == escape_html_spec(value@),
{
    escape_html(value)
}

fn push_escaped(out: &mut String, value: &str)
    ensures
        final(out)@ == old(out)@ + escape_html_spec(value@),
{
    let e = escape_html(value);
    push_str(out, e.as_str());
}

/// The settings of the admin pages.
#[derive(Debug, Clone, PartialEq, Eq)]
pub struct AdminSettings {
    pub base_path: String,
    pub view_key: Option<String>,
    pub whitelist_join_key: Option<String>,
    pub whitelist_join_redirect_url: Option<String>,
    pub default_per_page: u32,
    pub max_per_page: u32,
}

/// The query of the list page.
#[derive(Debug, Clone, PartialEq, Eq)]
pub struct ListQuery {
    pub key: Option<String>,
    pub page: Option<u32>,
    pub per_page: Option<u32>,
    pub sort: Option<String>,
    pub q: Option<String>,
    pub msg_type: Option<String>,
    pub status: Option<String>,
}

/// A list request as read: the store query, and the trimmed form values to
/// show again.
#[derive(Debug, Clone, PartialEq, Eq)]
pub struct ListRequest {
    pub query: MessageListQuery,
    pub keyword: String,
    pub message_type: String,
    pub status: String,
}

/// A trimmed optional form value, empty when absent.
pub open spec fn form_value(v: Option<String>) -> Seq<char> {
    match v {
        Some(s) => crate::text::trim_spec(s@),
        None => Seq::empty(),
    }
}

/// How a list query is read: page at least one, page size within one and
/// the configured maximum (itself at least one), newest first unless
/// `received_at_asc` is asked for, the keyword trimmed and dropped when empty.
pub open spec fn list_request_matches(q: ListQuery, s: AdminSettings, r: ListRequest) -> bool {
    let page = match q.page {
        Some(p) => p,
        None => 1,
    };
    let per_page = match q.per_page {
        Some(p) => p,
        None => s.default_per_page,
    };
    let max = if s.max_per_page < 1 {
        1
    } else {
        s.max_per_page
    };
    &&& r.query.page == if page < 1 {
        1
    } else {
        page
    }
    &&& r.query.per_page == if per_page < 1 {
        1
    } else if per_page > max {
        max
    } else {
        per_page
    }
    &&& r.query.sort_desc == (opt_view(q.sort) != Some("received_at_asc"@))
    &&& r.keyword@ == form_value(q.q)
    &&& opt_view(r.query.keyword) == if form_value(q.q).len() == 0 {
        None
    } else {
        Some(form_value(q.q))
    }
    &&& r.message_type@ == form_value(q.msg_type)
    &&& r.status@ == form_value(q.status)
}

fn form_value_of(v: &Option<String>) -> (r: String)
    ensures
        r@ == form_value(*v),
{
    match v {
        Some(s) => trim(s.as_str()),
        None => String::new(),
    }
}

/// Reads a list query (see `list_request_matches`).
pub fn read_list_request(query: &ListQuery, settings: &AdminSettings) -> (r: ListRequest)
    ensures
        list_request_matches(*query, *settings, r),
{
    let page: u32 = match query.page {
        Some(p) => if p < 1 {
            1
        } else {
            p
        },
        None => 1,
    };
    let requested: u32 = match query.per_page {
        Some(p) => p,
        None => settings.default_per_page,
    };
    let max: u32 = if settings.max_per_page < 1 {
        1
    } else {
        settings.max_per_page
    };
    let per_page: u32 = if requested < 1 {
        1
    } else if requested > max {
        max
    } else {
        requested
    };
    let sort_desc = match &query.sort {
        Some(s) => !str_eq(s.as_str(), "received_at_asc"),
        None => true,
    };
    let keyword = form_value_of(&query.q);
    let message_type = form_value_of(&query.msg_type);
    let status = form_value_of(&query.status);
    let kw = if keyword.as_str().is_empty() {
        None
    } else {
        Some(string_from(keyword.as_str()))
    };
    ListRequest {
        query: MessageListQuery { page, per_page, keyword: kw, sort_desc },
        keyword,
        message_type,
        status,
    }
}

/// One row of the list page.
pub open spec fn list_row_spec(key: Seq<char>, base_path: Seq<char>, item: MessageListItem) -> Seq<char> {
    "<tr><td><a href=\""@ + escape_html_spec(base_path) + "/messages/"@
        + crate::text::signed_dec_spec(item.id as int) + "?key="@ + escape_html_spec(key) + "\">"@
        + crate::text::signed_dec_spec(item.id as int) + "</a></td><td>"@ + escape_html_spec(
        item.received_at@,
    ) + "</td><td>"@ + escape_html_spec(item.message_type@) + "</td><td>"@ + escape_html_spec(
        item.status@,
    ) + "</td><td>"@ + escape_html_spec(item.from_openid_hash@) + "</td><td>"@
        + escape_html_spec(form_raw(item.content_preview)) + "</td><td>"@ + escape_html_spec(
        form_raw(item.processed_preview),
    ) + "</td></tr>"@
}

/// An optional value, empty when absent.
pub open spec fn form_raw(v: Option<String>) -> Seq<char> {
    match v {
        Some(s) => s@,
        None => Seq::empty(),
    }
}

/// The rows of the list page, in order.
pub open spec fn list_rows_spec(key: Seq<char>, base_path: Seq<char>, items: Seq<MessageListItem>) -> Seq<char>
    decreases items.len(),
{
    if items.len() == 0 {
        Seq::empty()
    } else {
        list_rows_spec(key, base_path, items.drop_last()) + list_row_spec(
            key,
            base_path,
            items.last(),
        )
    }
}

/// The link to a page of the list with the same filters.
pub open spec fn page_link_spec(
    key: Seq<char>,
    base_path: Seq<char>,
    keyword: Seq<char>,
    message_type: Seq<char>,
    status: Seq<char>,
    sort: Seq<char>,
    page: nat,
    per_page: nat,
) -> Seq<char> {
    "<a href=\""@ + escape_html_spec(base_path) + "/messages?key="@ + escape_html_spec(key) + "&q="@
        + escape_html_spec(keyword) + "&msg_type="@ + escape_html_spec(message_type) + "&status="@
        + escape_html_spec(status) + "&sort="@ + sort + "&page="@ + crate::text::dec_spec(page)
        + "&per_page="@ + crate::text::dec_spec(per_page) + "\">"@
}

/// The list page: the search form with the current filters, the totals, a
/// row per message and links to the previous and next pages.
pub open spec fn list_page_spec(
    key: Seq<char>,
    base_path: Seq<char>,
    keyword: Seq<char>,
    message_type: Seq<char>,
    status: Seq<char>,
    sort_desc: bool,
    page: MessageListPage,
) -> Seq<char> {
    let sort = if sort_desc {
        "received_at_desc"@
    } else {
        "received_at_asc"@
    };
    let previous: nat = if page.page <= 1 {
        1
    } else {
        (page.page - 1) as nat
    };
    "<!doctype html><meta charset=\"utf-8\"><title>Messages</title>"@ + STYLE@ + "<h1>Messages</h1><form method=\"get\"><input type=\"hidden\" name=\"key\" value=\""@
        + escape_html_spec(key) + "\"><input name=\"q\" value=\""@ + escape_html_spec(keyword)
        + "\" placeholder=\"keyword\"><input name=\"msg_type\" value=\""@ + escape_html_spec(
        message_type,
    ) + "\" placeholder=\"type\"><input name=\"status\" value=\""@ + escape_html_spec(status)
        + "\" placeholder=\"status\"><select name=\"sort\"><option value=\"received_at_desc\" "@
        + (if sort_desc {
        "selected"@
    } else {
        Seq::empty()
    }) + ">newest</option><option value=\"received_at_asc\" "@ + (if sort_desc {
        Seq::empty()
    } else {
        "selected"@
    }) + ">oldest</option></select><button type=\"submit\">Search</button></form><p>Total: "@
        + crate::text::signed_dec_spec(page.total as int) + " | Page: "@ + crate::text::dec_spec(
        page.page as nat,
    )
        + "</p><table><thead><tr><th>ID</th><th>Received</th><th>Type</th><th>Status</th><th>OpenID Hash</th><th>Original</th><th>Processed</th></tr></thead><tbody>"@
        + list_rows_spec(key, base_path, page.items@) + "</tbody></table><nav>"@ + page_link_spec(
        key,
        base_path,
        keyword,
        message_type,
        status,
        sort,
        previous,
        page.per_page as nat,
    ) + "Previous</a>"@ + page_link_spec(
        key,
        base_path,
        keyword,
        message_type,
        status,
        sort,
        (page.page + 1) as nat,
        page.per_page as nat,
    ) + "Next</a></nav>"@
}

#[verifier::rlimit(30)]
fn push_row(out: &mut String, key: &str, base_path: &str, item: &MessageListItem)
    ensures
        final(out)@ == old(out)@ + list_row_spec(key@, base_path@, *item),
{
    let ghost start = old(out)@;
    push_str(out, "<tr><td><a href=\"");
    push_escaped(out, base_path);
    push_str(out, "/messages/");
    let id = i64_to_dec(item.id);
    push_str(out, id.as_str());
    push_str(out, "?key=");
    push_escaped(out, key);
    push_str(out, "\">");
    push_str(out, id.as_str());
    push_str(out, "</a></td><td>");
    push_escaped(out, item.received_at.as_str());
    push_str(out, "</td><td>");
    push_escaped(out, item.message_type.as_str());
    push_str(out, "</td><td>");
    push_escaped(out, item.status.as_str());
    push_str(out, "</td><td>");
    push_escaped(out, item.from_openid_hash.as_str());
    push_str(out, "</td><td>");
    let content = raw_of(&item.content_preview);
    push_escaped(out, content.as_str());
    push_str(out, "</td><td>");
    let processed = raw_of(&item.processed_preview);
    push_escaped(out, processed.as_str());
    push_str(out, "</td></tr>");
    assert(out@ =~= start + list_row_spec(key@, base_path@, *item));
}

fn push_page_link(
    out: &mut String,
    key: &str,
    base_path: &str,
    keyword: &str,
    message_type: &str,
    status: &str,
    sort: &str,
    page: u64,
    per_page: u64,
)
    ensures
        final(out)@ == old(out)@ + page_link_spec(
            key@,
            base_path@,
            keyword@,
            message_type@,
            status@,
            sort@,
            page as nat,
            per_page as nat,
        ),
{
    let ghost start = old(out)@;
    push_str(out, "<a href=\"");
    push_escaped(out, base_path);
    push_str(out, "/messages?key=");
    push_escaped(out, key);
    push_str(out, "&q=");
    push_escaped(out, keyword);
    push_str(out, "&msg_type=");
    push_escaped(out, message_type);
    push_str(out, "&status=");
    push_escaped(out, status);
    push_str(out, "&sort=");
    push_str(out, sort);
    push_str(out, "&page=");
    let p = u64_to_dec(page);
    push_str(out, p.as_str());
    push_str(out, "&per_page=");
    let pp = u64_to_dec(per_page);
    push_str(out, pp.as_str());
    push_str(out, "\">");
    assert(out@ =~= start + page_link_spec(
        key@,
        base_path@,
        keyword@,
        message_type@,
        status@,
        sort@,
        page as nat,
        per_page as nat,
    ));
}

/// The list page (see `list_page_spec`). The page number must leave room
/// for the next one.
pub fn render_list_page(
    key: &str,
    base_path: &str,
    keyword: &str,
    message_type: &str,
    status: &str,
    sort_desc: bool,
    page: &MessageListPage,
) -> (r: String)
    requires
        page.page < u32::MAX,
    ensures
        r@ == list_page_spec(key@, base_path@, keyword@, message_type@, status@, sort_desc, *page),
{
    let sort = if sort_desc {
        "received_at_desc"
    } else {
        "received_at_asc"
    };
    let previous: u32 = if page.page <= 1 {
        1
    } else {
        page.page - 1
    };
    let next: u32 = page.page + 1;
    let mut rows = String::new();
    let mut i: usize = 0;
    assert(page.items@.take(0) =~= Seq::<MessageListItem>::empty());
    while i < page.items.len()
        invariant
            i <= page.items.len(),
            rows@ == list_rows_spec(key@, base_path@, page.items@.take(i as int)),
        decreases page.items.len() - i,
    {
        assert(page.items@.take(i + 1).drop_last() == page.items@.take(i as int));
        assert(page.items@.take(i + 1).last() == page.items@[i as int]);
        push_row(&mut rows, key, base_path, &page.items[i]);
        i += 1;
    }
    assert(page.items@.take(page.items.len() as int) == page.items@);
    let mut out = string_from("<!doctype html><meta charset=\"utf-8\"><title>Messages</title>");
    push_str(&mut out, STYLE);
    push_str(
        &mut out,
        "<h1>Messages</h1><form method=\"get\"><input type=\"hidden\" name=\"key\" value=\"",
    );
    push_escaped(&mut out, key);
    push_str(&mut out, "\"><input name=\"q\" value=\"");
    push_escaped(&mut out, keyword);
    push_str(&mut out, "\" placeholder=\"keyword\"><input name=\"msg_type\" value=\"");
    push_escaped(&mut out, message_type);
    push_str(&mut out, "\" placeholder=\"type\"><input name=\"status\" value=\"");
    push_escaped(&mut out, status);
    push_str(
        &mut out,
        "\" placeholder=\"status\"><select name=\"sort\"><option value=\"received_at_desc\" ",
    );
    if sort_desc {
        push_str(&mut out, "selected");
    }
    push_str(&mut out, ">newest</option><option value=\"received_at_asc\" ");
    if !sort_desc {
        push_str(&mut out, "selected");
    }
    push_str(
        &mut out,
        ">oldest</option></select><button type=\"submit\">Search</button></form><p>Total: ",
    );
    let total = i64_to_dec(page.total);
    push_str(&mut out, total.as_str());
    push_str(&mut out, " | Page: ");
    let pn = u64_to_dec(page.page as u64);
    push_str(&mut out, pn.as_str());
    push_str(
        &mut out,
        "</p><table><thead><tr><th>ID</th><th>Received</th><th>Type</th><th>Status</th><th>OpenID Hash</th><th>Original</th><th>Processed</th></tr></thead><tbody>",
    );
    push_str(&mut out, rows.as_str());
    push_str(&mut out, "</tbody></table><nav>");
    push_page_link(
        &mut out,
        key,
        base_path,
        keyword,
        message_type,
        status,
        sort,
        previous as u64,
        page.per_page as u64,
    );
    push_str(&mut out, "Previous</a>");
    push_page_link(
        &mut out,
        key,
        base_path,
        keyword,
        message_type,
        status,
        sort,
        next as u64,
        page.per_page as u64,
    );
    push_str(&mut out, "Next</a></nav>");
    assert(out@ =~= list_page_spec(
        key@,
        base_path@,
        keyword@,
        message_type@,
        status@,
        sort_desc,
        *page,
    ));
    out
}

/// One field of the detail page.
pub open spec fn detail_field(name: Seq<char>, value: Seq<char>) -> Seq<char> {
    "<dt>"@ + escape_html_spec(name) + "</dt><dd>"@ + escape_html_spec(value) + "</dd>"@
}

/// The coordinates of a message, `lat,lng`, when both are known.
pub open spec fn location_text(d: MessageDetail) -> Seq<char> {
    match (d.location_lat, d.location_lng) {
        (Some(lat), Some(lng)) => lat@ + ","@ + lng@,
        _ => Seq::empty(),
    }
}

/// The fields of the detail page, in order.
pub open spec fn detail_fields_spec(d: MessageDetail) -> Seq<char> {
    detail_field("id"@, crate::text::signed_dec_spec(d.id as int)) + detail_field(
        "request_id"@,
        d.request_id@,
    ) + detail_field("wechat_msg_id"@, form_raw(d.wechat_msg_id)) + detail_field(
        "from_openid_hash"@,
        d.from_openid_hash@,
    ) + detail_field("received_at"@, d.received_at@) + detail_field(
        "message_type"@,
        d.message_type@,
    ) + detail_field("status"@, d.status@) + detail_field("raw_dir"@, d.raw_dir@) + detail_field(
        "source_path"@,
        form_raw(d.source_path),
    ) + detail_field("processed_at"@, form_raw(d.processed_at)) + detail_field(
        "media_id"@,
        form_raw(d.media_id),
    ) + detail_field("pic_url"@, form_raw(d.pic_url)) + detail_field(
        "link_url"@,
        form_raw(d.link_url),
    ) + detail_field("location"@, location_text(d))
}

/// The detail page of a message: its fields, then its original and
/// processed text.
pub open spec fn detail_page_spec(key: Seq<char>, base_path: Seq<char>, d: MessageDetail) -> Seq<char> {
    "<!doctype html><meta charset=\"utf-8\"><title>Message "@ + crate::text::signed_dec_spec(
        d.id as int,
    ) + "</title>"@ + STYLE@ + "<a href=\""@ + escape_html_spec(base_path) + "/messages?key="@
        + escape_html_spec(key) + "\">Back</a><h1>Message "@ + crate::text::signed_dec_spec(
        d.id as int,
    ) + "</h1><dl>"@ + detail_fields_spec(d) + "</dl><h2>Original Text</h2><pre>"@
        + escape_html_spec(form_raw(d.content_text)) + "</pre><h2>Processed Text</h2><pre>"@
        + escape_html_spec(form_raw(d.processed_text)) + "</pre>"@
}

fn push_field(out: &mut String, name: &str, value: &str)
    ensures
        final(out)@ == old(out)@ + detail_field(name@, value@),
{
    let ghost start = old(out)@;
    push_str(out, "<dt>");
    push_escaped(out, name);
    push_str(out, "</dt><dd>");
    push_escaped(out, value);
    push_str(out, "</dd>");
    assert(out@ =~= start + detail_field(name@, value@));
}

fn raw_of(v: &Option<String>) -> (r: String)
    ensures
        r@ == form_raw(*v),
{
    match v {
        Some(s) => string_from(s.as_str()),
        None => String::new(),
    }
}

/// The detail page of a message (see `detail_page_spec`).
pub fn render_detail_page(key: &str, base_path: &str, detail: &MessageDetail) -> (r: String)
    ensures
        r@ == detail_page_spec(key@, base_path@, *detail),
{
    let id = i64_to_dec(detail.id);
    let mut fields = String::new();
    push_field(&mut fields, "id", id.as_str());
    push_field(&mut fields, "request_id", detail.request_id.as_str());
    let v = raw_of(&detail.wechat_msg_id);
    push_field(&mut fields, "wechat_msg_id", v.as_str());
    push_field(&mut fields, "from_openid_hash", detail.from_openid_hash.as_str());
    push_field(&mut fields, "received_at", detail.received_at.as_str());
    push_field(&mut fields, "message_type", detail.message_type.as_str());
    push_field(&mut fields, "status", detail.status.as_str());
    push_field(&mut fields, "raw_dir", detail.raw_dir.as_str());
    let v = raw_of(&detail.source_path);
    push_field(&mut fields, "source_path", v.as_str());
    let v = raw_of(&detail.processed_at);
    push_field(&mut fields, "processed_at", v.as_str());
    let v = raw_of(&detail.media_id);
    push_field(&mut fields, "media_id", v.as_str());
    let v = raw_of(&detail.pic_url);
    push_field(&mut fields, "pic_url", v.as_str());
    let v = raw_of(&detail.link_url);
    push_field(&mut fields, "link_url", v.as_str());
    let location = match (&detail.location_lat, &detail.location_lng) {
        (Some(lat), Some(lng)) => {
            let mut s = string_from(lat.as_str());
            push_str(&mut s, ",");
            push_str(&mut s, lng.as_str());
            s
        },
        _ => String::new(),
    };
    push_field(&mut fields, "location", location.as_str());
    assert(fields@ =~= detail_fields_spec(*detail));
    let mut out = string_from("<!doctype html><meta charset=\"utf-8\"><title>Message ");
    push_str(&mut out, id.as_str());
    push_str(&mut out, "</title>");
    push_str(&mut out, STYLE);
    push_str(&mut out, "<a href=\"");
    push_escaped(&mut out, base_path);
    push_str(&mut out, "/messages?key=");
    push_escaped(&mut out, key);
    push_str(&mut out, "\">Back</a><h1>Message ");
    push_str(&mut out, id.as_str());
    push_str(&mut out, "</h1><dl>");
    push_str(&mut out, fields.as_str());
    push_str(&mut out, "</dl><h2>Original Text</h2><pre>");
    let c = raw_of(&detail.content_text);
    push_escaped(&mut out, c.as_str());
    push_str(&mut out, "</pre><h2>Processed Text</h2><pre>");
    let p = raw_of(&detail.processed_text);
    push_escaped(&mut out, p.as_str());
    push_str(&mut out, "</pre>");
    assert(out@ =~= detail_page_spec(key@, base_path@, *detail));
    out
}

/// The form to join the whitelist, with a WeChat authorization link when
/// one can be made.
pub open spec fn join_form_spec(key: Seq<char>, auth_url: Option<Seq<char>>) -> Seq<char> {
    "<!doctype html><meta charset=\"utf-8\"><title>Join Whitelist</title>"@ + STYLE@
        + "<h1>Join Whitelist</h1><form method=\"get\"><input type=\"hidden\" name=\"key\" value=\""@
        + escape_html_spec(key)
        + "\"><input name=\"openid\" placeholder=\"openid\"><button type=\"submit\">Join</button></form>"@
        + match auth_url {
        Some(u) => "<p><a href=\""@ + escape_html_spec(u) + "\">Authorize with WeChat OAuth</a></p>"@,
        None => Seq::empty(),
    }
}

/// The form to join the whitelist (see `join_form_spec`).
pub fn render_join_form(key: &str, auth_url: Option<&str>) -> (r: String)
    ensures
        r@ == join_form_spec(
            key@,
            match auth_url {
                Some(u) => Some(u@),
                None => None,
            },
        ),
{
    let mut out = string_from("<!doctype html><meta charset=\"utf-8\"><title>Join Whitelist</title>");
    push_str(&mut out, STYLE);
    push_str(
        &mut out,
        "<h1>Join Whitelist</h1><form method=\"get\"><input type=\"hidden\" name=\"key\" value=\"",
    );
    push_escaped(&mut out, key);
    push_str(
        &mut out,
        "\"><input name=\"openid\" placeholder=\"openid\"><button type=\"submit\">Join</button></form>",
    );
    match auth_url {
        Some(u) => {
            push_str(&mut out, "<p><a href=\"");
            push_escaped(&mut out, u);
            push_str(&mut out, "\">Authorize with WeChat OAuth</a></p>");
        },
        None => {},
    }
    assert(out@ =~= join_form_spec(
        key@,
        match auth_url {
            Some(u) => Some(u@),
            None => None,
        },
    ));
    out
}

/// The page that confirms a whitelisting.
pub open spec fn whitelisted_page_spec(openid_hash: Seq<char>) -> Seq<char> {
    "<!doctype html><meta charset=\"utf-8\"><title>Whitelisted</title><h1>Whitelisted</h1><dl><dt>openid_hash</dt><dd>"@
        + escape_html_spec(openid_hash) + "</dd></dl>"@
}

/// The page that confirms a whitelisting.
pub fn render_whitelisted_page(openid_hash: &str) -> (r: String)
    ensures
        r@ == whitelisted_page_spec(openid_hash@),
{
    let mut out = string_from(
        "<!doctype html><meta charset=\"utf-8\"><title>Whitelisted</title><h1>Whitelisted</h1><dl><dt>openid_hash</dt><dd>",
    );
    push_escaped(&mut out, openid_hash);
    push_str(&mut out, "</dd></dl>");
    out
}

/// How a join request names the OpenID to whitelist.
#[derive(Debug, Clone, PartialEq, Eq)]
pub enum JoinRequest {
    /// The OpenID is given.
    OpenId(String),
    /// An OAuth code is to be exchanged for the OpenID.
    Code(String),
    /// Neither: the form is shown.
    Form,
}

/// How a join request is read: a non-empty `openid` first, else a
/// non-empty `code`, else the form.
pub fn read_join_request(openid: &Option<String>, code: &Option<String>) -> (r: JoinRequest)
    ensures
        match r {
            JoinRequest::OpenId(o) => openid matches Some(x) && x@.len() > 0 && o@ == x@,
            JoinRequest::Code(c) => !(openid matches Some(x) && x@.len() > 0) && (code matches Some(
                y,
            ) && y@.len() > 0 && c@ == y@),
            JoinRequest::Form => !(openid matches Some(x) && x@.len() > 0) && !(code matches Some(y)
                && y@.len() > 0),
        },
{
    match openid {
        Some(o) => if !o.as_str().is_empty() {
            return JoinRequest::OpenId(string_from(o.as_str()));
        },
        None => {},
    }
    match code {
        Some(c) => if !c.as_str().is_empty() {
            return JoinRequest::Code(string_from(c.as_str()));
        },
        None => {},
    }
    JoinRequest::Form
}

} // verus!
