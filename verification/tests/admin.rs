use sage_wiki_bridge::admin::{
    authorized, escape_html, read_join_request, read_list_request, render_detail_page, render_join_form,
    render_list_page, render_whitelisted_page, status_authorized, AdminSettings, JoinRequest, ListQuery,
};
use sage_wiki_bridge::store::{MessageDetail, MessageListItem, MessageListPage};

#[test]
fn admin_pages_need_the_configured_key() {
    assert!(!authorized(None, Some("view-key")));
    assert!(!authorized(Some(""), Some("")));
    assert!(!authorized(Some("x"), None));
    assert!(!authorized(Some("wrong"), Some("view-key")));
    assert!(authorized(Some("view-key"), Some("view-key")));
}

#[test]
fn escapes_html_specials() {
    assert_eq!(escape_html("<a href=\"x\">&'</a>"), "&lt;a href=&quot;x&quot;&gt;&amp;&#39;&lt;/a&gt;");
}

#[test]
fn admin_list_renders_messages() {
    let page = MessageListPage {
        items: vec![MessageListItem {
            id: 1,
            received_at: "2026-05-27T21:30:15+08:00".to_string(),
            message_type: "text".to_string(),
            from_openid_hash: "sha256:abc".to_string(),
            status: "queued".to_string(),
            content_preview: Some("hello list".to_string()),
            processed_preview: None,
        }],
        total: 1,
        page: 1,
        per_page: 20,
    };
    let html = render_list_page("view-key", "/admin", "hello", "", "", true, &page);
    assert!(html.contains("hello list"));
    assert!(html.contains("/admin/messages/1?key=view-key"));
    assert!(html.contains("<p>Total: 1 | Page: 1</p>"));
    assert!(html.contains("&page=1&per_page=20\">Previous</a>"));
    assert!(html.contains("&page=2&per_page=20\">Next</a>"));
    assert!(html.contains("<option value=\"received_at_desc\" selected>newest</option>"));
}

#[test]
fn list_requests_are_bounded() {
    let settings = AdminSettings {
        base_path: "/admin".to_string(),
        view_key: Some("k".to_string()),
        whitelist_join_key: None,
        whitelist_join_redirect_url: None,
        default_per_page: 20,
        max_per_page: 100,
    };
    let q = ListQuery { key: None, page: Some(0), per_page: Some(1000), sort: Some("received_at_asc".to_string()), q: Some("  hello ".to_string()), msg_type: None, status: Some(" queued".to_string()) };
    let r = read_list_request(&q, &settings);
    assert_eq!(r.query.page, 1);
    assert_eq!(r.query.per_page, 100);
    assert!(!r.query.sort_desc);
    assert_eq!(r.query.keyword.as_deref(), Some("hello"));
    assert_eq!(r.status, "queued");
    let q = ListQuery { key: None, page: None, per_page: None, sort: None, q: Some("  ".to_string()), msg_type: None, status: None };
    let r = read_list_request(&q, &settings);
    assert_eq!(r.query.per_page, 20);
    assert!(r.query.sort_desc);
    assert!(r.query.keyword.is_none());
}

#[test]
fn detail_page_lists_fields() {
    let detail = MessageDetail {
        id: 3,
        request_id: "req_1".to_string(),
        wechat_msg_id: None,
        from_openid_hash: "sha256:abc".to_string(),
        received_at: "t".to_string(),
        message_type: "location".to_string(),
        status: "queued".to_string(),
        raw_dir: "raw://req_1".to_string(),
        source_path: None,
        processed_at: None,
        media_id: None,
        pic_url: None,
        link_url: None,
        location_lat: Some("23.1".to_string()),
        location_lng: Some("113.3".to_string()),
        content_text: Some("<b>".to_string()),
        processed_text: None,
    };
    let html = render_detail_page("k", "/admin", &detail);
    assert!(html.contains("<dt>location</dt><dd>23.1,113.3</dd>"));
    assert!(html.contains("<h1>Message 3</h1>"));
    assert!(html.contains("<pre>&lt;b&gt;</pre>"));
}

#[test]
fn join_pages() {
    let form = render_join_form("join-key", Some("https://x/?a=1&b=2"));
    assert!(form.contains("value=\"join-key\""));
    assert!(form.contains("<a href=\"https://x/?a=1&amp;b=2\">"));
    assert!(!render_join_form("k", None).contains("Authorize"));
    assert!(render_whitelisted_page("sha256:x").contains("<dd>sha256:x</dd>"));
    assert_eq!(read_join_request(&Some("o".to_string()), &Some("c".to_string())), JoinRequest::OpenId("o".to_string()));
    assert_eq!(read_join_request(&Some(String::new()), &Some("c".to_string())), JoinRequest::Code("c".to_string()));
    assert_eq!(read_join_request(&None, &None), JoinRequest::Form);
}

#[test]
fn status_opens_to_query_key_or_bearer_token() {
    assert!(status_authorized(Some("k1"), None, Some("k1")));
    assert!(status_authorized(None, Some("Bearer k1"), Some("k1")));
    assert!(status_authorized(Some("wrong"), Some("Bearer k1"), Some("k1")));
    assert!(!status_authorized(None, Some("k1"), Some("k1")));
    assert!(!status_authorized(None, Some("Bearer wrong"), Some("k1")));
    assert!(!status_authorized(None, Some("Bearer "), Some("")));
    assert!(!status_authorized(Some("k1"), Some("Bearer k1"), None));
}
