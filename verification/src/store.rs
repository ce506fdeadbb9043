//! The records of the message store and the listing queries over them.
//!
//! Talking to the database is left to the caller; the library decides what
//! is asked.
use vstd::prelude::*;

use crate::text::{push_str, string_from};

verus! {

/// A message as it is inserted into the store. Coordinates are kept as the
/// decimal text they arrived as.
#[derive(Debug, Clone, PartialEq, Eq)]
pub struct MessageInsert {
    pub request_id: String,
    pub wechat_msg_id: Option<String>,
    pub to_user_name: String,
    pub from_openid: String,
    pub from_openid_hash: String,
    pub create_time: Option<i64>,
    pub received_at: String,
    pub message_type: String,
    pub content_text: Option<String>,
    pub media_id: Option<String>,
    pub thumb_media_id: Option<String>,
    pub pic_url: Option<String>,
    pub voice_format: Option<String>,
    pub voice_recognition: Option<String>,
    pub location_lat: Option<String>,
    pub location_lng: Option<String>,
    pub location_scale: Option<i32>,
    pub location_label: Option<String>,
    pub link_title: Option<String>,
    pub link_description: Option<String>,
    pub link_url: Option<String>,
    pub authorized: bool,
    pub status: String,
    pub raw_dir: String,
}

/// A queued job.
#[derive(Debug, Clone, PartialEq, Eq)]
pub struct Job {
    pub id: i64,
    pub message_id: i64,
    pub job_type: String,
    pub status: String,
    pub attempts: i64,
}

/// A stored message as the worker reads it back.
#[derive(Debug, Clone, PartialEq, Eq)]
pub struct StoredMessage {
    pub id: i64,
    pub wechat_msg_id: Option<String>,
    pub from_openid_hash: String,
    pub create_time: Option<i64>,
    pub received_at: String,
    pub message_type: String,
    pub content_text: Option<String>,
    pub media_id: Option<String>,
    pub thumb_media_id: Option<String>,
    pub pic_url: Option<String>,
    pub voice_format: Option<String>,
    pub voice_recognition: Option<String>,
    pub location_lat: Option<String>,
    pub location_lng: Option<String>,
    pub location_scale: Option<i32>,
    pub location_label: Option<String>,
    pub link_title: Option<String>,
    pub link_description: Option<String>,
    pub link_url: Option<String>,
    pub raw_dir: String,
}

/// A stored message with everything the admin pages show of it.
#[derive(Debug, Clone, PartialEq, Eq)]
pub struct MessageDetail {
    pub id: i64,
    pub request_id: String,
    pub wechat_msg_id: Option<String>,
    pub from_openid_hash: String,
    pub received_at: String,
    pub message_type: String,
    pub status: String,
    pub raw_dir: String,
    pub source_path: Option<String>,
    pub processed_at: Option<String>,
    pub media_id: Option<String>,
    pub pic_url: Option<String>,
    pub link_url: Option<String>,
    pub location_lat: Option<String>,
    pub location_lng: Option<String>,
    pub content_text: Option<String>,
    pub processed_text: Option<String>,
}

/// Counters of the store for the status report.
#[derive(Debug, Clone, PartialEq, Eq)]
pub struct StatusSnapshot {
    pub total_messages: i64,
    pub authorized_messages: i64,
    pub failed_messages: i64,
    pub source_written_messages: i64,
    pub total_jobs: i64,
    pub total_job_attempts: i64,
    pub retry_attempts: i64,
    pub processed_text_bytes: i64,
    pub source_bytes_written: i64,
    pub messages_by_status: Vec<(String, i64)>,
    pub messages_by_type: Vec<(String, i64)>,
    pub jobs_by_status: Vec<(String, i64)>,
}

/// A page request for the message list.
#[derive(Debug, Clone, PartialEq, Eq)]
pub struct MessageListQuery {
    pub page: u32,
    pub per_page: u32,
    pub keyword: Option<String>,
    pub sort_desc: bool,
}

/// One row of the message list.
#[derive(Debug, Clone, PartialEq, Eq)]
pub struct MessageListItem {
    pub id: i64,
    pub received_at: String,
    pub message_type: String,
    pub from_openid_hash: String,
    pub status: String,
    pub content_preview: Option<String>,
    pub processed_preview: Option<String>,
}

/// One page of the message list.
#[derive(Debug, Clone, PartialEq, Eq)]
pub struct MessageListPage {
    pub items: Vec<MessageListItem>,
    pub total: i64,
    pub page: u32,
    pub per_page: u32,
}

/// What the store is asked for one page of the list: the page and its size
/// after bounds, the rows to skip and take, the `LIKE` pattern of the
/// keyword if there is one, and the statement.
#[derive(Debug, Clone, PartialEq, Eq)]
pub struct MessageListPlan {
    pub page: u32,
    pub per_page: u32,
    pub offset: i64,
    pub limit: i64,
    pub keyword_like: Option<String>,
    pub sql: String,
}

/// The filter of a keyword search, over the text columns of a message.
pub open spec fn keyword_filter() -> Seq<char> {
    "WHERE content_text LIKE ?1 OR processed_text LIKE ?1 OR link_url LIKE ?1 OR location_label LIKE ?1 OR from_openid_hash LIKE ?1"@
}

/// The statement that lists messages in the given order, with or without
/// the keyword filter (whose pattern is then the first parameter).
pub open spec fn list_sql_spec(order: Seq<char>, with_keyword: bool) -> Seq<char> {
    let filter = if with_keyword {
        keyword_filter()
    } else {
        Seq::empty()
    };
    let limit = if with_keyword {
        "?2"@
    } else {
        "?1"@
    };
    let offset = if with_keyword {
        "?3"@
    } else {
        "?2"@
    };
    "\n        SELECT id, received_at, message_type, from_openid_hash, status,\n               substr(COALESCE(content_text, link_url, location_label, media_id, ''), 1, 160) AS content_preview,\n               substr(COALESCE(processed_text, ''), 1, 160) AS processed_preview\n        FROM messages\n        "@
        + filter + "\n        ORDER BY received_at "@ + order + ", id "@ + order
        + "\n        LIMIT "@ + limit + " OFFSET "@ + offset + "\n        "@
}

/// The statement that lists messages (see `list_sql_spec`).
pub fn list_messages_sql(order: &str, with_keyword: bool) -> (r: String)
    ensures
        r@ == list_sql_spec(order@, with_keyword),
{
    let mut s = string_from(
        "\n        SELECT id, received_at, message_type, from_openid_hash, status,\n               substr(COALESCE(content_text, link_url, location_label, media_id, ''), 1, 160) AS content_preview,\n               substr(COALESCE(processed_text, ''), 1, 160) AS processed_preview\n        FROM messages\n        ",
    );
    if with_keyword {
        push_str(
            &mut s,
            "WHERE content_text LIKE ?1 OR processed_text LIKE ?1 OR link_url LIKE ?1 OR location_label LIKE ?1 OR from_openid_hash LIKE ?1",
        );
    }
    push_str(&mut s, "\n        ORDER BY received_at ");
    push_str(&mut s, order);
    push_str(&mut s, ", id ");
    push_str(&mut s, order);
    push_str(&mut s, "\n        LIMIT ");
    if with_keyword {
        push_str(&mut s, "?2");
    } else {
        push_str(&mut s, "?1");
    }
    push_str(&mut s, " OFFSET ");
    if with_keyword {
        push_str(&mut s, "?3");
    } else {
        push_str(&mut s, "?2");
    }
    push_str(&mut s, "\n        ");
    assert(s@ =~= list_sql_spec(order@, with_keyword));
    s
}

/// The page after bounds: at least the first.
pub open spec fn bounded_page(q: MessageListQuery) -> int {
    if q.page < 1 {
        1
    } else {
        q.page as int
    }
}

/// The page size after bounds: between 1 and 100.
pub open spec fn bounded_per_page(q: MessageListQuery) -> int {
    if q.per_page < 1 {
        1
    } else if q.per_page > 100 {
        100
    } else {
        q.per_page as int
    }
}

/// The keyword of a query, unless it is empty.
pub open spec fn query_keyword(q: MessageListQuery) -> Option<Seq<char>> {
    match q.keyword {
        Some(k) => if k@.len() == 0 {
            None
        } else {
            Some(k@)
        },
        None => None,
    }
}

/// What the store is asked for a page request: page and size bounded, the
/// rows before the page skipped, a keyword matched anywhere in the searched
/// columns, newest first unless ascending order is asked for.
pub open spec fn list_plan_matches(q: MessageListQuery, p: MessageListPlan) -> bool {
    &&& p.page == bounded_page(q)
    &&& p.per_page == bounded_per_page(q)
    &&& p.offset == (bounded_page(q) - 1) * bounded_per_page(q)
    &&& p.limit == bounded_per_page(q)
    &&& crate::config::settings::opt_str(p.keyword_like) == match query_keyword(q) {
        Some(k) => Some("%"@ + k + "%"@),
        None => None,
    }
    &&& p.sql@ == list_sql_spec(
        if q.sort_desc {
            "DESC"@
        } else {
            "ASC"@
        },
        query_keyword(q) is Some,
    )
}

/// Pages tile the list: a page holds between 1 and 100 rows, the first
/// page (or page 0) starts at the first row, and the next page of the same
/// size starts right where the previous one ends.
pub proof fn lemma_pages_tile_the_list(q1: MessageListQuery, q2: MessageListQuery, p1: MessageListPlan, p2: MessageListPlan)
    requires
        list_plan_matches(q1, p1),
        list_plan_matches(q2, p2),
    ensures
        1 <= p1.limit <= 100,
        p1.offset >= 0,
        q1.page <= 1 ==> p1.offset == 0,
        q1.page >= 1 && q2.page == q1.page + 1 && q2.per_page == q1.per_page ==> p2.offset == p1.offset + p1.limit,
{
    let k = bounded_per_page(q1);
    assert(p1.offset == (bounded_page(q1) - 1) * k);
    assert((bounded_page(q1) - 1) * k >= 0) by (nonlinear_arith)
        requires
            bounded_page(q1) >= 1,
            k >= 1,
    ;
    if q1.page <= 1 {
        assert(bounded_page(q1) == 1);
        assert(0 * k == 0);
    }
    if q1.page >= 1 && q2.page == q1.page + 1 && q2.per_page == q1.per_page {
        assert(bounded_page(q2) == bounded_page(q1) + 1);
        assert(bounded_per_page(q2) == k);
        assert((bounded_page(q1) + 1 - 1) * k == (bounded_page(q1) - 1) * k + k) by (nonlinear_arith);
    }
}

/// Plans one page of the message list (see `list_plan_matches`). The
/// product of the bounded page and size must fit in a `u32`, as the store's
/// arithmetic is done in that type.
pub fn plan_message_list(query: &MessageListQuery) -> (r: MessageListPlan)
    requires
        (bounded_page(*query) - 1) * bounded_per_page(*query) <= u32::MAX,
    ensures
        list_plan_matches(*query, r),
{
    let page: u32 = if query.page < 1 {
        1
    } else {
        query.page
    };
    let per_page: u32 = if query.per_page < 1 {
        1
    } else if query.per_page > 100 {
        100
    } else {
        query.per_page
    };
    let offset: u32 = (page - 1) * per_page;
    let keyword_like = match &query.keyword {
        Some(k) => if k.as_str().is_empty() {
            None
        } else {
            let mut like = string_from("%");
            push_str(&mut like, k.as_str());
            push_str(&mut like, "%");
            Some(like)
        },
        None => None,
    };
    let order = if query.sort_desc {
        "DESC"
    } else {
        "ASC"
    };
    let sql = list_messages_sql(order, keyword_like.is_some());
    MessageListPlan {
        page,
        per_page,
        offset: offset as i64,
        limit: per_page as i64,
        keyword_like,
        sql,
    }
}

} // verus!
