//! Turning a message into the Markdown that is written to the knowledge base.
use vstd::prelude::*;

use crate::text::{i64_to_dec, push_str, string_from};
use crate::wechat::message::CommonFields;

pub mod artifact;
pub mod link;
pub mod location;
pub mod media;
pub mod text;

verus! {

/// The key of a message: WeChat's message id, or `"{create_time}_{type}"`
/// when WeChat gave none.
pub open spec fn message_key_spec(common: CommonFields, fallback_type: Seq<char>) -> Seq<char> {
    match common.msg_id {
        Some(id) => id@,
        None => crate::text::signed_dec_spec(common.create_time as int) + "_"@ + fallback_type,
    }
}

pub(crate) fn message_key(common: &CommonFields, fallback_type: &str) -> (r: String)
    ensures
        r@ == message_key_spec(*common, fallback_type@),
{
    match &common.msg_id {
        Some(id) => string_from(id.as_str()),
        None => {
            let mut key = i64_to_dec(common.create_time);
            push_str(&mut key, "_");
            push_str(&mut key, fallback_type);
            key
        },
    }
}

} // verus!
