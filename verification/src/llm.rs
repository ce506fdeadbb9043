//! What is asked of a language model about a media file, and its answer.
use vstd::prelude::*;

use crate::text::{push_str, string_from};

verus! {

/// The kinds of media a model is asked about.
#[derive(Debug, Clone, Copy, PartialEq, Eq, Structural)]
pub enum MediaKind {
    Image,
    Voice,
    Video,
    ShortVideo,
}

/// A request to describe a downloaded media file.
#[derive(Debug, Clone, PartialEq, Eq)]
pub struct LlmMediaRequest {
    pub kind: MediaKind,
    pub path: String,
    pub mime_type: String,
    pub system_prompt: String,
}

/// A model's answer: who answered and what it said.
#[derive(Debug, Clone, PartialEq, Eq)]
pub struct LlmOutput {
    pub provider: String,
    pub model: String,
    pub text: String,
}

/// The settings of the Gemini model service.
#[derive(Debug, Clone, PartialEq, Eq)]
pub struct GeminiConfig {
    pub endpoint_base: String,
    pub api_key: String,
    pub model: String,
    pub max_inline_bytes: u64,
}

/// The `generateContent` URL of a Gemini configuration.
pub open spec fn generate_url_spec(c: GeminiConfig) -> Seq<char> {
    crate::enrich::trim_slashes_end_spec(c.endpoint_base@) + "/v1beta/models/"@ + c.model@
        + ":generateContent?key="@ + c.api_key@
}

impl GeminiConfig {
    /// The `generateContent` URL of the model.
    pub fn generate_url(&self) -> (r: String)
        ensures
            r@ == generate_url_spec(*self),
    {
        let mut u = crate::enrich::trim_slashes_end(self.endpoint_base.as_str());
        push_str(&mut u, "/v1beta/models/");
        push_str(&mut u, self.model.as_str());
        push_str(&mut u, ":generateContent?key=");
        push_str(&mut u, self.api_key.as_str());
        u
    }

    /// Whether a file of `size` bytes may be sent inline; the error names the limit.
    pub fn check_inline_size(&self, size: u64) -> (r: Result<(), crate::error::BridgeError>)
        ensures
            r is Ok <==> size <= self.max_inline_bytes,
            r matches Err(e) ==> e@ == (
                crate::error::ErrorKind::ExternalPayloadInvalid,
                "media exceeds Gemini inline limit "@ + crate::text::dec_spec(self.max_inline_bytes as nat),
            ),
    {
        if size > self.max_inline_bytes {
            let mut m = string_from("media exceeds Gemini inline limit ");
            let d = crate::text::u64_to_dec(self.max_inline_bytes);
            push_str(&mut m, d.as_str());
            return Err(crate::error::BridgeError::ExternalPayloadInvalid(m));
        }
        Ok(())
    }
}

/// The text parts of a model's candidates, in order.
pub open spec fn candidate_texts(candidates: Seq<Vec<Option<String>>>) -> Seq<Seq<char>>
    decreases candidates.len(),
{
    if candidates.len() == 0 {
        Seq::empty()
    } else {
        candidate_texts(candidates.drop_last()) + part_texts(candidates.last()@)
    }
}

/// The texts among the parts of one candidate, in order.
pub open spec fn part_texts(parts: Seq<Option<String>>) -> Seq<Seq<char>>
    decreases parts.len(),
{
    if parts.len() == 0 {
        Seq::empty()
    } else {
        match parts.last() {
            Some(t) => part_texts(parts.drop_last()).push(t@),
            None => part_texts(parts.drop_last()),
        }
    }
}

/// Texts joined by a separator.
pub open spec fn join_spec(items: Seq<Seq<char>>, sep: Seq<char>) -> Seq<char>
    decreases items.len(),
{
    if items.len() == 0 {
        Seq::empty()
    } else if items.len() == 1 {
        items[0]
    } else {
        join_spec(items.drop_last(), sep) + sep + items.last()
    }
}

/// The answer of the Gemini model from the text parts of its candidates:
/// the texts joined by line breaks and trimmed; an error when nothing is left.
pub fn gemini_output(model: &str, candidates: &Vec<Vec<Option<String>>>) -> (r: Result<LlmOutput, crate::error::BridgeError>)
    ensures
        ({
            let text = crate::text::trim_spec(join_spec(candidate_texts(candidates@), "\n"@));
            if text.len() == 0 {
                r matches Err(e) && e@ == (
                    crate::error::ErrorKind::ExternalPayloadInvalid,
                    "Gemini response contained no text"@,
                )
            } else {
                r matches Ok(o) && o.provider@ == "gemini"@ && o.model@ == model@ && o.text@ == text
            }
        }),
{
    let mut joined = String::new();
    let mut count: usize = 0;
    let ghost mut seen: Seq<Seq<char>> = Seq::empty();
    let mut i: usize = 0;
    assert(candidates@.take(0) =~= Seq::<Vec<Option<String>>>::empty());
    while i < candidates.len()
        invariant
            i <= candidates.len(),
            seen == candidate_texts(candidates@.take(i as int)),
            count == seen.len() || (count >= 1 && seen.len() >= 1),
            (count == 0) == (seen.len() == 0),
            joined@ == join_spec(seen, "\n"@),
        decreases candidates.len() - i,
    {
        assert(candidates@.take(i + 1).drop_last() == candidates@.take(i as int));
        let parts = &candidates[i];
        let ghost before = seen;
        let mut j: usize = 0;
        assert(parts@.take(0) =~= Seq::<Option<String>>::empty());
        assert(before + part_texts(parts@.take(0)) =~= before);
        while j < parts.len()
            invariant
                j <= parts.len(),
                seen == before + part_texts(parts@.take(j as int)),
                (count == 0) == (seen.len() == 0),
                joined@ == join_spec(seen, "\n"@),
            decreases parts.len() - j,
        {
            assert(parts@.take(j + 1).drop_last() == parts@.take(j as int));
            match &parts[j] {
                Some(t) => {
                    let ghost old_seen = seen;
                    if count > 0 {
                        push_str(&mut joined, "\n");
                    }
                    push_str(&mut joined, t.as_str());
                    proof {
                        seen = old_seen.push(t@);
                        assert(seen.drop_last() =~= old_seen);
                        assert(before + part_texts(parts@.take(j + 1)) =~= seen);
                        if old_seen.len() == 0 {
                            assert(seen.len() == 1);
                            assert(joined@ =~= seen[0]);
                        }
                    }
                    if count < usize::MAX {
                        count = count + 1;
                    }
                },
                None => {
                    assert(before + part_texts(parts@.take(j + 1)) =~= seen);
                },
            }
            j += 1;
        }
        assert(parts@.take(parts.len() as int) == parts@);
        i += 1;
    }
    assert(candidates@.take(candidates.len() as int) == candidates@);
    let text = crate::text::trim(joined.as_str());
    if text.as_str().is_empty() {
        return Err(crate::error::BridgeError::ExternalPayloadInvalid(string_from("Gemini response contained no text")));
    }
    Ok(LlmOutput { provider: string_from("gemini"), model: string_from(model), text })
}

/// The inline data of a Gemini request: the media bytes in standard base64.
pub fn gemini_inline_data(bytes: &[u8]) -> (r: String)
    ensures
        r@ == crate::codec::b64_std_encode_spec(bytes@),
{
    crate::codec::b64_std_encode(bytes)
}

} // verus!
