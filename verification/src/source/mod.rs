//! Daily source documents for the knowledge base: one Markdown file per
//! capture date, holding one delimited entry per message.
//!
//! The library decides the file's path and its new text; reading the old
//! text and writing the new one is left to the caller.
use vstd::prelude::*;

use crate::error::{BridgeError, ErrorKind, ErrorView};
use crate::preprocess::artifact::ProcessedArtifact;
use crate::text::{chars_of, push_char, push_str, str_eq, string_from};

pub mod render;
pub mod upsert;

verus! {

/// What is known of a message besides its processed body.
#[derive(Debug, Clone, PartialEq, Eq)]
pub struct SourceMetadata {
    pub wechat_msg_id: Option<String>,
    pub message_type: String,
    pub received_at: String,
    pub wechat_create_time: Option<i64>,
    pub openid_hash: String,
    pub raw_dir: Option<String>,
    pub provider: Option<String>,
    pub model: Option<String>,
    pub external_service: Option<String>,
    pub bridge_version: String,
}

/// Where a source document was written and how many bytes it holds.
#[derive(Debug, Clone, PartialEq, Eq)]
pub struct SourceWriteResult {
    pub path: String,
    pub bytes_written: u64,
}

/// The two layouts of daily documents.
#[derive(Debug, Clone, Copy, PartialEq, Eq, Structural)]
pub enum SourceFormat {
    Ai,
    DailyLog,
}

/// Writes daily source documents under a root directory, in one format.
#[derive(Debug, Clone)]
pub struct SourceWriter {
    root: String,
    format: SourceFormat,
}

/// A character that may stay in a path segment.
pub open spec fn is_segment_char(c: char) -> bool {
    crate::text::is_ascii_alnum(c) || c == '.' || c == '_' || c == '-'
}

/// A segment with every other character replaced by `_`.
pub open spec fn sanitized_chars(s: Seq<char>) -> Seq<char> {
    s.map_values(|c: char| if is_segment_char(c) {
        c
    } else {
        '_'
    })
}

/// A single path segment made safe: empty, `.` and `..`, and anything with
/// a `/` or `\` are refused as escaping the root.
pub open spec fn sanitize_segment_spec(s: Seq<char>) -> Result<Seq<char>, ErrorView> {
    if s.len() == 0 || s == "."@ || s == ".."@ || crate::text::has_char(s, '/')
        || crate::text::has_char(s, '\\') {
        Err((ErrorKind::PathOutsideRoot, s))
    } else {
        Ok(sanitized_chars(s))
    }
}

/// The shape `YYYY-MM-DD`: digits, with `-` at positions 4 and 7.
pub open spec fn is_date_shape(d: Seq<char>) -> bool {
    &&& d.len() == 10
    &&& forall|i: int|
        0 <= i < 10 ==> if i == 4 || i == 7 {
            #[trigger] d[i] == '-'
        } else {
            crate::text::is_digit(d[i])
        }
}

/// The capture date of a reception time, its first ten bytes: an error when
/// they do not end at a character boundary, or do not have the date shape.
pub open spec fn capture_date_spec(received_at: Seq<char>) -> Result<Seq<char>, ErrorView> {
    if received_at.len() >= 10 && is_date_shape(received_at.take(10)) {
        sanitize_segment_spec(received_at.take(10))
    } else if !vstd::utf8::is_char_boundary(vstd::utf8::encode_utf8(received_at), 10) {
        Err(
            (
                ErrorKind::Config,
                "received_at is too short for daily source path: "@ + received_at,
            ),
        )
    } else {
        Err((ErrorKind::Config, "received_at does not start with YYYY-MM-DD: "@ + received_at))
    }
}

/// `root` joined with a file name, as a path join does for a relative name.
pub open spec fn join_spec(root: Seq<char>, name: Seq<char>) -> Seq<char> {
    if root.len() == 0 || root.last() == '/' {
        root + name
    } else {
        root + "/"@ + name
    }
}

/// The path of the daily document of a message, or why there is none.
pub open spec fn source_path_spec(root: Seq<char>, message_key: Seq<char>, received_at: Seq<char>) -> Result<Seq<char>, ErrorView> {
    match sanitize_segment_spec(message_key) {
        Err(e) => Err(e),
        Ok(_) => match capture_date_spec(received_at) {
            Err(e) => Err(e),
            Ok(date) => Ok(join_spec(root, date + ".md"@)),
        },
    }
}

/// The new text of the daily document of a message, given its old text
/// (`None` when there is no file yet).
pub open spec fn source_text_spec(
    format: SourceFormat,
    current: Option<Seq<char>>,
    artifact: ProcessedArtifact,
    metadata: SourceMetadata,
) -> Result<Seq<char>, ErrorView> {
    match sanitize_segment_spec(artifact.message_key@) {
        Err(e) => Err(e),
        Ok(key) => match capture_date_spec(metadata.received_at@) {
            Err(e) => Err(e),
            Ok(date) => {
                let base = match current {
                    Some(c) => c,
                    None => match format {
                        SourceFormat::Ai => crate::source::render::ai_header_spec(date),
                        SourceFormat::DailyLog => crate::source::render::daily_log_header_spec(
                            date,
                            metadata.bridge_version@,
                        ),
                    },
                };
                let entry = match format {
                    SourceFormat::Ai => crate::source::render::ai_entry_spec(
                        key,
                        artifact.markdown_body@,
                        metadata,
                    ),
                    SourceFormat::DailyLog => crate::source::render::daily_log_entry_spec(
                        key,
                        artifact.markdown_body@,
                        metadata,
                    ),
                };
                Ok(crate::source::upsert::upsert_spec(base, key, entry))
            },
        },
    }
}

/// Makes a path segment safe (see `sanitize_segment_spec`).
pub fn sanitize_segment(segment: &str) -> (r: Result<String, BridgeError>)
    ensures
        match r {
            Ok(s) => sanitize_segment_spec(segment@) == Ok::<Seq<char>, ErrorView>(s@),
            Err(e) => sanitize_segment_spec(segment@) == Err::<Seq<char>, ErrorView>(e@),
        },
{
    let v = chars_of(segment);
    let slash = crate::text::contains_char(&v, '/');
    let backslash = crate::text::contains_char(&v, '\\');
    if v.len() == 0 || str_eq(segment, ".") || str_eq(segment, "..") || slash || backslash {
        return Err(BridgeError::PathOutsideRoot(string_from(segment)));
    }
    let mut out = String::new();
    let mut i: usize = 0;
    while i < v.len()
        invariant
            i <= v.len(),
            out@ == sanitized_chars(v@.take(i as int)),
        decreases v.len() - i,
    {
        let c = v[i];
        let u: u32 = c as u32;
        let keep = (48 <= u && u <= 57) || (65 <= u && u <= 90) || (97 <= u && u <= 122) || c == '.'
            || c == '_' || c == '-';
        if keep {
            push_char(&mut out, c);
        } else {
            push_char(&mut out, '_');
        }
        assert(sanitized_chars(v@.take(i + 1)) =~= sanitized_chars(v@.take(i as int)).push(
            if is_segment_char(c) {
                c
            } else {
                '_'
            },
        ));
        i += 1;
    }
    assert(v@.take(v.len() as int) == v@);
    Ok(out)
}

/// The capture date of a reception time (see `capture_date_spec`).
pub fn capture_date_from_received_at(received_at: &str) -> (r: Result<String, BridgeError>)
    ensures
        match r {
            Ok(s) => capture_date_spec(received_at@) == Ok::<Seq<char>, ErrorView>(s@),
            Err(e) => capture_date_spec(received_at@) == Err::<Seq<char>, ErrorView>(e@),
        },
{
    let v = chars_of(received_at);
    if v.len() >= 10 {
        let mut ok = true;
        let mut i: usize = 0;
        while i < 10
            invariant
                v.len() >= 10,
                i <= 10,
                ok == (forall|j: int|
                    0 <= j < i ==> if j == 4 || j == 7 {
                        #[trigger] v@[j] == '-'
                    } else {
                        crate::text::is_digit(v@[j])
                    }),
            decreases 10 - i,
        {
            let c = v[i];
            let u: u32 = c as u32;
            let good = if i == 4 || i == 7 {
                c == '-'
            } else {
                48 <= u && u <= 57
            };
            ok = ok && good;
            i += 1;
        }
        if ok {
            let date = crate::text::string_of_range(&v, 0, 10);
            assert(v@.subrange(0, 10) == v@.take(10));
            assert(is_date_shape(v@.take(10)));
            return sanitize_segment(date.as_str());
        }
        proof {
            if is_date_shape(v@.take(10)) {
                assert forall|j: int| 0 <= j < 10 implies if j == 4 || j == 7 {
                    #[trigger] v@[j] == '-'
                } else {
                    crate::text::is_digit(v@[j])
                } by {
                    assert(v@.take(10)[j] == v@[j]);
                }
            }
        }
    }
    if !received_at.is_char_boundary(10) {
        let mut m = string_from("received_at is too short for daily source path: ");
        push_str(&mut m, received_at);
        Err(BridgeError::Config(m))
    } else {
        let mut m = string_from("received_at does not start with YYYY-MM-DD: ");
        push_str(&mut m, received_at);
        Err(BridgeError::Config(m))
    }
}

/// `root` joined with a file name (see `join_spec`).
pub fn join_path(root: &str, name: &str) -> (r: String)
    ensures
        r@ == join_spec(root@, name@),
{
    let rv = chars_of(root);
    let mut out = string_from(root);
    if !(rv.len() == 0 || rv[rv.len() - 1] == '/') {
        push_str(&mut out, "/");
    }
    push_str(&mut out, name);
    out
}

impl SourceWriter {
    /// The directory the documents go to.
    pub closed spec fn root_spec(&self) -> Seq<char> {
        self.root@
    }

    /// The format of the documents.
    pub closed spec fn format_spec(&self) -> SourceFormat {
        self.format
    }

    /// A writer in the default format, the one for AI readers.
    pub fn new(root: &str) -> (r: SourceWriter)
        ensures
            r.root_spec() == root@,
            r.format_spec() == SourceFormat::Ai,
    {
        SourceWriter::ai(root)
    }

    /// A writer in the format for AI readers.
    pub fn ai(root: &str) -> (r: SourceWriter)
        ensures
            r.root_spec() == root@,
            r.format_spec() == SourceFormat::Ai,
    {
        SourceWriter { root: string_from(root), format: SourceFormat::Ai }
    }

    /// A writer in the log format.
    pub fn daily_log(root: &str) -> (r: SourceWriter)
        ensures
            r.root_spec() == root@,
            r.format_spec() == SourceFormat::DailyLog,
    {
        SourceWriter { root: string_from(root), format: SourceFormat::DailyLog }
    }

    /// The directory the documents go to.
    pub fn root(&self) -> (r: &str)
        ensures
            r@ == self.root_spec(),
    {
        self.root.as_str()
    }

    /// The format of the documents.
    pub fn format(&self) -> (r: SourceFormat)
        ensures
            r == self.format_spec(),
    {
        self.format
    }

    /// The path of the daily document of a message (see `source_path_spec`).
    pub fn source_path(&self, artifact: &ProcessedArtifact, metadata: &SourceMetadata) -> (r: Result<String, BridgeError>)
        ensures
            match r {
                Ok(p) => source_path_spec(self.root_spec(), artifact.message_key@, metadata.received_at@)
                    == Ok::<Seq<char>, ErrorView>(p@),
                Err(e) => source_path_spec(self.root_spec(), artifact.message_key@, metadata.received_at@)
                    == Err::<Seq<char>, ErrorView>(e@),
            },
    {
        sanitize_segment(artifact.message_key.as_str())?;
        let date = capture_date_from_received_at(metadata.received_at.as_str())?;
        let mut name = string_from(date.as_str());
        push_str(&mut name, ".md");
        Ok(join_path(self.root.as_str(), name.as_str()))
    }

    /// The new text of the daily document of a message, given its old text
    /// (see `source_text_spec`).
    pub fn render_source(&self, current: Option<&str>, artifact: &ProcessedArtifact, metadata: &SourceMetadata) -> (r: Result<String, BridgeError>)
        ensures
            match r {
                Ok(t) => source_text_spec(
                    self.format_spec(),
                    match current {
                        Some(c) => Some(c@),
                        None => None,
                    },
                    *artifact,
                    *metadata,
                ) == Ok::<Seq<char>, ErrorView>(t@),
                Err(e) => source_text_spec(
                    self.format_spec(),
                    match current {
                        Some(c) => Some(c@),
                        None => None,
                    },
                    *artifact,
                    *metadata,
                ) == Err::<Seq<char>, ErrorView>(e@),
            },
    {
        let key = sanitize_segment(artifact.message_key.as_str())?;
        let date = capture_date_from_received_at(metadata.received_at.as_str())?;
        let base = match current {
            Some(c) => string_from(c),
            None => match self.format {
                SourceFormat::Ai => crate::source::render::render_ai_document_header(date.as_str()),
                SourceFormat::DailyLog => crate::source::render::render_daily_log_document_header(
                    date.as_str(),
                    metadata,
                ),
            },
        };
        let entry = match self.format {
            SourceFormat::Ai => crate::source::render::render_ai_entry(key.as_str(), artifact, metadata),
            SourceFormat::DailyLog => crate::source::render::render_daily_log_entry(
                key.as_str(),
                artifact,
                metadata,
            ),
        };
        Ok(crate::source::upsert::upsert_daily_entry(base.as_str(), key.as_str(), entry.as_str()))
    }
}

/// Two writers with the same root and format write alike: for every
/// artifact, metadata and prior text of the daily document they pick the
/// same path and produce the same text. `SourceWriter::new(root)` and
/// `SourceWriter::ai(root)` both have root `root` and the AI format, so the
/// AI format is the default.
pub proof fn lemma_writers_with_same_root_and_format_agree(
    w1: SourceWriter,
    w2: SourceWriter,
    artifact: ProcessedArtifact,
    metadata: SourceMetadata,
    current: Option<Seq<char>>,
)
    requires
        w1.root_spec() == w2.root_spec(),
        w1.format_spec() == w2.format_spec(),
    ensures
        source_path_spec(w1.root_spec(), artifact.message_key@, metadata.received_at@)
            == source_path_spec(w2.root_spec(), artifact.message_key@, metadata.received_at@),
        source_text_spec(w1.format_spec(), current, artifact, metadata)
            == source_text_spec(w2.format_spec(), current, artifact, metadata),
{
}

/// Whether `c` is an ASCII letter or digit, `.`, `_` or `-`.
pub open spec fn plain_path_char(c: char) -> bool {
    let u = c as u32;
    ||| ('a' as u32) <= u <= ('z' as u32)
    ||| ('A' as u32) <= u <= ('Z' as u32)
    ||| ('0' as u32) <= u <= ('9' as u32)
    ||| c == '.' || c == '_' || c == '-'
}

/// A sanitized segment has the length of the original, keeps every ASCII
/// letter, digit, `.`, `_` and `-` where it stands and turns every other
/// character into `_`; it is never `.` or `..` and holds no `/` or `\`;
/// and sanitizing it again changes nothing.
pub proof fn lemma_sanitized_segment_is_safe(s: Seq<char>)
    ensures
        sanitize_segment_spec(s) is Ok ==> {
            let r = sanitize_segment_spec(s)->Ok_0;
            &&& r.len() == s.len()
            &&& forall|i: int| 0 <= i < s.len() ==> if plain_path_char(#[trigger] s[i]) {
                r[i] == s[i]
            } else {
                r[i] == '_'
            }
            &&& r != "."@ && r != ".."@
            &&& forall|i: int| 0 <= i < r.len() ==> #[trigger] r[i] != '/' && r[i] != '\\'
            &&& sanitize_segment_spec(r) == Ok::<Seq<char>, ErrorView>(r)
        },
{
    reveal_strlit(".");
    reveal_strlit("..");
    if sanitize_segment_spec(s) is Ok {
        let r = sanitized_chars(s);
        assert forall|i: int| 0 <= i < s.len() implies plain_path_char(#[trigger] s[i]) == is_segment_char(s[i]) by {}
        assert forall|i: int| 0 <= i < r.len() implies #[trigger] r[i] != '/' && r[i] != '\\' by {
            if r[i] == '/' {
                assert(s[i] == '/');
            }
            if r[i] == '\\' {
                assert(s[i] == '\\');
            }
        }
        if r == "."@ {
            assert(s.len() == 1);
            assert(r[0] == '.');
            assert(s[0] == '.');
            assert(s =~= "."@);
        }
        if r == ".."@ {
            assert(s.len() == 2);
            assert(r[0] == '.' && r[1] == '.');
            assert(s[0] == '.' && s[1] == '.');
            assert(s =~= ".."@);
        }
        assert(!crate::text::has_char(r, '/'));
        assert(!crate::text::has_char(r, '\\'));
        assert(sanitized_chars(r) =~= r);
    }
}

/// The capture date of a reception time is its first ten characters, in
/// the shape `YYYY-MM-DD`; a reception time that begins with that shape
/// always has one.
pub proof fn lemma_capture_date_is_the_leading_date(received_at: Seq<char>)
    ensures
        capture_date_spec(received_at) is Ok ==> {
            let d = capture_date_spec(received_at)->Ok_0;
            &&& d == received_at.take(10)
            &&& d.len() == 10 && d[4] == '-' && d[7] == '-'
            &&& forall|i: int| 0 <= i < 10 && i != 4 && i != 7 ==> ('0' as u32) <= (#[trigger] d[i]) as u32 <= ('9' as u32)
        },
        received_at.len() >= 10 && is_date_shape(received_at.take(10)) ==> capture_date_spec(received_at) is Ok,
{
    reveal_strlit(".");
    reveal_strlit("..");
    let d = received_at.take(10);
    if received_at.len() >= 10 && is_date_shape(d) {
        assert(d[4] == '-');
        assert(d[7] == '-');
        assert forall|i: int| 0 <= i < 10 && i != 4 && i != 7 implies ('0' as u32) <= (#[trigger] d[i]) as u32 <= ('9' as u32) by {
            assert(crate::text::is_digit(d[i]));
        }
        assert(d.len() != 1 && d.len() != 2);
        assert(!crate::text::has_char(d, '/')) by {
            assert forall|i: int| 0 <= i < d.len() implies d[i] != '/' by {
                if i == 4 || i == 7 {
                } else {
                    assert(crate::text::is_digit(d[i]));
                }
            }
        }
        assert(!crate::text::has_char(d, '\\')) by {
            assert forall|i: int| 0 <= i < d.len() implies d[i] != '\\' by {
                if i == 4 || i == 7 {
                } else {
                    assert(crate::text::is_digit(d[i]));
                }
            }
        }
        assert forall|i: int| 0 <= i < d.len() implies is_segment_char(#[trigger] d[i]) by {
            if i == 4 || i == 7 {
            } else {
                assert(crate::text::is_digit(d[i]));
            }
        }
        assert(sanitized_chars(d) =~= d);
    }
}

} // verus!
