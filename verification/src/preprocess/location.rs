//! Location messages: the coordinates with the reverse-geocoded address.
use vstd::prelude::*;

use crate::enrich::LocationSummary;
use crate::preprocess::artifact::{ProcessedArtifact, ProcessedArtifactKind};
use crate::preprocess::link::push_opt_line;
use crate::preprocess::message_key;
use crate::text::{push_str, string_from};
use crate::wechat::message::LocationMessage;

verus! {

/// The present values among `parts`, joined by `sep`.
pub open spec fn join_present(parts: Seq<Option<Seq<char>>>, sep: Seq<char>) -> Seq<char>
    decreases parts.len(),
{
    if parts.len() == 0 {
        Seq::empty()
    } else {
        let rest = join_present(parts.drop_last(), sep);
        match parts.last() {
            None => rest,
            Some(p) => if present_count(parts.drop_last()) == 0 {
                p
            } else {
                rest + sep + p
            },
        }
    }
}

/// How many of `parts` are present.
pub open spec fn present_count(parts: Seq<Option<Seq<char>>>) -> nat
    decreases parts.len(),
{
    if parts.len() == 0 {
        0
    } else {
        present_count(parts.drop_last()) + if parts.last() is Some {
            1nat
        } else {
            0nat
        }
    }
}

/// The administrative area of a summary: province, city and district that
/// are present, joined by `" / "`.
pub open spec fn admin_area_spec(s: LocationSummary) -> Seq<char> {
    join_present(
        seq![
            crate::wechat::message::opt_view(s.province),
            crate::wechat::message::opt_view(s.city),
            crate::wechat::message::opt_view(s.district),
        ],
        " / "@,
    )
}

/// The administrative area lists province, city and district in that
/// order, separated by ` / `, leaving out the absent ones: all three give
/// `P / C / D`, a province and a district give `P / D`, a lone part is
/// itself, and none give nothing.
pub proof fn lemma_admin_area_parts(s: LocationSummary)
    ensures
        ({
            let p = crate::wechat::message::opt_view(s.province);
            let c = crate::wechat::message::opt_view(s.city);
            let d = crate::wechat::message::opt_view(s.district);
            let area = admin_area_spec(s);
            let (x, y, z) = (p->Some_0, c->Some_0, d->Some_0);
            &&& (p is Some && c is Some && d is Some) ==> area == x + " / "@ + y + " / "@ + z
            &&& (p is Some && c is None && d is Some) ==> area == x + " / "@ + z
            &&& (p is Some && c is Some && d is None) ==> area == x + " / "@ + y
            &&& (p is None && c is Some && d is Some) ==> area == y + " / "@ + z
            &&& (p is Some && c is None && d is None) ==> area == x
            &&& (p is None && c is Some && d is None) ==> area == y
            &&& (p is None && c is None && d is Some) ==> area == z
            &&& (p is None && c is None && d is None) ==> area.len() == 0
        }),
{
    let parts = seq![
        crate::wechat::message::opt_view(s.province),
        crate::wechat::message::opt_view(s.city),
        crate::wechat::message::opt_view(s.district),
    ];
    let p2 = parts.drop_last();
    let p1 = p2.drop_last();
    let p0 = p1.drop_last();
    assert(p2 =~= seq![parts[0], parts[1]]);
    assert(p1 =~= seq![parts[0]]);
    assert(p0 =~= Seq::<Option<Seq<char>>>::empty());
    assert(present_count(p0) == 0);
    assert(join_present(p0, " / "@) == Seq::<char>::empty());
    assert(p1.last() == parts[0] && p2.last() == parts[1] && parts.last() == parts[2]);
    assert(present_count(p1) == if parts[0] is Some { 1nat } else { 0nat });
    assert(join_present(p1, " / "@) == match parts[0] {
        Some(x) => x,
        None => Seq::<char>::empty(),
    });
    assert(present_count(p2) == present_count(p1) + if parts[1] is Some { 1nat } else { 0nat });
    assert(join_present(p2, " / "@) == match parts[1] {
        None => join_present(p1, " / "@),
        Some(y) => if present_count(p1) == 0 {
            y
        } else {
            join_present(p1, " / "@) + " / "@ + y
        },
    });
}

/// The Markdown of a location message with its reverse-geocoding summary.
pub open spec fn location_body_spec(m: LocationMessage, s: LocationSummary) -> Seq<char> {
    let admin = admin_area_spec(s);
    "## Location\n\n"@ + "- Coordinates: "@ + m.latitude@ + ", "@ + m.longitude@ + "\n"@
        + crate::preprocess::link::opt_line("- WeChat Label: "@, m.label)
        + crate::preprocess::link::opt_line("- Address: "@, s.address) + (if admin.len() == 0 {
        Seq::empty()
    } else {
        "- Administrative Area: "@ + admin + "\n"@
    }) + crate::preprocess::link::opt_line("- Adcode: "@, s.adcode)
        + crate::preprocess::link::opt_line("- City Code: "@, s.city_code)
}

fn admin_area(s: &LocationSummary) -> (r: String)
    ensures
        r@ == admin_area_spec(*s),
{
    let ghost parts = seq![
        crate::wechat::message::opt_view(s.province),
        crate::wechat::message::opt_view(s.city),
        crate::wechat::message::opt_view(s.district),
    ];
    let mut out = String::new();
    let mut any = false;
    assert(parts.take(0) =~= Seq::<Option<Seq<char>>>::empty());
    assert(parts.take(1).drop_last() =~= parts.take(0));
    assert(parts.take(2).drop_last() =~= parts.take(1));
    assert(parts.take(3).drop_last() =~= parts.take(2));
    assert(parts.take(3) =~= parts);
    assert(parts.take(1).last() == parts[0]);
    assert(parts.take(2).last() == parts[1]);
    assert(parts.take(3).last() == parts[2]);
    assert(join_present(parts.take(0), " / "@) == Seq::<char>::empty());
    assert(present_count(parts.take(0)) == 0);
    if let Some(p) = &s.province {
        push_str(&mut out, p.as_str());
        any = true;
    }
    assert(out@ == join_present(parts.take(1), " / "@));
    assert(any == (present_count(parts.take(1)) > 0));
    if let Some(c) = &s.city {
        if any {
            push_str(&mut out, " / ");
        }
        push_str(&mut out, c.as_str());
        any = true;
    }
    assert(out@ == join_present(parts.take(2), " / "@));
    assert(any == (present_count(parts.take(2)) > 0));
    if let Some(d) = &s.district {
        if any {
            push_str(&mut out, " / ");
        }
        push_str(&mut out, d.as_str());
    }
    assert(out@ == join_present(parts.take(3), " / "@));
    out
}

/// The artifact of a location message, whose body is the coordinates and
/// the reverse-geocoded address.
pub fn process_location(
    message: &LocationMessage,
    summary: &LocationSummary,
    raw_json_path: Option<String>,
) -> (r: ProcessedArtifact)
    ensures
        r.message_key@ == crate::preprocess::message_key_spec(message.common, "location"@),
        r.kind == ProcessedArtifactKind::Location,
        r.markdown_body@ == location_body_spec(*message, *summary),
        r.external_service matches Some(s) && s@ == "tencent_lbs"@,
        crate::wechat::message::opt_view(r.summary) == crate::wechat::message::opt_view(
            summary.address,
        ),
        r.raw_payload_paths@ == (match raw_json_path {
            Some(p) => seq![p],
            None => Seq::<String>::empty(),
        }),
        r.processed_payload_paths@.len() == 0,
        r.provider is None,
        r.model is None,
{
    let mut body = string_from("## Location\n\n");
    push_str(&mut body, "- Coordinates: ");
    push_str(&mut body, message.latitude.as_str());
    push_str(&mut body, ", ");
    push_str(&mut body, message.longitude.as_str());
    push_str(&mut body, "\n");
    push_opt_line(&mut body, "- WeChat Label: ", &message.label);
    push_opt_line(&mut body, "- Address: ", &summary.address);
    let admin = admin_area(summary);
    if !admin.as_str().is_empty() {
        push_str(&mut body, "- Administrative Area: ");
        push_str(&mut body, admin.as_str());
        push_str(&mut body, "\n");
    }
    push_opt_line(&mut body, "- Adcode: ", &summary.adcode);
    push_opt_line(&mut body, "- City Code: ", &summary.city_code);
    let key = message_key(&message.common, "location");
    let mut artifact = ProcessedArtifact::new(
        key.as_str(),
        ProcessedArtifactKind::Location,
        body.as_str(),
    );
    artifact.external_service = Some(string_from("tencent_lbs"));
    if let Some(path) = raw_json_path {
        artifact.raw_payload_paths.push(path);
    }
    artifact.summary = match &summary.address {
        Some(a) => Some(string_from(a.as_str())),
        None => None,
    };
    assert(artifact.markdown_body@ =~= location_body_spec(*message, *summary));
    artifact
}

} // verus!
