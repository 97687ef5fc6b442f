use vstd::prelude::*;

use crate::error::ProxyError;
use crate::json::{json_string, obj_get, obj_lookup, parse_json, push_json_string, push_lit, Json};
use crate::request::opt_string_view;
use vstd::string::StringSliceAdditionalSpecFns;

verus! {

/// An HTTP response as the library plans it: status, headers in order, body.
pub struct Reply {
    pub status: u16,
    pub headers: Vec<(String, String)>,
    pub body: Vec<u8>,
}

/// One entry of the public response: the encoded image, an always-empty URL
/// slot, and the prompt the caller sent.
pub struct ImageResult {
    pub b64_json: Option<String>,
    pub url: Option<String>,
    pub prompt: Option<String>,
}

/// The elements under the backend reply's `images` key; an absent or
/// non-array key yields no images.
pub open spec fn images_of(reply: Json) -> Seq<Json> {
    match reply {
        Json::Obj(entries) => match obj_lookup(entries@, "images"@) {
            Some(Json::Arr(items)) => items@,
            _ => Seq::<Json>::empty(),
        },
        _ => Seq::<Json>::empty(),
    }
}

/// What lands in `b64_json` for one element of the `images` array: a string's
/// content, a scalar's JSON text, and nothing for a nested value.
pub open spec fn image_slot(v: Json) -> Option<Seq<char>> {
    match v {
        Json::Str(s) => Some(s@),
        Json::Num(n) => Some(n@),
        Json::Bool(b) => Some(
            if b {
                "true"@
            } else {
                "false"@
            },
        ),
        Json::Null => Some("null"@),
        Json::Arr(_) => None,
        Json::Obj(_) => None,
    }
}

/// Reshapes a backend reply into the public image list: one entry per element
/// of `images`, order preserved, each stamped with the caller's prompt and an
/// empty URL slot.
pub fn reshape_images(reply: &Json, prompt: &String) -> (r: Vec<ImageResult>)
    ensures
        r@.len() == images_of(*reply).len(),
        forall|i: int|
            0 <= i < r@.len() ==> {
                &&& opt_string_view(#[trigger] r@[i].b64_json) == image_slot(images_of(*reply)[i])
                &&& r@[i].url is None
                &&& opt_string_view(r@[i].prompt) == Some(prompt@)
            },
{
    let mut out: Vec<ImageResult> = Vec::new();
    let items: &Vec<Json> = match reply {
        Json::Obj(entries) => match obj_get(entries, "images") {
            Some(v) => match v {
                Json::Arr(items) => items,
                _ => {
                    return out;
                },
            },
            None => {
                return out;
            },
        },
        _ => {
            return out;
        },
    };
    let n: usize = items.len();
    let mut i: usize = 0;
    while i < n
        invariant
            0 <= i <= n,
            n == items@.len(),
            items@ == images_of(*reply),
            out@.len() == i,
            forall|j: int|
                0 <= j < i ==> {
                    &&& opt_string_view(#[trigger] out@[j].b64_json) == image_slot(items@[j])
                    &&& out@[j].url is None
                    &&& opt_string_view(out@[j].prompt) == Some(prompt@)
                },
        decreases n - i,
    {
        let slot: Option<String> = match &items[i] {
            Json::Str(s) => Some(s.clone()),
            Json::Num(t) => Some(t.clone()),
            Json::Bool(b) => Some(
                if *b {
                    String::from_str("true")
                } else {
                    String::from_str("false")
                },
            ),
            Json::Null => Some(String::from_str("null")),
            Json::Arr(_) => None,
            Json::Obj(_) => None,
        };
        out.push(ImageResult { b64_json: slot, url: None, prompt: Some(prompt.clone()) });
        i += 1;
    }
    out
}

/// The serialized form of one public image entry: `url` is absent, `b64_json`
/// only when present.
pub open spec fn image_object_bytes(b64: Option<Seq<char>>, prompt: Seq<char>) -> Seq<u8> {
    match b64 {
        Some(s) => "{\"b64_json\":".spec_bytes() + json_string(s) + ",\"prompt\":".spec_bytes()
            + json_string(prompt) + "}".spec_bytes(),
        None => "{\"prompt\":".spec_bytes() + json_string(prompt) + "}".spec_bytes(),
    }
}

/// The comma-separated serialization of the image entries.
pub open spec fn image_list_inner(rs: Seq<ImageResult>) -> Seq<u8>
    decreases rs.len(),
{
    if rs.len() == 0 {
        Seq::<u8>::empty()
    } else {
        image_list_inner(rs.drop_last()) + (if rs.len() > 1 {
            ",".spec_bytes()
        } else {
            Seq::<u8>::empty()
        }) + image_object_bytes(
            opt_string_view(rs.last().b64_json),
            match rs.last().prompt {
                Some(p) => p@,
                None => Seq::<char>::empty(),
            },
        )
    }
}

/// The public response body: the JSON array of image entries.
pub open spec fn image_list_bytes(rs: Seq<ImageResult>) -> Seq<u8> {
    "[".spec_bytes() + image_list_inner(rs) + "]".spec_bytes()
}

/// Appends the serialized form of one image entry.
fn push_image_object(out: &mut Vec<u8>, r: &ImageResult)
    requires
        r.prompt is Some,
    ensures
        final(out)@ == old(out)@ + image_object_bytes(
            opt_string_view(r.b64_json),
            r.prompt->0@,
        ),
{
    match &r.b64_json {
        Some(s) => {
            push_lit(out, "{\"b64_json\":");
            push_json_string(out, s.as_str());
            push_lit(out, ",\"prompt\":");
        },
        None => {
            push_lit(out, "{\"prompt\":");
        },
    }
    match &r.prompt {
        Some(p) => push_json_string(out, p.as_str()),
        None => assert(false),
    }
    push_lit(out, "}");
    assert(final(out)@ =~= old(out)@ + image_object_bytes(
        opt_string_view(r.b64_json),
        r.prompt->0@,
    ));
}

/// Serializes the public image list, in order.
pub fn images_response_body(rs: &Vec<ImageResult>) -> (r: Vec<u8>)
    requires
        forall|i: int| 0 <= i < rs@.len() ==> (#[trigger] rs@[i].prompt) is Some,
    ensures
        r@ == image_list_bytes(rs@),
{
    let mut out: Vec<u8> = Vec::new();
    push_lit(&mut out, "[");
    let n: usize = rs.len();
    let mut i: usize = 0;
    while i < n
        invariant
            0 <= i <= n,
            n == rs@.len(),
            forall|j: int| 0 <= j < n ==> (#[trigger] rs@[j].prompt) is Some,
            out@ == "[".spec_bytes() + image_list_inner(rs@.subrange(0, i as int)),
        decreases n - i,
    {
        let ghost pre = rs@.subrange(0, i as int);
        if i > 0 {
            push_lit(&mut out, ",");
        }
        push_image_object(&mut out, &rs[i]);
        i += 1;
        proof {
            let cur = rs@.subrange(0, i as int);
            assert(cur.drop_last() =~= pre);
            assert(cur.last() == rs@[i - 1]);
            assert(out@ =~= "[".spec_bytes() + image_list_inner(cur));
        }
    }
    assert(rs@.subrange(0, n as int) =~= rs@);
    push_lit(&mut out, "]");
    assert(out@ =~= image_list_bytes(rs@));
    out
}

/// The comma-separated serialization of the reshaped `images` elements.
pub open spec fn reshaped_inner(items: Seq<Json>, prompt: Seq<char>) -> Seq<u8>
    decreases items.len(),
{
    if items.len() == 0 {
        Seq::<u8>::empty()
    } else {
        reshaped_inner(items.drop_last(), prompt) + (if items.len() > 1 {
            ",".spec_bytes()
        } else {
            Seq::<u8>::empty()
        }) + image_object_bytes(image_slot(items.last()), prompt)
    }
}

/// The body a 200 backend reply reshapes to: one entry per element of its
/// `images` array, in order, each stamped with the prompt.
pub open spec fn reshaped_body(doc: Json, prompt: Seq<char>) -> Seq<u8> {
    "[".spec_bytes() + reshaped_inner(images_of(doc), prompt) + "]".spec_bytes()
}

/// A reshaped image list serializes to the reshaping of the elements it was
/// built from.
proof fn lemma_reshaped_list_bytes(rs: Seq<ImageResult>, items: Seq<Json>, prompt: Seq<char>)
    requires
        rs.len() == items.len(),
        forall|i: int|
            0 <= i < rs.len() ==> opt_string_view(#[trigger] rs[i].b64_json) == image_slot(
                items[i],
            ) && opt_string_view(rs[i].prompt) == Some(prompt),
    ensures
        image_list_inner(rs) == reshaped_inner(items, prompt),
    decreases rs.len(),
{
    if rs.len() > 0 {
        assert(forall|i: int| 0 <= i < rs.len() - 1 ==> rs.drop_last()[i] == rs[i]);
        assert(forall|i: int| 0 <= i < items.len() - 1 ==> items.drop_last()[i] == items[i]);
        lemma_reshaped_list_bytes(rs.drop_last(), items.drop_last(), prompt);
        assert(opt_string_view(rs.last().b64_json) == image_slot(items.last()));
        assert(opt_string_view(rs.last().prompt) == Some(prompt));
        assert(rs.last().prompt->0@ == prompt);
    }
}

/// The response for an error: its status code and its message as the body.
pub fn error_reply(e: &ProxyError) -> (r: Reply)
    ensures
        r.status == e.spec_status(),
        r.body@ == vstd::utf8::encode_utf8(e.spec_message()),
        r.headers@.len() == 0,
{
    let m = e.message();
    let mut body: Vec<u8> = Vec::new();
    push_lit(&mut body, m.as_str());
    Reply { status: e.status(), headers: Vec::new(), body }
}

/// Whether a reply is the answer to a CORS preflight: status 200, an empty
/// body, the three wildcard CORS headers and a JSON content type.
pub open spec fn is_preflight_reply(r: Reply) -> bool {
    &&& r.status == 200
    &&& r.body@.len() == 0
    &&& r.headers@.len() == 4
    &&& r.headers@[0].0@ == "Access-Control-Allow-Origin"@ && r.headers@[0].1@ == "*"@
    &&& r.headers@[1].0@ == "Access-Control-Allow-Methods"@ && r.headers@[1].1@ == "*"@
    &&& r.headers@[2].0@ == "Access-Control-Allow-Headers"@ && r.headers@[2].1@ == "*"@
    &&& r.headers@[3].0@ == "Content-Type"@ && r.headers@[3].1@ == "application/json"@
}

/// The immediate answer to an `OPTIONS` request: permissive CORS headers and
/// an empty body. No backend is involved.
pub fn preflight_reply() -> (r: Reply)
    ensures
        is_preflight_reply(r),
{
    let mut headers: Vec<(String, String)> = Vec::new();
    headers.push((String::from_str("Access-Control-Allow-Origin"), String::from_str("*")));
    headers.push((String::from_str("Access-Control-Allow-Methods"), String::from_str("*")));
    headers.push((String::from_str("Access-Control-Allow-Headers"), String::from_str("*")));
    headers.push((String::from_str("Content-Type"), String::from_str("application/json")));
    Reply { status: 200, headers, body: Vec::new() }
}

/// Turns the backend's answer into the caller's. A non-200 backend status is
/// forwarded verbatim, body untouched. A 200 reply is parsed, reshaped into
/// the public image list and re-serialized; a 200 reply that is not JSON is
/// reported as an upstream failure carrying the parse diagnostics.
pub fn reshape_reply(status: u16, body: Vec<u8>, prompt: &String) -> (r: Reply)
    ensures
        status != 200 ==> r.status == status && r.body@ == body@ && r.headers@.len() == 0,
        status == 200 ==> match crate::json::json_of(body@) {
            Some(doc) => r.status == 200 && r.body@ == reshaped_body(doc, prompt@)
                && r.headers@.len() == 1 && r.headers@[0].0@ == "Content-Type"@
                && r.headers@[0].1@ == "application/json"@,
            None => r.status == 502 && r.body@ == vstd::utf8::encode_utf8(
                "failed to parse the reply of the downstream server: "@
                    + crate::json::json_err_of(body@),
            ),
        },
{
    if status != 200 {
        return Reply { status, headers: Vec::new(), body };
    }
    match parse_json(body.as_slice()) {
        Ok(doc) => {
            let results = reshape_images(&doc, prompt);
            let out = images_response_body(&results);
            proof {
                lemma_reshaped_list_bytes(results@, images_of(doc), prompt@);
            }
            let mut headers: Vec<(String, String)> = Vec::new();
            headers.push((String::from_str("Content-Type"), String::from_str("application/json")));
            Reply { status: 200, headers, body: out }
        },
        Err(m) => {
            let mut msg = String::from_str("failed to parse the reply of the downstream server: ");
            msg.append(m.as_str());
            error_reply(&ProxyError::Upstream(msg))
        },
    }
}

} // verus!
