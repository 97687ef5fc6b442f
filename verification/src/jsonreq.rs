use vstd::prelude::*;

use crate::bytes::str_eq;
use crate::error::ProxyError;
use crate::json::{obj_get, obj_lookup, Json};
use crate::numbers::{all_digits, dec_value, parse_i32, parse_u64, signed_body, signed_value, unsigned_body};
use crate::request::{
    sampling_label_of, scheduler_label_of, CanonicalRequest, ReqView, ResponseFormat,
    SamplingMethod, Scheduler,
};
use crate::translate::{has_single_x, x_index};
use vstd::string::StringSliceAdditionalSpecFns;

verus! {

/// A named field of a JSON document; anything but an object holds none.
pub open spec fn doc_field(doc: Json, key: Seq<char>) -> Option<Json> {
    match doc {
        Json::Obj(entries) => obj_lookup(entries@, key),
        _ => None,
    }
}

/// An optional string-typed field: absent is fine, any non-string value is a
/// type error.
pub open spec fn str_field_ok(doc: Json, key: Seq<char>) -> bool {
    match doc_field(doc, key) {
        None => true,
        Some(Json::Str(_)) => true,
        _ => false,
    }
}

pub open spec fn str_field(doc: Json, key: Seq<char>) -> Option<Seq<char>> {
    match doc_field(doc, key) {
        Some(Json::Str(s)) => Some(s@),
        _ => None,
    }
}

/// An optional numeric field whose decimal text is kept verbatim.
pub open spec fn num_text_field_ok(doc: Json, key: Seq<char>) -> bool {
    match doc_field(doc, key) {
        None => true,
        Some(Json::Num(_)) => true,
        _ => false,
    }
}

pub open spec fn num_text_field(doc: Json, key: Seq<char>) -> Option<Seq<char>> {
    match doc_field(doc, key) {
        Some(Json::Num(t)) => Some(t@),
        _ => None,
    }
}

/// An optional unsigned field: its number text must be plain digits that fit.
pub open spec fn u64_field_ok(doc: Json, key: Seq<char>) -> bool {
    match doc_field(doc, key) {
        None => true,
        Some(Json::Num(t)) => {
            let body = unsigned_body(vstd::utf8::encode_utf8(t@));
            body.len() > 0 && all_digits(body) && dec_value(body) <= u64::MAX
        },
        _ => false,
    }
}

pub open spec fn u64_field(doc: Json, key: Seq<char>) -> Option<u64> {
    match doc_field(doc, key) {
        Some(Json::Num(t)) => Some(
            dec_value(unsigned_body(vstd::utf8::encode_utf8(t@))) as u64,
        ),
        _ => None,
    }
}

/// An optional signed 32-bit field.
pub open spec fn i32_field_ok(doc: Json, key: Seq<char>) -> bool {
    match doc_field(doc, key) {
        None => true,
        Some(Json::Num(t)) => {
            let bs = vstd::utf8::encode_utf8(t@);
            let body = signed_body(bs);
            body.len() > 0 && all_digits(body) && i32::MIN <= signed_value(bs) <= i32::MAX
        },
        _ => false,
    }
}

pub open spec fn i32_field(doc: Json, key: Seq<char>) -> Option<i32> {
    match doc_field(doc, key) {
        Some(Json::Num(t)) => Some(signed_value(vstd::utf8::encode_utf8(t@)) as i32),
        _ => None,
    }
}

/// The exact names the wire schema accepts for `response_format`.
pub open spec fn rf_field_ok(doc: Json) -> bool {
    match doc_field(doc, "response_format"@) {
        None => true,
        Some(Json::Str(s)) => s@ == "url"@ || s@ == "b64_json"@,
        _ => false,
    }
}

/// `sample_method` carries free text; unrecognized names become a custom
/// method rather than failing.
pub open spec fn sample_field_ok(doc: Json) -> bool {
    match doc_field(doc, "sample_method"@) {
        None => true,
        Some(Json::Str(_)) => true,
        _ => false,
    }
}

/// `scheduler` carries free text with the same custom fallback.
pub open spec fn sched_field_ok(doc: Json) -> bool {
    match doc_field(doc, "scheduler"@) {
        None => true,
        Some(Json::Str(_)) => true,
        _ => false,
    }
}

/// `control_image` must be an object when present; its contents are the file
/// store's business and are not retained.
pub open spec fn obj_field_ok(doc: Json, key: Seq<char>) -> bool {
    match doc_field(doc, key) {
        None => true,
        Some(Json::Obj(_)) => true,
        _ => false,
    }
}

/// Whether size text is `<height>x<width>` with numeric halves.
pub open spec fn size_ok_str(s: Seq<char>) -> bool {
    let bs = vstd::utf8::encode_utf8(s);
    &&& has_single_x(bs)
    &&& {
        let k = x_index(bs);
        let h = unsigned_body(bs.subrange(0, k));
        let w = unsigned_body(bs.subrange(k + 1, bs.len() as int));
        h.len() > 0 && all_digits(h) && dec_value(h) <= u64::MAX && w.len() > 0 && all_digits(w)
            && dec_value(w) <= u64::MAX
    }
}

/// The height and width a valid size text denotes.
pub open spec fn size_hw_str(s: Seq<char>) -> (u64, u64) {
    let bs = vstd::utf8::encode_utf8(s);
    let k = x_index(bs);
    (
        dec_value(unsigned_body(bs.subrange(0, k))) as u64,
        dec_value(unsigned_body(bs.subrange(k + 1, bs.len() as int))) as u64,
    )
}

/// `size` as `<height>x<width>` with numeric halves.
pub open spec fn size_field_ok(doc: Json) -> bool {
    match doc_field(doc, "size"@) {
        None => true,
        Some(Json::Str(s)) => size_ok_str(s@),
        _ => false,
    }
}

/// The height and width a valid `size` field sets.
pub open spec fn size_hw(doc: Json) -> Option<(u64, u64)> {
    match doc_field(doc, "size"@) {
        Some(Json::Str(s)) => Some(size_hw_str(s@)),
        _ => None,
    }
}

/// Sets height and width from size text of the form `<height>x<width>`.
fn apply_size_str(req: &mut CanonicalRequest, s: &String) -> (r: Result<(), ProxyError>)
    ensures
        r is Ok <==> size_ok_str(s@),
        r is Ok ==> final(req)@ == (ReqView {
            height: Some(size_hw_str(s@).0),
            width: Some(size_hw_str(s@).1),
            ..old(req)@
        }),
        r matches Err(e) ==> e is Validation && final(req)@ == old(req)@,
{
    let bs = s.as_str().as_bytes();
    let n: usize = bs.len();
    let mut k: usize = 0;
    let mut found = false;
    let mut i: usize = 0;
    while i < n
        invariant
            0 <= i <= n,
            n == bs@.len(),
            bs@ == vstd::utf8::encode_utf8(s@),
            !found ==> forall|j: int| 0 <= j < i ==> #[trigger] bs@[j] != 0x78,
            found ==> 0 <= k < i && bs@[k as int] == 0x78 && (forall|j: int|
                0 <= j < i && j != k ==> #[trigger] bs@[j] != 0x78),
        decreases n - i,
    {
        if bs[i] == 0x78 {
            if found {
                proof {
                    crate::translate::lemma_two_x_not_single(bs@, k as int, i as int);
                }
                return Err(
                    ProxyError::Validation(
                        String::from_str(
                            "Invalid size format. The correct format is `HeightxWidth`. Example: 256x256",
                        ),
                    ),
                );
            }
            found = true;
            k = i;
        }
        i += 1;
    }
    if !found {
        proof {
            crate::translate::lemma_no_x_not_single(bs@);
        }
        return Err(
            ProxyError::Validation(
                String::from_str(
                    "Invalid size format. The correct format is `HeightxWidth`. Example: 256x256",
                ),
            ),
        );
    }
    proof {
        crate::translate::lemma_the_x(bs@, k as int);
    }
    let h = crate::bytes::sub_vec(bs, 0, k);
    let w = crate::bytes::sub_vec(bs, k + 1, n);
    match (parse_u64(h.as_slice()), parse_u64(w.as_slice())) {
        (Some(hv), Some(wv)) => {
            req.height = Some(hv);
            req.width = Some(wv);
            Ok(())
        },
        _ => Err(bad_field("size")),
    }
}

pub open spec fn or_u64(v: Option<u64>, d: u64) -> Option<u64> {
    match v {
        Some(x) => Some(x),
        None => Some(d),
    }
}

pub open spec fn or_text(v: Option<Seq<char>>, d: Seq<char>) -> Option<Seq<char>> {
    match v {
        Some(x) => Some(x),
        None => Some(d),
    }
}

/// Whether a JSON generate request deserializes: it is one object, `prompt`
/// and `model` are present strings, and every other recognized field carries
/// the right type of value. Unrecognized fields are ignored.
pub open spec fn gen_json_ok(doc: Json) -> bool {
    &&& doc is Obj
    &&& (doc_field(doc, "prompt"@) matches Some(Json::Str(_)))
    &&& str_field_ok(doc, "model"@)
    &&& str_field_ok(doc, "negative_prompt"@)
    &&& u64_field_ok(doc, "n"@)
    &&& rf_field_ok(doc)
    &&& size_field_ok(doc)
    &&& str_field_ok(doc, "user"@)
    &&& num_text_field_ok(doc, "cfg_scale"@)
    &&& sample_field_ok(doc)
    &&& u64_field_ok(doc, "steps"@)
    &&& u64_field_ok(doc, "height"@)
    &&& u64_field_ok(doc, "width"@)
    &&& num_text_field_ok(doc, "control_strength"@)
    &&& obj_field_ok(doc, "control_image"@)
    &&& i32_field_ok(doc, "seed"@)
    &&& num_text_field_ok(doc, "strength"@)
    &&& sched_field_ok(doc)
}

/// The canonical request a valid JSON generate request denotes: given fields
/// verbatim, schema defaults for the rest, `size` overriding height and
/// width.
pub open spec fn gen_json_view(doc: Json) -> ReqView {
    ReqView {
        prompt: str_field(doc, "prompt"@),
        negative_prompt: or_text(str_field(doc, "negative_prompt"@), ""@),
        model: or_text(str_field(doc, "model"@), ""@),
        n: or_u64(u64_field(doc, "n"@), 1),
        response_format: match str_field(doc, "response_format"@) {
            Some(s) => if s == "b64_json"@ {
                Some(ResponseFormat::B64Json)
            } else {
                Some(ResponseFormat::Url)
            },
            None => Some(ResponseFormat::Url),
        },
        user: str_field(doc, "user"@),
        cfg_scale: or_text(num_text_field(doc, "cfg_scale"@), "7.0"@),
        sample_label: match str_field(doc, "sample_method"@) {
            Some(s) => Some(sampling_label_of(s)),
            None => Some("euler_a"@),
        },
        steps: or_u64(u64_field(doc, "steps"@), 20),
        height: match size_hw(doc) {
            Some(hw) => Some(hw.0),
            None => or_u64(u64_field(doc, "height"@), 512),
        },
        width: match size_hw(doc) {
            Some(hw) => Some(hw.1),
            None => or_u64(u64_field(doc, "width"@), 512),
        },
        control_strength: or_text(num_text_field(doc, "control_strength"@), "0.9"@),
        control_image: None,
        seed: match i32_field(doc, "seed"@) {
            Some(v) => Some(v),
            None => Some(42i32),
        },
        strength: or_text(num_text_field(doc, "strength"@), "0.75"@),
        scheduler_label: match str_field(doc, "scheduler"@) {
            Some(s) => Some(scheduler_label_of(s)),
            None => Some("discrete"@),
        },
        source_image: None,
        mask: None,
    }
}

/// Looks one field up in the parsed request object.
fn get_field<'a>(entries: &'a Vec<(String, Json)>, key: &str) -> (r: Option<&'a Json>)
    ensures
        match r {
            Some(v) => obj_lookup(entries@, key@) == Some(*v),
            None => obj_lookup(entries@, key@) is None,
        },
{
    obj_get(entries, key)
}

/// The validation error for a field of the wrong type or value, naming the
/// offending field.
fn bad_field(name: &str) -> (r: ProxyError)
    ensures
        r is Validation,
        r.spec_message() == "Failed to parse the "@ + name@ + " field."@,
{
    let mut m = String::from_str("Failed to parse the ");
    m.append(name);
    m.append(" field.");
    ProxyError::Validation(m)
}

/// Collects the string-typed fields: the required `prompt` and `model`, the
/// optional `negative_prompt` and `user`, and `response_format`.
#[verifier::rlimit(100)]
fn fill_text_fields(
    entries: &Vec<(String, Json)>,
    req: &mut CanonicalRequest,
    Ghost(doc): Ghost<Json>,
) -> (r: Result<(), ProxyError>)
    requires
        doc == Json::Obj(*entries),
    ensures
        r is Ok <==> ((doc_field(doc, "prompt"@) matches Some(Json::Str(_))) && str_field_ok(
            doc,
            "model"@,
        ) && str_field_ok(doc, "negative_prompt"@) && str_field_ok(doc, "user"@) && rf_field_ok(
            doc,
        )),
        r is Ok ==> final(req)@ == (ReqView {
            prompt: str_field(doc, "prompt"@),
            model: or_text(str_field(doc, "model"@), ""@),
            negative_prompt: or_text(str_field(doc, "negative_prompt"@), ""@),
            user: match str_field(doc, "user"@) {
                Some(v) => Some(v),
                None => old(req)@.user,
            },
            response_format: match str_field(doc, "response_format"@) {
                Some(s) => if s == "b64_json"@ {
                    Some(ResponseFormat::B64Json)
                } else {
                    Some(ResponseFormat::Url)
                },
                None => Some(ResponseFormat::Url),
            },
            ..old(req)@
        }),
        r matches Err(e) ==> e is Validation,
{
    proof {
        reveal_strlit("url");
        reveal_strlit("b64_json");
        assert("url"@.len() == 3);
        assert("b64_json"@.len() == 8);
    }
    match get_field(entries, "prompt") {
        Some(Json::Str(s)) => {
            req.prompt = Some(s.clone());
        },
        Some(_) => {
            return Err(bad_field("prompt"));
        },
        None => {
            return Err(ProxyError::Validation(String::from_str("Missing required field: prompt")));
        },
    }
    match get_field(entries, "model") {
        Some(Json::Str(s)) => {
            req.model = Some(s.clone());
        },
        Some(_) => {
            return Err(bad_field("model"));
        },
        None => {
            req.model = Some(String::from_str(""));
        },
    }
    match get_field(entries, "negative_prompt") {
        Some(Json::Str(s)) => {
            req.negative_prompt = Some(s.clone());
        },
        Some(_) => {
            return Err(bad_field("negative_prompt"));
        },
        None => {
            req.negative_prompt = Some(String::from_str(""));
        },
    }
    match get_field(entries, "user") {
        Some(Json::Str(s)) => {
            req.user = Some(s.clone());
        },
        Some(_) => {
            return Err(bad_field("user"));
        },
        None => (),
    }
    match get_field(entries, "response_format") {
        Some(Json::Str(s)) => {
            if str_eq(s.as_str(), "url") {
                req.response_format = Some(ResponseFormat::Url);
            } else if str_eq(s.as_str(), "b64_json") {
                req.response_format = Some(ResponseFormat::B64Json);
            } else {
                return Err(bad_field("response_format"));
            }
        },
        Some(_) => {
            return Err(bad_field("response_format"));
        },
        None => {
            req.response_format = Some(ResponseFormat::Url);
        },
    }
    Ok(())
}

/// Collects the integer fields, applying the schema defaults where absent.
#[verifier::rlimit(100)]
fn fill_number_fields(
    entries: &Vec<(String, Json)>,
    req: &mut CanonicalRequest,
    Ghost(doc): Ghost<Json>,
) -> (r: Result<(), ProxyError>)
    requires
        doc == Json::Obj(*entries),
    ensures
        r is Ok <==> (u64_field_ok(doc, "n"@) && u64_field_ok(doc, "steps"@) && u64_field_ok(
            doc,
            "height"@,
        ) && u64_field_ok(doc, "width"@) && i32_field_ok(doc, "seed"@)),
        r is Ok ==> final(req)@ == (ReqView {
            n: or_u64(u64_field(doc, "n"@), 1),
            steps: or_u64(u64_field(doc, "steps"@), 20),
            height: or_u64(u64_field(doc, "height"@), 512),
            width: or_u64(u64_field(doc, "width"@), 512),
            seed: match i32_field(doc, "seed"@) {
                Some(v) => Some(v),
                None => Some(42i32),
            },
            ..old(req)@
        }),
        r matches Err(e) ==> e is Validation,
{
    match get_field(entries, "n") {
        Some(Json::Num(t)) => match parse_u64(t.as_str().as_bytes()) {
            Some(v) => {
                req.n = Some(v);
            },
            None => {
                return Err(bad_field("n"));
            },
        },
        Some(_) => {
            return Err(bad_field("n"));
        },
        None => {
            req.n = Some(1);
        },
    }
    match get_field(entries, "steps") {
        Some(Json::Num(t)) => match parse_u64(t.as_str().as_bytes()) {
            Some(v) => {
                req.steps = Some(v);
            },
            None => {
                return Err(bad_field("steps"));
            },
        },
        Some(_) => {
            return Err(bad_field("steps"));
        },
        None => {
            req.steps = Some(20);
        },
    }
    match get_field(entries, "height") {
        Some(Json::Num(t)) => match parse_u64(t.as_str().as_bytes()) {
            Some(v) => {
                req.height = Some(v);
            },
            None => {
                return Err(bad_field("height"));
            },
        },
        Some(_) => {
            return Err(bad_field("height"));
        },
        None => {
            req.height = Some(512);
        },
    }
    match get_field(entries, "width") {
        Some(Json::Num(t)) => match parse_u64(t.as_str().as_bytes()) {
            Some(v) => {
                req.width = Some(v);
            },
            None => {
                return Err(bad_field("width"));
            },
        },
        Some(_) => {
            return Err(bad_field("width"));
        },
        None => {
            req.width = Some(512);
        },
    }
    match get_field(entries, "seed") {
        Some(Json::Num(t)) => match parse_i32(t.as_str().as_bytes()) {
            Some(v) => {
                req.seed = Some(v);
            },
            None => {
                return Err(bad_field("seed"));
            },
        },
        Some(_) => {
            return Err(bad_field("seed"));
        },
        None => {
            req.seed = Some(42);
        },
    }
    Ok(())
}

/// Collects the numeric-text fields, the enumerated fields, `control_image`
/// and `size`; a valid `size` overrides height and width.
#[verifier::rlimit(100)]
fn fill_tail_fields(
    entries: &Vec<(String, Json)>,
    req: &mut CanonicalRequest,
    Ghost(doc): Ghost<Json>,
) -> (r: Result<(), ProxyError>)
    requires
        doc == Json::Obj(*entries),
    ensures
        r is Ok <==> (num_text_field_ok(doc, "cfg_scale"@) && num_text_field_ok(
            doc,
            "control_strength"@,
        ) && num_text_field_ok(doc, "strength"@) && sample_field_ok(doc) && sched_field_ok(doc)
            && obj_field_ok(doc, "control_image"@) && size_field_ok(doc)),
        r is Ok ==> final(req)@ == (ReqView {
            cfg_scale: or_text(num_text_field(doc, "cfg_scale"@), "7.0"@),
            control_strength: or_text(num_text_field(doc, "control_strength"@), "0.9"@),
            strength: or_text(num_text_field(doc, "strength"@), "0.75"@),
            sample_label: match str_field(doc, "sample_method"@) {
            Some(s) => Some(sampling_label_of(s)),
            None => Some("euler_a"@),
        },
            scheduler_label: match str_field(doc, "scheduler"@) {
                Some(s) => Some(scheduler_label_of(s)),
                None => Some("discrete"@),
            },
            height: match size_hw(doc) {
                Some(hw) => Some(hw.0),
                None => old(req)@.height,
            },
            width: match size_hw(doc) {
                Some(hw) => Some(hw.1),
                None => old(req)@.width,
            },
            ..old(req)@
        }),
        r matches Err(e) ==> e is Validation,
{
    match get_field(entries, "cfg_scale") {
        Some(Json::Num(t)) => {
            req.cfg_scale = Some(t.clone());
        },
        Some(_) => {
            return Err(bad_field("cfg_scale"));
        },
        None => {
            req.cfg_scale = Some(String::from_str("7.0"));
        },
    }
    match get_field(entries, "control_strength") {
        Some(Json::Num(t)) => {
            req.control_strength = Some(t.clone());
        },
        Some(_) => {
            return Err(bad_field("control_strength"));
        },
        None => {
            req.control_strength = Some(String::from_str("0.9"));
        },
    }
    match get_field(entries, "strength") {
        Some(Json::Num(t)) => {
            req.strength = Some(t.clone());
        },
        Some(_) => {
            return Err(bad_field("strength"));
        },
        None => {
            req.strength = Some(String::from_str("0.75"));
        },
    }
    match get_field(entries, "sample_method") {
        Some(Json::Str(s)) => {
            req.sample_method = Some(crate::request::parse_sampling(s));
        },
        Some(_) => {
            return Err(bad_field("sample_method"));
        },
        None => {
            req.sample_method = Some(SamplingMethod::EulerA);
        },
    }
    match get_field(entries, "scheduler") {
        Some(Json::Str(s)) => {
            req.scheduler = Some(crate::request::parse_scheduler(s));
        },
        Some(_) => {
            return Err(bad_field("scheduler"));
        },
        None => {
            req.scheduler = Some(Scheduler::Discrete);
        },
    }
    match get_field(entries, "control_image") {
        Some(Json::Obj(_)) => (),
        Some(_) => {
            return Err(bad_field("control_image"));
        },
        None => (),
    }
    match get_field(entries, "size") {
        Some(Json::Str(s)) => match apply_size_str(req, s) {
            Ok(()) => (),
            Err(e) => {
                return Err(e);
            },
        },
        Some(_) => {
            return Err(bad_field("size"));
        },
        None => (),
    }
    Ok(())
}

/// Extracts the canonical generate request from a parsed JSON document,
/// exactly as `gen_json_view` says; a missing required field or a wrongly
/// typed value is a validation error.
#[verifier::rlimit(100)]
pub fn gen_request_from_json(doc: &Json) -> (r: Result<CanonicalRequest, ProxyError>)
    ensures
        r is Ok <==> gen_json_ok(*doc),
        r matches Ok(req) ==> req@ == gen_json_view(*doc),
        r matches Err(e) ==> e is Validation,
{
    let entries: &Vec<(String, Json)> = match doc {
        Json::Obj(entries) => entries,
        _ => {
            return Err(
                ProxyError::Validation(String::from_str("the request body is not a JSON object")),
            );
        },
    };
    let mut req = CanonicalRequest::empty();
    match fill_text_fields(entries, &mut req, Ghost(*doc)) {
        Ok(()) => (),
        Err(e) => {
            return Err(e);
        },
    }
    match fill_number_fields(entries, &mut req, Ghost(*doc)) {
        Ok(()) => (),
        Err(e) => {
            return Err(e);
        },
    }
    match fill_tail_fields(entries, &mut req, Ghost(*doc)) {
        Ok(()) => (),
        Err(e) => {
            return Err(e);
        },
    }
    assert(req@ == gen_json_view(*doc));
    Ok(req)
}

} // verus!
