use vstd::prelude::*;

use crate::bytes::{str_eq, string_from_utf8};
use crate::error::ProxyError;
use crate::numbers::{
    all_digits, check_json_number, dec_value, is_json_number, parse_i32, parse_u64, signed_body,
    signed_value, unsigned_body,
};
use crate::request::{
    sampling_label_of, scheduler_label_of, CanonicalRequest, Operation, ReqView, ResponseFormat,
    SamplingMethod, Scheduler, Upload, UploadView,
};
use vstd::string::StringSliceAdditionalSpecFns;

verus! {

/// One part of a multipart body, as the wire parser hands it over: the
/// field name, the client-supplied filename if any, whether the part is
/// text-typed, and its raw bytes.
pub struct RawPart {
    pub name: String,
    pub filename: Option<String>,
    pub text: bool,
    pub data: Vec<u8>,
}

/// The ways a single part can fail translation.
pub enum TranslateFault {
    /// The part's name is outside the recognized field table.
    UnknownField,
    /// A text-typed field arrived as a file part.
    WrongKind,
    /// A text field's bytes are not valid UTF-8.
    BadText,
    /// A numeric field's text does not parse.
    BadNumber,
    /// An enumerated field names no known value.
    BadEnum,
    /// `size` is not of the form `<height>x<width>`.
    BadSize,
    /// A file field arrived without a filename.
    MissingFilename,
}

/// The message a translation fault carries, naming the offending field.
pub open spec fn fault_message(f: TranslateFault, name: Seq<char>) -> Seq<char> {
    match f {
        TranslateFault::UnknownField => "Unsupported field: "@ + name,
        TranslateFault::WrongKind => "The "@ + name + " field in the request should be a text field."@,
        TranslateFault::BadText => "Failed to read the "@ + name + " field."@,
        TranslateFault::BadNumber => "Failed to parse the "@ + name + " field."@,
        TranslateFault::BadEnum => "Failed to parse the "@ + name + " field."@,
        TranslateFault::BadSize => "Invalid size format. The correct format is `HeightxWidth`. Example: 256x256"@,
        TranslateFault::MissingFilename => "Failed to upload the file. The filename is not provided."@,
    }
}

/// The decoded text of a text-typed part.
pub open spec fn text_value(p: RawPart) -> Result<Seq<char>, TranslateFault> {
    if !p.text {
        Err(TranslateFault::WrongKind)
    } else if !vstd::utf8::valid_utf8(p.data@) {
        Err(TranslateFault::BadText)
    } else {
        Ok(vstd::utf8::decode_utf8(p.data@))
    }
}

/// The value of an unsigned numeric part.
pub open spec fn u64_value(p: RawPart) -> Result<u64, TranslateFault> {
    if !p.text {
        Err(TranslateFault::WrongKind)
    } else {
        let body = unsigned_body(p.data@);
        if body.len() > 0 && all_digits(body) && dec_value(body) <= u64::MAX {
            Ok(dec_value(body) as u64)
        } else {
            Err(TranslateFault::BadNumber)
        }
    }
}

/// The value of a signed 32-bit numeric part.
pub open spec fn i32_value(p: RawPart) -> Result<i32, TranslateFault> {
    if !p.text {
        Err(TranslateFault::WrongKind)
    } else {
        let body = signed_body(p.data@);
        if body.len() > 0 && all_digits(body) && i32::MIN <= signed_value(p.data@) <= i32::MAX {
            Ok(signed_value(p.data@) as i32)
        } else {
            Err(TranslateFault::BadNumber)
        }
    }
}

/// The text of a part that must spell a number of the JSON grammar; the text
/// itself is what the payload will carry. The grammar is deliberately JSON's
/// and not the machine float parser's: spellings such as a bare leading or
/// trailing point, a lone sign, or an infinity keyword are rejected, so that
/// the validated text can stand verbatim in the JSON payload.
pub open spec fn numtext_value(p: RawPart) -> Result<Seq<char>, TranslateFault> {
    if !p.text {
        Err(TranslateFault::WrongKind)
    } else if !vstd::utf8::valid_utf8(p.data@) {
        Err(TranslateFault::BadText)
    } else if !is_json_number(p.data@) {
        Err(TranslateFault::BadNumber)
    } else {
        Ok(vstd::utf8::decode_utf8(p.data@))
    }
}

/// The upload captured from a file-typed part.
pub open spec fn upload_value(p: RawPart) -> Result<UploadView, TranslateFault> {
    match p.filename {
        None => Err(TranslateFault::MissingFilename),
        Some(f) => Ok(UploadView { filename: f@, data: p.data@ }),
    }
}

/// Whether exactly one byte of `bs` is the `x` separator.
pub open spec fn is_the_x(bs: Seq<u8>, k: int) -> bool {
    0 <= k < bs.len() && bs[k] == 0x78 && (forall|j: int|
        0 <= j < bs.len() && j != k ==> #[trigger] bs[j] != 0x78)
}

pub open spec fn has_single_x(bs: Seq<u8>) -> bool {
    exists|k: int| #[trigger] is_the_x(bs, k)
}

/// The index of the unique `x` separator.
pub open spec fn x_index(bs: Seq<u8>) -> int {
    choose|k: int| #[trigger] is_the_x(bs, k)
}

pub proof fn lemma_the_x(bs: Seq<u8>, k: int)
    requires
        is_the_x(bs, k),
    ensures
        has_single_x(bs),
        x_index(bs) == k,
{
    assert(has_single_x(bs));
    let m = x_index(bs);
    assert(is_the_x(bs, m));
    if m != k {
        assert(bs[k] != 0x78);
    }
}

pub proof fn lemma_two_x_not_single(bs: Seq<u8>, a: int, b: int)
    requires
        0 <= a < bs.len(),
        0 <= b < bs.len(),
        a != b,
        bs[a] == 0x78,
        bs[b] == 0x78,
    ensures
        !has_single_x(bs),
{
    assert forall|k: int| !is_the_x(bs, k) by {
        if is_the_x(bs, k) {
            if k != a {
                assert(bs[a] != 0x78);
            } else {
                assert(bs[b] != 0x78);
            }
        }
    }
}

pub proof fn lemma_no_x_not_single(bs: Seq<u8>)
    requires
        forall|j: int| 0 <= j < bs.len() ==> #[trigger] bs[j] != 0x78,
    ensures
        !has_single_x(bs),
{
    assert forall|k: int| !is_the_x(bs, k) by {
        if is_the_x(bs, k) {
            assert(bs[k] != 0x78);
        }
    }
}

/// Applying a `size` part: `<height>x<width>` with exactly one `x`, both
/// halves unsigned numbers.
pub open spec fn size_apply(rv: ReqView, p: RawPart) -> Result<ReqView, TranslateFault> {
    if !p.text {
        Err(TranslateFault::WrongKind)
    } else if !has_single_x(p.data@) {
        Err(TranslateFault::BadSize)
    } else {
        let k = x_index(p.data@);
        let h = unsigned_body(p.data@.subrange(0, k));
        let w = unsigned_body(p.data@.subrange(k + 1, p.data@.len() as int));
        if h.len() > 0 && all_digits(h) && dec_value(h) <= u64::MAX && w.len() > 0 && all_digits(w)
            && dec_value(w) <= u64::MAX {
            Ok(ReqView { height: Some(dec_value(h) as u64), width: Some(dec_value(w) as u64), ..rv })
        } else {
            Err(TranslateFault::BadNumber)
        }
    }
}

/// Applying a `response_format` part: `url` or `b64_json`, matched
/// case-insensitively.
pub open spec fn response_format_value(p: RawPart) -> Result<ResponseFormat, TranslateFault> {
    if !p.text {
        Err(TranslateFault::WrongKind)
    } else {
        let low = crate::request::ascii_lower(p.data@);
        if low == "url".spec_bytes() {
            Ok(ResponseFormat::Url)
        } else if low == "b64_json".spec_bytes() {
            Ok(ResponseFormat::B64Json)
        } else {
            Err(TranslateFault::BadEnum)
        }
    }
}

/// One row of the field table: how a named part updates the request being
/// collected. `negative_prompt` overwriting `prompt` mirrors the wire
/// behaviour this proxy preserves.
pub open spec fn apply_part(op: Operation, rv: ReqView, p: RawPart) -> Result<
    ReqView,
    (TranslateFault, Seq<char>),
> {
    if p.name@ == "prompt"@ {
        match text_value(p) {
            Ok(v) => Ok(ReqView { prompt: Some(v), ..rv }),
            Err(f) => Err((f, p.name@)),
        }
    } else if p.name@ == "negative_prompt"@ {
        match text_value(p) {
            Ok(v) => Ok(ReqView { prompt: Some(v), ..rv }),
            Err(f) => Err((f, p.name@)),
        }
    } else if p.name@ == "model"@ {
        match text_value(p) {
            Ok(v) => Ok(ReqView { model: Some(v), ..rv }),
            Err(f) => Err((f, p.name@)),
        }
    } else if p.name@ == "n"@ {
        match u64_value(p) {
            Ok(v) => Ok(ReqView { n: Some(v), ..rv }),
            Err(f) => Err((f, p.name@)),
        }
    } else if p.name@ == "size"@ {
        match size_apply(rv, p) {
            Ok(v) => Ok(v),
            Err(f) => Err((f, p.name@)),
        }
    } else if p.name@ == "response_format"@ {
        match response_format_value(p) {
            Ok(v) => Ok(ReqView { response_format: Some(v), ..rv }),
            Err(f) => Err((f, p.name@)),
        }
    } else if p.name@ == "user"@ {
        match text_value(p) {
            Ok(v) => Ok(ReqView { user: Some(v), ..rv }),
            Err(f) => Err((f, p.name@)),
        }
    } else if p.name@ == "cfg_scale"@ {
        match numtext_value(p) {
            Ok(v) => Ok(ReqView { cfg_scale: Some(v), ..rv }),
            Err(f) => Err((f, p.name@)),
        }
    } else if p.name@ == "sample_method"@ {
        match text_value(p) {
            Ok(v) => Ok(ReqView { sample_label: Some(sampling_label_of(v)), ..rv }),
            Err(f) => Err((f, p.name@)),
        }
    } else if p.name@ == "steps"@ {
        match u64_value(p) {
            Ok(v) => Ok(ReqView { steps: Some(v), ..rv }),
            Err(f) => Err((f, p.name@)),
        }
    } else if p.name@ == "height"@ {
        match u64_value(p) {
            Ok(v) => Ok(ReqView { height: Some(v), ..rv }),
            Err(f) => Err((f, p.name@)),
        }
    } else if p.name@ == "width"@ {
        match u64_value(p) {
            Ok(v) => Ok(ReqView { width: Some(v), ..rv }),
            Err(f) => Err((f, p.name@)),
        }
    } else if p.name@ == "control_strength"@ {
        match numtext_value(p) {
            Ok(v) => Ok(ReqView { control_strength: Some(v), ..rv }),
            Err(f) => Err((f, p.name@)),
        }
    } else if p.name@ == "control_image"@ {
        match upload_value(p) {
            Ok(v) => Ok(ReqView { control_image: Some(v), ..rv }),
            Err(f) => Err((f, p.name@)),
        }
    } else if p.name@ == "seed"@ {
        match i32_value(p) {
            Ok(v) => Ok(ReqView { seed: Some(v), ..rv }),
            Err(f) => Err((f, p.name@)),
        }
    } else if p.name@ == "strength"@ {
        match numtext_value(p) {
            Ok(v) => Ok(ReqView { strength: Some(v), ..rv }),
            Err(f) => Err((f, p.name@)),
        }
    } else if p.name@ == "scheduler"@ {
        match text_value(p) {
            Ok(v) => Ok(ReqView { scheduler_label: Some(scheduler_label_of(v)), ..rv }),
            Err(f) => Err((f, p.name@)),
        }
    } else if op == Operation::Edit && p.name@ == "image"@ {
        match upload_value(p) {
            Ok(v) => Ok(ReqView { source_image: Some(v), ..rv }),
            Err(f) => Err((f, p.name@)),
        }
    } else if op == Operation::Edit && p.name@ == "mask"@ {
        match upload_value(p) {
            Ok(v) => Ok(ReqView { mask: Some(v), ..rv }),
            Err(f) => Err((f, p.name@)),
        }
    } else {
        Err((TranslateFault::UnknownField, p.name@))
    }
}

/// The whole translation: the parts applied in order to the schema defaults;
/// the first fault wins and nothing after it is looked at.
pub open spec fn translate_fold(op: Operation, rv: ReqView, parts: Seq<RawPart>) -> Result<
    ReqView,
    (TranslateFault, Seq<char>),
>
    decreases parts.len(),
{
    if parts.len() == 0 {
        Ok(rv)
    } else {
        match apply_part(op, rv, parts[0]) {
            Ok(next) => translate_fold(op, next, parts.drop_first()),
            Err(f) => Err(f),
        }
    }
}

/// Builds the validation error for a part, naming the offending field.
fn fault_error(name: &str, fault: &TranslateFault) -> (r: ProxyError)
    ensures
        r is Validation,
        r.spec_message() == fault_message(*fault, name@),
{
    match fault {
        TranslateFault::UnknownField => {
            let mut m = String::from_str("Unsupported field: ");
            m.append(name);
            ProxyError::Validation(m)
        },
        TranslateFault::WrongKind => {
            let mut m = String::from_str("The ");
            m.append(name);
            m.append(" field in the request should be a text field.");
            ProxyError::Validation(m)
        },
        TranslateFault::BadText => {
            let mut m = String::from_str("Failed to read the ");
            m.append(name);
            m.append(" field.");
            ProxyError::Validation(m)
        },
        TranslateFault::BadNumber => {
            let mut m = String::from_str("Failed to parse the ");
            m.append(name);
            m.append(" field.");
            ProxyError::Validation(m)
        },
        TranslateFault::BadEnum => {
            let mut m = String::from_str("Failed to parse the ");
            m.append(name);
            m.append(" field.");
            ProxyError::Validation(m)
        },
        TranslateFault::BadSize => ProxyError::Validation(
            String::from_str(
                "Invalid size format. The correct format is `HeightxWidth`. Example: 256x256",
            ),
        ),
        TranslateFault::MissingFilename => ProxyError::Validation(
            String::from_str("Failed to upload the file. The filename is not provided."),
        ),
    }
}

/// Applies one part to the request being collected, as `apply_part` says.
#[verifier::rlimit(100)]
fn apply_part_exec(op: Operation, req: &mut CanonicalRequest, p: RawPart) -> (r: Result<
    (),
    ProxyError,
>)
    ensures
        r is Ok <==> apply_part(op, old(req)@, p) is Ok,
        r is Ok ==> apply_part(op, old(req)@, p) == Ok::<ReqView, (TranslateFault, Seq<char>)>(
            final(req)@,
        ),
        r matches Err(e) ==> e is Validation && (apply_part(op, old(req)@, p) matches Err(f)
            && e.spec_message() == fault_message(f.0, f.1)),
{
    broadcast use vstd::utf8::decode_utf8_encode_utf8;

    if str_eq(p.name.as_str(), "prompt") {
        if !p.text {
            return Err(fault_error("prompt", &TranslateFault::WrongKind));
        }
        match string_from_utf8(p.data) {
            Some(s) => {
                req.prompt = Some(s);
                Ok(())
            },
            None => Err(fault_error("prompt", &TranslateFault::BadText)),
        }
    } else if str_eq(p.name.as_str(), "negative_prompt") {
        if !p.text {
            return Err(fault_error("negative_prompt", &TranslateFault::WrongKind));
        }
        match string_from_utf8(p.data) {
            Some(s) => {
                req.prompt = Some(s);
                Ok(())
            },
            None => Err(fault_error("negative_prompt", &TranslateFault::BadText)),
        }
    } else if str_eq(p.name.as_str(), "model") {
        if !p.text {
            return Err(fault_error("model", &TranslateFault::WrongKind));
        }
        match string_from_utf8(p.data) {
            Some(s) => {
                req.model = Some(s);
                Ok(())
            },
            None => Err(fault_error("model", &TranslateFault::BadText)),
        }
    } else if str_eq(p.name.as_str(), "n") {
        if !p.text {
            return Err(fault_error("n", &TranslateFault::WrongKind));
        }
        match parse_u64(p.data.as_slice()) {
            Some(v) => {
                req.n = Some(v);
                Ok(())
            },
            None => Err(fault_error("n", &TranslateFault::BadNumber)),
        }
    } else if str_eq(p.name.as_str(), "size") {
        apply_size(req, p)
    } else if str_eq(p.name.as_str(), "response_format") {
        if !p.text {
            return Err(fault_error("response_format", &TranslateFault::WrongKind));
        }
        let low = crate::request::lower_bytes_of(p.data.as_slice());
        if crate::bytes::bytes_eq(low.as_slice(), "url".as_bytes()) {
            req.response_format = Some(ResponseFormat::Url);
            Ok(())
        } else if crate::bytes::bytes_eq(low.as_slice(), "b64_json".as_bytes()) {
            req.response_format = Some(ResponseFormat::B64Json);
            Ok(())
        } else {
            Err(fault_error("response_format", &TranslateFault::BadEnum))
        }
    } else if str_eq(p.name.as_str(), "user") {
        if !p.text {
            return Err(fault_error("user", &TranslateFault::WrongKind));
        }
        match string_from_utf8(p.data) {
            Some(s) => {
                req.user = Some(s);
                Ok(())
            },
            None => Err(fault_error("user", &TranslateFault::BadText)),
        }
    } else if str_eq(p.name.as_str(), "cfg_scale") {
        match numtext_exec(p, "cfg_scale") {
            Ok(s) => {
                req.cfg_scale = Some(s);
                Ok(())
            },
            Err(e) => Err(e),
        }
    } else if str_eq(p.name.as_str(), "sample_method") {
        if !p.text {
            return Err(fault_error("sample_method", &TranslateFault::WrongKind));
        }
        match string_from_utf8(p.data) {
            Some(s) => {
                req.sample_method = Some(crate::request::parse_sampling(&s));
                Ok(())
            },
            None => Err(fault_error("sample_method", &TranslateFault::BadText)),
        }
    } else {
        apply_part_rest(op, req, p)
    }
}

/// The remaining rows of the field table, for a part whose name matched none
/// of the rows before `steps`.
#[verifier::rlimit(100)]
fn apply_part_rest(op: Operation, req: &mut CanonicalRequest, p: RawPart) -> (r: Result<
    (),
    ProxyError,
>)
    requires
        p.name@ != "prompt"@,
        p.name@ != "negative_prompt"@,
        p.name@ != "model"@,
        p.name@ != "n"@,
        p.name@ != "size"@,
        p.name@ != "response_format"@,
        p.name@ != "user"@,
        p.name@ != "cfg_scale"@,
        p.name@ != "sample_method"@,
    ensures
        r is Ok <==> apply_part(op, old(req)@, p) is Ok,
        r is Ok ==> apply_part(op, old(req)@, p) == Ok::<ReqView, (TranslateFault, Seq<char>)>(
            final(req)@,
        ),
        r matches Err(e) ==> e is Validation && (apply_part(op, old(req)@, p) matches Err(f)
            && e.spec_message() == fault_message(f.0, f.1)),
{
    broadcast use vstd::utf8::decode_utf8_encode_utf8;

    if str_eq(p.name.as_str(), "steps") {
        if !p.text {
            return Err(fault_error("steps", &TranslateFault::WrongKind));
        }
        match parse_u64(p.data.as_slice()) {
            Some(v) => {
                req.steps = Some(v);
                Ok(())
            },
            None => Err(fault_error("steps", &TranslateFault::BadNumber)),
        }
    } else if str_eq(p.name.as_str(), "height") {
        if !p.text {
            return Err(fault_error("height", &TranslateFault::WrongKind));
        }
        match parse_u64(p.data.as_slice()) {
            Some(v) => {
                req.height = Some(v);
                Ok(())
            },
            None => Err(fault_error("height", &TranslateFault::BadNumber)),
        }
    } else if str_eq(p.name.as_str(), "width") {
        if !p.text {
            return Err(fault_error("width", &TranslateFault::WrongKind));
        }
        match parse_u64(p.data.as_slice()) {
            Some(v) => {
                req.width = Some(v);
                Ok(())
            },
            None => Err(fault_error("width", &TranslateFault::BadNumber)),
        }
    } else if str_eq(p.name.as_str(), "control_strength") {
        match numtext_exec(p, "control_strength") {
            Ok(s) => {
                req.control_strength = Some(s);
                Ok(())
            },
            Err(e) => Err(e),
        }
    } else if str_eq(p.name.as_str(), "control_image") {
        match p.filename {
            None => Err(fault_error("control_image", &TranslateFault::MissingFilename)),
            Some(f) => {
                req.control_image = Some(Upload { filename: f, data: p.data });
                Ok(())
            },
        }
    } else if str_eq(p.name.as_str(), "seed") {
        if !p.text {
            return Err(fault_error("seed", &TranslateFault::WrongKind));
        }
        match parse_i32(p.data.as_slice()) {
            Some(v) => {
                req.seed = Some(v);
                Ok(())
            },
            None => Err(fault_error("seed", &TranslateFault::BadNumber)),
        }
    } else if str_eq(p.name.as_str(), "strength") {
        match numtext_exec(p, "strength") {
            Ok(s) => {
                req.strength = Some(s);
                Ok(())
            },
            Err(e) => Err(e),
        }
    } else if str_eq(p.name.as_str(), "scheduler") {
        if !p.text {
            return Err(fault_error("scheduler", &TranslateFault::WrongKind));
        }
        match string_from_utf8(p.data) {
            Some(s) => {
                req.scheduler = Some(crate::request::parse_scheduler(&s));
                Ok(())
            },
            None => Err(fault_error("scheduler", &TranslateFault::BadText)),
        }
    } else if op == Operation::Edit && str_eq(p.name.as_str(), "image") {
        match p.filename {
            None => Err(fault_error("image", &TranslateFault::MissingFilename)),
            Some(f) => {
                req.source_image = Some(Upload { filename: f, data: p.data });
                Ok(())
            },
        }
    } else if op == Operation::Edit && str_eq(p.name.as_str(), "mask") {
        match p.filename {
            None => Err(fault_error("mask", &TranslateFault::MissingFilename)),
            Some(f) => {
                req.mask = Some(Upload { filename: f, data: p.data });
                Ok(())
            },
        }
    } else {
        Err(fault_error(p.name.as_str(), &TranslateFault::UnknownField))
    }
}

/// Decodes a numeric-text part and checks it against the JSON number grammar.
fn numtext_exec(p: RawPart, name: &str) -> (r: Result<String, ProxyError>)
    ensures
        r is Ok <==> numtext_value(p) is Ok,
        r matches Ok(s) ==> numtext_value(p) == Ok::<Seq<char>, TranslateFault>(s@),
        r matches Err(e) ==> e is Validation && (numtext_value(p) matches Err(f)
            && e.spec_message() == fault_message(f, name@)),
{
    broadcast use vstd::utf8::decode_utf8_encode_utf8;

    if !p.text {
        return Err(fault_error(name, &TranslateFault::WrongKind));
    }
    let ghost data = p.data@;
    match string_from_utf8(p.data) {
        Some(s) => {
            assert(vstd::utf8::encode_utf8(s@) == data);
            if check_json_number(s.as_str().as_bytes()) {
                Ok(s)
            } else {
                Err(fault_error(name, &TranslateFault::BadNumber))
            }
        },
        None => Err(fault_error(name, &TranslateFault::BadText)),
    }
}

/// Applies the `size` part: `<height>x<width>`, exactly one `x`, both halves
/// unsigned numbers.
fn apply_size(req: &mut CanonicalRequest, p: RawPart) -> (r: Result<(), ProxyError>)
    ensures
        r is Ok <==> size_apply(old(req)@, p) is Ok,
        r is Ok ==> size_apply(old(req)@, p) == Ok::<ReqView, TranslateFault>(final(req)@),
        r matches Err(e) ==> e is Validation && (size_apply(old(req)@, p) matches Err(f)
            && e.spec_message() == fault_message(f, "size"@)),
{
    if !p.text {
        return Err(fault_error("size", &TranslateFault::WrongKind));
    }
    let bs = p.data.as_slice();
    let n: usize = bs.len();
    // find the unique separator
    let mut k: usize = 0;
    let mut found = false;
    let mut i: usize = 0;
    while i < n
        invariant
            0 <= i <= n,
            n == bs@.len(),
            bs@ == p.data@,
            p.text,
            !found ==> forall|j: int| 0 <= j < i ==> #[trigger] bs@[j] != 0x78,
            found ==> 0 <= k < i && bs@[k as int] == 0x78 && (forall|j: int|
                0 <= j < i && j != k ==> #[trigger] bs@[j] != 0x78),
        decreases n - i,
    {
        if bs[i] == 0x78 {
            if found {
                proof {
                    lemma_two_x_not_single(p.data@, k as int, i as int);
                }
                return Err(fault_error("size", &TranslateFault::BadSize));
            }
            found = true;
            k = i;
        }
        i += 1;
    }
    if !found {
        proof {
            lemma_no_x_not_single(p.data@);
        }
        return Err(fault_error("size", &TranslateFault::BadSize));
    }
    proof {
        lemma_the_x(p.data@, k as int);
    }
    let h = crate::bytes::sub_vec(bs, 0, k);
    let w = crate::bytes::sub_vec(bs, k + 1, n);
    match (parse_u64(h.as_slice()), parse_u64(w.as_slice())) {
        (Some(hv), Some(wv)) => {
            req.height = Some(hv);
            req.width = Some(wv);
            Ok(())
        },
        _ => Err(fault_error("size", &TranslateFault::BadNumber)),
    }
}

/// Translates an ordered sequence of multipart parts into the canonical
/// request, starting from the schema defaults, exactly as `translate_fold`
/// says. The first faulty part fails the whole request.
#[verifier::rlimit(100)]
pub fn translate_parts(op: Operation, parts: Vec<RawPart>) -> (r: Result<
    CanonicalRequest,
    ProxyError,
>)
    ensures
        r is Ok <==> translate_fold(op, crate::request::default_view(), parts@) is Ok,
        r matches Ok(req) ==> translate_fold(op, crate::request::default_view(), parts@)
            == Ok::<ReqView, (TranslateFault, Seq<char>)>(req@),
        r matches Err(e) ==> e is Validation && (translate_fold(
            op,
            crate::request::default_view(),
            parts@,
        ) matches Err(f) && e.spec_message() == fault_message(f.0, f.1)),
{
    let ghost all = parts@;
    translate_parts_from(op, parts, Ghost(all))
}

#[verifier::rlimit(100)]
fn translate_parts_from(op: Operation, rest: Vec<RawPart>, Ghost(all): Ghost<Seq<RawPart>>) -> (r:
    Result<CanonicalRequest, ProxyError>)
    requires
        rest@ == all,
    ensures
        r is Ok <==> translate_fold(op, crate::request::default_view(), all) is Ok,
        r matches Ok(req) ==> translate_fold(op, crate::request::default_view(), all)
            == Ok::<ReqView, (TranslateFault, Seq<char>)>(req@),
        r matches Err(e) ==> e is Validation && (translate_fold(
            op,
            crate::request::default_view(),
            all,
        ) matches Err(f) && e.spec_message() == fault_message(f.0, f.1)),
{
    let mut req = CanonicalRequest::defaults();
    let mut rest = rest;
    while rest.len() > 0
        invariant
            translate_fold(op, crate::request::default_view(), all) == translate_fold(
                op,
                req@,
                rest@,
            ),
        decreases rest@.len(),
    {
        let ghost before = rest@;
        let ghost rv0 = req@;
        let p = rest.remove(0);
        proof {
            assert(before.drop_first() =~= rest@);
            assert(before[0] == p);
        }
        match apply_part_exec(op, &mut req, p) {
            Ok(()) => {
                proof {
                    assert(translate_fold(op, rv0, before) == translate_fold(op, req@, rest@));
                }
            },
            Err(e) => {
                proof {
                    assert(apply_part(op, rv0, p) is Err);
                    assert(before.len() > 0);
                    assert(translate_fold(op, rv0, before) is Err);
                    assert(translate_fold(op, crate::request::default_view(), all) is Err);
                }
                return Err(e);
            },
        }
    }
    assert(rest@.len() == 0);
    Ok(req)
}

} // verus!
