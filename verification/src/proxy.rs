use vstd::prelude::*;

use crate::bytes::{find_sub, occurs_at, starts_with_lit, string_from_utf8, sub_vec};
use crate::error::ProxyError;
use crate::json::{json_of, parse_json};
use crate::jsonreq::{gen_json_ok, gen_json_view, gen_request_from_json};
use crate::payload::{build_generate_payload, generate_payload_bytes};
use crate::request::{default_view, view_ready, CanonicalRequest, Operation, ReqView};
use crate::translate::{fault_message, translate_fold, translate_parts, RawPart};
use multipart_2021::server::{Multipart, ReadEntry, ReadEntryResult};
use std::io::{Cursor, Read};
use vstd::string::StringSliceAdditionalSpecFns;

verus! {

/// The parts a multipart body splits into under a boundary, if the wire
/// parser accepts it at all: a function of body and boundary alone.
pub uninterp spec fn parts_of(body: Seq<u8>, boundary: Seq<char>) -> Option<Seq<RawPart>>;

/// Relies on multipart_2021's server parser: splits a fully buffered
/// multipart body into its parts, in order, with each part's field name,
/// client filename, text flag and raw bytes, deterministically in the body
/// and boundary. Parsing stops quietly at the first malformed entry, as the
/// wire parser does; a part whose data cannot be read fails the whole body.
#[verifier::external_body]
fn read_parts(body: Vec<u8>, boundary: &str) -> (r: Option<Vec<RawPart>>)
    ensures
        r is Some <==> parts_of(body@, boundary@) is Some,
        r matches Some(ps) ==> parts_of(body@, boundary@) == Some(ps@),
{
    let mut mp = Multipart::with_body(Cursor::new(body), boundary);
    let mut out: Vec<RawPart> = Vec::new();
    while let ReadEntryResult::Entry(mut f) = mp.read_entry_mut() {
        let mut data: Vec<u8> = Vec::new();
        if f.data.read_to_end(&mut data).is_err() {
            return None;
        }
        let text = f.is_text();
        out.push(
            RawPart { name: f.headers.name.to_string(), filename: f.headers.filename.clone(), text, data },
        );
    }
    Some(out)
}

/// The first position of the `boundary=` marker in a content type.
pub open spec fn marker_at(ct: Seq<u8>, i: int) -> bool {
    occurs_at(ct, "boundary=".spec_bytes(), i) && (forall|j: int|
        0 <= j < i ==> !occurs_at(ct, "boundary=".spec_bytes(), j))
}

/// The boundary bytes a content type names: what follows the first
/// `boundary=` marker, if there is one.
pub open spec fn spec_boundary(ct: Seq<u8>) -> Option<Seq<u8>> {
    if exists|i: int| #[trigger] marker_at(ct, i) {
        let i = choose|i: int| #[trigger] marker_at(ct, i);
        Some(ct.subrange(i + "boundary=".spec_bytes().len(), ct.len() as int))
    } else {
        None
    }
}

proof fn lemma_marker_unique(ct: Seq<u8>, i: int)
    requires
        marker_at(ct, i),
    ensures
        spec_boundary(ct) == Some(
            ct.subrange(i + "boundary=".spec_bytes().len(), ct.len() as int),
        ),
{
    assert(exists|k: int| #[trigger] marker_at(ct, k));
    let k = choose|k: int| #[trigger] marker_at(ct, k);
    if k < i {
        assert(!occurs_at(ct, "boundary=".spec_bytes(), k));
    }
    if i < k {
        assert(!occurs_at(ct, "boundary=".spec_bytes(), i));
    }
}

/// The multipart boundary named by a content type, the text after the first
/// `boundary=`.
fn boundary_of(content_type: &str) -> (r: Option<String>)
    ensures
        ({
            let bs = content_type.spec_bytes();
            match r {
                Some(b) => spec_boundary(bs) matches Some(bb) && vstd::utf8::encode_utf8(b@)
                    == bb,
                None => match spec_boundary(bs) {
                    Some(bb) => !vstd::utf8::valid_utf8(bb),
                    None => true,
                },
            }
        }),
{
    broadcast use vstd::utf8::decode_utf8_encode_utf8;

    let bs = content_type.as_bytes();
    let needle = "boundary=".as_bytes();
    let nl: usize = needle.len();
    let bl: usize = bs.len();
    match find_sub(bs, needle) {
        Some(i) => {
            proof {
                assert(marker_at(bs@, i as int));
                lemma_marker_unique(bs@, i as int);
                assert(i + nl <= bs@.len());
            }
            let suffix = sub_vec(bs, i + nl, bl);
            string_from_utf8(suffix)
        },
        None => {
            proof {
                assert forall|k: int| !marker_at(bs@, k) by {
                    assert(!occurs_at(bs@, "boundary=".spec_bytes(), k));
                }
            }
            None
        },
    }
}

/// Whether a content type selects the multipart field table: it starts with
/// `multipart/`.
pub open spec fn spec_is_multipart(ct: Option<String>) -> bool {
    match ct {
        Some(s) => {
            let bs = vstd::utf8::encode_utf8(s@);
            bs.len() >= "multipart/".spec_bytes().len() && bs.subrange(
                0,
                "multipart/".spec_bytes().len() as int,
            ) == "multipart/".spec_bytes()
        },
        None => false,
    }
}

fn is_multipart(content_type: &Option<String>) -> (r: bool)
    ensures
        r == spec_is_multipart(*content_type),
{
    match content_type {
        Some(ct) => starts_with_lit(ct.as_str(), "multipart/"),
        None => false,
    }
}

fn multipart_error() -> (r: ProxyError)
    ensures
        r is Validation,
{
    ProxyError::Validation(String::from_str("Failed to parse the multipart body."))
}

fn boundary_error() -> (r: ProxyError)
    ensures
        r is Validation,
{
    ProxyError::Validation(
        String::from_str("The content type of a multipart request must name a boundary."),
    )
}

/// Takes the prompt out of a fully populated request.
fn prompt_of(req: &CanonicalRequest) -> (r: String)
    requires
        req.payload_ready(),
    ensures
        req@.prompt == Some(r@),
{
    match &req.prompt {
        Some(p) => p.clone(),
        None => {
            assert(false);
            String::new()
        },
    }
}

/// What a multipart plan owes for a given content type and body: the boundary
/// is extracted, the body split, and the field table folded; a fold fault
/// fails the request with the fault's own message, and a fold result whose
/// required fields are populated is accepted.
pub open spec fn multipart_outcome(
    op: Operation,
    ct: String,
    body: Seq<u8>,
    r: Result<CanonicalRequest, ProxyError>,
) -> bool {
    match spec_boundary(vstd::utf8::encode_utf8(ct@)) {
        None => r is Err,
        Some(bb) => if !vstd::utf8::valid_utf8(bb) {
            r is Err
        } else {
            match parts_of(body, vstd::utf8::decode_utf8(bb)) {
                None => r is Err,
                Some(ps) => match translate_fold(op, default_view(), ps) {
                    Ok(v) => (view_ready(v) ==> (r matches Ok(req) && req@ == v)) && (
                    r matches Ok(req) ==> req@ == v),
                    Err(f) => r matches Err(e) && e.spec_message() == fault_message(f.0, f.1),
                },
            }
        },
    }
}

/// Extracts the boundary, splits the body and folds the field table; the
/// collected request is checked complete before it is handed on.
#[verifier::rlimit(100)]
fn multipart_request(op: Operation, ct: &String, body: Vec<u8>) -> (r: Result<
    CanonicalRequest,
    ProxyError,
>)
    ensures
        r matches Err(e) ==> e is Validation,
        r matches Ok(req) ==> req.payload_ready(),
        multipart_outcome(op, *ct, body@, r),
{
    broadcast use vstd::utf8::decode_utf8_encode_utf8;
    broadcast use vstd::utf8::encode_utf8_decode_utf8;
    broadcast use vstd::utf8::encode_utf8_valid_utf8;

    let boundary = match boundary_of(ct.as_str()) {
        Some(b) => b,
        None => {
            return Err(boundary_error());
        },
    };
    let parts = match read_parts(body, boundary.as_str()) {
        Some(parts) => parts,
        None => {
            return Err(multipart_error());
        },
    };
    let req = match translate_parts(op, parts) {
        Ok(req) => req,
        Err(e) => {
            return Err(e);
        },
    };
    match req.validate() {
        Ok(()) => Ok(req),
        Err(e) => Err(e),
    }
}

/// Turns a JSON generate request into the backend payload and the prompt: a
/// body that is one JSON document of the expected shape is always accepted,
/// and everything else is a validation failure.
#[verifier::rlimit(100)]
fn plan_generate_json(body: Vec<u8>) -> (r: Result<(Vec<u8>, String), ProxyError>)
    ensures
        r matches Err(e) ==> e is Validation,
        match json_of(body@) {
            Some(doc) => {
                &&& (gen_json_ok(doc) ==> (r matches Ok(p) && p.0@ == generate_payload_bytes(
                    gen_json_view(doc),
                ) && gen_json_view(doc).prompt == Some(p.1@)))
                &&& (!gen_json_ok(doc) ==> r is Err)
            },
            None => r is Err,
        },
{
    let doc = match parse_json(body.as_slice()) {
        Ok(doc) => doc,
        Err(m) => {
            let mut msg = String::from_str("Fail to deserialize image create request: ");
            msg.append(m.as_str());
            return Err(ProxyError::Validation(msg));
        },
    };
    let req = match gen_request_from_json(&doc) {
        Ok(req) => req,
        Err(e) => {
            return Err(e);
        },
    };
    match req.validate() {
        Ok(()) => (),
        Err(e) => {
            proof {
                assert(view_ready(gen_json_view(doc)));
                assert(false);
            }
            return Err(e);
        },
    }
    let payload = build_generate_payload(&req);
    let prompt = prompt_of(&req);
    Ok((payload, prompt))
}

/// Turns an inbound generate request into the backend payload and the prompt
/// that will stamp the response. A multipart content type selects the
/// multipart field table; anything else is read as one JSON document. Every
/// gap or malformed field is a validation failure; nothing is dispatched for
/// an invalid request.
#[verifier::rlimit(100)]
pub fn plan_generate(content_type: &Option<String>, body: Vec<u8>) -> (r: Result<
    (Vec<u8>, String),
    ProxyError,
>)
    ensures
        r matches Ok(p) ==> exists|rv: ReqView|
            p.0@ == #[trigger] generate_payload_bytes(rv) && rv.prompt == Some(p.1@),
        r matches Err(e) ==> e is Validation,
        !spec_is_multipart(*content_type) ==> match json_of(body@) {
            Some(doc) => {
                &&& (gen_json_ok(doc) ==> (r matches Ok(p) && p.0@ == generate_payload_bytes(
                    gen_json_view(doc),
                ) && gen_json_view(doc).prompt == Some(p.1@)))
                &&& (!gen_json_ok(doc) ==> r is Err)
            },
            None => r is Err,
        },
        spec_is_multipart(*content_type) ==> match spec_boundary(
            vstd::utf8::encode_utf8((content_type->0)@),
        ) {
            None => r is Err,
            Some(bb) => if !vstd::utf8::valid_utf8(bb) {
                r is Err
            } else {
                match parts_of(body@, vstd::utf8::decode_utf8(bb)) {
                    None => r is Err,
                    Some(ps) => match translate_fold(Operation::Generate, default_view(), ps) {
                        Ok(v) => view_ready(v) ==> (r matches Ok(p) && p.0@
                            == generate_payload_bytes(v) && v.prompt == Some(p.1@)),
                        Err(f) => r matches Err(e) && e.spec_message() == fault_message(
                            f.0,
                            f.1,
                        ),
                    },
                }
            },
        },
{
    if is_multipart(content_type) {
        match content_type {
            Some(ct) => {
                let req = match multipart_request(Operation::Generate, ct, body) {
                    Ok(req) => req,
                    Err(e) => {
                        return Err(e);
                    },
                };
                let payload = build_generate_payload(&req);
                let prompt = prompt_of(&req);
                Ok((payload, prompt))
            },
            None => {
                assert(false);
                Err(boundary_error())
            },
        }
    } else {
        plan_generate_json(body)
    }
}

/// Turns an inbound edit request into the canonical request and the prompt.
/// Edits are multipart only; the payload is built once the file store has
/// been asked for the source image.
#[verifier::rlimit(100)]
pub fn plan_edit(content_type: &Option<String>, body: Vec<u8>) -> (r: Result<
    (CanonicalRequest, String),
    ProxyError,
>)
    ensures
        r matches Ok(p) ==> p.0.payload_ready() && p.0@.prompt == Some(p.1@),
        r matches Err(e) ==> e is Validation,
        *content_type is None ==> r is Err,
        *content_type matches Some(ct) ==> match spec_boundary(vstd::utf8::encode_utf8(ct@)) {
            None => r is Err,
            Some(bb) => if !vstd::utf8::valid_utf8(bb) {
                r is Err
            } else {
                match parts_of(body@, vstd::utf8::decode_utf8(bb)) {
                    None => r is Err,
                    Some(ps) => match translate_fold(Operation::Edit, default_view(), ps) {
                        Ok(v) => view_ready(v) ==> (r matches Ok(p) && p.0@ == v),
                        Err(f) => r matches Err(e) && e.spec_message() == fault_message(
                            f.0,
                            f.1,
                        ),
                    },
                }
            },
        },
{
    match content_type {
        Some(ct) => {
            let req = match multipart_request(Operation::Edit, ct, body) {
                Ok(req) => req,
                Err(e) => {
                    return Err(e);
                },
            };
            let prompt = prompt_of(&req);
            Ok((req, prompt))
        },
        None => Err(boundary_error()),
    }
}

} // verus!
