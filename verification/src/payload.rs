use vstd::prelude::*;

use crate::error::ProxyError;
use crate::json::{json_string, push_json_string, push_lit};
use crate::numbers::{dec_repr, dec_repr_signed, push_dec, push_dec_i32};
use crate::request::{CanonicalRequest, ReqView};
use vstd::string::StringSliceAdditionalSpecFns;

verus! {

/// What the standard base64 engine prints for a byte string. The encoding is
/// a function of the bytes alone.
pub uninterp spec fn base64_of(data: Seq<u8>) -> Seq<char>;

/// Relies on the base64 crate's standard engine (padded alphabet): encodes a
/// byte string; an empty input encodes to the empty string.
#[verifier::external_body]
pub fn b64_encode(data: &[u8]) -> (r: String)
    ensures
        r@ == base64_of(data@),
        data@.len() == 0 ==> r@.len() == 0,
{
    base64::Engine::encode(&base64::engine::general_purpose::STANDARD, data)
}

/// The backend's native generate payload: one JSON object, keys in the order
/// the wire serializer emits them, numeric text carried verbatim, and the
/// fixed `batch_size` and `n_iter` of 1.
pub open spec fn generate_payload_bytes(rv: ReqView) -> Seq<u8> {
    "{\"batch_size\":1,\"cfg_scale\":".spec_bytes() + vstd::utf8::encode_utf8(rv.cfg_scale->0)
        + ",\"denoising_strength\":".spec_bytes() + vstd::utf8::encode_utf8(rv.strength->0)
        + ",\"height\":".spec_bytes() + dec_repr(rv.height->0 as int)
        + ",\"n_iter\":1,\"negative_prompt\":".spec_bytes() + json_string(rv.negative_prompt->0)
        + ",\"prompt\":".spec_bytes() + json_string(rv.prompt->0)
        + ",\"sampler_index\":".spec_bytes() + json_string(rv.sample_label->0)
        + ",\"scheduler\":".spec_bytes() + json_string(rv.scheduler_label->0)
        + ",\"seed\":".spec_bytes() + dec_repr_signed(rv.seed->0 as int)
        + ",\"steps\":".spec_bytes() + dec_repr(rv.steps->0 as int)
        + ",\"width\":".spec_bytes() + dec_repr(rv.width->0 as int) + "}".spec_bytes()
}

/// The backend's native edit payload: the generate fields plus the source
/// image, base64-encoded, as the single element of `init_images`.
pub open spec fn edit_payload_bytes(rv: ReqView, image_b64: Seq<char>) -> Seq<u8> {
    "{\"batch_size\":1,\"cfg_scale\":".spec_bytes() + vstd::utf8::encode_utf8(rv.cfg_scale->0)
        + ",\"denoising_strength\":".spec_bytes() + vstd::utf8::encode_utf8(rv.strength->0)
        + ",\"height\":".spec_bytes() + dec_repr(rv.height->0 as int)
        + ",\"init_images\":[".spec_bytes() + json_string(image_b64)
        + "],\"n_iter\":1,\"negative_prompt\":".spec_bytes() + json_string(rv.negative_prompt->0)
        + ",\"prompt\":".spec_bytes() + json_string(rv.prompt->0)
        + ",\"sampler_index\":".spec_bytes() + json_string(rv.sample_label->0)
        + ",\"scheduler\":".spec_bytes() + json_string(rv.scheduler_label->0)
        + ",\"seed\":".spec_bytes() + dec_repr_signed(rv.seed->0 as int)
        + ",\"steps\":".spec_bytes() + dec_repr(rv.steps->0 as int)
        + ",\"width\":".spec_bytes() + dec_repr(rv.width->0 as int) + "}".spec_bytes()
}

/// Builds the generate payload of a fully populated request.
#[verifier::rlimit(100)]
pub fn build_generate_payload(req: &CanonicalRequest) -> (r: Vec<u8>)
    requires
        req.payload_ready(),
    ensures
        r@ == generate_payload_bytes(req@),
{
    let mut out: Vec<u8> = Vec::new();
    push_lit(&mut out, "{\"batch_size\":1,\"cfg_scale\":");
    match &req.cfg_scale {
        Some(s) => push_lit(&mut out, s.as_str()),
        None => assert(false),
    }
    push_lit(&mut out, ",\"denoising_strength\":");
    match &req.strength {
        Some(s) => push_lit(&mut out, s.as_str()),
        None => assert(false),
    }
    push_lit(&mut out, ",\"height\":");
    match &req.height {
        Some(v) => push_dec(&mut out, *v),
        None => assert(false),
    }
    push_lit(&mut out, ",\"n_iter\":1,\"negative_prompt\":");
    match &req.negative_prompt {
        Some(s) => push_json_string(&mut out, s.as_str()),
        None => assert(false),
    }
    push_lit(&mut out, ",\"prompt\":");
    match &req.prompt {
        Some(s) => push_json_string(&mut out, s.as_str()),
        None => assert(false),
    }
    push_lit(&mut out, ",\"sampler_index\":");
    match &req.sample_method {
        Some(m) => push_json_string(&mut out, m.label()),
        None => assert(false),
    }
    push_lit(&mut out, ",\"scheduler\":");
    match &req.scheduler {
        Some(m) => push_json_string(&mut out, m.label()),
        None => assert(false),
    }
    push_lit(&mut out, ",\"seed\":");
    match &req.seed {
        Some(v) => push_dec_i32(&mut out, *v),
        None => assert(false),
    }
    push_lit(&mut out, ",\"steps\":");
    match &req.steps {
        Some(v) => push_dec(&mut out, *v),
        None => assert(false),
    }
    push_lit(&mut out, ",\"width\":");
    match &req.width {
        Some(v) => push_dec(&mut out, *v),
        None => assert(false),
    }
    push_lit(&mut out, "}");
    assert(out@ =~= generate_payload_bytes(req@));
    out
}

/// Builds the edit payload of a fully populated request around the encoded
/// source image.
#[verifier::rlimit(100)]
pub fn build_edit_payload(req: &CanonicalRequest, image_b64: &str) -> (r: Vec<u8>)
    requires
        req.payload_ready(),
    ensures
        r@ == edit_payload_bytes(req@, image_b64@),
{
    let mut out: Vec<u8> = Vec::new();
    push_lit(&mut out, "{\"batch_size\":1,\"cfg_scale\":");
    match &req.cfg_scale {
        Some(s) => push_lit(&mut out, s.as_str()),
        None => assert(false),
    }
    push_lit(&mut out, ",\"denoising_strength\":");
    match &req.strength {
        Some(s) => push_lit(&mut out, s.as_str()),
        None => assert(false),
    }
    push_lit(&mut out, ",\"height\":");
    match &req.height {
        Some(v) => push_dec(&mut out, *v),
        None => assert(false),
    }
    push_lit(&mut out, ",\"init_images\":[");
    push_json_string(&mut out, image_b64);
    push_lit(&mut out, "],\"n_iter\":1,\"negative_prompt\":");
    match &req.negative_prompt {
        Some(s) => push_json_string(&mut out, s.as_str()),
        None => assert(false),
    }
    push_lit(&mut out, ",\"prompt\":");
    match &req.prompt {
        Some(s) => push_json_string(&mut out, s.as_str()),
        None => assert(false),
    }
    push_lit(&mut out, ",\"sampler_index\":");
    match &req.sample_method {
        Some(m) => push_json_string(&mut out, m.label()),
        None => assert(false),
    }
    push_lit(&mut out, ",\"scheduler\":");
    match &req.scheduler {
        Some(m) => push_json_string(&mut out, m.label()),
        None => assert(false),
    }
    push_lit(&mut out, ",\"seed\":");
    match &req.seed {
        Some(v) => push_dec_i32(&mut out, *v),
        None => assert(false),
    }
    push_lit(&mut out, ",\"steps\":");
    match &req.steps {
        Some(v) => push_dec(&mut out, *v),
        None => assert(false),
    }
    push_lit(&mut out, ",\"width\":");
    match &req.width {
        Some(v) => push_dec(&mut out, *v),
        None => assert(false),
    }
    push_lit(&mut out, "}");
    assert(out@ =~= edit_payload_bytes(req@, image_b64@));
    out
}

/// Builds the edit payload from whatever the file store found for the
/// source image. A request whose image was never stored fails validation
/// here, before any backend is contacted.
pub fn build_edit_payload_from_store(req: &CanonicalRequest, stored: Option<Vec<u8>>) -> (r: Result<
    Vec<u8>,
    ProxyError,
>)
    requires
        req.payload_ready(),
    ensures
        stored is None ==> (r matches Err(e) && e is Validation),
        stored matches Some(bytes) ==> (r matches Ok(body) && body@ == edit_payload_bytes(
            req@,
            base64_of(bytes@),
        )),
{
    match stored {
        None => Err(
            ProxyError::Validation(String::from_str("Not found the init image of the edit request")),
        ),
        Some(bytes) => {
            let encoded = b64_encode(bytes.as_slice());
            Ok(build_edit_payload(req, encoded.as_str()))
        },
    }
}

} // verus!
