use vstd::prelude::*;

use crate::bytes::str_eq;
use crate::request::Operation;
use vstd::string::StringSliceAdditionalSpecFns;

verus! {

/// The request methods the proxy distinguishes.
#[derive(Clone, Copy, Debug, PartialEq, Eq, Structural)]
pub enum HttpMethod {
    Post,
    Options,
    Other,
}

/// What the proxy does with a method and path before reading any body.
#[derive(Clone, Copy, Debug, PartialEq, Eq, Structural)]
pub enum RoutePlan {
    /// `OPTIONS` on a known image path: answer immediately, no backend.
    Preflight,
    /// `POST /v1/images/generations`.
    Generate,
    /// `POST /v1/images/edits`.
    Edit,
    /// A known image path with any other method.
    BadMethod,
    /// An unrecognized path.
    NotFound,
}

pub open spec fn spec_route(m: HttpMethod, path: Seq<char>) -> RoutePlan {
    if path == "/v1/images/generations"@ {
        match m {
            HttpMethod::Options => RoutePlan::Preflight,
            HttpMethod::Post => RoutePlan::Generate,
            HttpMethod::Other => RoutePlan::BadMethod,
        }
    } else if path == "/v1/images/edits"@ {
        match m {
            HttpMethod::Options => RoutePlan::Preflight,
            HttpMethod::Post => RoutePlan::Edit,
            HttpMethod::Other => RoutePlan::BadMethod,
        }
    } else {
        RoutePlan::NotFound
    }
}

/// Routes a request by method and path. An `OPTIONS` request on either image
/// path is answered without ever selecting or contacting a backend.
pub fn route(m: HttpMethod, path: &str) -> (r: RoutePlan)
    ensures
        r == spec_route(m, path@),
{
    if str_eq(path, "/v1/images/generations") {
        match m {
            HttpMethod::Options => RoutePlan::Preflight,
            HttpMethod::Post => RoutePlan::Generate,
            HttpMethod::Other => RoutePlan::BadMethod,
        }
    } else if str_eq(path, "/v1/images/edits") {
        match m {
            HttpMethod::Options => RoutePlan::Preflight,
            HttpMethod::Post => RoutePlan::Edit,
            HttpMethod::Other => RoutePlan::BadMethod,
        }
    } else {
        RoutePlan::NotFound
    }
}

/// Law: an `OPTIONS` request is answered at the boundary, never routed
/// towards a backend: whatever the path, its route is never one of the two
/// dispatching plans, and on either image path it is the preflight answer,
/// whose shape `is_preflight_reply` fixes as status 200, an empty body and
/// the three wildcard CORS headers.
pub proof fn lemma_options_is_preflight()
    ensures
        forall|path: Seq<char>| (#[trigger] spec_route(HttpMethod::Options, path))
            != RoutePlan::Generate && spec_route(HttpMethod::Options, path) != RoutePlan::Edit,
        spec_route(HttpMethod::Options, "/v1/images/generations"@) == RoutePlan::Preflight,
        spec_route(HttpMethod::Options, "/v1/images/edits"@) == RoutePlan::Preflight,
{
    reveal_strlit("/v1/images/generations");
    reveal_strlit("/v1/images/edits");
}

/// The backend sub-path each operation is dispatched to.
pub open spec fn spec_target_path(op: Operation) -> Seq<char> {
    match op {
        Operation::Generate => "/sdapi/v1/txt2img"@,
        Operation::Edit => "/sdapi/v1/img2img"@,
    }
}

pub fn target_path(op: Operation) -> (r: &'static str)
    ensures
        r@ == spec_target_path(op),
{
    match op {
        Operation::Generate => "/sdapi/v1/txt2img",
        Operation::Edit => "/sdapi/v1/img2img",
    }
}

/// `bs` with every trailing `/` removed.
pub open spec fn trim_trailing_slashes(bs: Seq<u8>) -> Seq<u8>
    decreases bs.len(),
{
    if bs.len() > 0 && bs.last() == 0x2f {
        trim_trailing_slashes(bs.drop_last())
    } else {
        bs
    }
}

/// The URL the backend call goes to: the backend address, stripped of
/// trailing slashes, followed by the operation's sub-path.
pub fn downstream_target(address: &str, op: Operation) -> (r: Vec<u8>)
    ensures
        r@ == trim_trailing_slashes(address.spec_bytes()) + vstd::utf8::encode_utf8(
            spec_target_path(op),
        ),
{
    let bs = address.as_bytes();
    let mut end: usize = bs.len();
    assert(bs@.subrange(0, end as int) =~= bs@);
    while end > 0 && bs[end - 1] == 0x2f
        invariant
            0 <= end <= bs@.len(),
            bs@ == address.spec_bytes(),
            trim_trailing_slashes(bs@) == trim_trailing_slashes(bs@.subrange(0, end as int)),
        decreases end,
    {
        let ghost pre = bs@.subrange(0, end as int);
        end = end - 1;
        proof {
            assert(pre.drop_last() =~= bs@.subrange(0, end as int));
        }
    }
    proof {
        let last = bs@.subrange(0, end as int);
        if last.len() > 0 && last.last() == 0x2f {
            assert(false);
        }
        assert(trim_trailing_slashes(last) == last);
    }
    let mut out = crate::bytes::sub_vec(bs, 0, end);
    let path = target_path(op);
    crate::json::push_lit(&mut out, path);
    assert(out@ =~= trim_trailing_slashes(address.spec_bytes()) + vstd::utf8::encode_utf8(
        spec_target_path(op),
    ));
    out
}

} // verus!
