use vstd::prelude::*;

use crate::bytes::str_eq;
use crate::error::ProxyError;
use crate::json::{json_string, push_json_string, push_lit};
use crate::registry::{
    has_address, listing, spec_register, without_address, Registry, ServiceClass,
};
use vstd::string::StringSliceAdditionalSpecFns;

verus! {

/// Whether the Uri parser accepts a piece of text: a function of the text
/// alone.
pub uninterp spec fn uri_ok(s: Seq<char>) -> bool;

/// Relies on the Uri parser that hyper re-exports: whether the body names a
/// well-formed URL.
#[verifier::external_body]
fn url_is_valid(s: &str) -> (r: bool)
    ensures
        r == uri_ok(s@),
{
    s.parse::<hyper::Uri>().is_ok()
}

/// Maps an admin path segment onto a service class; only `image` exists.
pub fn parse_service_class(name: &str) -> (r: Option<ServiceClass>)
    ensures
        r == Some(ServiceClass::Image) <==> name@ == "image"@,
        r is Some <==> name@ == "image"@,
{
    if str_eq(name, "image") {
        Some(ServiceClass::Image)
    } else {
        None
    }
}

/// The confirmation body the admin endpoints answer with.
pub open spec fn confirmation_bytes(message: Seq<char>, url: Seq<char>) -> Seq<u8> {
    "{\"message\":".spec_bytes() + json_string(message) + ",\"url\":".spec_bytes() + json_string(
        url,
    ) + "}".spec_bytes()
}

fn confirmation_body(message: &str, url: &str) -> (r: Vec<u8>)
    ensures
        r@ == confirmation_bytes(message@, url@),
{
    let mut out: Vec<u8> = Vec::new();
    push_lit(&mut out, "{\"message\":");
    push_json_string(&mut out, message);
    push_lit(&mut out, ",\"url\":");
    push_json_string(&mut out, url);
    push_lit(&mut out, "}");
    assert(out@ =~= confirmation_bytes(message@, url@));
    out
}

/// Registers a backend address under a class. The class name must be known
/// and the body must parse as a URL; the address is then appended as-is and
/// echoed back in the confirmation.
pub fn admin_register(reg: &mut Registry, class_name: &str, body: &String) -> (r: Result<
    Vec<u8>,
    ProxyError,
>)
    ensures
        class_name@ == "image"@ && uri_ok(body@) ==> (r matches Ok(b) && final(reg).backends(
            ServiceClass::Image,
        ) =~= spec_register(old(reg).backends(ServiceClass::Image), *body) && b@
            == confirmation_bytes("URL registered successfully"@, body@)),
        class_name@ != "image"@ || !uri_ok(body@) ==> (r matches Err(e) && e is Validation)
            && final(reg).backends(ServiceClass::Image) =~= old(reg).backends(ServiceClass::Image),
        r matches Ok(b) ==> class_name@ == "image"@ && uri_ok(body@),
{
    let class = match parse_service_class(class_name) {
        Some(c) => c,
        None => {
            return Err(ProxyError::Validation(String::from_str("invalid url type")));
        },
    };
    if !url_is_valid(body.as_str()) {
        let mut m = String::from_str("invalid url: ");
        m.append(body.as_str());
        return Err(ProxyError::Validation(m));
    }
    reg.register(class, body.clone());
    Ok(confirmation_body("URL registered successfully", body.as_str()))
}

/// Unregisters every backend carrying the given address. An unknown class is
/// rejected; an address that matches nothing is a not-found failure and the
/// registry is left unchanged.
pub fn admin_unregister(reg: &mut Registry, class_name: &str, body: &String) -> (r: Result<
    Vec<u8>,
    ProxyError,
>)
    ensures
        class_name@ == "image"@ && has_address(old(reg).backends(ServiceClass::Image), body@)
            ==> (r matches Ok(b) && final(reg).backends(ServiceClass::Image) =~= without_address(
            old(reg).backends(ServiceClass::Image),
            body@,
        ) && b@ == confirmation_bytes("URL unregistered successfully"@, body@)),
        class_name@ != "image"@ ==> (r matches Err(e) && e is Validation)
            && final(reg).backends(ServiceClass::Image) =~= old(reg).backends(ServiceClass::Image),
        r matches Err(e) ==> final(reg).backends(ServiceClass::Image) =~= old(reg).backends(
            ServiceClass::Image,
        ),
        class_name@ == "image"@ && !has_address(old(reg).backends(ServiceClass::Image), body@)
            ==> (r matches Err(e) && e is NotFound && e.spec_message()
            == "not found the downstream server to unregister"@),
{
    let class = match parse_service_class(class_name) {
        Some(c) => c,
        None => {
            return Err(ProxyError::Validation(String::from_str("invalid url type")));
        },
    };
    match reg.unregister(class, body) {
        Ok(()) => Ok(confirmation_body("URL unregistered successfully", body.as_str())),
        Err(e) => Err(e),
    }
}

/// The listing body: each class with its ordered addresses.
pub open spec fn listing_inner(urls: Seq<Seq<char>>) -> Seq<u8>
    decreases urls.len(),
{
    if urls.len() == 0 {
        Seq::<u8>::empty()
    } else {
        listing_inner(urls.drop_last()) + (if urls.len() > 1 {
            ",".spec_bytes()
        } else {
            Seq::<u8>::empty()
        }) + json_string(urls.last())
    }
}

pub open spec fn listing_bytes(urls: Seq<Seq<char>>) -> Seq<u8> {
    "{\"image\":[".spec_bytes() + listing_inner(urls) + "]}".spec_bytes()
}

/// Serializes the per-class listing of registered addresses, in order.
pub fn admin_list(reg: &Registry) -> (r: Vec<u8>)
    ensures
        r@ == listing_bytes(listing(reg.backends(ServiceClass::Image))),
{
    let urls = reg.list(ServiceClass::Image);
    let ghost view = listing(reg.backends(ServiceClass::Image));
    let mut out: Vec<u8> = Vec::new();
    push_lit(&mut out, "{\"image\":[");
    let n: usize = urls.len();
    let mut i: usize = 0;
    while i < n
        invariant
            0 <= i <= n,
            n == urls@.len() == view.len(),
            forall|j: int| 0 <= j < n ==> #[trigger] urls@[j]@ == view[j],
            out@ == "{\"image\":[".spec_bytes() + listing_inner(view.subrange(0, i as int)),
        decreases n - i,
    {
        let ghost pre = view.subrange(0, i as int);
        if i > 0 {
            push_lit(&mut out, ",");
        }
        push_json_string(&mut out, urls[i].as_str());
        i += 1;
        proof {
            let cur = view.subrange(0, i as int);
            assert(cur.drop_last() =~= pre);
            assert(cur.last() == view[i - 1]);
            assert(out@ =~= "{\"image\":[".spec_bytes() + listing_inner(cur));
        }
    }
    assert(view.subrange(0, n as int) =~= view);
    push_lit(&mut out, "]}");
    assert(out@ =~= listing_bytes(view));
    out
}

} // verus!
