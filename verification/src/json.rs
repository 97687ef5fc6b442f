use vstd::prelude::*;

use crate::bytes::str_eq;
use vstd::string::StringSliceAdditionalSpecFns;

verus! {

/// A parsed JSON document. Numbers keep their decimal text: the proxy never
/// computes with them, it validates and forwards them.
pub enum Json {
    Null,
    Bool(bool),
    Num(String),
    Str(String),
    Arr(Vec<Json>),
    Obj(Vec<(String, Json)>),
}

/// The value of the first entry named `key`, if any.
pub open spec fn obj_lookup(entries: Seq<(String, Json)>, key: Seq<char>) -> Option<Json>
    decreases entries.len(),
{
    if entries.len() == 0 {
        None
    } else if entries[0].0@ == key {
        Some(entries[0].1)
    } else {
        obj_lookup(entries.drop_first(), key)
    }
}

/// Looks a key up among the entries of a JSON object, first match wins.
pub fn obj_get<'a>(entries: &'a Vec<(String, Json)>, key: &str) -> (r: Option<&'a Json>)
    ensures
        match r {
            Some(v) => obj_lookup(entries@, key@) == Some(*v),
            None => obj_lookup(entries@, key@) is None,
        },
{
    let n: usize = entries.len();
    let mut i: usize = 0;
    assert(entries@.subrange(0, n as int) =~= entries@);
    while i < n
        invariant
            0 <= i <= n,
            n == entries@.len(),
            obj_lookup(entries@, key@) == obj_lookup(
                entries@.subrange(i as int, n as int),
                key@,
            ),
        decreases n - i,
    {
        let ghost rest = entries@.subrange(i as int, n as int);
        proof {
            assert(rest.drop_first() =~= entries@.subrange(i as int + 1, n as int));
            assert(rest[0] == entries@[i as int]);
        }
        if str_eq(entries[i].0.as_str(), key) {
            return Some(&entries[i].1);
        }
        i += 1;
    }
    proof {
        assert(entries@.subrange(n as int, n as int) =~= Seq::<(String, Json)>::empty());
    }
    None
}

/// Lowercase hexadecimal digit for a value below 16.
pub open spec fn hex_digit(n: int) -> u8 {
    if n < 10 {
        (0x30 + n) as u8
    } else {
        (0x57 + n) as u8
    }
}

/// How one byte of a string is written inside a JSON string literal: the
/// two-character escapes of the JSON grammar, `\u00XX` for the remaining
/// control bytes, and everything else verbatim.
pub open spec fn escape_byte(b: u8) -> Seq<u8> {
    if b == 0x22 {
        seq![0x5cu8, 0x22u8]
    } else if b == 0x5c {
        seq![0x5cu8, 0x5cu8]
    } else if b == 0x08 {
        seq![0x5cu8, 0x62u8]
    } else if b == 0x0c {
        seq![0x5cu8, 0x66u8]
    } else if b == 0x0a {
        seq![0x5cu8, 0x6eu8]
    } else if b == 0x0d {
        seq![0x5cu8, 0x72u8]
    } else if b == 0x09 {
        seq![0x5cu8, 0x74u8]
    } else if b < 0x20 {
        seq![0x5cu8, 0x75u8, 0x30u8, 0x30u8, hex_digit(b as int / 16), hex_digit(b as int % 16)]
    } else {
        seq![b]
    }
}

/// The bytes of a string escaped for inclusion in a JSON string literal.
pub open spec fn json_escaped(bs: Seq<u8>) -> Seq<u8>
    decreases bs.len(),
{
    if bs.len() == 0 {
        Seq::<u8>::empty()
    } else {
        json_escaped(bs.drop_last()) + escape_byte(bs.last())
    }
}

/// The JSON string literal denoting `s`: a quote, the escaped UTF-8 bytes, a
/// closing quote.
pub open spec fn json_string(s: Seq<char>) -> Seq<u8> {
    seq![0x22u8] + json_escaped(vstd::utf8::encode_utf8(s)) + seq![0x22u8]
}

/// Appends the JSON string literal denoting `s`.
pub fn push_json_string(out: &mut Vec<u8>, s: &str)
    ensures
        final(out)@ == old(out)@ + json_string(s@),
{
    out.push(0x22);
    let bs = s.as_bytes();
    let n: usize = bs.len();
    let mut i: usize = 0;
    while i < n
        invariant
            0 <= i <= n,
            n == bs@.len(),
            bs@ == vstd::utf8::encode_utf8(s@),
            out@ == old(out)@ + seq![0x22u8] + json_escaped(bs@.subrange(0, i as int)),
        decreases n - i,
    {
        let ghost pre = bs@.subrange(0, i as int);
        let b = bs[i];
        if b == 0x22 {
            out.push(0x5c);
            out.push(0x22);
        } else if b == 0x5c {
            out.push(0x5c);
            out.push(0x5c);
        } else if b == 0x08 {
            out.push(0x5c);
            out.push(0x62);
        } else if b == 0x0c {
            out.push(0x5c);
            out.push(0x66);
        } else if b == 0x0a {
            out.push(0x5c);
            out.push(0x6e);
        } else if b == 0x0d {
            out.push(0x5c);
            out.push(0x72);
        } else if b == 0x09 {
            out.push(0x5c);
            out.push(0x74);
        } else if b < 0x20 {
            out.push(0x5c);
            out.push(0x75);
            out.push(0x30);
            out.push(0x30);
            let hi = b / 16;
            let lo = b % 16;
            out.push(if hi < 10 { 0x30 + hi } else { 0x57 + hi });
            out.push(if lo < 10 { 0x30 + lo } else { 0x57 + lo });
        } else {
            out.push(b);
        }
        i += 1;
        proof {
            let cur = bs@.subrange(0, i as int);
            assert(cur.drop_last() =~= pre);
            assert(cur.last() == bs@[i - 1]);
            assert(out@ =~= old(out)@ + seq![0x22u8] + json_escaped(cur));
        }
    }
    assert(bs@.subrange(0, n as int) =~= bs@);
    out.push(0x22);
    assert(final(out)@ =~= old(out)@ + json_string(s@));
}

/// Appends a literal piece of JSON syntax, ASCII punctuation or a fixed key.
pub fn push_lit(out: &mut Vec<u8>, lit: &str)
    ensures
        final(out)@ == old(out)@ + lit.spec_bytes(),
{
    let bs = lit.as_bytes();
    let n: usize = bs.len();
    let mut i: usize = 0;
    while i < n
        invariant
            0 <= i <= n,
            n == bs@.len(),
            bs@ == lit.spec_bytes(),
            out@ == old(out)@ + bs@.subrange(0, i as int),
        decreases n - i,
    {
        out.push(bs[i]);
        i += 1;
        proof {
            assert(out@ =~= old(out)@ + bs@.subrange(0, i as int));
        }
    }
    assert(final(out)@ =~= old(out)@ + lit.spec_bytes());
}

#[verifier::external_type_specification]
#[verifier::external_body]
pub struct ExSerdeValue(serde_json::Value);

/// The document a byte body parses to, if it is JSON at all. Parsing is a
/// function of the bytes alone: `Some` exactly when serde_json accepts the
/// body, holding the converted form of the value it returns.
pub uninterp spec fn json_of(body: Seq<u8>) -> Option<Json>;

/// The library's form of a parsed serde_json value: a function of that value
/// alone.
pub uninterp spec fn converted(v: serde_json::Value) -> Json;

/// The parse error text a non-JSON body yields: a function of the bytes
/// alone, meaningful when `json_of` is `None`.
pub uninterp spec fn json_err_of(body: Seq<u8>) -> Seq<char>;

/// Relies on serde_json::from_slice: it parses a byte body as one JSON
/// document, deterministically in the bytes, and fails with a message
/// describing the parse error.
#[verifier::external_body]
fn parse_document(body: &[u8]) -> (r: Result<serde_json::Value, String>)
    ensures
        r is Ok <==> json_of(body@) is Some,
        r matches Ok(v) ==> json_of(body@) == Some(converted(v)),
        r matches Err(m) ==> m@ == json_err_of(body@),
{
    serde_json::from_slice::<serde_json::Value>(body).map_err(|e| e.to_string())
}

/// Relies on serde_json::Value: converts the parsed document, one arm per
/// variant, into the library's own JSON representation. A number becomes its
/// decimal text as serde_json prints it.
#[verifier::external_body]
fn convert_document(v: serde_json::Value) -> (r: Json)
    ensures
        r == converted(v),
{
    match v {
        serde_json::Value::Null => Json::Null,
        serde_json::Value::Bool(b) => Json::Bool(b),
        serde_json::Value::Number(n) => Json::Num(n.to_string()),
        serde_json::Value::String(s) => Json::Str(s),
        serde_json::Value::Array(a) => Json::Arr(a.into_iter().map(convert_document).collect()),
        serde_json::Value::Object(o) => Json::Obj(
            o.into_iter().map(|(k, m)| (k, convert_document(m))).collect(),
        ),
    }
}

/// Parses a request or reply body as JSON: succeeds exactly when the bytes
/// are one JSON document, returning that document.
pub fn parse_json(body: &[u8]) -> (r: Result<Json, String>)
    ensures
        r is Ok <==> json_of(body@) is Some,
        r matches Ok(doc) ==> json_of(body@) == Some(doc),
        r matches Err(m) ==> m@ == json_err_of(body@),
{
    match parse_document(body) {
        Ok(v) => Ok(convert_document(v)),
        Err(m) => Err(m),
    }
}

} // verus!
