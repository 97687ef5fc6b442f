use vstd::prelude::*;
use vstd::string::StringSliceAdditionalSpecFns;

verus! {

/// Compares two byte slices for equality.
pub fn bytes_eq(a: &[u8], b: &[u8]) -> (r: bool)
    ensures
        r == (a@ == b@),
{
    if a.len() != b.len() {
        return false;
    }
    let n: usize = a.len();
    let mut i: usize = 0;
    while i < n
        invariant
            n == a@.len() == b@.len(),
            0 <= i <= n,
            forall|j: int| 0 <= j < i ==> a@[j] == b@[j],
        decreases n - i,
    {
        if a[i] != b[i] {
            return false;
        }
        i += 1;
    }
    assert(a@ =~= b@);
    true
}

/// Compares two strings for equality of their character sequences.
pub fn string_eq(a: &String, b: &String) -> (r: bool)
    ensures
        r == (a@ == b@),
{
    *a == *b
}

/// Compares two string slices for equality of their character sequences.
pub fn str_eq(a: &str, b: &str) -> (r: bool)
    ensures
        r == (a@ == b@),
{
    let r = bytes_eq(a.as_bytes(), b.as_bytes());
    proof {
        broadcast use vstd::utf8::encode_utf8_decode_utf8;

        if a.spec_bytes() == b.spec_bytes() {
            assert(vstd::utf8::decode_utf8(vstd::utf8::encode_utf8(a@))
                == vstd::utf8::decode_utf8(vstd::utf8::encode_utf8(b@)));
        }
    }
    r
}

/// Copies the bytes of `s` between `from` and `to` into a fresh vector.
pub fn sub_vec(s: &[u8], from: usize, to: usize) -> (r: Vec<u8>)
    requires
        from <= to <= s@.len(),
    ensures
        r@ == s@.subrange(from as int, to as int),
{
    let mut out: Vec<u8> = Vec::new();
    let mut i: usize = from;
    while i < to
        invariant
            from <= i <= to <= s@.len(),
            out@.len() == i - from,
            forall|j: int| 0 <= j < out@.len() ==> out@[j] == s@[from + j],
        decreases to - i,
    {
        out.push(s[i]);
        i += 1;
    }
    assert(out@ =~= s@.subrange(from as int, to as int));
    out
}

/// `needle` occurs in `haystack` at position `i`.
pub open spec fn occurs_at(haystack: Seq<u8>, needle: Seq<u8>, i: int) -> bool {
    0 <= i && i + needle.len() <= haystack.len() && haystack.subrange(i, i + needle.len() as int)
        == needle
}

/// Finds an occurrence of `needle` in `haystack`, or reports that there is
/// none.
pub fn find_sub(haystack: &[u8], needle: &[u8]) -> (r: Option<usize>)
    ensures
        r matches Some(i) ==> occurs_at(haystack@, needle@, i as int) && (forall|k: int|
            0 <= k < i ==> !occurs_at(haystack@, needle@, k)),
        r is None ==> forall|i: int| !occurs_at(haystack@, needle@, i),
{
    let h: usize = haystack.len();
    let n: usize = needle.len();
    if n > h {
        assert forall|i: int| !occurs_at(haystack@, needle@, i) by {}
        return None;
    }
    let mut i: usize = 0;
    while i <= h - n
        invariant
            n <= h,
            h == haystack@.len(),
            n == needle@.len(),
            0 <= i <= h - n + 1,
            forall|k: int| 0 <= k < i ==> !occurs_at(haystack@, needle@, k),
        decreases h - i,
    {
        let mut j: usize = 0;
        let mut matched = true;
        while j < n
            invariant
                0 <= j <= n,
                i + n <= h,
                h == haystack@.len(),
                n == needle@.len(),
                matched ==> forall|m: int| 0 <= m < j ==> haystack@[i + m] == needle@[m],
                !matched ==> exists|m: int|
                    0 <= m < n && #[trigger] haystack@[i + m] != needle@[m],
            decreases n - j,
        {
            if haystack[i + j] != needle[j] {
                matched = false;
                j = n;
            } else {
                j += 1;
            }
        }
        if matched {
            assert(occurs_at(haystack@, needle@, i as int)) by {
                assert(haystack@.subrange(i as int, i + n as int) =~= needle@);
            }
            return Some(i);
        }
        proof {
            if occurs_at(haystack@, needle@, i as int) {
                let m = choose|m: int|
                    0 <= m < n && #[trigger] haystack@[i + m] != needle@[m];
                assert(haystack@.subrange(i as int, i + n as int)[m] == haystack@[i + m]);
            }
        }
        i += 1;
    }
    proof {
        assert forall|k: int| !occurs_at(haystack@, needle@, k) by {
            if occurs_at(haystack@, needle@, k) {
                assert(0 <= k < i || k + needle@.len() > haystack@.len());
            }
        }
    }
    None
}

/// Whether `s` starts with `prefix`, byte for byte.
pub fn starts_with_lit(s: &str, prefix: &str) -> (r: bool)
    ensures
        r == (s.spec_bytes().len() >= prefix.spec_bytes().len() && s.spec_bytes().subrange(
            0,
            prefix.spec_bytes().len() as int,
        ) == prefix.spec_bytes()),
{
    let a = s.as_bytes();
    let b = prefix.as_bytes();
    if a.len() < b.len() {
        return false;
    }
    let head = sub_vec(a, 0, b.len());
    bytes_eq(head.as_slice(), b)
}

/// Relies on String::from_utf8: it succeeds exactly on valid UTF-8 input, and
/// the string it returns decodes those bytes.
#[verifier::external_body]
pub fn string_from_utf8(data: Vec<u8>) -> (r: Option<String>)
    ensures
        r is Some <==> vstd::utf8::valid_utf8(data@),
        r matches Some(s) ==> s@ == vstd::utf8::decode_utf8(data@),
{
    String::from_utf8(data).ok()
}

} // verus!
