use vstd::prelude::*;

verus! {

/// ASCII decimal digit.
pub open spec fn is_digit(b: u8) -> bool {
    0x30 <= b <= 0x39
}

pub open spec fn all_digits(s: Seq<u8>) -> bool {
    forall|i: int| 0 <= i < s.len() ==> is_digit(#[trigger] s[i])
}

/// The value of an ASCII digit string, most significant digit first.
pub open spec fn dec_value(s: Seq<u8>) -> int
    decreases s.len(),
{
    if s.len() == 0 {
        0
    } else {
        dec_value(s.drop_last()) * 10 + (s.last() - 0x30)
    }
}

/// The canonical decimal digits of a non-negative number.
pub open spec fn dec_repr(n: int) -> Seq<u8>
    decreases n,
{
    if n < 10 {
        seq![(0x30 + if n >= 0 { n } else { 0 }) as u8]
    } else {
        dec_repr(n / 10).push((0x30 + n % 10) as u8)
    }
}

/// The decimal digits of an integer, with a leading minus sign if negative.
pub open spec fn dec_repr_signed(v: int) -> Seq<u8> {
    if v < 0 {
        seq![0x2du8] + dec_repr(-v)
    } else {
        dec_repr(v)
    }
}

/// The digits of a number after an optional leading plus sign, as accepted by
/// the decimal parsers.
pub open spec fn unsigned_body(s: Seq<u8>) -> Seq<u8> {
    if s.len() > 0 && s[0] == 0x2b {
        s.subrange(1, s.len() as int)
    } else {
        s
    }
}

pub proof fn lemma_dec_value_nonneg(s: Seq<u8>)
    requires
        all_digits(s),
    ensures
        dec_value(s) >= 0,
    decreases s.len(),
{
    if s.len() > 0 {
        assert(all_digits(s.drop_last())) by {
            assert(forall|i: int| 0 <= i < s.len() - 1 ==> s.drop_last()[i] == s[i]);
        }
        lemma_dec_value_nonneg(s.drop_last());
    }
}

/// A digit string is worth at least any of its prefixes.
pub proof fn lemma_dec_value_prefix_le(s: Seq<u8>, i: int)
    requires
        all_digits(s),
        0 <= i <= s.len(),
    ensures
        dec_value(s.subrange(0, i)) <= dec_value(s),
    decreases s.len() - i,
{
    if i < s.len() {
        let t = s.drop_last();
        assert(all_digits(t)) by {
            assert(forall|j: int| 0 <= j < t.len() ==> t[j] == s[j]);
        }
        lemma_dec_value_nonneg(t);
        assert(dec_value(s) == dec_value(t) * 10 + (s.last() - 0x30));
        assert(dec_value(t) <= dec_value(s)) by (nonlinear_arith)
            requires
                dec_value(s) == dec_value(t) * 10 + (s.last() - 0x30),
                dec_value(t) >= 0,
                0x30 <= s.last() <= 0x39,
        ;
        lemma_dec_value_prefix_le(t, i);
        assert(t.subrange(0, i) =~= s.subrange(0, i));
    } else {
        assert(s.subrange(0, i) =~= s);
    }
}

/// Parses the decimal digits of `s` starting at `from`, with an exact account
/// of when the parse succeeds: at least one digit, nothing but digits, and a
/// value that fits in a `u64`.
fn parse_digits(s: &[u8], from: usize) -> (r: Option<u64>)
    requires
        from <= s@.len(),
    ensures
        ({
            let body = s@.subrange(from as int, s@.len() as int);
            match r {
                Some(v) => body.len() > 0 && all_digits(body) && v == dec_value(body),
                None => !(body.len() > 0 && all_digits(body) && dec_value(body) <= u64::MAX),
            }
        }),
{
    let ghost body = s@.subrange(from as int, s@.len() as int);
    let n: usize = s.len();
    if from == n {
        return None;
    }
    let mut acc: u64 = 0;
    let mut i: usize = from;
    while i < n
        invariant
            from <= i <= n,
            n == s@.len(),
            from < n,
            body == s@.subrange(from as int, n as int),
            all_digits(body.subrange(0, i - from)),
            acc == dec_value(body.subrange(0, i - from)),
        decreases n - i,
    {
        let b = s[i];
        if b < 0x30 || b > 0x39 {
            assert(body[i - from] == s@[i as int]);
            return None;
        }
        let d: u64 = (b - 0x30) as u64;
        let ghost pre = body.subrange(0, i - from);
        let ghost cur = body.subrange(0, i + 1 - from);
        assert(cur.drop_last() =~= pre);
        assert(cur.last() == s@[i as int]);
        if acc > (u64::MAX - d) / 10 {
            proof {
                assert(dec_value(cur) == acc * 10 + d);
                assert(acc * 10 + d > u64::MAX) by (nonlinear_arith)
                    requires
                        acc > (u64::MAX - d) / 10,
                        0 <= d <= 9,
                ;
                assert(all_digits(cur)) by {
                    assert(forall|j: int| 0 <= j < cur.len() - 1 ==> cur[j] == pre[j]);
                }
                if all_digits(body) {
                    lemma_dec_value_prefix_le(body, i + 1 - from);
                }
            }
            return None;
        }
        proof {
            assert(acc * 10 + d <= u64::MAX) by (nonlinear_arith)
                requires
                    acc <= (u64::MAX - d) / 10,
                    0 <= d <= 9,
            ;
        }
        acc = acc * 10 + d;
        i += 1;
    }
    assert(body.subrange(0, n - from) =~= body);
    Some(acc)
}

/// Parses an unsigned 64-bit decimal number: an optional leading `+`, then
/// digits only. Succeeds exactly when the digits are non-empty and the value
/// fits.
pub fn parse_u64(s: &[u8]) -> (r: Option<u64>)
    ensures
        ({
            let body = unsigned_body(s@);
            match r {
                Some(v) => body.len() > 0 && all_digits(body) && v == dec_value(body),
                None => !(body.len() > 0 && all_digits(body) && dec_value(body) <= u64::MAX),
            }
        }),
{
    if s.len() > 0 && s[0] == 0x2b {
        assert(unsigned_body(s@) =~= s@.subrange(1, s@.len() as int));
        parse_digits(s, 1)
    } else {
        assert(unsigned_body(s@) =~= s@.subrange(0, s@.len() as int));
        parse_digits(s, 0)
    }
}

/// The digits of a signed decimal after its optional sign.
pub open spec fn signed_body(s: Seq<u8>) -> Seq<u8> {
    if s.len() > 0 && (s[0] == 0x2b || s[0] == 0x2d) {
        s.subrange(1, s.len() as int)
    } else {
        s
    }
}

/// The signed value of a decimal string (digits after an optional sign).
pub open spec fn signed_value(s: Seq<u8>) -> int {
    if s.len() > 0 && s[0] == 0x2d {
        -dec_value(signed_body(s))
    } else {
        dec_value(signed_body(s))
    }
}

/// Parses a signed 32-bit decimal number: an optional `+` or `-`, then digits
/// only. Succeeds exactly when the digits are non-empty and the signed value
/// fits in an `i32`.
pub fn parse_i32(s: &[u8]) -> (r: Option<i32>)
    ensures
        ({
            let body = signed_body(s@);
            match r {
                Some(v) => body.len() > 0 && all_digits(body) && v == signed_value(s@),
                None => !(body.len() > 0 && all_digits(body) && i32::MIN <= signed_value(s@)
                    <= i32::MAX),
            }
        }),
{
    let negative = s.len() > 0 && s[0] == 0x2d;
    let mag: Option<u64> = if s.len() > 0 && (s[0] == 0x2b || s[0] == 0x2d) {
        assert(signed_body(s@) =~= s@.subrange(1, s@.len() as int));
        parse_digits(s, 1)
    } else {
        assert(signed_body(s@) =~= s@.subrange(0, s@.len() as int));
        parse_digits(s, 0)
    };
    match mag {
        Some(v) => {
            if negative {
                if v > 0x8000_0000u64 {
                    return None;
                }
                Some((-(v as i64)) as i32)
            } else {
                if v > 0x7fff_ffffu64 {
                    return None;
                }
                Some(v as i32)
            }
        },
        None => {
            proof {
                if signed_body(s@).len() > 0 && all_digits(signed_body(s@)) {
                    lemma_dec_value_nonneg(signed_body(s@));
                }
            }
            None
        },
    }
}

/// Appends the canonical decimal digits of `n`.
pub fn push_dec(out: &mut Vec<u8>, n: u64)
    ensures
        final(out)@ == old(out)@ + dec_repr(n as int),
    decreases n,
{
    if n >= 10 {
        push_dec(out, n / 10);
    }
    out.push(0x30 + (n % 10) as u8);
    proof {
        if n >= 10 {
            assert(final(out)@ =~= old(out)@ + dec_repr(n as int));
        } else {
            assert(dec_repr(n as int) =~= seq![(0x30 + n as int) as u8]);
            assert(final(out)@ =~= old(out)@ + dec_repr(n as int));
        }
    }
}

/// Appends the decimal form of `v`, with a leading minus sign if negative.
pub fn push_dec_i32(out: &mut Vec<u8>, v: i32)
    ensures
        final(out)@ == old(out)@ + dec_repr_signed(v as int),
{
    if v < 0 {
        out.push(0x2d);
        let mag: u64 = (-(v as i64)) as u64;
        push_dec(out, mag);
        assert(final(out)@ =~= old(out)@ + dec_repr_signed(v as int));
    } else {
        push_dec(out, v as u64);
    }
}

/// One step of the JSON number grammar, written as a deterministic automaton.
/// State -1 is the dead state; 2, 3, 5 and 8 accept (integer, integer run,
/// fraction digits, exponent digits).
pub open spec fn num_step(st: int, b: u8) -> int {
    if st == 0 {
        if b == 0x2d {
            1
        } else if b == 0x30 {
            2
        } else if 0x31 <= b <= 0x39 {
            3
        } else {
            -1
        }
    } else if st == 1 {
        if b == 0x30 {
            2
        } else if 0x31 <= b <= 0x39 {
            3
        } else {
            -1
        }
    } else if st == 2 {
        if b == 0x2e {
            4
        } else if b == 0x65 || b == 0x45 {
            6
        } else {
            -1
        }
    } else if st == 3 {
        if is_digit(b) {
            3
        } else if b == 0x2e {
            4
        } else if b == 0x65 || b == 0x45 {
            6
        } else {
            -1
        }
    } else if st == 4 {
        if is_digit(b) {
            5
        } else {
            -1
        }
    } else if st == 5 {
        if is_digit(b) {
            5
        } else if b == 0x65 || b == 0x45 {
            6
        } else {
            -1
        }
    } else if st == 6 {
        if b == 0x2b || b == 0x2d {
            7
        } else if is_digit(b) {
            8
        } else {
            -1
        }
    } else if st == 7 || st == 8 {
        if is_digit(b) {
            8
        } else {
            -1
        }
    } else {
        -1
    }
}

pub open spec fn num_run(s: Seq<u8>, st: int) -> int
    decreases s.len(),
{
    if s.len() == 0 {
        st
    } else {
        num_run(s.drop_first(), num_step(st, s[0]))
    }
}

/// Whether `s` is a number under the JSON grammar: `-?(0|[1-9][0-9]*)`
/// followed by an optional fraction and an optional exponent.
pub open spec fn is_json_number(s: Seq<u8>) -> bool {
    let f = num_run(s, 0);
    f == 2 || f == 3 || f == 5 || f == 8
}

/// Checks `s` against the JSON number grammar.
pub fn check_json_number(s: &[u8]) -> (r: bool)
    ensures
        r == is_json_number(s@),
{
    let n: usize = s.len();
    let mut st: i8 = 0;
    let mut i: usize = 0;
    assert(s@.subrange(0, n as int) =~= s@);
    while i < n
        invariant
            0 <= i <= n,
            n == s@.len(),
            -1 <= st <= 8,
            num_run(s@, 0) == num_run(s@.subrange(i as int, n as int), st as int),
        decreases n - i,
    {
        let ghost rest = s@.subrange(i as int, n as int);
        let b = s[i];
        let next: i8 = if st == 0 {
            if b == 0x2d {
                1
            } else if b == 0x30 {
                2
            } else if 0x31 <= b && b <= 0x39 {
                3
            } else {
                -1
            }
        } else if st == 1 {
            if b == 0x30 {
                2
            } else if 0x31 <= b && b <= 0x39 {
                3
            } else {
                -1
            }
        } else if st == 2 {
            if b == 0x2e {
                4
            } else if b == 0x65 || b == 0x45 {
                6
            } else {
                -1
            }
        } else if st == 3 {
            if 0x30 <= b && b <= 0x39 {
                3
            } else if b == 0x2e {
                4
            } else if b == 0x65 || b == 0x45 {
                6
            } else {
                -1
            }
        } else if st == 4 {
            if 0x30 <= b && b <= 0x39 {
                5
            } else {
                -1
            }
        } else if st == 5 {
            if 0x30 <= b && b <= 0x39 {
                5
            } else if b == 0x65 || b == 0x45 {
                6
            } else {
                -1
            }
        } else if st == 6 {
            if b == 0x2b || b == 0x2d {
                7
            } else if 0x30 <= b && b <= 0x39 {
                8
            } else {
                -1
            }
        } else if st == 7 || st == 8 {
            if 0x30 <= b && b <= 0x39 {
                8
            } else {
                -1
            }
        } else {
            -1
        };
        proof {
            assert(rest.drop_first() =~= s@.subrange(i as int + 1, n as int));
            assert(rest[0] == s@[i as int]);
            assert(next as int == num_step(st as int, b));
        }
        st = next;
        i += 1;
    }
    proof {
        assert(s@.subrange(n as int, n as int) =~= Seq::<u8>::empty());
    }
    st == 2 || st == 3 || st == 5 || st == 8
}

} // verus!
