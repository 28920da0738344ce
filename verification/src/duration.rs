//! Durations in whole milliseconds.
//!
//! Track metadata reports durations as decimal strings of seconds
//! (`"8.000"`); transcoder invocations want them back as decimal seconds
//! with no trailing zeros (`"8"`, `"7.9"`).  Both directions are verified
//! against one millisecond-precision model.  A fraction longer than three
//! digits is truncated to milliseconds.

use vstd::prelude::*;

use crate::text::{
    all_digits, dec_value, digit_char, digit_val, find_first, first_index_of, is_dec_digit,
    lemma_dec_value_nonneg, parse_u64, push_char, spec_dec_digit, spec_dec_string, u64_to_string,
};

verus! {

/// Powers of ten.
pub open spec fn pow10(n: nat) -> int
    decreases n,
{
    if n == 0 {
        1
    } else {
        10 * pow10((n - 1) as nat)
    }
}

/// The small powers of ten that millisecond fractions use.
pub proof fn lemma_pow10_small()
    ensures
        pow10(0) == 1,
        pow10(1) == 10,
        pow10(2) == 100,
        pow10(3) == 1000,
{
    assert(pow10(0) == 1);
    assert(pow10(1) == 10);
    assert(pow10(2) == 100);
    assert(pow10(3) == 1000);
}

/// A digit string of length `n` denotes less than `10^n`.
pub proof fn lemma_dec_value_bound(s: Seq<char>)
    requires
        all_digits(s),
    ensures
        dec_value(s) < pow10(s.len()),
    decreases s.len(),
{
    if s.len() > 0 {
        assert(all_digits(s.drop_last()));
        lemma_dec_value_bound(s.drop_last());
        lemma_dec_value_nonneg(s.drop_last());
    }
}

/// Well-formed decimal seconds: digits with at most one point and at
/// least one digit (`"8"`, `"8."`, `".5"`, `"7.95"`).
pub open spec fn spec_duration_wf(s: Seq<char>) -> bool {
    let d = first_index_of(s, '.');
    if d < 0 {
        s.len() > 0 && all_digits(s)
    } else {
        all_digits(s.take(d)) && all_digits(s.skip(d + 1)) && s.len() > 1
    }
}

/// Milliseconds denoted by the first three fraction digits, right-padded
/// with zeros; further digits are truncated.
pub open spec fn spec_frac_ms(f: Seq<char>) -> int {
    if f.len() >= 3 {
        dec_value(f.take(3))
    } else if f.len() == 2 {
        dec_value(f) * 10
    } else if f.len() == 1 {
        dec_value(f) * 100
    } else {
        0
    }
}

/// Milliseconds denoted by a well-formed decimal seconds string.
pub open spec fn spec_duration_ms(s: Seq<char>) -> int {
    let d = first_index_of(s, '.');
    if d < 0 {
        dec_value(s) * 1000
    } else {
        dec_value(s.take(d)) * 1000 + spec_frac_ms(s.skip(d + 1))
    }
}

/// Whether every character of `s` is a decimal digit.
fn check_all_digits(s: &str) -> (b: bool)
    ensures
        b == all_digits(s@),
{
    let n = s.unicode_len();
    let mut i: usize = 0;
    while i < n
        invariant
            n == s@.len(),
            0 <= i <= n,
            forall|j: int| 0 <= j < i ==> is_dec_digit(#[trigger] s@[j]),
        decreases n - i,
    {
        if digit_val(s.get_char(i)) >= 10 {
            assert(!is_dec_digit(s@[i as int]));
            return false;
        }
        i = i + 1;
    }
    true
}

/// Parses a decimal seconds string into milliseconds.  Returns the exact
/// millisecond count when the string is well formed and the count fits in
/// `u64`; anything else is unparsable.
pub fn parse_duration_ms(s: &str) -> (r: Option<u64>)
    ensures
        r is Some <==> spec_duration_wf(s@) && spec_duration_ms(s@) <= u64::MAX,
        r is Some ==> r->0 == spec_duration_ms(s@),
{
    let n = s.unicode_len();
    match find_first(s, '.') {
        None => {
            match parse_u64(s) {
                None => {
                    proof {
                        if all_digits(s@) && s@.len() > 0 {
                            lemma_dec_value_nonneg(s@);
                        }
                    }
                    None
                },
                Some(v) => {
                    if v <= u64::MAX / 1000 {
                        Some(v * 1000)
                    } else {
                        None
                    }
                },
            }
        },
        Some(d) => {
            let ghost ipg = s@.take(d as int);
            let ghost fpg = s@.skip(d + 1);
            let k = n - d - 1;
            if d == 0 && k == 0 {
                return None;
            }
            let ip = s.substring_char(0, d);
            proof {
                assert(ip@ =~= ipg);
            }
            let ipv: u64 = if d == 0 {
                proof {
                    assert(dec_value(ipg) == 0);
                }
                0
            } else {
                match parse_u64(ip) {
                    None => {
                        proof {
                            if spec_duration_wf(s@) {
                                lemma_dec_value_nonneg(ipg);
                                if spec_frac_ms(fpg) >= 0 {
                                } else {
                                    frac_ms_nonneg(fpg);
                                }
                            }
                        }
                        return None;
                    },
                    Some(v) => v,
                }
            };
            let fp = s.substring_char(d + 1, n);
            proof {
                assert(fp@ =~= fpg);
            }
            if !check_all_digits(fp) {
                return None;
            }
            let fracv: u64 = if k == 0 {
                0
            } else {
                let f3 = if k >= 3 {
                    s.substring_char(d + 1, d + 4)
                } else {
                    s.substring_char(d + 1, n)
                };
                proof {
                    if k >= 3 {
                        assert(f3@ =~= fpg.take(3));
                        assert(all_digits(fpg.take(3)));
                    } else {
                        assert(f3@ =~= fpg);
                    }
                    lemma_dec_value_bound(f3@);
                    lemma_dec_value_nonneg(f3@);
                    lemma_pow10_small();
                }
                // A non-empty string of at most three digits always
                // parses and stays below one thousand.
                let base = match parse_u64(f3) {
                    Some(v) => v,
                    None => {
                        proof {
                            assert(false);
                        }
                        0
                    },
                };
                if k >= 3 {
                    base
                } else if k == 2 {
                    base * 10
                } else {
                    base * 100
                }
            };
            proof {
                assert(fracv == spec_frac_ms(fpg));
                frac_ms_nonneg(fpg);
                frac_ms_bound(fpg);
            }
            if ipv <= (u64::MAX - fracv) / 1000 {
                Some(ipv * 1000 + fracv)
            } else {
                None
            }
        },
    }
}

/// The fraction part of a well-formed duration is non-negative.
proof fn frac_ms_nonneg(f: Seq<char>)
    requires
        all_digits(f),
    ensures
        spec_frac_ms(f) >= 0,
{
    if f.len() >= 3 {
        assert(all_digits(f.take(3)));
        lemma_dec_value_nonneg(f.take(3));
    } else {
        lemma_dec_value_nonneg(f);
    }
}

/// The fraction part of a well-formed duration is under one second.
proof fn frac_ms_bound(f: Seq<char>)
    requires
        all_digits(f),
    ensures
        spec_frac_ms(f) <= 999,
{
    lemma_pow10_small();
    if f.len() >= 3 {
        assert(all_digits(f.take(3)));
        lemma_dec_value_bound(f.take(3));
    } else {
        lemma_dec_value_bound(f);
    }
}

/// Decimal seconds rendering of `ms % 1000` with trailing zeros dropped,
/// for a non-whole second count.
pub open spec fn spec_frac_digits(f: int) -> Seq<char> {
    if f % 10 != 0 {
        seq![spec_dec_digit(f / 100), spec_dec_digit((f / 10) % 10), spec_dec_digit(f % 10)]
    } else if f % 100 != 0 {
        seq![spec_dec_digit(f / 100), spec_dec_digit((f / 10) % 10)]
    } else {
        seq![spec_dec_digit(f / 100)]
    }
}

/// Decimal seconds rendering of a millisecond count: whole seconds, then
/// a point and the non-zero fraction digits (`8000` to `"8"`, `7950` to
/// `"7.95"`).
pub open spec fn spec_format_seconds(ms: int) -> Seq<char> {
    if ms % 1000 == 0 {
        spec_dec_string(ms / 1000)
    } else {
        spec_dec_string(ms / 1000) + seq!['.'] + spec_frac_digits(ms % 1000)
    }
}

/// Signed decimal seconds rendering.
pub open spec fn spec_format_signed_seconds(d: int) -> Seq<char> {
    if d < 0 {
        seq!['-'] + spec_format_seconds(-d)
    } else {
        spec_format_seconds(d)
    }
}

/// Renders a millisecond count as decimal seconds.
pub fn format_seconds(ms: u64) -> (s: String)
    ensures
        s@ == spec_format_seconds(ms as int),
{
    let whole = ms / 1000;
    let f = ms % 1000;
    let mut s = u64_to_string(whole);
    if f != 0 {
        push_char(&mut s, '.');
        push_char(&mut s, digit_char(f / 100));
        if f % 10 != 0 {
            push_char(&mut s, digit_char((f / 10) % 10));
            push_char(&mut s, digit_char(f % 10));
        } else if f % 100 != 0 {
            push_char(&mut s, digit_char((f / 10) % 10));
        }
        assert(s@ =~= spec_format_seconds(ms as int));
    }
    s
}

/// Renders a signed millisecond count as decimal seconds.
pub fn format_signed_seconds(d: i128) -> (s: String)
    requires
        -(u64::MAX as int) <= d <= u64::MAX as int,
    ensures
        s@ == spec_format_signed_seconds(d as int),
{
    if d < 0 {
        let mut s = String::new();
        push_char(&mut s, '-');
        let rest = format_seconds((-d) as u64);
        s.append(rest.as_str());
        assert(s@ =~= spec_format_signed_seconds(d as int));
        s
    } else {
        format_seconds(d as u64)
    }
}

} // verus!
