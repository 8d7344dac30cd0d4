//! Decoding feed messages into fixed-point prices.
//!
//! A feed message is JSON text; the price stands in one top-level string
//! field as a decimal number, for example `"67234.51000000"`. Pulling the
//! field out of the JSON document is delegated to serde_json behind one
//! trusted wrapper; turning the decimal text into ticks is this module's own
//! verified logic. A price has the grammar `digit+ ('.' digit*)?`; the first
//! four fraction digits are kept (one tick is `1 / PRICE_SCALE` of a unit)
//! and further fraction digits are truncated.

use vstd::prelude::*;
use crate::PRICE_SCALE;

verus! {

/// ASCII decimal digit.
pub open spec fn is_ascii_digit(b: u8) -> bool {
    48 <= b && b <= 57
}

/// Numeric value of an ASCII digit.
pub open spec fn digit_val(b: u8) -> int {
    b - 48
}

pub open spec fn all_digits(s: Seq<u8>) -> bool {
    forall|i: int| 0 <= i < s.len() ==> is_ascii_digit(s[i])
}

/// The number written by a string of digits, most significant first.
pub open spec fn digits_val(s: Seq<u8>) -> int
    decreases s.len(),
{
    if s.len() == 0 {
        0
    } else {
        digits_val(s.drop_last()) * 10 + digit_val(s.last())
    }
}

/// Index of the first `.` (ASCII 46), or the length when there is none.
pub open spec fn dot_index(s: Seq<u8>) -> int
    decreases s.len(),
{
    if s.len() == 0 {
        0
    } else if s[0] == 46 {
        0
    } else {
        1 + dot_index(s.skip(1))
    }
}

/// `dot_index` finds exactly the first dot.
pub proof fn lemma_dot_index(s: Seq<u8>)
    ensures
        0 <= dot_index(s) <= s.len(),
        dot_index(s) < s.len() ==> s[dot_index(s)] == 46,
        forall|j: int| 0 <= j < dot_index(s) ==> s[j] != 46,
        forall|j: int| 0 <= j < s.len() && s[j] == 46 ==> dot_index(s) <= j,
    decreases s.len(),
{
    if s.len() == 0 {
    } else if s[0] == 46 {
    } else {
        lemma_dot_index(s.skip(1));
        assert forall|j: int| 0 <= j < dot_index(s) implies s[j] != 46 by {
            if j > 0 {
                assert(s.skip(1)[j - 1] != 46);
            }
        }
        assert forall|j: int| 0 <= j < s.len() && s[j] == 46 implies dot_index(s) <= j by {
            assert(s.skip(1)[j - 1] == 46);
        }
    }
}

/// A digit string of at most four digits writes a number below ten thousand,
/// with tighter bounds for shorter strings.
pub proof fn lemma_digits_val_small(s: Seq<u8>)
    requires
        all_digits(s),
        s.len() <= 4,
    ensures
        0 <= digits_val(s),
        digits_val(s) < 10000,
        s.len() <= 3 ==> digits_val(s) < 1000,
        s.len() <= 2 ==> digits_val(s) < 100,
        s.len() <= 1 ==> digits_val(s) < 10,
        s.len() == 0 ==> digits_val(s) == 0,
    decreases s.len(),
{
    if s.len() == 0 {
    } else {
        lemma_digits_val_small(s.drop_last());
    }
}

/// A digit string writes a nonnegative number.
pub proof fn lemma_digits_val_nonneg(s: Seq<u8>)
    requires
        all_digits(s),
    ensures
        0 <= digits_val(s),
    decreases s.len(),
{
    if s.len() == 0 {
    } else {
        lemma_digits_val_nonneg(s.drop_last());
    }
}

/// Does the byte string have the shape of a price: at least one integer
/// digit, then optionally a dot and fraction digits?
pub open spec fn spec_price_format_ok(s: Seq<u8>) -> bool {
    let d = dot_index(s);
    &&& d > 0
    &&& all_digits(s.take(d))
    &&& (d == s.len() || all_digits(s.skip(d + 1)))
}

/// Ticks contributed by the fraction digits: the first four digits, padded
/// with zeros on the right, further digits truncated.
pub open spec fn frac_ticks(fr: Seq<u8>) -> int {
    if fr.len() >= 4 {
        digits_val(fr.take(4))
    } else if fr.len() == 3 {
        digits_val(fr) * 10
    } else if fr.len() == 2 {
        digits_val(fr) * 100
    } else if fr.len() == 1 {
        digits_val(fr) * 1000
    } else {
        0
    }
}

/// The price written by a well-shaped byte string, in ticks.
pub open spec fn spec_price_value(s: Seq<u8>) -> int {
    let d = dot_index(s);
    if d == s.len() {
        digits_val(s.take(d)) * PRICE_SCALE
    } else {
        digits_val(s.take(d)) * PRICE_SCALE + frac_ticks(s.skip(d + 1))
    }
}

/// The parse of a byte string: its price in ticks when it is well shaped and
/// the price fits in 64 bits, nothing otherwise.
pub open spec fn spec_parse_price(s: Seq<u8>) -> Option<u64> {
    if spec_price_format_ok(s) && spec_price_value(s) <= u64::MAX {
        Some(spec_price_value(s) as u64)
    } else {
        None
    }
}

/// Parse a decimal price string into fixed-point ticks.
pub fn parse_price(s: &Vec<u8>) -> (r: Option<u64>)
    ensures
        r == spec_parse_price(s@),
{
    proof {
        lemma_dot_index(s@);
    }
    let n = s.len();
    if n == 0 {
        return None;
    }
    let mut i: usize = 0;
    let mut acc: u128 = 0;
    let mut big = false;
    while i < n && s[i] != 46
        invariant
            0 <= i <= n,
            n == s@.len(),
            forall|j: int| 0 <= j < i ==> s@[j] != 46 && is_ascii_digit(s@[j]),
            !big ==> acc == digits_val(s@.take(i as int)) && acc <= u64::MAX as u128,
            big ==> digits_val(s@.take(i as int)) > u64::MAX,
        decreases n - i,
    {
        let b = s[i];
        if !(48 <= b && b <= 57) {
            // neither a digit nor the dot: the integer part is malformed
            proof {
                lemma_dot_index(s@);
                assert(dot_index(s@) > i);
                assert(!is_ascii_digit(s@.take(dot_index(s@))[i as int]));
            }
            return None;
        }
        proof {
            assert(s@.take(i + 1).drop_last() =~= s@.take(i as int));
            assert(s@.take(i + 1).last() == s@[i as int]);
        }
        if !big {
            acc = acc * 10 + ((b - 48) as u128);
            if acc > 0xffff_ffff_ffff_ffff {
                big = true;
            }
        }
        i += 1;
    }
    if i == 0 {
        // the string starts with a dot: no integer digit
        return None;
    }
    proof {
        lemma_dot_index(s@);
    }
    if i == n {
        // no fraction: the whole string is the integer part
        proof {
            assert(dot_index(s@) == n);
            assert(s@.take(n as int) =~= s@);
        }
        if big {
            proof {
                lemma_digits_val_nonneg(s@.take(n as int));
            }
            return None;
        }
        let total: u128 = acc * (PRICE_SCALE as u128);
        if total > 0xffff_ffff_ffff_ffff {
            return None;
        }
        return Some(total as u64);
    }
    // s[i] is the dot; scan the fraction and keep the first four digits
    proof {
        assert(dot_index(s@) == i);
        assert(all_digits(s@.take(i as int)));
    }
    let ghost fr = s@.skip(i + 1);
    let mut j: usize = i + 1;
    let mut frac: u64 = 0;
    while j < n
        invariant
            0 < i < n,
            i + 1 <= j <= n,
            n == s@.len(),
            dot_index(s@) == i,
            all_digits(s@.take(i as int)),
            !big ==> acc == digits_val(s@.take(i as int)) && acc <= u64::MAX as u128,
            big ==> digits_val(s@.take(i as int)) > u64::MAX,
            fr == s@.skip(i + 1),
            fr.len() == n - i - 1,
            forall|t: int| i + 1 <= t < j ==> is_ascii_digit(s@[t]),
            frac == digits_val(fr.take(if j - i - 1 < 4 { j - i - 1 } else { 4 })),
            frac < 10000,
        decreases n - j,
    {
        let b = s[j];
        if !(48 <= b && b <= 57) {
            // a second dot or other junk in the fraction
            proof {
                assert(!is_ascii_digit(fr[j - i - 1]));
                assert(!all_digits(fr));
            }
            return None;
        }
        let k = j - i - 1;
        if k < 4 {
            proof {
                assert(fr.take(k + 1).drop_last() =~= fr.take(k as int));
                assert(fr.take(k + 1).last() == s@[j as int]);
                assert(all_digits(fr.take(k + 1)));
                lemma_digits_val_small(fr.take(k + 1));
            }
            frac = frac * 10 + ((b - 48) as u64);
        }
        j += 1;
    }
    proof {
        assert(all_digits(fr));
        lemma_digits_val_nonneg(fr.take(if fr.len() < 4 { fr.len() as int } else { 4 }));
        if fr.len() < 4 {
            assert(fr.take(fr.len() as int) =~= fr);
            lemma_digits_val_small(fr);
        }
    }
    let klen = n - i - 1;
    let scaled: u64 = if klen >= 4 {
        frac
    } else if klen == 3 {
        frac * 10
    } else if klen == 2 {
        frac * 100
    } else if klen == 1 {
        frac * 1000
    } else {
        0
    };
    proof {
        assert(scaled == frac_ticks(fr));
        assert(scaled < 10000);
    }
    if big {
        proof {
            lemma_digits_val_nonneg(s@.take(i as int));
        }
        return None;
    }
    proof {
        assert(acc * (PRICE_SCALE as u128) <= 0xffff_ffff_ffff_ffff * 10000) by (nonlinear_arith)
            requires
                acc <= 0xffff_ffff_ffff_ffffu128,
                PRICE_SCALE == 10000,
        ;
    }
    let total: u128 = acc * (PRICE_SCALE as u128) + (scaled as u128);
    if total > 0xffff_ffff_ffff_ffff {
        return None;
    }
    Some(total as u64)
}

/// The UTF-8 bytes of the string held by the given top-level field of a JSON
/// message, when the message parses as a JSON object and holds a string
/// there; nothing otherwise. A function of the message text and the key
/// alone.
pub uninterp spec fn json_field_bytes(msg: Seq<char>, key: Seq<char>) -> Option<Seq<u8>>;

/// Relies on serde_json::from_str, serde_json::Value::get and
/// serde_json::Value::as_str: pull the string value of one top-level field
/// out of a JSON message. Each of the three is deterministic in its
/// arguments, so the composite is named by `json_field_bytes`.
#[verifier::external_body]
fn json_string_field(text: &str, key: &str) -> (r: Option<Vec<u8>>)
    ensures
        (match (r, json_field_bytes(text@, key@)) {
            (Some(v), Some(b)) => v@ == b,
            (None, None) => true,
            _ => false,
        }),
{
    match serde_json::from_str::<serde_json::Value>(text) {
        Ok(doc) => doc.get(key).and_then(|f| f.as_str()).map(|s| s.as_bytes().to_vec()),
        Err(_) => None,
    }
}

/// Decode one feed message: extract the string field `key` from the JSON
/// text and parse it as a fixed-point price. Nothing comes back when the
/// message does not parse, lacks the field, the field does not hold a
/// well-shaped decimal, or the price is zero or does not fit; a decoded
/// price is always positive.
pub fn decode_price_field(text: &str, key: &str) -> (r: Option<u64>)
    ensures
        (match json_field_bytes(text@, key@) {
            Some(b) => (match spec_parse_price(b) {
                Some(p) => r == (if p > 0 {
                    Some(p)
                } else {
                    None::<u64>
                }),
                None => r is None,
            }),
            None => r is None,
        }),
        r matches Some(p) ==> p > 0,
{
    match json_string_field(text, key) {
        Some(bytes) => match parse_price(&bytes) {
            Some(p) => if p > 0 {
                Some(p)
            } else {
                None
            },
            None => None,
        },
        None => None,
    }
}

} // verus!
