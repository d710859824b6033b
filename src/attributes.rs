//! Reads structured signals out of free-text product attributes: an age
//! range out of a target-audience description and a price tier out of a
//! price-range description. Both are total: text without a recognisable
//! pattern yields a fixed default.

use vstd::prelude::*;
use vstd::string::*;
use crate::text::{has_substr, lower_of, lowercase, str_contains, chars_of};

verus! {

/// Coarse price bucket of a product.
#[derive(Clone, Copy, Debug, PartialEq, Eq, Structural)]
pub enum PriceTier {
    /// Under $50.
    Low,
    /// $50 up to $150.
    Medium,
    /// $150 up to $500.
    High,
    /// $500 and more.
    Premium,
}

/// An ASCII decimal digit.
pub open spec fn is_digit(c: char) -> bool {
    48 <= (c as u32) <= 57
}

/// Value of an ASCII decimal digit.
pub open spec fn digit_val(c: char) -> int {
    (c as u32) as int - 48
}

/// A hyphen or an en-dash.
pub open spec fn is_dash(c: char) -> bool {
    c == '-' || c == '\u{2013}'
}

/// A character of the Unicode `White_Space` property, the class that `\s`
/// matches in the regex crate.
pub open spec fn is_space(c: char) -> bool {
    let u = c as u32;
    (9 <= u <= 13) || u == 32 || u == 0x85 || u == 0xa0 || u == 0x1680 || (0x2000 <= u <= 0x200a)
        || u == 0x2028 || u == 0x2029 || u == 0x202f || u == 0x205f || u == 0x3000
}

/// The first position at or after `k` that holds no whitespace.
pub open spec fn skip_spaces(s: Seq<char>, k: int) -> int
    decreases s.len() - k,
{
    if 0 <= k < s.len() && is_space(s[k]) {
        skip_spaces(s, k + 1)
    } else {
        k
    }
}

/// An age span `NN-NN` starts at `i`: two digits, a dash, optional
/// whitespace, two digits.
pub open spec fn age_span_at(s: Seq<char>, i: int) -> bool {
    &&& 0 <= i
    &&& i + 3 <= s.len()
    &&& is_digit(s[i])
    &&& is_digit(s[i + 1])
    &&& is_dash(s[i + 2])
    &&& skip_spaces(s, i + 3) + 2 <= s.len()
    &&& is_digit(s[skip_spaces(s, i + 3)])
    &&& is_digit(s[skip_spaces(s, i + 3) + 1])
}

/// The leftmost age span at or after `i`: where its first and its second
/// number start.
pub open spec fn first_age_span(s: Seq<char>, i: int) -> Option<(int, int)>
    decreases s.len() - i,
{
    if i < 0 || i >= s.len() {
        None
    } else if age_span_at(s, i) {
        Some((i, skip_spaces(s, i + 3)))
    } else {
        first_age_span(s, i + 1)
    }
}

/// The leftmost ASCII digit at or after `i`.
pub open spec fn first_digit(s: Seq<char>, i: int) -> Option<int>
    decreases s.len() - i,
{
    if i < 0 || i >= s.len() {
        None
    } else if is_digit(s[i]) {
        Some(i)
    } else {
        first_digit(s, i + 1)
    }
}

/// The end of the run of ASCII digits that starts at `k`.
pub open spec fn digit_run_end(s: Seq<char>, k: int) -> int
    decreases s.len() - k,
{
    if 0 <= k < s.len() && is_digit(s[k]) {
        digit_run_end(s, k + 1)
    } else {
        k
    }
}

/// Value of a string of ASCII digits.
pub open spec fn digits_value(d: Seq<char>) -> int
    decreases d.len(),
{
    if d.len() == 0 {
        0
    } else {
        digits_value(d.drop_last()) * 10 + digit_val(d.last())
    }
}

/// Value of the two digits at `i`.
pub open spec fn two_digits(s: Seq<char>, i: int) -> i32 {
    (10 * digit_val(s[i]) + digit_val(s[i + 1])) as i32
}

/// The age range that a lower-case audience description names: its first
/// `NN-NN` span, else the age band of a generation keyword, else 25 to 45.
pub open spec fn age_range_in(s: Seq<char>) -> (i32, i32) {
    match first_age_span(s, 0) {
        Some((i, j)) => (two_digits(s, i), two_digits(s, j)),
        None => {
            if has_substr(s, "gen z"@) || has_substr(s, "genz"@) || has_substr(s, "zoomer"@) {
                (18, 25)
            } else if has_substr(s, "millennial"@) {
                (26, 40)
            } else if has_substr(s, "gen x"@) || has_substr(s, "genx"@) {
                (41, 55)
            } else if has_substr(s, "boomer"@) || has_substr(s, "senior"@) {
                (56, 70)
            } else {
                (25, 45)
            }
        },
    }
}

/// The tier of a price in dollars.
pub open spec fn tier_of_price(v: int) -> PriceTier {
    if v < 50 {
        PriceTier::Low
    } else if v < 150 {
        PriceTier::Medium
    } else if v < 500 {
        PriceTier::High
    } else {
        PriceTier::Premium
    }
}

/// The tier that a price description names: that of its first run of
/// digits, however large, and `Medium` where it has none.
pub open spec fn price_tier_in(s: Seq<char>) -> PriceTier {
    match first_digit(s, 0) {
        None => PriceTier::Medium,
        Some(k) => tier_of_price(digits_value(s.subrange(k, digit_run_end(s, k)))),
    }
}

/// Relies on `regex::Regex::captures` with the pattern
/// `([0-9]{2})[-\u{2013}]\s*([0-9]{2})`: the two groups of its leftmost match.
#[verifier::external_body]
fn find_age_span(s: &str) -> (r: Option<(String, String)>)
    ensures
        match first_age_span(s@, 0) {
            None => r is None,
            Some((i, j)) => match r {
                Some((a, b)) => a@ == s@.subrange(i, i + 2) && b@ == s@.subrange(j, j + 2),
                None => false,
            },
        },
{
    let re = regex::Regex::new("([0-9]{2})[-\u{2013}]\\s*([0-9]{2})").ok()?;
    let caps = re.captures(s)?;
    Some((caps.get(1)?.as_str().to_string(), caps.get(2)?.as_str().to_string()))
}

/// Relies on `regex::Regex::captures` with the pattern `\$?([0-9]+)`: the
/// group of its leftmost match, the first run of ASCII digits.
#[verifier::external_body]
fn find_first_number(s: &str) -> (r: Option<String>)
    ensures
        match first_digit(s@, 0) {
            None => r is None,
            Some(k) => r is Some && r->0@ == s@.subrange(k, digit_run_end(s@, k)),
        },
{
    let re = regex::Regex::new("\\$?([0-9]+)").ok()?;
    let caps = re.captures(s)?;
    Some(caps.get(1)?.as_str().to_string())
}

proof fn lemma_skip_spaces_bounds(s: Seq<char>, k: int)
    requires
        0 <= k <= s.len(),
    ensures
        k <= skip_spaces(s, k) <= s.len(),
    decreases s.len() - k,
{
    if k < s.len() && is_space(s[k]) {
        lemma_skip_spaces_bounds(s, k + 1);
    }
}

proof fn lemma_first_age_span_is_span(s: Seq<char>, i: int)
    requires
        0 <= i,
    ensures
        first_age_span(s, i) matches Some((a, b)) ==> age_span_at(s, a) && b == skip_spaces(
            s,
            a + 3,
        ),
    decreases s.len() - i,
{
    if i < s.len() && !age_span_at(s, i) {
        lemma_first_age_span_is_span(s, i + 1);
    }
}

proof fn lemma_first_digit_is_digit(s: Seq<char>, i: int)
    requires
        0 <= i,
    ensures
        first_digit(s, i) matches Some(k) ==> 0 <= k < s.len() && is_digit(s[k]),
    decreases s.len() - i,
{
    if i < s.len() && !is_digit(s[i]) {
        lemma_first_digit_is_digit(s, i + 1);
    }
}

proof fn lemma_digit_run(s: Seq<char>, k: int)
    requires
        0 <= k <= s.len(),
    ensures
        k <= digit_run_end(s, k) <= s.len(),
        forall|m: int| k <= m < digit_run_end(s, k) ==> is_digit(#[trigger] s[m]),
    decreases s.len() - k,
{
    if k < s.len() && is_digit(s[k]) {
        lemma_digit_run(s, k + 1);
    }
}

/// Value of two ASCII digits.
fn two_digit_value(d: &str) -> (r: i32)
    requires
        d@.len() == 2,
        is_digit(d@[0]),
        is_digit(d@[1]),
    ensures
        r == two_digits(d@, 0),
{
    let a = d.get_char(0) as u32 - 48;
    let b = d.get_char(1) as u32 - 48;
    (10 * a + b) as i32
}

/// The value of a string of ASCII digits, where it fits in an `i32`.
fn parse_digits(d: &str) -> (r: Option<i32>)
    requires
        forall|m: int| 0 <= m < d@.len() ==> is_digit(#[trigger] d@[m]),
    ensures
        r matches Some(v) ==> v == digits_value(d@),
        r is None <==> digits_value(d@) > i32::MAX,
{
    let cs = chars_of(d);
    let mut acc: u64 = 0;
    let mut big = false;
    let mut i: usize = 0;
    while i < cs.len()
        invariant
            cs@ == d@,
            i <= cs@.len(),
            forall|m: int| 0 <= m < d@.len() ==> is_digit(#[trigger] d@[m]),
            !big ==> acc == digits_value(d@.subrange(0, i as int)) && acc <= i32::MAX,
            big ==> digits_value(d@.subrange(0, i as int)) > i32::MAX,
        decreases cs@.len() - i,
    {
        let ghost prev = d@.subrange(0, i as int);
        let ghost next = d@.subrange(0, i + 1);
        assert(next.drop_last() =~= prev);
        assert(next.last() == d@[i as int]);
        assert(is_digit(d@[i as int]));
        proof {
            lemma_digits_value_nonneg(prev);
        }
        if !big {
            let v = cs[i] as u32 - 48;
            acc = acc * 10 + v as u64;
            if acc > 2147483647 {
                big = true;
            }
        }
        i += 1;
    }
    assert(d@.subrange(0, cs@.len() as int) =~= d@);
    if big {
        None
    } else {
        Some(acc as i32)
    }
}

proof fn lemma_digits_value_nonneg(d: Seq<char>)
    requires
        forall|m: int| 0 <= m < d.len() ==> is_digit(#[trigger] d[m]),
    ensures
        digits_value(d) >= 0,
    decreases d.len(),
{
    if d.len() > 0 {
        lemma_digits_value_nonneg(d.drop_last());
    }
}

/// The age range named by an audience description that is already in lower
/// case.
pub fn extract_age_range_lowered(lower: &str) -> (r: (i32, i32))
    ensures
        r == age_range_in(lower@),
{
    proof {
        lemma_first_age_span_is_span(lower@, 0);
    }
    match find_age_span(lower) {
        Some((a, b)) => {
            proof {
                let (i, j) = first_age_span(lower@, 0)->0;
                lemma_skip_spaces_bounds(lower@, i + 3);
                assert(a@[0] == lower@[i] && a@[1] == lower@[i + 1]);
                assert(b@[0] == lower@[j] && b@[1] == lower@[j + 1]);
            }
            (two_digit_value(a.as_str()), two_digit_value(b.as_str()))
        },
        None => {
            if str_contains(lower, "gen z") || str_contains(lower, "genz") || str_contains(
                lower,
                "zoomer",
            ) {
                (18, 25)
            } else if str_contains(lower, "millennial") {
                (26, 40)
            } else if str_contains(lower, "gen x") || str_contains(lower, "genx") {
                (41, 55)
            } else if str_contains(lower, "boomer") || str_contains(lower, "senior") {
                (56, 70)
            } else {
                (25, 45)
            }
        },
    }
}

/// The age range named by an audience description: its first `NN-NN` span
/// (the dash may be an en-dash), else the band of a generation keyword, else
/// 25 to 45. Case does not matter.
pub fn extract_age_range(text: &str) -> (r: (i32, i32))
    ensures
        r == age_range_in(lower_of(text@)),
{
    let lower = lowercase(text);
    extract_age_range_lowered(lower.as_str())
}

/// The price tier named by a price description: that of its first number
/// (`<50` Low, `<150` Medium, `<500` High, else Premium, also for numbers
/// too large for an `i32`), `Medium` where it holds no number.
pub fn parse_price_tier(text: &str) -> (r: PriceTier)
    ensures
        r == price_tier_in(text@),
{
    proof {
        lemma_first_digit_is_digit(text@, 0);
        if let Some(k) = first_digit(text@, 0) {
            lemma_digit_run(text@, k);
        }
    }
    match find_first_number(text) {
        None => PriceTier::Medium,
        Some(d) => {
            match parse_digits(d.as_str()) {
                None => PriceTier::Premium,
                Some(v) => {
                    if v < 50 {
                        PriceTier::Low
                    } else if v < 150 {
                        PriceTier::Medium
                    } else if v < 500 {
                        PriceTier::High
                    } else {
                        PriceTier::Premium
                    }
                },
            }
        },
    }
}

/// Both ends of a parsed age range lie in `0..100`.
pub proof fn lemma_age_range_digits(s: Seq<char>)
    ensures
        0 <= age_range_in(s).0 < 100,
        0 <= age_range_in(s).1 < 100,
{
    lemma_first_age_span_is_span(s, 0);
    if let Some((i, j)) = first_age_span(s, 0) {
        lemma_skip_spaces_bounds(s, i + 3);
    }
}

} // verus!
