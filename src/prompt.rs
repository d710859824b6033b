//! The prompt that asks a language model for affiliate programs, and the
//! framing of the JSON array in its answer.

use vstd::prelude::*;
use crate::discovery::AffiliateProgramDiscovery;
use vstd::string::*;
use crate::text::{chars_of, occurs_in_vec, push_char, push_signed, signed_decimal};

verus! {

/// Template of the discovery prompt; each `{field}` is filled in by
/// `build_discovery_prompt`.
pub const AFFILIATE_DISCOVERY_PROMPT: &'static str = r#"You are an expert affiliate marketing analyst. Analyze the following product and discover the best affiliate program options across different platforms.

Product Information:
- Name: {product_name}
- Category: {category}
- Description: {description}
- Price Range: {price_range}
- Target Audience: {target_audience}
- Trending Score: {trending_score}

Your task:
1. Analyze the product metrics (target audience age, category, trending score, price)
2. Identify the TOP 3 PLATFORMS where this product will perform best
3. For each platform, find the best affiliate program
4. Score each platform's audience match (0.0-1.0) based on demographics
5. Consider platform-specific factors:
   - TikTok Shop: Viral potential, ages 18-35, trending products
   - Instagram Shopping: Visual appeal, ages 25-45, lifestyle fit
   - Amazon Associates: Broad reach, all ages, convenience
   - YouTube Shopping: Educational/reviews, ages 25-55, detailed products
   - Pinterest: Inspiration, ages 30-50, home/DIY/fashion

Return ONLY a valid JSON array with this structure:
[
  {{
    "program_name": "Platform Name + Program",
    "platform": "tiktok|instagram|amazon|youtube|pinterest",
    "commission_rate": 0.00,
    "cookie_duration": 30,
    "affiliate_url": "https://example.com/affiliate",
    "is_official": true,
    "confidence_score": 0.95,
    "audience_match_score": 0.90,
    "recommendation_reason": "Strong age match (18-25)"
  }}
]

Rules:
- Return maximum 5 platforms, sorted by audience_match_score
- audience_match_score weighted by age alignment (50%), category fit (25%), trending (15%), price (10%)
- Only include legitimate platforms
- NO explanatory text, ONLY the JSON array"#;

/// A request to a language model.
#[derive(Clone, Debug)]
pub struct AIRequest {
    pub prompt: String,
}

/// The programs a language model suggested.
#[derive(Clone, Debug)]
pub struct AIResponse {
    pub programs: Vec<AffiliateProgramDiscovery>,
}

/// `s` with each occurrence of `pat` replaced by `rep`, scanning from the
/// left and resuming after each replaced occurrence.
pub open spec fn replaced(s: Seq<char>, pat: Seq<char>, rep: Seq<char>) -> Seq<char>
    decreases s.len(),
{
    if s.len() == 0 {
        Seq::empty()
    } else if 0 < pat.len() <= s.len() && s.subrange(0, pat.len() as int) == pat {
        rep + replaced(s.subrange(pat.len() as int, s.len() as int), pat, rep)
    } else {
        seq![s[0]] + replaced(s.subrange(1, s.len() as int), pat, rep)
    }
}

/// `s` with each occurrence of the non-empty `pat` replaced by `rep`.
pub fn replace_all(s: &str, pat: &str, rep: &str) -> (r: String)
    requires
        pat@.len() > 0,
    ensures
        r@ == replaced(s@, pat@, rep@),
{
    let cs = chars_of(s);
    let ps = chars_of(pat);
    let n = cs.len();
    let m = ps.len();
    let mut out = String::new();
    let mut i: usize = 0;
    assert(s@.subrange(0, n as int) =~= s@);
    assert(out@ + replaced(s@, pat@, rep@) =~= replaced(s@, pat@, rep@));
    while i < n
        invariant
            cs@ == s@,
            ps@ == pat@,
            n == s@.len(),
            m == pat@.len(),
            m > 0,
            i <= n,
            out@ + replaced(s@.subrange(i as int, n as int), pat@, rep@) == replaced(s@, pat@, rep@),
        decreases n - i,
    {
        let ghost rest = s@.subrange(i as int, n as int);
        let hit = m <= n - i && occurs_in_vec(&cs, &ps, i);
        if hit {
            proof {
                assert(rest.subrange(0, m as int) =~= s@.subrange(i as int, i + m));
                assert(rest.subrange(m as int, rest.len() as int) =~= s@.subrange(i + m, n as int));
            }
            out.append(rep);
            i += m;
        } else {
            proof {
                if m <= rest.len() {
                    assert(rest.subrange(0, m as int) =~= s@.subrange(i as int, i + m));
                }
                assert(rest.subrange(1, rest.len() as int) =~= s@.subrange(i + 1, n as int));
            }
            push_char(&mut out, cs[i]);
            i += 1;
        }
        assert(out@ + replaced(s@.subrange(i as int, n as int), pat@, rep@) =~= replaced(s@, pat@, rep@));
    }
    assert(s@.subrange(n as int, n as int) =~= Seq::<char>::empty());
    assert(out@ + Seq::<char>::empty() =~= out@);
    out
}

/// The discovery prompt with the product's fields filled in, one field after
/// the other in the order of the parameters.
pub open spec fn prompt_text(
    name: Seq<char>,
    category: Seq<char>,
    description: Seq<char>,
    price: Seq<char>,
    audience: Seq<char>,
    trending: i32,
) -> Seq<char> {
    let a = replaced(AFFILIATE_DISCOVERY_PROMPT@, "{product_name}"@, name);
    let b = replaced(a, "{category}"@, category);
    let c = replaced(b, "{description}"@, description);
    let d = replaced(c, "{price_range}"@, price);
    let e = replaced(d, "{target_audience}"@, audience);
    replaced(e, "{trending_score}"@, signed_decimal(trending as int))
}

/// The discovery prompt for a product.
pub fn build_discovery_prompt(
    product_name: &str,
    category: &str,
    description: &str,
    price_range: &str,
    target_audience: &str,
    trending_score: i32,
) -> (r: String)
    ensures
        r@ == prompt_text(product_name@, category@, description@, price_range@, target_audience@, trending_score),
{
    proof {
        reveal_strlit("{product_name}");
        reveal_strlit("{category}");
        reveal_strlit("{description}");
        reveal_strlit("{price_range}");
        reveal_strlit("{target_audience}");
        reveal_strlit("{trending_score}");
    }
    let a = replace_all(AFFILIATE_DISCOVERY_PROMPT, "{product_name}", product_name);
    let b = replace_all(a.as_str(), "{category}", category);
    let c = replace_all(b.as_str(), "{description}", description);
    let d = replace_all(c.as_str(), "{price_range}", price_range);
    let e = replace_all(d.as_str(), "{target_audience}", target_audience);
    let mut t = String::new();
    push_signed(&mut t, trending_score as i64);
    assert(t@ =~= signed_decimal(trending_score as int));
    replace_all(e.as_str(), "{trending_score}", t.as_str())
}

/// The first position at or after `i` that holds `c`.
pub open spec fn first_index(s: Seq<char>, c: char, i: int) -> Option<int>
    decreases s.len() - i,
{
    if i < 0 || i >= s.len() {
        None
    } else if s[i] == c {
        Some(i)
    } else {
        first_index(s, c, i + 1)
    }
}

/// The last position before `n` that holds `c`.
pub open spec fn last_index(s: Seq<char>, c: char, n: int) -> Option<int>
    decreases n,
{
    if n <= 0 || n > s.len() {
        None
    } else if s[n - 1] == c {
        Some(n - 1)
    } else {
        last_index(s, c, n - 1)
    }
}

/// The text from the first `[` to the last `]` of `s`, or why there is none.
pub open spec fn json_array_in(s: Seq<char>) -> Result<Seq<char>, Seq<char>> {
    match (first_index(s, '[', 0), last_index(s, ']', s.len() as int)) {
        (Some(a), Some(b)) => if a >= b {
            Err("Invalid JSON array structure"@)
        } else {
            Ok(s.subrange(a, b + 1))
        },
        _ => Err("No JSON array found in response"@),
    }
}

/// The text from the first `[` to the last `]` of a model's answer; an error
/// where either is missing or they are out of order.
pub fn extract_json_array(text: &str) -> (r: Result<String, String>)
    ensures
        match r {
            Ok(t) => json_array_in(text@) == Ok::<Seq<char>, Seq<char>>(t@),
            Err(e) => json_array_in(text@) == Err::<Seq<char>, Seq<char>>(e@),
        },
{
    let cs = chars_of(text);
    let n = cs.len();
    let mut a: usize = 0;
    while a < n && cs[a] != '['
        invariant
            cs@ == text@,
            n == text@.len(),
            a <= n,
            first_index(text@, '[', 0) == first_index(text@, '[', a as int),
        decreases n - a,
    {
        a += 1;
    }
    let mut b: usize = n;
    while b > 0 && cs[b - 1] != ']'
        invariant
            cs@ == text@,
            n == text@.len(),
            b <= n,
            last_index(text@, ']', n as int) == last_index(text@, ']', b as int),
        decreases b,
    {
        b -= 1;
    }
    if a == n || b == 0 {
        return Err(String::from_str("No JSON array found in response"));
    }
    let end = b - 1;
    if a >= end {
        return Err(String::from_str("Invalid JSON array structure"));
    }
    let t = text.substring_char(a, b);
    Ok(String::from_str(t))
}

} // verus!
