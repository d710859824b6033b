//! Ranks the distribution platforms for a product. Each of five platforms
//! gets four sub-scores in hundredths (age alignment, category fit, trending
//! fit, price fit), weighted 50/25/15/10 into an audience-match score in
//! millionths. Platforms scoring above 0.3 are kept, ranked by audience match
//! (the earlier platform first among equal scores) and turned into affiliate
//! program suggestions.

use vstd::prelude::*;
use crate::attributes::{PriceTier, age_range_in, extract_age_range, parse_price_tier, price_tier_in};
use crate::models::AffiliatePlatform;
use crate::ranking::{lemma_ranking, rank_desc, ranking};
use crate::text::{lower_of, lowercase, push_signed, replace_char, signed_decimal, str_eq, swap_char};

verus! {

/// A suggested affiliate program on one platform. The commission rate is in
/// basis points; the confidence and audience-match scores are in millionths.
#[derive(Clone, Debug)]
pub struct AffiliateProgramDiscovery {
    pub program_name: String,
    pub platform: AffiliatePlatform,
    pub commission_rate: u32,
    pub cookie_duration: i32,
    pub affiliate_url: String,
    pub is_official: bool,
    pub confidence_score: u32,
    pub audience_match_score: u32,
    pub recommendation_reason: String,
}

/// The content of an [`AffiliateProgramDiscovery`].
pub struct ProgramView {
    pub program_name: Seq<char>,
    pub platform: AffiliatePlatform,
    pub commission_rate: u32,
    pub cookie_duration: i32,
    pub affiliate_url: Seq<char>,
    pub is_official: bool,
    pub confidence_score: u32,
    pub audience_match_score: u32,
    pub recommendation_reason: Seq<char>,
}

impl View for AffiliateProgramDiscovery {
    type V = ProgramView;

    open spec fn view(&self) -> ProgramView {
        ProgramView {
            program_name: self.program_name@,
            platform: self.platform,
            commission_rate: self.commission_rate,
            cookie_duration: self.cookie_duration,
            affiliate_url: self.affiliate_url@,
            is_official: self.is_official,
            confidence_score: self.confidence_score,
            audience_match_score: self.audience_match_score,
            recommendation_reason: self.recommendation_reason@,
        }
    }
}

/// The views of a sequence of programs.
pub open spec fn program_views(v: Seq<AffiliateProgramDiscovery>) -> Seq<ProgramView> {
    v.map_values(|p: AffiliateProgramDiscovery| p@)
}

/// The platforms that are scored, in their fixed order.
pub open spec fn scored_platforms() -> Seq<AffiliatePlatform> {
    seq![
        AffiliatePlatform::TikTokShop,
        AffiliatePlatform::InstagramShopping,
        AffiliatePlatform::AmazonAssociates,
        AffiliatePlatform::YouTubeShopping,
        AffiliatePlatform::PinterestBuyable,
    ]
}

/// Position of a platform in the fixed order; Facebook, which is not
/// scored, comes last.
pub open spec fn platform_index(p: AffiliatePlatform) -> int {
    match p {
        AffiliatePlatform::TikTokShop => 0,
        AffiliatePlatform::InstagramShopping => 1,
        AffiliatePlatform::AmazonAssociates => 2,
        AffiliatePlatform::YouTubeShopping => 3,
        AffiliatePlatform::PinterestBuyable => 4,
        AffiliatePlatform::FacebookShops => 5,
    }
}

/// The average of an age range, rounded toward zero.
pub open spec fn avg_age(age: (i32, i32)) -> int {
    let s = age.0 + age.1;
    if s >= 0 { s / 2 } else { -((-s) / 2) }
}

/// Age-alignment sub-score of a platform, by the average of the age range.
pub open spec fn age_alignment_pct(p: AffiliatePlatform, age: (i32, i32)) -> u32 {
    let avg = avg_age(age);
    match p {
        AffiliatePlatform::TikTokShop => {
            if 18 <= avg <= 30 { 100 } else if avg < 35 { 80 } else if avg < 40 { 50 } else { 20 }
        },
        AffiliatePlatform::InstagramShopping => {
            if 22 <= avg <= 40 { 100 } else if 18 <= avg <= 45 { 80 } else if avg < 50 { 60 } else { 30 }
        },
        AffiliatePlatform::YouTubeShopping => {
            if 25 <= avg <= 55 { 100 } else if avg >= 18 { 70 } else { 40 }
        },
        AffiliatePlatform::PinterestBuyable => {
            if 30 <= avg <= 50 { 100 } else if 25 <= avg <= 55 { 80 } else { 40 }
        },
        AffiliatePlatform::AmazonAssociates => 90,
        AffiliatePlatform::FacebookShops => 50,
    }
}

/// Category-fit sub-score of a platform, by the exact category label.
pub open spec fn category_fit_pct(p: AffiliatePlatform, c: Seq<char>) -> u32 {
    match p {
        AffiliatePlatform::TikTokShop => {
            if c == "Beauty & Skincare"@ || c == "Fashion & Apparel"@ { 100 }
            else if c == "Health & Wellness"@ || c == "Fitness & Recovery"@ { 90 }
            else if c == "Consumer Electronics"@ { 70 }
            else if c == "Wearable Health Technology"@ { 80 }
            else { 50 }
        },
        AffiliatePlatform::InstagramShopping => {
            if c == "Beauty & Skincare"@ || c == "Fashion & Apparel"@ { 100 }
            else if c == "Home & Kitchen"@ || c == "Health & Wellness"@ { 90 }
            else if c == "Fitness & Recovery"@ { 80 }
            else { 60 }
        },
        AffiliatePlatform::YouTubeShopping => {
            if c == "Consumer Electronics"@ || c == "Wearable Health Technology"@ { 100 }
            else if c == "Fitness & Recovery"@ || c == "Health & Wellness"@ { 90 }
            else if c == "Home & Kitchen"@ { 80 }
            else { 70 }
        },
        AffiliatePlatform::PinterestBuyable => {
            if c == "Home & Kitchen"@ || c == "Fashion & Apparel"@ { 100 }
            else if c == "Beauty & Skincare"@ { 90 }
            else if c == "Health & Wellness"@ { 80 }
            else { 60 }
        },
        AffiliatePlatform::AmazonAssociates => 100,
        AffiliatePlatform::FacebookShops => 50,
    }
}

/// Trending-fit sub-score of a platform.
pub open spec fn trending_fit_pct(p: AffiliatePlatform, t: i32) -> u32 {
    match p {
        AffiliatePlatform::TikTokShop => if t >= 85 { 100 } else if t >= 75 { 80 } else if t >= 65 { 50 } else { 30 },
        AffiliatePlatform::InstagramShopping => if t >= 70 { 100 } else if t >= 60 { 80 } else { 60 },
        AffiliatePlatform::YouTubeShopping => if t >= 60 { 100 } else { 80 },
        AffiliatePlatform::PinterestBuyable => if t >= 60 { 100 } else { 80 },
        AffiliatePlatform::AmazonAssociates => 90,
        AffiliatePlatform::FacebookShops => 50,
    }
}

/// Price-fit sub-score of a platform.
pub open spec fn price_fit_pct(p: AffiliatePlatform, tier: PriceTier) -> u32 {
    match p {
        AffiliatePlatform::TikTokShop => match tier {
            PriceTier::Low | PriceTier::Medium => 100,
            PriceTier::High => 60,
            PriceTier::Premium => 30,
        },
        AffiliatePlatform::InstagramShopping => match tier {
            PriceTier::Premium => 70,
            _ => 100,
        },
        AffiliatePlatform::YouTubeShopping => match tier {
            PriceTier::Low => 70,
            _ => 100,
        },
        AffiliatePlatform::PinterestBuyable => match tier {
            PriceTier::Low | PriceTier::Medium => 100,
            PriceTier::High => 80,
            PriceTier::Premium => 50,
        },
        AffiliatePlatform::AmazonAssociates => 100,
        AffiliatePlatform::FacebookShops => 50,
    }
}

/// Audience-match score in millionths: 50% age, 25% category, 15% trending,
/// 10% price.
pub open spec fn match_score(p: AffiliatePlatform, c: Seq<char>, t: i32, age: (i32, i32), tier: PriceTier) -> u32 {
    (100 * (50 * age_alignment_pct(p, age) + 25 * category_fit_pct(p, c) + 15 * trending_fit_pct(p, t)
        + 10 * price_fit_pct(p, tier))) as u32
}

/// A platform is kept when its audience match is above 0.3.
pub open spec fn kept(p: AffiliatePlatform, c: Seq<char>, t: i32, age: (i32, i32), tier: PriceTier) -> bool {
    match_score(p, c, t, age, tier) > 300_000
}

/// The kept platforms among the first `n` scored ones, in the fixed order.
pub open spec fn kept_platforms(n: nat, c: Seq<char>, t: i32, age: (i32, i32), tier: PriceTier) -> Seq<AffiliatePlatform>
    decreases n,
{
    if n == 0 {
        Seq::empty()
    } else {
        let s = kept_platforms((n - 1) as nat, c, t, age, tier);
        let p = scored_platforms()[n - 1];
        if kept(p, c, t, age, tier) { s.push(p) } else { s }
    }
}

/// URL slug of a product name: lower case, spaces as hyphens.
pub open spec fn name_slug(name: Seq<char>) -> Seq<char> {
    swap_char(lower_of(name), ' ', '-')
}

/// Amazon's commission in basis points, by the exact category label.
pub open spec fn amazon_rate(c: Seq<char>) -> u32 {
    if c == "Beauty & Skincare"@ || c == "Health & Wellness"@ { 1000 }
    else if c == "Fashion & Apparel"@ { 800 }
    else if c == "Consumer Electronics"@ { 400 }
    else if c == "Home & Kitchen"@ { 800 }
    else { 500 }
}

/// `min-max`.
pub open spec fn age_text(age: (i32, i32)) -> Seq<char> {
    signed_decimal(age.0 as int) + "-"@ + signed_decimal(age.1 as int)
}

/// Why a platform suits the age range and category.
pub open spec fn reason_text(p: AffiliatePlatform, age: (i32, i32), c: Seq<char>) -> Seq<char> {
    match p {
        AffiliatePlatform::TikTokShop => "Strong match for ages "@ + age_text(age) + ", "@ + c + " performs well on TikTok"@,
        AffiliatePlatform::InstagramShopping => "Ideal for ages "@ + age_text(age) + ", visual platform for "@ + c,
        AffiliatePlatform::YouTubeShopping => "Great for ages "@ + age_text(age) + ", detailed reviews boost "@ + c + " sales"@,
        AffiliatePlatform::PinterestBuyable => "Perfect for ages "@ + age_text(age) + ", discovery-driven for "@ + c,
        AffiliatePlatform::AmazonAssociates => "Universal platform for ages "@ + age_text(age) + ", broad "@ + c + " reach"@,
        AffiliatePlatform::FacebookShops => "Good match for ages "@ + age_text(age),
    }
}

/// The program suggested on platform `p`, for a product with the given name
/// and URL slug.
pub open spec fn program_view(
    name: Seq<char>,
    slug: Seq<char>,
    c: Seq<char>,
    p: AffiliatePlatform,
    score: u32,
    age: (i32, i32),
) -> ProgramView {
    let (rate, cookie, program, url): (u32, i32, Seq<char>, Seq<char>) = match p {
        AffiliatePlatform::TikTokShop => (1200, 14, "TikTok Shop Creator Program"@, "https://affiliate.tiktok.com/"@ + slug),
        AffiliatePlatform::InstagramShopping => (1500, 30, "Instagram Shopping - "@ + name, "https://business.instagram.com/shopping/"@ + slug),
        AffiliatePlatform::YouTubeShopping => (1000, 30, "YouTube Shopping Affiliate"@, "https://shopping.youtube.com/products/"@ + slug),
        AffiliatePlatform::PinterestBuyable => (1300, 30, "Pinterest Buyable Pins"@, "https://business.pinterest.com/buyable/"@ + slug),
        AffiliatePlatform::AmazonAssociates => (amazon_rate(c), 24, "Amazon Associates"@, "https://affiliate-program.amazon.com"@),
        AffiliatePlatform::FacebookShops => (500, 30, "Generic Affiliate"@, "https://example.com"@),
    };
    ProgramView {
        program_name: program,
        platform: p,
        commission_rate: rate,
        cookie_duration: cookie,
        affiliate_url: url,
        is_official: false,
        confidence_score: (850_000 + 15 * score / 100) as u32,
        audience_match_score: score,
        recommendation_reason: reason_text(p, age, c),
    }
}

/// What `discover_platforms` returns: the kept platforms (at most the five
/// scored ones) by decreasing audience match, the earlier platform first
/// among equal scores, each as its suggested program.
pub open spec fn discovered(name: Seq<char>, c: Seq<char>, t: i32, audience: Seq<char>, price: Seq<char>) -> Seq<ProgramView> {
    ranked_programs(name, name_slug(name), c, t, age_range_in(lower_of(audience)), price_tier_in(price))
}

/// The kept platforms by decreasing audience match, the earlier platform
/// first among equal scores, each as its suggested program, for a parsed age
/// range and price tier.
pub open spec fn ranked_programs(
    name: Seq<char>,
    slug: Seq<char>,
    c: Seq<char>,
    t: i32,
    age: (i32, i32),
    tier: PriceTier,
) -> Seq<ProgramView> {
    let cands = kept_platforms(5, c, t, age, tier);
    let keys = match_keys(cands, c, t, age, tier);
    programs_in_order(name, slug, c, cands, keys, ranking(keys), age)
}

/// The audience-match scores of `cands`.
pub open spec fn match_keys(cands: Seq<AffiliatePlatform>, c: Seq<char>, t: i32, age: (i32, i32), tier: PriceTier) -> Seq<u32> {
    cands.map_values(|p: AffiliatePlatform| match_score(p, c, t, age, tier))
}

/// The programs on `cands[i]` for each `i` of `order`, in that order.
pub open spec fn programs_in_order(
    name: Seq<char>,
    slug: Seq<char>,
    c: Seq<char>,
    cands: Seq<AffiliatePlatform>,
    keys: Seq<u32>,
    order: Seq<usize>,
    age: (i32, i32),
) -> Seq<ProgramView> {
    order.map_values(|i: usize| program_view(name, slug, c, cands[i as int], keys[i as int], age))
}

/// Age-alignment sub-score of a platform.
pub fn calculate_age_alignment(p: AffiliatePlatform, age: (i32, i32)) -> (r: u32)
    ensures
        r == age_alignment_pct(p, age),
{
    let s: i64 = age.0 as i64 + age.1 as i64;
    let avg: i64 = if s >= 0 { s / 2 } else { -((-s) / 2) };
    match p {
        AffiliatePlatform::TikTokShop => {
            if 18 <= avg && avg <= 30 { 100 } else if avg < 35 { 80 } else if avg < 40 { 50 } else { 20 }
        },
        AffiliatePlatform::InstagramShopping => {
            if 22 <= avg && avg <= 40 { 100 } else if 18 <= avg && avg <= 45 { 80 } else if avg < 50 { 60 } else { 30 }
        },
        AffiliatePlatform::YouTubeShopping => {
            if 25 <= avg && avg <= 55 { 100 } else if avg >= 18 { 70 } else { 40 }
        },
        AffiliatePlatform::PinterestBuyable => {
            if 30 <= avg && avg <= 50 { 100 } else if 25 <= avg && avg <= 55 { 80 } else { 40 }
        },
        AffiliatePlatform::AmazonAssociates => 90,
        AffiliatePlatform::FacebookShops => 50,
    }
}

/// Category-fit sub-score of a platform.
pub fn calculate_category_fit(p: AffiliatePlatform, c: &str) -> (r: u32)
    ensures
        r == category_fit_pct(p, c@),
{
    match p {
        AffiliatePlatform::TikTokShop => {
            if str_eq(c, "Beauty & Skincare") || str_eq(c, "Fashion & Apparel") { 100 }
            else if str_eq(c, "Health & Wellness") || str_eq(c, "Fitness & Recovery") { 90 }
            else if str_eq(c, "Consumer Electronics") { 70 }
            else if str_eq(c, "Wearable Health Technology") { 80 }
            else { 50 }
        },
        AffiliatePlatform::InstagramShopping => {
            if str_eq(c, "Beauty & Skincare") || str_eq(c, "Fashion & Apparel") { 100 }
            else if str_eq(c, "Home & Kitchen") || str_eq(c, "Health & Wellness") { 90 }
            else if str_eq(c, "Fitness & Recovery") { 80 }
            else { 60 }
        },
        AffiliatePlatform::YouTubeShopping => {
            if str_eq(c, "Consumer Electronics") || str_eq(c, "Wearable Health Technology") { 100 }
            else if str_eq(c, "Fitness & Recovery") || str_eq(c, "Health & Wellness") { 90 }
            else if str_eq(c, "Home & Kitchen") { 80 }
            else { 70 }
        },
        AffiliatePlatform::PinterestBuyable => {
            if str_eq(c, "Home & Kitchen") || str_eq(c, "Fashion & Apparel") { 100 }
            else if str_eq(c, "Beauty & Skincare") { 90 }
            else if str_eq(c, "Health & Wellness") { 80 }
            else { 60 }
        },
        AffiliatePlatform::AmazonAssociates => 100,
        AffiliatePlatform::FacebookShops => 50,
    }
}

/// Trending-fit sub-score of a platform.
pub fn calculate_trending_fit(p: AffiliatePlatform, t: i32) -> (r: u32)
    ensures
        r == trending_fit_pct(p, t),
{
    match p {
        AffiliatePlatform::TikTokShop => if t >= 85 { 100 } else if t >= 75 { 80 } else if t >= 65 { 50 } else { 30 },
        AffiliatePlatform::InstagramShopping => if t >= 70 { 100 } else if t >= 60 { 80 } else { 60 },
        AffiliatePlatform::YouTubeShopping => if t >= 60 { 100 } else { 80 },
        AffiliatePlatform::PinterestBuyable => if t >= 60 { 100 } else { 80 },
        AffiliatePlatform::AmazonAssociates => 90,
        AffiliatePlatform::FacebookShops => 50,
    }
}

/// Price-fit sub-score of a platform.
pub fn calculate_price_fit(p: AffiliatePlatform, tier: PriceTier) -> (r: u32)
    ensures
        r == price_fit_pct(p, tier),
{
    match p {
        AffiliatePlatform::TikTokShop => match tier {
            PriceTier::Low | PriceTier::Medium => 100,
            PriceTier::High => 60,
            PriceTier::Premium => 30,
        },
        AffiliatePlatform::InstagramShopping => match tier {
            PriceTier::Premium => 70,
            _ => 100,
        },
        AffiliatePlatform::YouTubeShopping => match tier {
            PriceTier::Low => 70,
            _ => 100,
        },
        AffiliatePlatform::PinterestBuyable => match tier {
            PriceTier::Low | PriceTier::Medium => 100,
            PriceTier::High => 80,
            PriceTier::Premium => 50,
        },
        AffiliatePlatform::AmazonAssociates => 100,
        AffiliatePlatform::FacebookShops => 50,
    }
}

/// Audience-match score of a platform, in millionths.
pub fn calculate_platform_score(p: AffiliatePlatform, c: &str, t: i32, age: (i32, i32), tier: PriceTier) -> (r: u32)
    ensures
        r == match_score(p, c@, t, age, tier),
        r <= 1_000_000,
{
    let a = calculate_age_alignment(p, age);
    let cf = calculate_category_fit(p, c);
    let tf = calculate_trending_fit(p, t);
    let pf = calculate_price_fit(p, tier);
    100 * (50 * a + 25 * cf + 15 * tf + 10 * pf)
}

/// Why a platform suits the age range and category.
pub fn generate_recommendation_reason(p: AffiliatePlatform, age: (i32, i32), c: &str) -> (r: String)
    ensures
        r@ == reason_text(p, age, c@),
{
    let head = match p {
        AffiliatePlatform::TikTokShop => "Strong match for ages ",
        AffiliatePlatform::InstagramShopping => "Ideal for ages ",
        AffiliatePlatform::YouTubeShopping => "Great for ages ",
        AffiliatePlatform::PinterestBuyable => "Perfect for ages ",
        AffiliatePlatform::AmazonAssociates => "Universal platform for ages ",
        AffiliatePlatform::FacebookShops => "Good match for ages ",
    };
    let mut r = String::from_str(head);
    push_signed(&mut r, age.0 as i64);
    r.append("-");
    push_signed(&mut r, age.1 as i64);
    match p {
        AffiliatePlatform::TikTokShop => {
            r.append(", ");
            r.append(c);
            r.append(" performs well on TikTok");
        },
        AffiliatePlatform::InstagramShopping => {
            r.append(", visual platform for ");
            r.append(c);
        },
        AffiliatePlatform::YouTubeShopping => {
            r.append(", detailed reviews boost ");
            r.append(c);
            r.append(" sales");
        },
        AffiliatePlatform::PinterestBuyable => {
            r.append(", discovery-driven for ");
            r.append(c);
        },
        AffiliatePlatform::AmazonAssociates => {
            r.append(", broad ");
            r.append(c);
            r.append(" reach");
        },
        AffiliatePlatform::FacebookShops => {},
    }
    assert(r@ =~= reason_text(p, age, c@));
    r
}

fn slug_url(prefix: &str, slug: &str) -> (r: String)
    ensures
        r@ == prefix@ + slug@,
{
    let mut r = String::from_str(prefix);
    r.append(slug);
    r
}

/// URL slug of a product name: lower case, spaces as hyphens.
pub fn make_name_slug(name: &str) -> (r: String)
    ensures
        r@ == name_slug(name@),
{
    let lower = lowercase(name);
    replace_char(lower.as_str(), ' ', '-')
}

/// The program suggested on platform `p` for a product with the given
/// audience match.
pub fn create_program_for_platform(
    name: &str,
    c: &str,
    p: AffiliatePlatform,
    score: u32,
    age: (i32, i32),
) -> (r: AffiliateProgramDiscovery)
    requires
        score <= 1_000_000,
    ensures
        r@ == program_view(name@, name_slug(name@), c@, p, score, age),
{
    let slug = make_name_slug(name);
    program_for_slug(name, slug.as_str(), c, p, score, age)
}

/// The program suggested on platform `p` for a product with the given name,
/// URL slug and audience match.
pub fn program_for_slug(
    name: &str,
    slug: &str,
    c: &str,
    p: AffiliatePlatform,
    score: u32,
    age: (i32, i32),
) -> (r: AffiliateProgramDiscovery)
    requires
        score <= 1_000_000,
    ensures
        r@ == program_view(name@, slug@, c@, p, score, age),
{
    let (rate, cookie, program, url): (u32, i32, String, String) = match p {
        AffiliatePlatform::TikTokShop => (
            1200,
            14,
            String::from_str("TikTok Shop Creator Program"),
            slug_url("https://affiliate.tiktok.com/", slug),
        ),
        AffiliatePlatform::InstagramShopping => {
            let mut program = String::from_str("Instagram Shopping - ");
            program.append(name);
            (1500, 30, program, slug_url("https://business.instagram.com/shopping/", slug))
        },
        AffiliatePlatform::YouTubeShopping => (
            1000,
            30,
            String::from_str("YouTube Shopping Affiliate"),
            slug_url("https://shopping.youtube.com/products/", slug),
        ),
        AffiliatePlatform::PinterestBuyable => (
            1300,
            30,
            String::from_str("Pinterest Buyable Pins"),
            slug_url("https://business.pinterest.com/buyable/", slug),
        ),
        AffiliatePlatform::AmazonAssociates => {
            let rate: u32 = if str_eq(c, "Beauty & Skincare") || str_eq(c, "Health & Wellness") {
                1000
            } else if str_eq(c, "Fashion & Apparel") {
                800
            } else if str_eq(c, "Consumer Electronics") {
                400
            } else if str_eq(c, "Home & Kitchen") {
                800
            } else {
                500
            };
            (
                rate,
                24,
                String::from_str("Amazon Associates"),
                String::from_str("https://affiliate-program.amazon.com"),
            )
        },
        AffiliatePlatform::FacebookShops => (
            500,
            30,
            String::from_str("Generic Affiliate"),
            String::from_str("https://example.com"),
        ),
    };
    let reason = generate_recommendation_reason(p, age, c);
    AffiliateProgramDiscovery {
        program_name: program,
        platform: p,
        commission_rate: rate,
        cookie_duration: cookie,
        affiliate_url: url,
        is_official: false,
        confidence_score: 850_000 + 15 * score / 100,
        audience_match_score: score,
        recommendation_reason: reason,
    }
}

proof fn lemma_kept_platforms(n: nat, c: Seq<char>, t: i32, age: (i32, i32), tier: PriceTier)
    requires
        n <= 5,
    ensures
        kept_platforms(n, c, t, age, tier).len() <= n,
        forall|i: int| 0 <= i < kept_platforms(n, c, t, age, tier).len()
            ==> kept(#[trigger] kept_platforms(n, c, t, age, tier)[i], c, t, age, tier)
                && 0 <= platform_index(kept_platforms(n, c, t, age, tier)[i]) < n,
        forall|i: int, j: int| 0 <= i < j < kept_platforms(n, c, t, age, tier).len()
            ==> platform_index(#[trigger] kept_platforms(n, c, t, age, tier)[i])
                < platform_index(#[trigger] kept_platforms(n, c, t, age, tier)[j]),
    decreases n,
{
    if n > 0 {
        lemma_kept_platforms((n - 1) as nat, c, t, age, tier);
        assert(platform_index(scored_platforms()[n - 1]) == n - 1);
    }
}

/// Ranks the five scored platforms for a product with a parsed age range and
/// price tier, and suggests a program on each that clears an audience match
/// of 0.3.
pub fn rank_programs(
    product_name: &str,
    slug: &str,
    category: &str,
    trending_score: i32,
    age: (i32, i32),
    tier: PriceTier,
) -> (r: Vec<AffiliateProgramDiscovery>)
    ensures
        program_views(r@) == ranked_programs(product_name@, slug@, category@, trending_score, age, tier),
        r@.len() <= 5,
        forall|i: int| 0 <= i < r@.len() ==> 300_000 < #[trigger] r@[i].audience_match_score <= 1_000_000,
        forall|i: int| 0 <= i < r@.len() ==> #[trigger] r@[i].confidence_score == 850_000 + 15
            * r@[i].audience_match_score / 100 && 850_000 <= r@[i].confidence_score <= 1_000_000,
        forall|i: int, j: int| 0 <= i < j < r@.len()
            ==> #[trigger] r@[i].audience_match_score >= #[trigger] r@[j].audience_match_score,
        forall|i: int, j: int| 0 <= i < j < r@.len() && #[trigger] r@[i].audience_match_score
            == #[trigger] r@[j].audience_match_score ==> platform_index(r@[i].platform) < platform_index(r@[j].platform),
{
    let ghost c = category@;
    let platforms = vec![
        AffiliatePlatform::TikTokShop,
        AffiliatePlatform::InstagramShopping,
        AffiliatePlatform::AmazonAssociates,
        AffiliatePlatform::YouTubeShopping,
        AffiliatePlatform::PinterestBuyable,
    ];
    assert(platforms@ =~= scored_platforms());
    let mut cands: Vec<AffiliatePlatform> = Vec::new();
    let mut keys: Vec<u32> = Vec::new();
    let mut k: usize = 0;
    while k < 5
        invariant
            k <= 5,
            platforms@ == scored_platforms(),
            c == category@,
            cands@ == kept_platforms(k as nat, c, trending_score, age, tier),
            keys@ == match_keys(cands@, c, trending_score, age, tier),
        decreases 5 - k,
    {
        let p = platforms[k];
        let ghost prev = cands@;
        assert(p == scored_platforms()[k as int]);
        let s = calculate_platform_score(p, category, trending_score, age, tier);
        if s > 300_000 {
            cands.push(p);
            keys.push(s);
        }
        k += 1;
        assert(kept_platforms(k as nat, c, trending_score, age, tier) == if kept(p, c, trending_score, age, tier) {
            prev.push(p)
        } else {
            prev
        });
        assert(keys@ =~= match_keys(cands@, c, trending_score, age, tier));
    }
    proof {
        lemma_kept_platforms(5, c, trending_score, age, tier);
    }
    let order = rank_desc(&keys);
    proof {
        lemma_ranking(keys@);
    }
    let ghost cs = cands@;
    let ghost ks = keys@;
    let ghost full = programs_in_order(product_name@, slug@, c, cs, ks, ranking(ks), age);
    let mut out: Vec<AffiliateProgramDiscovery> = Vec::new();
    let mut j: usize = 0;
    while j < order.len()
        invariant
            full.len() == order@.len(),
            full == programs_in_order(product_name@, slug@, c, cs, ks, ranking(ks), age),
            c == category@,
            order@ == ranking(ks),
            order@.len() == ks.len(),
            ks.len() == cs.len(),
            cs.len() <= 5,
            cands@ == cs,
            keys@ == ks,
            forall|i: int| 0 <= i < ks.len() ==> (#[trigger] order@[i] as int) < ks.len(),
            forall|i: int| 0 <= i < ks.len() ==> #[trigger] ks[i] <= 1_000_000,
            j <= order@.len(),
            program_views(out@) == full.take(j as int),
        decreases order@.len() - j,
    {
        let i = order[j];
        let prog = program_for_slug(product_name, slug, category, cands[i], keys[i], age);
        assert(full[j as int] == program_view(product_name@, slug@, c, cs[i as int], ks[i as int], age));
        let ghost before = out@;
        out.push(prog);
        assert(program_views(out@) =~= program_views(before).push(prog@));
        j += 1;
        assert(program_views(out@) =~= full.take(j as int));
    }
    assert(full =~= full.take(j as int));
    proof {
        assert forall|i: int| 0 <= i < out@.len() implies #[trigger] out@[i].audience_match_score
            == ks[order@[i] as int] by {
            assert(program_views(out@)[i] == full[i]);
        }
        assert forall|i: int| 0 <= i < out@.len() implies #[trigger] out@[i].platform
            == cs[order@[i] as int] by {
            assert(program_views(out@)[i] == full[i]);
        }
        assert forall|i: int| 0 <= i < out@.len() implies #[trigger] out@[i].confidence_score
            == 850_000 + 15 * out@[i].audience_match_score / 100 by {
            assert(program_views(out@)[i] == full[i]);
        }
    }
    out
}

/// Ranks the five scored platforms for a product and suggests a program on
/// each that clears an audience match of 0.3.
pub fn discover_platforms(
    product_name: &str,
    category: &str,
    trending_score: i32,
    target_audience: &str,
    price_range: &str,
) -> (r: Vec<AffiliateProgramDiscovery>)
    ensures
        program_views(r@) == discovered(product_name@, category@, trending_score, target_audience@, price_range@),
        r@.len() <= 5,
        forall|i: int| 0 <= i < r@.len() ==> 300_000 < #[trigger] r@[i].audience_match_score <= 1_000_000,
        forall|i: int| 0 <= i < r@.len() ==> #[trigger] r@[i].confidence_score == 850_000 + 15
            * r@[i].audience_match_score / 100 && 850_000 <= r@[i].confidence_score <= 1_000_000,
        forall|i: int, j: int| 0 <= i < j < r@.len()
            ==> #[trigger] r@[i].audience_match_score >= #[trigger] r@[j].audience_match_score,
        forall|i: int, j: int| 0 <= i < j < r@.len() && #[trigger] r@[i].audience_match_score
            == #[trigger] r@[j].audience_match_score ==> platform_index(r@[i].platform) < platform_index(r@[j].platform),
{
    let age = extract_age_range(target_audience);
    let tier = parse_price_tier(price_range);
    let slug = make_name_slug(product_name);
    rank_programs(product_name, slug.as_str(), category, trending_score, age, tier)
}

/// Same as `discover_platforms`.
pub fn mock_ai_discovery_with_platforms(
    product_name: &str,
    category: &str,
    trending_score: i32,
    target_audience: &str,
    price_range: &str,
) -> (r: Vec<AffiliateProgramDiscovery>)
    ensures
        program_views(r@) == discovered(product_name@, category@, trending_score, target_audience@, price_range@),
{
    discover_platforms(product_name, category, trending_score, target_audience, price_range)
}

/// Discovery with a trending score of 70, an audience of ages 25 to 45 and
/// a price range of $50 to $100.
pub fn mock_ai_discovery(product_name: &str, category: &str) -> (r: Vec<AffiliateProgramDiscovery>)
    ensures
        program_views(r@) == discovered(product_name@, category@, 70, "Age 25-45"@, "$50-$100"@),
{
    discover_platforms(product_name, category, 70, "Age 25-45", "$50-$100")
}

/// Discovery depends on its inputs alone: any two results of
/// `discover_platforms` for the same inputs hold the same programs, field for
/// field, in the same order.
pub proof fn lemma_discovery_deterministic(
    name: Seq<char>,
    c: Seq<char>,
    t: i32,
    audience: Seq<char>,
    price: Seq<char>,
    r1: Seq<AffiliateProgramDiscovery>,
    r2: Seq<AffiliateProgramDiscovery>,
)
    requires
        program_views(r1) == discovered(name, c, t, audience, price),
        program_views(r2) == discovered(name, c, t, audience, price),
    ensures
        r1.len() == r2.len(),
        forall|i: int| 0 <= i < r1.len() ==> #[trigger] r1[i]@ == r2[i]@,
{
    assert(program_views(r1).len() == r1.len());
    assert(program_views(r2).len() == r2.len());
    assert forall|i: int| 0 <= i < r1.len() implies #[trigger] r1[i]@ == r2[i]@ by {
        assert(program_views(r1)[i] == r1[i]@);
        assert(program_views(r2)[i] == r2[i]@);
    }
}

} // verus!
