//! Ranks the six advertisement formats for a product. Each format gets four
//! sub-scores in hundredths (category, audience, trending, platform
//! presence), weighted 30/35/20/15 into a total in millionths; the formats
//! are ranked by total, the earlier format first among equal totals.

use vstd::prelude::*;
use crate::models::Product;
use crate::ranking::{lemma_ranking, rank_desc, ranking};
use crate::text::{has_substr, join, lower_of, lowercase, push_decimal, decimal, str_contains, str_eq, views, join_strings};
use crate::attributes::{age_range_in, extract_age_range_lowered, lemma_age_range_digits};

verus! {

/// An advertisement format.
#[derive(Clone, Copy, Debug, PartialEq, Eq, Structural)]
pub enum AdType {
    /// Social media post: broad reach, quick engagement.
    SocialPost,
    /// Ephemeral story: young audiences, time-sensitive offers.
    Story,
    /// Video script: demonstrations and detailed content.
    VideoScript,
    /// Multi-image carousel: visual products and collections.
    Carousel,
    /// Email: older audiences, detailed offers.
    Email,
    /// Text message: urgent, high-intent offers.
    Sms,
}

/// The formats in their fixed order.
pub open spec fn all_ad_types() -> Seq<AdType> {
    seq![AdType::SocialPost, AdType::Story, AdType::VideoScript, AdType::Carousel, AdType::Email, AdType::Sms]
}

/// The format at position `i` of the fixed order.
pub open spec fn ad_type_at(i: usize) -> AdType {
    all_ad_types()[i as int]
}

/// Snake-case name of a format.
pub open spec fn ad_type_name(t: AdType) -> Seq<char> {
    match t {
        AdType::SocialPost => "social_post"@,
        AdType::Story => "story"@,
        AdType::VideoScript => "video_script"@,
        AdType::Carousel => "carousel"@,
        AdType::Email => "email"@,
        AdType::Sms => "sms"@,
    }
}

/// The format whose snake-case name is `s`.
pub open spec fn ad_type_named(s: Seq<char>) -> Option<AdType> {
    if s == "social_post"@ {
        Some(AdType::SocialPost)
    } else if s == "story"@ {
        Some(AdType::Story)
    } else if s == "video_script"@ {
        Some(AdType::VideoScript)
    } else if s == "carousel"@ {
        Some(AdType::Carousel)
    } else if s == "email"@ {
        Some(AdType::Email)
    } else if s == "sms"@ {
        Some(AdType::Sms)
    } else {
        None
    }
}

/// Human-readable name of a format.
pub open spec fn display_name_of(t: AdType) -> Seq<char> {
    match t {
        AdType::SocialPost => "Social Media Post"@,
        AdType::Story => "Story"@,
        AdType::VideoScript => "Video Script"@,
        AdType::Carousel => "Carousel"@,
        AdType::Email => "Email"@,
        AdType::Sms => "SMS"@,
    }
}

/// When a format works best.
pub open spec fn description_of(t: AdType) -> Seq<char> {
    match t {
        AdType::SocialPost => "Best for viral reach and quick engagement"@,
        AdType::Story => "Perfect for Gen Z and time-sensitive content"@,
        AdType::VideoScript => "Ideal for detailed product demonstrations"@,
        AdType::Carousel => "Great for visual products and collections"@,
        AdType::Email => "Effective for nurturing and detailed offers"@,
        AdType::Sms => "Optimal for urgent, high-conversion messages"@,
    }
}

impl AdType {
    /// Human-readable name.
    pub fn display_name(&self) -> (r: &'static str)
        ensures
            r@ == display_name_of(*self),
    {
        match self {
            AdType::SocialPost => "Social Media Post",
            AdType::Story => "Story",
            AdType::VideoScript => "Video Script",
            AdType::Carousel => "Carousel",
            AdType::Email => "Email",
            AdType::Sms => "SMS",
        }
    }

    /// When the format works best.
    pub fn description(&self) -> (r: &'static str)
        ensures
            r@ == description_of(*self),
    {
        match self {
            AdType::SocialPost => "Best for viral reach and quick engagement",
            AdType::Story => "Perfect for Gen Z and time-sensitive content",
            AdType::VideoScript => "Ideal for detailed product demonstrations",
            AdType::Carousel => "Great for visual products and collections",
            AdType::Email => "Effective for nurturing and detailed offers",
            AdType::Sms => "Optimal for urgent, high-conversion messages",
        }
    }

    /// All formats, in their fixed order.
    pub fn all() -> (r: Vec<AdType>)
        ensures
            r@ == all_ad_types(),
    {
        let r = vec![
            AdType::SocialPost,
            AdType::Story,
            AdType::VideoScript,
            AdType::Carousel,
            AdType::Email,
            AdType::Sms,
        ];
        assert(r@ =~= all_ad_types());
        r
    }

    /// Snake-case name: `social_post`, `story`, `video_script`, `carousel`,
    /// `email` or `sms`.
    pub fn to_string(&self) -> (r: String)
        ensures
            r@ == ad_type_name(*self),
    {
        let s = match self {
            AdType::SocialPost => "social_post",
            AdType::Story => "story",
            AdType::VideoScript => "video_script",
            AdType::Carousel => "carousel",
            AdType::Email => "email",
            AdType::Sms => "sms",
        };
        String::from_str(s)
    }

    /// The format whose snake-case name is exactly `s`.
    pub fn from_name(s: &str) -> (r: Option<AdType>)
        ensures
            r == ad_type_named(s@),
    {
        if str_eq(s, "social_post") {
            Some(AdType::SocialPost)
        } else if str_eq(s, "story") {
            Some(AdType::Story)
        } else if str_eq(s, "video_script") {
            Some(AdType::VideoScript)
        } else if str_eq(s, "carousel") {
            Some(AdType::Carousel)
        } else if str_eq(s, "email") {
            Some(AdType::Email)
        } else if str_eq(s, "sms") {
            Some(AdType::Sms)
        } else {
            None
        }
    }

    /// The format whose snake-case name is `s` in lower case.
    pub fn from_string(s: &str) -> (r: Option<AdType>)
        ensures
            r == ad_type_named(lower_of(s@)),
    {
        let lower = lowercase(s);
        AdType::from_name(lower.as_str())
    }
}

impl Default for AdType {
    fn default() -> (r: AdType)
        ensures
            r == AdType::SocialPost,
    {
        AdType::SocialPost
    }
}

/// Category sub-score of a format, for a lower-case category.
pub open spec fn category_pct(c: Seq<char>, t: AdType) -> u32 {
    match t {
        AdType::VideoScript => {
            if has_substr(c, "electronics"@) || has_substr(c, "tech"@) || has_substr(c, "wearable"@)
                || has_substr(c, "gadget"@) {
                100
            } else if has_substr(c, "fitness"@) || has_substr(c, "health"@) {
                80
            } else if has_substr(c, "home"@) || has_substr(c, "kitchen"@) {
                60
            } else {
                40
            }
        },
        AdType::Carousel => {
            if has_substr(c, "fashion"@) || has_substr(c, "apparel"@) || has_substr(c, "clothing"@) {
                100
            } else if has_substr(c, "beauty"@) || has_substr(c, "skincare"@) || has_substr(c, "cosmetic"@) {
                90
            } else if has_substr(c, "home"@) || has_substr(c, "decor"@) || has_substr(c, "furniture"@) {
                85
            } else if has_substr(c, "jewelry"@) || has_substr(c, "accessories"@) {
                90
            } else {
                50
            }
        },
        AdType::Story => {
            if has_substr(c, "beauty"@) || has_substr(c, "skincare"@) {
                95
            } else if has_substr(c, "fashion"@) || has_substr(c, "apparel"@) {
                90
            } else if has_substr(c, "food"@) || has_substr(c, "beverage"@) {
                85
            } else if has_substr(c, "fitness"@) || has_substr(c, "wellness"@) {
                80
            } else {
                50
            }
        },
        AdType::SocialPost => {
            if has_substr(c, "trending"@) || has_substr(c, "viral"@) {
                95
            } else if has_substr(c, "gadget"@) || has_substr(c, "tech"@) {
                70
            } else {
                60
            }
        },
        AdType::Email => {
            if has_substr(c, "health"@) || has_substr(c, "wellness"@) || has_substr(c, "supplement"@) {
                90
            } else if has_substr(c, "finance"@) || has_substr(c, "insurance"@) {
                95
            } else if has_substr(c, "electronics"@) || has_substr(c, "appliance"@) {
                70
            } else {
                50
            }
        },
        AdType::Sms => {
            if has_substr(c, "food"@) || has_substr(c, "restaurant"@) {
                90
            } else if has_substr(c, "deal"@) || has_substr(c, "flash"@) {
                95
            } else if has_substr(c, "local"@) || has_substr(c, "service"@) {
                80
            } else {
                30
            }
        },
    }
}

/// Category sub-score of a format, for a category already in lower case.
pub fn category_score_lowered(c: &str, t: AdType) -> (r: u32)
    ensures
        r == category_pct(c@, t),
{
    match t {
        AdType::VideoScript => {
            if str_contains(c, "electronics") || str_contains(c, "tech") || str_contains(c, "wearable")
                || str_contains(c, "gadget") {
                100
            } else if str_contains(c, "fitness") || str_contains(c, "health") {
                80
            } else if str_contains(c, "home") || str_contains(c, "kitchen") {
                60
            } else {
                40
            }
        },
        AdType::Carousel => {
            if str_contains(c, "fashion") || str_contains(c, "apparel") || str_contains(c, "clothing") {
                100
            } else if str_contains(c, "beauty") || str_contains(c, "skincare") || str_contains(c, "cosmetic") {
                90
            } else if str_contains(c, "home") || str_contains(c, "decor") || str_contains(c, "furniture") {
                85
            } else if str_contains(c, "jewelry") || str_contains(c, "accessories") {
                90
            } else {
                50
            }
        },
        AdType::Story => {
            if str_contains(c, "beauty") || str_contains(c, "skincare") {
                95
            } else if str_contains(c, "fashion") || str_contains(c, "apparel") {
                90
            } else if str_contains(c, "food") || str_contains(c, "beverage") {
                85
            } else if str_contains(c, "fitness") || str_contains(c, "wellness") {
                80
            } else {
                50
            }
        },
        AdType::SocialPost => {
            if str_contains(c, "trending") || str_contains(c, "viral") {
                95
            } else if str_contains(c, "gadget") || str_contains(c, "tech") {
                70
            } else {
                60
            }
        },
        AdType::Email => {
            if str_contains(c, "health") || str_contains(c, "wellness") || str_contains(c, "supplement") {
                90
            } else if str_contains(c, "finance") || str_contains(c, "insurance") {
                95
            } else if str_contains(c, "electronics") || str_contains(c, "appliance") {
                70
            } else {
                50
            }
        },
        AdType::Sms => {
            if str_contains(c, "food") || str_contains(c, "restaurant") {
                90
            } else if str_contains(c, "deal") || str_contains(c, "flash") {
                95
            } else if str_contains(c, "local") || str_contains(c, "service") {
                80
            } else {
                30
            }
        },
    }
}

/// The generation band of an audience.
#[derive(Clone, Copy, Debug, PartialEq, Eq, Structural)]
pub enum Generation {
    /// Gen Z, ages 18 to 25.
    GenZ,
    /// Millennials, ages 26 to 40.
    Millennial,
    /// Gen X, ages 41 to 55.
    GenX,
    /// Boomers, over 55.
    Boomer,
    /// An average age under 18, in none of the bands.
    Unbanded,
}

/// The band of a lower-case audience description: that of a generation
/// keyword where there is one (checked in the order Gen Z, millennial, Gen X,
/// boomer/senior), else that of the average of its age range.
pub open spec fn generation_of(a: Seq<char>) -> Generation {
    let (lo, hi) = age_range_in(a);
    let avg = (lo + hi) / 2;
    if has_substr(a, "gen z"@) || has_substr(a, "genz"@) || has_substr(a, "zoomer"@) {
        Generation::GenZ
    } else if has_substr(a, "millennial"@) {
        Generation::Millennial
    } else if has_substr(a, "gen x"@) || has_substr(a, "genx"@) {
        Generation::GenX
    } else if has_substr(a, "boomer"@) || has_substr(a, "senior"@) {
        Generation::Boomer
    } else if 18 <= avg <= 25 {
        Generation::GenZ
    } else if 26 <= avg <= 40 {
        Generation::Millennial
    } else if 41 <= avg <= 55 {
        Generation::GenX
    } else if avg > 55 {
        Generation::Boomer
    } else {
        Generation::Unbanded
    }
}

/// Audience sub-score of a format for a generation band.
pub open spec fn generation_pct(g: Generation, t: AdType) -> u32 {
    match t {
        AdType::Story => match g {
            Generation::GenZ => 100,
            Generation::Millennial => 75,
            Generation::GenX => 40,
            _ => 20,
        },
        AdType::SocialPost => match g {
            Generation::GenZ => 90,
            Generation::Millennial => 85,
            Generation::GenX => 60,
            _ => 40,
        },
        AdType::VideoScript => match g {
            Generation::Millennial => 90,
            Generation::GenX => 85,
            Generation::GenZ => 70,
            _ => 60,
        },
        AdType::Carousel => match g {
            Generation::Millennial => 90,
            Generation::GenZ => 80,
            Generation::GenX => 70,
            _ => 50,
        },
        AdType::Email => match g {
            Generation::Boomer => 100,
            Generation::GenX => 90,
            Generation::Millennial => 70,
            _ => 40,
        },
        AdType::Sms => match g {
            Generation::GenX => 80,
            Generation::Boomer => 75,
            Generation::Millennial => 60,
            _ => 50,
        },
    }
}

/// Audience sub-score of a format: neutral 50 without an audience, else by
/// the generation band of its lower-case form.
pub open spec fn audience_pct(audience: Option<String>, t: AdType) -> u32 {
    match audience {
        None => 50,
        Some(a) => generation_pct(generation_of(lower_of(a@)), t),
    }
}

/// The generation band of an audience description already in lower case.
pub fn generation_lowered(a: &str) -> (r: Generation)
    ensures
        r == generation_of(a@),
{
    let (lo, hi) = extract_age_range_lowered(a);
    proof {
        lemma_age_range_digits(a@);
    }
    let avg = (lo + hi) / 2;
    if str_contains(a, "gen z") || str_contains(a, "genz") || str_contains(a, "zoomer") {
        Generation::GenZ
    } else if str_contains(a, "millennial") {
        Generation::Millennial
    } else if str_contains(a, "gen x") || str_contains(a, "genx") {
        Generation::GenX
    } else if str_contains(a, "boomer") || str_contains(a, "senior") {
        Generation::Boomer
    } else if 18 <= avg && avg <= 25 {
        Generation::GenZ
    } else if 26 <= avg && avg <= 40 {
        Generation::Millennial
    } else if 41 <= avg && avg <= 55 {
        Generation::GenX
    } else if avg > 55 {
        Generation::Boomer
    } else {
        Generation::Unbanded
    }
}

/// Audience sub-score of a format for a generation band.
pub fn generation_score(g: Generation, t: AdType) -> (r: u32)
    ensures
        r == generation_pct(g, t),
{
    match t {
        AdType::Story => match g {
            Generation::GenZ => 100,
            Generation::Millennial => 75,
            Generation::GenX => 40,
            _ => 20,
        },
        AdType::SocialPost => match g {
            Generation::GenZ => 90,
            Generation::Millennial => 85,
            Generation::GenX => 60,
            _ => 40,
        },
        AdType::VideoScript => match g {
            Generation::Millennial => 90,
            Generation::GenX => 85,
            Generation::GenZ => 70,
            _ => 60,
        },
        AdType::Carousel => match g {
            Generation::Millennial => 90,
            Generation::GenZ => 80,
            Generation::GenX => 70,
            _ => 50,
        },
        AdType::Email => match g {
            Generation::Boomer => 100,
            Generation::GenX => 90,
            Generation::Millennial => 70,
            _ => 40,
        },
        AdType::Sms => match g {
            Generation::GenX => 80,
            Generation::Boomer => 75,
            Generation::Millennial => 60,
            _ => 50,
        },
    }
}

/// Trending sub-score of a format; an absent trending score counts as 50.
pub open spec fn trending_pct(trending: Option<i32>, t: AdType) -> u32 {
    let s = match trending {
        Some(v) => v,
        None => 50,
    };
    match t {
        AdType::SocialPost => if s >= 80 { 100 } else if s >= 60 { 80 } else if s >= 40 { 60 } else { 40 },
        AdType::Story => if s >= 75 { 95 } else if s >= 50 { 75 } else { 55 },
        AdType::VideoScript => if s >= 60 { 80 } else { 70 },
        AdType::Carousel => if s >= 70 { 85 } else if s >= 50 { 70 } else { 60 },
        AdType::Email => if s < 50 { 85 } else if s < 70 { 75 } else { 60 },
        AdType::Sms => 60,
    }
}

/// Trending sub-score of a format; an absent trending score counts as 50.
pub fn calculate_trending_score(trending: Option<i32>, t: AdType) -> (r: u32)
    ensures
        r == trending_pct(trending, t),
{
    let s = match trending {
        Some(v) => v,
        None => 50,
    };
    match t {
        AdType::SocialPost => if s >= 80 { 100 } else if s >= 60 { 80 } else if s >= 40 { 60 } else { 40 },
        AdType::Story => if s >= 75 { 95 } else if s >= 50 { 75 } else { 55 },
        AdType::VideoScript => if s >= 60 { 80 } else { 70 },
        AdType::Carousel => if s >= 70 { 85 } else if s >= 50 { 70 } else { 60 },
        AdType::Email => if s < 50 { 85 } else if s < 70 { 75 } else { 60 },
        AdType::Sms => 60,
    }
}

/// Which platform identifiers a product carries.
#[derive(Clone, Copy, Debug, PartialEq, Eq, Structural)]
pub struct Presence {
    pub tiktok: bool,
    pub instagram: bool,
    pub youtube: bool,
    pub pinterest: bool,
    pub amazon: bool,
}

/// The platform identifiers that `p` carries.
pub open spec fn presence_of(p: Product) -> Presence {
    Presence {
        tiktok: p.tiktok_product_id is Some,
        instagram: p.instagram_product_id is Some,
        youtube: p.youtube_video_id is Some,
        pinterest: p.pinterest_pin_id is Some,
        amazon: p.amazon_asin is Some,
    }
}

/// How many platform identifiers are present.
pub open spec fn presence_count(h: Presence) -> int {
    (if h.tiktok { 1int } else { 0 }) + (if h.instagram { 1int } else { 0 }) + (if h.youtube { 1int } else { 0 })
        + (if h.pinterest { 1int } else { 0 }) + (if h.amazon { 1int } else { 0 })
}

/// Platform sub-score of a format for the identifiers present.
pub open spec fn platform_pct(h: Presence, t: AdType) -> u32 {
    match t {
        AdType::Story => if h.tiktok { 95 } else if h.instagram { 85 } else { 50 },
        AdType::Carousel => {
            if h.instagram && h.pinterest { 100 } else if h.instagram { 90 } else if h.pinterest { 85 } else { 50 }
        },
        AdType::VideoScript => if h.youtube { 95 } else if h.tiktok { 70 } else { 50 },
        AdType::SocialPost => {
            if presence_count(h) >= 3 { 90 } else if presence_count(h) >= 1 { 75 } else { 60 }
        },
        AdType::Email => if h.amazon { 80 } else { 65 },
        AdType::Sms => 60,
    }
}

/// The platform identifiers that a product carries.
pub fn presence(p: &Product) -> (r: Presence)
    ensures
        r == presence_of(*p),
{
    Presence {
        tiktok: p.tiktok_product_id.is_some(),
        instagram: p.instagram_product_id.is_some(),
        youtube: p.youtube_video_id.is_some(),
        pinterest: p.pinterest_pin_id.is_some(),
        amazon: p.amazon_asin.is_some(),
    }
}

/// Platform sub-score of a format for the identifiers present.
pub fn presence_score(h: Presence, t: AdType) -> (r: u32)
    ensures
        r == platform_pct(h, t),
{
    let count: u32 = (if h.tiktok { 1u32 } else { 0 }) + (if h.instagram { 1u32 } else { 0 }) + (if h.youtube { 1u32 } else { 0 })
        + (if h.pinterest { 1u32 } else { 0 }) + (if h.amazon { 1u32 } else { 0 });
    match t {
        AdType::Story => if h.tiktok { 95 } else if h.instagram { 85 } else { 50 },
        AdType::Carousel => {
            if h.instagram && h.pinterest { 100 } else if h.instagram { 90 } else if h.pinterest { 85 } else { 50 }
        },
        AdType::VideoScript => if h.youtube { 95 } else if h.tiktok { 70 } else { 50 },
        AdType::SocialPost => if count >= 3 { 90 } else if count >= 1 { 75 } else { 60 },
        AdType::Email => if h.amazon { 80 } else { 65 },
        AdType::Sms => 60,
    }
}

/// Platform sub-score of a format for the identifiers that a product carries.
pub fn calculate_platform_score(p: &Product, t: AdType) -> (r: u32)
    ensures
        r == platform_pct(presence_of(*p), t),
{
    presence_score(presence(p), t)
}

/// The sub-scores (hundredths) and the weighted total (millionths) of one
/// format.
#[derive(Clone, Copy, Debug, PartialEq, Eq, Structural)]
pub struct AdTypeScore {
    pub ad_type: AdType,
    pub category_score: u32,
    pub audience_score: u32,
    pub trending_score: u32,
    pub platform_score: u32,
    pub total_score: u32,
}

/// Weighted total in millionths: 30% category, 35% audience, 20% trending,
/// 15% platform.
pub open spec fn weighted_total(c: u32, a: u32, t: u32, p: u32) -> int {
    100 * (30 * c + 35 * a + 20 * t + 15 * p)
}

/// What the ad-type scorer reads of a product: its category and audience in
/// lower case, its trending score, and the platform identifiers present.
pub struct Signals {
    pub category: Seq<char>,
    pub audience: Option<Seq<char>>,
    pub trending: Option<i32>,
    pub presence: Presence,
}

/// The signals of a product.
pub open spec fn signals_of(p: Product) -> Signals {
    Signals {
        category: lower_of(p.category@),
        audience: match p.target_audience {
            Some(a) => Some(lower_of(a@)),
            None => None,
        },
        trending: p.trending_score,
        presence: presence_of(p),
    }
}

/// Signals from an already lower-case category and audience.
pub open spec fn lowered_signals(category: &str, audience: Option<&str>, trending: Option<i32>, h: Presence) -> Signals {
    Signals {
        category: category@,
        audience: match audience {
            Some(a) => Some(a@),
            None => None,
        },
        trending: trending,
        presence: h,
    }
}

/// The score of format `t` for the given signals.
pub open spec fn score_from(s: Signals, t: AdType) -> AdTypeScore {
    let c = category_pct(s.category, t);
    let a = match s.audience {
        None => 50,
        Some(a) => generation_pct(generation_of(a), t),
    };
    let tr = trending_pct(s.trending, t);
    let pl = platform_pct(s.presence, t);
    AdTypeScore {
        ad_type: t,
        category_score: c,
        audience_score: a,
        trending_score: tr,
        platform_score: pl,
        total_score: weighted_total(c, a, tr, pl) as u32,
    }
}

/// The totals of the six formats, in the fixed order.
pub open spec fn totals_from(s: Signals) -> Seq<u32> {
    all_ad_types().map_values(|t: AdType| score_from(s, t).total_score)
}

/// The formats by decreasing total, the earlier format first among equal
/// totals.
pub open spec fn ranked_from(s: Signals) -> Seq<AdType> {
    ranking(totals_from(s)).map_values(|i: usize| ad_type_at(i))
}

/// The formats for `p` by decreasing total, the earlier format first among
/// equal totals.
pub open spec fn ranked_ad_types(p: Product) -> Seq<AdType> {
    ranked_from(signals_of(p))
}

/// The clause on the category, where its sub-score is at least 0.8.
pub open spec fn category_clause(p: Product, s: AdTypeScore) -> Seq<Seq<char>> {
    if s.category_score >= 80 {
        seq!["The '"@ + p.category@ + "' category aligns strongly with "@ + display_name_of(s.ad_type) + " format"@]
    } else {
        seq![]
    }
}

/// The clause on the audience, where there is one and its sub-score is at
/// least 0.8.
pub open spec fn audience_clause(p: Product, s: AdTypeScore) -> Seq<Seq<char>> {
    match p.target_audience {
        Some(a) => if s.audience_score >= 80 {
            seq!["Target audience '"@ + a@ + "' responds well to this format"@]
        } else {
            seq![]
        },
        None => seq![],
    }
}

/// The clause on the trending score, where one is given and is high with a
/// sub-score of at least 0.9, or low with one of at least 0.7.
pub open spec fn trending_clause(p: Product, s: AdTypeScore) -> Seq<Seq<char>> {
    match p.trending_score {
        Some(v) => if v >= 80 && s.trending_score >= 90 {
            seq!["High trending score suggests viral potential"@]
        } else if v < 50 && s.trending_score >= 70 {
            seq!["This format builds trust for products needing education"@]
        } else {
            seq![]
        },
        None => seq![],
    }
}

/// Names of the platforms, other than Amazon, whose identifiers are present.
pub open spec fn present_platform_names(h: Presence) -> Seq<Seq<char>> {
    let a: Seq<Seq<char>> = if h.tiktok { seq!["TikTok"@] } else { seq![] };
    let b = if h.instagram { a.push("Instagram"@) } else { a };
    let c = if h.youtube { b.push("YouTube"@) } else { b };
    if h.pinterest { c.push("Pinterest"@) } else { c }
}

/// The clause on platforms, where the sub-score is at least 0.85 and some
/// platform other than Amazon is present.
pub open spec fn platform_clause(p: Product, s: AdTypeScore) -> Seq<Seq<char>> {
    let names = present_platform_names(presence_of(p));
    if s.platform_score >= 85 && names.len() > 0 {
        seq!["Available on "@ + join(names, ", "@) + " which natively supports this format"@]
    } else {
        seq![]
    }
}

/// A score in millionths as a whole percentage, halves rounded up.
pub open spec fn whole_percent(total: u32) -> nat {
    ((total + 5000) / 10000) as nat
}

/// Why `s` was chosen for `p`: the clauses that apply, each ended by a
/// period; or, where none applies, a sentence with the confidence.
pub open spec fn reasoning_text(p: Product, s: AdTypeScore) -> Seq<char> {
    let clauses = category_clause(p, s) + audience_clause(p, s) + trending_clause(p, s) + platform_clause(p, s);
    if clauses.len() == 0 {
        display_name_of(s.ad_type) + " selected as the balanced choice for '"@ + p.name@
            + "' with confidence "@ + decimal(whole_percent(s.total_score)) + "%"@
    } else {
        join(clauses, ". "@) + "."@
    }
}


/// Category sub-score of a format; case does not matter.
pub fn calculate_category_score(category: &str, t: AdType) -> (r: u32)
    ensures
        r == category_pct(lower_of(category@), t),
{
    let lower = lowercase(category);
    category_score_lowered(lower.as_str(), t)
}

/// Audience sub-score of a format: neutral 50 without an audience, else by
/// the generation band of the description; case does not matter.
pub fn calculate_audience_score(audience: &Option<String>, t: AdType) -> (r: u32)
    ensures
        r == audience_pct(*audience, t),
{
    match audience {
        None => 50,
        Some(a) => {
            let lower = lowercase(a.as_str());
            let g = generation_lowered(lower.as_str());
            generation_score(g, t)
        },
    }
}

/// The sub-scores and the weighted total of format `t`, for a category and
/// an audience already in lower case.
pub fn score_lowered(category: &str, audience: Option<&str>, trending: Option<i32>, h: Presence, t: AdType) -> (r: AdTypeScore)
    ensures
        r == score_from(lowered_signals(category, audience, trending, h), t),
        r.total_score <= 1_000_000,
{
    let c = category_score_lowered(category, t);
    let a = match audience {
        None => 50,
        Some(x) => {
            let g = generation_lowered(x);
            generation_score(g, t)
        },
    };
    let tr = calculate_trending_score(trending, t);
    let pl = presence_score(h, t);
    let total = 100 * (30 * c + 35 * a + 20 * tr + 15 * pl);
    AdTypeScore {
        ad_type: t,
        category_score: c,
        audience_score: a,
        trending_score: tr,
        platform_score: pl,
        total_score: total,
    }
}

/// The names of the platforms, other than Amazon, whose identifiers `p`
/// carries.
fn platform_names(p: &Product) -> (r: Vec<String>)
    ensures
        views(r@) == present_platform_names(presence_of(*p)),
{
    let mut names: Vec<String> = Vec::new();
    if p.tiktok_product_id.is_some() {
        names.push(String::from_str("TikTok"));
    }
    if p.instagram_product_id.is_some() {
        names.push(String::from_str("Instagram"));
    }
    if p.youtube_video_id.is_some() {
        names.push(String::from_str("YouTube"));
    }
    if p.pinterest_pin_id.is_some() {
        names.push(String::from_str("Pinterest"));
    }
    assert(views(names@) =~= present_platform_names(presence_of(*p)));
    names
}

/// Why format `s` suits `p`, in words.
pub fn generate_reasoning(p: &Product, s: &AdTypeScore) -> (r: String)
    ensures
        r@ == reasoning_text(*p, *s),
{
    let mut reasons: Vec<String> = Vec::new();
    if s.category_score >= 80 {
        let mut c = String::from_str("The '");
        c.append(p.category.as_str());
        c.append("' category aligns strongly with ");
        c.append(s.ad_type.display_name());
        c.append(" format");
        reasons.push(c);
    }
    assert(views(reasons@) =~= category_clause(*p, *s));
    match &p.target_audience {
        Some(a) => {
            if s.audience_score >= 80 {
                let mut c = String::from_str("Target audience '");
                c.append(a.as_str());
                c.append("' responds well to this format");
                reasons.push(c);
            }
        },
        None => {},
    }
    assert(views(reasons@) =~= category_clause(*p, *s) + audience_clause(*p, *s));
    match p.trending_score {
        Some(v) => {
            if v >= 80 && s.trending_score >= 90 {
                reasons.push(String::from_str("High trending score suggests viral potential"));
            } else if v < 50 && s.trending_score >= 70 {
                reasons.push(String::from_str("This format builds trust for products needing education"));
            }
        },
        None => {},
    }
    assert(views(reasons@) =~= category_clause(*p, *s) + audience_clause(*p, *s) + trending_clause(*p, *s));
    if s.platform_score >= 85 {
        let names = platform_names(p);
        if names.len() > 0 {
            let mut c = String::from_str("Available on ");
            let joined = join_strings(&names, ", ");
            c.append(joined.as_str());
            c.append(" which natively supports this format");
            reasons.push(c);
        }
    }
    let ghost clauses = category_clause(*p, *s) + audience_clause(*p, *s) + trending_clause(*p, *s)
        + platform_clause(*p, *s);
    assert(views(reasons@) =~= clauses);
    if reasons.len() == 0 {
        let mut r = String::from_str(s.ad_type.display_name());
        r.append(" selected as the balanced choice for '");
        r.append(p.name.as_str());
        r.append("' with confidence ");
        push_decimal(&mut r, ((s.total_score as u128) + 5000) / 10000);
        r.append("%");
        r
    } else {
        let mut r = join_strings(&reasons, ". ");
        r.append(".");
        r
    }
}

/// The recommended format for a product, with its confidence (in millionths,
/// within `0..=1_000_000`), the reasons for it, and up to three alternatives
/// in ranking order.
#[derive(Clone, Debug)]
pub struct MarketAnalysis {
    pub recommended_ad_type: AdType,
    pub confidence_score: u32,
    pub reasoning: String,
    pub alternative_types: Vec<AdType>,
}

impl Default for MarketAnalysis {
    fn default() -> (r: MarketAnalysis)
        ensures
            r.recommended_ad_type == AdType::SocialPost,
            r.confidence_score == 500_000,
            r.reasoning@ == "Default recommendation based on broad appeal"@,
            r.alternative_types@ == seq![AdType::Email, AdType::Carousel],
    {
        let alts = vec![AdType::Email, AdType::Carousel];
        assert(alts@ =~= seq![AdType::Email, AdType::Carousel]);
        MarketAnalysis {
            recommended_ad_type: AdType::SocialPost,
            confidence_score: 500_000,
            reasoning: String::from_str("Default recommendation based on broad appeal"),
            alternative_types: alts,
        }
    }
}

/// The analysis of `p` with signals `s`: the first ranked format, its
/// total, the reasons for it, and the next three formats.
pub open spec fn analysis_from(p: Product, s: Signals, r: MarketAnalysis) -> bool {
    let best = ranked_from(s)[0];
    &&& r.recommended_ad_type == best
    &&& r.alternative_types@ == ranked_from(s).subrange(1, 4)
    &&& r.confidence_score == score_from(s, best).total_score
    &&& r.reasoning@ == reasoning_text(p, score_from(s, best))
}

/// What `analyze_market_for_product` returns for `p`.
pub open spec fn market_analysis_of(p: Product, r: MarketAnalysis) -> bool {
    analysis_from(p, signals_of(p), r)
}

proof fn lemma_totals(s: Signals)
    ensures
        totals_from(s).len() == 6,
        forall|i: int| 0 <= i < 6 ==> #[trigger] totals_from(s)[i] == score_from(s, all_ad_types()[i]).total_score,
{
}

/// Ranks the six formats for a product whose category and audience are
/// given in lower case, and recommends the first.
pub fn analyze_with_lowered(p: &Product, category: &str, audience: Option<&str>) -> (r: MarketAnalysis)
    ensures
        analysis_from(*p, lowered_signals(category, audience, p.trending_score, presence_of(*p)), r),
        r.alternative_types@.len() == 3,
        r.alternative_types@.no_duplicates(),
        !r.alternative_types@.contains(r.recommended_ad_type),
        r.confidence_score <= 1_000_000,
{
    let ghost sig = lowered_signals(category, audience, p.trending_score, presence_of(*p));
    let h = presence(p);
    let types = AdType::all();
    let mut scores: Vec<AdTypeScore> = Vec::new();
    let mut keys: Vec<u32> = Vec::new();
    let mut i: usize = 0;
    while i < 6
        invariant
            i <= 6,
            types@ == all_ad_types(),
            scores@.len() == i,
            keys@.len() == i,
            sig == lowered_signals(category, audience, p.trending_score, presence_of(*p)),
            h == presence_of(*p),
            forall|k: int| 0 <= k < i ==> #[trigger] scores@[k] == score_from(sig, all_ad_types()[k]),
            forall|k: int| 0 <= k < i ==> #[trigger] keys@[k] == scores@[k].total_score,
        decreases 6 - i,
    {
        let s = score_lowered(category, audience, p.trending_score, h, types[i]);
        scores.push(s);
        keys.push(s.total_score);
        i += 1;
    }
    proof {
        lemma_totals(sig);
        assert(keys@ =~= totals_from(sig));
    }
    let order = rank_desc(&keys);
    proof {
        lemma_ranking(keys@);
    }
    let best = scores[order[0]];
    let mut alternatives: Vec<AdType> = Vec::new();
    let mut k: usize = 1;
    while k < 4
        invariant
            1 <= k <= 4,
            order@ == ranking(keys@),
            order@.len() == 6,
            forall|j: int| 0 <= j < 6 ==> (#[trigger] order@[j] as int) < 6,
            scores@.len() == 6,
            forall|j: int| 0 <= j < 6 ==> #[trigger] scores@[j] == score_from(sig, all_ad_types()[j]),
            alternatives@ == ranked_from(sig).subrange(1, k as int),
            keys@ == totals_from(sig),
        decreases 4 - k,
    {
        alternatives.push(scores[order[k]].ad_type);
        k += 1;
        assert(alternatives@ =~= ranked_from(sig).subrange(1, k as int));
    }
    let reasoning = generate_reasoning(p, &best);
    let confidence = if best.total_score > 1_000_000 { 1_000_000 } else { best.total_score };
    let r = MarketAnalysis {
        recommended_ad_type: best.ad_type,
        confidence_score: confidence,
        reasoning,
        alternative_types: alternatives,
    };
    proof {
        let ranked = ranked_from(sig);
        assert(ranked[0] == best.ad_type);
        assert forall|x: int, y: int| 0 <= x < 6 && 0 <= y < 6 && x != y implies ranked[x] != ranked[y] by {
            assert(order@[x] != order@[y]);
        }
        assert forall|x: int, y: int| 0 <= x < 3 && 0 <= y < 3 && x != y implies
            r.alternative_types@[x] != r.alternative_types@[y] by {
            assert(r.alternative_types@[x] == ranked[x + 1]);
            assert(r.alternative_types@[y] == ranked[y + 1]);
        }
        assert forall|x: int| 0 <= x < 3 implies r.alternative_types@[x] != r.recommended_ad_type by {
            assert(r.alternative_types@[x] == ranked[x + 1]);
        }
    }
    r
}

/// Ranks the six formats for a product and recommends the first.
pub fn analyze_market_for_product(p: &Product) -> (r: MarketAnalysis)
    ensures
        market_analysis_of(*p, r),
        r.alternative_types@.len() == 3,
        r.alternative_types@.no_duplicates(),
        !r.alternative_types@.contains(r.recommended_ad_type),
        r.confidence_score <= 1_000_000,
{
    let category = lowercase(p.category.as_str());
    let audience: Option<String> = match &p.target_audience {
        Some(a) => Some(lowercase(a.as_str())),
        None => None,
    };
    let aud: Option<&str> = match &audience {
        Some(a) => Some(a.as_str()),
        None => None,
    };
    let cat: &str = category.as_str();
    let r = analyze_with_lowered(p, cat, aud);
    assert(lowered_signals(cat, aud, p.trending_score, presence_of(*p)) == signals_of(*p));
    r
}

/// The recommended format for a product.
pub fn select_optimal_ad_type(p: &Product) -> (r: AdType)
    ensures
        r == ranked_ad_types(*p)[0],
{
    analyze_market_for_product(p).recommended_ad_type
}

/// The analysis of a product depends on the product alone: any two results
/// of `analyze_market_for_product` for the same product agree in every field.
pub proof fn lemma_analysis_deterministic(p: Product, r1: MarketAnalysis, r2: MarketAnalysis)
    requires
        market_analysis_of(p, r1),
        market_analysis_of(p, r2),
    ensures
        r1.recommended_ad_type == r2.recommended_ad_type,
        r1.confidence_score == r2.confidence_score,
        r1.reasoning@ == r2.reasoning@,
        r1.alternative_types@ == r2.alternative_types@,
{
}

} // verus!
