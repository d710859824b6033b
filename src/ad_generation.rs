//! Aggregates the two scorers into a market analysis for a product and
//! writes ad copy (headline, body, call to action) for a chosen format from
//! fixed per-format templates.

use vstd::prelude::*;
use crate::analytics::{ad_type_name, ranked_ad_types, select_optimal_ad_type, AdType};
use crate::discovery::{discover_platforms, discovered, program_views, AffiliateProgramDiscovery, ProgramView};
use crate::models::{platform_name, Product};
use crate::text::{has_substr, join, lower_of, lowercase, str_contains, str_eq, views, join_strings};

verus! {

/// What the aggregator hands to content synthesis. The engagement estimate
/// is in millionths.
#[derive(Clone, Debug)]
pub struct MarketAnalysis {
    pub recommended_ad_type: String,
    pub recommended_platform: String,
    pub target_demographic: String,
    pub key_selling_points: Vec<String>,
    pub suggested_tone: String,
    pub competition_level: String,
    pub estimated_engagement_score: i64,
}

/// The content of a [`MarketAnalysis`].
pub struct MarketView {
    pub recommended_ad_type: Seq<char>,
    pub recommended_platform: Seq<char>,
    pub target_demographic: Seq<char>,
    pub key_selling_points: Seq<Seq<char>>,
    pub suggested_tone: Seq<char>,
    pub competition_level: Seq<char>,
    pub estimated_engagement_score: i64,
}

impl View for MarketAnalysis {
    type V = MarketView;

    open spec fn view(&self) -> MarketView {
        MarketView {
            recommended_ad_type: self.recommended_ad_type@,
            recommended_platform: self.recommended_platform@,
            target_demographic: self.target_demographic@,
            key_selling_points: views(self.key_selling_points@),
            suggested_tone: self.suggested_tone@,
            competition_level: self.competition_level@,
            estimated_engagement_score: self.estimated_engagement_score,
        }
    }
}

/// Four selling points for a category; two of the lists name the product.
pub open spec fn selling_points(c: Seq<char>, name: Seq<char>) -> Seq<Seq<char>> {
    if c == "Beauty & Skincare"@ {
        seq!["Clinically proven results"@, "Natural, clean ingredients"@, "Visible improvement in weeks"@, name + " loved by thousands"@]
    } else if c == "Health & Wellness"@ {
        seq!["Science-backed formula"@, "Supports overall wellbeing"@, "Easy to incorporate daily"@, "Trusted by health experts"@]
    } else if c == "Fitness & Recovery"@ {
        seq!["Accelerate your recovery"@, "Professional-grade quality"@, "Used by athletes worldwide"@, "See results faster"@]
    } else if c == "Consumer Electronics"@ || c == "Wearable Health Technology"@ {
        seq!["Cutting-edge technology"@, "Seamless integration"@, "Track your progress"@, "Premium build quality"@]
    } else if c == "Fashion & Apparel"@ {
        seq!["Trendsetting style"@, "Premium materials"@, "Versatile for any occasion"@, "Limited availability"@]
    } else if c == "Home & Kitchen"@ {
        seq!["Transform your space"@, "Built to last"@, "Saves time and effort"@, "Top-rated by customers"@]
    } else {
        seq!["Premium quality"@, "Exceptional value"@, "Customer favorite"@, "Discover why "@ + name + " is trending"@]
    }
}

fn strings4(a: &str, b: &str, c: &str, d: String) -> (r: Vec<String>)
    ensures
        views(r@) == seq![a@, b@, c@, d@],
{
    let r = vec![String::from_str(a), String::from_str(b), String::from_str(c), d];
    assert(views(r@) =~= seq![a@, b@, c@, d@]);
    r
}

/// Four selling points for a category.
pub fn generate_selling_points(category: &str, product_name: &str) -> (r: Vec<String>)
    ensures
        views(r@) == selling_points(category@, product_name@),
{
    if str_eq(category, "Beauty & Skincare") {
        let mut last = String::from_str(product_name);
        last.append(" loved by thousands");
        strings4("Clinically proven results", "Natural, clean ingredients", "Visible improvement in weeks", last)
    } else if str_eq(category, "Health & Wellness") {
        strings4("Science-backed formula", "Supports overall wellbeing", "Easy to incorporate daily",
            String::from_str("Trusted by health experts"))
    } else if str_eq(category, "Fitness & Recovery") {
        strings4("Accelerate your recovery", "Professional-grade quality", "Used by athletes worldwide",
            String::from_str("See results faster"))
    } else if str_eq(category, "Consumer Electronics") || str_eq(category, "Wearable Health Technology") {
        strings4("Cutting-edge technology", "Seamless integration", "Track your progress",
            String::from_str("Premium build quality"))
    } else if str_eq(category, "Fashion & Apparel") {
        strings4("Trendsetting style", "Premium materials", "Versatile for any occasion",
            String::from_str("Limited availability"))
    } else if str_eq(category, "Home & Kitchen") {
        strings4("Transform your space", "Built to last", "Saves time and effort",
            String::from_str("Top-rated by customers"))
    } else {
        let mut last = String::from_str("Discover why ");
        last.append(product_name);
        last.append(" is trending");
        strings4("Premium quality", "Exceptional value", "Customer favorite", last)
    }
}

/// Tone for an audience description: casual for 18-25 or 18-30, professional
/// where it mentions 45 or 50, else friendly.
pub open spec fn tone_for(a: Seq<char>) -> Seq<char> {
    if has_substr(a, "18-25"@) || has_substr(a, "18-30"@) {
        "casual and trendy"@
    } else if has_substr(a, "45"@) || has_substr(a, "50"@) {
        "professional and trustworthy"@
    } else {
        "friendly and engaging"@
    }
}

/// Competition level of a category label.
pub open spec fn competition_for(c: Seq<char>) -> Seq<char> {
    if c == "Beauty & Skincare"@ || c == "Fashion & Apparel"@ {
        "high"@
    } else if c == "Consumer Electronics"@ || c == "Wearable Health Technology"@ || c == "Health & Wellness"@
        || c == "Fitness & Recovery"@ {
        "medium"@
    } else {
        "low"@
    }
}

/// Engagement estimate in millionths: 0.6 of the trending score (as a
/// fraction of 100) plus 0.4 of the best audience match, at most 1.0.
pub open spec fn engagement(trending: i32, best_match: u32) -> i64 {
    let e = 6000 * trending + 2 * best_match / 5;
    (if e > 1_000_000 { 1_000_000 } else { e }) as i64
}

/// The audience description used for a product: its own, else ages 25 to 45.
pub open spec fn audience_or_default(p: Product) -> Seq<char> {
    match p.target_audience {
        Some(a) => a@,
        None => "Age 25-45"@,
    }
}

/// The trending score used for a product: its own, else 50.
pub open spec fn trending_or_default(p: Product) -> i32 {
    match p.trending_score {
        Some(t) => t,
        None => 50,
    }
}

/// The price description used for a product: its own, else $50 to $100.
pub open spec fn price_or_default(p: Product) -> Seq<char> {
    match p.price_range {
        Some(a) => a@,
        None => "$50-$100"@,
    }
}

/// The market analysis of `p`, given the programs that discovery suggested
/// and the recommended format: the best platform (Instagram where there is
/// none), and the derived tone, competition level and engagement.
pub open spec fn market_view_from(p: Product, programs: Seq<ProgramView>, best: AdType) -> MarketView {
    let audience = audience_or_default(p);
    MarketView {
        recommended_ad_type: ad_type_name(best),
        recommended_platform: if programs.len() > 0 { platform_name(programs[0].platform) } else { "instagram"@ },
        target_demographic: audience,
        key_selling_points: selling_points(p.category@, p.name@),
        suggested_tone: tone_for(audience),
        competition_level: competition_for(p.category@),
        estimated_engagement_score: engagement(
            trending_or_default(p),
            if programs.len() > 0 { programs[0].audience_match_score } else { 500_000 },
        ),
    }
}

/// The market analysis of `p`: both scorers run on it, then combined.
pub open spec fn market_view_of(p: Product) -> MarketView {
    let programs = discovered(p.name@, p.category@, trending_or_default(p), audience_or_default(p), price_or_default(p));
    market_view_from(p, programs, ranked_ad_types(p)[0])
}

/// Combines the programs that discovery suggested for a product and the
/// recommended format into what content synthesis needs.
pub fn combine_market_analysis(p: &Product, programs: &Vec<AffiliateProgramDiscovery>, best: AdType) -> (r: MarketAnalysis)
    ensures
        r@ == market_view_from(*p, program_views(programs@), best),
{
    let audience: &str = match &p.target_audience {
        Some(a) => a.as_str(),
        None => "Age 25-45",
    };
    let trending: i32 = match p.trending_score {
        Some(t) => t,
        None => 50,
    };
    let (platform, best_match) = if programs.len() > 0 {
        assert(program_views(programs@)[0] == programs@[0]@);
        (programs[0].platform.to_string(), programs[0].audience_match_score)
    } else {
        (String::from_str("instagram"), 500_000u32)
    };
    let ad_type = best.to_string();
    let points = generate_selling_points(p.category.as_str(), p.name.as_str());
    let tone = if str_contains(audience, "18-25") || str_contains(audience, "18-30") {
        String::from_str("casual and trendy")
    } else if str_contains(audience, "45") || str_contains(audience, "50") {
        String::from_str("professional and trustworthy")
    } else {
        String::from_str("friendly and engaging")
    };
    let c = p.category.as_str();
    let competition = if str_eq(c, "Beauty & Skincare") || str_eq(c, "Fashion & Apparel") {
        String::from_str("high")
    } else if str_eq(c, "Consumer Electronics") || str_eq(c, "Wearable Health Technology") || str_eq(
        c,
        "Health & Wellness",
    ) || str_eq(c, "Fitness & Recovery") {
        String::from_str("medium")
    } else {
        String::from_str("low")
    };
    let e: i64 = 6000 * (trending as i64) + 2 * (best_match as i64) / 5;
    let engagement_score = if e > 1_000_000 { 1_000_000 } else { e };
    MarketAnalysis {
        recommended_ad_type: ad_type,
        recommended_platform: platform,
        target_demographic: String::from_str(audience),
        key_selling_points: points,
        suggested_tone: tone,
        competition_level: competition,
        estimated_engagement_score: engagement_score,
    }
}

/// Runs both scorers on a product and derives what content synthesis needs.
pub fn analyze_market_for_product(p: &Product) -> (r: MarketAnalysis)
    ensures
        r@ == market_view_of(*p),
{
    let audience: &str = match &p.target_audience {
        Some(a) => a.as_str(),
        None => "Age 25-45",
    };
    let trending: i32 = match p.trending_score {
        Some(t) => t,
        None => 50,
    };
    let price: &str = match &p.price_range {
        Some(a) => a.as_str(),
        None => "$50-$100",
    };
    let programs = discover_platforms(p.name.as_str(), p.category.as_str(), trending, audience, price);
    let best = select_optimal_ad_type(p);
    combine_market_analysis(p, &programs, best)
}

/// The `k`-th selling point, empty where there are fewer.
pub open spec fn point_or_empty(points: Seq<Seq<char>>, k: int) -> Seq<char> {
    if 0 <= k < points.len() { points[k] } else { Seq::empty() }
}

/// Each point with `prefix` in front.
pub open spec fn prefixed(points: Seq<Seq<char>>, prefix: Seq<char>) -> Seq<Seq<char>> {
    points.map_values(|q: Seq<char>| prefix + q)
}

/// The text of an optional string, empty where absent.
pub open spec fn or_empty(s: Option<Seq<char>>) -> Seq<char> {
    match s {
        Some(t) => t,
        None => Seq::empty(),
    }
}

/// `prefix` and `t`, or nothing where `t` is empty.
pub open spec fn unless_empty(prefix: Seq<char>, t: Seq<char>) -> Seq<char> {
    if t.len() == 0 { Seq::empty() } else { prefix + t }
}

/// Headline, body and call to action of format `f` for a product with the
/// given name, lower-case category, description, selling points and custom
/// instructions; an unknown format gets a generic template.
pub open spec fn ad_copy(
    name: Seq<char>,
    cat: Seq<char>,
    desc: Seq<char>,
    points: Seq<Seq<char>>,
    custom: Seq<char>,
    f: Seq<char>,
) -> (Seq<char>, Seq<char>, Seq<char>) {
    let first = point_or_empty(points, 0);
    if f == "social_post"@ {
        (
            "Transform your routine with "@ + name,
            "Discover why everyone is talking about "@ + name + ". "@ + desc + " "@ + (if custom.len() == 0 {
                first
            } else {
                custom
            }) + " #trending #musthave"@,
            "Shop Now"@,
        )
    } else if f == "story"@ {
        (
            "POV: You just discovered "@ + name,
            "The "@ + cat + " that's breaking the internet. Swipe up before it sells out! "@ + custom,
            "Swipe Up"@,
        )
    } else if f == "video_script"@ {
        (
            "STOP scrolling! You need to see this "@ + cat,
            "[HOOK] Wait, you don't know about "@ + name + " yet?\n\n[PROBLEM] Struggling with your "@ + cat
                + "?\n\n[SOLUTION] "@ + name + " is the game-changer you've been waiting for.\n\n[BENEFITS]\n"@
                + join(prefixed(points.take(if points.len() < 3 { points.len() as int } else { 3 }), "- "@), "\n"@)
                + "\n\n[CTA] Link in bio - but hurry, it's selling fast!"@ + unless_empty("\n\n[NOTE] "@, custom),
            "Link in Bio"@,
        )
    } else if f == "carousel"@ {
        (
            "5 Reasons "@ + name + " is a Must-Have"@,
            "Slide 1: Meet your new favorite "@ + cat + "\nSlide 2: "@ + first + "\nSlide 3: "@ + point_or_empty(points, 1)
                + "\nSlide 4: "@ + point_or_empty(points, 2) + "\nSlide 5: Ready to transform your routine?\n\n"@ + custom,
            "Save for Later"@,
        )
    } else if f == "email"@ {
        (
            "You're going to love "@ + name + " - Here's why"@,
            "Hi there,\n\nWe noticed you've been looking for the perfect "@ + cat
                + ". Well, search no more!\n\nIntroducing "@ + name + " - "@ + desc + "\n\nWhat makes it special:\n"@
                + join(prefixed(points, "  - "@), "\n"@)
                + "\n\nDon't miss out on this opportunity to upgrade your routine.\n\nBest,\nThe Team"@
                + unless_empty("\n\nP.S. "@, custom),
            "Shop Now"@,
        )
    } else if f == "sms"@ {
        (
            name,
            "Hey! "@ + name + " is finally back in stock. "@ + first + " Get yours: [LINK]"@ + unless_empty(" "@, custom),
            "Reply STOP to unsubscribe"@,
        )
    } else {
        ("Discover "@ + name, name + " - "@ + desc, "Learn More"@)
    }
}

/// Each of the first `n` strings of `points` with `prefix` in front.
fn prefix_points(points: &Vec<String>, n: usize, prefix: &str) -> (r: Vec<String>)
    requires
        n <= points@.len(),
    ensures
        views(r@) == prefixed(views(points@).take(n as int), prefix@),
{
    let mut out: Vec<String> = Vec::new();
    let mut i: usize = 0;
    while i < n
        invariant
            n <= points@.len(),
            i <= n,
            views(out@) == prefixed(views(points@).take(i as int), prefix@),
        decreases n - i,
    {
        let mut q = String::from_str(prefix);
        q.append(points[i].as_str());
        let ghost before = out@;
        out.push(q);
        assert(views(out@) =~= views(before).push(q@));
        i += 1;
        assert(views(out@) =~= prefixed(views(points@).take(i as int), prefix@));
    }
    out
}

/// A copy of the `k`-th string, empty where there are fewer.
fn point_at(points: &Vec<String>, k: usize) -> (r: String)
    ensures
        r@ == point_or_empty(views(points@), k as int),
{
    if k < points.len() {
        points[k].clone()
    } else {
        String::new()
    }
}

/// Headline, body and call to action of format `ad_type` for a product with
/// the given name, lower-case category, description, selling points and
/// custom instructions (empty for none).
pub fn write_ad_copy(
    name: &str,
    cat: &str,
    desc: &str,
    points: &Vec<String>,
    tone: &str,
    ad_type: &str,
) -> (r: (String, String, String))
    ensures
        (r.0@, r.1@, r.2@) == ad_copy(name@, cat@, desc@, views(points@), tone@, ad_type@),
{
    let ghost pts = views(points@);
    let tone_empty = tone.unicode_len() == 0;
    let ghost want = ad_copy(name@, cat@, desc@, pts, tone@, ad_type@);
    if str_eq(ad_type, "social_post") {
        let mut h = String::from_str("Transform your routine with ");
        h.append(name);
        let mut b = String::from_str("Discover why everyone is talking about ");
        b.append(name);
        b.append(". ");
        b.append(desc);
        b.append(" ");
        if tone_empty {
            let first = point_at(points, 0);
            b.append(first.as_str());
        } else {
            b.append(tone);
        }
        b.append(" #trending #musthave");
        assert(h@ =~= want.0 && b@ =~= want.1);
        (h, b, String::from_str("Shop Now"))
    } else if str_eq(ad_type, "story") {
        let mut h = String::from_str("POV: You just discovered ");
        h.append(name);
        let mut b = String::from_str("The ");
        b.append(cat);
        b.append(" that's breaking the internet. Swipe up before it sells out! ");
        b.append(tone);
        assert(h@ =~= want.0 && b@ =~= want.1);
        (h, b, String::from_str("Swipe Up"))
    } else if str_eq(ad_type, "video_script") {
        let mut h = String::from_str("STOP scrolling! You need to see this ");
        h.append(cat);
        let n: usize = if points.len() < 3 { points.len() } else { 3 };
        let bullets = prefix_points(points, n, "- ");
        let list = join_strings(&bullets, "\n");
        let mut b = String::from_str("[HOOK] Wait, you don't know about ");
        b.append(name);
        b.append(" yet?\n\n[PROBLEM] Struggling with your ");
        b.append(cat);
        b.append("?\n\n[SOLUTION] ");
        b.append(name);
        b.append(" is the game-changer you've been waiting for.\n\n[BENEFITS]\n");
        b.append(list.as_str());
        b.append("\n\n[CTA] Link in bio - but hurry, it's selling fast!");
        if !tone_empty {
            b.append("\n\n[NOTE] ");
            b.append(tone);
        }
        proof {
            assert(tone_empty ==> unless_empty("\n\n[NOTE] "@, tone@) =~= Seq::<char>::empty());
        }
        assert(h@ =~= want.0 && b@ =~= want.1);
        (h, b, String::from_str("Link in Bio"))
    } else if str_eq(ad_type, "carousel") {
        let mut h = String::from_str("5 Reasons ");
        h.append(name);
        h.append(" is a Must-Have");
        let p0 = point_at(points, 0);
        let p1 = point_at(points, 1);
        let p2 = point_at(points, 2);
        let mut b = String::from_str("Slide 1: Meet your new favorite ");
        b.append(cat);
        b.append("\nSlide 2: ");
        b.append(p0.as_str());
        b.append("\nSlide 3: ");
        b.append(p1.as_str());
        b.append("\nSlide 4: ");
        b.append(p2.as_str());
        b.append("\nSlide 5: Ready to transform your routine?\n\n");
        b.append(tone);
        assert(h@ =~= want.0 && b@ =~= want.1);
        (h, b, String::from_str("Save for Later"))
    } else if str_eq(ad_type, "email") {
        let mut h = String::from_str("You're going to love ");
        h.append(name);
        h.append(" - Here's why");
        let bullets = prefix_points(points, points.len(), "  - ");
        assert(pts.take(pts.len() as int) =~= pts);
        let list = join_strings(&bullets, "\n");
        let mut b = String::from_str("Hi there,\n\nWe noticed you've been looking for the perfect ");
        b.append(cat);
        b.append(". Well, search no more!\n\nIntroducing ");
        b.append(name);
        b.append(" - ");
        b.append(desc);
        b.append("\n\nWhat makes it special:\n");
        b.append(list.as_str());
        b.append("\n\nDon't miss out on this opportunity to upgrade your routine.\n\nBest,\nThe Team");
        if !tone_empty {
            b.append("\n\nP.S. ");
            b.append(tone);
        }
        proof {
            assert(tone_empty ==> unless_empty("\n\nP.S. "@, tone@) =~= Seq::<char>::empty());
        }
        assert(h@ =~= want.0 && b@ =~= want.1);
        (h, b, String::from_str("Shop Now"))
    } else if str_eq(ad_type, "sms") {
        let h = String::from_str(name);
        let first = point_at(points, 0);
        let mut b = String::from_str("Hey! ");
        b.append(name);
        b.append(" is finally back in stock. ");
        b.append(first.as_str());
        b.append(" Get yours: [LINK]");
        if !tone_empty {
            b.append(" ");
            b.append(tone);
        }
        proof {
            assert(tone_empty ==> unless_empty(" "@, tone@) =~= Seq::<char>::empty());
        }
        assert(h@ =~= want.0 && b@ =~= want.1);
        (h, b, String::from_str("Reply STOP to unsubscribe"))
    } else {
        let mut h = String::from_str("Discover ");
        h.append(name);
        let mut b = String::from_str(name);
        b.append(" - ");
        b.append(desc);
        assert(h@ =~= want.0 && b@ =~= want.1);
        (h, b, String::from_str("Learn More"))
    }
}


/// Headline, body and call to action of format `ad_type` for a product,
/// from the selling points of `analysis` and optional custom instructions.
pub fn generate_ad_content(
    product: &Product,
    ad_type: &str,
    analysis: &MarketAnalysis,
    custom_instructions: Option<&str>,
) -> (r: (String, String, String))
    ensures
        (r.0@, r.1@, r.2@) == ad_copy(
            product.name@,
            lower_of(product.category@),
            match product.description { Some(d) => d@, None => Seq::empty() },
            views(analysis.key_selling_points@),
            match custom_instructions { Some(c) => c@, None => Seq::empty() },
            ad_type@,
        ),
{
    let desc: &str = match &product.description {
        Some(d) => d.as_str(),
        None => "",
    };
    let tone: &str = match custom_instructions {
        Some(c) => c,
        None => "",
    };
    proof {
        reveal_strlit("");
    }
    let cat = lowercase(product.category.as_str());
    write_ad_copy(product.name.as_str(), cat.as_str(), desc, &analysis.key_selling_points, tone, ad_type)
}

/// An ad ready to be stored: the market analysis behind it, the format used,
/// the copy, and a variation name.
#[derive(Clone, Debug)]
pub struct AdDraft {
    pub market_analysis: MarketAnalysis,
    pub ad_type: String,
    pub headline: String,
    pub body_text: String,
    pub cta: String,
    pub variation_name: String,
}

/// Analyses a product and writes ad copy in the requested format, or in the
/// recommended one where none is requested.
pub fn draft_ad(product: &Product, ad_type: Option<&str>, custom_instructions: Option<&str>) -> (r: AdDraft)
    ensures
        r.market_analysis@ == market_view_of(*product),
        r.ad_type@ == match ad_type {
            Some(t) => t@,
            None => ad_type_name(ranked_ad_types(*product)[0]),
        },
        (r.headline@, r.body_text@, r.cta@) == ad_copy(
            product.name@,
            lower_of(product.category@),
            match product.description { Some(d) => d@, None => Seq::empty() },
            selling_points(product.category@, product.name@),
            match custom_instructions { Some(c) => c@, None => Seq::empty() },
            r.ad_type@,
        ),
        r.variation_name@ == product.name@ + " - "@ + r.ad_type@ + " Ad"@,
{
    let analysis = analyze_market_for_product(product);
    let chosen = match ad_type {
        Some(t) => String::from_str(t),
        None => analysis.recommended_ad_type.clone(),
    };
    let (headline, body_text, cta) = generate_ad_content(product, chosen.as_str(), &analysis, custom_instructions);
    let mut variation_name = String::from_str(product.name.as_str());
    variation_name.append(" - ");
    variation_name.append(chosen.as_str());
    variation_name.append(" Ad");
    AdDraft { market_analysis: analysis, ad_type: chosen, headline, body_text, cta, variation_name }
}

} // verus!
