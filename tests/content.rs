use affilai::ad_generation::{
    analyze_market_for_product, combine_market_analysis, generate_ad_content, generate_selling_points, write_ad_copy,
    MarketAnalysis,
};
use affilai::analytics::AdType;
use affilai::models::{update_assignments, Product, UpdateProductInput};

fn widget(category: &str, audience: Option<&str>, trending: Option<i32>) -> Product {
    Product {
        id: Some(7),
        name: "Smart Widget".to_string(),
        category: category.to_string(),
        description: Some("A clever gadget.".to_string()),
        price_range: Some("$50-$100".to_string()),
        target_audience: audience.map(String::from),
        trending_score: trending,
        notes: None,
        image_url: None,
        amazon_asin: None,
        tiktok_product_id: None,
        instagram_product_id: None,
        youtube_video_id: None,
        pinterest_pin_id: None,
        product_url: None,
        created_at: None,
        updated_at: None,
    }
}

fn context(points: &[&str]) -> MarketAnalysis {
    MarketAnalysis {
        recommended_ad_type: "social_post".to_string(),
        recommended_platform: "instagram".to_string(),
        target_demographic: "Age 25-45".to_string(),
        key_selling_points: points.iter().map(|s| s.to_string()).collect(),
        suggested_tone: "friendly and engaging".to_string(),
        competition_level: "low".to_string(),
        estimated_engagement_score: 0,
    }
}

#[test]
fn aggregator_for_tech_product() {
    let p = widget("Consumer Electronics", Some("Age 30-45"), Some(60));
    let m = analyze_market_for_product(&p);
    assert_eq!(m.recommended_ad_type, "video_script");
    assert_eq!(m.recommended_platform, "youtube");
    assert_eq!(m.target_demographic, "Age 30-45");
    assert_eq!(m.suggested_tone, "professional and trustworthy");
    assert_eq!(m.competition_level, "medium");
    assert_eq!(m.estimated_engagement_score, 760_000);
    assert_eq!(m.key_selling_points[0], "Cutting-edge technology");
}

#[test]
fn aggregator_defaults_and_tone() {
    let p = widget("Beauty & Skincare", Some("Age 18-25"), None);
    let m = analyze_market_for_product(&p);
    assert_eq!(m.suggested_tone, "casual and trendy");
    assert_eq!(m.competition_level, "high");
    let q = widget("Toys", None, None);
    let n = analyze_market_for_product(&q);
    assert_eq!(n.target_demographic, "Age 25-45");
    assert_eq!(n.suggested_tone, "professional and trustworthy");
    assert_eq!(n.competition_level, "low");
}

#[test]
fn engagement_is_capped_at_one() {
    let p = widget("Consumer Electronics", Some("Age 30-45"), Some(100));
    let m = analyze_market_for_product(&p);
    assert_eq!(m.estimated_engagement_score, 1_000_000);
}

#[test]
fn selling_points_tables() {
    assert_eq!(
        generate_selling_points("Beauty & Skincare", "Glow"),
        vec!["Clinically proven results", "Natural, clean ingredients", "Visible improvement in weeks", "Glow loved by thousands"]
    );
    assert_eq!(
        generate_selling_points("Toys", "Kite"),
        vec!["Premium quality", "Exceptional value", "Customer favorite", "Discover why Kite is trending"]
    );
}

#[test]
fn social_post_falls_back_to_first_point() {
    let p = widget("Consumer Electronics", None, None);
    let (h, b, c) = generate_ad_content(&p, "social_post", &context(&["Fast", "Small"]), None);
    assert_eq!(h, "Transform your routine with Smart Widget");
    assert_eq!(b, "Discover why everyone is talking about Smart Widget. A clever gadget. Fast #trending #musthave");
    assert_eq!(c, "Shop Now");
    let (_, b2, _) = generate_ad_content(&p, "social_post", &context(&["Fast"]), Some("Only today!"));
    assert_eq!(b2, "Discover why everyone is talking about Smart Widget. A clever gadget. Only today! #trending #musthave");
}

#[test]
fn story_template() {
    let p = widget("Consumer Electronics", None, None);
    let (h, b, c) = generate_ad_content(&p, "story", &context(&["Fast"]), None);
    assert_eq!(h, "POV: You just discovered Smart Widget");
    assert_eq!(b, "The consumer electronics that's breaking the internet. Swipe up before it sells out! ");
    assert_eq!(c, "Swipe Up");
}

#[test]
fn video_script_template() {
    let p = widget("Consumer Electronics", None, None);
    let (h, b, c) = generate_ad_content(&p, "video_script", &context(&["A", "B", "C", "D"]), Some("Keep it short"));
    assert_eq!(h, "STOP scrolling! You need to see this consumer electronics");
    assert_eq!(
        b,
        "[HOOK] Wait, you don't know about Smart Widget yet?\n\n[PROBLEM] Struggling with your consumer electronics?\n\n[SOLUTION] Smart Widget is the game-changer you've been waiting for.\n\n[BENEFITS]\n- A\n- B\n- C\n\n[CTA] Link in bio - but hurry, it's selling fast!\n\n[NOTE] Keep it short"
    );
    assert_eq!(c, "Link in Bio");
}

#[test]
fn carousel_template_with_missing_points() {
    let p = widget("Home & Kitchen", None, None);
    let (h, b, c) = generate_ad_content(&p, "carousel", &context(&["One"]), None);
    assert_eq!(h, "5 Reasons Smart Widget is a Must-Have");
    assert_eq!(
        b,
        "Slide 1: Meet your new favorite home & kitchen\nSlide 2: One\nSlide 3: \nSlide 4: \nSlide 5: Ready to transform your routine?\n\n"
    );
    assert_eq!(c, "Save for Later");
}

#[test]
fn email_template() {
    let p = widget("Home & Kitchen", None, None);
    let (h, b, c) = generate_ad_content(&p, "email", &context(&["One", "Two"]), Some("Free shipping"));
    assert_eq!(h, "You're going to love Smart Widget - Here's why");
    assert_eq!(
        b,
        "Hi there,\n\nWe noticed you've been looking for the perfect home & kitchen. Well, search no more!\n\nIntroducing Smart Widget - A clever gadget.\n\nWhat makes it special:\n  - One\n  - Two\n\nDon't miss out on this opportunity to upgrade your routine.\n\nBest,\nThe Team\n\nP.S. Free shipping"
    );
    assert_eq!(c, "Shop Now");
}

#[test]
fn sms_and_generic_templates() {
    let p = widget("Home & Kitchen", None, None);
    let (h, b, c) = generate_ad_content(&p, "sms", &context(&["One"]), None);
    assert_eq!(h, "Smart Widget");
    assert_eq!(b, "Hey! Smart Widget is finally back in stock. One Get yours: [LINK]");
    assert_eq!(c, "Reply STOP to unsubscribe");
    let (h2, b2, c2) = generate_ad_content(&p, "banner", &context(&["One"]), Some("ignored"));
    assert_eq!(h2, "Discover Smart Widget");
    assert_eq!(b2, "Smart Widget - A clever gadget.");
    assert_eq!(c2, "Learn More");
}

#[test]
fn draft_uses_recommended_or_requested_format() {
    let p = widget("Consumer Electronics", Some("Age 30-45"), Some(60));
    let d = affilai::ad_generation::draft_ad(&p, None, None);
    assert_eq!(d.ad_type, "video_script");
    assert_eq!(d.variation_name, "Smart Widget - video_script Ad");
    assert_eq!(d.headline, "STOP scrolling! You need to see this consumer electronics");
    let e = affilai::ad_generation::draft_ad(&p, Some("sms"), Some("Today only"));
    assert_eq!(e.variation_name, "Smart Widget - sms Ad");
    assert_eq!(e.body_text, "Hey! Smart Widget is finally back in stock. Cutting-edge technology Get yours: [LINK] Today only");
}

#[test]
fn update_columns_follow_fields() {
    let mut u = UpdateProductInput {
        id: 3,
        name: None,
        category: None,
        description: None,
        price_range: None,
        target_audience: None,
        trending_score: None,
        notes: None,
        image_url: None,
        amazon_asin: Some("B0".to_string()),
        tiktok_product_id: None,
        instagram_product_id: None,
        youtube_video_id: None,
        pinterest_pin_id: None,
        product_url: None,
    };
    assert_eq!(update_assignments(&u), Err("No fields to update".to_string()));
    u.name = Some("New".to_string());
    u.trending_score = Some(10);
    assert_eq!(update_assignments(&u), Ok(vec!["name", "trending_score"]));
}

#[test]
fn copy_from_lowered_category() {
    let (h, b, c) = write_ad_copy("Kite", "Toys", "Flies high.", &vec!["Light".to_string()], "", "story");
    assert_eq!(h, "POV: You just discovered Kite");
    assert_eq!(b, "The Toys that's breaking the internet. Swipe up before it sells out! ");
    assert_eq!(c, "Swipe Up");
}

#[test]
fn combining_without_programs_falls_back_to_instagram() {
    let p = widget("Toys", Some("Age 18-30"), Some(40));
    let m = combine_market_analysis(&p, &Vec::new(), AdType::Carousel);
    assert_eq!(m.recommended_ad_type, "carousel");
    assert_eq!(m.recommended_platform, "instagram");
    assert_eq!(m.suggested_tone, "casual and trendy");
    assert_eq!(m.estimated_engagement_score, 440_000);
}
