use affilai::analytics::{
    analyze_market_for_product, calculate_audience_score, calculate_category_score, category_score_lowered,
    select_optimal_ad_type, AdType, MarketAnalysis,
};
use affilai::models::Product;

fn create_test_product(category: &str, target_audience: Option<&str>, trending_score: Option<i32>) -> Product {
    Product {
        id: Some(1),
        name: "Test Product".to_string(),
        category: category.to_string(),
        description: Some("Test description".to_string()),
        price_range: Some("$50-$100".to_string()),
        target_audience: target_audience.map(String::from),
        trending_score,
        notes: None,
        image_url: None,
        amazon_asin: None,
        tiktok_product_id: None,
        instagram_product_id: None,
        youtube_video_id: None,
        pinterest_pin_id: None,
        product_url: None,
        created_at: None,
        updated_at: None,
    }
}

#[test]
fn test_tech_products_favor_video_scripts() {
    let product = create_test_product("Consumer Electronics", Some("Age 30-45"), Some(60));
    let ad_type = select_optimal_ad_type(&product);
    assert_eq!(ad_type, AdType::VideoScript);
}

#[test]
fn test_fashion_products_favor_carousels() {
    let product = create_test_product("Fashion & Apparel", Some("Age 25-40"), Some(65));
    let ad_type = select_optimal_ad_type(&product);
    assert!(ad_type == AdType::Carousel || ad_type == AdType::Story);
}

#[test]
fn test_gen_z_audience_favors_stories() {
    let product = create_test_product("Beauty & Skincare", Some("Gen Z, Age 18-24"), Some(75));
    let ad_type = select_optimal_ad_type(&product);
    assert_eq!(ad_type, AdType::Story);
}

#[test]
fn test_older_audience_favors_email() {
    let product = create_test_product("Health & Wellness", Some("Age 55-70, Boomers"), Some(40));
    let ad_type = select_optimal_ad_type(&product);
    assert_eq!(ad_type, AdType::Email);
}

#[test]
fn test_high_trending_favors_social_post() {
    let product = create_test_product("Gadgets", Some("Age 25-35"), Some(92));
    let analysis = analyze_market_for_product(&product);
    assert!(analysis.confidence_score > 600_000);
}

#[test]
fn test_tiktok_platform_boosts_story() {
    let mut product = create_test_product("Beauty & Skincare", Some("Age 18-30"), Some(70));
    product.tiktok_product_id = Some("tiktok123".to_string());
    let analysis = analyze_market_for_product(&product);
    assert_eq!(analysis.recommended_ad_type, AdType::Story);
}

#[test]
fn test_youtube_platform_boosts_video_script() {
    let mut product = create_test_product("Consumer Electronics", Some("Age 30-50"), Some(55));
    product.youtube_video_id = Some("youtube456".to_string());
    let analysis = analyze_market_for_product(&product);
    assert_eq!(analysis.recommended_ad_type, AdType::VideoScript);
}

#[test]
fn test_instagram_pinterest_boosts_carousel() {
    let mut product = create_test_product("Home & Decor", Some("Age 30-45"), Some(60));
    product.instagram_product_id = Some("insta789".to_string());
    product.pinterest_pin_id = Some("pin101".to_string());
    let analysis = analyze_market_for_product(&product);
    assert_eq!(analysis.recommended_ad_type, AdType::Carousel);
}

#[test]
fn test_market_analysis_has_alternatives() {
    let product = create_test_product("Fashion & Apparel", Some("Age 25-35"), Some(70));
    let analysis = analyze_market_for_product(&product);
    assert!(!analysis.alternative_types.is_empty());
    assert!(analysis.alternative_types.len() <= 3);
}

#[test]
fn test_confidence_score_in_valid_range() {
    let product = create_test_product("Consumer Electronics", Some("Age 25-45"), Some(65));
    let analysis = analyze_market_for_product(&product);
    assert!(analysis.confidence_score <= 1_000_000);
}

#[test]
fn test_ad_type_display_name() {
    assert_eq!(AdType::SocialPost.display_name(), "Social Media Post");
    assert_eq!(AdType::Story.display_name(), "Story");
    assert_eq!(AdType::VideoScript.display_name(), "Video Script");
    assert_eq!(AdType::Carousel.display_name(), "Carousel");
    assert_eq!(AdType::Email.display_name(), "Email");
    assert_eq!(AdType::Sms.display_name(), "SMS");
}

#[test]
fn test_default_ad_type() {
    assert_eq!(AdType::default(), AdType::SocialPost);
}

#[test]
fn test_default_market_analysis() {
    let analysis = MarketAnalysis::default();
    assert_eq!(analysis.recommended_ad_type, AdType::SocialPost);
    assert_eq!(analysis.confidence_score, 500_000);
}

#[test]
fn tech_product_full_analysis() {
    let product = create_test_product("Consumer Electronics", Some("Age 30-45"), Some(60));
    let analysis = analyze_market_for_product(&product);
    assert_eq!(analysis.recommended_ad_type, AdType::VideoScript);
    assert_eq!(analysis.confidence_score, 850_000);
    assert_eq!(analysis.alternative_types, vec![AdType::SocialPost, AdType::Email, AdType::Carousel]);
    assert_eq!(
        analysis.reasoning,
        "The 'Consumer Electronics' category aligns strongly with Video Script format. Target audience 'Age 30-45' responds well to this format."
    );
}

#[test]
fn alternatives_are_distinct_and_exclude_winner() {
    let product = create_test_product("Health & Wellness", Some("Age 55-70, Boomers"), Some(40));
    let analysis = analyze_market_for_product(&product);
    assert_eq!(analysis.recommended_ad_type, AdType::Email);
    assert_eq!(analysis.alternative_types, vec![AdType::VideoScript, AdType::Sms, AdType::SocialPost]);
    assert!(!analysis.alternative_types.contains(&analysis.recommended_ad_type));
    assert_eq!(
        analysis.reasoning,
        "The 'Health & Wellness' category aligns strongly with Email format. Target audience 'Age 55-70, Boomers' responds well to this format. This format builds trust for products needing education."
    );
}

#[test]
fn default_reasoning_names_confidence() {
    let product = create_test_product("Toys", None, None);
    let analysis = analyze_market_for_product(&product);
    assert_eq!(analysis.recommended_ad_type, AdType::Email);
    assert_eq!(analysis.confidence_score, 572_500);
    assert_eq!(analysis.reasoning, "Email selected as the balanced choice for 'Test Product' with confidence 57%");
}

#[test]
fn platform_clause_names_present_platforms() {
    let mut product = create_test_product("Home & Decor", Some("Age 30-45"), Some(60));
    product.instagram_product_id = Some("insta789".to_string());
    product.pinterest_pin_id = Some("pin101".to_string());
    let analysis = analyze_market_for_product(&product);
    assert_eq!(analysis.confidence_score, 860_000);
    assert_eq!(
        analysis.reasoning,
        "The 'Home & Decor' category aligns strongly with Carousel format. Target audience 'Age 30-45' responds well to this format. Available on Instagram, Pinterest which natively supports this format."
    );
}

#[test]
fn analysis_is_repeatable() {
    let product = create_test_product("Beauty & Skincare", Some("Gen Z, Age 18-24"), Some(75));
    let a = analyze_market_for_product(&product);
    let b = analyze_market_for_product(&product);
    assert_eq!(a.recommended_ad_type, b.recommended_ad_type);
    assert_eq!(a.confidence_score, b.confidence_score);
    assert_eq!(a.reasoning, b.reasoning);
    assert_eq!(a.alternative_types, b.alternative_types);
}

#[test]
fn ad_type_names_round_trip() {
    for t in AdType::all() {
        assert_eq!(AdType::from_string(&t.to_string()), Some(t));
    }
    assert_eq!(AdType::from_string("VIDEO_SCRIPT"), Some(AdType::VideoScript));
    assert_eq!(AdType::from_string("banner"), None);
    assert_eq!(AdType::from_name("VIDEO_SCRIPT"), None);
    assert_eq!(AdType::from_name("email"), Some(AdType::Email));
    assert_eq!(AdType::Sms.description(), "Optimal for urgent, high-conversion messages");
}

#[test]
fn lowered_analysis_matches_full_analysis() {
    let product = create_test_product("Beauty & Skincare", Some("Gen Z, Age 18-24"), Some(75));
    let a = analyze_market_for_product(&product);
    let b = affilai::analytics::analyze_with_lowered(&product, "beauty & skincare", Some("gen z, age 18-24"));
    assert_eq!(a.recommended_ad_type, b.recommended_ad_type);
    assert_eq!(a.confidence_score, 900_000);
    assert_eq!(b.confidence_score, 900_000);
    assert_eq!(a.reasoning, b.reasoning);
}

#[test]
fn sub_score_tables() {
    assert_eq!(calculate_category_score("Consumer ELECTRONICS", AdType::VideoScript), 100);
    assert_eq!(category_score_lowered("Consumer ELECTRONICS", AdType::VideoScript), 40);
    assert_eq!(calculate_category_score("Flash Deals", AdType::Sms), 95);
    assert_eq!(calculate_audience_score(&None, AdType::Email), 50);
    assert_eq!(calculate_audience_score(&Some("BOOMERS".to_string()), AdType::Email), 100);
    assert_eq!(calculate_audience_score(&Some("Age 30-45".to_string()), AdType::Story), 75);
}

#[test]
fn generation_keyword_overrides_age_band() {
    let boomers = Some("Boomers, Age 30-45".to_string());
    assert_eq!(calculate_audience_score(&boomers, AdType::Story), 20);
    assert_eq!(calculate_audience_score(&boomers, AdType::Email), 100);
    let genz = Some("Gen Z, Age 40-50".to_string());
    assert_eq!(calculate_audience_score(&genz, AdType::VideoScript), 70);
    assert_eq!(calculate_audience_score(&Some("Age 10-14".to_string()), AdType::Story), 20);
    assert_eq!(calculate_audience_score(&Some("Age 60-70".to_string()), AdType::Sms), 75);
}
