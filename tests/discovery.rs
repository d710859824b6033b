use affilai::attributes::PriceTier;
use affilai::discovery::{
    discover_platforms, make_name_slug, mock_ai_discovery, mock_ai_discovery_with_platforms, program_for_slug, rank_programs,
};
use affilai::models::AffiliatePlatform;

#[test]
fn discovery_ranks_by_audience_match() {
    let r = discover_platforms("Smart Widget", "Consumer Electronics", 60, "Age 30-45", "$50-$100");
    let platforms: Vec<AffiliatePlatform> = r.iter().map(|p| p.platform).collect();
    assert_eq!(
        platforms,
        vec![
            AffiliatePlatform::YouTubeShopping,
            AffiliatePlatform::AmazonAssociates,
            AffiliatePlatform::PinterestBuyable,
            AffiliatePlatform::InstagramShopping,
            AffiliatePlatform::TikTokShop,
        ]
    );
    let scores: Vec<u32> = r.iter().map(|p| p.audience_match_score).collect();
    assert_eq!(scores, vec![1_000_000, 935_000, 900_000, 870_000, 570_000]);
}

#[test]
fn discovery_program_fields() {
    let r = discover_platforms("Smart Widget", "Consumer Electronics", 60, "Age 30-45", "$50-$100");
    let yt = &r[0];
    assert_eq!(yt.program_name, "YouTube Shopping Affiliate");
    assert_eq!(yt.commission_rate, 1000);
    assert_eq!(yt.cookie_duration, 30);
    assert_eq!(yt.affiliate_url, "https://shopping.youtube.com/products/smart-widget");
    assert!(!yt.is_official);
    assert_eq!(yt.confidence_score, 1_000_000);
    assert_eq!(yt.recommendation_reason, "Great for ages 30-45, detailed reviews boost Consumer Electronics sales");
    let amazon = &r[1];
    assert_eq!(amazon.commission_rate, 400);
    assert_eq!(amazon.cookie_duration, 24);
    assert_eq!(amazon.affiliate_url, "https://affiliate-program.amazon.com");
    assert_eq!(amazon.confidence_score, 990_250);
    let ig = &r[3];
    assert_eq!(ig.program_name, "Instagram Shopping - Smart Widget");
    assert_eq!(ig.affiliate_url, "https://business.instagram.com/shopping/smart-widget");
}

#[test]
fn discovery_ties_keep_platform_order() {
    let r = discover_platforms("Scarf", "Fashion & Apparel", 70, "Age 30-45", "$50-$100");
    assert_eq!(r[0].platform, AffiliatePlatform::InstagramShopping);
    assert_eq!(r[1].platform, AffiliatePlatform::PinterestBuyable);
    assert_eq!(r[0].audience_match_score, r[1].audience_match_score);
    assert_eq!(r[2].platform, AffiliatePlatform::AmazonAssociates);
}

#[test]
fn discovery_invariants_hold() {
    let cases = [
        ("A", "Beauty & Skincare", 95, "Gen Z", "$20"),
        ("B", "Home & Kitchen", 10, "Age 60-80", "$900"),
        ("C", "Toys", 0, "", ""),
    ];
    for (n, c, t, a, p) in cases {
        let r = discover_platforms(n, c, t, a, p);
        assert!(r.len() <= 5);
        for w in r.windows(2) {
            assert!(w[0].audience_match_score >= w[1].audience_match_score);
        }
        for prog in &r {
            assert!(prog.audience_match_score > 300_000);
            assert_eq!(prog.confidence_score, 850_000 + 15 * prog.audience_match_score / 100);
        }
    }
}

#[test]
fn discovery_is_repeatable() {
    let a = mock_ai_discovery_with_platforms("Serum", "Beauty & Skincare", 80, "Age 18-30", "$25");
    let b = mock_ai_discovery_with_platforms("Serum", "Beauty & Skincare", 80, "Age 18-30", "$25");
    assert_eq!(a.len(), b.len());
    for (x, y) in a.iter().zip(b.iter()) {
        assert_eq!(x.platform, y.platform);
        assert_eq!(x.audience_match_score, y.audience_match_score);
        assert_eq!(x.program_name, y.program_name);
        assert_eq!(x.recommendation_reason, y.recommendation_reason);
    }
}

#[test]
fn short_discovery_uses_default_inputs() {
    let a = mock_ai_discovery("Lamp", "Home & Kitchen");
    let b = discover_platforms("Lamp", "Home & Kitchen", 70, "Age 25-45", "$50-$100");
    let pa: Vec<AffiliatePlatform> = a.iter().map(|p| p.platform).collect();
    let pb: Vec<AffiliatePlatform> = b.iter().map(|p| p.platform).collect();
    assert_eq!(pa, pb);
}

#[test]
fn platform_names_round_trip() {
    assert_eq!(AffiliatePlatform::from_string("TikTok"), Some(AffiliatePlatform::TikTokShop));
    assert_eq!(AffiliatePlatform::from_string("facebook"), Some(AffiliatePlatform::FacebookShops));
    assert_eq!(AffiliatePlatform::from_string("myspace"), None);
    assert_eq!(AffiliatePlatform::from_name("TikTok"), None);
    assert_eq!(AffiliatePlatform::PinterestBuyable.to_string(), "pinterest");
}

#[test]
fn ranking_from_parsed_signals() {
    let r = rank_programs("Smart Widget", "my-slug", "Consumer Electronics", 60, (30, 45), PriceTier::Medium);
    assert_eq!(r.len(), 5);
    assert_eq!(r[0].platform, AffiliatePlatform::YouTubeShopping);
    assert_eq!(r[0].affiliate_url, "https://shopping.youtube.com/products/my-slug");
    let old = rank_programs("Smart Widget", "s", "Consumer Electronics", 60, (60, 80), PriceTier::Premium);
    assert_eq!(old[0].platform, AffiliatePlatform::AmazonAssociates);
}

#[test]
fn slugs_and_programs() {
    assert_eq!(make_name_slug("Smart Widget PRO"), "smart-widget-pro");
    let p = program_for_slug("Lamp", "lamp", "Home & Kitchen", AffiliatePlatform::PinterestBuyable, 800_000, (30, 50));
    assert_eq!(p.affiliate_url, "https://business.pinterest.com/buyable/lamp");
    assert_eq!(p.commission_rate, 1300);
    assert_eq!(p.confidence_score, 970_000);
    assert_eq!(p.recommendation_reason, "Perfect for ages 30-50, discovery-driven for Home & Kitchen");
}
