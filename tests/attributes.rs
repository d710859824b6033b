use affilai::attributes::{extract_age_range, extract_age_range_lowered, parse_price_tier, PriceTier};

#[test]
fn age_range_from_span() {
    assert_eq!(extract_age_range("Age 18-24"), (18, 24));
}

#[test]
fn age_range_from_generation_keyword() {
    assert_eq!(extract_age_range("Gen Z shoppers"), (18, 25));
    assert_eq!(extract_age_range("Young zoomers"), (18, 25));
    assert_eq!(extract_age_range("Millennials"), (26, 40));
    assert_eq!(extract_age_range("GenX parents"), (41, 55));
    assert_eq!(extract_age_range("Seniors"), (56, 70));
}

#[test]
fn age_range_default_for_empty_text() {
    assert_eq!(extract_age_range(""), (25, 45));
    assert_eq!(extract_age_range("Everyone"), (25, 45));
}

#[test]
fn age_range_accepts_en_dash_and_spaces() {
    assert_eq!(extract_age_range("Ages 30\u{2013}50, female"), (30, 50));
    assert_eq!(extract_age_range("ages 30-  50"), (30, 50));
    assert_eq!(extract_age_range("18 - 24"), (25, 45));
}

#[test]
fn age_range_span_wins_over_keyword() {
    assert_eq!(extract_age_range("Gen Z, Age 19-23"), (19, 23));
}

#[test]
fn age_range_lowered_is_case_sensitive() {
    assert_eq!(extract_age_range_lowered("gen z"), (18, 25));
    assert_eq!(extract_age_range_lowered("GEN Z"), (25, 45));
}

#[test]
fn price_tier_examples() {
    assert_eq!(parse_price_tier("$30-$40"), PriceTier::Low);
    assert_eq!(parse_price_tier("$300-400"), PriceTier::High);
}

#[test]
fn price_tier_thresholds() {
    assert_eq!(parse_price_tier("$49.99"), PriceTier::Low);
    assert_eq!(parse_price_tier("$50"), PriceTier::Medium);
    assert_eq!(parse_price_tier("$149"), PriceTier::Medium);
    assert_eq!(parse_price_tier("$150"), PriceTier::High);
    assert_eq!(parse_price_tier("about 500 dollars"), PriceTier::Premium);
    assert_eq!(parse_price_tier("$1,500"), PriceTier::Low);
}

#[test]
fn price_tier_defaults() {
    assert_eq!(parse_price_tier(""), PriceTier::Medium);
    assert_eq!(parse_price_tier("cheap"), PriceTier::Medium);
    assert_eq!(parse_price_tier("$99999999999"), PriceTier::Premium);
    assert_eq!(parse_price_tier("9999999999"), PriceTier::Premium);
    assert_eq!(parse_price_tier("$2147483647"), PriceTier::Premium);
}
