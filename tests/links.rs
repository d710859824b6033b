use affilai::discovery::discover_platforms;
use affilai::links::{
    build_tracking_url, find_program_for_platform, tracking_url_for_campaign, generate_tracking_id, generate_tracking_url, select_best_program,
    tracking_id_for,
};
use affilai::prompt::{build_discovery_prompt, extract_json_array, replace_all};

#[test]
fn amazon_url_carries_tag_whatever_the_destination() {
    let a = build_tracking_url("amazon", "Amazon Associates", "Smart Widget", "https://ignored.example", "afl_1");
    assert_eq!(a, "https://www.amazon.com/dp/XXXXX?tag=affilai-20&linkCode=as2&ref=afl_1");
    let b = generate_tracking_url("amazon", "Amazon Associates", "Smart Widget", "");
    assert!(b.contains("tag=affilai-20"));
    assert!(b.starts_with("https://www.amazon.com/dp/XXXXX?tag=affilai-20&linkCode=as2&ref=afl_"));
}

#[test]
fn utm_urls_per_platform() {
    let t = build_tracking_url("tiktok", "p", "Smart Widget Pro", "https://d", "afl_9");
    assert_eq!(t, "https://d?utm_source=tiktok&utm_medium=affiliate&utm_campaign=smart_widget_pro&ref=afl_9");
    let i = build_tracking_url("instagram", "p", "Lamp", "https://d", "afl_9");
    assert_eq!(i, "https://d?utm_source=instagram&utm_medium=shopping&utm_campaign=lamp&ref=afl_9");
    let y = build_tracking_url("youtube", "p", "Lamp", "https://d", "afl_9");
    assert_eq!(y, "https://d?utm_source=youtube&utm_medium=affiliate&utm_campaign=lamp&ref=afl_9");
    let p = build_tracking_url("pinterest", "p", "Lamp", "https://d", "afl_9");
    assert_eq!(p, "https://d?utm_source=pinterest&utm_medium=pin&utm_campaign=lamp&ref=afl_9");
    let f = build_tracking_url("facebook", "p", "Big Lamp", "https://d", "afl_9");
    assert_eq!(f, "https://d?ref=afl_9&utm_campaign=big_lamp");
}

#[test]
fn tracking_ids() {
    assert_eq!(tracking_id_for(1234), "afl_1234");
    assert_eq!(tracking_id_for(0), "afl_0");
    let id = generate_tracking_id();
    assert!(id.starts_with("afl_"));
    assert!(id.len() > 4);
    assert!(id[4..].chars().all(|c| c.is_ascii_digit()));
}

#[test]
fn best_program_is_last_of_the_highest() {
    let r = discover_platforms("Scarf", "Fashion & Apparel", 70, "Age 30-45", "$50-$100");
    assert_eq!(select_best_program(&r), Some(1));
    assert_eq!(select_best_program(&Vec::new()), None);
}

#[test]
fn program_lookup_by_platform() {
    let r = discover_platforms("Smart Widget", "Consumer Electronics", 60, "Age 30-45", "$50-$100");
    assert_eq!(find_program_for_platform(&r, "Amazon"), Ok(1));
    assert_eq!(
        find_program_for_platform(&r, "Facebook"),
        Err("Platform Facebook not available for this product".to_string())
    );
}

#[test]
fn discovery_prompt_fills_fields() {
    let p = build_discovery_prompt("Widget", "Gadgets", "Small", "$10", "Teens", -5);
    assert!(p.contains("- Name: Widget\n"));
    assert!(p.contains("- Category: Gadgets\n"));
    assert!(p.contains("- Description: Small\n"));
    assert!(p.contains("- Price Range: $10\n"));
    assert!(p.contains("- Target Audience: Teens\n"));
    assert!(p.contains("- Trending Score: -5\n"));
    assert!(!p.contains("{product_name}"));
    assert!(p.starts_with("You are an expert affiliate marketing analyst."));
}

#[test]
fn replacement_is_left_to_right() {
    assert_eq!(replace_all("aaa", "aa", "b"), "ba");
    assert_eq!(replace_all("x{a}y{a}", "{a}", "1"), "x1y1");
    assert_eq!(replace_all("", "a", "b"), "");
}

#[test]
fn json_array_framing() {
    assert_eq!(extract_json_array("Here: [1, [2]] done"), Ok("[1, [2]]".to_string()));
    assert_eq!(extract_json_array("nothing"), Err("No JSON array found in response".to_string()));
    assert_eq!(extract_json_array("only ["), Err("No JSON array found in response".to_string()));
    assert_eq!(extract_json_array("] then ["), Err("Invalid JSON array structure".to_string()));
}

#[test]
fn campaign_urls() {
    assert_eq!(
        tracking_url_for_campaign("youtube", "Summer_Sale", "https://d", "afl_2"),
        "https://d?utm_source=youtube&utm_medium=affiliate&utm_campaign=Summer_Sale&ref=afl_2"
    );
    assert_eq!(
        tracking_url_for_campaign("amazon", "x", "https://d", "afl_2"),
        "https://www.amazon.com/dp/XXXXX?tag=affilai-20&linkCode=as2&ref=afl_2"
    );
}
