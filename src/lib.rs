//! Recommends, for a product, the marketing platforms and the advertisement
//! format that suit it best, writes ad copy for the chosen format, and builds
//! attribution URLs.
//!
//! Scores are fixed-point integers: the per-factor sub-scores of the lookup
//! tables are in hundredths (`100` is 1.0), and the weighted composites,
//! confidences and engagement estimates are in millionths (`1_000_000` is 1.0).

pub mod text;
pub mod attributes;
pub mod ranking;
pub mod models;
pub mod analytics;
pub mod discovery;
pub mod ad_generation;
pub mod links;
pub mod prompt;


