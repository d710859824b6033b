//! The records the library reads and produces: products, the platforms a
//! product can be promoted on, and the inputs and records that storage keeps.

use vstd::prelude::*;
use crate::text::{lower_of, lowercase, str_eq};

verus! {

/// A product to promote. Text fields are free text; the platform identifiers
/// matter only by being present.
#[derive(Clone, Debug)]
pub struct Product {
    pub id: Option<i64>,
    pub name: String,
    pub category: String,
    pub description: Option<String>,
    pub price_range: Option<String>,
    pub target_audience: Option<String>,
    /// Popularity from 0 to 100; 50 is assumed where absent.
    pub trending_score: Option<i32>,
    pub notes: Option<String>,
    pub image_url: Option<String>,
    pub amazon_asin: Option<String>,
    pub tiktok_product_id: Option<String>,
    pub instagram_product_id: Option<String>,
    pub youtube_video_id: Option<String>,
    pub pinterest_pin_id: Option<String>,
    pub product_url: Option<String>,
    pub created_at: Option<String>,
    pub updated_at: Option<String>,
}

/// The fields of a product to be created.
#[derive(Clone, Debug)]
pub struct CreateProductInput {
    pub name: String,
    pub category: String,
    pub description: Option<String>,
    pub price_range: Option<String>,
    pub target_audience: Option<String>,
    pub trending_score: Option<i32>,
    pub notes: Option<String>,
    pub image_url: Option<String>,
    pub amazon_asin: Option<String>,
    pub tiktok_product_id: Option<String>,
    pub instagram_product_id: Option<String>,
    pub youtube_video_id: Option<String>,
    pub pinterest_pin_id: Option<String>,
    pub product_url: Option<String>,
}

/// The fields of a product to be changed; an absent field is kept.
#[derive(Clone, Debug)]
pub struct UpdateProductInput {
    pub id: i64,
    pub name: Option<String>,
    pub category: Option<String>,
    pub description: Option<String>,
    pub price_range: Option<String>,
    pub target_audience: Option<String>,
    pub trending_score: Option<i32>,
    pub notes: Option<String>,
    pub image_url: Option<String>,
    pub amazon_asin: Option<String>,
    pub tiktok_product_id: Option<String>,
    pub instagram_product_id: Option<String>,
    pub youtube_video_id: Option<String>,
    pub pinterest_pin_id: Option<String>,
    pub product_url: Option<String>,
}

/// Stored credentials for one affiliate platform.
#[derive(Clone, Debug)]
pub struct AffiliateCredential {
    pub id: Option<i64>,
    pub platform: String,
    pub affiliate_id: Option<String>,
    pub shop_id: Option<String>,
    pub account_name: Option<String>,
    pub api_key: Option<String>,
    pub api_secret: Option<String>,
    pub active: bool,
    pub verified: bool,
    pub notes: Option<String>,
    pub created_at: Option<String>,
    pub updated_at: Option<String>,
}

/// Credentials to be saved for one affiliate platform.
#[derive(Clone, Debug)]
pub struct SaveCredentialInput {
    pub platform: String,
    pub affiliate_id: Option<String>,
    pub shop_id: Option<String>,
    pub account_name: Option<String>,
    pub api_key: Option<String>,
    pub api_secret: Option<String>,
    pub notes: Option<String>,
}

/// A stored affiliate link. The commission rate is in basis points.
#[derive(Clone, Debug)]
pub struct AffiliateLink {
    pub id: Option<i64>,
    pub product_id: i64,
    pub product_name: String,
    pub platform: String,
    pub program_name: String,
    pub commission_rate: Option<u32>,
    pub cookie_duration: Option<i32>,
    pub tracking_url: String,
    pub destination_url: String,
    pub status: String,
    pub created_at: Option<String>,
    pub updated_at: Option<String>,
}

/// An affiliate link to be stored. The commission rate is in basis points.
#[derive(Clone, Debug)]
pub struct CreateAffiliateLinkInput {
    pub product_id: i64,
    pub product_name: String,
    pub platform: String,
    pub program_name: String,
    pub commission_rate: Option<u32>,
    pub cookie_duration: Option<i32>,
    pub tracking_url: String,
    pub destination_url: String,
}

/// A request for a link on the best platform for a product.
#[derive(Clone, Debug)]
pub struct GenerateLinkRequest {
    pub product_id: i64,
}

/// A request for a link on one named platform for a product.
#[derive(Clone, Debug)]
pub struct GenerateLinkForPlatformRequest {
    pub product_id: i64,
    pub platform: String,
}

/// A marketing platform with an affiliate program.
#[derive(Clone, Copy, Debug, PartialEq, Eq, Structural)]
pub enum AffiliatePlatform {
    TikTokShop,
    InstagramShopping,
    AmazonAssociates,
    YouTubeShopping,
    PinterestBuyable,
    FacebookShops,
}

/// The canonical name of a platform.
pub open spec fn platform_name(p: AffiliatePlatform) -> Seq<char> {
    match p {
        AffiliatePlatform::TikTokShop => "tiktok"@,
        AffiliatePlatform::InstagramShopping => "instagram"@,
        AffiliatePlatform::AmazonAssociates => "amazon"@,
        AffiliatePlatform::YouTubeShopping => "youtube"@,
        AffiliatePlatform::PinterestBuyable => "pinterest"@,
        AffiliatePlatform::FacebookShops => "facebook"@,
    }
}

/// The platform whose canonical name is `s`.
pub open spec fn platform_named(s: Seq<char>) -> Option<AffiliatePlatform> {
    if s == "tiktok"@ {
        Some(AffiliatePlatform::TikTokShop)
    } else if s == "instagram"@ {
        Some(AffiliatePlatform::InstagramShopping)
    } else if s == "amazon"@ {
        Some(AffiliatePlatform::AmazonAssociates)
    } else if s == "youtube"@ {
        Some(AffiliatePlatform::YouTubeShopping)
    } else if s == "pinterest"@ {
        Some(AffiliatePlatform::PinterestBuyable)
    } else if s == "facebook"@ {
        Some(AffiliatePlatform::FacebookShops)
    } else {
        None
    }
}

impl AffiliatePlatform {
    /// The canonical name: `tiktok`, `instagram`, `amazon`, `youtube`,
    /// `pinterest` or `facebook`.
    pub fn to_string(&self) -> (r: String)
        ensures
            r@ == platform_name(*self),
    {
        let s = match self {
            AffiliatePlatform::TikTokShop => "tiktok",
            AffiliatePlatform::InstagramShopping => "instagram",
            AffiliatePlatform::AmazonAssociates => "amazon",
            AffiliatePlatform::YouTubeShopping => "youtube",
            AffiliatePlatform::PinterestBuyable => "pinterest",
            AffiliatePlatform::FacebookShops => "facebook",
        };
        String::from_str(s)
    }

    /// The platform whose canonical name is exactly `s`.
    pub fn from_name(s: &str) -> (r: Option<AffiliatePlatform>)
        ensures
            r == platform_named(s@),
    {
        if str_eq(s, "tiktok") {
            Some(AffiliatePlatform::TikTokShop)
        } else if str_eq(s, "instagram") {
            Some(AffiliatePlatform::InstagramShopping)
        } else if str_eq(s, "amazon") {
            Some(AffiliatePlatform::AmazonAssociates)
        } else if str_eq(s, "youtube") {
            Some(AffiliatePlatform::YouTubeShopping)
        } else if str_eq(s, "pinterest") {
            Some(AffiliatePlatform::PinterestBuyable)
        } else if str_eq(s, "facebook") {
            Some(AffiliatePlatform::FacebookShops)
        } else {
            None
        }
    }

    /// The platform whose canonical name is `s` in lower case.
    pub fn from_string(s: &str) -> (r: Option<AffiliatePlatform>)
        ensures
            r == platform_named(lower_of(s@)),
    {
        let lower = lowercase(s);
        AffiliatePlatform::from_name(lower.as_str())
    }
}

/// The columns that an update sets, in a fixed order: those of the fields it
/// carries among name, category, description, price range, target audience,
/// trending score, notes and image URL. Platform identifiers are not updated.
pub open spec fn update_columns(u: UpdateProductInput) -> Seq<Seq<char>> {
    let a: Seq<Seq<char>> = if u.name is Some { seq!["name"@] } else { seq![] };
    let b = if u.category is Some { a.push("category"@) } else { a };
    let c = if u.description is Some { b.push("description"@) } else { b };
    let d = if u.price_range is Some { c.push("price_range"@) } else { c };
    let e = if u.target_audience is Some { d.push("target_audience"@) } else { d };
    let f = if u.trending_score is Some { e.push("trending_score"@) } else { e };
    let g = if u.notes is Some { f.push("notes"@) } else { f };
    if u.image_url is Some { g.push("image_url"@) } else { g }
}

/// The columns that an update sets; an error where it sets none.
pub fn update_assignments(input: &UpdateProductInput) -> (r: Result<Vec<&'static str>, String>)
    ensures
        match r {
            Ok(cols) => cols@.len() > 0 && cols@.map_values(|c: &'static str| c@) == update_columns(*input),
            Err(e) => update_columns(*input).len() == 0 && e@ == "No fields to update"@,
        },
{
    let mut cols: Vec<&'static str> = Vec::new();
    if input.name.is_some() {
        cols.push("name");
    }
    if input.category.is_some() {
        cols.push("category");
    }
    if input.description.is_some() {
        cols.push("description");
    }
    if input.price_range.is_some() {
        cols.push("price_range");
    }
    if input.target_audience.is_some() {
        cols.push("target_audience");
    }
    if input.trending_score.is_some() {
        cols.push("trending_score");
    }
    if input.notes.is_some() {
        cols.push("notes");
    }
    if input.image_url.is_some() {
        cols.push("image_url");
    }
    assert(cols@.map_values(|c: &'static str| c@) =~= update_columns(*input));
    if cols.len() == 0 {
        Err(String::from_str("No fields to update"))
    } else {
        Ok(cols)
    }
}

} // verus!
