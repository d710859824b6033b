//! Attribution URLs and the choice of program behind an affiliate link.

use vstd::prelude::*;
use crate::discovery::AffiliateProgramDiscovery;
use crate::models::platform_name;
use crate::text::{decimal, has_substr, lower_of, lowercase, occurs_at, push_decimal, replace_char, str_eq, swap_char};

verus! {

/// Campaign slug of a product name: lower case, spaces as underscores.
pub open spec fn campaign_slug(name: Seq<char>) -> Seq<char> {
    swap_char(lower_of(name), ' ', '_')
}

/// A tracking identifier made from a time in milliseconds.
pub open spec fn tracking_id_text(millis: nat) -> Seq<char> {
    "afl_"@ + decimal(millis)
}

/// The Amazon Associates URL, which ignores the destination.
pub open spec fn amazon_url(id: Seq<char>) -> Seq<char> {
    "https://www.amazon.com/dp/XXXXX?tag=affilai-20&linkCode=as2&ref="@ + id
}

/// The tracking URL for a platform name, a product name, a destination and
/// a tracking identifier. Nothing is URL-encoded.
pub open spec fn tracking_url(platform: Seq<char>, product: Seq<char>, dest: Seq<char>, id: Seq<char>) -> Seq<char> {
    campaign_url(platform, campaign_slug(product), dest, id)
}

/// The tracking URL for a platform name, a campaign slug, a destination and
/// a tracking identifier.
pub open spec fn campaign_url(platform: Seq<char>, campaign: Seq<char>, dest: Seq<char>, id: Seq<char>) -> Seq<char> {
    if platform == "tiktok"@ {
        dest + "?utm_source=tiktok&utm_medium=affiliate&utm_campaign="@ + campaign + "&ref="@ + id
    } else if platform == "instagram"@ {
        dest + "?utm_source=instagram&utm_medium=shopping&utm_campaign="@ + campaign + "&ref="@ + id
    } else if platform == "amazon"@ {
        amazon_url(id)
    } else if platform == "youtube"@ {
        dest + "?utm_source=youtube&utm_medium=affiliate&utm_campaign="@ + campaign + "&ref="@ + id
    } else if platform == "pinterest"@ {
        dest + "?utm_source=pinterest&utm_medium=pin&utm_campaign="@ + campaign + "&ref="@ + id
    } else {
        dest + "?ref="@ + id + "&utm_campaign="@ + campaign
    }
}

/// Every Amazon URL carries the associate tag `affilai-20`, whatever the
/// identifier.
pub proof fn lemma_amazon_url_tagged(id: Seq<char>)
    ensures
        has_substr(amazon_url(id), "tag=affilai-20"@),
{
    reveal_strlit("https://www.amazon.com/dp/XXXXX?tag=affilai-20&linkCode=as2&ref=");
    reveal_strlit("tag=affilai-20");
    let u = amazon_url(id);
    assert(u.subrange(32, 46) =~= "tag=affilai-20"@);
    assert(occurs_at(u, "tag=affilai-20"@, 32));
}

/// Relies on `std::time::SystemTime::now` and `duration_since(UNIX_EPOCH)`:
/// milliseconds since the Unix epoch, 0 for a clock set before it. Nothing
/// is promised of the value.
#[verifier::external_body]
fn epoch_millis() -> (r: u128) {
    match std::time::SystemTime::now().duration_since(std::time::UNIX_EPOCH) {
        Ok(d) => d.as_millis(),
        Err(_) => 0,
    }
}

/// The tracking identifier for a time in milliseconds: `afl_` and its digits.
pub fn tracking_id_for(millis: u128) -> (r: String)
    ensures
        r@ == tracking_id_text(millis as nat),
{
    let mut r = String::from_str("afl_");
    push_decimal(&mut r, millis);
    r
}

/// A tracking identifier from the current time: `afl_` and the milliseconds
/// since the Unix epoch.
pub fn generate_tracking_id() -> (r: String)
    ensures
        exists|n: nat| r@ == tracking_id_text(n),
{
    let r = tracking_id_for(epoch_millis());
    r
}

fn utm_url(dest: &str, query: &str, campaign: &str, id: &str) -> (r: String)
    ensures
        r@ == dest@ + query@ + campaign@ + "&ref="@ + id@,
{
    let mut r = String::from_str(dest);
    r.append(query);
    r.append(campaign);
    r.append("&ref=");
    r.append(id);
    r
}

/// The tracking URL for a platform, a campaign slug and a destination, with
/// the given tracking identifier. Amazon's ignores the destination and
/// carries the tag `affilai-20`.
pub fn tracking_url_for_campaign(platform: &str, campaign: &str, destination_url: &str, tracking_id: &str) -> (r: String)
    ensures
        r@ == campaign_url(platform@, campaign@, destination_url@, tracking_id@),
        platform@ == "amazon"@ ==> has_substr(r@, "tag=affilai-20"@),
{
    proof {
        reveal_strlit("amazon");
        reveal_strlit("tiktok");
        reveal_strlit("instagram");
        assert("amazon"@[0] != "tiktok"@[0]);
        assert("amazon"@[0] != "instagram"@[0]);
    }
    let mut r: String;
    if str_eq(platform, "tiktok") {
        r = utm_url(destination_url, "?utm_source=tiktok&utm_medium=affiliate&utm_campaign=", campaign, tracking_id);
    } else if str_eq(platform, "instagram") {
        r = utm_url(destination_url, "?utm_source=instagram&utm_medium=shopping&utm_campaign=", campaign, tracking_id);
    } else if str_eq(platform, "amazon") {
        r = String::from_str("https://www.amazon.com/dp/XXXXX?tag=affilai-20&linkCode=as2&ref=");
        r.append(tracking_id);
        proof {
            lemma_amazon_url_tagged(tracking_id@);
        }
    } else if str_eq(platform, "youtube") {
        r = utm_url(destination_url, "?utm_source=youtube&utm_medium=affiliate&utm_campaign=", campaign, tracking_id);
    } else if str_eq(platform, "pinterest") {
        r = utm_url(destination_url, "?utm_source=pinterest&utm_medium=pin&utm_campaign=", campaign, tracking_id);
    } else {
        r = String::from_str(destination_url);
        r.append("?ref=");
        r.append(tracking_id);
        r.append("&utm_campaign=");
        r.append(campaign);
    }
    r
}

/// The tracking URL for a platform, a product and a destination, with the
/// given tracking identifier. Amazon's ignores the destination and carries
/// the tag `affilai-20`.
pub fn build_tracking_url(
    platform: &str,
    program_name: &str,
    product_name: &str,
    destination_url: &str,
    tracking_id: &str,
) -> (r: String)
    ensures
        r@ == tracking_url(platform@, product_name@, destination_url@, tracking_id@),
        platform@ == "amazon"@ ==> has_substr(r@, "tag=affilai-20"@),
{
    let lower = lowercase(product_name);
    let campaign = replace_char(lower.as_str(), ' ', '_');
    tracking_url_for_campaign(platform, campaign.as_str(), destination_url, tracking_id)
}

/// The tracking URL for a platform, a product and a destination, stamped
/// with an identifier from the current time.
pub fn generate_tracking_url(
    platform: &str,
    program_name: &str,
    product_name: &str,
    destination_url: &str,
) -> (r: String)
    ensures
        exists|n: nat| r@ == tracking_url(platform@, product_name@, destination_url@, tracking_id_text(n)),
        platform@ == "amazon"@ ==> has_substr(r@, "tag=affilai-20"@),
{
    let id = generate_tracking_id();
    build_tracking_url(platform, program_name, product_name, destination_url, id.as_str())
}

/// Position of the program with the greatest audience match, the last of
/// them where several tie; `None` for no programs.
pub fn select_best_program(programs: &Vec<AffiliateProgramDiscovery>) -> (r: Option<usize>)
    ensures
        r is None <==> programs@.len() == 0,
        r matches Some(b) ==> b < programs@.len()
            && (forall|k: int| 0 <= k < programs@.len() ==> #[trigger] programs@[k].audience_match_score
                <= programs@[b as int].audience_match_score)
            && (forall|k: int| b < k < programs@.len() ==> #[trigger] programs@[k].audience_match_score
                < programs@[b as int].audience_match_score),
{
    if programs.len() == 0 {
        return None;
    }
    let mut b: usize = 0;
    let mut i: usize = 1;
    while i < programs.len()
        invariant
            1 <= i <= programs@.len(),
            b < i,
            forall|k: int| 0 <= k < i ==> #[trigger] programs@[k].audience_match_score
                <= programs@[b as int].audience_match_score,
            forall|k: int| b < k < i ==> #[trigger] programs@[k].audience_match_score
                < programs@[b as int].audience_match_score,
        decreases programs@.len() - i,
    {
        if programs[i].audience_match_score >= programs[b].audience_match_score {
            b = i;
        }
        i += 1;
    }
    Some(b)
}

/// The message for a platform that no program was suggested on.
pub open spec fn unavailable_text(platform: Seq<char>) -> Seq<char> {
    "Platform "@ + platform + " not available for this product"@
}

/// Position of the first program on the platform named `platform` (in any
/// case); an error naming the platform where there is none.
pub fn find_program_for_platform(programs: &Vec<AffiliateProgramDiscovery>, platform: &str) -> (r: Result<usize, String>)
    ensures
        match r {
            Ok(i) => i < programs@.len() && platform_name(programs@[i as int].platform) == lower_of(platform@)
                && forall|k: int| 0 <= k < i ==> platform_name(#[trigger] programs@[k].platform) != lower_of(platform@),
            Err(msg) => msg@ == unavailable_text(platform@)
                && forall|k: int| 0 <= k < programs@.len() ==> platform_name(#[trigger] programs@[k].platform) != lower_of(platform@),
        },
{
    let wanted = lowercase(platform);
    let mut i: usize = 0;
    while i < programs.len()
        invariant
            i <= programs@.len(),
            wanted@ == lower_of(platform@),
            forall|k: int| 0 <= k < i ==> platform_name(#[trigger] programs@[k].platform) != lower_of(platform@),
        decreases programs@.len() - i,
    {
        let name = programs[i].platform.to_string();
        if str_eq(name.as_str(), wanted.as_str()) {
            return Ok(i);
        }
        i += 1;
    }
    let mut msg = String::from_str("Platform ");
    msg.append(platform);
    msg.append(" not available for this product");
    Err(msg)
}

} // verus!
