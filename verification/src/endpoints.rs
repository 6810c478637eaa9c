//! The addresses of the three resources, built from a base address.

use vstd::prelude::*;
use vstd::string::StringExecFns;

verus! {

/// The address of the site list: the base followed by `/sites`.
pub open spec fn sites_url_spec(base_url: Seq<char>) -> Seq<char> {
    base_url + "/sites"@
}

/// The address of one site's current prices at half-hour resolution.
pub open spec fn current_prices_url_spec(base_url: Seq<char>, site_id: Seq<char>) -> Seq<char> {
    base_url + "/sites/"@ + site_id + "/prices/current?resolution=30"@
}

/// The address of one site's usage between two dates at half-hour resolution.
pub open spec fn usage_url_spec(
    base_url: Seq<char>,
    site_id: Seq<char>,
    start_date: Seq<char>,
    end_date: Seq<char>,
) -> Seq<char> {
    base_url + "/sites/"@ + site_id + "/usage?startDate="@ + start_date + "&endDate="@ + end_date
        + "&resolution=30"@
}

/// Builds the address of the site list.
pub fn sites_url(base_url: &str) -> (url: String)
    ensures
        url@ == sites_url_spec(base_url@),
{
    String::from_str(base_url).concat("/sites")
}

/// Builds the address of the current prices of the site `site_id`.
pub fn current_prices_url(base_url: &str, site_id: &str) -> (url: String)
    ensures
        url@ == current_prices_url_spec(base_url@, site_id@),
{
    String::from_str(base_url).concat("/sites/").concat(site_id).concat(
        "/prices/current?resolution=30",
    )
}

/// Builds the address of the usage of the site `site_id` from `start_date`
/// to `end_date`.
pub fn usage_url(base_url: &str, site_id: &str, start_date: &str, end_date: &str) -> (url: String)
    ensures
        url@ == usage_url_spec(base_url@, site_id@, start_date@, end_date@),
{
    String::from_str(base_url).concat("/sites/").concat(site_id).concat("/usage?startDate=").concat(
        start_date,
    ).concat("&endDate=").concat(end_date).concat("&resolution=30")
}

} // verus!
