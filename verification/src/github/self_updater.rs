//! The self-updater: it fetches the newest release's build for this system
//! through the proxy.
use vstd::prelude::*;
use crate::github::proxied;

verus! {

/// The address the update is fetched from, through the proxy.
pub fn proxied_github_asset_url(asset_api_url: &str) -> (s: String)
    ensures
        s@ == proxied(asset_api_url@),
{
    crate::github::proxied_github_asset_url(asset_api_url)
}

/// The asset address the updater fetches: none when the release gives an empty one.
pub fn update_url(asset_api_url: Option<&str>) -> (r: Option<String>)
    ensures
        match asset_api_url {
            Some(u) => if u@.len() > 0 { r is Some && r.unwrap()@ == proxied(u@) } else { r is None },
            None => r is None,
        },
{
    match asset_api_url {
        Some(u) => if u.unicode_len() > 0 { Some(proxied_github_asset_url(u)) } else { None },
        None => None,
    }
}

} // verus!
