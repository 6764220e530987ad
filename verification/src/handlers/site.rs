//! Public site information: the creator's profile.

use vstd::prelude::*;

verus! {

/// Public profile of the site's creator
#[derive(Debug, Clone)]
pub struct CreatorProfile {
    /// Creator's display name
    pub display_name: Option<String>,
    /// URL to the creator's avatar image
    pub avatar_url: Option<String>,
    /// URL to the creator's banner image
    pub banner: Option<String>,
    /// Creator's bio shown on the public site
    pub description: Option<String>,
}

/// Public site information: the creator's profile
#[derive(Debug, Clone)]
pub struct SiteResponse {
    /// The site creator's public profile, if a creator account exists
    pub creator: Option<CreatorProfile>,
}

/// The site response for the creator account found, if any
pub fn site_response(creator: Option<CreatorProfile>) -> (r: SiteResponse)
    ensures
        r == (SiteResponse { creator }),
{
    SiteResponse { creator }
}

} // verus!
