//! Content shape of the earlier row-based project layout.

use vstd::prelude::*;

verus! {

/// Project content in which the tiers are kept as rows.
#[derive(Debug, Clone)]
pub struct ProjectContents {
    pub tier_rows_html: String,
    pub image_carousel_html: String,
}

} // verus!
