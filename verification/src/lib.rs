//! Live collaboration session broker for shared tier-list projects.
//!
//! The crate turns independent, long-lived socket connections into
//! per-project broadcast groups. Every decision the broker takes (who may
//! join, which topic an edit is published on, when a session ends) is a
//! verified function over plain values; transport and storage stay with the
//! caller.

use vstd::prelude::*;

pub mod authentication;
pub mod db_constants;
pub mod error;
pub mod object_id;
pub mod open_project_list;
pub mod project_options;
pub mod registry;
pub mod types;
pub mod util;
pub mod ws;
pub mod ws_types;

verus! {

/// Full content snapshot of one project, as stored and as sent to clients.
#[derive(Debug, Clone)]
pub struct ProjectContents {
    pub tier_container_html: String,
    pub image_carousel_html: String,
}

} // verus!
