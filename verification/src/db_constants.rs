//! Names of the collections and document fields of the project store.

use vstd::prelude::*;

verus! {

/// Collections of the store.
#[derive(Debug, Clone, Copy, PartialEq, Eq, Structural)]
pub enum Collections {
    Users,
    Projects,
}

impl Collections {
    pub const USERS: &'static str = "users";
    pub const PROJECTS: &'static str = "projects";

    /// Name under which the store keeps this collection.
    pub open spec fn spec_name(self) -> &'static str {
        match self {
            Collections::Users => Self::USERS,
            Collections::Projects => Self::PROJECTS,
        }
    }

    /// Name under which the store keeps this collection.
    pub fn name(self) -> (s: &'static str)
        ensures
            s == self.spec_name(),
    {
        match self {
            Collections::Users => Self::USERS,
            Collections::Projects => Self::PROJECTS,
        }
    }
}

/// Fields of a user document.
#[derive(Debug, Clone, Copy, PartialEq, Eq, Structural)]
pub enum UserFields {
    Id,
    Email,
    DisplayName,
    PasswdHash,
    Projects,
}

impl UserFields {
    pub const ID: &'static str = "_id";
    pub const EMAIL: &'static str = "email";
    pub const DISPLAY_NAME: &'static str = "display_name";
    pub const PASSWD_HASH: &'static str = "passwd_hash";
    pub const PROJECTS: &'static str = "projects";

    /// Key of this field in a user document.
    pub open spec fn spec_name(self) -> &'static str {
        match self {
            UserFields::Id => Self::ID,
            UserFields::Email => Self::EMAIL,
            UserFields::DisplayName => Self::DISPLAY_NAME,
            UserFields::PasswdHash => Self::PASSWD_HASH,
            UserFields::Projects => Self::PROJECTS,
        }
    }

    /// Key of this field in a user document.
    pub fn name(self) -> (s: &'static str)
        ensures
            s == self.spec_name(),
    {
        match self {
            UserFields::Id => Self::ID,
            UserFields::Email => Self::EMAIL,
            UserFields::DisplayName => Self::DISPLAY_NAME,
            UserFields::PasswdHash => Self::PASSWD_HASH,
            UserFields::Projects => Self::PROJECTS,
        }
    }
}

/// Fields of a project document.
#[derive(Debug, Clone, Copy, PartialEq, Eq, Structural)]
pub enum ProjectFields {
    Id,
    Name,
    TemplateLink,
    Owner,
    Contributors,
    TierContainerHtml,
    ImageCarouselHtml,
}

impl ProjectFields {
    pub const ID: &'static str = "_id";
    pub const NAME: &'static str = "name";
    pub const TEMPLATE_LINK: &'static str = "template_link";
    pub const OWNER: &'static str = "owner";
    pub const CONTRIBUTORS: &'static str = "contributors";
    pub const TIER_CONTAINER_HTML: &'static str = "tier_container_html";
    pub const IMAGE_CAROUSEL_HTML: &'static str = "image_carousel_html";

    /// Key of this field in a project document.
    pub open spec fn spec_name(self) -> &'static str {
        match self {
            ProjectFields::Id => Self::ID,
            ProjectFields::Name => Self::NAME,
            ProjectFields::TemplateLink => Self::TEMPLATE_LINK,
            ProjectFields::Owner => Self::OWNER,
            ProjectFields::Contributors => Self::CONTRIBUTORS,
            ProjectFields::TierContainerHtml => Self::TIER_CONTAINER_HTML,
            ProjectFields::ImageCarouselHtml => Self::IMAGE_CAROUSEL_HTML,
        }
    }

    /// Key of this field in a project document.
    pub fn name(self) -> (s: &'static str)
        ensures
            s == self.spec_name(),
    {
        match self {
            ProjectFields::Id => Self::ID,
            ProjectFields::Name => Self::NAME,
            ProjectFields::TemplateLink => Self::TEMPLATE_LINK,
            ProjectFields::Owner => Self::OWNER,
            ProjectFields::Contributors => Self::CONTRIBUTORS,
            ProjectFields::TierContainerHtml => Self::TIER_CONTAINER_HTML,
            ProjectFields::ImageCarouselHtml => Self::IMAGE_CAROUSEL_HTML,
        }
    }
}

} // verus!
