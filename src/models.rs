//! Records of the remote catalog: project types, tags, projects, versions,
//! files, dependencies, users, and a page of results.

use vstd::prelude::*;

verus! {

/// A JSON document as the catalog returns it; carried through unread.
#[verifier::external_type_specification]
#[verifier::external_body]
pub struct ExJsonValue(serde_json::Value);

/// The pagination metadata of a page: how many items there are in all and
/// how many a page holds, each when the catalog gave it.
#[derive(Debug, Clone, Copy, PartialEq, Eq, Structural)]
pub struct PageMeta {
    pub total: Option<u64>,
    pub per_page: Option<u64>,
}

/// A page of results: the items, the pagination metadata, and the links
/// exactly as the catalog returned them.
pub struct PaginatedResponse<T> {
    pub data: Vec<T>,
    pub meta: Option<PageMeta>,
    pub links: Option<serde_json::Value>,
}

impl<T> PaginatedResponse<T> {
    /// A page with no items and no metadata.
    pub fn empty() -> (r: Self)
        ensures
            r.data@.len() == 0,
            r.meta is None,
            r.links is None,
    {
        PaginatedResponse { data: Vec::new(), meta: None, links: None }
    }
}

/// A kind of project offered by the catalog.
#[derive(Debug, Clone)]
pub struct ProjectType {
    pub name: String,
    pub slug: String,
    pub icon: String,
}

/// A tag of the catalog (used for both project tags and version tags). Only
/// one level of `sub_tags` is shown by this library.
#[derive(Debug)]
pub struct ProjectTag {
    pub name: String,
    pub slug: String,
    pub icon: String,
    pub tag_group: String,
    pub project_types: Vec<String>,
    pub main_tag: String,
    pub sub_tags: Vec<ProjectTag>,
}

/// A project of the catalog.
#[derive(Debug, Clone)]
pub struct Project {
    pub name: String,
    pub slug: String,
    pub summary: String,
    pub description: Option<String>,
    pub logo_url: String,
    pub website: Option<String>,
    pub issues: Option<String>,
    pub source: Option<String>,
    pub status: String,
    pub downloads: u64,
    pub created_at: String,
    pub last_release_date: Option<String>,
    pub updated_at: Option<String>,
    pub version_count: u64,
    pub tags: Vec<String>,
    pub members: Vec<serde_json::Value>,
}

/// A downloadable file of a project version.
#[derive(Debug, Clone)]
pub struct ProjectFile {
    pub name: String,
    pub size: u64,
    pub sha1: String,
    pub url: String,
}

/// A dependency of a project version on another project's version.
#[derive(Debug, Clone)]
pub struct ProjectVersionDependency {
    pub project_slug: String,
    pub version_slug: String,
    pub dep_type: String,
    pub external: bool,
}

/// A released version of a project.
#[derive(Debug, Clone)]
pub struct ProjectVersion {
    pub name: String,
    pub version: String,
    pub release_type: String,
    pub release_date: String,
    pub changelog: Option<String>,
    pub downloads: u64,
    pub tags: Vec<String>,
    pub files: Vec<ProjectFile>,
    pub dependencies: Vec<ProjectVersionDependency>,
}

/// A user of the catalog.
#[derive(Debug, Clone)]
pub struct User {
    pub username: String,
    pub bio: Option<String>,
    pub avatar: Option<String>,
    pub created_at: String,
}

} // verus!
