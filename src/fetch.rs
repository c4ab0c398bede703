//! The fetch each loading screen asks for, and the transition made when it
//! completes. The fetch itself is done by the caller between the two.

use vstd::prelude::*;
use vstd::string::*;
use crate::models::{PaginatedResponse, Project, ProjectTag, ProjectType, ProjectVersion};
use crate::pages::{calculate_total_pages, meta_page_count};
use crate::params::{ListProjectsParams, ListVersionsParams};
use crate::state::{AppScreen, AppState, PAGE_SIZE, sort_direction_text, sort_field_text};
use crate::tags::{flatten, flatten_tags};
use crate::text::concat_str;

verus! {

/// A request to the catalog.
pub enum FetchRequest {
    /// All project types.
    ProjectTypes,
    /// A page of projects.
    Projects(ListProjectsParams),
    /// The project tags and then the version tags of a project type.
    Tags { project_type: String },
    /// One project.
    ProjectDetails { slug: String },
    /// A page of a project's versions.
    ProjectVersions { slug: String, params: ListVersionsParams },
    /// One version of a project.
    VersionDetails { slug: String, version: String },
}

/// What the catalog returned for a request.
pub enum FetchResponse {
    ProjectTypes(Vec<ProjectType>),
    Projects(PaginatedResponse<Project>),
    Tags { project_tags: Vec<ProjectTag>, version_tags: Vec<ProjectTag> },
    ProjectDetails(Project),
    ProjectVersions(PaginatedResponse<ProjectVersion>),
    VersionDetails(ProjectVersion),
}

/// What a failed request was for, to name it in the error.
#[derive(Debug, Clone, Copy, PartialEq, Eq, Structural)]
pub enum Resource {
    ProjectTypes,
    Projects,
    ProjectTags,
    VersionTags,
    ProjectDetails,
    ProjectVersions,
    VersionDetails,
}

/// How a resource is named in errors.
pub open spec fn resource_label(r: Resource) -> Seq<char> {
    match r {
        Resource::ProjectTypes => "project types"@,
        Resource::Projects => "projects"@,
        Resource::ProjectTags => "project tags"@,
        Resource::VersionTags => "version tags"@,
        Resource::ProjectDetails => "project details"@,
        Resource::ProjectVersions => "project versions"@,
        Resource::VersionDetails => "version details"@,
    }
}

impl Resource {
    /// The error shown when fetching this resource failed with `cause`:
    /// `Failed to fetch <resource>: <cause>`.
    pub fn failure_message(&self, cause: &str) -> (r: String)
        ensures
            r@ == "Failed to fetch "@ + resource_label(*self) + ": "@ + cause@,
    {
        let label: &str = match self {
            Resource::ProjectTypes => "project types",
            Resource::Projects => "projects",
            Resource::ProjectTags => "project tags",
            Resource::VersionTags => "version tags",
            Resource::ProjectDetails => "project details",
            Resource::ProjectVersions => "project versions",
            Resource::VersionDetails => "version details",
        };
        proof {
            reveal_strlit("project types");
            reveal_strlit("projects");
            reveal_strlit("project tags");
            reveal_strlit("version tags");
            reveal_strlit("project details");
            reveal_strlit("project versions");
            reveal_strlit("version details");
        }
        assert(label@ == resource_label(*self));
        let mut r = concat_str("Failed to fetch ", label);
        r.append(": ");
        r.append(cause);
        r
    }
}

/// The error of a fetch asked for before a client was made.
pub open spec fn no_client_text() -> Seq<char> {
    "Client not initialized"@
}

/// `p` asks for the current page of projects of the chosen type, with the
/// session's checked tags, search text and sort order.
pub open spec fn projects_params_for(s: AppState, p: ListProjectsParams) -> bool {
    &&& p.project_type matches Some(t) && t@ == s.project_types@[s.selected_type_index as int].slug@
    &&& if s.search_query@.len() == 0 { p.search is None } else { p.search matches Some(q) && q@ == s.search_query@ }
    &&& if s.selected_tags@.len() == 0 { p.tags is None } else { p.tags matches Some(v) && v@ == s.selected_tags@ }
    &&& if s.selected_version_tags@.len() == 0 {
        p.version_tags is None
    } else {
        p.version_tags matches Some(v) && v@ == s.selected_version_tags@
    }
    &&& p.order_by matches Some(o) && o@ == sort_field_text(s.sort_field)
    &&& p.order_direction matches Some(d) && d@ == sort_direction_text(s.sort_direction)
    &&& p.per_page == PAGE_SIZE
    &&& p.page == s.current_page
    &&& p.release_date_period matches Some(r) && r@ == "all"@
    &&& p.release_date_start is None
    &&& p.release_date_end is None
}

/// `p` asks for the current page of the opened project's versions.
pub open spec fn versions_params_for(s: AppState, p: ListVersionsParams) -> bool {
    &&& p.tags is None
    &&& p.order_by@ == "downloads"@
    &&& p.order_direction@ == "desc"@
    &&& p.per_page == PAGE_SIZE
    &&& p.page == s.versions_current_page
}

/// An error whose text is `text`.
pub open spec fn refused(r: Option<Result<FetchRequest, String>>, text: Seq<char>) -> bool {
    r matches Some(Err(m)) && m@ == text
}

/// The fetch that session `s` asks for: none off the loading screens; an
/// error when what it needs is missing; the request otherwise.
pub open spec fn planned(s: AppState, r: Option<Result<FetchRequest, String>>) -> bool {
    if !crate::state::is_loading(s.screen) {
        r is None
    } else if !s.connected {
        refused(r, no_client_text())
    } else {
        match s.screen {
            AppScreen::LoadingTypes => r matches Some(Ok(FetchRequest::ProjectTypes)),
            AppScreen::LoadingProjects => if s.selected_type_index < s.project_types@.len() {
                r matches Some(Ok(FetchRequest::Projects(p))) && projects_params_for(s, p)
            } else {
                refused(r, "No project type selected"@)
            },
            AppScreen::LoadingTags => if s.selected_type_index < s.project_types@.len() {
                r matches Some(Ok(FetchRequest::Tags { project_type }))
                    && project_type@ == s.project_types@[s.selected_type_index as int].slug@
            } else {
                refused(r, "No project type selected"@)
            },
            AppScreen::LoadingProjectDetails => if s.selected_row < s.projects.data@.len() {
                r matches Some(Ok(FetchRequest::ProjectDetails { slug }))
                    && slug@ == s.projects.data@[s.selected_row as int].slug@
            } else {
                refused(r, "No project selected"@)
            },
            AppScreen::LoadingProjectVersions => match s.selected_project {
                Some(p) => r matches Some(Ok(FetchRequest::ProjectVersions { slug, params }))
                    && slug@ == p.slug@ && versions_params_for(s, params),
                None => refused(r, "No selected project details loaded"@),
            },
            _ => match s.selected_project {
                Some(p) => if s.selected_version_row < s.project_versions.data@.len() {
                    r matches Some(Ok(FetchRequest::VersionDetails { slug, version }))
                        && slug@ == p.slug@
                        && version@ == s.project_versions.data@[s.selected_version_row as int].version@
                } else {
                    refused(r, "No version selected"@)
                },
                None => refused(r, "No selected project details loaded"@),
            },
        }
    }
}

fn copy_slugs(v: &Vec<String>) -> (r: Option<Vec<String>>)
    ensures
        if v@.len() == 0 { r is None } else { r matches Some(c) && c@ == v@ },
{
    if v.len() == 0 {
        None
    } else {
        let mut c: Vec<String> = Vec::new();
        let mut i: usize = 0;
        while i < v.len()
            invariant
                i <= v@.len(),
                c@ == v@.subrange(0, i as int),
            decreases v@.len() - i,
        {
            c.push(v[i].clone());
            proof {
                assert(c@ =~= v@.subrange(0, i as int + 1));
            }
            i = i + 1;
        }
        proof {
            assert(v@.subrange(0, i as int) =~= v@);
        }
        Some(c)
    }
}

fn refuse(text: &str) -> (r: Option<Result<FetchRequest, String>>)
    ensures
        refused(r, text@),
{
    Some(Err(text.to_owned()))
}

impl AppState {
    /// The fetch this session asks for on its loading screen, or the error
    /// that ends the loading without one (no client, nothing selected);
    /// `None` off the loading screens.
    pub fn fetch_request(&self) -> (r: Option<Result<FetchRequest, String>>)
        ensures
            planned(*self, r),
    {
        proof {
            reveal_strlit("Client not initialized");
            reveal_strlit("No project type selected");
            reveal_strlit("No project selected");
            reveal_strlit("No selected project details loaded");
            reveal_strlit("No version selected");
            reveal_strlit("all");
            reveal_strlit("downloads");
            reveal_strlit("desc");
        }
        match self.screen {
            AppScreen::LoadingTypes | AppScreen::LoadingProjects | AppScreen::LoadingTags
            | AppScreen::LoadingProjectDetails | AppScreen::LoadingProjectVersions
            | AppScreen::LoadingVersionDetails => {},
            _ => {
                return None;
            },
        }
        if !self.connected {
            return refuse("Client not initialized");
        }
        match self.screen {
            AppScreen::LoadingTypes => Some(Ok(FetchRequest::ProjectTypes)),
            AppScreen::LoadingProjects => {
                if self.selected_type_index >= self.project_types.len() {
                    return refuse("No project type selected");
                }
                let slug = self.project_types[self.selected_type_index].slug.clone();
                let search = if self.search_query.as_str().unicode_len() == 0 {
                    None
                } else {
                    Some(self.search_query.clone())
                };
                let params = ListProjectsParams {
                    project_type: Some(slug),
                    search,
                    tags: copy_slugs(&self.selected_tags),
                    version_tags: copy_slugs(&self.selected_version_tags),
                    order_by: Some(self.sort_field.to_api_string().to_owned()),
                    order_direction: Some(self.sort_direction.to_api_string().to_owned()),
                    per_page: PAGE_SIZE,
                    page: self.current_page,
                    release_date_period: Some("all".to_owned()),
                    release_date_start: None,
                    release_date_end: None,
                };
                Some(Ok(FetchRequest::Projects(params)))
            },
            AppScreen::LoadingTags => {
                if self.selected_type_index >= self.project_types.len() {
                    return refuse("No project type selected");
                }
                let slug = self.project_types[self.selected_type_index].slug.clone();
                Some(Ok(FetchRequest::Tags { project_type: slug }))
            },
            AppScreen::LoadingProjectDetails => {
                if self.selected_row >= self.projects.data.len() {
                    return refuse("No project selected");
                }
                let slug = self.projects.data[self.selected_row].slug.clone();
                Some(Ok(FetchRequest::ProjectDetails { slug }))
            },
            AppScreen::LoadingProjectVersions => match &self.selected_project {
                Some(p) => {
                    let params = ListVersionsParams {
                        tags: None,
                        order_by: "downloads".to_owned(),
                        order_direction: "desc".to_owned(),
                        per_page: PAGE_SIZE,
                        page: self.versions_current_page,
                    };
                    Some(Ok(FetchRequest::ProjectVersions { slug: p.slug.clone(), params }))
                },
                None => refuse("No selected project details loaded"),
            },
            _ => match &self.selected_project {
                Some(p) => {
                    if self.selected_version_row >= self.project_versions.data.len() {
                        return refuse("No version selected");
                    }
                    let version = self.project_versions.data[self.selected_version_row].version.clone();
                    Some(Ok(FetchRequest::VersionDetails { slug: p.slug.clone(), version }))
                },
                None => refuse("No selected project details loaded"),
            },
        }
    }
}

/// `page`, or `pages` when it lies past the last page.
pub open spec fn clamped_page(page: u32, pages: nat) -> u32 {
    if page as nat > pages { pages as u32 } else { page }
}

/// `s` with `msg` shown as the error and `back` as the screen.
pub open spec fn failed(s: AppState, msg: String, back: AppScreen) -> AppState {
    AppState { screen: back, error_message: Some(msg), success_message: None, ..s }
}

/// `t` is `s` after its fetch completed with `outcome`, following the table
/// of loading screens: on success the data is stored and the next screen
/// shown, with the page count read from the page's metadata and the current
/// page kept within it; on failure the error is shown on the screen the
/// loading came from.
/// A response that does not answer the active loading screen, or any
/// outcome off the loading screens, changes nothing.
pub open spec fn completed(s: AppState, outcome: Result<FetchResponse, String>, t: AppState) -> bool {
    match s.screen {
        AppScreen::LoadingTypes => match outcome {
            Ok(FetchResponse::ProjectTypes(v)) => if v@.len() == 0 {
                &&& t.error_message matches Some(m) && m@ == "No project types found"@
                &&& t == AppState {
                    project_types: v,
                    selected_type_index: 0,
                    screen: AppScreen::UrlInput,
                    error_message: t.error_message,
                    success_message: None,
                    ..s
                }
            } else {
                t == AppState { project_types: v, selected_type_index: 0, screen: AppScreen::TypeSelection, ..s }
            },
            Err(m) => t == failed(s, m, AppScreen::UrlInput),
            _ => t == s,
        },
        AppScreen::LoadingProjects => match outcome {
            Ok(FetchResponse::Projects(page)) => {
                let pages = meta_page_count(page.meta, PAGE_SIZE as nat);
                t == AppState {
                    projects: page,
                    total_pages: pages as u32,
                    current_page: clamped_page(s.current_page, pages),
                    selected_row: 0,
                    screen: AppScreen::ProjectTable,
                    ..s
                }
            },
            Err(m) => t == failed(s, m, AppScreen::TypeSelection),
            _ => t == s,
        },
        AppScreen::LoadingTags => match outcome {
            Ok(FetchResponse::Tags { project_tags, version_tags }) => {
                &&& t.flattened_tags@ == flatten(project_tags@)
                &&& t.flattened_version_tags@ == flatten(version_tags@)
                &&& t == AppState {
                    available_tags: project_tags,
                    available_version_tags: version_tags,
                    flattened_tags: t.flattened_tags,
                    flattened_version_tags: t.flattened_version_tags,
                    project_tag_selection: 0,
                    project_tag_scroll: 0,
                    version_tag_selection: 0,
                    version_tag_scroll: 0,
                    screen: AppScreen::TagFilter,
                    ..s
                }
            },
            Err(m) => t == failed(s, m, AppScreen::ProjectTable),
            _ => t == s,
        },
        AppScreen::LoadingProjectDetails => match outcome {
            Ok(FetchResponse::ProjectDetails(p)) => {
                &&& t.project_versions.data@.len() == 0
                &&& t.project_versions.meta is None
                &&& t.project_versions.links is None
                &&& t == AppState {
                    selected_project: Some(p),
                    project_versions: t.project_versions,
                    selected_version: None,
                    selected_file_row: 0,
                    selected_version_row: 0,
                    versions_current_page: 1,
                    versions_total_pages: 1,
                    screen: AppScreen::LoadingProjectVersions,
                    ..s
                }
            },
            Err(m) => t == failed(s, m, AppScreen::ProjectTable),
            _ => t == s,
        },
        AppScreen::LoadingProjectVersions => match outcome {
            Ok(FetchResponse::ProjectVersions(page)) => {
                let pages = meta_page_count(page.meta, PAGE_SIZE as nat);
                t == AppState {
                    project_versions: page,
                    versions_total_pages: pages as u32,
                    versions_current_page: clamped_page(s.versions_current_page, pages),
                    selected_version_row: 0,
                    screen: AppScreen::ProjectDetails,
                    ..s
                }
            },
            Err(m) => t == failed(s, m, AppScreen::ProjectDetails),
            _ => t == s,
        },
        AppScreen::LoadingVersionDetails => match outcome {
            Ok(FetchResponse::VersionDetails(v)) => t == AppState {
                selected_version: Some(v),
                selected_file_row: 0,
                screen: AppScreen::VersionDetails,
                ..s
            },
            Err(m) => t == failed(s, m, AppScreen::ProjectDetails),
            _ => t == s,
        },
        _ => t == s,
    }
}

/// Completes the fetch of the active loading screen with `outcome` (see
/// `completed`): the session never stays on a loading screen it had a
/// matching outcome for.
pub fn process_state(state: &mut AppState, outcome: Result<FetchResponse, String>)
    requires
        old(state).wf(),
    ensures
        completed(*old(state), outcome, *final(state)),
        final(state).wf(),
{
    proof {
        reveal_strlit("No project types found");
    }
    match state.screen {
        AppScreen::LoadingTypes => match outcome {
            Ok(FetchResponse::ProjectTypes(v)) => {
                let empty = v.len() == 0;
                state.project_types = v;
                state.selected_type_index = 0;
                if empty {
                    state.set_error("No project types found".to_owned());
                    state.screen = AppScreen::UrlInput;
                } else {
                    state.screen = AppScreen::TypeSelection;
                }
            },
            Err(m) => {
                state.set_error(m);
                state.screen = AppScreen::UrlInput;
            },
            _ => {},
        },
        AppScreen::LoadingProjects => match outcome {
            Ok(FetchResponse::Projects(page)) => {
                let pages = calculate_total_pages(page.meta.as_ref(), PAGE_SIZE as u64);
                state.projects = page;
                state.total_pages = pages;
                if state.current_page > pages {
                    state.current_page = pages;
                }
                state.selected_row = 0;
                state.screen = AppScreen::ProjectTable;
            },
            Err(m) => {
                state.set_error(m);
                state.screen = AppScreen::TypeSelection;
            },
            _ => {},
        },
        AppScreen::LoadingTags => match outcome {
            Ok(FetchResponse::Tags { project_tags, version_tags }) => {
                state.available_tags = project_tags;
                state.available_version_tags = version_tags;
                state.flatten_tags();
                state.project_tag_selection = 0;
                state.project_tag_scroll = 0;
                state.version_tag_selection = 0;
                state.version_tag_scroll = 0;
                state.screen = AppScreen::TagFilter;
            },
            Err(m) => {
                state.set_error(m);
                state.screen = AppScreen::ProjectTable;
            },
            _ => {},
        },
        AppScreen::LoadingProjectDetails => match outcome {
            Ok(FetchResponse::ProjectDetails(p)) => {
                state.selected_project = Some(p);
                state.project_versions = PaginatedResponse::empty();
                state.selected_version = None;
                state.selected_file_row = 0;
                state.selected_version_row = 0;
                state.versions_current_page = 1;
                state.versions_total_pages = 1;
                state.screen = AppScreen::LoadingProjectVersions;
            },
            Err(m) => {
                state.set_error(m);
                state.screen = AppScreen::ProjectTable;
            },
            _ => {},
        },
        AppScreen::LoadingProjectVersions => match outcome {
            Ok(FetchResponse::ProjectVersions(page)) => {
                let pages = calculate_total_pages(page.meta.as_ref(), PAGE_SIZE as u64);
                state.project_versions = page;
                state.versions_total_pages = pages;
                if state.versions_current_page > pages {
                    state.versions_current_page = pages;
                }
                state.selected_version_row = 0;
                state.screen = AppScreen::ProjectDetails;
            },
            Err(m) => {
                state.set_error(m);
                state.screen = AppScreen::ProjectDetails;
            },
            _ => {},
        },
        AppScreen::LoadingVersionDetails => match outcome {
            Ok(FetchResponse::VersionDetails(v)) => {
                state.selected_version = Some(v);
                state.selected_file_row = 0;
                state.screen = AppScreen::VersionDetails;
            },
            Err(m) => {
                state.set_error(m);
                state.screen = AppScreen::ProjectDetails;
            },
            _ => {},
        },
        _ => {},
    }
}

impl AppState {
    /// Completes connecting to `api_url`: on success the client is noted and
    /// the project types are loaded next, with no stale error; on failure
    /// `Failed to create client: <cause>` is shown and the screen stays.
    pub fn connect_finished(&mut self, result: Result<(), String>)
        requires
            old(self).wf(),
        ensures
            match result {
                Ok(()) => *final(self) == (AppState {
                    connected: true,
                    screen: AppScreen::LoadingTypes,
                    error_message: None,
                    ..*old(self)
                }),
                Err(cause) => final(self).error_message matches Some(m)
                    && m@ == "Failed to create client: "@ + cause@
                    && *final(self) == (AppState {
                        error_message: final(self).error_message,
                        success_message: None,
                        ..*old(self)
                    }),
            },
            final(self).wf(),
    {
        match result {
            Ok(()) => {
                self.connected = true;
                self.screen = AppScreen::LoadingTypes;
                self.error_message = None;
            },
            Err(cause) => {
                let m = concat_str("Failed to create client: ", cause.as_str());
                self.set_error(m);
            },
        }
    }

    /// Completes a download: `Downloaded file: <name>` is shown as the status
    /// when the file was saved as `name`, the error otherwise; the screen
    /// stays.
    pub fn download_finished(&mut self, result: Result<String, String>)
        requires
            old(self).wf(),
        ensures
            match result {
                Ok(name) => final(self).success_message matches Some(m)
                    && m@ == "Downloaded file: "@ + name@
                    && *final(self) == (AppState {
                        error_message: None,
                        success_message: final(self).success_message,
                        ..*old(self)
                    }),
                Err(e) => *final(self) == (AppState {
                    error_message: Some(e),
                    success_message: None,
                    ..*old(self)
                }),
            },
            final(self).wf(),
    {
        match result {
            Ok(name) => {
                let m = concat_str("Downloaded file: ", name.as_str());
                self.set_success(m);
            },
            Err(e) => {
                self.set_error(e);
            },
        }
    }
}

/// No completed fetch leaves an error and a status shown together, when
/// they were not both shown before.
pub proof fn lemma_completion_keeps_one_message(s: AppState, outcome: Result<FetchResponse, String>, t: AppState)
    requires
        completed(s, outcome, t),
        !(s.error_message is Some && s.success_message is Some),
    ensures
        !(t.error_message is Some && t.success_message is Some),
{
}

} // verus!
