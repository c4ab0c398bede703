//! The session: which screen is active, what the catalog returned, and the
//! selection, paging, filter, search and sort state, with the invariant
//! that ties them together.

use vstd::prelude::*;
use vstd::string::*;
use crate::models::{PaginatedResponse, Project, ProjectTag, ProjectType, ProjectVersion};
use crate::scroll::last_index;
use crate::tags::{FlatTag, flatten, flatten_tags};

verus! {

/// The endpoint offered when the browser starts.
pub const DEFAULT_API_URL: &'static str = "https://hub01-shop.srgnis.com/api";

/// How many items a page of projects or versions asks for.
pub const PAGE_SIZE: u32 = 10;

/// Which of the two tag tables receives the keys.
#[derive(Debug, Clone, Copy, PartialEq, Eq, Structural)]
pub enum TagTableFocus {
    /// The project tags table.
    ProjectTags,
    /// The version tags table.
    VersionTags,
}

/// The screen being shown; exactly one is active.
#[derive(Debug, Clone, Copy, PartialEq, Eq, Structural)]
pub enum AppScreen {
    /// Entering the catalog's URL.
    UrlInput,
    /// Loading the project types.
    LoadingTypes,
    /// Choosing a project type.
    TypeSelection,
    /// Loading a page of projects.
    LoadingProjects,
    /// A page of projects.
    ProjectTable,
    /// Loading the selected project's details.
    LoadingProjectDetails,
    /// The selected project with a page of its versions.
    ProjectDetails,
    /// Loading a page of the selected project's versions.
    LoadingProjectVersions,
    /// Loading the selected version's details.
    LoadingVersionDetails,
    /// The selected version with its downloadable files.
    VersionDetails,
    /// Checking tags to filter by.
    TagFilter,
    /// Loading the tags.
    LoadingTags,
    /// Editing the search text.
    SearchInput,
    /// Choosing the sort field and direction.
    SortOptions,
}

/// Whether `s` waits for a fetch.
pub open spec fn is_loading(s: AppScreen) -> bool {
    s == AppScreen::LoadingTypes || s == AppScreen::LoadingProjects || s == AppScreen::LoadingTags
        || s == AppScreen::LoadingProjectDetails || s == AppScreen::LoadingProjectVersions
        || s == AppScreen::LoadingVersionDetails
}

/// The field projects are sorted by.
#[derive(Debug, Clone, Copy, PartialEq, Eq, Structural)]
pub enum SortField {
    Downloads,
    Name,
    UpdatedAt,
    CreatedAt,
}

/// The name of a sort field in requests.
pub open spec fn sort_field_text(f: SortField) -> Seq<char> {
    match f {
        SortField::Downloads => "downloads"@,
        SortField::Name => "name"@,
        SortField::UpdatedAt => "updated_at"@,
        SortField::CreatedAt => "created_at"@,
    }
}

/// The position of a sort field in the list of sort options.
pub open spec fn sort_field_index(f: SortField) -> nat {
    match f {
        SortField::Downloads => 0,
        SortField::Name => 1,
        SortField::UpdatedAt => 2,
        SortField::CreatedAt => 3,
    }
}

/// The sort field at position `i` of the list of sort options (the first
/// one past its end).
pub open spec fn sort_field_at(i: nat) -> SortField {
    if i == 1 {
        SortField::Name
    } else if i == 2 {
        SortField::UpdatedAt
    } else if i == 3 {
        SortField::CreatedAt
    } else {
        SortField::Downloads
    }
}

impl SortField {
    /// The name of the field in requests.
    pub fn to_api_string(&self) -> (r: &'static str)
        ensures
            r@ == sort_field_text(*self),
    {
        proof {
            reveal_strlit("downloads");
            reveal_strlit("name");
            reveal_strlit("updated_at");
            reveal_strlit("created_at");
        }
        match self {
            SortField::Downloads => "downloads",
            SortField::Name => "name",
            SortField::UpdatedAt => "updated_at",
            SortField::CreatedAt => "created_at",
        }
    }

    /// The position of the field in the list of sort options.
    pub fn index(&self) -> (r: usize)
        ensures
            r == sort_field_index(*self),
    {
        match self {
            SortField::Downloads => 0,
            SortField::Name => 1,
            SortField::UpdatedAt => 2,
            SortField::CreatedAt => 3,
        }
    }

    /// The field at position `i` of the list of sort options.
    pub fn at(i: usize) -> (r: SortField)
        ensures
            r == sort_field_at(i as nat),
    {
        if i == 1 {
            SortField::Name
        } else if i == 2 {
            SortField::UpdatedAt
        } else if i == 3 {
            SortField::CreatedAt
        } else {
            SortField::Downloads
        }
    }
}

/// The direction projects are sorted in.
#[derive(Debug, Clone, Copy, PartialEq, Eq, Structural)]
pub enum SortDirection {
    Asc,
    Desc,
}

/// The name of a sort direction in requests.
pub open spec fn sort_direction_text(d: SortDirection) -> Seq<char> {
    match d {
        SortDirection::Asc => "asc"@,
        SortDirection::Desc => "desc"@,
    }
}

impl SortDirection {
    /// The name of the direction in requests.
    pub fn to_api_string(&self) -> (r: &'static str)
        ensures
            r@ == sort_direction_text(*self),
    {
        proof {
            reveal_strlit("asc");
            reveal_strlit("desc");
        }
        match self {
            SortDirection::Asc => "asc",
            SortDirection::Desc => "desc",
        }
    }
}

/// The whole state of a browsing session.
pub struct AppState {
    /// The active screen.
    pub screen: AppScreen,
    /// The catalog's URL as entered.
    pub api_url: String,
    /// The edit cursor in `api_url`, in characters.
    pub cursor_position: usize,
    /// Whether a client was made for `api_url`.
    pub connected: bool,
    /// The project types of the catalog.
    pub project_types: Vec<ProjectType>,
    /// The chosen project type.
    pub selected_type_index: usize,
    /// The current page of projects.
    pub projects: PaginatedResponse<Project>,
    /// The current page of projects, from 1.
    pub current_page: u32,
    /// The number of pages of projects.
    pub total_pages: u32,
    /// The selected row of the project table.
    pub selected_row: usize,
    /// The error to show.
    pub error_message: Option<String>,
    /// A status to show that is no error, such as a finished download.
    pub success_message: Option<String>,
    /// Whether the session is over.
    pub should_quit: bool,
    /// The project opened from the table.
    pub selected_project: Option<Project>,
    /// The current page of that project's versions.
    pub project_versions: PaginatedResponse<ProjectVersion>,
    /// The current page of versions, from 1.
    pub versions_current_page: u32,
    /// The number of pages of versions.
    pub versions_total_pages: u32,
    /// The selected row of the versions table.
    pub selected_version_row: usize,
    /// The version opened from the versions table.
    pub selected_version: Option<ProjectVersion>,
    /// The selected row of that version's files.
    pub selected_file_row: usize,
    /// The project tags of the chosen project type.
    pub available_tags: Vec<ProjectTag>,
    /// The slugs of the checked project tags, each once.
    pub selected_tags: Vec<String>,
    /// Which tag table receives the keys.
    pub tag_table_focus: TagTableFocus,
    /// The selected row of the project tags table.
    pub project_tag_selection: usize,
    /// The first shown row of the project tags table.
    pub project_tag_scroll: usize,
    /// The selected row of the version tags table.
    pub version_tag_selection: usize,
    /// The first shown row of the version tags table.
    pub version_tag_scroll: usize,
    /// The project tags as shown, children under their parents.
    pub flattened_tags: Vec<FlatTag>,
    /// The version tags of the chosen project type.
    pub available_version_tags: Vec<ProjectTag>,
    /// The slugs of the checked version tags, each once.
    pub selected_version_tags: Vec<String>,
    /// The version tags as shown, children under their parents.
    pub flattened_version_tags: Vec<FlatTag>,
    /// The search text.
    pub search_query: String,
    /// The edit cursor in `search_query`, in characters.
    pub search_cursor_position: usize,
    /// The search text as it was when editing began, restored on cancel.
    pub search_before_edit: String,
    /// The edit cursor as it was when editing began.
    pub search_cursor_before_edit: usize,
    /// The field projects are sorted by.
    pub sort_field: SortField,
    /// The direction projects are sorted in.
    pub sort_direction: SortDirection,
    /// The highlighted row of the sort options.
    pub sort_selection_index: usize,
}

/// No slug occurs twice.
pub open spec fn distinct_slugs(s: Seq<String>) -> bool {
    forall|i: int, j: int| 0 <= i < j < s.len() ==> s[i]@ != s[j]@
}

/// Whether `slug` is among `s`.
pub open spec fn has_slug(s: Seq<String>, slug: Seq<char>) -> bool {
    exists|k: int| 0 <= k < s.len() && #[trigger] s[k]@ == slug
}

/// The number of files of the opened version, 0 when none is open.
pub open spec fn file_count(v: Option<ProjectVersion>) -> int {
    match v {
        Some(v) => v.files@.len() as int,
        None => 0,
    }
}

impl AppState {
    /// The invariant of a session: every selection and scroll offset lies in
    /// its list, each current page lies in `[1, total pages]`, the edit
    /// cursors lie in their text, the flattened tag lists are those of the tag
    /// lists, the checked slugs are distinct, and an error and a status are
    /// never shown together.
    pub open spec fn wf(&self) -> bool {
        &&& !(self.error_message is Some && self.success_message is Some)
        &&& self.cursor_position <= self.api_url@.len()
        &&& self.search_cursor_position <= self.search_query@.len()
        &&& self.search_cursor_before_edit <= self.search_before_edit@.len()
        &&& self.selected_type_index <= last_index(self.project_types@.len() as int)
        &&& self.selected_row <= last_index(self.projects.data@.len() as int)
        &&& self.selected_version_row <= last_index(self.project_versions.data@.len() as int)
        &&& self.selected_file_row <= last_index(file_count(self.selected_version))
        &&& self.project_tag_selection <= last_index(self.flattened_tags@.len() as int)
        &&& self.project_tag_scroll <= last_index(self.flattened_tags@.len() as int)
        &&& self.version_tag_selection <= last_index(self.flattened_version_tags@.len() as int)
        &&& self.version_tag_scroll <= last_index(self.flattened_version_tags@.len() as int)
        &&& self.sort_selection_index <= 3
        &&& 1 <= self.current_page <= self.total_pages
        &&& 1 <= self.versions_current_page <= self.versions_total_pages
        &&& self.flattened_tags@ == flatten(self.available_tags@)
        &&& self.flattened_version_tags@ == flatten(self.available_version_tags@)
        &&& distinct_slugs(self.selected_tags@)
        &&& distinct_slugs(self.selected_version_tags@)
    }

    /// The state a session starts in: the URL screen with the default
    /// endpoint and the cursor at its end, nothing loaded, first pages, no
    /// filter, no search, most downloaded first.
    pub open spec fn initial(&self) -> bool {
        &&& self.screen == AppScreen::UrlInput
        &&& self.api_url@ == DEFAULT_API_URL@
        &&& self.cursor_position == DEFAULT_API_URL@.len()
        &&& !self.connected
        &&& self.project_types@.len() == 0
        &&& self.selected_type_index == 0
        &&& self.projects.data@.len() == 0
        &&& self.projects.meta is None
        &&& self.current_page == 1
        &&& self.total_pages == 1
        &&& self.selected_row == 0
        &&& self.error_message is None
        &&& self.success_message is None
        &&& !self.should_quit
        &&& self.selected_project is None
        &&& self.project_versions.data@.len() == 0
        &&& self.project_versions.meta is None
        &&& self.versions_current_page == 1
        &&& self.versions_total_pages == 1
        &&& self.selected_version_row == 0
        &&& self.selected_version is None
        &&& self.selected_file_row == 0
        &&& self.available_tags@.len() == 0
        &&& self.selected_tags@.len() == 0
        &&& self.tag_table_focus == TagTableFocus::ProjectTags
        &&& self.project_tag_selection == 0
        &&& self.project_tag_scroll == 0
        &&& self.version_tag_selection == 0
        &&& self.version_tag_scroll == 0
        &&& self.flattened_tags@.len() == 0
        &&& self.available_version_tags@.len() == 0
        &&& self.selected_version_tags@.len() == 0
        &&& self.flattened_version_tags@.len() == 0
        &&& self.search_query@.len() == 0
        &&& self.search_cursor_position == 0
        &&& self.search_before_edit@.len() == 0
        &&& self.search_cursor_before_edit == 0
        &&& self.sort_field == SortField::Downloads
        &&& self.sort_direction == SortDirection::Desc
        &&& self.sort_selection_index == 0
    }

    /// A new session in its initial state.
    pub fn new() -> (r: Self)
        ensures
            r.initial(),
            r.wf(),
    {
        let url = DEFAULT_API_URL.to_owned();
        let cursor = DEFAULT_API_URL.unicode_len();
        AppState {
            screen: AppScreen::UrlInput,
            api_url: url,
            cursor_position: cursor,
            connected: false,
            project_types: Vec::new(),
            selected_type_index: 0,
            projects: PaginatedResponse::empty(),
            current_page: 1,
            total_pages: 1,
            selected_row: 0,
            error_message: None,
            success_message: None,
            should_quit: false,
            selected_project: None,
            project_versions: PaginatedResponse::empty(),
            versions_current_page: 1,
            versions_total_pages: 1,
            selected_version_row: 0,
            selected_version: None,
            selected_file_row: 0,
            available_tags: Vec::new(),
            selected_tags: Vec::new(),
            tag_table_focus: TagTableFocus::ProjectTags,
            project_tag_selection: 0,
            project_tag_scroll: 0,
            version_tag_selection: 0,
            version_tag_scroll: 0,
            flattened_tags: Vec::new(),
            available_version_tags: Vec::new(),
            selected_version_tags: Vec::new(),
            flattened_version_tags: Vec::new(),
            search_query: String::new(),
            search_cursor_position: 0,
            search_before_edit: String::new(),
            search_cursor_before_edit: 0,
            sort_field: SortField::Downloads,
            sort_direction: SortDirection::Desc,
            sort_selection_index: 0,
        }
    }

    /// Forgets the error.
    pub fn clear_error(&mut self)
        requires
            old(self).wf(),
        ensures
            *final(self) == (AppState { error_message: None, ..*old(self) }),
            final(self).wf(),
    {
        self.error_message = None;
    }

    /// Shows `message` as the error; a status shown before is dropped.
    pub fn set_error(&mut self, message: String)
        requires
            old(self).wf(),
        ensures
            *final(self) == (AppState { error_message: Some(message), success_message: None, ..*old(self) }),
            final(self).wf(),
    {
        self.success_message = None;
        self.error_message = Some(message);
    }

    /// Forgets the status.
    pub fn clear_success(&mut self)
        requires
            old(self).wf(),
        ensures
            *final(self) == (AppState { success_message: None, ..*old(self) }),
            final(self).wf(),
    {
        self.success_message = None;
    }

    /// Shows `message` as the status; an error shown before is dropped.
    pub fn set_success(&mut self, message: String)
        requires
            old(self).wf(),
        ensures
            *final(self) == (AppState { error_message: None, success_message: Some(message), ..*old(self) }),
            final(self).wf(),
    {
        self.error_message = None;
        self.success_message = Some(message);
    }

    /// Rebuilds both flattened tag lists from the tag lists.
    pub fn flatten_tags(&mut self)
        ensures
            final(self).flattened_tags@ == flatten(old(self).available_tags@),
            final(self).flattened_version_tags@ == flatten(old(self).available_version_tags@),
            *final(self) == (AppState {
                flattened_tags: final(self).flattened_tags,
                flattened_version_tags: final(self).flattened_version_tags,
                ..*old(self)
            }),
    {
        self.flattened_tags = flatten_tags(&self.available_tags);
        self.flattened_version_tags = flatten_tags(&self.available_version_tags);
    }

    /// Clears the checked tags, the search text and its cursor, sorts by
    /// downloads, most first, and goes back to the first page.
    pub fn reset_filters(&mut self)
        requires
            old(self).wf(),
        ensures
            final(self).selected_tags@.len() == 0,
            final(self).selected_version_tags@.len() == 0,
            final(self).search_query@.len() == 0,
            *final(self) == (AppState {
                selected_tags: final(self).selected_tags,
                selected_version_tags: final(self).selected_version_tags,
                search_query: final(self).search_query,
                search_cursor_position: 0,
                sort_field: SortField::Downloads,
                sort_direction: SortDirection::Desc,
                current_page: 1,
                ..*old(self)
            }),
            final(self).wf(),
    {
        self.selected_tags = Vec::new();
        self.selected_version_tags = Vec::new();
        self.search_query = String::new();
        self.search_cursor_position = 0;
        self.sort_field = SortField::Downloads;
        self.sort_direction = SortDirection::Desc;
        self.current_page = 1;
    }
}

impl Default for AppState {
    /// A new session in its initial state.
    fn default() -> (r: Self)
        ensures
            r.initial(),
            r.wf(),
    {
        AppState::new()
    }
}

} // verus!
