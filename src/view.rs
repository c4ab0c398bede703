//! View models: for each screen, the text to show, already cut to fit. The
//! session is only read; drawing the text is left to the caller.

use vstd::prelude::*;
use vstd::string::*;
use crate::models::{Project, ProjectFile, ProjectVersion};
use crate::state::{AppScreen, AppState, SortField, TagTableFocus, has_slug, sort_field_at};
use crate::tags::FlatTag;
use crate::text::{
    concat_str, decimal, format_number, grouped, join, joined, prefix_of, shorten, shortened,
    take_prefix, to_decimal, views_of, blank, clamp_text_lines, first_lines, is_blank,
};

verus! {

/// What the status line reports.
#[derive(Debug, Clone, Copy, PartialEq, Eq, Structural)]
pub enum StatusKind {
    Error,
    Success,
    Connection,
}

/// The status line of every screen.
pub struct StatusLine {
    pub kind: StatusKind,
    pub text: String,
}

/// The status line's text: the error if any, else the status if any, else
/// the endpoint.
pub open spec fn status_text(s: AppState) -> (StatusKind, Seq<char>) {
    match s.error_message {
        Some(e) => (StatusKind::Error, " Error: "@ + e@),
        None => match s.success_message {
            Some(m) => (StatusKind::Success, " Status: "@ + m@),
            None => (StatusKind::Connection, " Connected to: "@ + s.api_url@),
        },
    }
}

/// The status line of `state`.
pub fn status_line(state: &AppState) -> (r: StatusLine)
    ensures
        (r.kind, r.text@) == status_text(*state),
{
    match &state.error_message {
        Some(e) => StatusLine { kind: StatusKind::Error, text: concat_str(" Error: ", e.as_str()) },
        None => match &state.success_message {
            Some(m) => StatusLine { kind: StatusKind::Success, text: concat_str(" Status: ", m.as_str()) },
            None => StatusLine {
                kind: StatusKind::Connection,
                text: concat_str(" Connected to: ", state.api_url.as_str()),
            },
        },
    }
}

/// What a loading screen says it is doing; `None` off the loading screens.
pub fn loading_message(screen: AppScreen) -> (r: Option<&'static str>)
    ensures
        r is Some <==> crate::state::is_loading(screen),
{
    match screen {
        AppScreen::LoadingTypes => Some("Loading project types"),
        AppScreen::LoadingProjects => Some("Loading projects"),
        AppScreen::LoadingProjectDetails => Some("Loading project details"),
        AppScreen::LoadingProjectVersions => Some("Loading project versions"),
        AppScreen::LoadingVersionDetails => Some("Loading version details"),
        AppScreen::LoadingTags => Some("Loading tags"),
        _ => None,
    }
}

/// The key bindings listed at the foot of a screen; empty on loading screens.
pub fn help_text(screen: AppScreen) -> (r: &'static str)
    ensures
        crate::state::is_loading(screen) <==> r@.len() == 0,
{
    proof {
        reveal_strlit("");
        reveal_strlit("Press Enter to connect | Esc to quit");
        reveal_strlit("Enter: Select | Esc: Back | q: Quit");
        reveal_strlit("Enter: Open | n: Next | p: Prev | f: Filter | s: Search | o: Sort | r: Reset | t: Back | q: Quit");
        reveal_strlit("Up/Down: Select | Enter: Open Version | n/p: Page | Esc: Back | q: Quit");
        reveal_strlit("Up/Down: Select File | Enter: Download | Esc: Back | q: Quit");
        reveal_strlit("Tab: Switch Table | Up/Down: Navigate | Enter: Toggle | Esc: Apply | r: Reset | q: Quit");
        reveal_strlit("Enter: Search | Esc: Cancel | q: Quit");
        reveal_strlit("Enter: Select | d: Toggle Direction | Esc: Apply | q: Quit");
    }
    match screen {
        AppScreen::UrlInput => "Press Enter to connect | Esc to quit",
        AppScreen::TypeSelection => "Enter: Select | Esc: Back | q: Quit",
        AppScreen::ProjectTable =>
            "Enter: Open | n: Next | p: Prev | f: Filter | s: Search | o: Sort | r: Reset | t: Back | q: Quit",
        AppScreen::ProjectDetails => "Up/Down: Select | Enter: Open Version | n/p: Page | Esc: Back | q: Quit",
        AppScreen::VersionDetails => "Up/Down: Select File | Enter: Download | Esc: Back | q: Quit",
        AppScreen::TagFilter =>
            "Tab: Switch Table | Up/Down: Navigate | Enter: Toggle | Esc: Apply | r: Reset | q: Quit",
        AppScreen::SearchInput => "Enter: Search | Esc: Cancel | q: Quit",
        AppScreen::SortOptions => "Enter: Select | d: Toggle Direction | Esc: Apply | q: Quit",
        _ => "",
    }
}

/// The name of the chosen project type, `Unknown` when none is chosen.
pub open spec fn chosen_type_name(s: AppState) -> Seq<char> {
    if s.selected_type_index < s.project_types@.len() {
        s.project_types@[s.selected_type_index as int].name@
    } else {
        "Unknown"@
    }
}

/// The active filters as shown in the title: the number of checked project
/// tags and the search text, each when present.
pub open spec fn filter_summary(s: AppState) -> Seq<char> {
    let tags: Seq<Seq<char>> = if s.selected_tags@.len() > 0 {
        seq![decimal(s.selected_tags@.len() as nat) + " tags"@]
    } else {
        Seq::empty()
    };
    let search: Seq<Seq<char>> = if s.search_query@.len() > 0 {
        seq!["search: '"@ + s.search_query@ + "'"@]
    } else {
        Seq::empty()
    };
    if tags.len() + search.len() == 0 {
        Seq::empty()
    } else {
        " | Filters: "@ + joined(tags + search, ", "@)
    }
}

/// The title of the project table: type, page and filters.
pub open spec fn project_table_title_text(s: AppState) -> Seq<char> {
    "Projects - "@ + chosen_type_name(s) + " | Page "@ + decimal(s.current_page as nat) + "/"@
        + decimal(s.total_pages as nat) + filter_summary(s)
}

/// The title of the project table of `state`, as in
/// `Projects - Mods | Page 2/5 | Filters: 3 tags, search: 'map'`.
pub fn project_table_title(state: &AppState) -> (r: String)
    ensures
        r@ == project_table_title_text(*state),
{
    proof {
        reveal_strlit("Unknown");
        reveal_strlit(" tags");
        reveal_strlit("search: '");
        reveal_strlit("'");
        reveal_strlit(" | Filters: ");
        reveal_strlit(", ");
    }
    let mut parts: Vec<String> = Vec::new();
    let ghost tags: Seq<Seq<char>> = if state.selected_tags@.len() > 0 {
        seq![decimal(state.selected_tags@.len() as nat) + " tags"@]
    } else {
        Seq::empty()
    };
    let ghost search: Seq<Seq<char>> = if state.search_query@.len() > 0 {
        seq!["search: '"@ + state.search_query@ + "'"@]
    } else {
        Seq::empty()
    };
    if state.selected_tags.len() > 0 {
        let mut p = to_decimal(state.selected_tags.len() as u64);
        p.append(" tags");
        parts.push(p);
    }
    let qlen = state.search_query.as_str().unicode_len();
    if qlen > 0 {
        let mut p = concat_str("search: '", state.search_query.as_str());
        p.append("'");
        parts.push(p);
    }
    assert(views_of(parts@) =~= tags + search);
    let filters = if parts.len() == 0 {
        String::new()
    } else {
        let joined_parts = join(&parts, ", ");
        concat_str(" | Filters: ", joined_parts.as_str())
    };
    assert(filters@ =~= filter_summary(*state));
    let name: String = if state.selected_type_index < state.project_types.len() {
        state.project_types[state.selected_type_index].name.clone()
    } else {
        "Unknown".to_owned()
    };
    let mut r = concat_str("Projects - ", name.as_str());
    r.append(" | Page ");
    r.append(to_decimal(state.current_page as u64).as_str());
    r.append("/");
    r.append(to_decimal(state.total_pages as u64).as_str());
    r.append(filters.as_str());
    proof {
        reveal_strlit("Projects - ");
        reveal_strlit(" | Page ");
        reveal_strlit("/");
        assert(r@ =~= project_table_title_text(*state));
    }
    r
}

/// The cells of a project's row: name, summary and tags cut to fit,
/// downloads with separators, status, and the dates of update (`N/A` when
/// unknown) and creation without their time.
pub open spec fn project_cells(p: Project) -> Seq<Seq<char>> {
    seq![
        shortened(p.name@, 12, 9),
        shortened(p.summary@, 20, 17),
        shortened(joined(views_of(p.tags@), ", "@), 15, 12),
        grouped(p.downloads as nat),
        p.status@,
        match p.updated_at {
            Some(d) => prefix_of(d@, 10),
            None => "N/A"@,
        },
        prefix_of(p.created_at@, 10),
    ]
}

/// The view of a row of cells.
pub open spec fn cells_view(r: Seq<String>) -> Seq<Seq<char>> {
    r.map_values(|c: String| c@)
}

/// The cells of the project table row of `p`.
pub fn project_row(p: &Project) -> (r: Vec<String>)
    ensures
        cells_view(r@) == project_cells(*p),
{
    proof {
        reveal_strlit("N/A");
    }
    let mut r: Vec<String> = Vec::new();
    r.push(shorten(&p.name, 12, 9));
    r.push(shorten(&p.summary, 20, 17));
    let tags = join(&p.tags, ", ");
    r.push(shorten(&tags, 15, 12));
    r.push(format_number(p.downloads));
    r.push(p.status.clone());
    let updated = match &p.updated_at {
        Some(d) => take_prefix(d, 10),
        None => "N/A".to_owned(),
    };
    r.push(updated);
    r.push(take_prefix(&p.created_at, 10));
    proof {
        reveal_strlit(", ");
        assert(cells_view(r@) =~= project_cells(*p));
    }
    r
}

/// The cells of a version's row: version, release type, downloads with
/// separators, release date without its time, and the number of files.
pub open spec fn version_cells(v: ProjectVersion) -> Seq<Seq<char>> {
    seq![
        v.version@,
        v.release_type@,
        grouped(v.downloads as nat),
        prefix_of(v.release_date@, 10),
        decimal(v.files@.len() as nat),
    ]
}

/// The cells of the versions table row of `v`.
pub fn version_row(v: &ProjectVersion) -> (r: Vec<String>)
    ensures
        cells_view(r@) == version_cells(*v),
{
    let mut r: Vec<String> = Vec::new();
    r.push(v.version.clone());
    r.push(v.release_type.clone());
    r.push(format_number(v.downloads));
    r.push(take_prefix(&v.release_date, 10));
    r.push(to_decimal(v.files.len() as u64));
    proof {
        assert(cells_view(r@) =~= version_cells(*v));
    }
    r
}

/// The name and the start of the checksum of a downloadable file; its size
/// is shown beside them.
pub fn file_row(f: &ProjectFile) -> (r: (String, String))
    ensures
        r.0@ == f.name@,
        r.1@ == prefix_of(f.sha1@, 12),
{
    (f.name.clone(), take_prefix(&f.sha1, 12))
}

/// The title of the project details screen.
pub open spec fn project_details_title_text(s: AppState) -> Seq<char> {
    match s.selected_project {
        Some(p) => "Project - "@ + p.name@ + " | Versions Page "@ + decimal(s.versions_current_page as nat)
            + "/"@ + decimal(s.versions_total_pages as nat),
        None => "Project - N/A"@,
    }
}

/// The title of the project details screen of `state`.
pub fn project_details_title(state: &AppState) -> (r: String)
    ensures
        r@ == project_details_title_text(*state),
{
    proof {
        reveal_strlit("Project - ");
        reveal_strlit(" | Versions Page ");
        reveal_strlit("/");
        reveal_strlit("Project - N/A");
    }
    match &state.selected_project {
        Some(p) => {
            let mut r = concat_str("Project - ", p.name.as_str());
            r.append(" | Versions Page ");
            r.append(to_decimal(state.versions_current_page as u64).as_str());
            r.append("/");
            r.append(to_decimal(state.versions_total_pages as u64).as_str());
            r
        },
        None => "Project - N/A".to_owned(),
    }
}

/// The title of the version details screen.
pub open spec fn version_details_title_text(s: AppState) -> Seq<char> {
    match s.selected_version {
        Some(v) => "Version - "@ + v.version@,
        None => "Version - N/A"@,
    }
}

/// The title of the version details screen of `state`.
pub fn version_details_title(state: &AppState) -> (r: String)
    ensures
        r@ == version_details_title_text(*state),
{
    proof {
        reveal_strlit("Version - ");
        reveal_strlit("Version - N/A");
    }
    match &state.selected_version {
        Some(v) => concat_str("Version - ", v.version.as_str()),
        None => "Version - N/A".to_owned(),
    }
}

/// One row of a tag table: the tag indented by its depth, its check box,
/// slug and name; `highlighted` when it is the selected row of the focused
/// table.
pub struct TagRow {
    pub text: String,
    pub highlighted: bool,
}

/// The text and highlight of each row.
pub open spec fn tag_rows_seq(r: Seq<TagRow>) -> Seq<(Seq<char>, bool)> {
    r.map_values(|t: TagRow| (t.text@, t.highlighted))
}

/// `[x]` for a checked tag, `[ ]` otherwise.
pub open spec fn check_box(checked: bool) -> Seq<char> {
    if checked { "[x]"@ } else { "[ ]"@ }
}

/// Four spaces per level of depth.
pub open spec fn indent(depth: nat) -> Seq<char>
    decreases depth,
{
    if depth == 0 { Seq::empty() } else { indent((depth - 1) as nat) + "    "@ }
}

/// The text of the row of `t`.
pub open spec fn tag_row_text(t: FlatTag, checked: bool) -> Seq<char> {
    indent(t.depth as nat) + check_box(checked) + " "@ + t.slug@ + " | "@ + t.name@
}

fn indentation(depth: usize) -> (r: String)
    ensures
        r@ == indent(depth as nat),
{
    let mut r = String::new();
    let mut i: usize = 0;
    while i < depth
        invariant
            i <= depth,
            r@ == indent(i as nat),
        decreases depth - i,
    {
        r.append("    ");
        proof {
            reveal_strlit("    ");
        }
        i = i + 1;
    }
    r
}

fn contains_slug(set: &Vec<String>, slug: &String) -> (r: bool)
    ensures
        r == has_slug(set@, slug@),
{
    let mut k: usize = 0;
    while k < set.len()
        invariant
            k <= set@.len(),
            forall|j: int| 0 <= j < k ==> set@[j]@ != slug@,
        decreases set@.len() - k,
    {
        if set[k] == *slug {
            return true;
        }
        k = k + 1;
    }
    false
}

/// The rows of a tag table shown from row `scroll`, at most `visible` of
/// them: each checked when its slug is among `checked`, highlighted when it
/// is row `selection` and the table is focused.
pub open spec fn tag_rows_view(
    tags: Seq<FlatTag>,
    checked: Seq<String>,
    scroll: int,
    visible: int,
    selection: int,
    focused: bool,
) -> Seq<(Seq<char>, bool)> {
    let end = if scroll + visible < tags.len() { scroll + visible } else { tags.len() as int };
    Seq::new(
        if scroll < end { (end - scroll) as nat } else { 0 },
        |i: int| (tag_row_text(tags[scroll + i], has_slug(checked, tags[scroll + i].slug@)),
            focused && scroll + i == selection),
    )
}

/// The rows of a tag table in view (see `tag_rows_view`).
pub fn tag_rows(
    tags: &Vec<FlatTag>,
    checked: &Vec<String>,
    scroll: usize,
    visible: usize,
    selection: usize,
    focused: bool,
) -> (r: Vec<TagRow>)
    ensures
        tag_rows_seq(r@)
            == tag_rows_view(tags@, checked@, scroll as int, visible as int, selection as int, focused),
{
    let len = tags.len();
    let end: usize = if scroll < len && visible < len - scroll { scroll + visible } else { len };
    let ghost expected = tag_rows_view(tags@, checked@, scroll as int, visible as int, selection as int, focused);
    let mut r: Vec<TagRow> = Vec::new();
    if scroll >= end {
        proof {
            assert(tag_rows_seq(r@) =~= expected);
        }
        return r;
    }
    let mut i: usize = scroll;
    while i < end
        invariant
            scroll <= i <= end,
            end <= len,
            len == tags@.len(),
            expected == tag_rows_view(tags@, checked@, scroll as int, visible as int, selection as int, focused),
            expected.len() == end - scroll,
            tag_rows_seq(r@) == expected.subrange(0, i - scroll),
        decreases end - i,
    {
        let t = &tags[i];
        let is_checked = contains_slug(checked, &t.slug);
        let mut text = indentation(t.depth);
        text.append(if is_checked { "[x]" } else { "[ ]" });
        text.append(" ");
        text.append(t.slug.as_str());
        text.append(" | ");
        text.append(t.name.as_str());
        proof {
            reveal_strlit("[x]");
            reveal_strlit("[ ]");
            reveal_strlit(" ");
            reveal_strlit(" | ");
            assert(text@ =~= tag_row_text(*t, is_checked));
            assert(expected[i - scroll] == (tag_row_text(tags@[i as int], has_slug(checked@, tags@[i as int].slug@)),
                focused && i == selection));
        }
        let row = TagRow { text, highlighted: focused && i == selection };
        let ghost before = r@;
        r.push(row);
        proof {
            assert(r@ == before.push(row));
            assert((row.text@, row.highlighted) == expected[i - scroll]);
            assert(tag_rows_seq(before).len() == before.len());
            assert(before.len() == i - scroll);
            assert(tag_rows_seq(r@).len() == r@.len());
            assert(tag_rows_seq(r@).len() == i + 1 - scroll);
            assert forall|j: int| 0 <= j < i + 1 - scroll implies tag_rows_seq(r@)[j] == expected[j] by {
                if j < i - scroll {
                    assert(r@[j] == before[j]);
                    assert(tag_rows_seq(before)[j] == expected.subrange(0, i - scroll)[j]);
                } else {
                    assert(r@[j] == row);
                }
            }
            assert(tag_rows_seq(r@) =~= expected.subrange(0, i + 1 - scroll));
        }
        i = i + 1;
    }
    proof {
        assert(expected.subrange(0, end - scroll) =~= expected);
    }
    r
}

/// The project tag rows of `state` in a table of `visible` rows.
pub fn project_tag_rows(state: &AppState, visible: usize) -> (r: Vec<TagRow>)
    ensures
        tag_rows_seq(r@) == tag_rows_view(
            state.flattened_tags@,
            state.selected_tags@,
            state.project_tag_scroll as int,
            visible as int,
            state.project_tag_selection as int,
            state.tag_table_focus == TagTableFocus::ProjectTags,
        ),
{
    tag_rows(
        &state.flattened_tags,
        &state.selected_tags,
        state.project_tag_scroll,
        visible,
        state.project_tag_selection,
        state.tag_table_focus == TagTableFocus::ProjectTags,
    )
}

/// The version tag rows of `state` in a table of `visible` rows.
pub fn version_tag_rows(state: &AppState, visible: usize) -> (r: Vec<TagRow>)
    ensures
        tag_rows_seq(r@) == tag_rows_view(
            state.flattened_version_tags@,
            state.selected_version_tags@,
            state.version_tag_scroll as int,
            visible as int,
            state.version_tag_selection as int,
            state.tag_table_focus == TagTableFocus::VersionTags,
        ),
{
    tag_rows(
        &state.flattened_version_tags,
        &state.selected_version_tags,
        state.version_tag_scroll,
        visible,
        state.version_tag_selection,
        state.tag_table_focus == TagTableFocus::VersionTags,
    )
}

/// One row of the sort options: the field's name, marked when it is the
/// current sort field; `highlighted` at the highlighted row.
pub struct SortRow {
    pub text: String,
    pub current: bool,
    pub highlighted: bool,
}

/// The text and marks of each row.
pub open spec fn sort_rows_seq(r: Seq<SortRow>) -> Seq<(Seq<char>, bool, bool)> {
    r.map_values(|t: SortRow| (t.text@, t.current, t.highlighted))
}

/// How a sort field is named on screen.
pub open spec fn sort_field_label(f: SortField) -> Seq<char> {
    match f {
        SortField::Downloads => "Downloads"@,
        SortField::Name => "Name"@,
        SortField::UpdatedAt => "Updated At"@,
        SortField::CreatedAt => "Created At"@,
    }
}

/// The four rows of the sort options of `s`.
pub open spec fn sort_rows_view(s: AppState) -> Seq<(Seq<char>, bool, bool)> {
    Seq::new(4, |i: int| {
        let f = sort_field_at(i as nat);
        let current = s.sort_field == f;
        ((if current { "» "@ } else { "  "@ }) + sort_field_label(f), current, i == s.sort_selection_index)
    })
}

/// The rows of the sort options of `state`.
pub fn sort_rows(state: &AppState) -> (r: Vec<SortRow>)
    ensures
        sort_rows_seq(r@) == sort_rows_view(*state),
{
    let mut r: Vec<SortRow> = Vec::new();
    let mut i: usize = 0;
    while i < 4
        invariant
            i <= 4,
            sort_rows_seq(r@) == sort_rows_view(*state).subrange(0, i as int),
        decreases 4 - i,
    {
        let f = SortField::at(i);
        let label: &str = match f {
            SortField::Downloads => "Downloads",
            SortField::Name => "Name",
            SortField::UpdatedAt => "Updated At",
            SortField::CreatedAt => "Created At",
        };
        let current = state.sort_field == f;
        let text = concat_str(if current { "» " } else { "  " }, label);
        proof {
            reveal_strlit("Downloads");
            reveal_strlit("Name");
            reveal_strlit("Updated At");
            reveal_strlit("Created At");
            reveal_strlit("» ");
            reveal_strlit("  ");
        }
        proof {
            assert(label@ == sort_field_label(f));
            assert(sort_rows_view(*state)[i as int] == (text@, current, i == state.sort_selection_index));
        }
        let ghost before = r@;
        let row = SortRow { text, current, highlighted: i == state.sort_selection_index };
        r.push(row);
        proof {
            assert(r@ == before.push(row));
            assert(sort_rows_seq(before).len() == before.len());
            assert(before.len() == i);
            assert(sort_rows_seq(r@).len() == r@.len());
            assert forall|j: int| 0 <= j < i + 1 implies sort_rows_seq(r@)[j] == sort_rows_view(*state)[j] by {
                if j < i {
                    assert(r@[j] == before[j]);
                    assert(sort_rows_seq(before)[j] == sort_rows_view(*state).subrange(0, i as int)[j]);
                } else {
                    assert(r@[j] == row);
                }
            }
            assert(sort_rows_seq(r@) =~= sort_rows_view(*state).subrange(0, i as int + 1));
        }
        i = i + 1;
    }
    proof {
        assert(sort_rows_view(*state).subrange(0, 4) =~= sort_rows_view(*state));
    }
    r
}

/// The text shown for an optional long text: the text itself unless it is
/// absent or blank, else `fallback`; at most `max_lines` lines of it.
pub open spec fn long_text(t: Option<String>, fallback: Seq<char>, max_lines: nat) -> Seq<char> {
    let chosen = match t {
        Some(d) => if blank(d@) { fallback } else { d@ },
        None => fallback,
    };
    joined(first_lines(chosen, max_lines), seq!['\n'])
}

fn shown_long_text(t: &Option<String>, fallback: &str, max_lines: usize) -> (r: String)
    ensures
        r@ == long_text(*t, fallback@, max_lines as nat),
{
    match t {
        Some(d) => {
            if is_blank(d) {
                clamp_text_lines(fallback, max_lines)
            } else {
                clamp_text_lines(d.as_str(), max_lines)
            }
        },
        None => clamp_text_lines(fallback, max_lines),
    }
}

/// The description of the opened project, at most four lines of it.
pub fn project_description(state: &AppState) -> (r: String)
    ensures
        r@ == long_text(
            match state.selected_project {
                Some(p) => p.description,
                None => None,
            },
            "No description available"@,
            4,
        ),
{
    match &state.selected_project {
        Some(p) => shown_long_text(&p.description, "No description available", 4),
        None => shown_long_text(&None, "No description available", 4),
    }
}

/// The changelog of the opened version, at most four lines of it.
pub fn version_changelog(state: &AppState) -> (r: String)
    ensures
        r@ == long_text(
            match state.selected_version {
                Some(v) => v.changelog,
                None => None,
            },
            "No changelog available"@,
            4,
        ),
{
    match &state.selected_version {
        Some(v) => shown_long_text(&v.changelog, "No changelog available", 4),
        None => shown_long_text(&None, "No changelog available", 4),
    }
}

/// The basic facts of the opened project.
pub open spec fn project_info_text(s: AppState) -> Seq<char> {
    match s.selected_project {
        Some(p) => "Name: "@ + p.name@ + "\nSlug: "@ + p.slug@ + "\nStatus: "@ + p.status@ + " | Downloads: "@
            + grouped(p.downloads as nat),
        None => "No project selected"@,
    }
}

/// The basic facts of the opened project of `state`.
pub fn project_info(state: &AppState) -> (r: String)
    ensures
        r@ == project_info_text(*state),
{
    proof {
        reveal_strlit("Name: ");
        reveal_strlit("\nSlug: ");
        reveal_strlit("\nStatus: ");
        reveal_strlit(" | Downloads: ");
        reveal_strlit("No project selected");
    }
    match &state.selected_project {
        Some(p) => {
            let mut r = concat_str("Name: ", p.name.as_str());
            r.append("\nSlug: ");
            r.append(p.slug.as_str());
            r.append("\nStatus: ");
            r.append(p.status.as_str());
            r.append(" | Downloads: ");
            r.append(format_number(p.downloads).as_str());
            r
        },
        None => "No project selected".to_owned(),
    }
}

/// The facts of the opened version.
pub open spec fn version_info_text(s: AppState) -> Seq<char> {
    match s.selected_version {
        Some(v) => "Name: "@ + v.name@ + "\nType: "@ + v.release_type@ + "\nRelease Date: "@ + v.release_date@
            + " | Downloads: "@ + grouped(v.downloads as nat),
        None => "No version selected"@,
    }
}

/// The facts of the opened version of `state`.
pub fn version_info(state: &AppState) -> (r: String)
    ensures
        r@ == version_info_text(*state),
{
    proof {
        reveal_strlit("Name: ");
        reveal_strlit("\nType: ");
        reveal_strlit("\nRelease Date: ");
        reveal_strlit(" | Downloads: ");
        reveal_strlit("No version selected");
    }
    match &state.selected_version {
        Some(v) => {
            let mut r = concat_str("Name: ", v.name.as_str());
            r.append("\nType: ");
            r.append(v.release_type.as_str());
            r.append("\nRelease Date: ");
            r.append(v.release_date.as_str());
            r.append(" | Downloads: ");
            r.append(format_number(v.downloads).as_str());
            r
        },
        None => "No version selected".to_owned(),
    }
}

/// How many rows of the project table are shown.
pub const PROJECT_TABLE_ROWS: usize = 10;

/// The first project row shown: the selected row is the last of the window
/// once it is past the first `PROJECT_TABLE_ROWS` rows.
pub open spec fn project_window_start(selected: int) -> int {
    if selected >= PROJECT_TABLE_ROWS { selected - (PROJECT_TABLE_ROWS - 1) } else { 0 }
}

/// How many project rows are shown from `start` of `len`.
pub open spec fn project_window_len(start: int, len: int) -> int {
    if start >= len { 0 } else if len - start < PROJECT_TABLE_ROWS { len - start } else { PROJECT_TABLE_ROWS as int }
}

/// The rows of the project table that are shown, with the position of the
/// first of them in the page: the projects from `project_window_start` on,
/// at most `PROJECT_TABLE_ROWS` of them, each as `project_cells`. The
/// selected project is always among them.
pub fn project_table_rows(state: &AppState) -> (r: (usize, Vec<Vec<String>>))
    ensures
        r.0 == project_window_start(state.selected_row as int),
        r.1@.len() == project_window_len(r.0 as int, state.projects.data@.len() as int),
        forall|i: int| 0 <= i < r.1@.len() ==> cells_view(#[trigger] r.1@[i]@)
            == project_cells(state.projects.data@[r.0 + i]),
        state.selected_row < state.projects.data@.len() ==> r.0 <= state.selected_row < r.0 + r.1@.len(),
{
    let len = state.projects.data.len();
    let start: usize = if state.selected_row >= PROJECT_TABLE_ROWS {
        state.selected_row - (PROJECT_TABLE_ROWS - 1)
    } else {
        0
    };
    let end: usize = if start >= len {
        start
    } else if len - start < PROJECT_TABLE_ROWS {
        len
    } else {
        start + PROJECT_TABLE_ROWS
    };
    let mut rows: Vec<Vec<String>> = Vec::new();
    let mut i: usize = start;
    while i < end
        invariant
            start <= i <= end,
            end <= len || end == start,
            len == state.projects.data@.len(),
            rows@.len() == i - start,
            forall|k: int| 0 <= k < rows@.len() ==> cells_view(#[trigger] rows@[k]@)
                == project_cells(state.projects.data@[start + k]),
        decreases end - i,
    {
        let row = project_row(&state.projects.data[i]);
        rows.push(row);
        i = i + 1;
    }
    (start, rows)
}

/// One row of the project type list.
pub struct TypeRow {
    pub icon: String,
    pub name: String,
    pub slug: String,
    pub highlighted: bool,
}

/// The rows of the project type list: icon, name and slug of each type, in
/// order, the chosen one highlighted.
pub fn type_rows(state: &AppState) -> (r: Vec<TypeRow>)
    ensures
        r@.len() == state.project_types@.len(),
        forall|i: int| 0 <= i < r@.len() ==> {
            let t = state.project_types@[i];
            &&& (#[trigger] r@[i]).icon@ == t.icon@
            &&& r@[i].name@ == t.name@
            &&& r@[i].slug@ == t.slug@
            &&& r@[i].highlighted == (i == state.selected_type_index)
        },
{
    let mut r: Vec<TypeRow> = Vec::new();
    let mut i: usize = 0;
    while i < state.project_types.len()
        invariant
            i <= state.project_types@.len(),
            r@.len() == i,
            forall|k: int| 0 <= k < i ==> {
                let t = state.project_types@[k];
                &&& (#[trigger] r@[k]).icon@ == t.icon@
                &&& r@[k].name@ == t.name@
                &&& r@[k].slug@ == t.slug@
                &&& r@[k].highlighted == (k == state.selected_type_index)
            },
        decreases state.project_types@.len() - i,
    {
        let t = &state.project_types[i];
        r.push(TypeRow {
            icon: t.icon.clone(),
            name: t.name.clone(),
            slug: t.slug.clone(),
            highlighted: i == state.selected_type_index,
        });
        i = i + 1;
    }
    r
}

} // verus!
