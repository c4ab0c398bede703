//! The key map: what each key does on each screen.

use vstd::prelude::*;
use vstd::string::*;
use crate::scroll::{
    ensure_selection_visible, last_index, select_down, select_up, step_down, step_up, visible_scroll,
};
use crate::state::{AppScreen, AppState, SortDirection, SortField, TagTableFocus, file_count,
    has_slug, distinct_slugs, sort_field_at, sort_field_index};
use crate::fetch::{FetchRequest, planned};
use crate::text::{insert_char, inserted, remove_char, removed};

verus! {

/// A key, as far as the browser tells keys apart.
#[derive(Debug, Clone, Copy, PartialEq, Eq, Structural)]
pub enum KeyCode {
    Char(char),
    Backspace,
    Delete,
    Left,
    Right,
    Home,
    End,
    Enter,
    Esc,
    Up,
    Down,
    Tab,
    Other,
}

/// A key press; `plain` when no modifier key was held.
#[derive(Debug, Clone, Copy, PartialEq, Eq, Structural)]
pub struct KeyEvent {
    pub code: KeyCode,
    pub plain: bool,
}

/// Outside work a key asks for, done by the caller, who then reports back.
pub enum Command {
    /// Nothing.
    Nothing,
    /// Make a client for the session's `api_url`, then report with
    /// `AppState::connect_finished`.
    Connect,
    /// Download `url` and save it under a free name derived from
    /// `file_name`, then report with `AppState::download_finished`.
    Download { url: String, file_name: String },
}

/// How many rows of a tag table the key map keeps in view.
pub const TAG_TABLE_ROWS: usize = 10;

/// The text and cursor after an editing key; other keys leave both as they
/// are. A typed character goes before the cursor, Backspace removes the
/// character before it, Delete the one under it; Left, Right, Home and End
/// move it within the text.
pub open spec fn edit_result(text: Seq<char>, cur: int, code: KeyCode) -> (Seq<char>, int) {
    match code {
        KeyCode::Char(c) => if cur < usize::MAX { (inserted(text, cur, c), cur + 1) } else { (text, cur) },
        KeyCode::Backspace => if cur > 0 { (removed(text, cur - 1), cur - 1) } else { (text, cur) },
        KeyCode::Delete => if cur < text.len() { (removed(text, cur), cur) } else { (text, cur) },
        KeyCode::Left => (text, step_up(cur)),
        KeyCode::Right => if cur < text.len() { (text, cur + 1) } else { (text, cur) },
        KeyCode::Home => (text, 0),
        KeyCode::End => (text, text.len() as int),
        _ => (text, cur),
    }
}

/// Whether the key changes the text itself.
pub open spec fn changes_text(text: Seq<char>, cur: int, code: KeyCode) -> bool {
    match code {
        KeyCode::Char(_) => cur < usize::MAX,
        KeyCode::Backspace => cur > 0,
        KeyCode::Delete => cur < text.len(),
        _ => false,
    }
}

/// Whether the key edits a text field.
pub open spec fn is_edit_key(code: KeyCode) -> bool {
    match code {
        KeyCode::Char(_) | KeyCode::Backspace | KeyCode::Delete | KeyCode::Left | KeyCode::Right
        | KeyCode::Home | KeyCode::End => true,
        _ => false,
    }
}

/// Applies an editing key to `text` with the cursor at `cur`.
pub fn edit_text(text: &String, cur: usize, code: KeyCode) -> (r: (String, usize, bool))
    requires
        cur <= text@.len(),
    ensures
        (r.0@, r.1 as int) == edit_result(text@, cur as int, code),
        r.2 == changes_text(text@, cur as int, code),
        r.1 <= r.0@.len(),
{
    let len = text.as_str().unicode_len();
    match code {
        KeyCode::Char(c) => {
            if cur < usize::MAX {
                (insert_char(text, cur, c), cur + 1, true)
            } else {
                (text.clone(), cur, false)
            }
        },
        KeyCode::Backspace => {
            if cur > 0 {
                (remove_char(text, cur - 1), cur - 1, true)
            } else {
                (text.clone(), cur, false)
            }
        },
        KeyCode::Delete => {
            if cur < len {
                (remove_char(text, cur), cur, true)
            } else {
                (text.clone(), cur, false)
            }
        },
        KeyCode::Left => (text.clone(), if cur > 0 { cur - 1 } else { cur }, false),
        KeyCode::Right => (text.clone(), if cur < len { cur + 1 } else { cur }, false),
        KeyCode::Home => (text.clone(), 0, false),
        KeyCode::End => (text.clone(), len, false),
        _ => (text.clone(), cur, false),
    }
}

/// `s` on loading screen `screen`, with no stale error.
pub open spec fn loading(s: AppState, screen: AppScreen) -> AppState {
    AppState { screen, error_message: None, ..s }
}

/// `s` with the session over.
pub open spec fn quitting(s: AppState) -> AppState {
    AppState { should_quit: true, ..s }
}

/// `t` shows the error `text` and is otherwise `s`.
pub open spec fn shows_error(s: AppState, t: AppState, text: Seq<char>) -> bool {
    &&& t.error_message matches Some(m) && m@ == text
    &&& t == AppState { error_message: t.error_message, success_message: None, ..s }
}

/// The URL screen: edit the URL (a change of the text clears the error),
/// Enter asks to connect, Esc quits.
pub open spec fn url_input_step(s: AppState, code: KeyCode, t: AppState, c: Command) -> bool {
    if is_edit_key(code) {
        let (text, cur) = edit_result(s.api_url@, s.cursor_position as int, code);
        &&& c is Nothing
        &&& t.api_url@ == text
        &&& t == AppState {
            api_url: t.api_url,
            cursor_position: cur as usize,
            error_message: if changes_text(s.api_url@, s.cursor_position as int, code) { None } else { s.error_message },
            ..s
        }
    } else {
        match code {
            KeyCode::Enter => c is Connect && t == s,
            KeyCode::Esc => c is Nothing && t == quitting(s),
            _ => c is Nothing && t == s,
        }
    }
}

/// The project type screen: move the selection, Enter loads the first page
/// of projects of the selected type, Esc goes back to the URL, `q` quits.
pub open spec fn type_selection_step(s: AppState, code: KeyCode, t: AppState) -> bool {
    match code {
        KeyCode::Up => t == AppState { selected_type_index: step_up(s.selected_type_index as int) as usize, ..s },
        KeyCode::Down => t == AppState {
            selected_type_index: step_down(s.selected_type_index as int, s.project_types@.len() as int) as usize,
            ..s
        },
        KeyCode::Enter => t == AppState { current_page: 1, ..loading(s, AppScreen::LoadingProjects) },
        KeyCode::Esc => t == AppState { screen: AppScreen::UrlInput, ..s },
        KeyCode::Char('q') => t == quitting(s),
        _ => t == s,
    }
}

/// The project table: move the selection; `n`/`p` load the next or previous
/// page when there is one; `t` goes back to the types; `f` loads the tags;
/// `s` edits the search text; `o` opens the sort options at the current
/// field; `r` resets the filters and reloads the first page; Enter opens the
/// selected project; `q` quits.
pub open spec fn project_table_step(s: AppState, code: KeyCode, t: AppState) -> bool {
    match code {
        KeyCode::Up => t == AppState { selected_row: step_up(s.selected_row as int) as usize, ..s },
        KeyCode::Down => t == AppState {
            selected_row: step_down(s.selected_row as int, s.projects.data@.len() as int) as usize,
            ..s
        },
        KeyCode::Char('n') => if s.current_page < s.total_pages {
            t == AppState { current_page: (s.current_page + 1) as u32, ..loading(s, AppScreen::LoadingProjects) }
        } else {
            t == s
        },
        KeyCode::Char('p') => if s.current_page > 1 {
            t == AppState { current_page: (s.current_page - 1) as u32, ..loading(s, AppScreen::LoadingProjects) }
        } else {
            t == s
        },
        KeyCode::Char('t') => t == AppState { screen: AppScreen::TypeSelection, error_message: None, ..s },
        KeyCode::Char('f') => t == loading(s, AppScreen::LoadingTags),
        KeyCode::Char('s') => t == AppState {
            screen: AppScreen::SearchInput,
            search_before_edit: t.search_before_edit,
            search_cursor_before_edit: s.search_cursor_position,
            ..s
        } && t.search_before_edit@ == s.search_query@,
        KeyCode::Char('o') => t == AppState {
            screen: AppScreen::SortOptions,
            sort_selection_index: sort_field_index(s.sort_field) as usize,
            ..s
        },
        KeyCode::Char('r') => {
            &&& t.selected_tags@.len() == 0
            &&& t.selected_version_tags@.len() == 0
            &&& t.search_query@.len() == 0
            &&& t == AppState {
                selected_tags: t.selected_tags,
                selected_version_tags: t.selected_version_tags,
                search_query: t.search_query,
                search_cursor_position: 0,
                sort_field: SortField::Downloads,
                sort_direction: SortDirection::Desc,
                current_page: 1,
                ..loading(s, AppScreen::LoadingProjects)
            }
        },
        KeyCode::Enter => if s.projects.data@.len() > 0 {
            t == AppState { success_message: None, ..loading(s, AppScreen::LoadingProjectDetails) }
        } else {
            shows_error(s, t, "No project selected"@)
        },
        KeyCode::Char('q') => t == quitting(s),
        _ => t == s,
    }
}

/// The project details: move the version selection; `n`/`p` load the next
/// or previous page of versions when there is one; Enter opens the selected
/// version; Esc goes back to the table.
pub open spec fn project_details_step(s: AppState, code: KeyCode, t: AppState) -> bool {
    match code {
        KeyCode::Up => t == AppState { selected_version_row: step_up(s.selected_version_row as int) as usize, ..s },
        KeyCode::Down => t == AppState {
            selected_version_row: step_down(s.selected_version_row as int, s.project_versions.data@.len() as int) as usize,
            ..s
        },
        KeyCode::Char('n') => if s.versions_current_page < s.versions_total_pages {
            t == AppState {
                versions_current_page: (s.versions_current_page + 1) as u32,
                ..loading(s, AppScreen::LoadingProjectVersions)
            }
        } else {
            t == s
        },
        KeyCode::Char('p') => if s.versions_current_page > 1 {
            t == AppState {
                versions_current_page: (s.versions_current_page - 1) as u32,
                ..loading(s, AppScreen::LoadingProjectVersions)
            }
        } else {
            t == s
        },
        KeyCode::Enter => if s.project_versions.data@.len() > 0 {
            t == AppState { success_message: None, ..loading(s, AppScreen::LoadingVersionDetails) }
        } else {
            shows_error(s, t, "No version selected"@)
        },
        KeyCode::Esc => t == AppState { screen: AppScreen::ProjectTable, error_message: None, ..s },
        _ => t == s,
    }
}

/// The version details: move the file selection; Enter asks to download the
/// selected file (or shows why it cannot); Esc goes back to the project.
pub open spec fn version_details_step(s: AppState, code: KeyCode, t: AppState, c: Command) -> bool {
    match code {
        KeyCode::Up => c is Nothing && t == AppState { selected_file_row: step_up(s.selected_file_row as int) as usize, ..s },
        KeyCode::Down => c is Nothing && t == AppState {
            selected_file_row: step_down(s.selected_file_row as int, file_count(s.selected_version)) as usize,
            ..s
        },
        KeyCode::Enter => if !s.connected {
            c is Nothing && shows_error(s, t, "Client not initialized"@)
        } else {
            match s.selected_version {
                None => c is Nothing && shows_error(s, t, "No version details loaded"@),
                Some(v) => if s.selected_file_row < v.files@.len() {
                    &&& t == s
                    &&& c matches Command::Download { url, file_name }
                        && url@ == v.files@[s.selected_file_row as int].url@
                        && file_name@ == v.files@[s.selected_file_row as int].name@
                } else {
                    c is Nothing && shows_error(s, t, "No file selected"@)
                },
            }
        },
        KeyCode::Esc => c is Nothing && t == AppState { screen: AppScreen::ProjectDetails, error_message: None, ..s },
        _ => c is Nothing && t == s,
    }
}

/// `after` is `before` with `slug` removed if it was there, added at the end
/// otherwise.
pub open spec fn toggled(before: Seq<String>, slug: String, after: Seq<String>) -> bool {
    if has_slug(before, slug@) {
        exists|k: int| 0 <= k < before.len() && before[k]@ == slug@ && after == before.remove(k)
    } else {
        after == before.push(slug)
    }
}

/// The tag filter: Up/Down move the selection of the focused table and keep
/// it in view; Tab switches tables; Enter checks or unchecks the selected
/// tag; `r` unchecks all and goes back to the top of both tables; Esc applies
/// the filter from the first page; `q` quits.
pub open spec fn tag_filter_step(s: AppState, code: KeyCode, t: AppState) -> bool {
    let pl = s.flattened_tags@.len() as int;
    let vl = s.flattened_version_tags@.len() as int;
    match code {
        KeyCode::Up => if s.tag_table_focus == TagTableFocus::ProjectTags {
            if s.project_tag_selection > 0 {
                let sel = s.project_tag_selection - 1;
                t == AppState {
                    project_tag_selection: sel as usize,
                    project_tag_scroll: visible_scroll(sel, s.project_tag_scroll as int, TAG_TABLE_ROWS as int, pl) as usize,
                    ..s
                }
            } else {
                t == s
            }
        } else {
            if s.version_tag_selection > 0 {
                let sel = s.version_tag_selection - 1;
                t == AppState {
                    version_tag_selection: sel as usize,
                    version_tag_scroll: visible_scroll(sel, s.version_tag_scroll as int, TAG_TABLE_ROWS as int, vl) as usize,
                    ..s
                }
            } else {
                t == s
            }
        },
        KeyCode::Down => if s.tag_table_focus == TagTableFocus::ProjectTags {
            if s.project_tag_selection < last_index(pl) {
                let sel = s.project_tag_selection + 1;
                t == AppState {
                    project_tag_selection: sel as usize,
                    project_tag_scroll: visible_scroll(sel, s.project_tag_scroll as int, TAG_TABLE_ROWS as int, pl) as usize,
                    ..s
                }
            } else {
                t == s
            }
        } else {
            if s.version_tag_selection < last_index(vl) {
                let sel = s.version_tag_selection + 1;
                t == AppState {
                    version_tag_selection: sel as usize,
                    version_tag_scroll: visible_scroll(sel, s.version_tag_scroll as int, TAG_TABLE_ROWS as int, vl) as usize,
                    ..s
                }
            } else {
                t == s
            }
        },
        KeyCode::Tab => t == AppState {
            tag_table_focus: if s.tag_table_focus == TagTableFocus::ProjectTags {
                TagTableFocus::VersionTags
            } else {
                TagTableFocus::ProjectTags
            },
            ..s
        },
        KeyCode::Enter => if s.tag_table_focus == TagTableFocus::ProjectTags {
            if s.project_tag_selection < pl {
                &&& toggled(s.selected_tags@, s.flattened_tags@[s.project_tag_selection as int].slug, t.selected_tags@)
                &&& t == AppState { selected_tags: t.selected_tags, ..s }
            } else {
                t == s
            }
        } else {
            if s.version_tag_selection < vl {
                &&& toggled(s.selected_version_tags@, s.flattened_version_tags@[s.version_tag_selection as int].slug,
                    t.selected_version_tags@)
                &&& t == AppState { selected_version_tags: t.selected_version_tags, ..s }
            } else {
                t == s
            }
        },
        KeyCode::Char('r') => {
            &&& t.selected_tags@.len() == 0
            &&& t.selected_version_tags@.len() == 0
            &&& t == AppState {
                selected_tags: t.selected_tags,
                selected_version_tags: t.selected_version_tags,
                project_tag_selection: 0,
                version_tag_selection: 0,
                project_tag_scroll: 0,
                version_tag_scroll: 0,
                tag_table_focus: TagTableFocus::ProjectTags,
                ..s
            }
        },
        KeyCode::Esc => t == AppState { current_page: 1, ..loading(s, AppScreen::LoadingProjects) },
        KeyCode::Char('q') => t == quitting(s),
        _ => t == s,
    }
}

/// The search screen: edit the search text (`q` is not typed), Enter
/// searches from the first page, Esc restores the text from before editing
/// and goes back to the table.
pub open spec fn search_input_step(s: AppState, code: KeyCode, t: AppState) -> bool {
    if is_edit_key(code) && code != KeyCode::Char('q') {
        let (text, cur) = edit_result(s.search_query@, s.search_cursor_position as int, code);
        &&& t.search_query@ == text
        &&& t == AppState { search_query: t.search_query, search_cursor_position: cur as usize, ..s }
    } else {
        match code {
            KeyCode::Enter => t == AppState { current_page: 1, ..loading(s, AppScreen::LoadingProjects) },
            KeyCode::Esc => {
                &&& t.search_query@ == s.search_before_edit@
                &&& t == AppState {
                    screen: AppScreen::ProjectTable,
                    search_query: t.search_query,
                    search_cursor_position: s.search_cursor_before_edit,
                    ..s
                }
            },
            _ => t == s,
        }
    }
}

/// The sort options: move the highlight over the four fields; Enter sorts
/// by the highlighted field from the first page; `d` flips the direction;
/// Esc applies from the first page; `q` quits.
pub open spec fn sort_options_step(s: AppState, code: KeyCode, t: AppState) -> bool {
    match code {
        KeyCode::Up => t == AppState { sort_selection_index: step_up(s.sort_selection_index as int) as usize, ..s },
        KeyCode::Down => t == AppState { sort_selection_index: step_down(s.sort_selection_index as int, 4) as usize, ..s },
        KeyCode::Enter => t == AppState {
            sort_field: sort_field_at(s.sort_selection_index as nat),
            current_page: 1,
            ..loading(s, AppScreen::LoadingProjects)
        },
        KeyCode::Char('d') => t == AppState {
            sort_direction: if s.sort_direction == SortDirection::Asc { SortDirection::Desc } else { SortDirection::Asc },
            ..s
        },
        KeyCode::Esc => t == AppState { current_page: 1, ..loading(s, AppScreen::LoadingProjects) },
        KeyCode::Char('q') => t == quitting(s),
        _ => t == s,
    }
}

/// What key `k` does to session `s`, giving `t` and the command `c`: a plain
/// `q` quits on every screen but the URL screen (where it is typed);
/// otherwise the active screen's key map applies; loading screens take no
/// keys.
pub open spec fn key_step(s: AppState, k: KeyEvent, t: AppState, c: Command) -> bool {
    if k.code == KeyCode::Char('q') && s.screen != AppScreen::UrlInput && k.plain {
        c is Nothing && t == quitting(s)
    } else {
        match s.screen {
            AppScreen::UrlInput => url_input_step(s, k.code, t, c),
            AppScreen::TypeSelection => c is Nothing && type_selection_step(s, k.code, t),
            AppScreen::ProjectTable => c is Nothing && project_table_step(s, k.code, t),
            AppScreen::ProjectDetails => c is Nothing && project_details_step(s, k.code, t),
            AppScreen::VersionDetails => version_details_step(s, k.code, t, c),
            AppScreen::TagFilter => c is Nothing && tag_filter_step(s, k.code, t),
            AppScreen::SearchInput => c is Nothing && search_input_step(s, k.code, t),
            AppScreen::SortOptions => c is Nothing && sort_options_step(s, k.code, t),
            _ => c is Nothing && t == s,
        }
    }
}

fn find_slug(set: &Vec<String>, slug: &String) -> (r: Option<usize>)
    ensures
        match r {
            Some(k) => k < set@.len() && set@[k as int]@ == slug@,
            None => !has_slug(set@, slug@),
        },
{
    let mut k: usize = 0;
    while k < set.len()
        invariant
            k <= set@.len(),
            forall|j: int| 0 <= j < k ==> set@[j]@ != slug@,
        decreases set@.len() - k,
    {
        if set[k] == *slug {
            return Some(k);
        }
        k = k + 1;
    }
    None
}

/// Checks `slug` when it is not in `set`, unchecks it when it is.
pub fn toggle_slug(set: &mut Vec<String>, slug: &String)
    requires
        distinct_slugs(old(set)@),
    ensures
        toggled(old(set)@, *slug, final(set)@),
        distinct_slugs(final(set)@),
{
    match find_slug(set, slug) {
        Some(k) => {
            set.remove(k);
            assert(distinct_slugs(final(set)@)) by {
                assert forall|i: int, j: int| 0 <= i < j < final(set)@.len()
                    implies final(set)@[i]@ != final(set)@[j]@ by {
                    let oi = if i < k { i } else { i + 1 };
                    let oj = if j < k { j } else { j + 1 };
                    assert(final(set)@[i] == old(set)@[oi]);
                    assert(final(set)@[j] == old(set)@[oj]);
                }
            }
        },
        None => {
            set.push(slug.clone());
        },
    }
}

/// The URL screen's keys (see `url_input_step`).
pub fn handle_url_input(code: KeyCode, state: &mut AppState) -> (c: Command)
    requires
        old(state).wf(),
        old(state).screen == AppScreen::UrlInput,
    ensures
        url_input_step(*old(state), code, *final(state), c),
        final(state).wf(),
{
    match code {
        KeyCode::Char(_) | KeyCode::Backspace | KeyCode::Delete | KeyCode::Left | KeyCode::Right
        | KeyCode::Home | KeyCode::End => {
            let (text, cur, changed) = edit_text(&state.api_url, state.cursor_position, code);
            state.api_url = text;
            state.cursor_position = cur;
            if changed {
                state.error_message = None;
            }
            Command::Nothing
        },
        KeyCode::Enter => Command::Connect,
        KeyCode::Esc => {
            state.should_quit = true;
            Command::Nothing
        },
        _ => Command::Nothing,
    }
}

/// The project type screen's keys (see `type_selection_step`).
pub fn handle_type_selection(code: KeyCode, state: &mut AppState)
    requires
        old(state).wf(),
    ensures
        type_selection_step(*old(state), code, *final(state)),
        final(state).wf(),
{
    match code {
        KeyCode::Up => {
            state.selected_type_index = select_up(state.selected_type_index);
        },
        KeyCode::Down => {
            state.selected_type_index = select_down(state.selected_type_index, state.project_types.len());
        },
        KeyCode::Enter => {
            state.screen = AppScreen::LoadingProjects;
            state.error_message = None;
            state.current_page = 1;
        },
        KeyCode::Esc => {
            state.screen = AppScreen::UrlInput;
        },
        KeyCode::Char('q') => {
            state.should_quit = true;
        },
        _ => {},
    }
}

/// The project table's keys (see `project_table_step`).
pub fn handle_project_table(code: KeyCode, state: &mut AppState)
    requires
        old(state).wf(),
    ensures
        project_table_step(*old(state), code, *final(state)),
        final(state).wf(),
{
    proof {
        reveal_strlit("No project selected");
    }
    match code {
        KeyCode::Up => {
            state.selected_row = select_up(state.selected_row);
        },
        KeyCode::Down => {
            state.selected_row = select_down(state.selected_row, state.projects.data.len());
        },
        KeyCode::Char('n') => {
            if state.current_page < state.total_pages {
                state.current_page = state.current_page + 1;
                state.screen = AppScreen::LoadingProjects;
                state.error_message = None;
            }
        },
        KeyCode::Char('p') => {
            if state.current_page > 1 {
                state.current_page = state.current_page - 1;
                state.screen = AppScreen::LoadingProjects;
                state.error_message = None;
            }
        },
        KeyCode::Char('t') => {
            state.screen = AppScreen::TypeSelection;
            state.error_message = None;
        },
        KeyCode::Char('f') => {
            state.screen = AppScreen::LoadingTags;
            state.error_message = None;
        },
        KeyCode::Char('s') => {
            state.search_before_edit = state.search_query.clone();
            state.search_cursor_before_edit = state.search_cursor_position;
            state.screen = AppScreen::SearchInput;
        },
        KeyCode::Char('o') => {
            state.sort_selection_index = state.sort_field.index();
            state.screen = AppScreen::SortOptions;
        },
        KeyCode::Char('r') => {
            state.reset_filters();
            state.screen = AppScreen::LoadingProjects;
            state.error_message = None;
        },
        KeyCode::Enter => {
            if state.projects.data.len() > 0 {
                state.screen = AppScreen::LoadingProjectDetails;
                state.error_message = None;
                state.success_message = None;
            } else {
                state.set_error("No project selected".to_owned());
            }
        },
        KeyCode::Char('q') => {
            state.should_quit = true;
        },
        _ => {},
    }
}

/// The project details' keys (see `project_details_step`).
pub fn handle_project_details(code: KeyCode, state: &mut AppState)
    requires
        old(state).wf(),
    ensures
        project_details_step(*old(state), code, *final(state)),
        final(state).wf(),
{
    proof {
        reveal_strlit("No version selected");
    }
    match code {
        KeyCode::Up => {
            state.selected_version_row = select_up(state.selected_version_row);
        },
        KeyCode::Down => {
            state.selected_version_row = select_down(state.selected_version_row, state.project_versions.data.len());
        },
        KeyCode::Char('n') => {
            if state.versions_current_page < state.versions_total_pages {
                state.versions_current_page = state.versions_current_page + 1;
                state.screen = AppScreen::LoadingProjectVersions;
                state.error_message = None;
            }
        },
        KeyCode::Char('p') => {
            if state.versions_current_page > 1 {
                state.versions_current_page = state.versions_current_page - 1;
                state.screen = AppScreen::LoadingProjectVersions;
                state.error_message = None;
            }
        },
        KeyCode::Enter => {
            if state.project_versions.data.len() > 0 {
                state.screen = AppScreen::LoadingVersionDetails;
                state.error_message = None;
                state.success_message = None;
            } else {
                state.set_error("No version selected".to_owned());
            }
        },
        KeyCode::Esc => {
            state.screen = AppScreen::ProjectTable;
            state.error_message = None;
        },
        _ => {},
    }
}

fn selected_file_count(state: &AppState) -> (r: usize)
    ensures
        r == file_count(state.selected_version),
{
    match &state.selected_version {
        Some(v) => v.files.len(),
        None => 0,
    }
}

/// The version details' keys (see `version_details_step`).
pub fn handle_version_details(code: KeyCode, state: &mut AppState) -> (c: Command)
    requires
        old(state).wf(),
    ensures
        version_details_step(*old(state), code, *final(state), c),
        final(state).wf(),
{
    proof {
        reveal_strlit("Client not initialized");
        reveal_strlit("No version details loaded");
        reveal_strlit("No file selected");
    }
    match code {
        KeyCode::Up => {
            state.selected_file_row = select_up(state.selected_file_row);
            Command::Nothing
        },
        KeyCode::Down => {
            let n = selected_file_count(state);
            state.selected_file_row = select_down(state.selected_file_row, n);
            Command::Nothing
        },
        KeyCode::Enter => {
            if !state.connected {
                state.set_error("Client not initialized".to_owned());
                return Command::Nothing;
            }
            let target = match &state.selected_version {
                None => None,
                Some(v) => {
                    if state.selected_file_row < v.files.len() {
                        let f = &v.files[state.selected_file_row];
                        Some(Command::Download { url: f.url.clone(), file_name: f.name.clone() })
                    } else {
                        Some(Command::Nothing)
                    }
                },
            };
            match target {
                None => {
                    state.set_error("No version details loaded".to_owned());
                    Command::Nothing
                },
                Some(Command::Nothing) => {
                    state.set_error("No file selected".to_owned());
                    Command::Nothing
                },
                Some(c) => c,
            }
        },
        KeyCode::Esc => {
            state.screen = AppScreen::ProjectDetails;
            state.error_message = None;
            Command::Nothing
        },
        _ => Command::Nothing,
    }
}

/// The tag filter's keys (see `tag_filter_step`).
pub fn handle_tag_filter(code: KeyCode, state: &mut AppState)
    requires
        old(state).wf(),
    ensures
        tag_filter_step(*old(state), code, *final(state)),
        final(state).wf(),
{
    match code {
        KeyCode::Up => {
            if state.tag_table_focus == TagTableFocus::ProjectTags {
                if state.project_tag_selection > 0 {
                    state.project_tag_selection = state.project_tag_selection - 1;
                    let total = state.flattened_tags.len();
                    let mut scroll = state.project_tag_scroll;
                    ensure_selection_visible(state.project_tag_selection, &mut scroll, TAG_TABLE_ROWS, total);
                    state.project_tag_scroll = scroll;
                }
            } else {
                if state.version_tag_selection > 0 {
                    state.version_tag_selection = state.version_tag_selection - 1;
                    let total = state.flattened_version_tags.len();
                    let mut scroll = state.version_tag_scroll;
                    ensure_selection_visible(state.version_tag_selection, &mut scroll, TAG_TABLE_ROWS, total);
                    state.version_tag_scroll = scroll;
                }
            }
        },
        KeyCode::Down => {
            if state.tag_table_focus == TagTableFocus::ProjectTags {
                let total = state.flattened_tags.len();
                let last: usize = if total > 0 { total - 1 } else { 0 };
                if state.project_tag_selection < last {
                    state.project_tag_selection = state.project_tag_selection + 1;
                    let mut scroll = state.project_tag_scroll;
                    ensure_selection_visible(state.project_tag_selection, &mut scroll, TAG_TABLE_ROWS, total);
                    state.project_tag_scroll = scroll;
                }
            } else {
                let total = state.flattened_version_tags.len();
                let last: usize = if total > 0 { total - 1 } else { 0 };
                if state.version_tag_selection < last {
                    state.version_tag_selection = state.version_tag_selection + 1;
                    let mut scroll = state.version_tag_scroll;
                    ensure_selection_visible(state.version_tag_selection, &mut scroll, TAG_TABLE_ROWS, total);
                    state.version_tag_scroll = scroll;
                }
            }
        },
        KeyCode::Tab => {
            state.tag_table_focus = if state.tag_table_focus == TagTableFocus::ProjectTags {
                TagTableFocus::VersionTags
            } else {
                TagTableFocus::ProjectTags
            };
        },
        KeyCode::Enter => {
            if state.tag_table_focus == TagTableFocus::ProjectTags {
                if state.project_tag_selection < state.flattened_tags.len() {
                    let slug = state.flattened_tags[state.project_tag_selection].slug.clone();
                    toggle_slug(&mut state.selected_tags, &slug);
                }
            } else {
                if state.version_tag_selection < state.flattened_version_tags.len() {
                    let slug = state.flattened_version_tags[state.version_tag_selection].slug.clone();
                    toggle_slug(&mut state.selected_version_tags, &slug);
                }
            }
        },
        KeyCode::Char('r') => {
            state.selected_tags = Vec::new();
            state.selected_version_tags = Vec::new();
            state.project_tag_selection = 0;
            state.version_tag_selection = 0;
            state.project_tag_scroll = 0;
            state.version_tag_scroll = 0;
            state.tag_table_focus = TagTableFocus::ProjectTags;
        },
        KeyCode::Esc => {
            state.current_page = 1;
            state.screen = AppScreen::LoadingProjects;
            state.error_message = None;
        },
        KeyCode::Char('q') => {
            state.should_quit = true;
        },
        _ => {},
    }
}

/// The search screen's keys (see `search_input_step`).
pub fn handle_search_input(code: KeyCode, state: &mut AppState)
    requires
        old(state).wf(),
    ensures
        search_input_step(*old(state), code, *final(state)),
        final(state).wf(),
{
    match code {
        KeyCode::Char('q') => {},
        KeyCode::Char(_) | KeyCode::Backspace | KeyCode::Delete | KeyCode::Left | KeyCode::Right
        | KeyCode::Home | KeyCode::End => {
            let (text, cur, _changed) = edit_text(&state.search_query, state.search_cursor_position, code);
            state.search_query = text;
            state.search_cursor_position = cur;
        },
        KeyCode::Enter => {
            state.current_page = 1;
            state.screen = AppScreen::LoadingProjects;
            state.error_message = None;
        },
        KeyCode::Esc => {
            state.search_query = state.search_before_edit.clone();
            state.search_cursor_position = state.search_cursor_before_edit;
            state.screen = AppScreen::ProjectTable;
        },
        _ => {},
    }
}

/// The sort options' keys (see `sort_options_step`).
pub fn handle_sort_options(code: KeyCode, state: &mut AppState)
    requires
        old(state).wf(),
    ensures
        sort_options_step(*old(state), code, *final(state)),
        final(state).wf(),
{
    match code {
        KeyCode::Up => {
            state.sort_selection_index = select_up(state.sort_selection_index);
        },
        KeyCode::Down => {
            state.sort_selection_index = select_down(state.sort_selection_index, 4);
        },
        KeyCode::Enter => {
            state.sort_field = SortField::at(state.sort_selection_index);
            state.current_page = 1;
            state.screen = AppScreen::LoadingProjects;
            state.error_message = None;
        },
        KeyCode::Char('d') => {
            state.sort_direction = match state.sort_direction {
                SortDirection::Asc => SortDirection::Desc,
                SortDirection::Desc => SortDirection::Asc,
            };
        },
        KeyCode::Esc => {
            state.current_page = 1;
            state.screen = AppScreen::LoadingProjects;
            state.error_message = None;
        },
        KeyCode::Char('q') => {
            state.should_quit = true;
        },
        _ => {},
    }
}

/// Applies key `event` to the session (see `key_step`) and returns the
/// outside work it asks for.
pub fn handle_event(event: KeyEvent, state: &mut AppState) -> (c: Command)
    requires
        old(state).wf(),
    ensures
        key_step(*old(state), event, *final(state), c),
        final(state).wf(),
{
    if event.code == KeyCode::Char('q') && state.screen != AppScreen::UrlInput && event.plain {
        state.should_quit = true;
        return Command::Nothing;
    }
    match state.screen {
        AppScreen::UrlInput => handle_url_input(event.code, state),
        AppScreen::TypeSelection => {
            handle_type_selection(event.code, state);
            Command::Nothing
        },
        AppScreen::ProjectTable => {
            handle_project_table(event.code, state);
            Command::Nothing
        },
        AppScreen::ProjectDetails => {
            handle_project_details(event.code, state);
            Command::Nothing
        },
        AppScreen::VersionDetails => handle_version_details(event.code, state),
        AppScreen::TagFilter => {
            handle_tag_filter(event.code, state);
            Command::Nothing
        },
        AppScreen::SearchInput => {
            handle_search_input(event.code, state);
            Command::Nothing
        },
        AppScreen::SortOptions => {
            handle_sort_options(event.code, state);
            Command::Nothing
        },
        _ => Command::Nothing,
    }
}

/// Applying a filter, search or sort change (leaving the tag filter,
/// confirming the search, choosing or leaving the sort options, or resetting
/// the filters from the project table) always sets the page counter back to 1
/// before the next fetch: the request the session then plans asks for the
/// first page.
pub proof fn lemma_filter_change_fetches_first_page(
    s: AppState,
    k: KeyEvent,
    t: AppState,
    c: Command,
    r: Option<Result<FetchRequest, String>>,
)
    requires
        key_step(s, k, t, c),
        s.screen == AppScreen::TagFilter || s.screen == AppScreen::SearchInput
            || s.screen == AppScreen::SortOptions
            || (s.screen == AppScreen::ProjectTable && k.code == KeyCode::Char('r')),
        t.screen == AppScreen::LoadingProjects,
        planned(t, r),
    ensures
        t.current_page == 1,
        r matches Some(Ok(FetchRequest::Projects(p))) ==> p.page == 1,
{
}

/// No key leaves an error and a status shown together, when they were not
/// both shown before.
pub proof fn lemma_key_step_keeps_one_message(s: AppState, k: KeyEvent, t: AppState, c: Command)
    requires
        key_step(s, k, t, c),
        !(s.error_message is Some && s.success_message is Some),
    ensures
        !(t.error_message is Some && t.success_message is Some),
{
}

} // verus!
