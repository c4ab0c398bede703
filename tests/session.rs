use hub01_tui::events::{handle_event, Command, KeyCode, KeyEvent};
use hub01_tui::fetch::{process_state, FetchRequest, FetchResponse, Resource};
use hub01_tui::models::{PageMeta, PaginatedResponse, Project, ProjectFile, ProjectTag, ProjectType, ProjectVersion};
use hub01_tui::state::{AppScreen, AppState, SortDirection, SortField, TagTableFocus};
use hub01_tui::view::{project_table_title, status_line, tag_rows, StatusKind};

fn key(code: KeyCode) -> KeyEvent {
    KeyEvent { code, plain: true }
}

fn press(state: &mut AppState, code: KeyCode) -> Command {
    handle_event(key(code), state)
}

fn project_type(slug: &str) -> ProjectType {
    ProjectType { name: slug.to_uppercase(), slug: slug.to_string(), icon: "#".to_string() }
}

fn tag(slug: &str, children: Vec<ProjectTag>) -> ProjectTag {
    ProjectTag {
        name: slug.to_string(),
        slug: slug.to_string(),
        icon: String::new(),
        tag_group: String::new(),
        project_types: Vec::new(),
        main_tag: String::new(),
        sub_tags: children,
    }
}

fn project(slug: &str) -> Project {
    Project {
        name: slug.to_string(),
        slug: slug.to_string(),
        summary: "A project".to_string(),
        description: None,
        logo_url: String::new(),
        website: None,
        issues: None,
        source: None,
        status: "active".to_string(),
        downloads: 1500,
        created_at: "2024-01-02T03:04:05Z".to_string(),
        last_release_date: None,
        updated_at: None,
        version_count: 1,
        tags: vec!["combat".to_string()],
        members: Vec::new(),
    }
}

fn version(name: &str, files: Vec<ProjectFile>) -> ProjectVersion {
    ProjectVersion {
        name: name.to_string(),
        version: name.to_string(),
        release_type: "release".to_string(),
        release_date: "2024-02-03".to_string(),
        changelog: None,
        downloads: 7,
        tags: Vec::new(),
        files,
        dependencies: Vec::new(),
    }
}

fn page<T>(items: Vec<T>, total: u64) -> PaginatedResponse<T> {
    PaginatedResponse { data: items, meta: Some(PageMeta { total: Some(total), per_page: Some(10) }), links: None }
}

fn messages_exclusive(state: &AppState) -> bool {
    !(state.error_message.is_some() && state.success_message.is_some())
}

/// A session connected and showing a page of projects of type `mod`.
fn on_project_table(total: u64) -> AppState {
    let mut state = AppState::new();
    assert!(matches!(press(&mut state, KeyCode::Enter), Command::Connect));
    state.connect_finished(Ok(()));
    assert!(matches!(state.fetch_request(), Some(Ok(FetchRequest::ProjectTypes))));
    process_state(&mut state, Ok(FetchResponse::ProjectTypes(vec![project_type("mod"), project_type("pack")])));
    assert_eq!(state.screen, AppScreen::TypeSelection);
    press(&mut state, KeyCode::Enter);
    assert_eq!(state.screen, AppScreen::LoadingProjects);
    process_state(&mut state, Ok(FetchResponse::Projects(page(vec![project("alpha"), project("beta")], total))));
    assert_eq!(state.screen, AppScreen::ProjectTable);
    state
}

#[test]
fn empty_type_list_returns_to_url_input() {
    let mut state = AppState::new();
    press(&mut state, KeyCode::Enter);
    state.connect_finished(Ok(()));
    assert_eq!(state.screen, AppScreen::LoadingTypes);
    process_state(&mut state, Ok(FetchResponse::ProjectTypes(Vec::new())));
    assert_eq!(state.screen, AppScreen::UrlInput);
    assert_eq!(state.error_message.as_deref(), Some("No project types found"));
    assert!(messages_exclusive(&state));
}

#[test]
fn next_page_on_last_page_does_nothing() {
    let mut state = on_project_table(30);
    state.current_page = 3;
    assert_eq!(state.total_pages, 3);
    press(&mut state, KeyCode::Char('n'));
    assert_eq!(state.screen, AppScreen::ProjectTable);
    assert_eq!(state.current_page, 3);
    assert!(state.fetch_request().is_none());
}

#[test]
fn next_and_previous_pages_load() {
    let mut state = on_project_table(30);
    press(&mut state, KeyCode::Char('n'));
    assert_eq!(state.screen, AppScreen::LoadingProjects);
    assert_eq!(state.current_page, 2);
    match state.fetch_request() {
        Some(Ok(FetchRequest::Projects(p))) => assert_eq!(p.page, 2),
        _ => panic!("expected a projects request"),
    }
    process_state(&mut state, Ok(FetchResponse::Projects(page(vec![project("gamma")], 30))));
    press(&mut state, KeyCode::Char('p'));
    assert_eq!(state.current_page, 1);
    assert_eq!(state.screen, AppScreen::LoadingProjects);
}

#[test]
fn checked_tag_survives_refetch() {
    let mut state = on_project_table(5);
    press(&mut state, KeyCode::Char('f'));
    assert!(matches!(state.fetch_request(), Some(Ok(FetchRequest::Tags { .. }))));
    let tags = || vec![tag("combat", vec![tag("melee", vec![])]), tag("magic", vec![])];
    process_state(&mut state, Ok(FetchResponse::Tags { project_tags: tags(), version_tags: Vec::new() }));
    assert_eq!(state.screen, AppScreen::TagFilter);
    press(&mut state, KeyCode::Enter);
    assert_eq!(state.selected_tags, vec!["combat".to_string()]);
    press(&mut state, KeyCode::Esc);
    process_state(&mut state, Ok(FetchResponse::Projects(page(vec![project("alpha")], 1))));
    press(&mut state, KeyCode::Char('t'));
    assert_eq!(state.screen, AppScreen::TypeSelection);
    press(&mut state, KeyCode::Down);
    press(&mut state, KeyCode::Up);
    press(&mut state, KeyCode::Enter);
    process_state(&mut state, Ok(FetchResponse::Projects(page(vec![project("alpha")], 1))));
    press(&mut state, KeyCode::Char('f'));
    let refetched = vec![tag("magic", vec![]), tag("combat", vec![])];
    process_state(&mut state, Ok(FetchResponse::Tags { project_tags: refetched, version_tags: Vec::new() }));
    let rows = tag_rows(&state.flattened_tags, &state.selected_tags, 0, 10, 0, true);
    assert_eq!(rows[1].text, "[x] combat | combat");
    assert_eq!(rows[0].text, "[ ] magic | magic");
}

#[test]
fn unchecking_and_reset_clear_tags() {
    let mut state = on_project_table(5);
    press(&mut state, KeyCode::Char('f'));
    process_state(
        &mut state,
        Ok(FetchResponse::Tags {
            project_tags: vec![tag("combat", vec![tag("melee", vec![])])],
            version_tags: vec![tag("stable", vec![])],
        }),
    );
    press(&mut state, KeyCode::Down);
    press(&mut state, KeyCode::Enter);
    assert_eq!(state.selected_tags, vec!["melee".to_string()]);
    press(&mut state, KeyCode::Enter);
    assert!(state.selected_tags.is_empty());
    press(&mut state, KeyCode::Tab);
    assert_eq!(state.tag_table_focus, TagTableFocus::VersionTags);
    press(&mut state, KeyCode::Enter);
    assert_eq!(state.selected_version_tags, vec!["stable".to_string()]);
    press(&mut state, KeyCode::Char('r'));
    assert!(state.selected_version_tags.is_empty());
    assert_eq!(state.tag_table_focus, TagTableFocus::ProjectTags);
    assert_eq!(state.project_tag_selection, 0);
}

#[test]
fn tag_selection_scrolls_and_saturates() {
    let mut state = on_project_table(5);
    press(&mut state, KeyCode::Char('f'));
    let many: Vec<ProjectTag> = (0..15).map(|i| tag(&format!("t{i}"), Vec::new())).collect();
    process_state(&mut state, Ok(FetchResponse::Tags { project_tags: many, version_tags: Vec::new() }));
    for _ in 0..20 {
        press(&mut state, KeyCode::Down);
        assert!(state.project_tag_selection < 15);
        let (sel, scroll) = (state.project_tag_selection, state.project_tag_scroll);
        assert!(scroll <= sel && sel < scroll + 10);
    }
    assert_eq!(state.project_tag_selection, 14);
    assert_eq!(state.project_tag_scroll, 5);
    for _ in 0..20 {
        press(&mut state, KeyCode::Up);
    }
    assert_eq!(state.project_tag_selection, 0);
    assert_eq!(state.project_tag_scroll, 0);
}

#[test]
fn filter_search_and_sort_changes_fetch_first_page() {
    let mut state = on_project_table(50);
    press(&mut state, KeyCode::Char('n'));
    process_state(&mut state, Ok(FetchResponse::Projects(page(vec![project("x")], 50))));
    assert_eq!(state.current_page, 2);

    press(&mut state, KeyCode::Char('s'));
    press(&mut state, KeyCode::Char('m'));
    press(&mut state, KeyCode::Char('a'));
    press(&mut state, KeyCode::Enter);
    assert_eq!(state.current_page, 1);
    match state.fetch_request() {
        Some(Ok(FetchRequest::Projects(p))) => {
            assert_eq!(p.page, 1);
            assert_eq!(p.search.as_deref(), Some("ma"));
        }
        _ => panic!("expected a projects request"),
    }
    process_state(&mut state, Ok(FetchResponse::Projects(page(vec![project("x")], 50))));
    press(&mut state, KeyCode::Char('n'));
    process_state(&mut state, Ok(FetchResponse::Projects(page(vec![project("x")], 50))));

    press(&mut state, KeyCode::Char('o'));
    assert_eq!(state.screen, AppScreen::SortOptions);
    press(&mut state, KeyCode::Down);
    press(&mut state, KeyCode::Char('d'));
    press(&mut state, KeyCode::Enter);
    assert_eq!(state.current_page, 1);
    assert_eq!(state.sort_field, SortField::Name);
    assert_eq!(state.sort_direction, SortDirection::Asc);
    match state.fetch_request() {
        Some(Ok(FetchRequest::Projects(p))) => {
            assert_eq!(p.order_by.as_deref(), Some("name"));
            assert_eq!(p.order_direction.as_deref(), Some("asc"));
        }
        _ => panic!("expected a projects request"),
    }
    process_state(&mut state, Ok(FetchResponse::Projects(page(vec![project("x")], 50))));
    press(&mut state, KeyCode::Char('n'));
    process_state(&mut state, Ok(FetchResponse::Projects(page(vec![project("x")], 50))));

    press(&mut state, KeyCode::Char('f'));
    process_state(&mut state, Ok(FetchResponse::Tags { project_tags: Vec::new(), version_tags: Vec::new() }));
    press(&mut state, KeyCode::Esc);
    assert_eq!(state.current_page, 1);
    assert_eq!(state.screen, AppScreen::LoadingProjects);
    process_state(&mut state, Ok(FetchResponse::Projects(page(vec![project("x")], 50))));
    press(&mut state, KeyCode::Char('n'));
    process_state(&mut state, Ok(FetchResponse::Projects(page(vec![project("x")], 50))));

    press(&mut state, KeyCode::Char('r'));
    assert_eq!(state.current_page, 1);
    assert!(state.search_query.is_empty());
    assert_eq!(state.sort_field, SortField::Downloads);
    assert_eq!(state.sort_direction, SortDirection::Desc);
}

#[test]
fn search_escape_discards_edit() {
    let mut state = on_project_table(5);
    press(&mut state, KeyCode::Char('s'));
    press(&mut state, KeyCode::Char('a'));
    press(&mut state, KeyCode::Char('b'));
    press(&mut state, KeyCode::Left);
    press(&mut state, KeyCode::Backspace);
    assert_eq!(state.search_query, "b");
    press(&mut state, KeyCode::Esc);
    assert_eq!(state.screen, AppScreen::ProjectTable);
    assert_eq!(state.search_query, "");
    assert_eq!(state.search_cursor_position, 0);
}

#[test]
fn quit_key_is_typed_on_url_screen() {
    let mut state = AppState::new();
    press(&mut state, KeyCode::Char('q'));
    assert!(!state.should_quit);
    assert!(state.api_url.ends_with('q'));
    press(&mut state, KeyCode::Esc);
    assert!(state.should_quit);

    let mut elsewhere = on_project_table(5);
    press(&mut elsewhere, KeyCode::Char('q'));
    assert!(elsewhere.should_quit);
}

#[test]
fn url_editing_and_connection_failure() {
    let mut state = AppState::new();
    assert_eq!(state.api_url, "https://hub01-shop.srgnis.com/api");
    assert_eq!(state.cursor_position, state.api_url.len());
    press(&mut state, KeyCode::Home);
    press(&mut state, KeyCode::Delete);
    assert!(state.api_url.starts_with("ttps"));
    press(&mut state, KeyCode::End);
    press(&mut state, KeyCode::Backspace);
    assert!(state.api_url.ends_with("/ap"));
    state.connect_finished(Err("bad url".to_string()));
    assert_eq!(state.error_message.as_deref(), Some("Failed to create client: bad url"));
    assert_eq!(state.screen, AppScreen::UrlInput);
    press(&mut state, KeyCode::Char('i'));
    assert!(state.error_message.is_none());
}

#[test]
fn fetch_failures_route_back_with_message() {
    let mut state = on_project_table(5);
    press(&mut state, KeyCode::Char('f'));
    let cause = Resource::ProjectTags.failure_message("timeout");
    assert_eq!(cause, "Failed to fetch project tags: timeout");
    process_state(&mut state, Err(cause));
    assert_eq!(state.screen, AppScreen::ProjectTable);
    assert_eq!(state.error_message.as_deref(), Some("Failed to fetch project tags: timeout"));

    press(&mut state, KeyCode::Char('n'));
    let mut unconnected = AppState::new();
    unconnected.screen = AppScreen::LoadingTypes;
    match unconnected.fetch_request() {
        Some(Err(m)) => assert_eq!(m, "Client not initialized"),
        _ => panic!("expected a refusal"),
    }
}

#[test]
fn drill_down_and_download_flow() {
    let mut state = on_project_table(5);
    press(&mut state, KeyCode::Down);
    press(&mut state, KeyCode::Enter);
    assert_eq!(state.screen, AppScreen::LoadingProjectDetails);
    match state.fetch_request() {
        Some(Ok(FetchRequest::ProjectDetails { slug })) => assert_eq!(slug, "beta"),
        _ => panic!("expected a details request"),
    }
    process_state(&mut state, Ok(FetchResponse::ProjectDetails(project("beta"))));
    assert_eq!(state.screen, AppScreen::LoadingProjectVersions);
    match state.fetch_request() {
        Some(Ok(FetchRequest::ProjectVersions { slug, params })) => {
            assert_eq!(slug, "beta");
            assert_eq!(params.page, 1);
        }
        _ => panic!("expected a versions request"),
    }
    let file = ProjectFile {
        name: "readme.txt".to_string(),
        size: 10,
        sha1: "0123456789abcdef".to_string(),
        url: "https://example.org/readme.txt".to_string(),
    };
    process_state(&mut state, Ok(FetchResponse::ProjectVersions(page(vec![version("1.0", vec![file.clone()])], 1))));
    assert_eq!(state.screen, AppScreen::ProjectDetails);
    press(&mut state, KeyCode::Enter);
    match state.fetch_request() {
        Some(Ok(FetchRequest::VersionDetails { slug, version })) => {
            assert_eq!(slug, "beta");
            assert_eq!(version, "1.0");
        }
        _ => panic!("expected a version request"),
    }
    process_state(&mut state, Ok(FetchResponse::VersionDetails(version("1.0", vec![file]))));
    assert_eq!(state.screen, AppScreen::VersionDetails);
    match press(&mut state, KeyCode::Enter) {
        Command::Download { url, file_name } => {
            assert_eq!(url, "https://example.org/readme.txt");
            assert_eq!(file_name, "readme.txt");
        }
        _ => panic!("expected a download"),
    }
    state.download_finished(Err("Failed to download file: HTTP 500".to_string()));
    assert_eq!(status_line(&state).kind, StatusKind::Error);
    state.download_finished(Ok("readme-1.txt".to_string()));
    assert_eq!(state.success_message.as_deref(), Some("Downloaded file: readme-1.txt"));
    assert!(messages_exclusive(&state));
    assert_eq!(status_line(&state).text, " Status: Downloaded file: readme-1.txt");
    press(&mut state, KeyCode::Esc);
    assert_eq!(state.screen, AppScreen::ProjectDetails);
    press(&mut state, KeyCode::Esc);
    assert_eq!(state.screen, AppScreen::ProjectTable);
}

#[test]
fn empty_lists_report_missing_selection() {
    let mut state = on_project_table(5);
    state.projects = page(Vec::new(), 0);
    state.selected_row = 0;
    press(&mut state, KeyCode::Enter);
    assert_eq!(state.error_message.as_deref(), Some("No project selected"));
    assert_eq!(state.screen, AppScreen::ProjectTable);

    let mut details = AppState::new();
    details.screen = AppScreen::VersionDetails;
    details.connected = true;
    press(&mut details, KeyCode::Enter);
    assert_eq!(details.error_message.as_deref(), Some("No version details loaded"));
    details.connected = false;
    press(&mut details, KeyCode::Enter);
    assert_eq!(details.error_message.as_deref(), Some("Client not initialized"));
}

#[test]
fn messages_never_both_set() {
    let mut state = on_project_table(5);
    state.set_success("done".to_string());
    assert!(messages_exclusive(&state));
    state.set_error("broken".to_string());
    assert!(messages_exclusive(&state));
    assert!(state.success_message.is_none());
    state.set_success("again".to_string());
    assert!(state.error_message.is_none());
    press(&mut state, KeyCode::Enter);
    assert!(messages_exclusive(&state));
    process_state(&mut state, Err("Failed to fetch project details: down".to_string()));
    assert!(messages_exclusive(&state));
    assert_eq!(state.screen, AppScreen::ProjectTable);
}

#[test]
fn title_shows_type_page_and_filters() {
    let mut state = on_project_table(25);
    assert_eq!(project_table_title(&state), "Projects - MOD | Page 1/3");
    state.selected_tags = vec!["a".to_string(), "b".to_string()];
    state.search_query = "map".to_string();
    assert_eq!(project_table_title(&state), "Projects - MOD | Page 1/3 | Filters: 2 tags, search: 'map'");
}

#[test]
fn fetches_refused_when_selection_missing() {
    let mut state = AppState::new();
    state.connected = true;
    state.screen = AppScreen::LoadingProjects;
    match state.fetch_request() {
        Some(Err(m)) => assert_eq!(m, "No project type selected"),
        _ => panic!("expected a refusal"),
    }
    state.screen = AppScreen::LoadingProjectDetails;
    match state.fetch_request() {
        Some(Err(m)) => assert_eq!(m, "No project selected"),
        _ => panic!("expected a refusal"),
    }
    state.screen = AppScreen::LoadingProjectVersions;
    match state.fetch_request() {
        Some(Err(m)) => assert_eq!(m, "No selected project details loaded"),
        _ => panic!("expected a refusal"),
    }
    state.selected_project = Some(project("alpha"));
    state.screen = AppScreen::LoadingVersionDetails;
    match state.fetch_request() {
        Some(Err(m)) => assert_eq!(m, "No version selected"),
        _ => panic!("expected a refusal"),
    }
    process_state(&mut state, Err("No version selected".to_string()));
    assert_eq!(state.screen, AppScreen::ProjectDetails);
    press(&mut state, KeyCode::Enter);
    assert_eq!(state.error_message.as_deref(), Some("No version selected"));
    assert!(AppState::default().fetch_request().is_none());
}

#[test]
fn download_without_file_is_refused() {
    let mut state = AppState::new();
    state.connected = true;
    state.screen = AppScreen::VersionDetails;
    state.selected_version = Some(version("1.0", Vec::new()));
    assert!(matches!(press(&mut state, KeyCode::Enter), Command::Nothing));
    assert_eq!(state.error_message.as_deref(), Some("No file selected"));
}

#[test]
fn shrinking_total_keeps_page_in_range() {
    let mut state = on_project_table(50);
    press(&mut state, KeyCode::Char('n'));
    press(&mut state, KeyCode::Char('n'));
    assert_eq!(state.current_page, 2);
    process_state(&mut state, Ok(FetchResponse::Projects(page(vec![project("x")], 50))));
    press(&mut state, KeyCode::Char('n'));
    assert_eq!(state.current_page, 3);
    process_state(&mut state, Ok(FetchResponse::Projects(page(vec![project("x")], 15))));
    assert_eq!(state.total_pages, 2);
    assert_eq!(state.current_page, 2);
}

#[test]
fn total_pages_follow_metadata() {
    let state = on_project_table(25);
    assert_eq!(state.total_pages, 3);
    let mut none = on_project_table(0);
    assert_eq!(none.total_pages, 1);
    press(&mut none, KeyCode::Char('n'));
    assert_eq!(none.screen, AppScreen::ProjectTable);
}
