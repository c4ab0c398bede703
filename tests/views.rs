use hub01_tui::models::{Project, ProjectFile, ProjectVersion};
use hub01_tui::models::{PageMeta, PaginatedResponse, ProjectType};
use hub01_tui::state::{AppScreen, AppState, SortField};
use hub01_tui::view::{
    file_row, help_text, loading_message, project_description, project_details_title, project_info,
    project_row, project_table_rows, sort_rows, type_rows, version_changelog, version_details_title, version_info, version_row,
};

fn project() -> Project {
    Project {
        name: "Extremely Long Name".to_string(),
        slug: "long".to_string(),
        summary: "A summary that runs well past twenty".to_string(),
        description: Some("line 1\nline 2\nline 3\nline 4\nline 5".to_string()),
        logo_url: String::new(),
        website: None,
        issues: None,
        source: None,
        status: "approved".to_string(),
        downloads: 1234567,
        created_at: "2023-12-31T23:59:59Z".to_string(),
        last_release_date: None,
        updated_at: Some("2024-06-01T00:00:00Z".to_string()),
        version_count: 3,
        tags: vec!["combat".to_string(), "magic".to_string(), "tech".to_string()],
        members: Vec::new(),
    }
}

fn version() -> ProjectVersion {
    ProjectVersion {
        name: "Spring".to_string(),
        version: "2.1.0".to_string(),
        release_type: "beta".to_string(),
        release_date: "2024-03-04T05:06:07Z".to_string(),
        changelog: Some("   \n\t".to_string()),
        downloads: 4321,
        tags: Vec::new(),
        files: vec![ProjectFile {
            name: "mod.jar".to_string(),
            size: 2048,
            sha1: "da39a3ee5e6b4b0d3255bfef95601890afd80709".to_string(),
            url: String::new(),
        }],
        dependencies: Vec::new(),
    }
}

#[test]
fn project_row_is_cut_to_fit() {
    assert_eq!(
        project_row(&project()),
        vec![
            "Extremely...",
            "A summary that ru...",
            "combat, magi...",
            "1,234,567",
            "approved",
            "2024-06-01",
            "2023-12-31",
        ]
    );
    let mut no_update = project();
    no_update.updated_at = None;
    assert_eq!(project_row(&no_update)[5], "N/A");
}

#[test]
fn version_and_file_rows() {
    assert_eq!(version_row(&version()), vec!["2.1.0", "beta", "4,321", "2024-03-04", "1"]);
    let (name, sha) = file_row(&version().files[0]);
    assert_eq!(name, "mod.jar");
    assert_eq!(sha, "da39a3ee5e6b");
}

#[test]
fn detail_texts() {
    let mut state = AppState::new();
    assert_eq!(project_details_title(&state), "Project - N/A");
    assert_eq!(project_info(&state), "No project selected");
    assert_eq!(project_description(&state), "No description available");
    state.selected_project = Some(project());
    state.versions_total_pages = 4;
    assert_eq!(project_details_title(&state), "Project - Extremely Long Name | Versions Page 1/4");
    assert_eq!(project_info(&state), "Name: Extremely Long Name\nSlug: long\nStatus: approved | Downloads: 1,234,567");
    assert_eq!(project_description(&state), "line 1\nline 2\nline 3\nline 4");
    state.selected_version = Some(version());
    assert_eq!(version_details_title(&state), "Version - 2.1.0");
    assert_eq!(version_changelog(&state), "No changelog available");
    assert_eq!(
        version_info(&state),
        "Name: Spring\nType: beta\nRelease Date: 2024-03-04T05:06:07Z | Downloads: 4,321"
    );
}

#[test]
fn sort_rows_mark_current_and_highlight() {
    let mut state = AppState::new();
    state.sort_field = SortField::UpdatedAt;
    state.sort_selection_index = 1;
    let rows = sort_rows(&state);
    let shown: Vec<(&str, bool, bool)> = rows.iter().map(|r| (r.text.as_str(), r.current, r.highlighted)).collect();
    assert_eq!(
        shown,
        vec![
            ("  Downloads", false, false),
            ("  Name", false, true),
            ("» Updated At", true, false),
            ("  Created At", false, false),
        ]
    );
}

#[test]
fn loading_and_help_texts() {
    assert_eq!(loading_message(AppScreen::LoadingTypes), Some("Loading project types"));
    assert_eq!(loading_message(AppScreen::ProjectTable), None);
    assert_eq!(help_text(AppScreen::UrlInput), "Press Enter to connect | Esc to quit");
    assert_eq!(help_text(AppScreen::LoadingTags), "");
}

#[test]
fn project_table_window_follows_selection() {
    let mut state = AppState::new();
    let mut items = Vec::new();
    for i in 0..25 {
        let mut p = project();
        p.name = format!("p{i}");
        items.push(p);
    }
    state.projects = PaginatedResponse { data: items, meta: Some(PageMeta { total: Some(25), per_page: Some(25) }), links: None };
    state.selected_row = 3;
    let (first, rows) = project_table_rows(&state);
    assert_eq!(first, 0);
    assert_eq!(rows.len(), 10);
    state.selected_row = 14;
    let (first, rows) = project_table_rows(&state);
    assert_eq!(first, 5);
    assert_eq!(rows.len(), 10);
    assert_eq!(rows[9][0], "p14");
    state.selected_row = 24;
    let (first, rows) = project_table_rows(&state);
    assert_eq!(first, 15);
    assert_eq!(rows.len(), 10);
    assert_eq!(rows[0][0], "p15");
}

#[test]
fn type_rows_highlight_choice() {
    let mut state = AppState::new();
    state.project_types = vec![
        ProjectType { name: "Mods".to_string(), slug: "mod".to_string(), icon: "M".to_string() },
        ProjectType { name: "Packs".to_string(), slug: "pack".to_string(), icon: "P".to_string() },
    ];
    state.selected_type_index = 1;
    let rows = type_rows(&state);
    assert_eq!(rows.len(), 2);
    assert_eq!((rows[0].icon.as_str(), rows[0].name.as_str(), rows[0].slug.as_str()), ("M", "Mods", "mod"));
    assert!(!rows[0].highlighted);
    assert!(rows[1].highlighted);
}
