use hub01_tui::client::{classify_response, normalize_base_url, ResponseKind, StatusError};
use hub01_tui::models::ProjectTag;
use hub01_tui::params::{
    create_version_fields, list_projects_query, list_tags_query, list_versions_query,
    update_version_fields, CreateVersionParams, Dependency, ListProjectsParams, ListVersionsParams,
    UpdateVersionParams,
};
use hub01_tui::tags::flatten_tags;
use hub01_tui::text::{
    clamp_text_lines, format_number, format_size, insert_char, is_blank, join, remove_char,
    shorten, take_prefix, to_decimal,
};

fn tag(slug: &str, children: Vec<ProjectTag>) -> ProjectTag {
    ProjectTag {
        name: slug.to_uppercase(),
        slug: slug.to_string(),
        icon: "*".to_string(),
        tag_group: "group".to_string(),
        project_types: vec!["mod".to_string()],
        main_tag: String::new(),
        sub_tags: children,
    }
}

fn pairs(q: &[(String, String)]) -> Vec<(&str, &str)> {
    q.iter().map(|(k, v)| (k.as_str(), v.as_str())).collect()
}

#[test]
fn numbers_get_thousands_separators() {
    assert_eq!(format_number(0), "0");
    assert_eq!(format_number(999), "999");
    assert_eq!(format_number(1000), "1,000");
    assert_eq!(format_number(1234567), "1,234,567");
    assert_eq!(format_number(1002003), "1,002,003");
    assert_eq!(format_number(u64::MAX), "18,446,744,073,709,551,615");
    assert_eq!(to_decimal(4096), "4096");
}

#[test]
fn sizes_in_binary_units() {
    assert_eq!(format_size(0), "0 B");
    assert_eq!(format_size(1023), "1023 B");
    assert_eq!(format_size(1024), "1.00 KB");
    assert_eq!(format_size(1536), "1.50 KB");
    assert_eq!(format_size(1048576), "1.00 MB");
    assert_eq!(format_size(5 * 1024 * 1024 * 1024 + 1024 * 1024 * 512), "5.50 GB");
    assert_eq!(format_size(1100), "1.07 KB");
}

#[test]
fn sizes_agree_with_float_formatting() {
    let samples: [u64; 10] = [1024, 1152, 1029, 1030, 2047, 10_000, 123_456, 9_999_999, 1_073_741_823, 3_000_000_000];
    for b in samples {
        let expected = {
            let f = b as f64;
            if f >= 1073741824.0 {
                format!("{:.2} GB", f / 1073741824.0)
            } else if f >= 1048576.0 {
                format!("{:.2} MB", f / 1048576.0)
            } else {
                format!("{:.2} KB", f / 1024.0)
            }
        };
        assert_eq!(format_size(b), expected);
    }
}

#[test]
fn text_lines_are_clamped() {
    assert_eq!(clamp_text_lines("a\nb\nc\nd\ne", 4), "a\nb\nc\nd");
    assert_eq!(clamp_text_lines("one\r\ntwo\n", 4), "one\ntwo");
    assert_eq!(clamp_text_lines("", 4), "");
    assert_eq!(clamp_text_lines("x\n\ny", 2), "x\n");
    assert_eq!(clamp_text_lines("end\r", 4), "end\r");
}

#[test]
fn text_editing_at_cursor() {
    let s = "hllo".to_string();
    assert_eq!(insert_char(&s, 1, 'e'), "hello");
    assert_eq!(remove_char(&s, 0), "llo");
    assert_eq!(insert_char(&"ab".to_string(), 2, 'é'), "abé");
}

#[test]
fn display_text_is_cut() {
    assert_eq!(shorten(&"A very long project name".to_string(), 12, 9), "A very lo...");
    assert_eq!(shorten(&"Short".to_string(), 12, 9), "Short");
    assert_eq!(take_prefix(&"2024-05-01T10:00:00Z".to_string(), 10), "2024-05-01");
    assert_eq!(take_prefix(&"2024".to_string(), 10), "2024");
    assert_eq!(join(&vec!["a".to_string(), "b".to_string()], ", "), "a, b");
    assert_eq!(join(&Vec::new(), ", "), "");
}

#[test]
fn blank_text_is_white_space_only() {
    assert!(is_blank(&"  \t\n".to_string()));
    assert!(is_blank(&String::new()));
    assert!(is_blank(&"\u{3000}\u{a0}".to_string()));
    assert!(!is_blank(&" x ".to_string()));
}

#[test]
fn flattening_keeps_children_under_parents() {
    let tags = vec![
        tag("combat", vec![tag("melee", vec![]), tag("ranged", vec![])]),
        tag("magic", vec![]),
        tag("tech", vec![tag("power", vec![tag("deep", vec![])])]),
    ];
    let flat = flatten_tags(&tags);
    let shown: Vec<(&str, usize)> = flat.iter().map(|t| (t.slug.as_str(), t.depth)).collect();
    assert_eq!(
        shown,
        vec![("combat", 0), ("melee", 1), ("ranged", 1), ("magic", 0), ("tech", 0), ("power", 1)]
    );
    assert_eq!(flat.len(), (1 + 2) + (1 + 0) + (1 + 1));
    assert_eq!(flat[1].name, "MELEE");
    assert!(flatten_tags(&Vec::new()).is_empty());
}

#[test]
fn project_query_lists_parameters_in_order() {
    let mut params = ListProjectsParams::default();
    params.search = Some("map".to_string());
    params.tags = Some(vec!["combat".to_string(), "magic".to_string()]);
    params.page = 3;
    let q = list_projects_query(&params);
    assert_eq!(
        pairs(&q),
        vec![
            ("project_type", "mod"),
            ("search", "map"),
            ("tags[]", "combat"),
            ("tags[]", "magic"),
            ("order_by", "downloads"),
            ("order_direction", "desc"),
            ("per_page", "10"),
            ("page", "3"),
            ("release_date_period", "all"),
        ]
    );
}

#[test]
fn version_and_tag_queries() {
    let params = ListVersionsParams { page: 2, ..ListVersionsParams::default() };
    assert_eq!(
        pairs(&list_versions_query(&params)),
        vec![("order_by", "downloads"), ("order_direction", "desc"), ("per_page", "10"), ("page", "2")]
    );
    assert_eq!(pairs(&list_tags_query(false, Some("mod"))), vec![("plain", "false"), ("project_type", "mod")]);
    assert_eq!(pairs(&list_tags_query(true, None)), vec![("plain", "true")]);
}

#[test]
fn version_forms_carry_dependencies() {
    let create = CreateVersionParams {
        name: "First".to_string(),
        version: "1.0.0".to_string(),
        release_type: "release".to_string(),
        release_date: "2024-01-01".to_string(),
        changelog: "Initial".to_string(),
        tags: Some(vec!["stable".to_string()]),
        dependencies: Some(vec![Dependency {
            project: "core".to_string(),
            version: "2.0".to_string(),
            dep_type: "required".to_string(),
            external: false,
        }]),
    };
    assert_eq!(
        pairs(&create_version_fields(&create)),
        vec![
            ("name", "First"),
            ("version", "1.0.0"),
            ("release_type", "release"),
            ("release_date", "2024-01-01"),
            ("changelog", "Initial"),
            ("tags[]", "stable"),
            ("dependencies[0][project]", "core"),
            ("dependencies[0][version]", "2.0"),
            ("dependencies[0][type]", "required"),
            ("dependencies[0][external]", "0"),
        ]
    );
    let update = UpdateVersionParams {
        changelog: Some("Fixes".to_string()),
        clean_existing_files: true,
        files_to_remove: Some(vec!["old.zip".to_string()]),
        ..UpdateVersionParams::default()
    };
    assert_eq!(
        pairs(&update_version_fields("1.0.0", &update)),
        vec![
            ("version", "1.0.0"),
            ("changelog", "Fixes"),
            ("clean_existing_files", "1"),
            ("files_to_remove[]", "old.zip"),
        ]
    );
}

#[test]
fn response_statuses_are_classified() {
    assert!(matches!(classify_response(204, ""), ResponseKind::NoContent));
    assert!(matches!(classify_response(200, ""), ResponseKind::Success));
    assert!(matches!(classify_response(201, "made"), ResponseKind::Success));
    match classify_response(401, "") {
        ResponseKind::Failure(StatusError::Authentication { message }) => assert_eq!(message, "Unauthenticated"),
        _ => panic!("expected an authentication failure"),
    }
    match classify_response(403, "no") {
        ResponseKind::Failure(StatusError::PermissionDenied { message }) => assert_eq!(message, "no"),
        _ => panic!("expected a permission failure"),
    }
    match classify_response(404, "") {
        ResponseKind::Failure(StatusError::NotFound { message }) => assert_eq!(message, "Not found"),
        _ => panic!("expected not found"),
    }
    match classify_response(422, "") {
        ResponseKind::Failure(StatusError::Validation { message }) => assert_eq!(message, "Validation error"),
        _ => panic!("expected a validation failure"),
    }
    match classify_response(500, "") {
        ResponseKind::Failure(StatusError::Api { status, message }) => {
            assert_eq!(status, 500);
            assert_eq!(message, "HTTP 500");
        }
        _ => panic!("expected an API failure"),
    }
}

#[test]
fn base_url_loses_trailing_slashes() {
    assert_eq!(normalize_base_url("https://example.org/api//"), "https://example.org/api");
    assert_eq!(normalize_base_url("https://example.org/api"), "https://example.org/api");
    assert_eq!(normalize_base_url("///"), "");
}
