use hub01_tui::files::ensure_unique_file_path;
use hub01_tui::models::PageMeta;
use hub01_tui::pages::{calculate_total_pages, page_count};
use hub01_tui::scroll::{calculate_visible_rows, ensure_selection_visible, select_down, select_up};

#[test]
fn scroll_moves_up_to_selection_above_window() {
    let mut scroll: usize = 5;
    ensure_selection_visible(2, &mut scroll, 10, 30);
    assert_eq!(scroll, 2);
}

#[test]
fn scroll_keeps_selection_as_last_visible_row() {
    let mut scroll: usize = 0;
    ensure_selection_visible(12, &mut scroll, 10, 30);
    assert_eq!(scroll, 3);
    assert!(scroll <= 12 && 12 < scroll + 10);
}

#[test]
fn scroll_unchanged_when_selection_visible() {
    let mut scroll: usize = 4;
    ensure_selection_visible(8, &mut scroll, 10, 30);
    assert_eq!(scroll, 4);
}

#[test]
fn scroll_no_op_without_visible_rows() {
    let mut scroll: usize = 7;
    ensure_selection_visible(0, &mut scroll, 0, 30);
    assert_eq!(scroll, 7);
}

#[test]
fn scroll_clamped_to_last_row() {
    let mut scroll: usize = 50;
    ensure_selection_visible(50, &mut scroll, 10, 5);
    assert_eq!(scroll, 4);
    let mut empty: usize = 3;
    ensure_selection_visible(0, &mut empty, 10, 0);
    assert_eq!(empty, 0);
}

#[test]
fn scroll_adjustment_is_idempotent() {
    for total in 1..25usize {
        for sel in 0..total {
            for start in 0..30usize {
                let mut once = start;
                ensure_selection_visible(sel, &mut once, 4, total);
                let mut twice = once;
                ensure_selection_visible(sel, &mut twice, 4, total);
                assert_eq!(once, twice);
                assert!(once <= sel && sel < once + 4);
                assert!(once <= total - 1);
            }
        }
    }
}

#[test]
fn visible_rows_subtract_borders_and_margins() {
    assert_eq!(calculate_visible_rows(14), 10);
    assert_eq!(calculate_visible_rows(4), 0);
    assert_eq!(calculate_visible_rows(2), 0);
}

#[test]
fn selection_moves_saturate() {
    assert_eq!(select_up(0), 0);
    assert_eq!(select_up(3), 2);
    assert_eq!(select_down(2, 3), 2);
    assert_eq!(select_down(1, 3), 2);
    assert_eq!(select_down(0, 0), 0);
}

#[test]
fn selection_stays_in_range_over_any_moves() {
    let n: usize = 4;
    let mut sel: usize = 0;
    let moves = [true, true, true, true, true, false, true, false, false, false, false, false, true];
    for down in moves {
        sel = if down { select_down(sel, n) } else { select_up(sel) };
        assert!(sel < n);
    }
    assert_eq!(sel, 1);
}

#[test]
fn page_count_rounds_up_and_floors_at_one() {
    assert_eq!(page_count(25, 10), 3);
    assert_eq!(page_count(30, 10), 3);
    assert_eq!(page_count(0, 10), 1);
    assert_eq!(page_count(5, 0), 5);
    assert_eq!(page_count(u64::MAX, 1), u32::MAX);
}

#[test]
fn total_pages_from_metadata() {
    let meta = PageMeta { total: Some(25), per_page: Some(10) };
    assert_eq!(calculate_total_pages(Some(&meta), 10), 3);
    let only_total = PageMeta { total: Some(41), per_page: None };
    assert_eq!(calculate_total_pages(Some(&only_total), 20), 3);
    let nothing = PageMeta { total: None, per_page: None };
    assert_eq!(calculate_total_pages(Some(&nothing), 10), 1);
    assert_eq!(calculate_total_pages(None, 10), 1);
}

#[test]
fn download_name_gets_numbered_when_taken() {
    let existing = vec!["readme.txt".to_string()];
    assert_eq!(ensure_unique_file_path("readme.txt", &existing).as_deref(), Some("readme-1.txt"));
}

#[test]
fn download_name_kept_when_free() {
    let existing = vec!["other.txt".to_string()];
    assert_eq!(ensure_unique_file_path("readme.txt", &existing).as_deref(), Some("readme.txt"));
}

#[test]
fn download_name_skips_taken_numbers() {
    let existing = vec![
        "mod.tar.gz".to_string(),
        "mod.tar-1.gz".to_string(),
        "mod.tar-2.gz".to_string(),
    ];
    assert_eq!(ensure_unique_file_path("mod.tar.gz", &existing).as_deref(), Some("mod.tar-3.gz"));
}

#[test]
fn download_name_without_extension() {
    let existing = vec!["LICENSE".to_string(), ".hidden".to_string()];
    assert_eq!(ensure_unique_file_path("LICENSE", &existing).as_deref(), Some("LICENSE-1"));
    assert_eq!(ensure_unique_file_path(".hidden", &existing).as_deref(), Some(".hidden-1"));
}

#[test]
fn download_name_gives_up_after_all_numbers() {
    let mut existing = vec!["a.txt".to_string()];
    for i in 1..=9999 {
        existing.push(format!("a-{i}.txt"));
    }
    assert_eq!(ensure_unique_file_path("a.txt", &existing), None);
}
