use git_browser::app::pagination::pagination;
use git_browser::app::refs_page::RefsPage;
use git_browser::app::tree_page::TreePage;
use git_browser::objects::{ObjectKind, SelectTarget, TreeEntry};
use git_browser::style::UiColor;

fn names(v: &[&str]) -> Vec<String> {
    v.iter().map(|s| s.to_string()).collect()
}

fn entry(name: &str, kind: ObjectKind, binary: bool) -> TreeEntry {
    TreeEntry { name: name.to_string(), kind, binary }
}

#[test]
fn pagination_rounds_down_to_page_start() {
    // the start of the page never lies past the selection and is a multiple
    // of the window height
    assert_eq!(pagination(10, 3, 7), (2, 4, 6));
    assert_eq!(pagination(0, 5, 0), (0, 0, 0));
    assert_eq!(pagination(9, 3, 8), (2, 3, 6));
    assert_eq!(pagination(10, 10, 9), (0, 1, 0));
    for sel in 0..20usize {
        let (_, _, start) = pagination(20, 6, sel);
        assert!(start <= sel);
        assert_eq!(start % 6, 0);
    }
}

#[test]
fn reference_selection_wraps() {
    // with N references, N next steps from the top wrap back to the top, and
    // one previous step from the top selects the last reference
    let mut page = RefsPage::new("/tmp/repo/.git/".to_string(), names(&["main", "dev", "v1"]));
    assert_eq!(page.selected_index, 0);
    for _ in 0..3 {
        page.next_selection();
    }
    assert_eq!(page.selected_index, 0);
    page.previous_selection();
    assert_eq!(page.selected_index, 2);
}

#[test]
fn reference_movement_clamps_pages() {
    let mut page = RefsPage::new(".git".to_string(), names(&["a", "b", "c", "d", "e"]));
    page.pagedown(3);
    assert_eq!(page.selected_index, 3);
    page.pagedown(3);
    assert_eq!(page.selected_index, 4);
    page.pageup(2);
    assert_eq!(page.selected_index, 2);
    page.pageup(10);
    assert_eq!(page.selected_index, 0);
    page.end(3);
    assert_eq!(page.selected_index, 4);
    page.home(3);
    assert_eq!(page.selected_index, 0);
}

#[test]
fn reference_select_and_items() {
    let page = RefsPage::new(".git".to_string(), names(&["main", "dev"]));
    assert_eq!(page.items(), names(&["main", "dev"]));
    assert_eq!(page.len(), 2);
    assert_eq!(page.selected_item().as_str(), "main");
    match page.select() {
        Some(SelectTarget::Reference { name }) => assert_eq!(name.as_str(), "main"),
        _ => panic!("expected a reference target"),
    }
    let empty = RefsPage::new(".git".to_string(), Vec::new());
    assert!(empty.select().is_none());
    assert_eq!(empty.selected_item().as_str(), "");
}

#[test]
fn reference_rows_mark_the_selection() {
    let mut page = RefsPage::new(".git".to_string(), names(&["a", "b", "c"]));
    page.next_selection();
    let rows = page.visible_rows(2);
    assert_eq!(rows.len(), 2);
    assert_eq!(rows[0].kind_label.as_str(), "ref       ");
    assert_eq!(rows[0].name.as_str(), "a");
    assert_eq!(rows[1].name.as_str(), "b");
    assert_eq!(rows[1].name_style.fg, Some(UiColor::Black));
    assert_eq!(rows[1].name_style.bg, Some(UiColor::Cyan));
    assert_eq!(rows[0].name_style.fg, Some(UiColor::Gray));
}

#[test]
fn tree_rows_show_kinds_and_names() {
    let entries = vec![
        entry("src", ObjectKind::Tree, false),
        entry("a.rs", ObjectKind::Blob, false),
        entry("a.png", ObjectKind::Blob, true),
    ];
    let page = TreePage::new("t1".to_string(), entries, "".to_string());
    let rows = page.visible_rows(10);
    assert_eq!(rows.len(), 3);
    assert_eq!(rows[0].kind_label.as_str(), "tree      ");
    assert_eq!(rows[0].name.as_str(), "src/");
    assert_eq!(rows[0].name_style.fg, Some(UiColor::Blue));
    assert!(rows[0].name_style.bold);
    assert_eq!(rows[0].name_style.bg, Some(UiColor::Cyan));
    assert_eq!(rows[1].kind_label.as_str(), "blob      ");
    assert_eq!(rows[1].name.as_str(), "a.rs");
    assert_eq!(rows[1].name_style.bg, Some(UiColor::Reset));
    assert_eq!(rows[2].kind_label.as_str(), "binary    ");
    assert_eq!(rows[2].kind_style.fg, Some(UiColor::Red));
    assert!(rows[2].kind_style.dim);
}

#[test]
fn tree_selection_and_target() {
    let entries = vec![
        entry("src", ObjectKind::Tree, false),
        entry("lib.rs", ObjectKind::Blob, false),
    ];
    let mut page = TreePage::new("t1".to_string(), entries, "src".to_string());
    assert_eq!(page.len(), 2);
    assert_eq!(page.title().as_str(), "src");
    page.next_selection();
    assert_eq!(page.selected_item().as_str(), "lib.rs");
    match page.select() {
        Some(SelectTarget::Entry { tree_id, index, name }) => {
            assert_eq!(tree_id.as_str(), "t1");
            assert_eq!(index, 1);
            assert_eq!(name.as_str(), "lib.rs");
        },
        _ => panic!("expected an entry target"),
    }
    page.next_selection();
    assert_eq!(page.selected_index, 0);
    page.previous_selection();
    assert_eq!(page.selected_index, 1);
}

#[test]
fn empty_pages_stay_put() {
    // movement on an empty list never leaves index zero and selects nothing
    let mut refs = RefsPage::new(".git".to_string(), Vec::new());
    refs.next_selection();
    refs.previous_selection();
    refs.pagedown(5);
    refs.pageup(5);
    refs.end(5);
    assert_eq!(refs.selected_index, 0);
    assert!(refs.select().is_none());
    assert_eq!(refs.visible_rows(5).len(), 0);

    let mut tree = TreePage::new("t0".to_string(), Vec::new(), "".to_string());
    tree.next_selection();
    tree.previous_selection();
    tree.end(5);
    assert_eq!(tree.selected_index, 0);
    assert!(tree.select().is_none());
    assert_eq!(tree.selected_item().as_str(), "");
    assert_eq!(tree.visible_rows(5).len(), 0);
}
