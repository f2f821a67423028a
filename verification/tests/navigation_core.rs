use git_browser::app::external_editor::ExternalEditor;
use git_browser::app::navigation::{ActionInfo, NavigationAction};
use git_browser::app::{App, AppMode, NavOutcome, PageView, Redraw};
use git_browser::errors::{ErrorKind, GitBrowserError};
use git_browser::objects::{GitObject, ObjectKind, SelectTarget, TreeEntry};
use syntect::highlighting::Theme;
use syntect::parsing::SyntaxSet;

fn names(v: &[&str]) -> Vec<String> {
    v.iter().map(|s| s.to_string()).collect()
}

fn entry(name: &str, kind: ObjectKind, binary: bool) -> TreeEntry {
    TreeEntry { name: name.to_string(), kind, binary }
}

fn commit_object() -> GitObject {
    GitObject::Commit {
        id: "c0ffee".to_string(),
        tree_id: "root0".to_string(),
        entries: vec![
            entry("src", ObjectKind::Tree, false),
            entry("readme.md", ObjectKind::Blob, false),
            entry("logo.png", ObjectKind::Blob, true),
        ],
    }
}

fn plain_app<'s>(ss: &'s SyntaxSet, theme: &'s Theme) -> App<'s> {
    App::new(
        "/home/user/proj/.git/".to_string(),
        names(&["main", "dev", "v1"]),
        None,
        "less".to_string(),
        ss,
        theme,
    )
}

fn pinned_app<'s>(ss: &'s SyntaxSet, theme: &'s Theme) -> App<'s> {
    App::new(
        "/home/user/proj/.git/".to_string(),
        names(&["main", "dev", "v1"]),
        Some(commit_object()),
        "less".to_string(),
        ss,
        theme,
    )
}

#[test]
fn back_never_leaves_the_home_mode() {
    // the mode stack never empties; exhausting Back lands on the reference
    // list with an empty tree-page stack
    let ss = SyntaxSet::load_defaults_newlines();
    let theme = Theme::default();
    let mut app = plain_app(&ss, &theme);
    assert_eq!(app.mode(), AppMode::BrowseRefs);
    for _ in 0..5 {
        app.back();
        assert_eq!(app.mode(), AppMode::BrowseRefs);
        assert_eq!(app.tree_pages.len(), 0);
        assert!(app.commit.is_none());
    }
}

#[test]
fn selecting_a_commit_enters_its_tree() {
    // three references, selection moved to the third, which resolves to a
    // commit: one tree page is pushed and tree browsing begins
    let ss = SyntaxSet::load_defaults_newlines();
    let theme = Theme::default();
    let mut app = plain_app(&ss, &theme);
    assert_eq!(app.navigate(&NavigationAction::Back), NavOutcome::Done(Redraw(false)));
    assert_eq!(app.mode(), AppMode::BrowseRefs);
    assert_eq!(app.refs_page.selected_index, 0);
    app.navigate(&NavigationAction::NextSelection);
    app.navigate(&NavigationAction::NextSelection);
    assert_eq!(app.refs_page.selected_index, 2);
    match app.select_target() {
        Some(SelectTarget::Reference { name }) => assert_eq!(name.as_str(), "v1"),
        _ => panic!("expected a reference target"),
    }
    let r = app.select(Some(commit_object()));
    assert!(r.is_ok());
    assert_eq!(app.mode(), AppMode::BrowseTrees);
    assert_eq!(app.tree_pages.len(), 1);
    assert_eq!(app.commit.as_deref(), Some("c0ffee"));
    assert_eq!(app.tree_pages[0].tree_id.as_str(), "root0");
    assert_eq!(app.tree_pages[0].name.as_str(), "");
}

#[test]
fn popping_the_last_tree_page_clears_the_commit() {
    let ss = SyntaxSet::load_defaults_newlines();
    let theme = Theme::default();
    let mut app = plain_app(&ss, &theme);
    app.select(Some(commit_object())).unwrap();
    assert!(app.commit.is_some());
    // descend one level, then back out twice
    let subtree = GitObject::Tree {
        id: "sub1".to_string(),
        entries: vec![entry("lib.rs", ObjectKind::Blob, false)],
    };
    app.select(Some(subtree)).unwrap();
    assert_eq!(app.tree_pages.len(), 2);
    assert_eq!(app.tree_pages[1].name.as_str(), "src");
    app.back();
    assert_eq!(app.tree_pages.len(), 1);
    assert!(app.commit.is_some());
    app.back();
    assert_eq!(app.tree_pages.len(), 0);
    assert!(app.commit.is_none());
    assert_eq!(app.mode(), AppMode::BrowseRefs);
}

#[test]
fn pinned_launch_keeps_its_root_page() {
    let ss = SyntaxSet::load_defaults_newlines();
    let theme = Theme::default();
    let mut app = pinned_app(&ss, &theme);
    assert_eq!(app.mode(), AppMode::BrowseTrees);
    assert_eq!(app.tree_pages.len(), 1);
    // the root page of the pinned commit never pops
    app.back();
    assert_eq!(app.mode(), AppMode::BrowseTrees);
    assert_eq!(app.tree_pages.len(), 1);
    assert!(app.commit.is_some());
}

#[test]
fn binary_blob_is_a_recoverable_error() {
    // activating a binary blob refuses construction, the error overlay shows,
    // and Back resumes tree browsing with the selection unchanged
    let ss = SyntaxSet::load_defaults_newlines();
    let theme = Theme::default();
    let mut app = pinned_app(&ss, &theme);
    app.navigate(&NavigationAction::NextSelection);
    app.navigate(&NavigationAction::NextSelection);
    assert_eq!(app.tree_pages[0].selected_index, 2);
    let binary = GitObject::Blob { id: "b2".to_string(), bytes: vec![0, 159, 146, 150], binary: true };
    let err = app.select(Some(binary)).unwrap_err();
    assert_eq!(err, GitBrowserError::Error(ErrorKind::BinaryFileError));
    assert_eq!(app.mode(), AppMode::BrowseTrees);
    app.error(err);
    assert_eq!(app.mode(), AppMode::Error);
    assert_eq!(app.current_error(), Some(err));
    assert_eq!(
        err.as_str(),
        "Unable to load and display binary files"
    );
    app.back();
    assert_eq!(app.mode(), AppMode::BrowseTrees);
    assert_eq!(app.tree_pages[0].selected_index, 2);
    assert!(app.current_error().is_none());
}

#[test]
fn opening_a_blob_and_scrolling_it() {
    let ss = SyntaxSet::load_defaults_newlines();
    let theme = Theme::default();
    let mut app = pinned_app(&ss, &theme);
    app.set_height(40);
    app.navigate(&NavigationAction::NextSelection);
    let mut text = String::new();
    for i in 0..250 {
        text.push_str(&format!("row {}\n", i));
    }
    let blob = GitObject::Blob { id: "b1".to_string(), bytes: text.into_bytes(), binary: false };
    assert_eq!(app.navigate(&NavigationAction::Select), NavOutcome::NeedsSelect);
    app.select(Some(blob)).unwrap();
    assert_eq!(app.mode(), AppMode::ViewBlob);
    let pager = app.blob_pager.as_ref().unwrap();
    assert_eq!(pager.name.as_str(), "readme.md");
    assert_eq!(pager.lines.len(), 0);
    // ticks convert in chunks; End converts everything and shows the last page
    app.navigate(&NavigationAction::Tick);
    assert_eq!(app.blob_pager.as_ref().unwrap().lines.len(), 100);
    app.navigate(&NavigationAction::End);
    let pager = app.blob_pager.as_ref().unwrap();
    assert_eq!(pager.lines.len(), 250);
    assert_eq!(pager.top, 210);
    app.navigate(&NavigationAction::Home);
    assert_eq!(app.blob_pager.as_ref().unwrap().top, 0);
    app.navigate(&NavigationAction::PageDown);
    assert_eq!(app.blob_pager.as_ref().unwrap().top, 40);
    // back discards the viewer
    app.back();
    assert_eq!(app.mode(), AppMode::BrowseTrees);
    assert!(app.blob_pager.is_none());
}

#[test]
fn editor_session_runs_and_returns() {
    let ss = SyntaxSet::load_defaults_newlines();
    let theme = Theme::default();
    let mut app = pinned_app(&ss, &theme);
    app.navigate(&NavigationAction::NextSelection);
    assert_eq!(app.navigate(&NavigationAction::ExternalEditor), NavOutcome::NeedsEditor);
    let blob = GitObject::Blob { id: "b1".to_string(), bytes: b"text\n".to_vec(), binary: false };
    let job = app.view_blob(Some(blob)).expect("a session for a blob");
    assert_eq!(app.mode(), AppMode::ExternalEditor);
    assert_eq!(job.editor.as_str(), "less");
    assert_eq!(job.name.as_str(), "readme.md");
    assert_eq!(job.content, b"text\n".to_vec());
    // a successful session pops back and asks for a full redraw
    let r = app.editor_finished(None).unwrap();
    assert_eq!(r, Redraw(true));
    assert_eq!(app.mode(), AppMode::BrowseTrees);
    assert!(app.external_editor.is_none());

    // a failing session pops back and surfaces its error
    let tree = GitObject::Tree { id: "t".to_string(), entries: Vec::new() };
    assert!(app.view_blob(Some(tree)).is_none());
    assert_eq!(app.mode(), AppMode::BrowseTrees);
    let blob = GitObject::Blob { id: "b1".to_string(), bytes: b"text\n".to_vec(), binary: false };
    app.view_blob(Some(blob)).expect("a session for a blob");
    let err = app
        .editor_finished(Some(GitBrowserError::Error(ErrorKind::SubprocessError)))
        .unwrap_err();
    assert_eq!(err, GitBrowserError::Error(ErrorKind::SubprocessError));
    assert_eq!(app.mode(), AppMode::BrowseTrees);
}

#[test]
fn title_concatenates_the_breadcrumb() {
    let ss = SyntaxSet::load_defaults_newlines();
    let theme = Theme::default();
    let mut app = pinned_app(&ss, &theme);
    let subtree = GitObject::Tree {
        id: "sub1".to_string(),
        entries: vec![entry("lib.rs", ObjectKind::Blob, false)],
    };
    app.select(Some(subtree)).unwrap();
    let parts: Vec<String> = app.title().into_iter().map(|(_, t)| t).collect();
    let joined: String = parts.concat();
    assert_eq!(joined.as_str(), " proj@c0ffee: src/ ");
}

#[test]
fn context_hints_name_the_actions() {
    let ss = SyntaxSet::load_defaults_newlines();
    let theme = Theme::default();
    let app = plain_app(&ss, &theme);
    assert_eq!(app.context_hint().as_str(), "C-x: Exit | C-g: Back | Enter: Select");
    let pinned = pinned_app(&ss, &theme);
    assert_eq!(
        pinned.context_hint().as_str(),
        "C-x: Exit | C-g: Back | Enter: Select | C-e: Launch external pager for blob"
    );
    let info = ActionInfo::from(&NavigationAction::PageUp);
    assert_eq!(info.text().as_str(), "PgUp: Page Up");
}

#[test]
fn render_view_follows_the_mode()  {
    let ss = SyntaxSet::load_defaults_newlines();
    let theme = Theme::default();
    let mut app = pinned_app(&ss, &theme);
    match app.render_view(10) {
        PageView::List(rows) => {
            assert_eq!(rows.len(), 3);
            assert_eq!(rows[0].name.as_str(), "src/");
        },
        _ => panic!("expected list rows in tree mode"),
    }
    let blob = GitObject::Blob { id: "b".to_string(), bytes: b"a\nb\n".to_vec(), binary: false };
    app.navigate(&NavigationAction::NextSelection);
    app.select(Some(blob)).unwrap();
    app.navigate(&NavigationAction::Tick);
    match app.render_view(10) {
        PageView::Blob(rows, filler, _) => {
            assert_eq!(rows.len(), 2);
            assert_eq!(filler, 8);
        },
        _ => panic!("expected the blob window in viewer mode"),
    }
    app.error(GitBrowserError::Error(ErrorKind::TemporaryFileError));
    assert!(matches!(app.render_view(10), PageView::Empty));
}

#[test]
fn error_descriptions() {
    assert_eq!(
        ErrorKind::BlobReferenceError.as_str(),
        "Unable to load blob from repository"
    );
    assert_eq!(ErrorKind::SubprocessError.as_str(), "Failed to execute subprocess");
    assert_eq!(ErrorKind::TemporaryFileError.as_str(), "Failed to write temporary file");
    assert_eq!(ErrorKind::TerminalInitError.as_str(), "Failed to reinitialize terminal");
    assert_eq!(
        GitBrowserError::Error(ErrorKind::BinaryFileError).as_str(),
        "Unable to load and display binary files"
    );
}

#[test]
fn editor_sessions_copy_the_blob() {
    let session = ExternalEditor::new(&b"bytes".to_vec(), "file.txt", "vi");
    assert_eq!(session.editor.as_str(), "vi");
    assert_eq!(session.name.as_str(), "file.txt");
    assert_eq!(session.content, b"bytes".to_vec());
}
