use git_browser::app::blob_pager::BlobPager;
use git_browser::errors::{ErrorKind, GitBrowserError};
use git_browser::objects::{GitObject, ObjectKind, TreeEntry};
use git_browser::style::UiColor;
use syntect::highlighting::{Theme, ThemeSet};
use syntect::parsing::SyntaxSet;

fn numbered_file(count: usize) -> Vec<u8> {
    let mut text = String::new();
    for i in 0..count {
        text.push_str(&format!("line number {}\n", i));
    }
    text.into_bytes()
}

fn blob(bytes: Vec<u8>, binary: bool) -> GitObject {
    GitObject::Blob { id: "b1".to_string(), bytes, binary }
}

fn line_text(pager: &BlobPager, i: usize) -> String {
    let mut out = String::new();
    for (_, piece) in pager.lines[i].components.iter() {
        out.push_str(piece);
    }
    out
}

#[test]
fn construction_starts_unconverted() {
    // immediately after construction nothing is highlighted
    let ss = SyntaxSet::load_defaults_newlines();
    let theme = Theme::default();
    let pager =
        BlobPager::from_object(blob(numbered_file(250), false), "notes.txt".to_string(), &ss, &theme)
            .unwrap();
    assert_eq!(pager.lines.len(), 0);
    assert_eq!(pager.raw_lines.len(), 250);
    assert_eq!(pager.top, 0);
    assert_eq!(pager.title().as_str(), "notes.txt");
    // activation means nothing on a line of content
    assert!(pager.select().is_none());
    assert_eq!(pager.selected_item().as_str(), "");
}

#[test]
fn ticks_convert_in_bounded_chunks() {
    // a 250-line file takes three non-blocking ticks: 100 + 100 + 50
    let ss = SyntaxSet::load_defaults_newlines();
    let theme = Theme::default();
    let mut pager =
        BlobPager::from_object(blob(numbered_file(250), false), "notes.txt".to_string(), &ss, &theme)
            .unwrap();
    pager.next_tick(false);
    assert_eq!(pager.lines.len(), 100);
    pager.next_tick(false);
    assert_eq!(pager.lines.len(), 200);
    pager.next_tick(false);
    assert_eq!(pager.lines.len(), 250);
    pager.next_tick(false);
    assert_eq!(pager.lines.len(), 250);
}

#[test]
fn tick_schedules_agree() {
    // chunked ticks and one blocking tick fill the store identically
    let ss = SyntaxSet::load_defaults_newlines();
    let theme = Theme::default();
    let mut a =
        BlobPager::from_object(blob(numbered_file(250), false), "notes.txt".to_string(), &ss, &theme)
            .unwrap();
    let mut b =
        BlobPager::from_object(blob(numbered_file(250), false), "notes.txt".to_string(), &ss, &theme)
            .unwrap();
    for _ in 0..3 {
        a.next_tick(false);
    }
    b.next_tick(true);
    assert_eq!(a.lines.len(), 250);
    assert_eq!(b.lines.len(), 250);
    for i in 0..250 {
        assert_eq!(line_text(&a, i), line_text(&b, i));
        assert_eq!(line_text(&a, i), format!("line number {}", i));
    }
}

#[test]
fn scroll_clamps() {
    // for a file of L lines and viewport height H < L, End lands on L - H;
    // for H >= L it stays at the top
    let ss = SyntaxSet::load_defaults_newlines();
    let theme = Theme::default();
    let mut pager =
        BlobPager::from_object(blob(numbered_file(250), false), "notes.txt".to_string(), &ss, &theme)
            .unwrap();
    pager.end(40);
    assert_eq!(pager.top, 210);
    pager.end(400);
    assert_eq!(pager.top, 0);
    pager.pagedown(40);
    assert_eq!(pager.top, 40);
    pager.pagedown(300);
    assert_eq!(pager.top, 0);
    pager.next_selection();
    assert_eq!(pager.top, 1);
    pager.previous_selection();
    assert_eq!(pager.top, 0);
    pager.previous_selection();
    assert_eq!(pager.top, 0);
    pager.end(1);
    assert_eq!(pager.top, 249);
    pager.next_selection();
    assert_eq!(pager.top, 249);
    pager.pageup(200);
    assert_eq!(pager.top, 49);
    pager.home(40);
    assert_eq!(pager.top, 0);
}

#[test]
fn construction_refuses_non_text() {
    let ss = SyntaxSet::load_defaults_newlines();
    let theme = Theme::default();
    let r = BlobPager::from_object(blob(numbered_file(3), true), "a.png".to_string(), &ss, &theme);
    assert!(matches!(r, Err(GitBrowserError::Error(ErrorKind::BinaryFileError))));

    let r = BlobPager::from_object(blob(vec![0xff, 0xfe, 0x00], false), "weird".to_string(), &ss, &theme);
    assert!(matches!(r, Err(GitBrowserError::Error(ErrorKind::BinaryFileError))));

    let tree = GitObject::Tree { id: "t".to_string(), entries: vec![TreeEntry {
        name: "x".to_string(),
        kind: ObjectKind::Blob,
        binary: false,
    }] };
    let r = BlobPager::from_object(tree, "x".to_string(), &ss, &theme);
    assert!(matches!(r, Err(GitBrowserError::Error(ErrorKind::BlobReferenceError))));
}

#[test]
fn highlighting_styles_lines() {
    // with a real syntax definition the highlighter splits lines into styled
    // segments whose concatenation is the original line
    let ss = SyntaxSet::load_defaults_newlines();
    let themes = ThemeSet::load_defaults();
    let theme = &themes.themes["base16-ocean.dark"];
    let source = b"pub fn answer() -> u32 {\n    42\n}\n".to_vec();
    let mut pager =
        BlobPager::from_object(blob(source, false), "answer.rs".to_string(), &ss, theme).unwrap();
    pager.next_tick(true);
    assert_eq!(pager.lines.len(), 3);
    assert_eq!(line_text(&pager, 0).as_str(), "pub fn answer() -> u32 {");
    assert_eq!(line_text(&pager, 1).as_str(), "    42");
    // the keyword line is split into several differently styled pieces
    assert!(pager.lines[0].components.len() > 1);
    assert!(matches!(pager.lines[0].components[0].0.fg, Some(UiColor::Rgb(_, _, _))));
    // the theme's background colors the whole block
    assert!(matches!(pager.background_style.bg, Some(UiColor::Rgb(_, _, _))));
}

#[test]
fn rendered_window_has_numbered_gutter() {
    let ss = SyntaxSet::load_defaults_newlines();
    let theme = Theme::default();
    let mut pager =
        BlobPager::from_object(blob(numbered_file(250), false), "notes.txt".to_string(), &ss, &theme)
            .unwrap();
    pager.next_tick(true);
    let (rows, filler) = pager.visible_lines(40);
    assert_eq!(rows.len(), 40);
    assert_eq!(filler, 0);
    assert_eq!(rows[0].lineno.as_str(), " 0 | ");
    assert_eq!(rows[39].lineno.as_str(), "39 | ");

    pager.end(40);
    let (rows, filler) = pager.visible_lines(40);
    assert_eq!(rows.len(), 40);
    assert_eq!(filler, 0);
    assert_eq!(rows[0].lineno.as_str(), "210 | ");

    // a short file leaves filler rows
    let mut short =
        BlobPager::from_object(blob(b"one\ntwo\n".to_vec(), false), "s.txt".to_string(), &ss, &theme)
            .unwrap();
    short.next_tick(true);
    let (rows, filler) = short.visible_lines(10);
    assert_eq!(rows.len(), 2);
    assert_eq!(filler, 8);
}

#[test]
fn empty_file_is_a_single_empty_view() {
    let ss = SyntaxSet::load_defaults_newlines();
    let theme = Theme::default();
    let mut pager =
        BlobPager::from_object(blob(Vec::new(), false), "empty".to_string(), &ss, &theme).unwrap();
    assert_eq!(pager.raw_lines.len(), 0);
    pager.next_tick(true);
    assert_eq!(pager.lines.len(), 0);
    pager.end(10);
    assert_eq!(pager.top, 0);
    pager.next_selection();
    assert_eq!(pager.top, 0);
    let (rows, filler) = pager.visible_lines(10);
    assert_eq!(rows.len(), 0);
    assert_eq!(filler, 10);
}
