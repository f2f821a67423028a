use git_browser::text::{
    extension_of, pad_left, pad_right, repo_label, split_blob_lines, usize_to_string,
};

#[test]
fn decimal_rendering() {
    assert_eq!(usize_to_string(0).as_str(), "0");
    assert_eq!(usize_to_string(7).as_str(), "7");
    assert_eq!(usize_to_string(10).as_str(), "10");
    assert_eq!(usize_to_string(1234).as_str(), "1234");
    assert_eq!(usize_to_string(100000).as_str(), "100000");
}

#[test]
fn padding() {
    assert_eq!(pad_left("7", 3).as_str(), "  7");
    assert_eq!(pad_left("1234", 3).as_str(), "1234");
    assert_eq!(pad_right("ref", 10).as_str(), "ref       ");
    assert_eq!(pad_right("ref", 10).len(), 10);
    assert_eq!(pad_right("", 2).as_str(), "  ");
}

#[test]
fn extensions() {
    assert_eq!(extension_of("main.rs").as_deref(), Some("rs"));
    assert_eq!(extension_of("archive.tar.gz").as_deref(), Some("gz"));
    assert_eq!(extension_of(".gitignore"), None);
    assert_eq!(extension_of("noext"), None);
    assert_eq!(extension_of("dir.d/noext"), None);
    assert_eq!(extension_of("dir/main.py").as_deref(), Some("py"));
    assert_eq!(extension_of("trailing.").as_deref(), Some(""));
}

#[test]
fn repository_labels() {
    assert_eq!(repo_label("/home/user/proj/.git/").as_str(), "proj");
    assert_eq!(repo_label("/home/user/proj/.git").as_str(), "proj");
    assert_eq!(repo_label("./.git/").as_str(), ".");
    assert_eq!(repo_label("nogit").as_str(), "nogit");
}

#[test]
fn blob_line_splitting() {
    let lines = split_blob_lines(&b"a\nb".to_vec());
    assert_eq!(lines, vec![b"a".to_vec(), b"b".to_vec()]);

    let lines = split_blob_lines(&b"a\r\nb\n".to_vec());
    assert_eq!(lines, vec![b"a".to_vec(), b"b".to_vec()]);

    let lines = split_blob_lines(&b"".to_vec());
    assert_eq!(lines.len(), 0);

    let lines = split_blob_lines(&b"\n".to_vec());
    assert_eq!(lines, vec![b"".to_vec()]);

    let lines = split_blob_lines(&b"a\n\nb".to_vec());
    assert_eq!(lines, vec![b"a".to_vec(), b"".to_vec(), b"b".to_vec()]);

    // a carriage return not followed by a line feed stays
    let lines = split_blob_lines(&b"a\r".to_vec());
    assert_eq!(lines, vec![b"a\r".to_vec()]);
}
