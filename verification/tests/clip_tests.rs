use sanshu::clip::{
    extract_file_path_candidates, guess_ingredient_mime_from_path, normalize_path_display,
    parse_file_url_or_path,
};

#[test]
fn plain_paths_pass_through_trimmed() {
    assert_eq!(parse_file_url_or_path(" /home/user/a.png \n"), "/home/user/a.png");
    assert_eq!(parse_file_url_or_path("relative/b.jpg"), "relative/b.jpg");
}

#[test]
fn file_urls_are_decoded() {
    assert_eq!(parse_file_url_or_path("file:///home/u/pic.png"), "/home/u/pic.png");
    assert_eq!(
        parse_file_url_or_path("file:///home/u/with%20space.png"),
        "/home/u/with space.png"
    );
    assert_eq!(parse_file_url_or_path("file://localhost/tmp/x"), "/tmp/x");
    // A Windows drive path loses the artificial leading slash.
    assert_eq!(parse_file_url_or_path("file:///C:/Users/u/p.png"), "C:/Users/u/p.png");
    // A URL with a host-relative rest still gets a leading slash.
    assert_eq!(parse_file_url_or_path("file://tmp/x"), "/tmp/x");
}

#[test]
fn clipboard_lines_are_filtered() {
    let lines = vec![
        "copy".to_string(),
        "".to_string(),
        "# comment".to_string(),
        " file:///a%20b.png ".to_string(),
        "/plain/path".to_string(),
    ];
    let candidates = extract_file_path_candidates(&lines);
    assert_eq!(candidates, vec!["/a b.png".to_string(), "/plain/path".to_string()]);
    // Without the marker, the first line is an ordinary candidate.
    let lines = vec!["cutting".to_string()];
    assert_eq!(extract_file_path_candidates(&lines), vec!["cutting".to_string()]);
    // "cut" alone is a marker, leaving nothing.
    let lines = vec!["cut".to_string()];
    assert_eq!(extract_file_path_candidates(&lines), Vec::<String>::new());
}

#[test]
fn mime_guessing_from_paths() {
    assert_eq!(guess_ingredient_mime_from_path("/a/b/photo.PNG"), Some("image/png"));
    assert_eq!(guess_ingredient_mime_from_path("shot.jpeg"), Some("image/jpeg"));
    assert_eq!(guess_ingredient_mime_from_path("anim.webp"), Some("image/webp"));
    assert_eq!(guess_ingredient_mime_from_path("scan.TIFF"), Some("image/tiff"));
    assert_eq!(guess_ingredient_mime_from_path("notes.txt"), None);
    assert_eq!(guess_ingredient_mime_from_path("no_extension"), None);
    assert_eq!(guess_ingredient_mime_from_path("/dotted.dir/file"), None);
}

#[test]
fn display_path_normalization() {
    assert_eq!(normalize_path_display("\\\\?\\C:\\Users\\u"), "C:\\Users\\u");
    assert_eq!(normalize_path_display("/ordinary/path"), "/ordinary/path");
}
