use manget::filename::{complete_name, finish_display_name, make_display_name};

#[test]
fn extension_is_added_where_the_name_lacks_one() {
    assert_eq!(complete_name("page", Some("jpg"), true), "page.jpg");
    assert_eq!(complete_name("page.png", Some("jpg"), false), "page.png");
    assert_eq!(complete_name("page", None, true), "page");
    assert_eq!(complete_name("page", None, false), "page");
    assert_eq!(complete_name("ünïcode", Some("webp"), true), "ünïcode.webp");
    assert_eq!(complete_name(".hidden", Some("txt"), true), ".hidden.txt");
}

#[test]
fn display_name_joins_and_sanitizes() {
    assert_eq!(make_display_name("One Piece", "chap 1086", false), "One Piece - chap 1086");
    assert_eq!(make_display_name("A/B: C?", "vol 1 <2>", false), "AB C - vol 1 2");
}

#[test]
fn display_name_loses_trailing_dots() {
    assert_eq!(make_display_name("Title", "Ch. 5...", false), "Title - Ch. 5");
    assert_eq!(finish_display_name("name..."), "name");
    assert_eq!(finish_display_name("..."), "");
    assert_eq!(finish_display_name("a.b"), "a.b");
    assert_eq!(finish_display_name(""), "");
}

#[test]
fn display_name_on_windows_is_stricter() {
    assert_eq!(make_display_name("Title", "End ", true), "Title - End");
    assert_eq!(make_display_name("Title", "End ", false), "Title - End ");
}

#[test]
fn display_name_is_cut_to_255_bytes() {
    let long = "x".repeat(400);
    let name = make_display_name(&long, "1", false);
    assert_eq!(name.len(), 255);
}
