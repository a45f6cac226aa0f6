use jot_menu::text::str_eq;

#[test]
fn equal_strings_are_equal() {
    assert!(str_eq("", ""));
    assert!(str_eq("file.new", "file.new"));
    assert!(str_eq("na\u{ef}ve \u{1f4dd}", "na\u{ef}ve \u{1f4dd}"));
    let owned = String::from("view.") + "zoom_in";
    assert!(str_eq(&owned, "view.zoom_in"));
}

#[test]
fn different_strings_are_different() {
    assert!(!str_eq("", "a"));
    assert!(!str_eq("a", ""));
    assert!(!str_eq("file.new", "file.nex"));
    assert!(!str_eq("file.new", "file.new."));
    assert!(!str_eq("file.new", "File.new"));
    assert!(!str_eq("e", "\u{e9}"));
    assert!(!str_eq("\u{e9}", "\u{e8}"));
    assert!(!str_eq("ab", "ba"));
}
