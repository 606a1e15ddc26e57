use superscript_menu::text::str_eq;

#[test]
fn equal_strings_compare_equal() {
    assert!(str_eq("font-default", "font-default"));
    assert!(str_eq("", ""));
    assert!(str_eq("Change Folder…", "Change Folder…"));
}

#[test]
fn different_strings_compare_unequal() {
    assert!(!str_eq("font-default", "font-defaults"));
    assert!(!str_eq("font-default", "font-defaul"));
    assert!(!str_eq("size-small", "size-large"));
    assert!(!str_eq("a", ""));
    assert!(!str_eq("Change Folder…", "Change Folder."));
}
