use pdf_doc::{par, replace_all, StringError};

#[test]
fn replaces_every_occurrence() {
    assert_eq!(replace_all("Dear {{name}}, {{name}}!", "{{name}}", "Ada"), "Dear Ada, Ada!");
    assert_eq!(replace_all("aaa", "aa", "b"), "ba");
    assert_eq!(replace_all("abc", "x", "y"), "abc");
    assert_eq!(replace_all("", "x", "y"), "");
    assert_eq!(replace_all("abc", "abc", ""), "");
}

#[test]
fn empty_pattern_matches_between_characters() {
    assert_eq!(replace_all("ab", "", "-"), "-a-b-");
    assert_eq!(replace_all("", "", "-"), "-");
    assert_eq!(replace_all("héllo", "é", "e"), "hello");
}

#[test]
fn paragraph_replace_keeps_overrides() {
    let mut p = par("x and x").set_has_ind(Some(false));
    p.replace("x", "y");
    assert_eq!(p.txt, "y and y");
    assert_eq!(p.has_ind, Some(false));
}

#[test]
fn string_error_holds_message() {
    let e = StringError::new("Unable to parse font");
    assert_eq!(e.msg(), "Unable to parse font");
}
