use amplify_ffi::{
    contents_add_entry, contents_add_text, contents_count_entries, contents_get_entry,
    contents_get_text, contents_is_empty, contents_is_entries, contents_is_text,
    contents_new_entries, contents_new_text, Contents,
};

#[test]
fn new_text_holds_the_text() {
    let c = contents_new_text("Lorem Ipsum");
    assert!(contents_is_text(Some(&c)));
    assert!(!contents_is_entries(Some(&c)));
    assert!(!contents_is_empty(Some(&c)));
    assert_eq!(contents_get_text(&c), "Lorem Ipsum");
    assert_eq!(c, Contents::Text(String::from("Lorem Ipsum")));
}

#[test]
fn empty_text_is_empty() {
    let c = contents_new_text("");
    assert!(contents_is_text(Some(&c)));
    assert!(contents_is_empty(Some(&c)));
    assert_eq!(contents_get_text(&c), "");
}

#[test]
fn new_entries_hold_no_entry() {
    let c = contents_new_entries();
    assert!(contents_is_entries(Some(&c)));
    assert!(!contents_is_text(Some(&c)));
    assert!(contents_is_empty(Some(&c)));
    assert_eq!(contents_count_entries(&c), 0);
    assert_eq!(c, Contents::Entries(vec![]));
}

#[test]
fn absent_contents_are_empty_and_of_no_kind() {
    assert!(contents_is_empty(None));
    assert!(!contents_is_text(None));
    assert!(!contents_is_entries(None));
}

#[test]
fn add_text_appends() {
    let mut c = contents_new_text("Lorem");
    contents_add_text(&mut c, " Ipsum");
    assert_eq!(contents_get_text(&c), "Lorem Ipsum");
    contents_add_text(&mut c, "");
    assert_eq!(contents_get_text(&c), "Lorem Ipsum");
    let mut d = contents_new_text("");
    contents_add_text(&mut d, "x");
    assert!(!contents_is_empty(Some(&d)));
}

#[test]
fn add_text_twice_is_adding_the_concatenation() {
    let mut a = contents_new_text("ab");
    contents_add_text(&mut a, "cd");
    contents_add_text(&mut a, "ef");
    let mut b = contents_new_text("ab");
    contents_add_text(&mut b, "cdef");
    assert_eq!(a, b);
}

#[test]
fn add_entry_appends_an_entry() {
    let mut c = contents_new_entries();
    contents_add_entry(&mut c, "first");
    assert!(!contents_is_empty(Some(&c)));
    contents_add_entry(&mut c, "second");
    contents_add_entry(&mut c, "");
    assert_eq!(contents_count_entries(&c), 3);
    assert_eq!(contents_get_entry(&c, 0), "first");
    assert_eq!(contents_get_entry(&c, 1), "second");
    assert_eq!(contents_get_entry(&c, 2), "");
    assert!(contents_is_entries(Some(&c)));
}

#[test]
fn unicode_text_round_trips() {
    let mut c = contents_new_text("héllo");
    contents_add_text(&mut c, " wörld ✓");
    assert_eq!(contents_get_text(&c), "héllo wörld ✓");
}
