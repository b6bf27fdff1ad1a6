use amplify_ffi::{
    ast_add_child, ast_clear_children, ast_clear_data, ast_count_children, ast_get_child,
    ast_get_data, ast_get_name, ast_new, ast_set_data, language_get_name, language_new,
    language_set_name, region_get_begin, region_get_end, region_new,
};

#[test]
fn fresh_ast_node() {
    let a = ast_new("fn");
    assert_eq!(ast_get_name(&a), "fn");
    assert_eq!(ast_get_data(&a), "");
    assert_eq!(ast_count_children(&a), 0);
}

#[test]
fn ast_data_round_trip_and_clear() {
    let mut a = ast_new("ident");
    ast_set_data(&mut a, "x");
    ast_set_data(&mut a, "foo");
    assert_eq!(ast_get_data(&a), "foo");
    assert_eq!(ast_get_name(&a), "ident");
    ast_clear_data(&mut a);
    assert_eq!(ast_get_data(&a), "");
    assert_eq!(ast_get_name(&a), "ident");
}

#[test]
fn ast_children_add_get_count_clear() {
    let mut root = ast_new("root");
    let mut left = ast_new("left");
    ast_set_data(&mut left, "l");
    ast_add_child(&mut left, ast_new("leaf"));
    ast_add_child(&mut root, left);
    ast_add_child(&mut root, ast_new("right"));
    assert_eq!(ast_count_children(&root), 2);
    let c0 = ast_get_child(&root, 0);
    assert_eq!(ast_get_name(c0), "left");
    assert_eq!(ast_get_data(c0), "l");
    assert_eq!(ast_count_children(c0), 1);
    assert_eq!(ast_get_name(ast_get_child(c0, 0)), "leaf");
    assert_eq!(ast_get_name(ast_get_child(&root, 1)), "right");
    ast_clear_children(&mut root);
    assert_eq!(ast_count_children(&root), 0);
    assert_eq!(ast_get_name(&root), "root");
}

#[test]
fn language_name_round_trip() {
    let mut l = language_new("rust");
    assert_eq!(language_get_name(Some(&l)), "rust");
    language_set_name(&mut l, "python");
    assert_eq!(language_get_name(Some(&l)), "python");
    assert_eq!(language_get_name(None), "");
}

#[test]
fn region_holds_its_offsets() {
    let r = region_new(3, 9);
    assert_eq!(region_get_begin(&r), 3);
    assert_eq!(region_get_end(&r), 9);
    let s = region_new(9, 3);
    assert_eq!(region_get_begin(&s), 9);
    assert_eq!(region_get_end(&s), 3);
}
