use with_tempdir_procmacro::{leading_fn_name, test_with_tempdir, AttrArg, MetaLit, TokenShape};

fn ident(s: &str) -> TokenShape {
    TokenShape::Ident(String::from(s))
}

fn path_arg(path: &str) -> AttrArg {
    AttrArg::NameValue { name: String::from("path"), lit: MetaLit::Str(String::from(path)) }
}

#[test]
fn finds_the_declared_function_name() {
    let tokens = vec![ident("fn"), ident("path_exists"), TokenShape::Other(String::from("("))];
    assert_eq!(leading_fn_name(&tokens), Some(String::from("path_exists")));
}

#[test]
fn needs_the_fn_keyword_first() {
    let tokens = vec![ident("struct"), ident("S")];
    assert_eq!(leading_fn_name(&tokens), None);
}

#[test]
fn needs_a_name_after_the_keyword() {
    let tokens = vec![ident("fn"), TokenShape::Other(String::from("("))];
    assert_eq!(leading_fn_name(&tokens), None);
}

#[test]
fn needs_two_tokens() {
    let tokens = vec![ident("fn")];
    assert_eq!(leading_fn_name(&tokens), None);
}

#[test]
fn wraps_a_function_item() {
    let tokens = vec![ident("fn"), ident("my_test")];
    let out = test_with_tempdir(&Vec::new(), &tokens, "fn my_test(path: &Path) { }");
    assert_eq!(
        out,
        String::from(
            "#[test]\nfn wrapped_function() { \
             fn my_test(path: &Path) { } \
             let temp_dir = tempfile::Builder::new().tempdir()\
             .expect(\"Failed to create a temporary folder\"); \
             my_test(&temp_dir.path()); }"
        )
    );
}

#[test]
fn honors_the_path_argument() {
    let tokens = vec![ident("fn"), ident("with_path")];
    let args = vec![path_arg("./tests")];
    let out = test_with_tempdir(&args, &tokens, "fn with_path(path: &Path) { }");
    assert_eq!(
        out,
        String::from(
            "#[test]\nfn wrapped_function() { \
             fn with_path(path: &Path) { } \
             let temp_dir = tempfile::Builder::new().tempdir_in(\"./tests\")\
             .expect(\"Failed to create a temporary folder\"); \
             with_path(&temp_dir.path()); }"
        )
    );
}

#[test]
fn passes_other_items_through() {
    let tokens = vec![ident("struct"), ident("S"), TokenShape::Other(String::from(";"))];
    let out = test_with_tempdir(&Vec::new(), &tokens, "struct S;");
    assert_eq!(out, String::from("struct S;"));
}

#[test]
fn arguments_do_not_change_a_passthrough() {
    let tokens = vec![ident("struct"), ident("S"), TokenShape::Other(String::from(";"))];
    let args = vec![path_arg("./tests")];
    let out = test_with_tempdir(&args, &tokens, "struct S;");
    assert_eq!(out, String::from("struct S;"));
}
