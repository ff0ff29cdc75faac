use with_tempdir_procmacro::{AttrArg, Configuration, MetaLit};

fn name_value(name: &str, lit: MetaLit) -> AttrArg {
    AttrArg::NameValue { name: String::from(name), lit }
}

#[test]
fn no_arguments_choose_no_path() {
    let args: Vec<AttrArg> = Vec::new();
    let c = Configuration::from_args(&args);
    assert_eq!(c.path, None);
}

#[test]
fn with_path() {
    let args = vec![name_value("path", MetaLit::Str(String::from("./tests")))];
    let c = Configuration::from_args(&args);
    assert_eq!(c.path, Some(String::from("./tests")));
}

#[test]
fn with_bytes_path() {
    let args = vec![name_value("path", MetaLit::ByteStr(b"./tests".to_vec()))];
    let c = Configuration::from_args(&args);
    assert_eq!(c.path, Some(String::from("./tests")));
}

#[test]
fn bytes_that_are_not_utf8_are_ignored() {
    let args = vec![name_value("path", MetaLit::ByteStr(vec![0xff, 0xfe, 0x2f]))];
    let c = Configuration::from_args(&args);
    assert_eq!(c.path, None);
}

#[test]
fn bad_bytes_keep_an_earlier_path() {
    let args = vec![
        name_value("path", MetaLit::Str(String::from("/tmp/foo"))),
        name_value("path", MetaLit::ByteStr(vec![0xc0])),
    ];
    let c = Configuration::from_args(&args);
    assert_eq!(c.path, Some(String::from("/tmp/foo")));
}

#[test]
fn the_last_path_wins() {
    let args = vec![
        name_value("path", MetaLit::Str(String::from("/tmp/foo"))),
        name_value("path", MetaLit::Str(String::from("/tmp/bar"))),
    ];
    let c = Configuration::from_args(&args);
    assert_eq!(c.path, Some(String::from("/tmp/bar")));
}

#[test]
fn other_names_are_ignored() {
    let args = vec![
        name_value("dir", MetaLit::Str(String::from("/tmp/foo"))),
        AttrArg::Other,
    ];
    let c = Configuration::from_args(&args);
    assert_eq!(c.path, None);
}

#[test]
fn other_literals_are_ignored() {
    let args = vec![name_value("path", MetaLit::Other)];
    let c = Configuration::from_args(&args);
    assert_eq!(c.path, None);
}

#[test]
fn non_utf8_path_bytes_with_later_string_path() {
    let args = vec![
        name_value("path", MetaLit::ByteStr(vec![0x80])),
        name_value("path", MetaLit::Str(String::from("./tests"))),
    ];
    let c = Configuration::from_args(&args);
    assert_eq!(c.path, Some(String::from("./tests")));
}
