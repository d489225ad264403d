use camt_converter::paths::{create_output_path, output_file_name};

#[test]
fn output_file_is_named_after_the_stem() {
    assert_eq!(output_file_name("statement"), "statement_08.xml");
    assert_eq!(output_file_name(""), "_08.xml");
}

#[test]
fn output_lies_beside_the_input() {
    assert_eq!(
        create_output_path("data/statement.xml"),
        Some("data/statement_08.xml".to_string())
    );
    assert_eq!(create_output_path("statement.xml"), Some("statement_08.xml".to_string()));
}

#[test]
fn only_the_last_extension_is_dropped() {
    assert_eq!(
        create_output_path("/tmp/camt.053.xml"),
        Some("/tmp/camt.053_08.xml".to_string())
    );
    assert_eq!(create_output_path("statement"), Some("statement_08.xml".to_string()));
}

#[test]
fn path_without_file_name_has_no_output() {
    assert_eq!(create_output_path(""), None);
    assert_eq!(create_output_path("/"), None);
    assert_eq!(create_output_path("data/.."), None);
}
