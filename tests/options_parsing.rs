use sqlc_gen_deno_postgres::model::GenError;
use sqlc_gen_deno_postgres::options::{parse_entry_text, parse_plugin_options, split_text};

#[test]
fn import_url_option_is_read() {
    let blob = b"'import_url=\"https://example.test/mod.ts\"'".to_vec();
    let opts = parse_plugin_options(&blob).unwrap();
    assert_eq!(opts.get("import_url"), Some("https://example.test/mod.ts".to_string()));
    assert_eq!(opts.get("other"), None);
    let again = parse_plugin_options(&blob).unwrap();
    assert_eq!(again.get("import_url"), opts.get("import_url"));
}

#[test]
fn empty_options_are_an_empty_mapping() {
    let opts = parse_plugin_options(&Vec::new()).unwrap();
    assert!(opts.is_empty());
    assert_eq!(opts.get("import_url"), None);
}

#[test]
fn later_entries_override_earlier_ones() {
    let blob = b"\"a='1',b='x=y',a='2'\"".to_vec();
    let opts = parse_plugin_options(&blob).unwrap();
    assert!(!opts.is_empty());
    assert_eq!(opts.get("a"), Some("2".to_string()));
    assert_eq!(opts.get("b"), Some("x=y".to_string()));
}

#[test]
fn invalid_utf8_options_are_refused() {
    let blob = vec![0xff, 0xfe, 0x27];
    assert_eq!(parse_plugin_options(&blob).err(), Some(GenError::OptionsNotUtf8));
}

#[test]
fn unquoted_options_are_refused() {
    let blob = b"import_url='x'".to_vec();
    assert_eq!(parse_plugin_options(&blob).err(), Some(GenError::OptionsQuoting));
}

#[test]
fn entry_without_separator_is_refused() {
    let blob = b"'import_url'".to_vec();
    assert_eq!(parse_plugin_options(&blob).err(), Some(GenError::OptionsMissingSeparator));
}

#[test]
fn unquoted_value_is_refused() {
    let blob = b"'a=b'".to_vec();
    assert_eq!(parse_plugin_options(&blob).err(), Some(GenError::OptionsQuoting));
}

#[test]
fn splitting_keeps_empty_pieces() {
    assert_eq!(split_text("a,,b,", ','), vec!["a", "", "b", ""]);
    assert_eq!(split_text("", ','), vec![""]);
}

#[test]
fn entry_splits_at_first_equals() {
    assert_eq!(
        parse_entry_text("k=\"v=w\""),
        Ok(("k".to_string(), "v=w".to_string()))
    );
    assert_eq!(parse_entry_text("kv"), Err(GenError::OptionsMissingSeparator));
}
