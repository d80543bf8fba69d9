use nitor_vault::config::{
    get_filename_from_path, read_value, resolve_vault_settings, ValueSource,
};

fn s(v: &str) -> Option<String> {
    Some(v.to_string())
}

#[test]
fn settings_prefer_explicit_then_env_then_default() {
    let r = resolve_vault_settings(
        s("mystack"),
        s("mybucket"),
        None,
        s("team"),
        s("envstack"),
        s("envbucket"),
        s("envkey"),
        s("envprefix"),
    );
    assert_eq!(r.stack_name, "mystack");
    assert_eq!(r.bucket.as_deref(), Some("mybucket"));
    assert_eq!(r.key.as_deref(), Some("envkey"));
    assert_eq!(r.prefix, "team/");

    let r = resolve_vault_settings(None, None, None, None, None, None, None, None);
    assert_eq!(r.stack_name, "vault");
    assert_eq!(r.bucket, None);
    assert_eq!(r.key, None);
    assert_eq!(r.prefix, "");
}

#[test]
fn settings_take_env_when_no_argument() {
    let r = resolve_vault_settings(None, None, None, None, s("envstack"), None, None, s("p/"));
    assert_eq!(r.stack_name, "envstack");
    assert_eq!(r.prefix, "p/");
}

#[test]
fn read_value_prefers_positional() {
    let r = read_value(s("pos"), s("arg"), s("file.txt"));
    assert!(matches!(r, Some(ValueSource::Literal(v)) if v == "pos"));
}

#[test]
fn read_value_dash_means_stdin() {
    assert!(matches!(read_value(s("-"), None, None), Some(ValueSource::Stdin)));
    assert!(matches!(read_value(None, s("-"), None), Some(ValueSource::Stdin)));
    assert!(matches!(read_value(None, None, s("-")), Some(ValueSource::Stdin)));
}

#[test]
fn read_value_falls_back_to_file_then_nothing() {
    let r = read_value(None, None, s("data.bin"));
    assert!(matches!(r, Some(ValueSource::File(f)) if f == "data.bin"));
    assert!(read_value(None, None, None).is_none());
}

#[test]
fn filename_from_path_takes_last_component() {
    assert_eq!(get_filename_from_path("/a/b/c.txt").as_deref(), Some("c.txt"));
    assert_eq!(get_filename_from_path("file.txt").as_deref(), Some("file.txt"));
    assert_eq!(get_filename_from_path("dir/"), None);
    assert_eq!(get_filename_from_path(""), None);
}

#[test]
fn filename_from_path_strips_replacement_chars() {
    assert_eq!(
        get_filename_from_path("/tmp/na\u{fffd}me\u{fffd}").as_deref(),
        Some("name")
    );
}
