use murmur::tools::{normalize_tool_path, ToolPaths};

#[test]
fn stores_tool_configuration() {
    let mut stored = ToolPaths::default();
    let guard = &mut stored;
    *guard = ToolPaths {
        ffmpeg_path: Some("/tmp/ffmpeg".into()),
        coli_path: Some("/tmp/coli".into()),
    };

    assert_eq!(guard.ffmpeg_path.as_deref(), Some("/tmp/ffmpeg"));
    assert_eq!(guard.coli_path.as_deref(), Some("/tmp/coli"));
}

#[test]
fn default_configuration_is_empty() {
    let paths = ToolPaths::default();
    assert_eq!(paths.ffmpeg_path, None);
    assert_eq!(paths.coli_path, None);
}

#[test]
fn configured_paths_are_trimmed() {
    assert_eq!(normalize_tool_path(Some("  /tmp/ffmpeg \n".to_string())), Some("/tmp/ffmpeg".to_string()));
    assert_eq!(normalize_tool_path(Some("/tmp/coli".to_string())), Some("/tmp/coli".to_string()));
}

#[test]
fn blank_or_absent_paths_are_dropped() {
    assert_eq!(normalize_tool_path(Some("   ".to_string())), None);
    assert_eq!(normalize_tool_path(Some(String::new())), None);
    assert_eq!(normalize_tool_path(None), None);
}

#[test]
fn configure_replaces_both_paths() {
    let mut paths = ToolPaths::from_raw(Some("/a/ffmpeg".to_string()), Some("/a/coli".to_string()));
    assert_eq!(paths.ffmpeg_path.as_deref(), Some("/a/ffmpeg"));
    paths.configure(Some(" /tmp/ffmpeg ".to_string()), Some(" \t".to_string()));
    assert_eq!(paths.ffmpeg_path.as_deref(), Some("/tmp/ffmpeg"));
    assert_eq!(paths.coli_path, None);
}

#[test]
fn unicode_white_space_is_trimmed_too() {
    assert_eq!(
        normalize_tool_path(Some("\u{3000}\u{a0}/tmp/coli\u{2028}".to_string())),
        Some("/tmp/coli".to_string())
    );
    assert_eq!(normalize_tool_path(Some("\u{85}\u{2009}".to_string())), None);
}
