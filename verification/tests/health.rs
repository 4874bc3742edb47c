use murmur::health::build_runtime_health;

#[test]
fn ready_depends_on_ffmpeg_and_coli() {
    let health = build_runtime_health(true, true, false);

    assert!(health.ready);
    assert_eq!(health.issues.len(), 1);
    assert_eq!(
        health.issues[0],
        "osascript is unavailable, so simulated paste may not work."
    );
}

#[test]
fn missing_dependencies_are_reported() {
    let health = build_runtime_health(false, false, true);

    assert!(!health.ready);
    assert_eq!(health.issues.len(), 2);
    assert!(health.issues.iter().any(|issue| issue.contains("ffmpeg is missing")));
    assert!(health.issues.iter().any(|issue| issue.contains("coli is missing")));
}

#[test]
fn all_tools_available_means_ready_without_issues() {
    let health = build_runtime_health(true, true, true);
    assert!(health.ready);
    assert!(health.issues.is_empty());
    assert!(health.ffmpeg_available && health.coli_available && health.osascript_available);
}

#[test]
fn nothing_available_reports_three_issues_in_order() {
    let health = build_runtime_health(false, false, false);
    assert!(!health.ready);
    assert_eq!(
        health.issues,
        vec![
            "ffmpeg is missing. Install it with: brew install ffmpeg".to_string(),
            "coli is missing or unavailable. Install it before starting transcription.".to_string(),
            "osascript is unavailable, so simulated paste may not work.".to_string(),
        ]
    );
}

#[test]
fn readiness_ignores_osascript() {
    for ffmpeg in [false, true] {
        for coli in [false, true] {
            let with = build_runtime_health(ffmpeg, coli, true);
            let without = build_runtime_health(ffmpeg, coli, false);
            assert_eq!(with.ready, without.ready);
            assert_eq!(with.ready, ffmpeg && coli);
            assert_eq!(without.issues.len(), with.issues.len() + 1);
        }
    }
}

#[test]
fn only_coli_missing_is_not_ready() {
    let health = build_runtime_health(true, false, true);
    assert!(!health.ready);
    assert_eq!(
        health.issues,
        vec!["coli is missing or unavailable. Install it before starting transcription.".to_string()]
    );
}

#[test]
fn reports_compare_and_print() {
    let a = build_runtime_health(true, false, true);
    let b = build_runtime_health(true, false, true);
    assert_eq!(a, b);
    assert_ne!(a, build_runtime_health(true, true, true));
    assert!(format!("{:?}", a).contains("coli_available: false"));
}
