use slide_extractor::deps::{
    CommandProbe, Dependency, DependencyCheckResult, DependencyChecker,
};

#[test]
fn test_dependency_command_name() {
    assert_eq!(Dependency::YtDlp.command_name(), "yt-dlp");
    assert_eq!(Dependency::FFmpeg.command_name(), "ffmpeg");
    assert_eq!(Dependency::Tesseract.command_name(), "tesseract");
}

#[test]
fn test_dependency_display_name() {
    assert_eq!(Dependency::YtDlp.display_name(), "yt-dlp");
    assert_eq!(Dependency::FFmpeg.display_name(), "FFmpeg");
    assert_eq!(Dependency::Tesseract.display_name(), "Tesseract OCR");
}

#[test]
fn test_dependency_minimum_version() {
    assert!(Dependency::YtDlp.minimum_version().is_some());
    assert!(Dependency::FFmpeg.minimum_version().is_some());
    assert!(Dependency::Tesseract.minimum_version().is_some());
}

#[test]
fn test_dependency_installation_instructions() {
    assert!(!Dependency::YtDlp.installation_instructions().is_empty());
    assert!(!Dependency::FFmpeg.installation_instructions().is_empty());
    assert!(!Dependency::Tesseract.installation_instructions().is_empty());
}

#[test]
fn test_dependency_troubleshooting_steps() {
    assert!(!Dependency::YtDlp.troubleshooting_steps().is_empty());
    assert!(!Dependency::FFmpeg.troubleshooting_steps().is_empty());
    assert!(!Dependency::Tesseract.troubleshooting_steps().is_empty());
}

#[test]
fn test_dependency_display() {
    assert_eq!(Dependency::YtDlp.display_name(), "yt-dlp");
    assert_eq!(Dependency::FFmpeg.display_name(), "FFmpeg");
    assert_eq!(Dependency::Tesseract.display_name(), "Tesseract OCR");
}

#[test]
fn test_dependency_checker_default() {
    let checker = DependencyChecker::new();
    assert_eq!(checker.get_command_path(&Dependency::FFmpeg), "ffmpeg");
}

#[test]
fn test_dependency_checker_with_custom_path() {
    let checker = DependencyChecker::new()
        .with_custom_path(Dependency::FFmpeg, "/custom/path/ffmpeg".to_string());
    assert_eq!(
        checker.get_command_path(&Dependency::FFmpeg),
        "/custom/path/ffmpeg"
    );
    assert_eq!(checker.get_command_path(&Dependency::YtDlp), "yt-dlp");
}

#[test]
fn test_compare_versions() {
    let checker = DependencyChecker::new();
    assert!(checker.compare_versions("5.0.0", "4.0.0") > 0);
    assert!(checker.compare_versions("4.0.0", "5.0.0") < 0);
    assert!(checker.compare_versions("4.0.0", "4.0.0") == 0);
    assert!(checker.compare_versions("4.1.0", "4.0.0") > 0);
    assert!(checker.compare_versions("4.0.1", "4.0.0") > 0);
    assert!(checker.compare_versions("4.0", "4.0.0") == 0);
    assert!(checker.compare_versions("4.0.0", "4.0") == 0);
    assert!(checker.compare_versions("4", "4.0.0") == 0);
    assert!(checker.compare_versions("4.1", "4.0.0") > 0);
}

#[test]
fn test_dependency_check_result_is_ok() {
    let result = DependencyCheckResult {
        dependency: Dependency::FFmpeg,
        available: true,
        version: Some("5.0.0".to_string()),
        version_ok: true,
        path: Some("/usr/bin/ffmpeg".to_string()),
        error: None,
    };
    assert!(result.is_ok());
}

#[test]
fn test_dependency_check_result_not_ok_not_available() {
    let result = DependencyCheckResult {
        dependency: Dependency::FFmpeg,
        available: false,
        version: None,
        version_ok: false,
        path: None,
        error: Some("Command not found".to_string()),
    };
    assert!(!result.is_ok());
}

#[test]
fn test_dependency_check_result_not_ok_version_mismatch() {
    let result = DependencyCheckResult {
        dependency: Dependency::FFmpeg,
        available: true,
        version: Some("3.0.0".to_string()),
        version_ok: false,
        path: Some("/usr/bin/ffmpeg".to_string()),
        error: None,
    };
    assert!(!result.is_ok());
}

#[test]
fn test_dependency_check_result_status_message() {
    let result = DependencyCheckResult {
        dependency: Dependency::FFmpeg,
        available: true,
        version: Some("5.0.0".to_string()),
        version_ok: true,
        path: Some("/usr/bin/ffmpeg".to_string()),
        error: None,
    };
    let msg = result.status_message();
    assert!(msg.contains("FFmpeg"));
    assert!(msg.contains("available"));
}

#[test]
fn test_parse_version_ytdlp() {
    let checker = DependencyChecker::new();
    let parsed = checker.parse_version(&Dependency::YtDlp, "yt-dlp 2023.07.06\n");
    assert_eq!(parsed.unwrap(), "2023.07.06");
    let empty = checker.parse_version(&Dependency::YtDlp, "");
    assert!(empty.is_err());
}

#[test]
fn test_parse_version_ffmpeg() {
    let checker = DependencyChecker::new();
    let output = "ffmpeg version 6.1.1 Copyright (c) the FFmpeg developers\nbuilt with gcc";
    let parsed = checker.parse_version(&Dependency::FFmpeg, output);
    assert_eq!(parsed.unwrap(), "6.1.1");
    let none = checker.parse_version(&Dependency::FFmpeg, "no useful line\nat all");
    assert!(none.is_err());
}

#[test]
fn test_parse_version_tesseract() {
    let checker = DependencyChecker::new();
    let parsed = checker.parse_version(&Dependency::Tesseract, "tesseract 5.3.0\n leptonica-1.82");
    assert_eq!(parsed.unwrap(), "5.3.0");
}

#[test]
fn test_check_with_probe() {
    let checker = DependencyChecker::new();
    let good = CommandProbe {
        version_output: Some("ffmpeg version 6.1.1 something\n".to_string()),
        command_exists: true,
        error: None,
    };
    let report = checker.check(&Dependency::FFmpeg, &good);
    assert!(report.is_ok());
    assert_eq!(report.version.as_deref(), Some("6.1.1"));

    let missing = CommandProbe {
        version_output: None,
        command_exists: false,
        error: Some("not found".to_string()),
    };
    let report = checker.check(&Dependency::YtDlp, &missing);
    assert!(!report.is_ok());
    assert!(!report.available);
}

#[test]
fn test_check_all_order() {
    let probe = CommandProbe {
        version_output: None,
        command_exists: false,
        error: None,
    };
    let results = DependencyChecker::new().check_all(&probe, &probe, &probe);
    assert_eq!(results.len(), 3);
    assert_eq!(results[0].dependency, Dependency::YtDlp);
    assert_eq!(results[1].dependency, Dependency::FFmpeg);
    assert_eq!(results[2].dependency, Dependency::Tesseract);
}

#[test]
fn test_validate_all_reports_failures() {
    let probe = CommandProbe {
        version_output: None,
        command_exists: false,
        error: None,
    };
    let result = DependencyChecker::new().validate_all(&probe, &probe, &probe);
    assert!(result.is_err());
}
