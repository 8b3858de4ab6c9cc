use dlpipe::errors::PipelineError;
use dlpipe::version::{
    find_local_version, generate_filename, get_local_filename, get_remote_version,
    is_binary_filename, parse_binary_filename, select_stale_binaries,
};

fn strings(names: &[&str]) -> Vec<String> {
    names.iter().map(|s| s.to_string()).collect()
}

#[test]
fn derives_prefixed_filename() {
    assert_eq!(generate_filename("2024.01.01"), "downloader-2024.01.01");
    assert_eq!(generate_filename("1.0"), "downloader-1.0");
}

#[test]
fn local_filename_matches_derivation() {
    assert_eq!(get_local_filename("2024.01.01"), generate_filename("2024.01.01"));
}

#[test]
fn different_versions_give_different_filenames() {
    assert_ne!(generate_filename("1.0"), generate_filename("1.1"));
    assert_ne!(generate_filename("2024.01.01"), generate_filename("2024.1.1"));
}

#[test]
fn parses_version_back_out_of_filename() {
    assert_eq!(parse_binary_filename("downloader-2024.01.01"), Some("2024.01.01".to_string()));
    assert_eq!(parse_binary_filename("downloader-1.2.3"), Some("1.2.3".to_string()));
}

#[test]
fn rejects_names_outside_the_pattern() {
    assert_eq!(parse_binary_filename("video.mp4"), None);
    assert_eq!(parse_binary_filename("downloader-"), None);
    assert_eq!(parse_binary_filename("downloader-v1.2"), None);
    assert_eq!(parse_binary_filename("xdownloader-1.2"), None);
    assert_eq!(parse_binary_filename(""), None);
    assert!(!is_binary_filename("downloader"));
    assert!(is_binary_filename("downloader-9"));
}

#[test]
fn finds_first_installed_version() {
    let files = strings(&["notes.txt", "downloader-1.0", "downloader-2.0"]);
    assert_eq!(find_local_version(&files), Some("1.0".to_string()));
}

#[test]
fn finds_no_version_without_binaries() {
    let files = strings(&["notes.txt", "clip.mp4"]);
    assert_eq!(find_local_version(&files), None);
    assert_eq!(find_local_version(&Vec::new()), None);
}

#[test]
fn selects_only_superseded_binaries() {
    let files = strings(&["downloader-0.9", "downloader-2024.01.01", "clip.mp4", "notes.txt"]);
    let keep = "downloader-2024.01.01".to_string();
    let stale = select_stale_binaries(&files, &keep);
    assert_eq!(stale, strings(&["downloader-0.9"]));
}

#[test]
fn selects_nothing_when_only_the_kept_binary_is_present() {
    let files = strings(&["downloader-2024.01.01", "clip.mp4"]);
    let keep = "downloader-2024.01.01".to_string();
    assert_eq!(select_stale_binaries(&files, &keep), Vec::<String>::new());
}

#[test]
fn reads_tag_name_from_feed_body() {
    let body = "{\"tag_name\": \"2024.01.01\", \"name\": \"release\"}";
    assert_eq!(get_remote_version(body), Ok("2024.01.01".to_string()));
}

#[test]
fn missing_tag_name_is_a_check_failure() {
    assert_eq!(get_remote_version("{}"), Err(PipelineError::UpdateCheck));
    assert_eq!(get_remote_version("{\"tag_name\": 7}"), Err(PipelineError::UpdateCheck));
}

#[test]
fn unparsable_feed_body_is_a_check_failure() {
    assert_eq!(get_remote_version("not json at all"), Err(PipelineError::UpdateCheck));
    assert_eq!(get_remote_version(""), Err(PipelineError::UpdateCheck));
}
