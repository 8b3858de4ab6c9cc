use dlpipe::errors::PipelineError;
use dlpipe::pipeline::{select_output_files, Phase, Session, VersionAction};
use dlpipe::service::GrpcService;
use dlpipe::version::select_stale_binaries;

fn strings(names: &[&str]) -> Vec<String> {
    names.iter().map(|s| s.to_string()).collect()
}

const FEED_2024: &str = "{\"tag_name\": \"2024.01.01\"}";

fn started(url: &str) -> Session {
    let service = GrpcService::new();
    let mut s = service.open_session(url.to_string());
    assert_eq!(s.start(), None);
    s
}

#[test]
fn empty_url_fails_before_any_work() {
    let service = GrpcService::new();
    let mut s = service.open_session(String::new());
    let r = s.start();
    assert_eq!(r, Some(PipelineError::InvalidRequest));
    assert_eq!(s.phase, Phase::Failed);
    assert!(s.is_terminal());
    // no binary was resolved and no output was ever discovered
    assert_eq!(s.binary, None);
    assert_eq!(s.output, None);
}

#[test]
fn matching_local_version_skips_the_download() {
    let mut s = started("https://example.test/v");
    let files = strings(&["downloader-2024.01.01"]);
    let r = s.resolve_version(Some(FEED_2024), &files);
    match r {
        Ok(VersionAction::UseExisting { filename }) => {
            assert_eq!(filename, "downloader-2024.01.01");
        }
        _ => panic!("expected the existing binary to be used"),
    }
    assert_eq!(s.phase, Phase::BinaryReady);
}

#[test]
fn absent_local_binary_orders_a_download() {
    let mut s = started("https://example.test/v");
    let r = s.resolve_version(Some(FEED_2024), &Vec::new());
    match r {
        Ok(VersionAction::Download { filename }) => {
            assert_eq!(filename, "downloader-2024.01.01");
        }
        _ => panic!("expected a download order"),
    }
    assert_eq!(s.phase, Phase::Downloading);
    // the download is confirmed, and only then are other binaries removed
    let keep = s.note_download(true).expect("the kept filename");
    assert_eq!(keep, "downloader-2024.01.01");
    assert_eq!(s.phase, Phase::BinaryReady);
    let listing = strings(&["downloader-2024.01.01", "downloader-1.0", "clip.mp4"]);
    let stale = select_stale_binaries(&listing, &keep);
    assert_eq!(stale, strings(&["downloader-1.0"]));
}

#[test]
fn outdated_local_version_orders_a_download() {
    let mut s = started("https://example.test/v");
    let files = strings(&["downloader-1.0"]);
    let r = s.resolve_version(Some(FEED_2024), &files);
    assert!(matches!(r, Ok(VersionAction::Download { .. })));
    assert_eq!(s.phase, Phase::Downloading);
}

#[test]
fn failed_download_aborts_and_keeps_the_old_binary() {
    let mut s = started("https://example.test/v");
    let r = s.resolve_version(Some(FEED_2024), &Vec::new());
    assert!(matches!(r, Ok(VersionAction::Download { .. })));
    assert_eq!(s.note_download(false), None);
    assert_eq!(s.phase, Phase::Failed);
    assert_eq!(s.failure, Some(PipelineError::UpdateDownload));
}

#[test]
fn unreachable_feed_falls_back_to_the_local_binary() {
    let mut s = started("https://example.test/v");
    let files = strings(&["downloader-1.0"]);
    let r = s.resolve_version(None, &files);
    match r {
        Ok(VersionAction::UseExisting { filename }) => assert_eq!(filename, "downloader-1.0"),
        _ => panic!("expected the local binary to be used"),
    }
    assert_eq!(s.phase, Phase::BinaryReady);
}

#[test]
fn unreachable_feed_without_local_binary_is_fatal() {
    let mut s = started("https://example.test/v");
    let r = s.resolve_version(None, &Vec::new());
    assert!(matches!(r, Err(PipelineError::UpdateCheck)));
    assert_eq!(s.phase, Phase::Failed);
}

#[test]
fn feed_without_a_tag_falls_back_to_the_local_binary() {
    let mut s = started("https://example.test/v");
    let files = strings(&["downloader-1.0"]);
    let r = s.resolve_version(Some("{}"), &files);
    match r {
        Ok(VersionAction::UseExisting { filename }) => assert_eq!(filename, "downloader-1.0"),
        _ => panic!("expected the local binary to be used"),
    }
    assert_eq!(s.phase, Phase::BinaryReady);
}

#[test]
fn unparsable_feed_without_local_binary_is_fatal() {
    let mut s = started("https://example.test/v");
    let r = s.resolve_version(Some("no json here"), &Vec::new());
    assert!(matches!(r, Err(PipelineError::UpdateCheck)));
    assert_eq!(s.phase, Phase::Failed);
}

#[test]
fn spawn_failure_aborts() {
    let mut s = started("https://example.test/v");
    let files = strings(&["downloader-2024.01.01"]);
    s.resolve_version(Some(FEED_2024), &files).unwrap();
    let r = s.note_spawn(false);
    assert_eq!(r, Some(PipelineError::ProcessSpawn));
    assert_eq!(s.phase, Phase::Failed);
}

#[test]
fn nonzero_exit_aborts_before_any_output_scan() {
    let mut s = started("https://example.test/v");
    let files = strings(&["downloader-2024.01.01"]);
    s.resolve_version(Some(FEED_2024), &files).unwrap();
    assert_eq!(s.note_spawn(true), None);
    let r = s.note_exit(false, 1);
    assert_eq!(r, Some(PipelineError::ProcessExit(1)));
    assert_eq!(s.phase, Phase::Failed);
    // no output was discovered, so no chunk will ever be sent for it
    assert_eq!(s.output, None);
}

#[test]
fn two_candidate_outputs_are_ambiguous_and_kept() {
    let mut s = started("https://example.test/v");
    let files = strings(&["downloader-2024.01.01"]);
    s.resolve_version(Some(FEED_2024), &files).unwrap();
    assert_eq!(s.note_spawn(true), None);
    assert_eq!(s.note_exit(true, 0), None);
    let listing = strings(&["one.mp4", "two.mp4", "downloader-2024.01.01"]);
    let r = s.discover(&listing);
    assert_eq!(r, Err(PipelineError::AmbiguousOutput));
    assert_eq!(s.phase, Phase::Failed);
    // neither file was adopted, so the session deletes neither
    assert_eq!(s.output, None);
    assert!(!s.cleanup_requested);
}

#[test]
fn no_candidate_output_is_a_failure() {
    let mut s = started("https://example.test/v");
    let files = strings(&["downloader-2024.01.01"]);
    s.resolve_version(Some(FEED_2024), &files).unwrap();
    assert_eq!(s.note_spawn(true), None);
    assert_eq!(s.note_exit(true, 0), None);
    let r = s.discover(&strings(&["downloader-2024.01.01", "notes.txt"]));
    assert_eq!(r, Err(PipelineError::OutputNotFound));
    assert_eq!(s.phase, Phase::Failed);
}

#[test]
fn output_selection_matches_the_extension() {
    let listing = strings(&["a.mp4", "b.txt", "c.mp4", "mp4", ".mp4", "d.mp40"]);
    assert_eq!(select_output_files(&listing), strings(&["a.mp4", "c.mp4"]));
}

#[test]
fn completed_session_has_requested_cleanup() {
    let mut s = started("https://example.test/v");
    let files = strings(&["downloader-2024.01.01"]);
    s.resolve_version(Some(FEED_2024), &files).unwrap();
    assert_eq!(s.note_spawn(true), None);
    assert_eq!(s.note_exit(true, 0), None);
    let output = s.discover(&strings(&["video.mp4"])).unwrap();
    assert_eq!(output, "video.mp4");
    s.finish_streaming(false);
    assert_eq!(s.note_cleanup(), None);
    assert_eq!(s.phase, Phase::Done);
    assert!(s.is_terminal());
    // the discovered output file was scheduled for removal
    assert!(s.cleanup_requested);
    assert_eq!(s.output, Some("video.mp4".to_string()));
}

#[test]
fn failed_stream_still_requests_cleanup() {
    let mut s = started("https://example.test/v");
    let files = strings(&["downloader-2024.01.01"]);
    s.resolve_version(Some(FEED_2024), &files).unwrap();
    assert_eq!(s.note_spawn(true), None);
    assert_eq!(s.note_exit(true, 0), None);
    s.discover(&strings(&["video.mp4"])).unwrap();
    s.finish_streaming(true);
    assert_eq!(s.note_cleanup(), Some(PipelineError::StreamIo));
    assert_eq!(s.phase, Phase::Failed);
    assert!(s.cleanup_requested);
}

#[test]
fn every_failure_has_a_message() {
    let errors = [
        PipelineError::InvalidRequest,
        PipelineError::UpdateCheck,
        PipelineError::UpdateDownload,
        PipelineError::ProcessSpawn,
        PipelineError::ProcessExit(2),
        PipelineError::OutputNotFound,
        PipelineError::AmbiguousOutput,
        PipelineError::StreamIo,
    ];
    for e in errors {
        assert!(!e.message().is_empty());
    }
    assert_eq!(PipelineError::InvalidRequest.message(), "empty download URL");
}
