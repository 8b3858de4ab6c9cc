use vstd::prelude::*;

verus! {

/// Everything that can abort a download session, by stage: request
/// validation, binary version management, subprocess orchestration, output
/// discovery, and streaming. A failed deletion of the output file is a
/// non-fatal warning and deliberately has no variant here.
#[derive(Clone, Copy, Debug, PartialEq, Eq, Structural)]
pub enum PipelineError {
    /// The request carried an empty URL.
    InvalidRequest,
    /// The remote release feed could not be fetched, or its body did not
    /// announce a version tag, and no local binary was available to fall
    /// back on.
    UpdateCheck,
    /// A required download of the binary did not complete.
    UpdateDownload,
    /// The downloader binary could not be spawned.
    ProcessSpawn,
    /// The downloader exited with a non-success status; carries the code.
    ProcessExit(i32),
    /// No file with the output extension was found after a successful run.
    OutputNotFound,
    /// More than one file with the output extension was found, so the one
    /// this session produced cannot be told apart.
    AmbiguousOutput,
    /// Reading the output file failed mid-stream.
    StreamIo,
}

impl PipelineError {
    /// The text of the terminal error event delivered for this failure.
    pub fn message(&self) -> (r: String)
        ensures
            r@ == match self {
                PipelineError::InvalidRequest => "empty download URL"@,
                PipelineError::UpdateCheck => "could not determine the current downloader version"@,
                PipelineError::UpdateDownload => "could not download the downloader binary"@,
                PipelineError::ProcessSpawn => "could not start the downloader process"@,
                PipelineError::ProcessExit(_) => "the downloader process exited with a failure status"@,
                PipelineError::OutputNotFound => "no output file was produced"@,
                PipelineError::AmbiguousOutput => "more than one candidate output file was found"@,
                PipelineError::StreamIo => "reading the output file failed"@,
            },
    {
        match self {
            PipelineError::InvalidRequest => "empty download URL".to_owned(),
            PipelineError::UpdateCheck => "could not determine the current downloader version".to_owned(),
            PipelineError::UpdateDownload => "could not download the downloader binary".to_owned(),
            PipelineError::ProcessSpawn => "could not start the downloader process".to_owned(),
            PipelineError::ProcessExit(_) => "the downloader process exited with a failure status".to_owned(),
            PipelineError::OutputNotFound => "no output file was produced".to_owned(),
            PipelineError::AmbiguousOutput => "more than one candidate output file was found".to_owned(),
            PipelineError::StreamIo => "reading the output file failed".to_owned(),
        }
    }
}

} // verus!
