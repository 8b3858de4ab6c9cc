use vstd::prelude::*;

use vstd::pervasive::unreached;

use crate::errors::PipelineError;
use crate::version::{
    generate_filename, get_remote_version, find_local_version, spec_filename, spec_find_version,
    spec_remote_tag,
};

verus! {

// ---------------------------------------------------------------------------
// Output discovery.
//
// A finished download run leaves its result in the shared working
// directory; the session recognises it by the fixed output container
// extension and demands that exactly one such file is present.
// ---------------------------------------------------------------------------

/// Whether a filename carries the fixed output container extension: a
/// non-empty stem followed by the extension. A bare extension with
/// nothing before the dot names no output file.
pub open spec fn is_output_name(s: Seq<char>) -> bool {
    &&& s.len() >= 5
    &&& s[s.len() - 4] as u32 == 46  // '.'
    &&& s[s.len() - 3] as u32 == 109  // 'm'
    &&& s[s.len() - 2] as u32 == 112  // 'p'
    &&& s[s.len() - 1] as u32 == 52  // '4'
}

/// The listed filenames that carry the output extension, in listing order.
pub open spec fn spec_outputs(files: Seq<Seq<char>>) -> Seq<Seq<char>>
    decreases files.len(),
{
    if files.len() == 0 {
        Seq::empty()
    } else {
        spec_outputs(files.drop_last()) + if is_output_name(files.last()) {
            seq![files.last()]
        } else {
            Seq::empty()
        }
    }
}

/// Whether a filename carries the output extension.
pub fn is_output_filename(name: &str) -> (r: bool)
    ensures
        r == is_output_name(name@),
{
    let n: usize = name.unicode_len();
    if n < 5 {
        return false;
    }
    let c1: u32 = name.get_char(n - 4) as u32;
    let c2: u32 = name.get_char(n - 3) as u32;
    let c3: u32 = name.get_char(n - 2) as u32;
    let c4: u32 = name.get_char(n - 1) as u32;
    c1 == 46 && c2 == 109 && c3 == 112 && c4 == 52
}

/// Selects the candidate output files out of a directory listing.
pub fn select_output_files(files: &Vec<String>) -> (r: Vec<String>)
    ensures
        r.deep_view() == spec_outputs(files.deep_view()),
{
    let ghost dv = files.deep_view();
    let mut out: Vec<String> = Vec::new();
    let mut i: usize = 0;
    while i < files.len()
        invariant
            0 <= i <= files.len(),
            dv == files.deep_view(),
            dv.len() == files@.len(),
            out.deep_view() == spec_outputs(dv.take(i as int)),
        decreases files.len() - i,
    {
        proof {
            assert(dv.take(i as int + 1).drop_last() =~= dv.take(i as int));
            assert(dv.take(i as int + 1).last() == dv[i as int]);
        }
        let name = &files[i];
        proof {
            assert(dv[i as int] == name@);
        }
        if is_output_filename(name.as_str()) {
            let ghost pre = out.deep_view();
            out.push(name.clone());
            proof {
                assert(out.deep_view() =~= pre.push(dv[i as int]));
                assert(spec_outputs(dv.take(i as int + 1)) =~= pre.push(dv[i as int]));
            }
        } else {
            proof {
                assert(spec_outputs(dv.take(i as int + 1)) =~= out.deep_view());
            }
        }
        i += 1;
    }
    proof {
        assert(dv.take(i as int) =~= dv);
    }
    out
}

// ---------------------------------------------------------------------------
// The session pipeline.
//
// One incoming request is one session. The session is a state machine
// whose transitions are the decisions of the pipeline; everything that
// touches the world — the feed fetch, the binary download, the child
// process, the directory scans, reading the output file, delivering
// events — happens outside and reports back plain values. The machine
// guarantees that a session only terminates after it has requested
// removal of whatever output file it discovered.
// ---------------------------------------------------------------------------

/// Where a session stands.
#[derive(Clone, Copy, Debug, PartialEq, Eq, Structural)]
pub enum Phase {
    /// The request arrived; nothing has been checked yet.
    Created,
    /// The URL was accepted; the version stage may run.
    VersionCheck,
    /// A binary download was ordered and is in flight.
    Downloading,
    /// The binary to run is in place.
    BinaryReady,
    /// The downloader process was spawned and is awaited.
    Running,
    /// The process succeeded; the output scan may run.
    Discovery,
    /// The single output file was found and is being streamed.
    Streaming,
    /// Streaming is over; the output file must be removed.
    CleanupPending,
    /// Terminal: the session succeeded.
    Done,
    /// Terminal: the session failed.
    Failed,
}

/// What the version stage asks of its caller: run the binary already in
/// place, or download a binary to the given filename first.
pub enum VersionAction {
    UseExisting { filename: String },
    Download { filename: String },
}

/// The remote version the release feed outcome yields: known exactly when
/// the feed was reachable and its body announced a version tag.
pub open spec fn spec_remote_outcome(body: Option<Seq<char>>) -> Option<Seq<char>> {
    match body {
        Some(b) => spec_remote_tag(b),
        None => None,
    }
}

/// Whether the version stage orders a download: exactly when the remote
/// version is known and the local version differs from it (a missing
/// local binary included).
pub open spec fn spec_sync_downloads(remote: Option<Seq<char>>, local: Option<Seq<char>>) -> bool {
    match (remote, local) {
        (Some(rv), Some(lv)) => rv != lv,
        (Some(_), None) => true,
        (None, _) => false,
    }
}

/// The filename of the binary the session will run: derived from the
/// remote version when it is known, else from a usable local version;
/// none when neither is available.
pub open spec fn spec_sync_filename(remote: Option<Seq<char>>, local: Option<Seq<char>>) -> Option<
    Seq<char>,
> {
    match (remote, local) {
        (Some(rv), _) => Some(spec_filename(rv)),
        (None, Some(lv)) => Some(spec_filename(lv)),
        (None, None) => None,
    }
}

/// Law: version sync is idempotent. A successful sync against remote
/// version `rv` leaves `rv` installed locally, and a second sync with the
/// remote unchanged orders no download — the network is not touched twice.
pub proof fn lemma_version_sync_idempotent(rv: Seq<char>)
    ensures
        !spec_sync_downloads(Some(rv), Some(rv)),
        spec_sync_filename(Some(rv), Some(rv)) == Some(spec_filename(rv)),
{
}

/// The per-request state of the pipeline.
pub struct Session {
    /// The target URL of the request.
    pub url: String,
    /// Where the session stands.
    pub phase: Phase,
    /// The filename of the downloader binary this session uses.
    pub binary: Option<String>,
    /// The output file discovered for this session, if any.
    pub output: Option<String>,
    /// Whether removal of the discovered output file has been requested.
    pub cleanup_requested: bool,
    /// The failure that ends (or will end) the session, if any.
    pub failure: Option<PipelineError>,
}

impl Session {
    /// The invariant of a session.
    pub open spec fn wf(self) -> bool {
        &&& (self.phase == Phase::Failed ==> self.failure is Some)
        &&& (self.failure is Some ==> self.phase == Phase::Failed || self.phase
            == Phase::CleanupPending)
        &&& (self.phase == Phase::Streaming || self.phase == Phase::CleanupPending
            ==> self.output is Some)
        &&& (self.output is Some ==> self.phase == Phase::Streaming || self.phase
            == Phase::CleanupPending || self.phase == Phase::Done || self.phase == Phase::Failed)
        &&& (self.cleanup_requested ==> self.output is Some)
        &&& ((self.phase == Phase::Done || self.phase == Phase::Failed) && self.output is Some
            ==> self.cleanup_requested)
        &&& (self.phase == Phase::Downloading || self.phase == Phase::BinaryReady || self.phase
            == Phase::Running ==> self.binary is Some)
    }

    /// Whether the session has reached a terminal phase.
    pub open spec fn is_terminal_spec(self) -> bool {
        self.phase == Phase::Done || self.phase == Phase::Failed
    }

    /// A fresh session for one incoming request.
    pub fn new(url: String) -> (s: Session)
        ensures
            s.wf(),
            s.phase == Phase::Created,
            s.url@ == url@,
            s.binary is None,
            s.output is None,
            s.cleanup_requested == false,
            s.failure is None,
    {
        Session {
            url,
            phase: Phase::Created,
            binary: None,
            output: None,
            cleanup_requested: false,
            failure: None,
        }
    }

    /// Validates the request before any work begins: an empty URL fails
    /// the session immediately — no version check runs and no process is
    /// spawned for it.
    pub fn start(&mut self) -> (r: Option<PipelineError>)
        requires
            old(self).wf(),
            old(self).phase == Phase::Created,
        ensures
            final(self).wf(),
            final(self).url@ == old(self).url@,
            final(self).binary == old(self).binary,
            final(self).output is None,
            final(self).cleanup_requested == false,
            if old(self).url@.len() == 0 {
                final(self).phase == Phase::Failed && final(self).failure == Some(
                    PipelineError::InvalidRequest,
                ) && r == Some(PipelineError::InvalidRequest)
            } else {
                final(self).phase == Phase::VersionCheck && final(self).failure is None && r
                    is None
            },
    {
        if self.url.as_str().is_empty() {
            self.phase = Phase::Failed;
            self.failure = Some(PipelineError::InvalidRequest);
            Some(PipelineError::InvalidRequest)
        } else {
            self.phase = Phase::VersionCheck;
            None
        }
    }

    /// Decides the version-sync step from the release feed response and a
    /// listing of the working directory. `remote_body` is the feed body
    /// when the fetch succeeded. An unreachable feed, an unparsable body,
    /// or one without a version tag falls back to a usable local binary
    /// and fails the session only when none exists; otherwise a download
    /// is ordered exactly when the local version differs from the remote
    /// one.
    pub fn resolve_version(&mut self, remote_body: Option<&str>, local_files: &Vec<String>) -> (r:
        Result<VersionAction, PipelineError>)
        requires
            old(self).wf(),
            old(self).phase == Phase::VersionCheck,
        ensures
            final(self).wf(),
            final(self).url@ == old(self).url@,
            final(self).output is None,
            final(self).cleanup_requested == false,
            ({
                let remote = spec_remote_outcome(remote_body.deep_view());
                let local = spec_find_version(local_files.deep_view());
                match spec_sync_filename(remote, local) {
                    Some(fname) => {
                        &&& final(self).failure is None
                        &&& (final(self).binary matches Some(f) && f@ == fname)
                        &&& if spec_sync_downloads(remote, local) {
                            final(self).phase == Phase::Downloading && (r matches Ok(
                                VersionAction::Download { filename },
                            ) && filename@ == fname)
                        } else {
                            final(self).phase == Phase::BinaryReady && (r matches Ok(
                                VersionAction::UseExisting { filename },
                            ) && filename@ == fname)
                        }
                    },
                    None => {
                        &&& final(self).phase == Phase::Failed
                        &&& final(self).failure == Some(PipelineError::UpdateCheck)
                        &&& (r matches Err(e) && e == PipelineError::UpdateCheck)
                    },
                }
            }),
    {
        let remote: Option<String> = match remote_body {
            Some(b) => match get_remote_version(b) {
                Ok(v) => Some(v),
                Err(_) => None,
            },
            None => None,
        };
        let local: Option<String> = find_local_version(local_files);
        match (remote, local) {
            (Some(rv), Some(lv)) => {
                let f = generate_filename(rv.as_str());
                self.binary = Some(f.clone());
                if rv == lv {
                    self.phase = Phase::BinaryReady;
                    Ok(VersionAction::UseExisting { filename: f })
                } else {
                    self.phase = Phase::Downloading;
                    Ok(VersionAction::Download { filename: f })
                }
            },
            (Some(rv), None) => {
                let f = generate_filename(rv.as_str());
                self.binary = Some(f.clone());
                self.phase = Phase::Downloading;
                Ok(VersionAction::Download { filename: f })
            },
            (None, Some(lv)) => {
                let f = generate_filename(lv.as_str());
                self.binary = Some(f.clone());
                self.phase = Phase::BinaryReady;
                Ok(VersionAction::UseExisting { filename: f })
            },
            (None, None) => {
                self.phase = Phase::Failed;
                self.failure = Some(PipelineError::UpdateCheck);
                Err(PipelineError::UpdateCheck)
            },
        }
    }

    /// Records the outcome of the ordered binary download. On success the
    /// session hands back the filename to keep, so that superseded
    /// binaries can now — and only now — be removed; on failure the
    /// session aborts and whatever was installed stays untouched.
    pub fn note_download(&mut self, ok: bool) -> (r: Option<String>)
        requires
            old(self).wf(),
            old(self).phase == Phase::Downloading,
        ensures
            final(self).wf(),
            final(self).url@ == old(self).url@,
            final(self).binary == old(self).binary,
            final(self).output is None,
            final(self).cleanup_requested == false,
            if ok {
                final(self).phase == Phase::BinaryReady && final(self).failure is None && (
                r matches Some(k) && old(self).binary matches Some(b) && k@ == b@)
            } else {
                final(self).phase == Phase::Failed && final(self).failure == Some(
                    PipelineError::UpdateDownload,
                ) && r is None
            },
    {
        if ok {
            self.phase = Phase::BinaryReady;
            match &self.binary {
                Some(b) => Some(b.clone()),
                None => unreached(),
            }
        } else {
            self.phase = Phase::Failed;
            self.failure = Some(PipelineError::UpdateDownload);
            None
        }
    }

    /// Records whether the downloader process could be spawned.
    pub fn note_spawn(&mut self, ok: bool) -> (r: Option<PipelineError>)
        requires
            old(self).wf(),
            old(self).phase == Phase::BinaryReady,
        ensures
            final(self).wf(),
            final(self).url@ == old(self).url@,
            final(self).binary == old(self).binary,
            final(self).output is None,
            final(self).cleanup_requested == false,
            if ok {
                final(self).phase == Phase::Running && final(self).failure is None && r is None
            } else {
                final(self).phase == Phase::Failed && final(self).failure == Some(
                    PipelineError::ProcessSpawn,
                ) && r == Some(PipelineError::ProcessSpawn)
            },
    {
        if ok {
            self.phase = Phase::Running;
            None
        } else {
            self.phase = Phase::Failed;
            self.failure = Some(PipelineError::ProcessSpawn);
            Some(PipelineError::ProcessSpawn)
        }
    }

    /// Records the downloader's exit. A non-success status aborts the
    /// session before any output scan: nothing is discovered, so no chunk
    /// is ever sent for it.
    pub fn note_exit(&mut self, success: bool, code: i32) -> (r: Option<PipelineError>)
        requires
            old(self).wf(),
            old(self).phase == Phase::Running,
        ensures
            final(self).wf(),
            final(self).url@ == old(self).url@,
            final(self).binary == old(self).binary,
            final(self).output is None,
            final(self).cleanup_requested == false,
            if success {
                final(self).phase == Phase::Discovery && final(self).failure is None && r is None
            } else {
                final(self).phase == Phase::Failed && final(self).failure == Some(
                    PipelineError::ProcessExit(code),
                ) && r == Some(PipelineError::ProcessExit(code))
            },
    {
        if success {
            self.phase = Phase::Discovery;
            None
        } else {
            self.phase = Phase::Failed;
            self.failure = Some(PipelineError::ProcessExit(code));
            Some(PipelineError::ProcessExit(code))
        }
    }

    /// Locates the single output file of the finished run in a directory
    /// listing. Exactly one file with the output extension must be
    /// present: none fails the session with `OutputNotFound`, several
    /// with `AmbiguousOutput` — and in either failure no file is adopted,
    /// so none will be removed.
    pub fn discover(&mut self, files: &Vec<String>) -> (r: Result<String, PipelineError>)
        requires
            old(self).wf(),
            old(self).phase == Phase::Discovery,
        ensures
            final(self).wf(),
            final(self).url@ == old(self).url@,
            final(self).binary == old(self).binary,
            final(self).cleanup_requested == false,
            ({
                let outs = spec_outputs(files.deep_view());
                if outs.len() == 1 {
                    &&& final(self).phase == Phase::Streaming
                    &&& final(self).failure is None
                    &&& (final(self).output matches Some(f) && f@ == outs[0])
                    &&& (r matches Ok(f) && f@ == outs[0])
                } else if outs.len() == 0 {
                    &&& final(self).phase == Phase::Failed
                    &&& final(self).failure == Some(PipelineError::OutputNotFound)
                    &&& final(self).output is None
                    &&& (r matches Err(e) && e == PipelineError::OutputNotFound)
                } else {
                    &&& final(self).phase == Phase::Failed
                    &&& final(self).failure == Some(PipelineError::AmbiguousOutput)
                    &&& final(self).output is None
                    &&& (r matches Err(e) && e == PipelineError::AmbiguousOutput)
                }
            }),
    {
        let outs = select_output_files(files);
        if outs.len() == 1 {
            let f = outs[0].clone();
            proof {
                assert(outs.deep_view()[0] == outs@[0]@);
            }
            self.output = Some(f.clone());
            self.phase = Phase::Streaming;
            Ok(f)
        } else if outs.len() == 0 {
            self.phase = Phase::Failed;
            self.failure = Some(PipelineError::OutputNotFound);
            Err(PipelineError::OutputNotFound)
        } else {
            self.phase = Phase::Failed;
            self.failure = Some(PipelineError::AmbiguousOutput);
            Err(PipelineError::AmbiguousOutput)
        }
    }

    /// Ends the streaming stage. A read failure mid-stream is recorded as
    /// the session's failure; a consumer that went away is none. Either
    /// way the session now owes removal of the discovered output file.
    pub fn finish_streaming(&mut self, io_failed: bool)
        requires
            old(self).wf(),
            old(self).phase == Phase::Streaming,
        ensures
            final(self).wf(),
            final(self).url@ == old(self).url@,
            final(self).binary == old(self).binary,
            final(self).output == old(self).output,
            final(self).cleanup_requested == old(self).cleanup_requested,
            final(self).phase == Phase::CleanupPending,
            final(self).failure == if io_failed {
                Some(PipelineError::StreamIo)
            } else {
                None::<PipelineError>
            },
    {
        self.phase = Phase::CleanupPending;
        if io_failed {
            self.failure = Some(PipelineError::StreamIo);
        } else {
            self.failure = None;
        }
    }

    /// Records that removal of the discovered output file was requested;
    /// a removal that failed anyway is only a warning and never fails the
    /// session. The session then terminates, failing exactly when
    /// streaming had failed, and hands back that failure.
    pub fn note_cleanup(&mut self) -> (r: Option<PipelineError>)
        requires
            old(self).wf(),
            old(self).phase == Phase::CleanupPending,
        ensures
            final(self).wf(),
            final(self).url@ == old(self).url@,
            final(self).binary == old(self).binary,
            final(self).output == old(self).output,
            final(self).cleanup_requested,
            final(self).failure == old(self).failure,
            final(self).phase == if old(self).failure is Some {
                Phase::Failed
            } else {
                Phase::Done
            },
            r == old(self).failure,
    {
        self.cleanup_requested = true;
        match &self.failure {
            Some(e) => {
                self.phase = Phase::Failed;
                Some(*e)
            },
            None => {
                self.phase = Phase::Done;
                None
            },
        }
    }

    /// Whether the session has reached a terminal phase.
    pub fn is_terminal(&self) -> (r: bool)
        ensures
            r == self.is_terminal_spec(),
    {
        self.phase == Phase::Done || self.phase == Phase::Failed
    }
}

/// Law: cleanup is unconditional — a session in a terminal phase, whether
/// it succeeded or failed, has requested removal of whatever output file
/// it discovered.
pub proof fn lemma_cleanup_guarantee(s: Session)
    requires
        s.wf(),
        s.is_terminal_spec(),
    ensures
        s.output is Some ==> s.cleanup_requested,
{
}

} // verus!
