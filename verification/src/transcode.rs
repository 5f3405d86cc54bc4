//! The transcoding engine: turns a source video into a playable proxy exactly
//! once, and commits it atomically.
//!
//! The engine itself decides; the surrounding process performs the file
//! system work the decisions call for. A call runs in three steps:
//!
//! 1. The caller checks whether the canonical proxy path already exists and
//!    asks [`Transcoder::plan_transcode`] for a plan. If the artifact exists
//!    the plan is to reuse it — a cache hit, the external tool is not invoked.
//! 2. Otherwise the plan names a temporary path distinct from the canonical
//!    one; the caller runs the external encode tool against the temporary
//!    path, and on success performs one atomic rename onto the canonical
//!    path.
//! 3. [`Transcoder::resolve_encode`] turns the two outcomes (tool run,
//!    rename) into the engine's result: the canonical path, or an error with
//!    no catalog mutation and no retry.
//!
//! The spec functions `engine_result`, `engine_fs_after` and
//! `engine_invokes_tool` model one whole call against a filesystem state, and
//! the laws at the bottom prove idempotency and atomicity over that model.

use vstd::prelude::*;
use vstd::string::StringExecFns;

use crate::digits::{append_decimal, dec_digits};
use crate::media::MediaId;

verus! {

/// The canonical on-disk location of the transcoded proxy for `id`:
/// `base/<id>.mkv`. Its existence is the sole signal that the proxy has been
/// derived.
pub open spec fn canonical_path_spec(base: Seq<char>, id: MediaId) -> Seq<char> {
    base + "/"@ + dec_digits(id.value as nat) + ".mkv"@
}

/// The temporary path the external tool encodes into: `base/<id>.tmp.mkv`,
/// beside the canonical path but never equal to it.
pub open spec fn temporary_path_spec(base: Seq<char>, id: MediaId) -> Seq<char> {
    base + "/"@ + dec_digits(id.value as nat) + ".tmp.mkv"@
}

/// What one engine call asks its caller to do.
#[derive(Debug)]
pub enum TranscodePlan {
    /// The proxy already exists at its canonical path: return it, invoke
    /// nothing.
    UseExisting { canonical: String },
    /// Run the external tool: read `source`, encode into `temporary`
    /// (copying the audio stream, re-encoding video to the fixed target
    /// codec), and only on success rename `temporary` onto `canonical`.
    Encode { source: String, temporary: String, canonical: String },
}

/// Failure of one engine call. The caller receives no path, the catalog is
/// left unmodified, and no retry is performed here.
#[derive(Clone, Copy, Debug, PartialEq, Eq, Structural)]
pub enum TranscodeError {
    /// The external encode invocation failed: non-zero exit, spawn failure,
    /// or it was interrupted.
    ToolFailed,
    /// The encode succeeded but the atomic rename onto the canonical path
    /// did not.
    CommitFailed,
}

/// Resolves a media identifier to the canonical artifact locations under one
/// base directory, and decides what one transcode call does.
#[derive(Debug, Clone)]
pub struct Transcoder {
    /// Base path for storing transcoded videos.
    base_path: String,
}

impl Transcoder {
    /// The directory all proxies live under.
    pub closed spec fn base(&self) -> Seq<char> {
        self.base_path@
    }

    /// A transcoder storing its proxies under `base_path/video_transcodes`.
    /// Creating that directory is the caller's concern.
    pub fn new(base_path: &str) -> (r: Transcoder)
        ensures
            r.base() == base_path@ + "/video_transcodes"@,
    {
        let mut p = base_path.to_owned();
        p.append("/video_transcodes");
        Transcoder { base_path: p }
    }

    /// The directory all proxies live under, for the caller to create.
    pub fn base_dir(&self) -> (r: &str)
        ensures
            r@ == self.base(),
    {
        self.base_path.as_str()
    }

    /// The canonical proxy path for `id`.
    pub fn transcoded_path(&self, id: MediaId) -> (r: String)
        ensures
            r@ == canonical_path_spec(self.base(), id),
    {
        let mut r = self.base_path.clone();
        r.append("/");
        append_decimal(&mut r, id.value);
        r.append(".mkv");
        r
    }

    /// The temporary path the external tool encodes into for `id`.
    pub fn temporary_path(&self, id: MediaId) -> (r: String)
        ensures
            r@ == temporary_path_spec(self.base(), id),
    {
        let mut r = self.base_path.clone();
        r.append("/");
        append_decimal(&mut r, id.value);
        r.append(".tmp.mkv");
        r
    }

    /// Decides one transcode call, given whether the canonical path already
    /// exists: reuse the existing proxy, or encode into the temporary path
    /// and commit by a single rename.
    pub fn plan_transcode(&self, id: MediaId, source_path: &str, canonical_exists: bool) -> (r:
        TranscodePlan)
        ensures
            canonical_exists ==> (r matches TranscodePlan::UseExisting { canonical }
                && canonical@ == canonical_path_spec(self.base(), id)),
            !canonical_exists ==> (r matches TranscodePlan::Encode { source, temporary, canonical }
                && source@ == source_path@
                && temporary@ == temporary_path_spec(self.base(), id)
                && canonical@ == canonical_path_spec(self.base(), id)),
    {
        let canonical = self.transcoded_path(id);
        if canonical_exists {
            TranscodePlan::UseExisting { canonical }
        } else {
            let temporary = self.temporary_path(id);
            TranscodePlan::Encode { source: source_path.to_owned(), temporary, canonical }
        }
    }

    /// Turns the outcome of an `Encode` plan into the engine's result. The
    /// canonical path is returned exactly when the tool exited successfully
    /// and the rename committed; any failure propagates as an error and the
    /// canonical path is never produced.
    pub fn resolve_encode(&self, canonical: String, tool_ok: bool, rename_ok: bool) -> (r: Result<
        String,
        TranscodeError,
    >)
        ensures
            tool_ok && rename_ok ==> r == Result::<String, TranscodeError>::Ok(canonical),
            !tool_ok ==> r == Result::<String, TranscodeError>::Err(TranscodeError::ToolFailed),
            tool_ok && !rename_ok ==> r == Result::<String, TranscodeError>::Err(
                TranscodeError::CommitFailed,
            ),
    {
        if !tool_ok {
            Err(TranscodeError::ToolFailed)
        } else if !rename_ok {
            Err(TranscodeError::CommitFailed)
        } else {
            Ok(canonical)
        }
    }
}

/// A file found on disk is either a complete artifact or a partial write left
/// behind by an interrupted tool run.
pub enum FileState {
    Complete,
    Partial,
}

/// Whether one engine call against filesystem `fs` invokes the external tool:
/// it does exactly when the canonical path does not already exist.
pub open spec fn engine_invokes_tool(
    fs: Map<Seq<char>, FileState>,
    base: Seq<char>,
    id: MediaId,
) -> bool {
    !fs.contains_key(canonical_path_spec(base, id))
}

/// The path one engine call returns, if any: the canonical path on a cache
/// hit or on a fully successful encode-and-rename, and nothing otherwise.
pub open spec fn engine_result(
    fs: Map<Seq<char>, FileState>,
    base: Seq<char>,
    id: MediaId,
    tool_ok: bool,
    rename_ok: bool,
) -> Option<Seq<char>> {
    if fs.contains_key(canonical_path_spec(base, id)) {
        Some(canonical_path_spec(base, id))
    } else if tool_ok && rename_ok {
        Some(canonical_path_spec(base, id))
    } else {
        None
    }
}

/// The filesystem after one engine call. A cache hit changes nothing. A
/// failed tool run leaves at most a partial file at the temporary path. A
/// successful tool run whose rename fails leaves a complete file at the
/// temporary path. Only the successful rename puts anything at the canonical
/// path — and then it is complete.
pub open spec fn engine_fs_after(
    fs: Map<Seq<char>, FileState>,
    base: Seq<char>,
    id: MediaId,
    tool_ok: bool,
    rename_ok: bool,
) -> Map<Seq<char>, FileState> {
    let c = canonical_path_spec(base, id);
    let t = temporary_path_spec(base, id);
    if fs.contains_key(c) {
        fs
    } else if !tool_ok {
        fs.insert(t, FileState::Partial)
    } else if !rename_ok {
        fs.insert(t, FileState::Complete)
    } else {
        fs.insert(c, FileState::Complete)
    }
}

/// The temporary path is never the canonical path, so an orphaned temporary
/// file can never be mistaken for a completed artifact.
pub proof fn lemma_paths_distinct(base: Seq<char>, id: MediaId)
    ensures
        canonical_path_spec(base, id) != temporary_path_spec(base, id),
{
    reveal_strlit(".mkv");
    reveal_strlit(".tmp.mkv");
    assert(canonical_path_spec(base, id).len() != temporary_path_spec(base, id).len());
}

/// Law (idempotency): once a call for `id` has returned a path, any further
/// call for `id` returns that same canonical path without invoking the
/// external tool — so across the two calls the tool runs at most once.
pub proof fn lemma_transcode_idempotent(
    fs: Map<Seq<char>, FileState>,
    base: Seq<char>,
    id: MediaId,
    tool_ok: bool,
    rename_ok: bool,
    tool_ok2: bool,
    rename_ok2: bool,
)
    requires
        engine_result(fs, base, id, tool_ok, rename_ok) is Some,
    ensures
        !engine_invokes_tool(engine_fs_after(fs, base, id, tool_ok, rename_ok), base, id),
        engine_result(engine_fs_after(fs, base, id, tool_ok, rename_ok), base, id, tool_ok2,
            rename_ok2) == engine_result(fs, base, id, tool_ok, rename_ok),
{
}

/// Law (atomicity): if the canonical proxy is absent and the call fails in
/// any way — the tool is killed mid-run, exits non-zero, or the commit rename
/// fails — then the canonical path still does not exist afterwards, the call
/// returned no path, and a subsequent call re-attempts the transcode rather
/// than mistaking the leftover temporary file for success.
pub proof fn lemma_transcode_atomic(
    fs: Map<Seq<char>, FileState>,
    base: Seq<char>,
    id: MediaId,
    tool_ok: bool,
    rename_ok: bool,
)
    requires
        !fs.contains_key(canonical_path_spec(base, id)),
        !(tool_ok && rename_ok),
    ensures
        engine_result(fs, base, id, tool_ok, rename_ok) is None,
        !engine_fs_after(fs, base, id, tool_ok, rename_ok).contains_key(
            canonical_path_spec(base, id),
        ),
        engine_invokes_tool(engine_fs_after(fs, base, id, tool_ok, rename_ok), base, id),
{
    lemma_paths_distinct(base, id);
}

} // verus!
