//! The catalog's view of one media item, as this pipeline sees it.

use vstd::prelude::*;

verus! {

/// Stable, opaque identifier for one catalog entry. It never changes for the
/// lifetime of the source file, so it doubles as the filesystem key for
/// derived artifacts.
#[derive(Clone, Copy, Debug, PartialEq, Eq, Hash, Structural)]
pub struct MediaId {
    pub value: u64,
}

/// One catalog entry: where the source file lives and where its derived
/// artifacts, if any, have been written. Only the scanner creates records;
/// this pipeline only ever fills in the artifact paths.
#[derive(Debug, Clone)]
pub struct MediaRecord {
    pub id: MediaId,
    pub source_path: String,
    /// Canonical path of the square preview image, once one has been derived.
    pub preview_path: Option<String>,
    /// Canonical path of the transcoded video proxy, once one has been derived.
    pub proxy_path: Option<String>,
}

/// A record as the scan phase sees it: paired with whether the preview file
/// it names is actually present on disk. Existence at the canonical path is
/// the sole signal of completion, so a recorded path whose file has vanished
/// counts for nothing.
pub struct ScannedRecord {
    pub record: MediaRecord,
    /// True when `record.preview_path` names a file that exists on disk.
    pub preview_on_disk: bool,
}

/// An item needs preview work when no preview path is recorded, or the
/// recorded file is no longer on disk.
pub open spec fn needs_preview_spec(s: ScannedRecord) -> bool {
    !(s.record.preview_path is Some && s.preview_on_disk)
}

/// Decides whether one scanned record still lacks a usable preview artifact.
pub fn needs_preview(s: &ScannedRecord) -> (r: bool)
    ensures
        r == needs_preview_spec(*s),
{
    !(s.record.preview_path.is_some() && s.preview_on_disk)
}

} // verus!
