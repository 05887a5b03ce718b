//! Filesystem notifications as the core sees them: an event kind, the paths
//! it names, and what was observed of each path when it was examined.

use vstd::prelude::*;
use crate::paths::{TrackedPath, path_eligible};

verus! {

/// The kind of an OS-level notification. Only creations and data
/// modifications are candidates for a reload; everything else is noise.
#[derive(Clone, Copy, Debug, PartialEq, Eq, Structural)]
pub enum EventKind {
    /// A filesystem entry was created.
    Create,
    /// A file's data content changed.
    ModifyData,
    /// Only metadata changed.
    ModifyMeta,
    /// An entry was renamed.
    Rename,
    /// An entry was removed.
    Remove,
    /// Anything else the OS reports.
    Other,
}

/// Relevance of an event kind: only a creation or a data modification can
/// trigger further processing.
pub open spec fn spec_relevant(kind: EventKind) -> bool {
    kind == EventKind::Create || kind == EventKind::ModifyData
}

/// Decides relevance of an event kind.
pub fn relevant(kind: EventKind) -> (r: bool)
    ensures
        r == spec_relevant(kind),
{
    match kind {
        EventKind::Create => true,
        EventKind::ModifyData => true,
        _ => false,
    }
}

/// An OS-level notification as delivered: its kind and the paths it names.
/// Transient; never persisted.
pub struct RawEvent {
    pub kind: EventKind,
    pub paths: Vec<TrackedPath>,
}

/// What one look at a path found: whether it resolved to a regular file,
/// and its text if it could be read. `None` stands for a file that vanished
/// or could not be read; such paths are skipped, never errors.
pub struct PathObservation {
    pub path: TrackedPath,
    pub is_file: bool,
    pub content: Option<String>,
}

/// An observation is eligible when its path passes every exclusion rule and
/// resolved to a regular file.
pub open spec fn spec_eligible(obs: PathObservation) -> bool {
    path_eligible(obs.path@, obs.is_file)
}

/// A notification together with the observations of the paths it names,
/// ready for change detection.
pub struct ObservedEvent {
    pub kind: EventKind,
    pub observations: Vec<PathObservation>,
}

} // verus!
