//! Raw filesystem notifications, as the dispatcher receives them.

use crate::extension::PathExtension;
use vstd::prelude::*;

verus! {

/// One notification from the watch source. The first four kinds name one
/// affected path, of which the dispatcher reads the extension and nothing
/// else; the others carry no path to act on.
#[derive(Debug, Clone, PartialEq, Eq)]
pub enum RawEvent {
    /// A file or directory was created.
    Created(PathExtension),
    /// A file was written to.
    Modified(PathExtension),
    /// A file or directory was removed.
    Removed(PathExtension),
    /// A file or directory was renamed; the path is the new one.
    Renamed(PathExtension),
    /// A write was noticed and is still being debounced.
    NoticeWrite,
    /// A removal was noticed and is still being debounced.
    NoticeRemove,
    /// Permissions or other metadata changed.
    PermissionChange,
    /// The source lost track and rescans the tree.
    Rescan,
    /// The source reports an error of its own.
    WatchError,
}

impl RawEvent {
    /// The extension of the path to act on, if the event names one.
    pub open spec fn path(self) -> Option<PathExtension> {
        match self {
            RawEvent::Created(ext) => Some(ext),
            RawEvent::Modified(ext) => Some(ext),
            RawEvent::Removed(ext) => Some(ext),
            RawEvent::Renamed(ext) => Some(ext),
            _ => None,
        }
    }

    /// Whether the event is eligible to trigger a build.
    pub open spec fn is_actionable(self) -> bool {
        self.path() is Some
    }

    /// The extension of the path to act on, if the event names one.
    pub fn actionable_path(&self) -> (r: Option<&PathExtension>)
        ensures
            match r {
                Some(ext) => self.path() == Some(*ext),
                None => self.path() is None,
            },
    {
        match self {
            RawEvent::Created(ext) => Some(ext),
            RawEvent::Modified(ext) => Some(ext),
            RawEvent::Removed(ext) => Some(ext),
            RawEvent::Renamed(ext) => Some(ext),
            RawEvent::NoticeWrite => None,
            RawEvent::NoticeRemove => None,
            RawEvent::PermissionChange => None,
            RawEvent::Rescan => None,
            RawEvent::WatchError => None,
        }
    }
}

} // verus!
