//! Turning raw inotify notifications on device nodes into camera events.
use vstd::prelude::*;
use crate::text::{has_prefix, starts_with};

verus! {

/// inotify's `IN_OPEN` bit: the file was opened.
pub const IN_OPEN: u32 = 0x20;

/// inotify's `IN_CLOSE_WRITE` bit: a file opened for writing was closed.
pub const IN_CLOSE_WRITE: u32 = 0x8;

/// inotify's `IN_CLOSE_NOWRITE` bit: a file not opened for writing was closed.
pub const IN_CLOSE_NOWRITE: u32 = 0x10;

/// The directory that holds the device nodes.
pub const DEVICE_DIR: &'static str = "/dev";

/// Camera device nodes are the names that begin with this.
pub const VIDEO_PREFIX: &'static str = "video";

/// What happened to a camera device.
#[derive(Clone, Copy, Debug, PartialEq, Eq, Structural)]
pub enum ActivityKind {
    Opened,
    Closed,
}

/// A camera device that was opened or closed.
#[derive(Clone, Debug)]
pub struct ActivityEvent {
    pub name: String,
    pub kind: ActivityKind,
}

/// Every bit set in `inner` is also set in `outer`.
pub open spec fn mask_within(outer: u32, inner: u32) -> bool {
    inner & outer == inner
}

/// The kind of event that a notification mask stands for: a mask made of the
/// open bit alone is an open, one made of close bits alone is a close (with or
/// without a prior write), anything else is none of ours.
pub open spec fn kind_of(mask: u32) -> Option<ActivityKind> {
    if mask_within(IN_OPEN, mask) {
        Some(ActivityKind::Opened)
    } else if mask_within(IN_CLOSE_WRITE | IN_CLOSE_NOWRITE, mask) {
        Some(ActivityKind::Closed)
    } else {
        None
    }
}

/// A device name that stands for a camera.
pub open spec fn is_camera_name(name: Seq<char>) -> bool {
    has_prefix(name, VIDEO_PREFIX@)
}

/// The event kind of a notification mask, if it is one this daemon follows.
pub fn kind_of_mask(mask: u32) -> (r: Option<ActivityKind>)
    ensures
        r == kind_of(mask),
{
    if mask & IN_OPEN == mask {
        Some(ActivityKind::Opened)
    } else if mask & (IN_CLOSE_WRITE | IN_CLOSE_NOWRITE) == mask {
        Some(ActivityKind::Closed)
    } else {
        None
    }
}

/// Turns a notification on the device directory into a camera event: the entry
/// must carry a name that begins with the camera prefix and a mask of an open or
/// a close. Everything else is dropped.
pub fn classify(name: Option<&str>, mask: u32) -> (r: Option<ActivityEvent>)
    ensures
        match name {
            None => r is None,
            Some(n) => {
                if is_camera_name(n@) && kind_of(mask) is Some {
                    &&& r is Some
                    &&& r->0.name@ == n@
                    &&& r->0.kind == kind_of(mask)->0
                } else {
                    r is None
                }
            },
        },
{
    match name {
        None => None,
        Some(n) => {
            if !starts_with(n, VIDEO_PREFIX) {
                return None;
            }
            match kind_of_mask(mask) {
                None => None,
                Some(kind) => Some(ActivityEvent { name: n.to_owned(), kind }),
            }
        },
    }
}

} // verus!
