//! The monitor directory: the snapshot of monitors the service reports,
//! assembled from raw wide-text replies, and the bounds-checked selection
//! of one monitor from it.

use vstd::prelude::*;
use vstd::string::StringExecFns;
use crate::decimal::{decimal_of, push_decimal};
use crate::error::WallpaperError;
use crate::wide::chars_of_wide;

verus! {

/// One monitor as enumerated: the service-assigned device path and the
/// wallpaper path the service recorded for it. An immutable snapshot: a
/// later set does not refresh it, callers re-enumerate for fresh state.
#[derive(Debug, PartialEq, Eq)]
pub struct Monitor {
    /// Opaque, session-scoped device path; the handle every per-monitor
    /// service call takes.
    pub monitor_index: String,
    /// The wallpaper path the service reported at enumeration time; the
    /// file it names may no longer exist.
    pub wallpaper: String,
}

/// Builds the monitor directory from the raw enumeration replies: for each
/// monitor, its device path and its recorded wallpaper path as the service's
/// wide text, in service order. The order is kept; if any single reply is
/// malformed the whole enumeration fails, no partial list comes back.
pub fn monitors_from_wide(raw: &Vec<(Vec<u16>, Vec<u16>)>) -> (r: Result<
    Vec<Monitor>,
    WallpaperError,
>)
    ensures
        match r {
            Ok(ms) => {
                &&& ms@.len() == raw@.len()
                &&& forall|k: int|
                    0 <= k < raw@.len() ==> chars_of_wide(raw@[k].0@) == Some(
                        ms@[k].monitor_index@,
                    )
                &&& forall|k: int|
                    0 <= k < raw@.len() ==> chars_of_wide(raw@[k].1@) == Some(ms@[k].wallpaper@)
            },
            Err(e) => {
                &&& e == WallpaperError::ServiceError
                &&& exists|k: int|
                    0 <= k < raw@.len() && (chars_of_wide(raw@[k].0@) is None || chars_of_wide(
                        raw@[k].1@,
                    ) is None)
            },
        },
{
    let mut monitors: Vec<Monitor> = Vec::new();
    let mut i: usize = 0;
    while i < raw.len()
        invariant
            i <= raw@.len(),
            monitors@.len() == i,
            forall|k: int|
                0 <= k < i ==> chars_of_wide(raw@[k].0@) == Some(monitors@[k].monitor_index@),
            forall|k: int| 0 <= k < i ==> chars_of_wide(raw@[k].1@) == Some(monitors@[k].wallpaper@),
        decreases raw@.len() - i,
    {
        let id = match crate::wide::decode_wide(&raw[i].0) {
            Some(s) => s,
            None => {
                return Err(WallpaperError::ServiceError);
            },
        };
        let paper = match crate::wide::decode_wide(&raw[i].1) {
            Some(s) => s,
            None => {
                return Err(WallpaperError::ServiceError);
            },
        };
        monitors.push(Monitor { monitor_index: id, wallpaper: paper });
        i = i + 1;
    }
    Ok(monitors)
}

/// The error text when `choice` names no monitor: the valid range is
/// spelled out, `0` to `count - 1`.
pub open spec fn range_error_message(choice: int, count: int) -> Seq<char>
    recommends
        count >= 1,
{
    "The available monitors are from 0 to "@ + decimal_of(count - 1) + " but "@ + decimal_of(
        choice,
    ) + " was given"@
}

/// The monitor the user chose, when the choice lies within `0..count`; the
/// descriptive error naming the valid range otherwise. Selection never
/// reads past the end of the directory.
pub fn select_monitor<'a>(monitors: &'a Vec<Monitor>, choice: usize) -> (r: Result<
    &'a Monitor,
    String,
>)
    requires
        monitors@.len() >= 1,
    ensures
        match r {
            Ok(m) => choice < monitors@.len() && *m == monitors@[choice as int],
            Err(msg) => choice >= monitors@.len() && msg@ == range_error_message(
                choice as int,
                monitors@.len() as int,
            ),
        },
{
    if choice < monitors.len() {
        Ok(&monitors[choice])
    } else {
        let mut msg = String::from_str("The available monitors are from 0 to ");
        push_decimal(&mut msg, monitors.len() - 1);
        msg.append(" but ");
        push_decimal(&mut msg, choice);
        msg.append(" was given");
        Err(msg)
    }
}

} // verus!
