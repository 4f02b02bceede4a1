//! A mathematical model of the shell service's observable state: the
//! ordered monitor records and the single global display mode. The service
//! itself is external; this model is what the library's laws are stated
//! and proved over.

use vstd::prelude::*;
use crate::position::DesktopWallpaperPosition;

verus! {

/// One monitor as the service records it.
pub struct MonitorRecord {
    /// The session-scoped device path the service assigned.
    pub id: Seq<char>,
    /// The wallpaper path the service stores for this monitor.
    pub path: Seq<char>,
}

/// The observable state of the shell service.
pub struct ShellState {
    /// The monitors, in the order the service reports them.
    pub monitors: Seq<MonitorRecord>,
    /// The one display mode, shared by every monitor.
    pub mode: DesktopWallpaperPosition,
}

impl ShellState {
    /// A service in a sane session: every device path is non-empty, and no
    /// two monitors share one.
    pub open spec fn wf(self) -> bool {
        &&& forall|i: int| 0 <= i < self.monitors.len() ==> self.monitors[i].id.len() > 0
        &&& forall|i: int, j: int|
            0 <= i < j < self.monitors.len() ==> self.monitors[i].id != self.monitors[j].id
    }

    /// What enumeration reports for monitor `i`.
    pub open spec fn reported(self, i: int) -> MonitorRecord
        recommends
            0 <= i < self.monitors.len(),
    {
        self.monitors[i]
    }

    /// The state after `SetWallpaperPath` on monitor `i`.
    pub open spec fn assign_path(self, i: int, p: Seq<char>) -> ShellState
        recommends
            0 <= i < self.monitors.len(),
    {
        ShellState {
            monitors: self.monitors.update(
                i,
                MonitorRecord { id: self.monitors[i].id, path: p },
            ),
            mode: self.mode,
        }
    }

    /// The state after `SetDisplayMode`.
    pub open spec fn apply_mode(self, m: DesktopWallpaperPosition) -> ShellState {
        ShellState { monitors: self.monitors, mode: m }
    }

    /// One whole set operation: the path assignment, then the global mode.
    pub open spec fn set_wallpaper(
        self,
        i: int,
        p: Seq<char>,
        m: DesktopWallpaperPosition,
    ) -> ShellState
        recommends
            0 <= i < self.monitors.len(),
    {
        self.assign_path(i, p).apply_mode(m)
    }
}

/// Identifiers are non-empty and stable within one invocation: enumeration
/// reads them off the state, and a set operation changes no identifier, no
/// count, and keeps the state sane.
pub proof fn lemma_identifiers_stable(
    s: ShellState,
    i: int,
    p: Seq<char>,
    m: DesktopWallpaperPosition,
)
    requires
        s.wf(),
        0 <= i < s.monitors.len(),
        p.len() > 0,
    ensures
        forall|k: int| 0 <= k < s.monitors.len() ==> s.reported(k).id.len() > 0,
        s.set_wallpaper(i, p, m).monitors.len() == s.monitors.len(),
        forall|k: int|
            0 <= k < s.monitors.len() ==> s.set_wallpaper(i, p, m).reported(k).id == s.reported(
                k,
            ).id,
        s.set_wallpaper(i, p, m).wf(),
{
}

/// The round trip: setting a wallpaper and re-enumerating reads back
/// exactly the path that was set.
pub proof fn lemma_set_then_get(s: ShellState, i: int, p: Seq<char>, m: DesktopWallpaperPosition)
    requires
        0 <= i < s.monitors.len(),
    ensures
        s.set_wallpaper(i, p, m).reported(i).path == p,
{
}

/// The display mode is global: a set operation through any one monitor
/// leaves the new mode observable beside every other monitor, while no
/// other monitor's wallpaper moves.
pub proof fn lemma_mode_is_global(
    s: ShellState,
    i: int,
    j: int,
    p: Seq<char>,
    m: DesktopWallpaperPosition,
)
    requires
        0 <= i < s.monitors.len(),
        0 <= j < s.monitors.len(),
    ensures
        s.set_wallpaper(i, p, m).mode == m,
        j != i ==> s.set_wallpaper(i, p, m).reported(j).path == s.reported(j).path,
{
}

} // verus!
