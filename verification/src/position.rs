//! The display-mode enum and its mapping onto the shell service's native
//! display-mode codes.

use vstd::prelude::*;

verus! {

/// How the desktop wallpaper is scaled and positioned. The shell keeps a
/// single, global display mode shared by every monitor.
#[derive(Debug, Clone, Copy, PartialEq, Eq, Structural)]
pub enum DesktopWallpaperPosition {
    Center,
    Tile,
    Stretch,
    Fit,
    Fill,
    Span,
}

impl DesktopWallpaperPosition {
    /// The service's native code for this display mode.
    pub open spec fn spec_code(self) -> int {
        match self {
            DesktopWallpaperPosition::Center => 0,
            DesktopWallpaperPosition::Tile => 1,
            DesktopWallpaperPosition::Stretch => 2,
            DesktopWallpaperPosition::Fit => 3,
            DesktopWallpaperPosition::Fill => 4,
            DesktopWallpaperPosition::Span => 5,
        }
    }

    /// Total, exhaustive translation of the display mode into the code the
    /// service expects.
    pub fn code(self) -> (c: i32)
        ensures
            c == self.spec_code(),
            0 <= c < 6,
    {
        match self {
            DesktopWallpaperPosition::Center => 0,
            DesktopWallpaperPosition::Tile => 1,
            DesktopWallpaperPosition::Stretch => 2,
            DesktopWallpaperPosition::Fit => 3,
            DesktopWallpaperPosition::Fill => 4,
            DesktopWallpaperPosition::Span => 5,
        }
    }

    /// The display mode a service code stands for; `None` for a code the
    /// service never reports.
    pub fn from_code(c: i32) -> (m: Option<DesktopWallpaperPosition>)
        ensures
            m is Some <==> 0 <= c < 6,
            m matches Some(p) ==> p.spec_code() == c,
    {
        match c {
            0 => Some(DesktopWallpaperPosition::Center),
            1 => Some(DesktopWallpaperPosition::Tile),
            2 => Some(DesktopWallpaperPosition::Stretch),
            3 => Some(DesktopWallpaperPosition::Fit),
            4 => Some(DesktopWallpaperPosition::Fill),
            5 => Some(DesktopWallpaperPosition::Span),
            _ => None,
        }
    }
}

/// The code table is injective: distinct display modes carry distinct
/// service codes, so no mode can be mistaken for another on the wire.
pub proof fn lemma_code_injective(a: DesktopWallpaperPosition, b: DesktopWallpaperPosition)
    ensures
        a.spec_code() == b.spec_code() ==> a == b,
{
}

} // verus!
