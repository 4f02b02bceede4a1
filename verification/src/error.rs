//! The failure taxonomy of the wallpaper operations.

use vstd::prelude::*;
use vstd::string::StringExecFns;

verus! {

/// Everything a wallpaper operation can report instead of succeeding.
#[derive(Debug, Clone, Copy, PartialEq, Eq, Structural)]
pub enum WallpaperError {
    /// The shell service could not be activated; the whole invocation is
    /// over.
    ServiceUnavailable,
    /// A single service call failed; the operation it belonged to is
    /// abandoned whole, never half-reported.
    ServiceError,
    /// The recorded wallpaper path does not name an existing regular file,
    /// or the read itself failed: the two are deliberately reported alike.
    NotFound,
    /// The wallpaper path was assigned but the display mode was not; there
    /// is no rollback, so the desktop now shows the new image under the old
    /// mode and the user must be told so.
    PartialFailure,
}

impl WallpaperError {
    /// The diagnostic line for this error.
    pub open spec fn spec_message(self) -> Seq<char> {
        match self {
            WallpaperError::ServiceUnavailable => "Failed to connect to the desktop wallpaper service"@,
            WallpaperError::ServiceError => "The desktop wallpaper service call failed"@,
            WallpaperError::NotFound => "Failed to get the desktop wallpaper"@,
            WallpaperError::PartialFailure => "The wallpaper was changed but the display mode was not"@,
        }
    }

    /// A short diagnostic line for the error stream.
    pub fn message(&self) -> (s: String)
        ensures
            s@ == self.spec_message(),
    {
        match self {
            WallpaperError::ServiceUnavailable => String::from_str("Failed to connect to the desktop wallpaper service"),
            WallpaperError::ServiceError => String::from_str("The desktop wallpaper service call failed"),
            WallpaperError::NotFound => String::from_str("Failed to get the desktop wallpaper"),
            WallpaperError::PartialFailure => String::from_str("The wallpaper was changed but the display mode was not"),
        }
    }
}

} // verus!
