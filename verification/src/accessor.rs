//! The wallpaper accessor's decisions: what a read reports, and the
//! two-phase set operation with its explicit partial-failure state.

use vstd::prelude::*;
use crate::error::WallpaperError;

verus! {

/// The outcome of a wallpaper read. The service's reply is kept only when
/// it names an existing regular file at call time; a failed service call
/// and a stale recorded path are deliberately reported alike, as
/// `NotFound`, never as a stale path.
pub fn read_outcome(reported: Option<String>, is_regular_file: bool) -> (r: Result<
    String,
    WallpaperError,
>)
    ensures
        match r {
            Ok(p) => reported matches Some(q) && p == q && is_regular_file,
            Err(e) => e == WallpaperError::NotFound && !(reported is Some && is_regular_file),
        },
{
    match reported {
        Some(p) => if is_regular_file {
            Ok(p)
        } else {
            Err(WallpaperError::NotFound)
        },
        None => Err(WallpaperError::NotFound),
    }
}

/// The two service calls one set operation makes, in this order.
#[derive(Debug, Clone, Copy, PartialEq, Eq, Structural)]
pub enum SetCall {
    /// Assign the wallpaper path to the chosen monitor's device path.
    AssignPath,
    /// Set the global display mode.
    ApplyMode,
}

/// Progress of the two-phase set operation. The two calls are separate and
/// there is no rollback: when the first succeeds and the second fails, the
/// desktop already shows the new image under the old mode, and the
/// operation reports exactly that.
#[derive(Debug, Clone, Copy, PartialEq, Eq, Structural)]
pub enum SetProgress {
    /// Nothing done yet.
    Start,
    /// The wallpaper path is assigned; the mode call is still owed.
    PathAssigned,
    /// Both calls succeeded.
    Done,
    /// The operation is over without full success.
    Failed(WallpaperError),
}

/// The state after one call's outcome is known.
pub open spec fn spec_set_step(p: SetProgress, succeeded: bool) -> SetProgress {
    match p {
        SetProgress::Start => if succeeded {
            SetProgress::PathAssigned
        } else {
            SetProgress::Failed(WallpaperError::ServiceError)
        },
        SetProgress::PathAssigned => if succeeded {
            SetProgress::Done
        } else {
            SetProgress::Failed(WallpaperError::PartialFailure)
        },
        _ => p,
    }
}

impl SetProgress {
    /// The service call to make next; `None` once the operation is over.
    pub fn next_call(&self) -> (c: Option<SetCall>)
        ensures
            match *self {
                SetProgress::Start => c == Some(SetCall::AssignPath),
                SetProgress::PathAssigned => c == Some(SetCall::ApplyMode),
                _ => c is None,
            },
    {
        match self {
            SetProgress::Start => Some(SetCall::AssignPath),
            SetProgress::PathAssigned => Some(SetCall::ApplyMode),
            _ => None,
        }
    }

    /// Advances the operation by whether the call just made succeeded.
    pub fn step(self, succeeded: bool) -> (next: SetProgress)
        requires
            self is Start || self is PathAssigned,
        ensures
            next == spec_set_step(self, succeeded),
    {
        match self {
            SetProgress::Start => if succeeded {
                SetProgress::PathAssigned
            } else {
                SetProgress::Failed(WallpaperError::ServiceError)
            },
            _ => if succeeded {
                SetProgress::Done
            } else {
                SetProgress::Failed(WallpaperError::PartialFailure)
            },
        }
    }

    /// The operation's result once no call is left.
    pub fn outcome(self) -> (r: Result<(), WallpaperError>)
        requires
            self is Done || self is Failed,
        ensures
            self is Done ==> r == Ok::<(), WallpaperError>(()),
            self matches SetProgress::Failed(e) ==> r == Err::<(), WallpaperError>(e),
    {
        match self {
            SetProgress::Failed(e) => Err(e),
            _ => Ok(()),
        }
    }
}

/// The final state of a set operation whose path assignment succeeds
/// exactly when `assign_ok`, and whose mode call, made only after a
/// successful assignment, succeeds exactly when `mode_ok`.
pub open spec fn set_run(assign_ok: bool, mode_ok: bool) -> SetProgress {
    if assign_ok {
        spec_set_step(spec_set_step(SetProgress::Start, true), mode_ok)
    } else {
        spec_set_step(SetProgress::Start, false)
    }
}

/// The two-phase law: a set operation succeeds exactly when both calls
/// succeed; a failed assignment is a plain service error with the desktop
/// untouched; and partial failure is reported exactly when the path went
/// on but the mode did not.
pub proof fn lemma_set_two_phase(assign_ok: bool, mode_ok: bool)
    ensures
        set_run(assign_ok, mode_ok) == SetProgress::Done <==> assign_ok && mode_ok,
        set_run(assign_ok, mode_ok) == SetProgress::Failed(WallpaperError::PartialFailure)
            <==> assign_ok && !mode_ok,
        !assign_ok ==> set_run(assign_ok, mode_ok) == SetProgress::Failed(
            WallpaperError::ServiceError,
        ),
{
}

} // verus!
