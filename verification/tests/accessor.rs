use wallpaper::accessor::read_outcome;
use wallpaper::accessor::SetCall;
use wallpaper::accessor::SetProgress;
use wallpaper::error::WallpaperError;
use wallpaper::position::DesktopWallpaperPosition;
use wallpaper::wide::encode_wide_nul;

#[test]
fn a_valid_wallpaper_path_is_returned_as_is() {
    let r = read_outcome(Some("/pics/a.jpg".to_string()), true);
    assert_eq!(r, Ok("/pics/a.jpg".to_string()));
}

#[test]
fn a_stale_recorded_path_reports_not_found() {
    let r = read_outcome(Some("C:\\missing.jpg".to_string()), false);
    assert_eq!(r, Err(WallpaperError::NotFound));
    assert_eq!(
        WallpaperError::NotFound.message(),
        "Failed to get the desktop wallpaper"
    );
}

#[test]
fn a_failed_read_reports_not_found_too() {
    assert_eq!(read_outcome(None, false), Err(WallpaperError::NotFound));
    assert_eq!(read_outcome(None, true), Err(WallpaperError::NotFound));
}

fn drive(assign_ok: bool, mode_ok: bool) -> (Vec<SetCall>, Result<(), WallpaperError>) {
    let mut made = Vec::new();
    let mut progress = SetProgress::Start;
    while let Some(call) = progress.next_call() {
        made.push(call);
        let succeeded = match call {
            SetCall::AssignPath => assign_ok,
            SetCall::ApplyMode => mode_ok,
        };
        progress = progress.step(succeeded);
    }
    (made, progress.outcome())
}

#[test]
fn set_assigns_the_path_then_the_global_mode() {
    let (calls, result) = drive(true, true);
    assert_eq!(calls, vec![SetCall::AssignPath, SetCall::ApplyMode]);
    assert_eq!(result, Ok(()));
}

#[test]
fn a_failed_assignment_is_a_service_error_and_stops_there() {
    let (calls, result) = drive(false, true);
    assert_eq!(calls, vec![SetCall::AssignPath]);
    assert_eq!(result, Err(WallpaperError::ServiceError));
}

#[test]
fn a_failed_mode_call_is_a_partial_failure() {
    let (calls, result) = drive(true, false);
    assert_eq!(calls, vec![SetCall::AssignPath, SetCall::ApplyMode]);
    assert_eq!(result, Err(WallpaperError::PartialFailure));
    assert_eq!(
        WallpaperError::PartialFailure.message(),
        "The wallpaper was changed but the display mode was not"
    );
}

#[test]
fn set_scenario_fill_on_the_second_monitor() {
    let path = "C:\\Users\\me\\pic.png";
    let wide = encode_wide_nul(path).unwrap();
    assert_eq!(*wide.last().unwrap(), 0u16);
    assert_eq!(wide.len(), path.chars().count() + 1);
    assert_eq!(DesktopWallpaperPosition::Fill.code(), 4);
    let (calls, result) = drive(true, true);
    assert_eq!(calls, vec![SetCall::AssignPath, SetCall::ApplyMode]);
    assert_eq!(result, Ok(()));
}

#[test]
fn every_error_has_its_own_message() {
    assert_eq!(
        WallpaperError::ServiceUnavailable.message(),
        "Failed to connect to the desktop wallpaper service"
    );
    assert_eq!(
        WallpaperError::ServiceError.message(),
        "The desktop wallpaper service call failed"
    );
}
