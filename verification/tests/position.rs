use wallpaper::position::DesktopWallpaperPosition;

#[test]
fn codes_match_the_service_table() {
    assert_eq!(DesktopWallpaperPosition::Center.code(), 0);
    assert_eq!(DesktopWallpaperPosition::Tile.code(), 1);
    assert_eq!(DesktopWallpaperPosition::Stretch.code(), 2);
    assert_eq!(DesktopWallpaperPosition::Fit.code(), 3);
    assert_eq!(DesktopWallpaperPosition::Fill.code(), 4);
    assert_eq!(DesktopWallpaperPosition::Span.code(), 5);
}

#[test]
fn from_code_inverts_code() {
    let modes = [
        DesktopWallpaperPosition::Center,
        DesktopWallpaperPosition::Tile,
        DesktopWallpaperPosition::Stretch,
        DesktopWallpaperPosition::Fit,
        DesktopWallpaperPosition::Fill,
        DesktopWallpaperPosition::Span,
    ];
    for m in modes {
        assert_eq!(DesktopWallpaperPosition::from_code(m.code()), Some(m));
    }
}

#[test]
fn from_code_rejects_unknown_codes() {
    assert_eq!(DesktopWallpaperPosition::from_code(-1), None);
    assert_eq!(DesktopWallpaperPosition::from_code(6), None);
    assert_eq!(DesktopWallpaperPosition::from_code(i32::MAX), None);
}
