use win_glide::geometry::Rect;
use win_glide::window::{
    access_denied_means_elevated, calculate_centered_rect, classify_window, climb_step,
    exclusion_reason, plan_centering, ExclusionReason,
};

fn rect(left: i32, top: i32, right: i32, bottom: i32) -> Rect {
    Rect { left, top, right, bottom }
}

#[test]
fn test_calculate_centered_rect() {
    // Normal sizing: fits in work area
    let window_rect = rect(100, 100, 300, 200); // 200x100
    let work_area = rect(0, 0, 1000, 1000);
    let result = calculate_centered_rect(window_rect, work_area);
    assert_eq!(result.left, 400);
    assert_eq!(result.top, 450);
    assert_eq!(result.right - result.left, 200);
    assert_eq!(result.bottom - result.top, 100);

    // Oversized sizing: too large for work area (width and height shrunk)
    let window_rect_large = rect(100, 100, 1200, 1200); // 1100x1100
    let result_large = calculate_centered_rect(window_rect_large, work_area);
    assert_eq!(result_large.left, 0);
    assert_eq!(result_large.top, 0);
    assert_eq!(result_large.right, 1000);
    assert_eq!(result_large.bottom, 1000);

    // Oversized width, fitting height
    let window_rect_wide = rect(100, 100, 1500, 500); // 1400x400
    let result_wide = calculate_centered_rect(window_rect_wide, work_area);
    assert_eq!(result_wide.left, 0);
    assert_eq!(result_wide.top, 300);
    assert_eq!(result_wide.right, 1000);
    assert_eq!(result_wide.bottom, 700);
}

#[test]
fn centering_uses_the_work_area_offset_and_rounds_down() {
    // Work area starting below a top taskbar, odd slack on both axes.
    let work = rect(0, 40, 1920, 1080);
    let r = calculate_centered_rect(rect(-50, -50, 951, 450), work);
    assert_eq!(r, rect(459, 310, 1460, 810));
}

#[test]
fn centering_twice_changes_nothing() {
    let work = rect(-1280, 0, 0, 1024);
    let once = calculate_centered_rect(rect(10, 10, 2000, 300), work);
    let twice = calculate_centered_rect(once, work);
    assert_eq!(once, twice);
    assert!(work.left <= once.left && once.right <= work.right);
    assert!(work.top <= once.top && once.bottom <= work.bottom);
}

#[test]
fn plan_centering_reports_size_changes() {
    let work = rect(0, 0, 1000, 1000);
    let same = plan_centering(rect(100, 100, 300, 200), work);
    assert!(!same.size_changed);
    assert_eq!(same.rect, rect(400, 450, 600, 550));
    let shrunk = plan_centering(rect(100, 100, 1500, 500), work);
    assert!(shrunk.size_changed);
    assert_eq!(shrunk.rect, rect(0, 300, 1000, 700));
}

#[test]
fn shell_windows_are_recognised_case_insensitively() {
    assert_eq!(classify_window(Some("Shell_TrayWnd"), Some("explorer.exe")), Some(ExclusionReason::Class));
    assert_eq!(classify_window(Some("Progman"), None), Some(ExclusionReason::Class));
    assert_eq!(classify_window(Some("WorkerW"), Some("Explorer.EXE")), Some(ExclusionReason::Class));
    assert_eq!(
        classify_window(Some("Windows.UI.Core.CoreWindow"), Some("StartMenuExperienceHost.exe")),
        Some(ExclusionReason::Process)
    );
    assert_eq!(
        classify_window(Some("Windows.UI.Core.CoreWindow"), Some("EXPLORER.EXE")),
        Some(ExclusionReason::ExplorerUi)
    );
    assert_eq!(classify_window(Some("NativeHWNDHost"), Some("explorer.exe")), Some(ExclusionReason::ExplorerUi));
}

#[test]
fn ordinary_windows_are_not_excluded() {
    assert_eq!(classify_window(Some("Notepad"), Some("notepad.exe")), None);
    assert_eq!(classify_window(Some("NativeHWNDHost"), Some("notepad.exe")), None);
    assert_eq!(classify_window(Some("Windows.UI.Core.CoreWindow"), None), None);
    // Without a class name nothing is excluded, whatever the process.
    assert_eq!(classify_window(None, Some("searchhost.exe")), None);
}

#[test]
fn exclusion_on_lowercase_names_checks_process_first() {
    let c = String::from("shell_traywnd");
    let p = String::from("searchhost.exe");
    assert_eq!(exclusion_reason(&c, &p), Some(ExclusionReason::Process));
    // The rule itself does not lowercase.
    let upper = String::from("Shell_TrayWnd");
    let none = String::new();
    assert_eq!(exclusion_reason(&upper, &none), None);
}

#[test]
fn climbing_stops_at_null_or_self() {
    assert_eq!(climb_step(10, 20), Some(20));
    assert_eq!(climb_step(10, 0), None);
    assert_eq!(climb_step(10, 10), None);
}

#[test]
fn access_denied_marks_elevation_in_either_form() {
    assert!(access_denied_means_elevated(5));
    assert!(access_denied_means_elevated(0x8007_0005u32 as i32));
    assert!(!access_denied_means_elevated(2));
    assert!(!access_denied_means_elevated(0x8007_0002u32 as i32));
}
