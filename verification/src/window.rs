//! Window placement and classification: centering on a monitor work area
//! and recognising shell windows that must never be moved.

use vstd::prelude::*;

use crate::geometry::{in_i32, min_int, Rect};

verus! {

/// The size a window takes when centered: each dimension is clipped to the
/// work area's.
pub open spec fn centered_size(window: Rect, work: Rect) -> (int, int) {
    (min_int(window.width(), work.width()), min_int(window.height(), work.height()))
}

/// Left/top edge of a centered span: `start + (available - size) / 2`.
pub open spec fn centered_start(start: int, available: int, size: int) -> int {
    start + (available - size) / 2
}

/// Every intermediate value of the centering computation fits in an `i32`.
pub open spec fn centering_fits(window: Rect, work: Rect) -> bool {
    let (w, h) = centered_size(window, work);
    &&& window.has_i32_extent()
    &&& work.has_i32_extent()
    &&& in_i32(work.width() - w)
    &&& in_i32(work.height() - h)
    &&& in_i32(centered_start(work.left as int, work.width(), w))
    &&& in_i32(centered_start(work.top as int, work.height(), h))
    &&& in_i32(centered_start(work.left as int, work.width(), w) + w)
    &&& in_i32(centered_start(work.top as int, work.height(), h) + h)
}

/// The rectangle a window is moved to when centered on a work area.
pub open spec fn centered_rect(window: Rect, work: Rect) -> Rect {
    let (w, h) = centered_size(window, work);
    let left = centered_start(work.left as int, work.width(), w);
    let top = centered_start(work.top as int, work.height(), h);
    Rect { left: left as i32, top: top as i32, right: (left + w) as i32, bottom: (top + h) as i32 }
}

/// Centers `window_rect` inside `work_area`, shrinking each dimension that
/// exceeds the work area's to exactly the work area's.
pub fn calculate_centered_rect(window_rect: Rect, work_area: Rect) -> (r: Rect)
    requires
        centering_fits(window_rect, work_area),
    ensures
        r == centered_rect(window_rect, work_area),
        r.width() == min_int(window_rect.width(), work_area.width()),
        r.height() == min_int(window_rect.height(), work_area.height()),
        0 <= (work_area.right - r.right) - (r.left - work_area.left) <= 1,
        0 <= (work_area.bottom - r.bottom) - (r.top - work_area.top) <= 1,
{
    let win_w = window_rect.right - window_rect.left;
    let win_h = window_rect.bottom - window_rect.top;
    let work_w = work_area.right - work_area.left;
    let work_h = work_area.bottom - work_area.top;

    let new_w = if win_w > work_w { work_w } else { win_w };
    let new_h = if win_h > work_h { work_h } else { win_h };

    let new_left = work_area.left + (work_w - new_w) / 2;
    let new_top = work_area.top + (work_h - new_h) / 2;

    Rect { left: new_left, top: new_top, right: new_left + new_w, bottom: new_top + new_h }
}

/// Tests `centering_fits`: whether `calculate_centered_rect` can compute its
/// result without leaving the `i32` range.
pub fn can_center(window_rect: Rect, work_area: Rect) -> (b: bool)
    ensures
        b == centering_fits(window_rect, work_area),
{
    let win_w: i64 = window_rect.right as i64 - window_rect.left as i64;
    let win_h: i64 = window_rect.bottom as i64 - window_rect.top as i64;
    let work_w: i64 = work_area.right as i64 - work_area.left as i64;
    let work_h: i64 = work_area.bottom as i64 - work_area.top as i64;
    let min: i64 = i32::MIN as i64;
    let max: i64 = i32::MAX as i64;
    if !(min <= win_w && win_w <= max && min <= win_h && win_h <= max && min <= work_w && work_w
        <= max && min <= work_h && work_h <= max) {
        return false;
    }
    let w: i64 = if win_w <= work_w {
        win_w
    } else {
        work_w
    };
    let h: i64 = if win_h <= work_h {
        win_h
    } else {
        work_h
    };
    let left: i64 = work_area.left as i64 + (work_w - w) / 2;
    let top: i64 = work_area.top as i64 + (work_h - h) / 2;
    min <= work_w - w && work_w - w <= max && min <= work_h - h && work_h - h <= max && min
        <= left && left <= max && min <= top && top <= max && min <= left + w && left + w <= max
        && min <= top + h && top + h <= max
}

/// Centering keeps the clipped size and, for a work area of non-negative
/// size, places the window entirely inside it.
pub proof fn lemma_centered_rect_inside_work_area(window: Rect, work: Rect)
    requires
        centering_fits(window, work),
        work.width() >= 0,
        work.height() >= 0,
    ensures
        work.contains_rect(centered_rect(window, work)),
        centered_rect(window, work).width() == min_int(window.width(), work.width()),
        centered_rect(window, work).height() == min_int(window.height(), work.height()),
{
}

/// Centering leaves equal margins on opposite sides of the work area, up to
/// one pixel of rounding that goes to the right and bottom margins, wherever
/// the work area lies (on a monitor left of or above the primary one too),
/// and keeps the window's size where it fits.
pub proof fn lemma_centered_rect_has_equal_margins(window: Rect, work: Rect)
    requires
        centering_fits(window, work),
    ensures
        ({
            let r = centered_rect(window, work);
            &&& 0 <= (work.right - r.right) - (r.left - work.left) <= 1
            &&& 0 <= (work.bottom - r.bottom) - (r.top - work.top) <= 1
            &&& r.width() == min_int(window.width(), work.width())
            &&& r.height() == min_int(window.height(), work.height())
            &&& window.width() <= work.width() ==> r.width() == window.width()
            &&& window.height() <= work.height() ==> r.height() == window.height()
        }),
{
}

/// Centering an already centered window changes nothing.
pub proof fn lemma_centered_rect_idempotent(window: Rect, work: Rect)
    requires
        centering_fits(window, work),
    ensures
        centering_fits(centered_rect(window, work), work),
        centered_rect(centered_rect(window, work), work) == centered_rect(window, work),
{
}

/// Where a window goes when centered, and whether that changes its size.
#[derive(Debug, Clone, Copy, PartialEq, Eq, Structural)]
pub struct CenterPlan {
    /// The centered rectangle.
    pub rect: Rect,
    /// The centered rectangle is narrower or shorter than the window.
    pub size_changed: bool,
}

/// Plans centering a window at `window_rect` on `work_area`.
pub fn plan_centering(window_rect: Rect, work_area: Rect) -> (p: CenterPlan)
    requires
        centering_fits(window_rect, work_area),
    ensures
        p.rect == centered_rect(window_rect, work_area),
        p.size_changed == (p.rect.width() != window_rect.width() || p.rect.height()
            != window_rect.height()),
{
    let rect = calculate_centered_rect(window_rect, work_area);
    let new_w = rect.right - rect.left;
    let new_h = rect.bottom - rect.top;
    let old_w = window_rect.right - window_rect.left;
    let old_h = window_rect.bottom - window_rect.top;
    CenterPlan { rect, size_changed: new_w != old_w || new_h != old_h }
}

/// Why a window is recognised as part of the Windows shell.
#[derive(Debug, Clone, Copy, PartialEq, Eq, Structural)]
pub enum ExclusionReason {
    /// Its process is one of the shell's own hosts.
    Process,
    /// Its window class is one of the taskbar/desktop/menu classes.
    Class,
    /// An Explorer-hosted modern UI container.
    ExplorerUi,
}

/// What `str::to_lowercase` returns for a string (its full Unicode
/// lowercase mapping).
pub uninterp spec fn spec_to_lowercase(s: Seq<char>) -> Seq<char>;

/// Calls `str::to_lowercase`. The contract says that the result is the
/// lowercase mapping of the argument, and nothing about what that mapping is.
#[verifier::external_body]
fn to_lowercase(s: &str) -> (r: String)
    ensures
        r@ == spec_to_lowercase(s@),
{
    s.to_lowercase()
}

/// Lowercase process names of shell hosts.
pub open spec fn is_excluded_process(p: Seq<char>) -> bool {
    p == "startmenuexperiencehost.exe"@ || p == "searchhost.exe"@ || p
        == "shellexperiencehost.exe"@
}

/// Lowercase window classes of the taskbar, tray, desktop and start menus.
pub open spec fn is_excluded_class(c: Seq<char>) -> bool {
    ||| c == "shell_traywnd"@
    ||| c == "shell_secondarytraywnd"@
    ||| c == "traynotifywnd"@
    ||| c == "notifyiconoverflowwindow"@
    ||| c == "trayclockwclass"@
    ||| c == "clockflyoutwindow"@
    ||| c == "controlcenterwindow"@
    ||| c == "shell_lightdismissoverlay"@
    ||| c == "progman"@
    ||| c == "workerw"@
    ||| c == "classicshell.cmenucontainer"@
    ||| c == "openshell.cmenucontainer"@
    ||| c == "dv2controlhost"@
    ||| c == "xamlexplorerhostislandwindow"@
}

/// Explorer's modern UI containers (lowercase class and process names).
pub open spec fn is_explorer_ui(c: Seq<char>, p: Seq<char>) -> bool {
    p == "explorer.exe"@ && (c == "windows.ui.core.corewindow"@ || c == "nativehwndhost"@)
}

/// The exclusion rule on lowercase class and process names: processes are
/// checked first, then classes, then Explorer containers.
pub open spec fn exclusion_of(c: Seq<char>, p: Seq<char>) -> Option<ExclusionReason> {
    if is_excluded_process(p) {
        Some(ExclusionReason::Process)
    } else if is_excluded_class(c) {
        Some(ExclusionReason::Class)
    } else if is_explorer_ui(c, p) {
        Some(ExclusionReason::ExplorerUi)
    } else {
        None
    }
}

/// The shell-exclusion rule spelled out on lowercase names: a window of the
/// Start menu, search or shell-experience host process
/// (`startmenuexperiencehost.exe`, `searchhost.exe`,
/// `shellexperiencehost.exe`) is excluded for its process whatever its
/// class; a window of any other process is excluded for its class exactly
/// when the class is one of the taskbar, tray, clock, desktop and Start-menu
/// classes; an Explorer window of class `windows.ui.core.corewindow` or
/// `nativehwndhost` is an Explorer UI container; every other window can be
/// moved.
pub proof fn lemma_shell_windows_are_recognised(c: Seq<char>, p: Seq<char>)
    ensures
        (p == "startmenuexperiencehost.exe"@ || p == "searchhost.exe"@ || p
            == "shellexperiencehost.exe"@) <==> exclusion_of(c, p) == Some(
            ExclusionReason::Process,
        ),
        exclusion_of(c, p) == Some(ExclusionReason::Class) <==> {
            &&& p != "startmenuexperiencehost.exe"@
            &&& p != "searchhost.exe"@
            &&& p != "shellexperiencehost.exe"@
            &&& {
                ||| c == "shell_traywnd"@
                ||| c == "shell_secondarytraywnd"@
                ||| c == "traynotifywnd"@
                ||| c == "notifyiconoverflowwindow"@
                ||| c == "trayclockwclass"@
                ||| c == "clockflyoutwindow"@
                ||| c == "controlcenterwindow"@
                ||| c == "shell_lightdismissoverlay"@
                ||| c == "progman"@
                ||| c == "workerw"@
                ||| c == "classicshell.cmenucontainer"@
                ||| c == "openshell.cmenucontainer"@
                ||| c == "dv2controlhost"@
                ||| c == "xamlexplorerhostislandwindow"@
            }
        },
        exclusion_of(c, p) == Some(ExclusionReason::ExplorerUi) <==> {
            &&& p == "explorer.exe"@
            &&& (c == "windows.ui.core.corewindow"@ || c == "nativehwndhost"@)
        },
{
    reveal_strlit("explorer.exe");
    reveal_strlit("startmenuexperiencehost.exe");
    reveal_strlit("searchhost.exe");
    reveal_strlit("shellexperiencehost.exe");
    reveal_strlit("windows.ui.core.corewindow");
    reveal_strlit("nativehwndhost");
    reveal_strlit("shell_traywnd");
    reveal_strlit("shell_secondarytraywnd");
    reveal_strlit("traynotifywnd");
    reveal_strlit("notifyiconoverflowwindow");
    reveal_strlit("trayclockwclass");
    reveal_strlit("clockflyoutwindow");
    reveal_strlit("controlcenterwindow");
    reveal_strlit("shell_lightdismissoverlay");
    reveal_strlit("progman");
    reveal_strlit("workerw");
    reveal_strlit("classicshell.cmenucontainer");
    reveal_strlit("openshell.cmenucontainer");
    reveal_strlit("dv2controlhost");
    reveal_strlit("xamlexplorerhostislandwindow");
    assert("explorer.exe"@.len() == 12);
    assert("startmenuexperiencehost.exe"@.len() == 27);
    assert("searchhost.exe"@.len() == 14);
    assert("shellexperiencehost.exe"@.len() == 23);
    assert("windows.ui.core.corewindow"@.len() == 26);
    assert("nativehwndhost"@.len() == 14);
    assert("shell_traywnd"@.len() == 13);
    assert("shell_secondarytraywnd"@.len() == 22);
    assert("traynotifywnd"@.len() == 13);
    assert("notifyiconoverflowwindow"@.len() == 24);
    assert("trayclockwclass"@.len() == 15);
    assert("clockflyoutwindow"@.len() == 17);
    assert("controlcenterwindow"@.len() == 19);
    assert("shell_lightdismissoverlay"@.len() == 25);
    assert("progman"@.len() == 7);
    assert("workerw"@.len() == 7);
    assert("classicshell.cmenucontainer"@.len() == 27);
    assert("openshell.cmenucontainer"@.len() == 24);
    assert("dv2controlhost"@.len() == 14);
    assert("xamlexplorerhostislandwindow"@.len() == 28);
    assert("nativehwndhost"@[0] != "dv2controlhost"@[0]);
}

/// Whether `s` spells exactly `lit`.
fn equals_literal(s: &String, lit: &str) -> (b: bool)
    ensures
        b == (s@ == lit@),
{
    let t = String::from_str(lit);
    s.eq(&t)
}

/// Applies the shell-exclusion rule to already lowercased class and process
/// names.
pub fn exclusion_reason(class_lower: &String, process_lower: &String) -> (r: Option<
    ExclusionReason,
>)
    ensures
        r == exclusion_of(class_lower@, process_lower@),
        process_lower@ == "startmenuexperiencehost.exe"@ || process_lower@ == "searchhost.exe"@
            || process_lower@ == "shellexperiencehost.exe"@ ==> r == Some(
            ExclusionReason::Process,
        ),
{
    let p = process_lower;
    if equals_literal(p, "startmenuexperiencehost.exe") || equals_literal(p, "searchhost.exe")
        || equals_literal(p, "shellexperiencehost.exe") {
        return Some(ExclusionReason::Process);
    }
    let c = class_lower;
    if equals_literal(c, "shell_traywnd") || equals_literal(c, "shell_secondarytraywnd")
        || equals_literal(c, "traynotifywnd") || equals_literal(c, "notifyiconoverflowwindow")
        || equals_literal(c, "trayclockwclass") || equals_literal(c, "clockflyoutwindow")
        || equals_literal(c, "controlcenterwindow") || equals_literal(
        c,
        "shell_lightdismissoverlay",
    ) || equals_literal(c, "progman") || equals_literal(c, "workerw") || equals_literal(
        c,
        "classicshell.cmenucontainer",
    ) || equals_literal(c, "openshell.cmenucontainer") || equals_literal(c, "dv2controlhost")
        || equals_literal(c, "xamlexplorerhostislandwindow") {
        return Some(ExclusionReason::Class);
    }
    if equals_literal(p, "explorer.exe") && (equals_literal(c, "windows.ui.core.corewindow")
        || equals_literal(c, "nativehwndhost")) {
        return Some(ExclusionReason::ExplorerUi);
    }
    None
}

/// Decides whether a window with this class name and owning process image
/// name is part of the Windows shell (taskbar, Start menu, desktop...) and
/// must not be moved. Names are compared case-insensitively, through their
/// lowercase mapping. A window whose class name could not be read is never
/// excluded; an unknown process name counts as empty.
pub fn classify_window(class_name: Option<&str>, process_name: Option<&str>) -> (r: Option<
    ExclusionReason,
>)
    ensures
        r == match class_name {
            None => None,
            Some(c) => exclusion_of(
                spec_to_lowercase(c@),
                spec_to_lowercase(
                    match process_name {
                        Some(p) => p@,
                        None => Seq::<char>::empty(),
                    },
                ),
            ),
        },
{
    match class_name {
        None => None,
        Some(c) => {
            let class_lower = to_lowercase(c);
            let process_lower = match process_name {
                Some(p) => to_lowercase(p),
                None => {
                    let empty = "";
                    proof {
                        reveal_strlit("");
                    }
                    assert(empty@ == Seq::<char>::empty());
                    to_lowercase(empty)
                },
            };
            exclusion_reason(&class_lower, &process_lower)
        },
    }
}

/// The next window when climbing from `current` towards the root window:
/// `candidate` (a parent or owner handle, 0 when there is none) is taken
/// when it is a real window other than `current`.
pub fn climb_step(current: usize, candidate: usize) -> (next: Option<usize>)
    ensures
        next == if candidate != 0 && candidate != current {
            Some(candidate)
        } else {
            None
        },
{
    if candidate != 0 && candidate != current {
        Some(candidate)
    } else {
        None
    }
}

/// `ERROR_ACCESS_DENIED`, the Win32 error a lower-integrity process gets
/// when it queries a higher-integrity one.
pub const ERROR_ACCESS_DENIED: u32 = 5;

/// `ERROR_ACCESS_DENIED` as an `HRESULT` (`HRESULT_FROM_WIN32`), the form
/// in which failed Win32 calls report it.
pub const E_ACCESS_DENIED_HRESULT: u32 = 0x8007_0005;

/// Whether a failed process or token query means the target process is
/// elevated: the failure is "access denied", given either as the Win32
/// error code or as its `HRESULT`.
pub fn access_denied_means_elevated(error_code: i32) -> (b: bool)
    ensures
        b == (error_code as u32 == ERROR_ACCESS_DENIED || error_code as u32
            == E_ACCESS_DENIED_HRESULT),
{
    let code = error_code as u32;
    code == ERROR_ACCESS_DENIED || code == E_ACCESS_DENIED_HRESULT
}

} // verus!
