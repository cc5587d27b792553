use vstd::prelude::*;
use crate::ui_ready::{UiReadyState, UiReadyStage, update_ui_ready_stage, ui_monitor_timeout_secs};

verus! {

/// Within this many milliseconds of a creation that is still marked as
/// running, another request to create the main window is ignored.
pub const WINDOW_CREATION_DEBOUNCE_MS: u64 = 2000;

/// Guards against building the main window twice at once: whether a creation
/// is running, and when (on the application's monotonic millisecond clock)
/// the mark was last set or cleared.
#[derive(Debug, Clone, Copy, PartialEq, Eq, Structural)]
pub struct WindowCreationLock {
    pub creating: bool,
    pub last_ms: u64,
}

impl WindowCreationLock {
    /// The lock as the application starts: no creation running.
    pub fn new(now_ms: u64) -> (l: Self)
        ensures
            !l.creating,
            l.last_ms == now_ms,
    {
        WindowCreationLock { creating: false, last_ms: now_ms }
    }
}

/// What the application found when it looked for the main window.
#[derive(Debug, Clone, Copy, PartialEq, Eq, Structural)]
pub enum ExistingWindow {
    /// The application handle is not available yet.
    NoAppHandle,
    /// There is a handle but no window labelled "main".
    NoMainWindow,
    /// The main window exists; `minimized` tells whether it is minimised.
    Main { minimized: bool },
}

/// How the main window is built. Sizes are in logical pixels.
#[derive(Debug, Clone, Copy, PartialEq, Eq)]
pub struct MainWindowSpec {
    /// The window's unique label.
    pub label: &'static str,
    pub title: &'static str,
    /// The page of the application that the window loads.
    pub page: &'static str,
    pub width: u32,
    pub height: u32,
    pub min_width: u32,
    pub min_height: u32,
    pub centered: bool,
    pub decorations: bool,
    pub fullscreen: bool,
    /// Shown at once, so that the user does not wait for the page.
    pub visible: bool,
}

/// The main window: labelled `main`, titled "Clash Verge", loading
/// `index.html`, 940 by 700 and at least 520 by 520, centred, decorated, not
/// full-screen, and visible at once.
pub open spec fn main_window() -> MainWindowSpec {
    MainWindowSpec {
        label: "main",
        title: "Clash Verge",
        page: "index.html",
        width: 940,
        height: 700,
        min_width: 520,
        min_height: 520,
        centered: true,
        decorations: true,
        fullscreen: false,
        visible: true,
    }
}

/// The description of the main window.
pub fn main_window_spec() -> (w: MainWindowSpec)
    ensures
        w == main_window(),
{
    MainWindowSpec {
        label: "main",
        title: "Clash Verge",
        page: "index.html",
        width: 940,
        height: 700,
        min_width: 520,
        min_height: 520,
        centered: true,
        decorations: true,
        fullscreen: false,
        visible: true,
    }
}

/// The first decision of a request to create or show the main window.
#[derive(Debug, Clone, Copy, PartialEq, Eq)]
pub enum WindowPlan {
    /// Silent start: switch to lightweight mode, announce that start-up is
    /// complete, and report that no window was shown.
    StayHidden,
    /// Bring the existing window forward (un-minimising it first when asked),
    /// focus it, and report success.
    ShowExisting { unminimize: bool },
    /// Another creation started less than the debounce interval ago:
    /// report failure and do nothing.
    Ignored,
    /// The creation mark is taken: build the window described by `window`,
    /// then call [`finish_window_creation`] whatever happens.
    Build { window: MainWindowSpec },
}

/// Milliseconds from `since` to `now`, zero when the clock reads earlier.
pub open spec fn elapsed_ms(since: u64, now: u64) -> int {
    if now >= since { now - since } else { 0 }
}

/// The decision of [`create_window`] and the creation lock it leaves.
pub open spec fn window_plan(
    is_show: bool,
    existing: ExistingWindow,
    lock: WindowCreationLock,
    now_ms: u64,
) -> (WindowPlan, WindowCreationLock) {
    if !is_show {
        (WindowPlan::StayHidden, lock)
    } else if let ExistingWindow::Main { minimized } = existing {
        (WindowPlan::ShowExisting { unminimize: minimized }, lock)
    } else if lock.creating && elapsed_ms(lock.last_ms, now_ms) < WINDOW_CREATION_DEBOUNCE_MS {
        (WindowPlan::Ignored, lock)
    } else {
        (WindowPlan::Build { window: main_window() }, WindowCreationLock { creating: true, last_ms: now_ms })
    }
}

/// Decides how a request to create or show the main window proceeds.
/// `is_show` is false for a silent start; `existing` is what the application
/// found before taking the creation mark; `now_ms` is the current clock.
pub fn create_window(
    is_show: bool,
    existing: ExistingWindow,
    lock: &mut WindowCreationLock,
    now_ms: u64,
) -> (plan: WindowPlan)
    ensures
        (plan, *final(lock)) == window_plan(is_show, existing, *old(lock), now_ms),
{
    if !is_show {
        return WindowPlan::StayHidden;
    }
    match existing {
        ExistingWindow::Main { minimized } => {
            return WindowPlan::ShowExisting { unminimize: minimized };
        },
        _ => {},
    }
    let elapsed: u64 = if now_ms >= lock.last_ms {
        now_ms - lock.last_ms
    } else {
        0
    };
    if lock.creating && elapsed < WINDOW_CREATION_DEBOUNCE_MS {
        return WindowPlan::Ignored;
    }
    lock.creating = true;
    lock.last_ms = now_ms;
    WindowPlan::Build { window: main_window_spec() }
}

/// How an attempt to build the main window ended.
#[derive(Debug, Clone, Copy, PartialEq, Eq, Structural)]
pub enum BuildOutcome {
    /// The application handle was gone when the window was to be built.
    NoAppHandle,
    /// The window builder reported an error.
    Failed,
    /// The window was built.
    Built,
}

/// Ends a creation that [`create_window`] allowed: clears the creation mark
/// (stamped with `now_ms`) and, when the window was built, restarts the UI's
/// loading stages. Returns whether the window now exists.
pub fn finish_window_creation(
    lock: &mut WindowCreationLock,
    outcome: BuildOutcome,
    ui: &mut UiReadyState,
    now_ms: u64,
) -> (created: bool)
    ensures
        created == (outcome == BuildOutcome::Built),
        *final(lock) == (WindowCreationLock { creating: false, last_ms: now_ms }),
        outcome == BuildOutcome::Built ==> final(ui).stage == UiReadyStage::NotStarted
            && final(ui).ready == old(ui).ready,
        outcome != BuildOutcome::Built ==> *final(ui) == *old(ui),
        old(ui).wf() ==> final(ui).wf(),
{
    let created = match outcome {
        BuildOutcome::Built => {
            update_ui_ready_stage(ui, UiReadyStage::NotStarted);
            true
        },
        _ => false,
    };
    lock.creating = false;
    lock.last_ms = now_ms;
    created
}

/// What the task started after a successful build does: it always marks
/// start-up complete, runs the one-off lightweight check and announces
/// start-up; when the window is to be shown it also shows and focuses it and
/// waits up to `monitor_timeout_secs` for the UI to report ready.
#[derive(Debug, Clone, Copy, PartialEq, Eq, Structural)]
pub struct AfterBuildPlan {
    pub show_and_focus: bool,
    pub monitor_timeout_secs: Option<u64>,
}

/// Plans the task that runs after the main window was built. `lightweight`
/// is whether lightweight mode is on once the one-off check has run.
pub fn plan_after_build(is_show: bool, lightweight: bool) -> (plan: AfterBuildPlan)
    ensures
        plan.show_and_focus == is_show,
        is_show ==> plan.monitor_timeout_secs == Some(if lightweight { 3u64 } else { 8u64 }),
        !is_show ==> plan.monitor_timeout_secs is None,
{
    if is_show {
        AfterBuildPlan {
            show_and_focus: true,
            monitor_timeout_secs: Some(ui_monitor_timeout_secs(lightweight)),
        }
    } else {
        AfterBuildPlan { show_and_focus: false, monitor_timeout_secs: None }
    }
}

/// A creation that was finished leaves the mark cleared, so whatever request
/// follows it is never ignored; and a request that is allowed to build takes
/// the mark, which finishing the creation clears again.
pub proof fn lemma_finished_creation_never_blocks(
    lock: WindowCreationLock,
    is_show: bool,
    existing: ExistingWindow,
    now_ms: u64,
    finish_ms: u64,
)
    requires
        !lock.creating,
    ensures
        window_plan(is_show, existing, lock, now_ms).0 != WindowPlan::Ignored,
        window_plan(is_show, existing, lock, now_ms).0 is Build ==> window_plan(
            is_show,
            existing,
            lock,
            now_ms,
        ).1.creating,
        window_plan(
            is_show,
            existing,
            WindowCreationLock { creating: false, last_ms: finish_ms },
            now_ms,
        ).0 != WindowPlan::Ignored,
{
}

} // verus!
