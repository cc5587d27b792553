use clash_verge::ui_ready::{
    ui_wait_end, UiWaitEnd, mark_ui_ready, reset_ui_ready, ui_monitor_timeout_secs, update_ui_ready_stage, MonitorStep,
    UiReadyMonitor, UiReadyStage, UiReadyState,
};
use clash_verge::window::{
    create_window, finish_window_creation, main_window_spec, plan_after_build, BuildOutcome,
    ExistingWindow, MainWindowSpec, WindowCreationLock, WindowPlan,
};

#[test]
fn new_state_is_not_ready() {
    let s = UiReadyState::new();
    assert_eq!(s.stage(), UiReadyStage::NotStarted);
    assert!(!s.is_ready());
}

#[test]
fn final_stage_marks_ready() {
    let mut s = UiReadyState::new();
    update_ui_ready_stage(&mut s, UiReadyStage::Loading);
    assert!(!s.is_ready());
    update_ui_ready_stage(&mut s, UiReadyStage::DomReady);
    update_ui_ready_stage(&mut s, UiReadyStage::ResourcesLoaded);
    assert!(!s.is_ready());
    update_ui_ready_stage(&mut s, UiReadyStage::Ready);
    assert!(s.is_ready());
    assert_eq!(s.stage(), UiReadyStage::Ready);
}

#[test]
fn earlier_stage_keeps_ready_flag() {
    let mut s = UiReadyState::new();
    update_ui_ready_stage(&mut s, UiReadyStage::Ready);
    update_ui_ready_stage(&mut s, UiReadyStage::NotStarted);
    assert!(s.is_ready());
    assert_eq!(s.stage(), UiReadyStage::NotStarted);
}

#[test]
fn mark_keeps_stage() {
    let mut s = UiReadyState::new();
    update_ui_ready_stage(&mut s, UiReadyStage::DomReady);
    mark_ui_ready(&mut s);
    assert!(s.is_ready());
    assert_eq!(s.stage(), UiReadyStage::DomReady);
}

#[test]
fn reset_undoes_everything() {
    let mut s = UiReadyState::new();
    update_ui_ready_stage(&mut s, UiReadyStage::Ready);
    reset_ui_ready(&mut s);
    assert!(!s.is_ready());
    assert_eq!(s.stage(), UiReadyStage::NotStarted);
}

#[test]
fn monitor_timeouts() {
    assert_eq!(ui_monitor_timeout_secs(true), 3);
    assert_eq!(ui_monitor_timeout_secs(false), 8);
}

#[test]
fn monitor_stops_when_ready() {
    let mut m = UiReadyMonitor::new();
    assert_eq!(m.observe(Some(true)), MonitorStep::Ready);
    assert_eq!(m.check_count, 0);
}

#[test]
fn monitor_reports_progress_every_twenty_checks() {
    let mut m = UiReadyMonitor::new();
    for i in 1..=40u32 {
        let read = if i % 3 == 0 { None } else { Some(false) };
        let step = m.observe(read);
        let expected_progress = if i % 20 == 0 { Some(i / 10) } else { None };
        assert_eq!(
            step,
            MonitorStep::Wait { progress_secs: expected_progress, deadlock_warning: false }
        );
        assert_eq!(m.consecutive_failures, 0);
    }
    assert_eq!(m.check_count, 40);
}

#[test]
fn busy_lock_never_raises_deadlock_warning() {
    let mut m = UiReadyMonitor::new();
    for _ in 0..200 {
        match m.observe(None) {
            MonitorStep::Wait { deadlock_warning, .. } => assert!(!deadlock_warning),
            MonitorStep::Ready => panic!("a busy lock is not a ready signal"),
        }
    }
}

#[test]
fn silent_start_stays_hidden() {
    let mut lock = WindowCreationLock::new(0);
    let plan = create_window(false, ExistingWindow::NoMainWindow, &mut lock, 10);
    assert_eq!(plan, WindowPlan::StayHidden);
    assert_eq!(lock, WindowCreationLock::new(0));
}

#[test]
fn existing_window_is_shown() {
    let mut lock = WindowCreationLock::new(0);
    let plan = create_window(true, ExistingWindow::Main { minimized: true }, &mut lock, 10);
    assert_eq!(plan, WindowPlan::ShowExisting { unminimize: true });
    let plan = create_window(true, ExistingWindow::Main { minimized: false }, &mut lock, 10);
    assert_eq!(plan, WindowPlan::ShowExisting { unminimize: false });
}

#[test]
fn creation_is_debounced() {
    let mut lock = WindowCreationLock::new(0);
    assert_eq!(create_window(true, ExistingWindow::NoMainWindow, &mut lock, 5000), WindowPlan::Build { window: main_window_spec() });
    assert_eq!(lock, WindowCreationLock { creating: true, last_ms: 5000 });
    assert_eq!(create_window(true, ExistingWindow::NoAppHandle, &mut lock, 6999), WindowPlan::Ignored);
    assert_eq!(create_window(true, ExistingWindow::NoMainWindow, &mut lock, 7000), WindowPlan::Build { window: main_window_spec() });
    assert_eq!(lock.last_ms, 7000);
}

#[test]
fn clock_going_back_counts_as_no_time() {
    let mut lock = WindowCreationLock { creating: true, last_ms: 9000 };
    assert_eq!(create_window(true, ExistingWindow::NoMainWindow, &mut lock, 100), WindowPlan::Ignored);
}

#[test]
fn finishing_creation_clears_the_mark() {
    let mut lock = WindowCreationLock::new(0);
    let mut ui = UiReadyState::new();
    update_ui_ready_stage(&mut ui, UiReadyStage::Loading);
    assert_eq!(create_window(true, ExistingWindow::NoMainWindow, &mut lock, 100), WindowPlan::Build { window: main_window_spec() });
    assert!(finish_window_creation(&mut lock, BuildOutcome::Built, &mut ui, 150));
    assert_eq!(lock, WindowCreationLock { creating: false, last_ms: 150 });
    assert_eq!(ui.stage(), UiReadyStage::NotStarted);
    // right after a finished creation, a new request is not ignored
    assert_eq!(create_window(true, ExistingWindow::NoMainWindow, &mut lock, 151), WindowPlan::Build { window: main_window_spec() });
    assert!(!finish_window_creation(&mut lock, BuildOutcome::Failed, &mut ui, 160));
    assert!(!finish_window_creation(&mut lock, BuildOutcome::NoAppHandle, &mut ui, 170));
    assert!(!lock.creating);
}

#[test]
fn after_build_plan() {
    let p = plan_after_build(true, true);
    assert!(p.show_and_focus);
    assert_eq!(p.monitor_timeout_secs, Some(3));
    let p = plan_after_build(true, false);
    assert_eq!(p.monitor_timeout_secs, Some(8));
    let p = plan_after_build(false, false);
    assert!(!p.show_and_focus);
    assert_eq!(p.monitor_timeout_secs, None);
}

#[test]
fn default_state_is_initial() {
    let s = UiReadyState::default();
    assert_eq!(s.stage(), UiReadyStage::NotStarted);
    assert!(!s.is_ready());
}

#[test]
fn main_window_description() {
    assert_eq!(
        main_window_spec(),
        MainWindowSpec {
            label: "main",
            title: "Clash Verge",
            page: "index.html",
            width: 940,
            height: 700,
            min_width: 520,
            min_height: 520,
            centered: true,
            decorations: true,
            fullscreen: false,
            visible: true,
        }
    );
}

#[test]
fn ui_wait_endings() {
    assert_eq!(ui_wait_end(true), UiWaitEnd::RemoveOverlay);
    assert_eq!(ui_wait_end(false), UiWaitEnd::MarkReady);
}
