use clash_verge::startup::{
    check_platform_autostart_support, core_connection_ok, no_attempt_error,
    plan_after_profile_switch, AfterSwitch, plan_autostart, plan_profile_switch,
    proxy_enable_needed_after_import, refresh_ui_after_config_change, setup_was_slow,
    startup_window_visible, AutostartPlan, CoreProbe, CoreWait, Platform, ProfileSwitchPlan,
    RefreshStep, SwitchRetry,
};
use clash_verge::startup_import::{
    accept_imported_uid, find_existing_uid, first_start_restart_steps, is_blank,
    is_skipped_entry, is_white_space, plan_after_import, AfterImport, AttemptStep, ImportError,
    ImportNotice, ProfileEntry, RestartStep, StartupImport,
};

fn urls(v: &[&str]) -> Vec<String> {
    v.iter().map(|s| s.to_string()).collect()
}

#[test]
fn blank_urls() {
    assert!(is_blank(""));
    assert!(is_blank("  \t\n"));
    assert!(is_blank("\u{3000}\u{a0}"));
    assert!(!is_blank(" https://a "));
}

#[test]
fn import_disabled_or_empty() {
    assert!(StartupImport::start(false, urls(&["https://a"])).is_none());
    assert!(StartupImport::start(true, Vec::new()).is_none());
}

#[test]
fn import_skips_blank_and_retries_twice() {
    let mut run = StartupImport::start(true, urls(&["  ", "https://a", "", "not a url", "https://b"])).unwrap();
    assert_eq!(run.next_entry(), Some(1));
    assert_eq!(run.record_attempt(Err(())), AttemptStep::Retry { retry: 1 });
    assert_eq!(run.record_attempt(Err(())), AttemptStep::Retry { retry: 2 });
    assert_eq!(run.record_attempt(Err(())), AttemptStep::GaveUp);
    assert_eq!(run.next_entry(), Some(4));
    assert_eq!(run.record_attempt(Err(())), AttemptStep::Retry { retry: 1 });
    assert_eq!(run.record_attempt(Ok("uid-b".to_string())), AttemptStep::Imported);
    assert_eq!(run.next_entry(), None);
    assert_eq!(run.success_count, 1);
    assert_eq!(run.failed_count, 1);
    assert_eq!(run.last_successful_uid.as_deref(), Some("uid-b"));
    assert!(run.has_summary());
}

#[test]
fn import_keeps_latest_uid() {
    let mut run = StartupImport::start(true, urls(&["https://a", "https://b"])).unwrap();
    assert_eq!(run.next_entry(), Some(0));
    assert_eq!(run.record_attempt(Ok("u1".to_string())), AttemptStep::Imported);
    assert_eq!(run.next_entry(), Some(1));
    assert_eq!(run.record_attempt(Ok("u2".to_string())), AttemptStep::Imported);
    assert_eq!(run.next_entry(), None);
    assert_eq!(run.last_successful_uid.as_deref(), Some("u2"));
    assert_eq!(run.success_count, 2);
}

#[test]
fn only_blank_urls_give_no_summary() {
    let mut run = StartupImport::start(true, urls(&[" ", "\t"])).unwrap();
    assert_eq!(run.next_entry(), None);
    assert!(!run.has_summary());
    assert_eq!(plan_after_import(run.last_successful_uid.clone(), false), AfterImport::Nothing);
}

#[test]
fn after_import_plans() {
    assert_eq!(plan_after_import(None, true), AfterImport::Nothing);
    assert_eq!(plan_after_import(Some("u".to_string()), true), AfterImport::RestartAfterFirstStart);
    assert_eq!(
        plan_after_import(Some("u".to_string()), false),
        AfterImport::SwitchTo { uid: "u".to_string() }
    );
}

#[test]
fn existing_uid_is_reused() {
    let items = vec![
        ProfileEntry { url: None, uid: Some("local".to_string()) },
        ProfileEntry { url: Some("https://a".to_string()), uid: None },
        ProfileEntry { url: Some("https://b".to_string()), uid: Some("ub".to_string()) },
        ProfileEntry { url: Some("https://a".to_string()), uid: Some("ua".to_string()) },
    ];
    assert_eq!(find_existing_uid(&items, "https://a"), Some("ua".to_string()));
    assert_eq!(find_existing_uid(&items, "https://b"), Some("ub".to_string()));
    assert_eq!(find_existing_uid(&items, "https://c"), None);
}

#[test]
fn imported_profile_needs_uid() {
    assert_eq!(accept_imported_uid(Some("x".to_string())), Ok("x".to_string()));
    assert_eq!(accept_imported_uid(None), Err(ImportError::MissingUid));
}

#[test]
fn profile_switch_plans() {
    assert_eq!(plan_profile_switch(false, Some("a"), "a"), ProfileSwitchPlan::Missing);
    assert_eq!(plan_profile_switch(true, Some("a"), "a"), ProfileSwitchPlan::AlreadyCurrent);
    assert_eq!(plan_profile_switch(true, Some("b"), "a"), ProfileSwitchPlan::Patch);
    assert_eq!(plan_profile_switch(true, None, "a"), ProfileSwitchPlan::Patch);
}

#[test]
fn switch_retry_delays_grow() {
    let mut r = SwitchRetry::new(3);
    assert_eq!(r.begin_attempt(), Some(1));
    assert_eq!(r.delay_after_failure(), Some(1));
    assert_eq!(r.begin_attempt(), Some(2));
    assert_eq!(r.delay_after_failure(), Some(2));
    assert_eq!(r.begin_attempt(), Some(3));
    assert_eq!(r.delay_after_failure(), None);
    assert_eq!(r.begin_attempt(), None);
}

#[test]
fn switch_with_no_retries_never_tries() {
    let mut r = SwitchRetry::new(0);
    assert_eq!(r.begin_attempt(), None);
}

#[test]
fn core_wait_counts_thirty_intervals() {
    let mut w = CoreWait::new();
    let mut rounds = 0;
    let mut progress = Vec::new();
    while w.should_check() {
        rounds += 1;
        if let Some(s) = w.count_interval() {
            progress.push(s);
        }
    }
    assert_eq!(rounds, 30);
    assert_eq!(progress, vec![5, 10, 15, 20, 25, 30]);
    assert_eq!(w.elapsed_ms, 30000);
}

#[test]
fn core_probe() {
    assert!(core_connection_ok(CoreProbe::Answered { fields: 0 }));
    assert!(!core_connection_ok(CoreProbe::Failed));
    assert!(!core_connection_ok(CoreProbe::TimedOut));
}

#[test]
fn autostart_support() {
    assert!(check_platform_autostart_support(Platform::Windows, false, false));
    assert!(check_platform_autostart_support(Platform::MacOs, false, false));
    assert!(check_platform_autostart_support(Platform::Linux, false, true));
    assert!(check_platform_autostart_support(Platform::Linux, true, false));
    assert!(!check_platform_autostart_support(Platform::Linux, false, false));
    assert!(!check_platform_autostart_support(Platform::Other, true, true));
}

#[test]
fn autostart_plans() {
    assert_eq!(plan_autostart(true, false), AutostartPlan::AlreadyEnabled);
    assert_eq!(plan_autostart(false, false), AutostartPlan::Unsupported);
    assert_eq!(plan_autostart(false, true), AutostartPlan::Enable);
}

#[test]
fn small_startup_decisions() {
    assert!(proxy_enable_needed_after_import(false));
    assert!(!proxy_enable_needed_after_import(true));
    assert!(startup_window_visible(None));
    assert!(startup_window_visible(Some(false)));
    assert!(!startup_window_visible(Some(true)));
    assert!(!setup_was_slow(10));
    assert!(setup_was_slow(11));
}

#[test]
fn refresh_after_proxy_switch() {
    assert_eq!(
        refresh_ui_after_config_change(false, false, false, true, 100),
        vec![RefreshStep::Sleep { ms: 100 }, RefreshStep::UpdateTrayIcon]
    );
}

#[test]
fn refresh_after_profile_switch() {
    assert_eq!(
        refresh_ui_after_config_change(true, true, true, true, 100),
        vec![
            RefreshStep::Sleep { ms: 100 },
            RefreshStep::RefreshClash,
            RefreshStep::Sleep { ms: 50 },
            RefreshStep::RefreshVerge,
            RefreshStep::Sleep { ms: 50 },
            RefreshStep::UpdateTrayMenu,
            RefreshStep::Sleep { ms: 50 },
            RefreshStep::UpdateTrayIcon,
        ]
    );
    assert_eq!(refresh_ui_after_config_change(false, false, false, false, 0), vec![]);
}

#[test]
fn white_space_matches_std() {
    for u in 0..=0x10FFFFu32 {
        if let Some(c) = char::from_u32(u) {
            assert_eq!(is_white_space(c), c.is_whitespace(), "{u:#x}");
        }
    }
}

#[test]
fn skipped_entries() {
    assert!(is_skipped_entry("   "));
    assert!(is_skipped_entry("example.com/sub"));
    assert!(is_skipped_entry("not a url"));
    assert!(!is_skipped_entry("https://example.com/sub"));
    assert!(!is_skipped_entry(" https://example.com/sub "));
}

#[test]
fn attempt_notices() {
    assert_eq!(AttemptStep::Imported.notice(), Some(ImportNotice::Imported));
    assert_eq!(AttemptStep::GaveUp.notice(), Some(ImportNotice::Failed));
    assert_eq!(AttemptStep::Retry { retry: 1 }.notice(), None);
}

#[test]
fn restart_stops_server_first() {
    assert_eq!(
        first_start_restart_steps(),
        vec![
            RestartStep::MarkFirstStartDone,
            RestartStep::ShutdownEmbedServer,
            RestartStep::Sleep { ms: 2000 },
            RestartStep::Restart,
        ]
    );
}

#[test]
fn zero_retry_error_text() {
    assert_eq!(no_attempt_error(), "未知错误");
}

#[test]
fn after_switch_plans() {
    assert_eq!(plan_after_profile_switch(true), AfterSwitch::EnableProxyThenRefresh { delay_ms: 100 });
    assert_eq!(plan_after_profile_switch(false), AfterSwitch::ReportFailure);
}
