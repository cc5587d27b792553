use vstd::prelude::*;
use crate::text::same_text;

verus! {

// ---------------------------------------------------------------------------
// Switching to a profile
// ---------------------------------------------------------------------------

/// How a switch to a profile proceeds.
#[derive(Debug, Clone, Copy, PartialEq, Eq, Structural)]
pub enum ProfileSwitchPlan {
    /// No profile has this uid: the switch fails with the look-up error.
    Missing,
    /// The profile is already the current one: nothing to do.
    AlreadyCurrent,
    /// Ask for the profile to become the current one.
    Patch,
}

/// Decides a switch to profile `uid`, given whether a profile with that uid
/// exists and which profile is current.
pub fn plan_profile_switch(exists: bool, current: Option<&str>, uid: &str) -> (r: ProfileSwitchPlan)
    ensures
        !exists ==> r == ProfileSwitchPlan::Missing,
        exists && (current matches Some(c) && c@ == uid@) ==> r
            == ProfileSwitchPlan::AlreadyCurrent,
        exists && !(current matches Some(c) && c@ == uid@) ==> r == ProfileSwitchPlan::Patch,
{
    if !exists {
        return ProfileSwitchPlan::Missing;
    }
    match current {
        Some(c) => {
            if same_text(c, uid) {
                return ProfileSwitchPlan::AlreadyCurrent;
            }
        },
        None => {},
    }
    ProfileSwitchPlan::Patch
}

/// The attempts of a switch that is tried up to `max_retries` times, waiting
/// one second more after each failure.
#[derive(Debug, Clone, Copy, PartialEq, Eq, Structural)]
pub struct SwitchRetry {
    pub attempts: u32,
    pub max_retries: u32,
}

impl SwitchRetry {
    pub open spec fn wf(&self) -> bool {
        self.attempts <= self.max_retries
    }

    pub fn new(max_retries: u32) -> (r: Self)
        ensures
            r.attempts == 0,
            r.max_retries == max_retries,
            r.wf(),
    {
        SwitchRetry { attempts: 0, max_retries }
    }

    /// Starts the next attempt, returning its number (from 1), or `None` when
    /// all attempts are used up.
    pub fn begin_attempt(&mut self) -> (r: Option<u32>)
        requires
            old(self).wf(),
        ensures
            final(self).wf(),
            final(self).max_retries == old(self).max_retries,
            old(self).attempts < old(self).max_retries ==> r == Some((old(self).attempts + 1) as u32)
                && final(self).attempts == old(self).attempts + 1,
            old(self).attempts >= old(self).max_retries ==> r is None && *final(self) == *old(self),
    {
        if self.attempts < self.max_retries {
            self.attempts = self.attempts + 1;
            Some(self.attempts)
        } else {
            None
        }
    }

    /// After a failed attempt: how many seconds to wait before the next one,
    /// or `None` when that was the last attempt.
    pub fn delay_after_failure(&self) -> (r: Option<u64>)
        requires
            self.wf(),
        ensures
            self.attempts < self.max_retries ==> r == Some(self.attempts as u64),
            self.attempts >= self.max_retries ==> r is None,
    {
        if self.attempts < self.max_retries {
            Some(self.attempts as u64)
        } else {
            None
        }
    }
}

/// The error of a switch that made no attempt at all.
pub fn no_attempt_error() -> (r: &'static str)
    ensures
        r@ == "未知错误"@,
{
    "未知错误"
}

/// What follows a switch to a newly imported profile.
#[derive(Debug, Clone, Copy, PartialEq, Eq, Structural)]
pub enum AfterSwitch {
    /// Turn on the system proxy (see [`proxy_enable_needed_after_import`]),
    /// then refresh the whole interface after `delay_ms`.
    EnableProxyThenRefresh { delay_ms: u64 },
    /// Report that the switch failed.
    ReportFailure,
}

/// Decides what follows a switch to a newly imported profile.
pub fn plan_after_profile_switch(switched: bool) -> (r: AfterSwitch)
    ensures
        switched ==> r == (AfterSwitch::EnableProxyThenRefresh { delay_ms: 100 }),
        !switched ==> r == AfterSwitch::ReportFailure,
{
    if switched {
        AfterSwitch::EnableProxyThenRefresh { delay_ms: 100 }
    } else {
        AfterSwitch::ReportFailure
    }
}

/// How many times a switch to a newly imported profile is tried.
pub const IMPORTED_PROFILE_SWITCH_RETRIES: u32 = 3;

// ---------------------------------------------------------------------------
// Waiting for the core
// ---------------------------------------------------------------------------

/// The longest wait for the core, in milliseconds of check intervals.
pub const CORE_WAIT_LIMIT_MS: u64 = 30000;

/// The pause between two looks at the core.
pub const CORE_CHECK_INTERVAL_MS: u64 = 1000;

/// Time counted while waiting for the core (check intervals only).
#[derive(Debug, Clone, Copy, PartialEq, Eq, Structural)]
pub struct CoreWait {
    pub elapsed_ms: u64,
}

impl CoreWait {
    pub open spec fn wf(&self) -> bool {
        self.elapsed_ms <= CORE_WAIT_LIMIT_MS && self.elapsed_ms % CORE_CHECK_INTERVAL_MS == 0
    }

    pub fn new() -> (w: Self)
        ensures
            w.elapsed_ms == 0,
            w.wf(),
    {
        CoreWait { elapsed_ms: 0 }
    }

    /// Whether another look at the core is due (else the wait has timed out).
    pub fn should_check(&self) -> (r: bool)
        ensures
            r == (self.elapsed_ms < CORE_WAIT_LIMIT_MS),
    {
        self.elapsed_ms < CORE_WAIT_LIMIT_MS
    }

    /// Counts one check interval; returns the whole seconds waited when a
    /// progress line is due (every five seconds).
    pub fn count_interval(&mut self) -> (r: Option<u64>)
        requires
            old(self).wf(),
            old(self).elapsed_ms < CORE_WAIT_LIMIT_MS,
        ensures
            final(self).wf(),
            final(self).elapsed_ms == old(self).elapsed_ms + CORE_CHECK_INTERVAL_MS,
            final(self).elapsed_ms % 5000 == 0 ==> r == Some(final(self).elapsed_ms / 1000),
            final(self).elapsed_ms % 5000 != 0 ==> r is None,
    {
        self.elapsed_ms = self.elapsed_ms + CORE_CHECK_INTERVAL_MS;
        if self.elapsed_ms % 5000 == 0 {
            Some(self.elapsed_ms / 1000)
        } else {
            None
        }
    }
}

/// How a probe of the core's control interface ended.
#[derive(Debug, Clone, Copy, PartialEq, Eq, Structural)]
pub enum CoreProbe {
    /// The core answered with its proxies (an object of this many fields).
    Answered { fields: usize },
    /// The core answered with an error.
    Failed,
    /// No answer within the probe's time limit.
    TimedOut,
}

/// The core is usable exactly when it answered.
pub fn core_connection_ok(probe: CoreProbe) -> (r: bool)
    ensures
        r == (probe is Answered),
{
    match probe {
        CoreProbe::Answered { .. } => true,
        _ => false,
    }
}

// ---------------------------------------------------------------------------
// Turning features on at start-up
// ---------------------------------------------------------------------------

/// The operating systems the application knows about.
#[derive(Debug, Clone, Copy, PartialEq, Eq, Structural)]
pub enum Platform {
    Windows,
    MacOs,
    Linux,
    Other,
}

/// Whether launching at login can be set up: always on Windows and macOS; on
/// Linux only with `XDG_CONFIG_HOME` or `HOME` set; never elsewhere.
pub fn check_platform_autostart_support(platform: Platform, has_xdg_config: bool, has_home: bool) -> (r:
    bool)
    ensures
        r == match platform {
            Platform::Windows | Platform::MacOs => true,
            Platform::Linux => has_xdg_config || has_home,
            Platform::Other => false,
        },
{
    match platform {
        Platform::Windows | Platform::MacOs => true,
        Platform::Linux => has_xdg_config || has_home,
        Platform::Other => false,
    }
}

/// How the start-up check of "launch at login" proceeds.
#[derive(Debug, Clone, Copy, PartialEq, Eq, Structural)]
pub enum AutostartPlan {
    /// Already on: nothing to do.
    AlreadyEnabled,
    /// The platform cannot do it: nothing to do.
    Unsupported,
    /// Turn it on.
    Enable,
}

/// Decides the start-up check of "launch at login".
pub fn plan_autostart(currently_enabled: bool, platform_supported: bool) -> (r: AutostartPlan)
    ensures
        currently_enabled ==> r == AutostartPlan::AlreadyEnabled,
        !currently_enabled && !platform_supported ==> r == AutostartPlan::Unsupported,
        !currently_enabled && platform_supported ==> r == AutostartPlan::Enable,
{
    if currently_enabled {
        AutostartPlan::AlreadyEnabled
    } else if !platform_supported {
        AutostartPlan::Unsupported
    } else {
        AutostartPlan::Enable
    }
}

/// After switching to an imported profile the system proxy is turned on,
/// unless it already is.
pub fn proxy_enable_needed_after_import(currently_enabled: bool) -> (r: bool)
    ensures
        r == !currently_enabled,
{
    !currently_enabled
}

/// Whether the main window is shown at start-up: not in silent start.
pub fn startup_window_visible(enable_silent_start: Option<bool>) -> (r: bool)
    ensures
        r == !(enable_silent_start == Some(true)),
{
    match enable_silent_start {
        Some(silent) => !silent,
        None => true,
    }
}

/// Set-up taking longer than this many whole seconds is reported.
pub const SLOW_SETUP_SECS: u64 = 10;

/// Whether the set-up took long enough to be reported.
pub fn setup_was_slow(elapsed_secs: u64) -> (r: bool)
    ensures
        r == (elapsed_secs > SLOW_SETUP_SECS),
{
    elapsed_secs > SLOW_SETUP_SECS
}

// ---------------------------------------------------------------------------
// Refreshing the interface after a configuration change
// ---------------------------------------------------------------------------

/// Pause between two refresh steps.
pub const REFRESH_GAP_MS: u64 = 50;

/// One step of refreshing the interface.
#[derive(Debug, Clone, Copy, PartialEq, Eq, Structural)]
pub enum RefreshStep {
    Sleep { ms: u64 },
    RefreshClash,
    RefreshVerge,
    UpdateTrayMenu,
    UpdateTrayIcon,
}

/// The steps of a refresh, in order.
pub open spec fn refresh_steps(
    refresh_clash: bool,
    refresh_verge: bool,
    update_tray_menu: bool,
    update_tray_icon: bool,
    delay_ms: u64,
) -> Seq<RefreshStep> {
    (if delay_ms > 0 { seq![RefreshStep::Sleep { ms: delay_ms }] } else { seq![] }) + (
    if refresh_clash {
        seq![RefreshStep::RefreshClash, RefreshStep::Sleep { ms: REFRESH_GAP_MS }]
    } else {
        seq![]
    }) + (if refresh_verge {
        seq![RefreshStep::RefreshVerge, RefreshStep::Sleep { ms: REFRESH_GAP_MS }]
    } else {
        seq![]
    }) + (if update_tray_menu {
        seq![RefreshStep::UpdateTrayMenu, RefreshStep::Sleep { ms: REFRESH_GAP_MS }]
    } else {
        seq![]
    }) + (if update_tray_icon {
        seq![RefreshStep::UpdateTrayIcon]
    } else {
        seq![]
    })
}

/// Plans a refresh of the interface after a configuration change: an
/// optional initial delay, then each requested part in a fixed order with a
/// short pause after each but the last kind.
pub fn refresh_ui_after_config_change(
    refresh_clash: bool,
    refresh_verge: bool,
    update_tray_menu: bool,
    update_tray_icon: bool,
    delay_ms: u64,
) -> (steps: Vec<RefreshStep>)
    ensures
        steps@ == refresh_steps(
            refresh_clash,
            refresh_verge,
            update_tray_menu,
            update_tray_icon,
            delay_ms,
        ),
{
    let mut steps: Vec<RefreshStep> = Vec::new();
    if delay_ms > 0 {
        steps.push(RefreshStep::Sleep { ms: delay_ms });
    }
    let ghost s0 = steps@;
    if refresh_clash {
        steps.push(RefreshStep::RefreshClash);
        steps.push(RefreshStep::Sleep { ms: REFRESH_GAP_MS });
    }
    let ghost s1 = steps@;
    if refresh_verge {
        steps.push(RefreshStep::RefreshVerge);
        steps.push(RefreshStep::Sleep { ms: REFRESH_GAP_MS });
    }
    let ghost s2 = steps@;
    if update_tray_menu {
        steps.push(RefreshStep::UpdateTrayMenu);
        steps.push(RefreshStep::Sleep { ms: REFRESH_GAP_MS });
    }
    let ghost s3 = steps@;
    if update_tray_icon {
        steps.push(RefreshStep::UpdateTrayIcon);
    }
    assert(steps@ =~= refresh_steps(
        refresh_clash,
        refresh_verge,
        update_tray_menu,
        update_tray_icon,
        delay_ms,
    ));
    steps
}

} // verus!
