use vstd::prelude::*;

verus! {

/// How far the front end has come in loading its user interface.
#[derive(Debug, Clone, Copy, PartialEq, Eq, Structural)]
pub enum UiReadyStage {
    NotStarted,
    Loading,
    DomReady,
    ResourcesLoaded,
    Ready,
}

/// The shared "is the UI ready" record: the latest stage the front end
/// reported, and the flag that tells waiting tasks that the UI is usable.
#[derive(Debug)]
pub struct UiReadyState {
    pub stage: UiReadyStage,
    pub ready: bool,
}

impl UiReadyState {
    /// The record's coherence: once the final stage is reported, the UI is ready.
    pub open spec fn wf(&self) -> bool {
        self.stage == UiReadyStage::Ready ==> self.ready
    }

    /// A fresh record: nothing loaded, not ready.
    pub fn new() -> (s: Self)
        ensures
            s.stage == UiReadyStage::NotStarted,
            !s.ready,
            s.wf(),
    {
        UiReadyState { stage: UiReadyStage::NotStarted, ready: false }
    }

    /// Reads the ready flag.
    pub fn is_ready(&self) -> (r: bool)
        ensures
            r == self.ready,
    {
        self.ready
    }

    /// Reads the latest stage.
    pub fn stage(&self) -> (r: UiReadyStage)
        ensures
            r == self.stage,
    {
        self.stage
    }
}

impl Default for UiReadyState {
    fn default() -> (s: Self)
        ensures
            s.stage == UiReadyStage::NotStarted,
            !s.ready,
    {
        UiReadyState::new()
    }
}

/// Records a new loading stage; reaching the final stage marks the UI ready.
/// An earlier stage never clears the ready flag.
pub fn update_ui_ready_stage(state: &mut UiReadyState, stage: UiReadyStage)
    ensures
        final(state).stage == stage,
        final(state).ready == (old(state).ready || stage == UiReadyStage::Ready),
        old(state).wf() ==> final(state).wf(),
{
    state.stage = stage;
    if stage == UiReadyStage::Ready {
        mark_ui_ready(state);
    }
}

/// Marks the UI as fully ready; the stage is left as it was.
pub fn mark_ui_ready(state: &mut UiReadyState)
    ensures
        final(state).ready,
        final(state).stage == old(state).stage,
        final(state).wf(),
{
    state.ready = true;
}

/// Puts the record back to its initial value: not ready, nothing loaded.
pub fn reset_ui_ready(state: &mut UiReadyState)
    ensures
        !final(state).ready,
        final(state).stage == UiReadyStage::NotStarted,
        final(state).wf(),
{
    state.ready = false;
    state.stage = UiReadyStage::NotStarted;
}


/// Pause between two looks at the ready flag while the UI is loading.
pub const UI_MONITOR_POLL_MS: u64 = 100;

/// How many failed look-ups in a row count as a suspected deadlock.
pub const UI_MONITOR_FAILURE_LIMIT: u32 = 50;

/// How long the UI is given to report that it is ready: a shorter wait in
/// lightweight mode, where no page is rendered.
pub fn ui_monitor_timeout_secs(lightweight: bool) -> (r: u64)
    ensures
        r == (if lightweight { 3u64 } else { 8u64 }),
{
    if lightweight {
        3
    } else {
        8
    }
}

/// What ends the wait for the UI.
#[derive(Debug, Clone, Copy, PartialEq, Eq, Structural)]
pub enum UiWaitEnd {
    /// The UI reported ready in time: remove the loading overlay.
    RemoveOverlay,
    /// The wait timed out: mark the UI ready anyway (the window is shown).
    MarkReady,
}

/// Decides how the wait for the UI ends, given whether it ended in time.
pub fn ui_wait_end(in_time: bool) -> (r: UiWaitEnd)
    ensures
        in_time ==> r == UiWaitEnd::RemoveOverlay,
        !in_time ==> r == UiWaitEnd::MarkReady,
{
    if in_time {
        UiWaitEnd::RemoveOverlay
    } else {
        UiWaitEnd::MarkReady
    }
}

/// What the waiting task does after one look at the ready flag.
#[derive(Debug, Clone, Copy, PartialEq, Eq, Structural)]
pub enum MonitorStep {
    /// The UI reported ready: stop waiting.
    Ready,
    /// Sleep one poll interval and look again. `progress_secs` asks for a
    /// progress line (every twentieth check, in whole seconds waited);
    /// `deadlock_warning` asks for the suspected-deadlock warning.
    Wait { progress_secs: Option<u32>, deadlock_warning: bool },
}

/// The counters of the task that waits for the UI to become ready.
#[derive(Debug)]
pub struct UiReadyMonitor {
    pub check_count: u32,
    pub consecutive_failures: u32,
}

impl UiReadyMonitor {
    /// The counters keep this: failures never pile up between checks,
    /// because every check that does not end the wait clears them.
    pub open spec fn wf(&self) -> bool {
        self.consecutive_failures == 0
    }

    pub fn new() -> (m: Self)
        ensures
            m.check_count == 0,
            m.consecutive_failures == 0,
            m.wf(),
    {
        UiReadyMonitor { check_count: 0, consecutive_failures: 0 }
    }

    /// One look at the ready flag. `read` is `Some(flag)` when the flag could
    /// be read without waiting for its lock, `None` when the lock was busy
    /// (which counts as "not ready" and as one failed look-up).
    pub fn observe(&mut self, read: Option<bool>) -> (step: MonitorStep)
        requires
            old(self).check_count < u32::MAX,
        ensures
            ({
                let failures = if read is None { old(self).consecutive_failures + 1 } else {
                    old(self).consecutive_failures as int
                };
                let warn = read is None && failures > UI_MONITOR_FAILURE_LIMIT;
                if read == Some(true) {
                    &&& step == MonitorStep::Ready
                    &&& final(self).check_count == old(self).check_count
                    &&& final(self).consecutive_failures == (if warn { 0 } else { failures })
                } else {
                    &&& final(self).check_count == old(self).check_count + 1
                    &&& final(self).consecutive_failures == 0
                    &&& step == MonitorStep::Wait {
                        progress_secs: if final(self).check_count % 20 == 0 {
                            Some((final(self).check_count / 10) as u32)
                        } else {
                            None
                        },
                        deadlock_warning: warn,
                    }
                }
            }),
            old(self).wf() ==> final(self).wf(),
            old(self).wf() ==> (step matches MonitorStep::Wait { deadlock_warning, .. } ==> !deadlock_warning),
    {
        let mut warn = false;
        let is_ready = match read {
            Some(flag) => flag,
            None => {
                if self.consecutive_failures < u32::MAX {
                    self.consecutive_failures = self.consecutive_failures + 1;
                }
                if self.consecutive_failures > UI_MONITOR_FAILURE_LIMIT {
                    warn = true;
                    self.consecutive_failures = 0;
                }
                false
            },
        };
        if is_ready {
            return MonitorStep::Ready;
        }
        self.consecutive_failures = 0;
        self.check_count = self.check_count + 1;
        let progress_secs = if self.check_count % 20 == 0 {
            Some(self.check_count / 10)
        } else {
            None
        };
        MonitorStep::Wait { progress_secs, deadlock_warning: warn }
    }
}

} // verus!
