//! The inspector: follows the cursor from monitor to monitor and keeps the
//! cursor mode fitting the monitor it is on, a software-drawn cursor on a
//! rotated monitor and the hardware cursor on an unrotated one.
//!
//! The application runs the watch loop; each pass asks `keeps_watching`,
//! reads the monitor under the cursor, asks `plan_monitor_change` what to do
//! about it, switches the system cursor when told to and reports the outcome
//! to `apply_monitor_change`.

use vstd::prelude::*;
use crate::display::{
    dto_of, monitor_option_view, MonitorInfo, MonitorInfoDto, MonitorInfoDtoView, MonitorInfoView,
    Orientation, views,
};
use crate::wide::utf16_lossy;

verus! {

/// Which cursor the system draws.
#[derive(Clone, Copy, Debug, PartialEq, Eq, Structural)]
pub enum CursorMode {
    /// Drawn by software (mouse trails switched on), which follows rotated
    /// monitors correctly.
    Software,
    /// Drawn by the graphics hardware.
    Hardware,
}

/// Mouse-trails setting that selects the software cursor (-1 as an unsigned
/// value).
pub const MOUSE_TRAILS_SOFTWARE: u32 = 0xFFFF_FFFFu32;

/// Mouse-trails setting that selects the hardware cursor.
pub const MOUSE_TRAILS_HARDWARE: u32 = 0u32;

pub open spec fn spec_mouse_trails(mode: CursorMode) -> u32 {
    match mode {
        CursorMode::Software => MOUSE_TRAILS_SOFTWARE,
        CursorMode::Hardware => MOUSE_TRAILS_HARDWARE,
    }
}

/// The cursor mode a monitor of this orientation calls for.
pub open spec fn mode_for(orientation: Orientation) -> CursorMode {
    if orientation == Orientation::Default {
        CursorMode::Hardware
    } else {
        CursorMode::Software
    }
}

impl CursorMode {
    /// The value to give the system's mouse-trails setting to get this mode.
    pub fn mouse_trails(self) -> (value: u32)
        ensures
            value == spec_mouse_trails(self),
    {
        match self {
            CursorMode::Software => MOUSE_TRAILS_SOFTWARE,
            CursorMode::Hardware => MOUSE_TRAILS_HARDWARE,
        }
    }

    /// The cursor mode a monitor of the given orientation calls for.
    pub fn for_orientation(orientation: Orientation) -> (mode: CursorMode)
        ensures
            mode == mode_for(orientation),
    {
        match orientation {
            Orientation::Default => CursorMode::Hardware,
            _ => CursorMode::Software,
        }
    }
}

/// Why switching the system cursor failed.
#[derive(Clone, Copy, Debug, PartialEq, Eq, Structural)]
pub enum ToggleError {
    /// Switching to the hardware cursor failed.
    HardwareMouseFailed,
    /// Switching to the software cursor failed.
    SoftwareMouseFailed,
}

pub open spec fn toggle_error_for(mode: CursorMode) -> ToggleError {
    match mode {
        CursorMode::Hardware => ToggleError::HardwareMouseFailed,
        CursorMode::Software => ToggleError::SoftwareMouseFailed,
    }
}

/// What the inspector knows and tells the user interface.
#[derive(Debug)]
pub struct InspectorState {
    /// Whether the watch loop is (to be) running.
    pub running: bool,
    /// The monitor the cursor was last seen on.
    pub current_monitor: MonitorInfoDto,
    /// The cursor mode last switched to.
    pub cursor_mode: CursorMode,
}

#[verifier::ext_equal]
pub struct InspectorStateView {
    pub running: bool,
    pub current_monitor: MonitorInfoDtoView,
    pub cursor_mode: CursorMode,
}

impl View for InspectorState {
    type V = InspectorStateView;

    open spec fn view(&self) -> InspectorStateView {
        InspectorStateView {
            running: self.running,
            current_monitor: self.current_monitor@,
            cursor_mode: self.cursor_mode,
        }
    }
}

impl Clone for InspectorState {
    fn clone(&self) -> (res: Self)
        ensures
            res@ == self@,
    {
        InspectorState {
            running: self.running,
            current_monitor: self.current_monitor.clone(),
            cursor_mode: self.cursor_mode,
        }
    }
}

/// A move of the cursor to another monitor: the monitor and the cursor mode
/// it calls for.
#[derive(Debug)]
pub struct MonitorChange {
    pub monitor: MonitorInfoDto,
    pub mode: CursorMode,
}

#[verifier::ext_equal]
pub struct MonitorChangeView {
    pub monitor: MonitorInfoDtoView,
    pub mode: CursorMode,
}

impl View for MonitorChange {
    type V = MonitorChangeView;

    open spec fn view(&self) -> MonitorChangeView {
        MonitorChangeView { monitor: self.monitor@, mode: self.mode }
    }
}

pub open spec fn change_option_view(o: Option<MonitorChange>) -> Option<MonitorChangeView> {
    match o {
        Some(c) => Some(c@),
        None => None,
    }
}

/// The state the inspector starts in: stopped, on the monitor under the
/// cursor (or the first monitor when that is unknown), hardware cursor.
pub open spec fn spec_initial(monitors: Seq<MonitorInfoView>, mouse_monitor: Option<MonitorInfoView>) -> InspectorStateView {
    InspectorStateView {
        running: false,
        current_monitor: dto_of(
            match mouse_monitor {
                Some(m) => m,
                None => monitors[0],
            },
        ),
        cursor_mode: CursorMode::Hardware,
    }
}

/// Starting: the loop is to run; a new loop is spawned only when none was
/// running.
pub open spec fn spec_start(s: InspectorStateView) -> (InspectorStateView, bool) {
    (InspectorStateView { running: true, ..s }, !s.running)
}

/// Stopping: the loop is to end.
pub open spec fn spec_stop(s: InspectorStateView) -> InspectorStateView {
    InspectorStateView { running: false, ..s }
}

/// Recording a cursor switch: the mode changes only when the system took it.
pub open spec fn spec_toggle(s: InspectorStateView, mode: CursorMode, applied: bool) -> (InspectorStateView, Result<(), ToggleError>) {
    if applied {
        (InspectorStateView { cursor_mode: mode, ..s }, Ok(()))
    } else {
        (s, Err(toggle_error_for(mode)))
    }
}

/// What to do about the monitor under the cursor: nothing when it is unknown
/// or is the current monitor (compared by decoded device path), otherwise
/// move to it with the cursor mode its orientation calls for.
pub open spec fn spec_plan(s: InspectorStateView, mouse_monitor: Option<MonitorInfoView>) -> Option<MonitorChangeView> {
    match mouse_monitor {
        None => None,
        Some(m) => if s.current_monitor.path == utf16_lossy(m.path) {
            None
        } else {
            Some(MonitorChangeView { monitor: dto_of(m), mode: mode_for(m.orientation) })
        },
    }
}

/// Carrying out a move: record the cursor switch (kept only when the system
/// took it), then take the new monitor as current.
pub open spec fn spec_apply(s: InspectorStateView, change: MonitorChangeView, mode_applied: bool) -> InspectorStateView {
    InspectorStateView {
        current_monitor: change.monitor,
        ..spec_toggle(s, change.mode, mode_applied).0
    }
}

impl InspectorState {
    /// The state before the inspector is started.
    pub fn initial(monitors: &[MonitorInfo], mouse_monitor: Option<MonitorInfo>) -> (res: InspectorState)
        requires
            mouse_monitor is Some || monitors@.len() > 0,
        ensures
            res@ == spec_initial(views(monitors@), monitor_option_view(mouse_monitor)),
    {
        let monitor = match mouse_monitor {
            Some(m) => m,
            None => monitors[0].clone(),
        };
        InspectorState {
            running: false,
            current_monitor: MonitorInfoDto::from_info(monitor),
            cursor_mode: CursorMode::Hardware,
        }
    }

    /// Marks the loop as running; returns whether a watch loop must be
    /// spawned (it must not when one is already running).
    pub fn start(&mut self) -> (spawn: bool)
        ensures
            (final(self)@, spawn) == spec_start(old(self)@),
    {
        if self.running {
            return false;
        }
        self.running = true;
        true
    }

    /// Marks the loop as stopped.
    pub fn stop(&mut self)
        ensures
            final(self)@ == spec_stop(old(self)@),
    {
        self.running = false;
    }

    /// A copy of the state, as handed to the user interface.
    pub fn get_state(&self) -> (res: InspectorState)
        ensures
            res@ == self@,
    {
        self.clone()
    }

    /// Whether the watch loop goes on for another pass.
    pub fn keeps_watching(&self) -> (res: bool)
        ensures
            res == self.running,
    {
        self.running
    }

    /// Records the outcome of switching the system cursor to `mode`:
    /// `applied` tells whether the system took the switch.
    pub fn toggle_mouse_mode(&mut self, mode: CursorMode, applied: bool) -> (res: Result<(), ToggleError>)
        ensures
            (final(self)@, res) == spec_toggle(old(self)@, mode, applied),
    {
        if !applied {
            return match mode {
                CursorMode::Hardware => Err(ToggleError::HardwareMouseFailed),
                CursorMode::Software => Err(ToggleError::SoftwareMouseFailed),
            };
        }
        self.cursor_mode = mode;
        Ok(())
    }

    /// Decides what to do about the monitor under the cursor (`None` when it
    /// could not be found).
    pub fn plan_monitor_change(&self, mouse_monitor: Option<MonitorInfo>) -> (res: Option<MonitorChange>)
        ensures
            change_option_view(res) == spec_plan(self@, monitor_option_view(mouse_monitor)),
    {
        match mouse_monitor {
            None => None,
            Some(m) => {
                let mode = CursorMode::for_orientation(m.orientation);
                let monitor = MonitorInfoDto::from_info(m);
                if self.current_monitor.path == monitor.path {
                    None
                } else {
                    Some(MonitorChange { monitor, mode })
                }
            },
        }
    }

    /// Carries out a planned move once the system cursor switch has been
    /// tried (`mode_applied` tells whether it took); returns the new state
    /// for the user interface.
    pub fn apply_monitor_change(&mut self, change: MonitorChange, mode_applied: bool) -> (snapshot: InspectorState)
        ensures
            final(self)@ == spec_apply(old(self)@, change@, mode_applied),
            snapshot@ == final(self)@,
    {
        let _ = self.toggle_mouse_mode(change.mode, mode_applied);
        self.current_monitor = change.monitor;
        self.get_state()
    }
}


/// Once the inspector has moved to the monitor under the cursor, seeing the
/// same monitor again calls for nothing: the cursor is switched once per
/// monitor change, not on every pass of the watch loop.
pub proof fn lemma_change_settles(s: InspectorStateView, m: MonitorInfoView, mode_applied: bool)
    requires
        spec_plan(s, Some(m)) is Some,
    ensures
        spec_plan(spec_apply(s, spec_plan(s, Some(m))->0, mode_applied), Some(m)) is None,
{
}

/// After a move that the system took, the cursor is drawn by software
/// exactly when the new monitor is rotated, and the new monitor is the one
/// under the cursor.
pub proof fn lemma_cursor_follows_orientation(s: InspectorStateView, m: MonitorInfoView)
    requires
        spec_plan(s, Some(m)) is Some,
    ensures
        ({
            let after = spec_apply(s, spec_plan(s, Some(m))->0, true);
            &&& (after.cursor_mode == CursorMode::Software) == (m.orientation != Orientation::Default)
            &&& after.current_monitor == dto_of(m)
        }),
{
}

/// A cursor switch the system refused changes nothing.
pub proof fn lemma_failed_switch_keeps_state(s: InspectorStateView, mode: CursorMode)
    ensures
        spec_toggle(s, mode, false).0 == s,
        spec_toggle(s, mode, false).1 is Err,
{
}

/// Only `stop` ends the watch loop: planning and carrying out moves leave
/// `running` as it was.
pub proof fn lemma_watching_keeps_running(s: InspectorStateView, change: MonitorChangeView, mode_applied: bool)
    ensures
        spec_apply(s, change, mode_applied).running == s.running,
        spec_toggle(s, change.mode, mode_applied).0.running == s.running,
{
}

/// Starting twice spawns one watch loop; starting after a stop spawns a new
/// one; stopping after a start leaves the inspector stopped.
pub proof fn lemma_start_stop(s: InspectorStateView)
    ensures
        spec_start(spec_start(s).0).1 == false,
        spec_start(spec_start(s).0).0 == spec_start(s).0,
        spec_start(spec_stop(s)).1 == true,
        spec_stop(spec_start(s).0).running == false,
{
}

/// Monitors are told apart by their decoded device path and nothing else:
/// when the monitor under the cursor has another path than the current one,
/// a move to it is planned, whatever the names, carrying that monitor (its
/// decoded path, name, orientation, refresh rate) and the software cursor
/// exactly when it is rotated; when the paths are the same, nothing is
/// planned.
pub proof fn lemma_plan_by_device_path(s: InspectorStateView, m: MonitorInfoView)
    ensures
        (spec_plan(s, Some(m)) is Some) <==> s.current_monitor.path != utf16_lossy(m.path),
        spec_plan(s, Some(m)) matches Some(c) ==> {
            &&& c.monitor.path == utf16_lossy(m.path)
            &&& c.monitor.name == m.name
            &&& c.monitor.orientation == m.orientation
            &&& c.monitor.refresh_rate == m.refresh_rate
            &&& (c.mode == CursorMode::Software) <==> (m.orientation != Orientation::Default)
            &&& (c.mode == CursorMode::Hardware) <==> (m.orientation == Orientation::Default)
        },
        spec_plan(s, None) is None,
{
}

/// Two monitors with the same decoded device path get the same plan from
/// the same state, and the plan does not depend on the current monitor's
/// name, orientation or the cursor mode.
pub proof fn lemma_plan_ignores_names(s1: InspectorStateView, s2: InspectorStateView, m: MonitorInfoView)
    requires
        s1.current_monitor.path == s2.current_monitor.path,
    ensures
        spec_plan(s1, Some(m)) == spec_plan(s2, Some(m)),
{
}

/// The software cursor is selected by setting mouse trails to -1 (all bits
/// set), the hardware cursor by setting them to 0.
pub proof fn lemma_mouse_trails()
    ensures
        spec_mouse_trails(CursorMode::Software) == u32::MAX,
        spec_mouse_trails(CursorMode::Hardware) == 0,
{
}

/// The inspector starts stopped, with the hardware cursor, on the monitor
/// under the cursor when it is known and on the first listed monitor
/// otherwise, shown by its decoded path.
pub proof fn lemma_initial_state(monitors: Seq<MonitorInfoView>, mouse_monitor: Option<MonitorInfoView>)
    ensures
        !spec_initial(monitors, mouse_monitor).running,
        spec_initial(monitors, mouse_monitor).cursor_mode == CursorMode::Hardware,
        mouse_monitor matches Some(m) ==> spec_initial(monitors, mouse_monitor).current_monitor.path
            == utf16_lossy(m.path) && spec_initial(monitors, mouse_monitor).current_monitor.name
            == m.name,
        mouse_monitor is None ==> spec_initial(monitors, mouse_monitor).current_monitor.path
            == utf16_lossy(monitors[0].path) && spec_initial(
            monitors,
            mouse_monitor,
        ).current_monitor.name == monitors[0].name,
{
}

} // verus!
