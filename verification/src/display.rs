//! Displays: what the display configuration API reports about each active
//! display path, and the monitors the inspector works with.

use vstd::prelude::*;
use crate::wide::{decode_lossy, terminated_prefix, truncate_at_nul, utf16_lossy};

verus! {

/// Rotation codes of the display configuration API (`DISPLAYCONFIG_ROTATION`).
pub const ROTATION_IDENTITY: i32 = 1;
pub const ROTATION_ROTATE90: i32 = 2;
pub const ROTATION_ROTATE180: i32 = 3;
pub const ROTATION_ROTATE270: i32 = 4;

/// How a monitor's picture is turned.
#[derive(Clone, Copy, Debug, PartialEq, Eq, Structural)]
pub enum Orientation {
    Default,
    RotateLeft,
    RotateRight,
    Rotate180,
}

/// The orientation a rotation code stands for; unknown codes count as
/// unrotated.
pub open spec fn orientation_of(rotation: i32) -> Orientation {
    if rotation == ROTATION_ROTATE90 {
        Orientation::RotateLeft
    } else if rotation == ROTATION_ROTATE270 {
        Orientation::RotateRight
    } else if rotation == ROTATION_ROTATE180 {
        Orientation::Rotate180
    } else {
        Orientation::Default
    }
}

impl Orientation {
    /// Maps a `DISPLAYCONFIG_ROTATION` code to an orientation.
    pub fn from_rotation(rotation: i32) -> (o: Orientation)
        ensures
            o == orientation_of(rotation),
    {
        if rotation == ROTATION_IDENTITY {
            Orientation::Default
        } else if rotation == ROTATION_ROTATE90 {
            Orientation::RotateLeft
        } else if rotation == ROTATION_ROTATE270 {
            Orientation::RotateRight
        } else if rotation == ROTATION_ROTATE180 {
            Orientation::Rotate180
        } else {
            Orientation::Default
        }
    }
}

/// A refresh rate as the rational number the API reports (in hertz:
/// `numerator / denominator`).
#[derive(Clone, Copy, Debug, PartialEq, Eq, Structural)]
pub struct RefreshRate {
    pub numerator: u32,
    pub denominator: u32,
}

/// A monitor as found on an active display path.
#[derive(Debug)]
pub struct MonitorInfo {
    /// Device interface path of the monitor (the units before the nul).
    pub path: Vec<u16>,
    /// GDI device name of the display source driving it (`\\.\DISPLAY1`, ...).
    pub gdi_path: Vec<u16>,
    /// Friendly name of the monitor.
    pub name: String,
    pub orientation: Orientation,
    pub refresh_rate: RefreshRate,
}

pub struct MonitorInfoView {
    pub path: Seq<u16>,
    pub gdi_path: Seq<u16>,
    pub name: Seq<char>,
    pub orientation: Orientation,
    pub refresh_rate: RefreshRate,
}

impl View for MonitorInfo {
    type V = MonitorInfoView;

    open spec fn view(&self) -> MonitorInfoView {
        MonitorInfoView {
            path: self.path@,
            gdi_path: self.gdi_path@,
            name: self.name@,
            orientation: self.orientation,
            refresh_rate: self.refresh_rate,
        }
    }
}

impl Clone for MonitorInfo {
    fn clone(&self) -> (res: Self)
        ensures
            res@ == self@,
    {
        MonitorInfo {
            path: copy_units(&self.path),
            gdi_path: copy_units(&self.gdi_path),
            name: self.name.clone(),
            orientation: self.orientation,
            refresh_rate: self.refresh_rate,
        }
    }
}

fn copy_units(units: &Vec<u16>) -> (res: Vec<u16>)
    ensures
        res@ == units@,
{
    let mut res: Vec<u16> = Vec::new();
    let mut i: usize = 0;
    while i < units.len()
        invariant
            i <= units.len(),
            res@ == units@.take(i as int),
        decreases units.len() - i,
    {
        res.push(units[i]);
        i = i + 1;
        assert(res@ =~= units@.take(i as int));
    }
    assert(units@.take(units.len() as int) =~= units@);
    res
}

/// Whether two unit sequences are equal.
fn same_units(a: &[u16], b: &[u16]) -> (res: bool)
    ensures
        res == (a@ == b@),
{
    if a.len() != b.len() {
        return false;
    }
    let mut i: usize = 0;
    while i < a.len()
        invariant
            i <= a.len(),
            a@.len() == b@.len(),
            forall|j: int| 0 <= j < i ==> a@[j] == b@[j],
        decreases a.len() - i,
    {
        if a[i] != b[i] {
            return false;
        }
        i = i + 1;
    }
    assert(a@ =~= b@);
    true
}

/// The monitor as shown to the user interface: its path decoded to text.
#[derive(Debug)]
pub struct MonitorInfoDto {
    pub path: String,
    pub name: String,
    pub orientation: Orientation,
    pub refresh_rate: RefreshRate,
}

pub struct MonitorInfoDtoView {
    pub path: Seq<char>,
    pub name: Seq<char>,
    pub orientation: Orientation,
    pub refresh_rate: RefreshRate,
}

impl View for MonitorInfoDto {
    type V = MonitorInfoDtoView;

    open spec fn view(&self) -> MonitorInfoDtoView {
        MonitorInfoDtoView {
            path: self.path@,
            name: self.name@,
            orientation: self.orientation,
            refresh_rate: self.refresh_rate,
        }
    }
}

impl Clone for MonitorInfoDto {
    fn clone(&self) -> (res: Self)
        ensures
            res@ == self@,
    {
        MonitorInfoDto {
            path: self.path.clone(),
            name: self.name.clone(),
            orientation: self.orientation,
            refresh_rate: self.refresh_rate,
        }
    }
}

/// What the user interface is told about a monitor.
pub open spec fn dto_of(m: MonitorInfoView) -> MonitorInfoDtoView {
    MonitorInfoDtoView {
        path: utf16_lossy(m.path),
        name: m.name,
        orientation: m.orientation,
        refresh_rate: m.refresh_rate,
    }
}

impl MonitorInfoDto {
    /// Converts a monitor for the user interface, decoding its path.
    pub fn from_info(value: MonitorInfo) -> (res: MonitorInfoDto)
        ensures
            res@ == dto_of(value@),
    {
        MonitorInfoDto {
            path: decode_lossy(value.path.as_slice()),
            name: value.name,
            orientation: value.orientation,
            refresh_rate: value.refresh_rate,
        }
    }
}


/// Why the list of monitors could not be read.
#[derive(Clone, Copy, Debug, PartialEq, Eq, Structural)]
pub enum MonitorError {
    /// Asking for the buffer sizes failed with this status code.
    BufferSizesFailed(u32),
    /// There is no active display path.
    NoActivePaths,
    /// Querying the display configuration failed with this status code.
    QueryFailed(u32),
    /// Asking for a path's target (monitor) names failed.
    TargetNameFailed,
    /// The monitor's friendly name holds no nul terminator.
    InvalidFriendlyName,
    /// The monitor's device path holds no nul terminator.
    InvalidMonitorPath,
    /// Asking for a path's source (GDI device) name failed.
    SourceNameFailed,
    /// The source's GDI device name holds no nul terminator.
    InvalidGdiPath,
}

pub open spec fn views(ms: Seq<MonitorInfo>) -> Seq<MonitorInfoView> {
    ms.map_values(|m: MonitorInfo| m@)
}

// Listing the monitors is a conversation with the display configuration
// API, one step at a time: the buffer sizes, the configuration query, then
// for each active path its target (monitor) names and its source (GDI device)
// name. Each step takes the answer to the last request and either fails, and
// so asks for nothing more, or says what to ask next.

/// The buffer sizes were answered: the configuration is to be queried with
/// room for `path_count` paths.
#[derive(Debug)]
pub struct QueryPending {
    pub path_count: u32,
}

/// The target names of path `index` are to be asked for; `monitors` holds
/// the monitors of the paths before it.
#[derive(Debug)]
pub struct TargetPending {
    pub path_count: u32,
    pub index: u32,
    pub monitors: Vec<MonitorInfo>,
}

pub struct TargetPendingView {
    pub path_count: u32,
    pub index: u32,
    pub monitors: Seq<MonitorInfoView>,
}

impl View for TargetPending {
    type V = TargetPendingView;

    open spec fn view(&self) -> TargetPendingView {
        TargetPendingView { path_count: self.path_count, index: self.index, monitors: views(self.monitors@) }
    }
}

impl TargetPendingView {
    /// The monitors of all paths before `index` are listed, and `index` is a
    /// path.
    pub open spec fn wf(self) -> bool {
        &&& self.monitors.len() == self.index
        &&& self.index < self.path_count
    }
}

/// The answer to a target-name request, with what the queried path itself
/// tells of its target.
#[derive(Debug)]
pub struct TargetNameReply {
    /// Status of the request (0 on success).
    pub status: i32,
    /// `targetInfo.rotation` of the path.
    pub rotation: i32,
    /// `targetInfo.refreshRate` of the path.
    pub refresh_numerator: u32,
    pub refresh_denominator: u32,
    /// `monitorFriendlyDeviceName` buffer.
    pub friendly_name: Vec<u16>,
    /// `monitorDevicePath` buffer.
    pub device_path: Vec<u16>,
}

pub struct TargetNameReplyView {
    pub status: i32,
    pub rotation: i32,
    pub refresh_numerator: u32,
    pub refresh_denominator: u32,
    pub friendly_name: Seq<u16>,
    pub device_path: Seq<u16>,
}

impl View for TargetNameReply {
    type V = TargetNameReplyView;

    open spec fn view(&self) -> TargetNameReplyView {
        TargetNameReplyView {
            status: self.status,
            rotation: self.rotation,
            refresh_numerator: self.refresh_numerator,
            refresh_denominator: self.refresh_denominator,
            friendly_name: self.friendly_name@,
            device_path: self.device_path@,
        }
    }
}

/// The source name of path `index` is to be asked for; what its target
/// names told is kept.
#[derive(Debug)]
pub struct SourcePending {
    pub path_count: u32,
    pub index: u32,
    pub monitors: Vec<MonitorInfo>,
    pub name: String,
    pub path: Vec<u16>,
    pub orientation: Orientation,
    pub refresh_rate: RefreshRate,
}

pub struct SourcePendingView {
    pub path_count: u32,
    pub index: u32,
    pub monitors: Seq<MonitorInfoView>,
    pub name: Seq<char>,
    pub path: Seq<u16>,
    pub orientation: Orientation,
    pub refresh_rate: RefreshRate,
}

impl View for SourcePending {
    type V = SourcePendingView;

    open spec fn view(&self) -> SourcePendingView {
        SourcePendingView {
            path_count: self.path_count,
            index: self.index,
            monitors: views(self.monitors@),
            name: self.name@,
            path: self.path@,
            orientation: self.orientation,
            refresh_rate: self.refresh_rate,
        }
    }
}

impl SourcePendingView {
    pub open spec fn wf(self) -> bool {
        &&& self.monitors.len() == self.index
        &&& self.index < self.path_count
    }
}

/// Where the listing stands after a path's source name was answered.
#[derive(Debug)]
pub enum ScanProgress {
    /// Go on with the next path.
    Next(TargetPending),
    /// All paths are listed.
    Done(Vec<MonitorInfo>),
}

pub enum ScanProgressView {
    Next(TargetPendingView),
    Done(Seq<MonitorInfoView>),
}

pub open spec fn progress_result_view(r: Result<ScanProgress, MonitorError>) -> Result<ScanProgressView, MonitorError> {
    match r {
        Ok(ScanProgress::Next(t)) => Ok(ScanProgressView::Next(t@)),
        Ok(ScanProgress::Done(ms)) => Ok(ScanProgressView::Done(views(ms@))),
        Err(e) => Err(e),
    }
}

/// After the buffer sizes were answered.
pub open spec fn spec_begin(sizes_status: u32, path_count: u32) -> Result<u32, MonitorError> {
    if sizes_status != 0 {
        Err(MonitorError::BufferSizesFailed(sizes_status))
    } else if path_count == 0 {
        Err(MonitorError::NoActivePaths)
    } else {
        Ok(path_count)
    }
}

/// After the configuration query was answered: the first path comes next,
/// with nothing listed yet.
pub open spec fn spec_on_query(path_count: u32, status: u32) -> Result<TargetPendingView, MonitorError> {
    if status != 0 {
        Err(MonitorError::QueryFailed(status))
    } else {
        Ok(TargetPendingView { path_count, index: 0, monitors: Seq::empty() })
    }
}

/// After a path's target names were answered: the reply is checked in the
/// order status, friendly name, device path.
pub open spec fn spec_on_target_name(t: TargetPendingView, reply: TargetNameReplyView) -> Result<SourcePendingView, MonitorError> {
    if reply.status != 0 {
        Err(MonitorError::TargetNameFailed)
    } else if terminated_prefix(reply.friendly_name) is None {
        Err(MonitorError::InvalidFriendlyName)
    } else if terminated_prefix(reply.device_path) is None {
        Err(MonitorError::InvalidMonitorPath)
    } else {
        Ok(
            SourcePendingView {
                path_count: t.path_count,
                index: t.index,
                monitors: t.monitors,
                name: utf16_lossy(terminated_prefix(reply.friendly_name)->0),
                path: terminated_prefix(reply.device_path)->0,
                orientation: orientation_of(reply.rotation),
                refresh_rate: RefreshRate {
                    numerator: reply.refresh_numerator,
                    denominator: reply.refresh_denominator,
                },
            },
        )
    }
}

/// After a path's source name was answered: its monitor is listed, then the
/// next path follows, or the listing is done after the last one.
pub open spec fn spec_on_source_name(s: SourcePendingView, status: i32, gdi_device_name: Seq<u16>) -> Result<ScanProgressView, MonitorError> {
    if status != 0 {
        Err(MonitorError::SourceNameFailed)
    } else if terminated_prefix(gdi_device_name) is None {
        Err(MonitorError::InvalidGdiPath)
    } else {
        let monitors = s.monitors.push(
            MonitorInfoView {
                path: s.path,
                gdi_path: terminated_prefix(gdi_device_name)->0,
                name: s.name,
                orientation: s.orientation,
                refresh_rate: s.refresh_rate,
            },
        );
        if s.index + 1 < s.path_count {
            Ok(ScanProgressView::Next(TargetPendingView { path_count: s.path_count, index: (s.index + 1) as u32, monitors }))
        } else {
            Ok(ScanProgressView::Done(monitors))
        }
    }
}

/// Starts listing the monitors from the answer to the buffer-size request:
/// fails when the request failed or reported no active path, and otherwise
/// asks for the configuration with room for the reported paths.
pub fn begin_monitor_scan(sizes_status: u32, path_count: u32) -> (res: Result<QueryPending, MonitorError>)
    ensures
        match res {
            Ok(q) => spec_begin(sizes_status, path_count) == Ok::<u32, MonitorError>(q.path_count),
            Err(e) => spec_begin(sizes_status, path_count) == Err::<u32, MonitorError>(e),
        },
        res matches Ok(q) ==> q.path_count > 0,
{
    if sizes_status != 0 {
        return Err(MonitorError::BufferSizesFailed(sizes_status));
    }
    if path_count == 0 {
        return Err(MonitorError::NoActivePaths);
    }
    Ok(QueryPending { path_count })
}

impl QueryPending {
    /// Takes the status of the configuration query: fails when it failed, and
    /// otherwise goes on with the first path, nothing listed yet.
    pub fn on_query(self, status: u32) -> (res: Result<TargetPending, MonitorError>)
        ensures
            match res {
                Ok(t) => spec_on_query(self.path_count, status) == Ok::<TargetPendingView, MonitorError>(t@),
                Err(e) => spec_on_query(self.path_count, status) == Err::<TargetPendingView, MonitorError>(e),
            },
            self.path_count > 0 ==> (res matches Ok(t) ==> t@.wf()),
    {
        if status != 0 {
            return Err(MonitorError::QueryFailed(status));
        }
        let monitors: Vec<MonitorInfo> = Vec::new();
        assert(views(monitors@) =~= Seq::<MonitorInfoView>::empty());
        Ok(TargetPending { path_count: self.path_count, index: 0, monitors })
    }
}

impl TargetPending {
    /// Takes the answer to the target-name request of path `index`: fails on
    /// a failed request or an unreadable name or path, and otherwise asks for
    /// the path's source name.
    pub fn on_target_name(self, reply: TargetNameReply) -> (res: Result<SourcePending, MonitorError>)
        ensures
            match res {
                Ok(s) => spec_on_target_name(self@, reply@) == Ok::<SourcePendingView, MonitorError>(s@),
                Err(e) => spec_on_target_name(self@, reply@) == Err::<SourcePendingView, MonitorError>(e),
            },
            self@.wf() ==> (res matches Ok(s) ==> s@.wf()),
    {
        if reply.status != 0 {
            return Err(MonitorError::TargetNameFailed);
        }
        let name_units = match truncate_at_nul(reply.friendly_name.as_slice()) {
            Some(units) => units,
            None => return Err(MonitorError::InvalidFriendlyName),
        };
        let name = decode_lossy(name_units.as_slice());
        let path = match truncate_at_nul(reply.device_path.as_slice()) {
            Some(units) => units,
            None => return Err(MonitorError::InvalidMonitorPath),
        };
        Ok(
            SourcePending {
                path_count: self.path_count,
                index: self.index,
                monitors: self.monitors,
                name,
                path,
                orientation: Orientation::from_rotation(reply.rotation),
                refresh_rate: RefreshRate {
                    numerator: reply.refresh_numerator,
                    denominator: reply.refresh_denominator,
                },
            },
        )
    }
}

impl SourcePending {
    /// Takes the answer to the source-name request of path `index`: fails on
    /// a failed request or an unreadable device name, and otherwise lists the
    /// path's monitor and goes on with the next path, or ends after the last.
    /// A finished list is never empty, and holds one monitor per path when
    /// the listing was well under way.
    pub fn on_source_name(self, status: i32, gdi_device_name: Vec<u16>) -> (res: Result<ScanProgress, MonitorError>)
        ensures
            progress_result_view(res) == spec_on_source_name(self@, status, gdi_device_name@),
            res matches Ok(ScanProgress::Done(ms)) ==> ms@.len() >= 1,
            self@.wf() ==> (res matches Ok(ScanProgress::Next(t)) ==> t@.wf()),
            self@.wf() ==> (res matches Ok(ScanProgress::Done(ms)) ==> ms@.len() == self.path_count),
    {
        if status != 0 {
            return Err(MonitorError::SourceNameFailed);
        }
        let gdi_path = match truncate_at_nul(gdi_device_name.as_slice()) {
            Some(units) => units,
            None => return Err(MonitorError::InvalidGdiPath),
        };
        let SourcePending { path_count, index, monitors, name, path, orientation, refresh_rate } = self;
        let mut monitors = monitors;
        let ghost before = monitors@;
        monitors.push(MonitorInfo { path, gdi_path, name, orientation, refresh_rate });
        assert(views(monitors@) =~= views(before).push(monitors@[before.len() as int]@));
        if index < path_count && path_count - index > 1 {
            Ok(ScanProgress::Next(TargetPending { path_count, index: index + 1, monitors }))
        } else {
            Ok(ScanProgress::Done(monitors))
        }
    }
}

/// A listing that gets through ends with one monitor for each path the
/// buffer-size request reported, so a successful list is never empty; a
/// failed answer ends it at once, with nothing more to ask.
pub proof fn lemma_listing_covers_paths(s: SourcePendingView, status: i32, gdi_device_name: Seq<u16>)
    requires
        s.wf(),
    ensures
        spec_on_source_name(s, status, gdi_device_name) matches Ok(ScanProgressView::Done(ms))
            ==> ms.len() == s.path_count && ms.len() >= 1,
        spec_on_source_name(s, status, gdi_device_name) matches Ok(ScanProgressView::Next(t))
            ==> t.wf() && t.monitors.len() == s.monitors.len() + 1,
        status != 0 ==> spec_on_source_name(s, status, gdi_device_name) is Err,
{
}

/// Rotation codes and orientations correspond one to one: code 2 is turned
/// left, 4 turned right, 3 upside down, and every other code (1 among them)
/// is unrotated.
pub proof fn lemma_rotation_codes(rotation: i32)
    ensures
        (orientation_of(rotation) == Orientation::RotateLeft) <==> rotation == 2,
        (orientation_of(rotation) == Orientation::RotateRight) <==> rotation == 4,
        (orientation_of(rotation) == Orientation::Rotate180) <==> rotation == 3,
        (orientation_of(rotation) == Orientation::Default) <==> (rotation != 2 && rotation != 3
            && rotation != 4),
{
}

/// A successful target-name answer is kept whole: the monitor on the path
/// gets the orientation its rotation code stands for (3 upside down, 2 left,
/// 4 right, anything else unrotated), the name before the first nul of the
/// friendly-name buffer, decoded, the device path before its first nul, and
/// the reported refresh rate; the path and what was listed before stay as
/// they were.
pub proof fn lemma_target_answer_kept(t: TargetPendingView, reply: TargetNameReplyView)
    ensures
        (spec_on_target_name(t, reply) is Ok) <==> (reply.status == 0 && terminated_prefix(
            reply.friendly_name,
        ) is Some && terminated_prefix(reply.device_path) is Some),
        spec_on_target_name(t, reply) matches Ok(s) ==> {
            &&& (reply.rotation == 3 ==> s.orientation == Orientation::Rotate180)
            &&& (reply.rotation == 2 ==> s.orientation == Orientation::RotateLeft)
            &&& (reply.rotation == 4 ==> s.orientation == Orientation::RotateRight)
            &&& (reply.rotation != 2 && reply.rotation != 3 && reply.rotation != 4
                ==> s.orientation == Orientation::Default)
            &&& Some(s.path) == terminated_prefix(reply.device_path)
            &&& s.name == utf16_lossy(terminated_prefix(reply.friendly_name)->0)
            &&& s.refresh_rate.numerator == reply.refresh_numerator
            &&& s.refresh_rate.denominator == reply.refresh_denominator
            &&& s.index == t.index
            &&& s.path_count == t.path_count
            &&& s.monitors == t.monitors
        },
{
}

/// A successful source-name answer lists exactly one more monitor, last,
/// carrying what the target answer gave (orientation, name, path, refresh
/// rate) and the device name before the first nul; the monitors listed
/// before are untouched.
pub proof fn lemma_source_answer_lists_monitor(s: SourcePendingView, status: i32, gdi_device_name: Seq<u16>)
    ensures
        (spec_on_source_name(s, status, gdi_device_name) is Ok) <==> (status == 0
            && terminated_prefix(gdi_device_name) is Some),
        ({
            let listed = match spec_on_source_name(s, status, gdi_device_name) {
                Ok(ScanProgressView::Next(t)) => Some(t.monitors),
                Ok(ScanProgressView::Done(ms)) => Some(ms),
                Err(_) => None,
            };
            listed matches Some(ms) ==> {
                &&& ms.len() == s.monitors.len() + 1
                &&& ms.take(s.monitors.len() as int) == s.monitors
                &&& ms.last().orientation == s.orientation
                &&& ms.last().name == s.name
                &&& ms.last().path == s.path
                &&& ms.last().refresh_rate == s.refresh_rate
                &&& Some(ms.last().gdi_path) == terminated_prefix(gdi_device_name)
            }
        }),
{
    if let Ok(p) = spec_on_source_name(s, status, gdi_device_name) {
        let ms = match p {
            ScanProgressView::Next(t) => t.monitors,
            ScanProgressView::Done(ms) => ms,
        };
        assert(ms.take(s.monitors.len() as int) =~= s.monitors);
    }
}

/// The buffer-size answer decides alone whether the configuration is
/// queried: a failed request fails with its own status code whatever the
/// count, a successful one with no path fails with `NoActivePaths`, and
/// otherwise the query is made with room for exactly the reported paths.
pub proof fn lemma_begin_scan(sizes_status: u32, path_count: u32)
    ensures
        sizes_status != 0 ==> spec_begin(sizes_status, path_count) == Err::<u32, MonitorError>(
            MonitorError::BufferSizesFailed(sizes_status),
        ),
        sizes_status == 0 && path_count == 0 ==> spec_begin(sizes_status, path_count) == Err::<
            u32,
            MonitorError,
        >(MonitorError::NoActivePaths),
        (spec_begin(sizes_status, path_count) is Ok) <==> (sizes_status == 0 && path_count > 0),
        spec_begin(sizes_status, path_count) matches Ok(n) ==> n == path_count,
{
}

/// A failed configuration query fails with its status code; a successful
/// one starts at the first path with nothing listed.
pub proof fn lemma_query_answer(path_count: u32, status: u32)
    ensures
        status != 0 ==> spec_on_query(path_count, status) == Err::<TargetPendingView, MonitorError>(
            MonitorError::QueryFailed(status),
        ),
        status == 0 ==> (spec_on_query(path_count, status) matches Ok(t) && t.index == 0
            && t.monitors.len() == 0 && t.path_count == path_count),
{
}

/// `i` is the first monitor whose GDI device name is `device`.
pub open spec fn is_first_gdi_match(ms: Seq<MonitorInfoView>, device: Seq<u16>, i: int) -> bool {
    &&& 0 <= i < ms.len()
    &&& ms[i].gdi_path == device
    &&& forall|j: int| 0 <= j < i ==> ms[j].gdi_path != device
}

/// The first monitor driven by the GDI device `device`.
pub open spec fn find_by_gdi_path(ms: Seq<MonitorInfoView>, device: Seq<u16>) -> Option<MonitorInfoView> {
    if exists|i: int| is_first_gdi_match(ms, device, i) {
        Some(ms[choose|i: int| is_first_gdi_match(ms, device, i)])
    } else {
        None
    }
}

/// The monitor under the cursor: `cursor_device` is the GDI device-name
/// buffer of the display the cursor is on (`None` when the cursor position
/// or that display's information could not be read).
pub open spec fn spec_mouse_monitor(ms: Seq<MonitorInfoView>, cursor_device: Option<Seq<u16>>) -> Option<MonitorInfoView> {
    match cursor_device {
        None => None,
        Some(raw) => match terminated_prefix(raw) {
            None => None,
            Some(device) => find_by_gdi_path(ms, device),
        },
    }
}

pub open spec fn units_view(o: Option<Vec<u16>>) -> Option<Seq<u16>> {
    match o {
        Some(v) => Some(v@),
        None => None,
    }
}

pub open spec fn monitor_option_view(o: Option<MonitorInfo>) -> Option<MonitorInfoView> {
    match o {
        Some(m) => Some(m@),
        None => None,
    }
}

/// Picks, among `monitors`, the one on the display the cursor is on.
pub fn get_mouse_monitor(monitors: &[MonitorInfo], cursor_device: Option<Vec<u16>>) -> (res: Option<MonitorInfo>)
    ensures
        monitor_option_view(res) == spec_mouse_monitor(views(monitors@), units_view(cursor_device)),
{
    let ghost ms = views(monitors@);
    let ghost wanted = spec_mouse_monitor(ms, units_view(cursor_device));
    let raw = match cursor_device {
        Some(raw) => raw,
        None => return None,
    };
    let device = match truncate_at_nul(raw.as_slice()) {
        Some(device) => device,
        None => return None,
    };
    let mut i: usize = 0;
    while i < monitors.len()
        invariant
            i <= monitors.len(),
            ms == views(monitors@),
            ms.len() == monitors@.len(),
            wanted == find_by_gdi_path(ms, device@),
            wanted == spec_mouse_monitor(views(monitors@), units_view(cursor_device)),
            forall|j: int| 0 <= j < i ==> ms[j].gdi_path != device@,
        decreases monitors.len() - i,
    {
        if same_units(monitors[i].gdi_path.as_slice(), device.as_slice()) {
            assert(is_first_gdi_match(ms, device@, i as int));
            assert(forall|k: int| is_first_gdi_match(ms, device@, k) ==> k == i);
            assert(ms[i as int] == monitors@[i as int]@);
            let found = monitors[i].clone();
            return Some(found);
        }
        i = i + 1;
    }
    assert(!exists|k: int| is_first_gdi_match(ms, device@, k));
    None
}

/// The monitor under the cursor is a listed monitor whose GDI device name is
/// the cursor display's name (the units before its first nul), and no
/// earlier monitor has that name; none is found only when the display's
/// name is unknown or unterminated, or no listed monitor has it.
pub proof fn lemma_mouse_monitor(ms: Seq<MonitorInfoView>, cursor_device: Option<Seq<u16>>)
    ensures
        spec_mouse_monitor(ms, cursor_device) matches Some(m) ==> exists|i: int|
            0 <= i < ms.len() && ms[i] == m && Some(m.gdi_path) == terminated_prefix(
                cursor_device->0,
            ) && forall|j: int| 0 <= j < i ==> ms[j].gdi_path != m.gdi_path,
        spec_mouse_monitor(ms, cursor_device) is None <==> (cursor_device is None
            || terminated_prefix(cursor_device->0) is None || forall|i: int|
            0 <= i < ms.len() ==> ms[i].gdi_path != terminated_prefix(cursor_device->0)->0),
{
    if let Some(raw) = cursor_device {
        if let Some(device) = terminated_prefix(raw) {
            if exists|i: int| 0 <= i < ms.len() && ms[i].gdi_path == device {
                let k = choose|i: int| 0 <= i < ms.len() && ms[i].gdi_path == device;
                lemma_first_match_exists(ms, device, k);
            }
        }
    }
}

/// Where some monitor has the device name, a first one does.
proof fn lemma_first_match_exists(ms: Seq<MonitorInfoView>, device: Seq<u16>, k: int)
    requires
        0 <= k < ms.len(),
        ms[k].gdi_path == device,
    ensures
        exists|i: int| is_first_gdi_match(ms, device, i),
    decreases k,
{
    if exists|j: int| 0 <= j < k && ms[j].gdi_path == device {
        let j = choose|j: int| 0 <= j < k && ms[j].gdi_path == device;
        lemma_first_match_exists(ms, device, j);
    } else {
        assert(is_first_gdi_match(ms, device, k));
    }
}

} // verus!
