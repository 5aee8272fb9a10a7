use monitor_fixer::display::{
    begin_monitor_scan, get_mouse_monitor, MonitorError, MonitorInfo, MonitorInfoDto, Orientation, RefreshRate,
    ScanProgress, TargetNameReply,
};

fn units(s: &str, len: usize) -> Vec<u16> {
    let mut v: Vec<u16> = s.encode_utf16().collect();
    v.resize(len, 0);
    v
}

/// What the API answers about one path: its target-name reply, then its
/// source-name status and buffer.
struct PathAnswers {
    target: TargetNameReply,
    source_status: i32,
    gdi: Vec<u16>,
}

fn raw_path(name: &str, path: &str, gdi: &str, rotation: i32) -> PathAnswers {
    PathAnswers {
        target: TargetNameReply {
            status: 0,
            rotation,
            refresh_numerator: 59940,
            refresh_denominator: 1000,
            friendly_name: units(name, 64),
            device_path: units(path, 128),
        },
        source_status: 0,
        gdi: units(gdi, 32),
    }
}

/// Everything the library asked for while listing.
#[derive(Debug, Default, PartialEq)]
struct Asked {
    query: bool,
    target_names: Vec<u32>,
    source_names: Vec<u32>,
}

/// Drives the listing the way the application does, answering from the
/// given values and recording each request.
fn scan(sizes_status: u32, path_count: u32, query_status: u32, mut answers: Vec<PathAnswers>) -> (Result<Vec<MonitorInfo>, MonitorError>, Asked) {
    let mut asked = Asked::default();
    let pending = match begin_monitor_scan(sizes_status, path_count) {
        Ok(p) => p,
        Err(e) => return (Err(e), asked),
    };
    asked.query = true;
    let mut next = match pending.on_query(query_status) {
        Ok(t) => t,
        Err(e) => return (Err(e), asked),
    };
    loop {
        let index = next.index;
        asked.target_names.push(index);
        let answer = std::mem::replace(&mut answers[index as usize], raw_path("", "", "", 0));
        let source = match next.on_target_name(answer.target) {
            Ok(s) => s,
            Err(e) => return (Err(e), asked),
        };
        asked.source_names.push(index);
        match source.on_source_name(answer.source_status, answer.gdi) {
            Ok(ScanProgress::Next(t)) => next = t,
            Ok(ScanProgress::Done(ms)) => return (Ok(ms), asked),
            Err(e) => return (Err(e), asked),
        }
    }
}

fn scan_all(answers: Vec<PathAnswers>) -> Result<Vec<MonitorInfo>, MonitorError> {
    let n = answers.len() as u32;
    scan(0, n, 0, answers).0
}

fn one(answer: PathAnswers) -> Result<MonitorInfo, MonitorError> {
    scan_all(vec![answer]).map(|mut ms| ms.remove(0))
}

fn monitor(path: &str, gdi: &str, orientation: Orientation) -> MonitorInfo {
    MonitorInfo {
        path: path.encode_utf16().collect(),
        gdi_path: gdi.encode_utf16().collect(),
        name: format!("Monitor {}", gdi),
        orientation,
        refresh_rate: RefreshRate { numerator: 60, denominator: 1 },
    }
}

#[test]
fn orientation_codes() {
    assert_eq!(Orientation::from_rotation(1), Orientation::Default);
    assert_eq!(Orientation::from_rotation(2), Orientation::RotateLeft);
    assert_eq!(Orientation::from_rotation(3), Orientation::Rotate180);
    assert_eq!(Orientation::from_rotation(4), Orientation::RotateRight);
    assert_eq!(Orientation::from_rotation(0), Orientation::Default);
    assert_eq!(Orientation::from_rotation(5), Orientation::Default);
    assert_eq!(Orientation::from_rotation(-1), Orientation::Default);
}

#[test]
fn listing_reads_all_fields() {
    let m = one(raw_path("DELL U2720Q", r"\\?\DISPLAY#DEL4", r"\\.\DISPLAY2", 2)).unwrap();
    assert_eq!(m.name, "DELL U2720Q");
    assert_eq!(m.path, r"\\?\DISPLAY#DEL4".encode_utf16().collect::<Vec<u16>>());
    assert_eq!(m.gdi_path, r"\\.\DISPLAY2".encode_utf16().collect::<Vec<u16>>());
    assert_eq!(m.orientation, Orientation::RotateLeft);
    assert_eq!(m.refresh_rate, RefreshRate { numerator: 59940, denominator: 1000 });
}

#[test]
fn listing_stops_names_at_first_nul() {
    let mut raw = raw_path("AB", "P", "G", 1);
    raw.target.friendly_name = vec![0x41, 0x42, 0, 0x43, 0];
    assert_eq!(one(raw).unwrap().name, "AB");
    let mut raw = raw_path("AB", "P", "G", 1);
    raw.target.friendly_name = vec![0];
    assert_eq!(one(raw).unwrap().name, "");
}

#[test]
fn listing_decodes_names_lossily() {
    let mut raw = raw_path("", "P", "G", 1);
    raw.target.friendly_name = vec![0x48, 0xD800, 0x69, 0];
    assert_eq!(one(raw).unwrap().name, "H\u{FFFD}i");
}

#[test]
fn path_errors_in_order() {
    let mut raw = raw_path("N", "P", "G", 1);
    raw.target.status = 31;
    raw.target.friendly_name = vec![0x41; 64];
    raw.source_status = 5;
    let (res, asked) = scan(0, 1, 0, vec![raw]);
    assert_eq!(res.unwrap_err(), MonitorError::TargetNameFailed);
    assert!(asked.source_names.is_empty());

    let mut raw = raw_path("N", "P", "G", 1);
    raw.target.friendly_name = vec![0x41; 64];
    raw.target.device_path = vec![0x41; 128];
    let (res, asked) = scan(0, 1, 0, vec![raw]);
    assert_eq!(res.unwrap_err(), MonitorError::InvalidFriendlyName);
    assert!(asked.source_names.is_empty());

    let mut raw = raw_path("N", "P", "G", 1);
    raw.target.device_path = vec![0x41; 128];
    raw.source_status = 5;
    assert_eq!(one(raw).unwrap_err(), MonitorError::InvalidMonitorPath);

    let mut raw = raw_path("N", "P", "G", 1);
    raw.source_status = 5;
    raw.gdi = vec![0x41; 32];
    assert_eq!(one(raw).unwrap_err(), MonitorError::SourceNameFailed);

    let mut raw = raw_path("N", "P", "G", 1);
    raw.gdi = vec![0x41; 32];
    assert_eq!(one(raw).unwrap_err(), MonitorError::InvalidGdiPath);

    let mut raw = raw_path("N", "P", "G", 1);
    raw.gdi = vec![];
    assert_eq!(one(raw).unwrap_err(), MonitorError::InvalidGdiPath);
}

#[test]
fn test_get_all_displays() {
    let monitors = scan_all(vec![raw_path("Main", r"\\?\MON1", r"\\.\DISPLAY1", 1)]).unwrap();
    assert_ne!(monitors.len(), 0);
}

#[test]
fn listing_keeps_order_and_asks_each_path_once() {
    let (res, asked) = scan(
        0,
        2,
        0,
        vec![
            raw_path("Main", r"\\?\MON1", r"\\.\DISPLAY1", 1),
            raw_path("Side", r"\\?\MON2", r"\\.\DISPLAY2", 4),
        ],
    );
    let monitors = res.unwrap();
    assert_eq!(monitors.len(), 2);
    assert_eq!(monitors[0].name, "Main");
    assert_eq!(monitors[1].name, "Side");
    assert_eq!(monitors[1].orientation, Orientation::RotateRight);
    assert_eq!(asked, Asked { query: true, target_names: vec![0, 1], source_names: vec![0, 1] });
}

#[test]
fn failed_sizes_ask_nothing_more() {
    let (res, asked) = scan(5, 2, 87, vec![raw_path("Main", "P", "G", 1)]);
    assert_eq!(res.unwrap_err(), MonitorError::BufferSizesFailed(5));
    assert_eq!(asked, Asked::default());
    let (res, asked) = scan(0, 0, 0, vec![]);
    assert_eq!(res.unwrap_err(), MonitorError::NoActivePaths);
    assert_eq!(asked, Asked::default());
}

#[test]
fn failed_query_asks_no_names() {
    let (res, asked) = scan(0, 1, 87, vec![raw_path("Main", "P", "G", 1)]);
    assert_eq!(res.unwrap_err(), MonitorError::QueryFailed(87));
    assert_eq!(asked, Asked { query: true, target_names: vec![], source_names: vec![] });
    assert_eq!(scan_all(vec![raw_path("Main", "P", "G", 1)]).unwrap().len(), 1);
}

#[test]
fn first_failing_path_ends_the_listing() {
    let mut second = raw_path("B", "P2", "G2", 1);
    second.source_status = 1;
    let mut third = raw_path("C", "P3", "G3", 1);
    third.target.status = 1;
    let (res, asked) = scan(0, 3, 0, vec![raw_path("A", "P1", "G1", 1), second, third]);
    assert_eq!(res.unwrap_err(), MonitorError::SourceNameFailed);
    assert_eq!(asked.target_names, vec![0, 1]);
}

#[test]
fn test_get_mouse_monitor() {
    let monitors = vec![
        monitor(r"\\?\MON1", r"\\.\DISPLAY1", Orientation::Default),
        monitor(r"\\?\MON2", r"\\.\DISPLAY2", Orientation::RotateLeft),
    ];
    let monitor = get_mouse_monitor(&monitors, Some(units(r"\\.\DISPLAY2", 32)));
    assert!(monitor.is_some());
    assert_eq!(monitor.unwrap().orientation, Orientation::RotateLeft);
}

#[test]
fn get_mouse_monitor_misses() {
    let monitors = vec![monitor(r"\\?\MON1", r"\\.\DISPLAY1", Orientation::Default)];
    assert!(get_mouse_monitor(&monitors, None).is_none());
    assert!(get_mouse_monitor(&monitors, Some(units(r"\\.\DISPLAY3", 32))).is_none());
    // no terminator: the device name cannot be read
    let no_nul: Vec<u16> = r"\\.\DISPLAY1".encode_utf16().collect();
    assert!(get_mouse_monitor(&monitors, Some(no_nul)).is_none());
    // a longer name does not match a prefix
    assert!(get_mouse_monitor(&monitors, Some(units(r"\\.\DISPLAY10", 32))).is_none());
    assert!(get_mouse_monitor(&[], Some(units(r"\\.\DISPLAY1", 32))).is_none());
}

#[test]
fn get_mouse_monitor_takes_first_match() {
    let monitors = vec![
        monitor(r"\\?\MON1", r"\\.\DISPLAY1", Orientation::Default),
        monitor(r"\\?\MON2", r"\\.\DISPLAY1", Orientation::Rotate180),
    ];
    let m = get_mouse_monitor(&monitors, Some(units(r"\\.\DISPLAY1", 32))).unwrap();
    assert_eq!(m.path, r"\\?\MON1".encode_utf16().collect::<Vec<u16>>());
}

#[test]
fn dto_decodes_path() {
    let m = monitor(r"\\?\MON1", r"\\.\DISPLAY1", Orientation::RotateRight);
    let copy = m.clone();
    assert_eq!(copy.path, m.path);
    let dto = MonitorInfoDto::from_info(m);
    assert_eq!(dto.path, r"\\?\MON1");
    assert_eq!(dto.name, r"Monitor \\.\DISPLAY1");
    assert_eq!(dto.orientation, Orientation::RotateRight);
    assert_eq!(dto.refresh_rate, RefreshRate { numerator: 60, denominator: 1 });
}

