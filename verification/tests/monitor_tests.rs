use winc::metrics::Metrics;
use winc::monitor_info::{
    device_name_valid, get_monitor_infos, MonitorInfo, MonitorQuery, RawMonitorInfo,
};
use winc::monitor_region_capturer::{
    get_full_monitor_capturers, get_monitor_capturer, CaptureError, CaptureReadback,
};
use winc::rect_extensions::Rect;

fn display_query(name: &str, rect: Rect, flags: u32) -> MonitorQuery {
    MonitorQuery::Info(RawMonitorInfo { name: name.to_string(), rect, work_area: rect, flags })
}

fn full_hd() -> Rect {
    Rect { left: 0, top: 0, right: 1920, bottom: 1080 }
}

#[test]
fn enumeration_twice_yields_identical_ids() {
    let queries = vec![
        display_query("\\\\.\\DISPLAY1", full_hd(), 1),
        display_query("\\\\.\\DISPLAY2", Rect { left: 1920, top: 0, right: 3840, bottom: 1080 }, 0),
    ];
    let first = get_monitor_infos(&queries).unwrap();
    let second = get_monitor_infos(&queries).unwrap();
    assert_eq!(first.len(), 2);
    assert_eq!(second.len(), 2);
    for (a, b) in first.iter().zip(second.iter()) {
        assert_eq!(a.id, b.id);
        assert_eq!(a.name, b.name);
    }
    assert_ne!(first[0].id, first[1].id);
}

#[test]
fn enumeration_fails_whole_when_one_query_fails() {
    let queries = vec![
        display_query("\\\\.\\DISPLAY1", full_hd(), 1),
        MonitorQuery::QueryFailed,
        display_query("\\\\.\\DISPLAY3", full_hd(), 0),
    ];
    assert!(get_monitor_infos(&queries).is_err());
}

#[test]
fn single_full_hd_primary_end_to_end() {
    let queries = vec![display_query("\\\\.\\DISPLAY1", full_hd(), 1)];
    let monitors = get_monitor_infos(&queries).unwrap();
    assert_eq!(monitors.len(), 1);
    let monitor: &MonitorInfo = &monitors[0];
    assert_eq!(monitor.rect, Rect { left: 0, top: 0, right: 1920, bottom: 1080 });
    assert!(monitor.is_primary);

    let capturers = get_full_monitor_capturers(&monitors).unwrap();
    assert_eq!(capturers.len(), 1);
    assert_eq!(capturers[0].capture_region, monitors[0].rect);

    let raw = vec![0u8; 1920 * 1080 * 4];
    let mut metrics = Metrics::default();
    let buffer = capturers[0].capture(CaptureReadback::Data(raw), &mut metrics).unwrap();
    assert_eq!(buffer.width, 1920);
    assert_eq!(buffer.height, 1080);
    assert_eq!(buffer.data.len(), 1920 * 1080 * 4);
}

#[test]
fn region_capture_returns_region_sized_buffer() {
    let queries = vec![display_query("\\\\.\\DISPLAY1", full_hd(), 1)];
    let monitors = get_monitor_infos(&queries).unwrap();
    let monitor = &monitors[0];
    let region = Rect { left: 0, top: 0, right: 100, bottom: 100 };
    let capturer = get_monitor_capturer(
        get_monitor_infos(&queries).unwrap().remove(0),
        region,
    )
    .unwrap();
    assert_eq!(capturer.monitor.id, monitor.id);

    let raw = vec![0u8; 100 * 100 * 4];
    let mut metrics = Metrics::new();
    let buffer = capturer.capture(CaptureReadback::Data(raw), &mut metrics).unwrap();
    assert_eq!(buffer.width, 100);
    assert_eq!(buffer.height, 100);
    assert_eq!(buffer.data.len(), 100 * 100 * 4);

    let names: Vec<String> =
        metrics.completed().iter().map(|m| m.name.clone()).collect();
    assert_eq!(names, vec!["shuffle".to_string(), "image".to_string()]);
}

#[test]
fn capture_reorders_channels_of_the_readback() {
    let queries = vec![display_query("\\\\.\\DISPLAY1", Rect { left: 0, top: 0, right: 2, bottom: 1 }, 1)];
    let monitors = get_monitor_infos(&queries).unwrap();
    let capturers = get_full_monitor_capturers(&monitors).unwrap();
    let raw = vec![1, 2, 3, 4, 10, 20, 30, 40];
    let mut metrics = Metrics::default();
    let buffer = capturers[0].capture(CaptureReadback::Data(raw), &mut metrics).unwrap();
    assert_eq!(buffer.data, vec![3, 2, 1, 4, 30, 20, 10, 40]);
}

#[test]
fn capture_error_variants_map_the_os_outcomes() {
    let queries = vec![display_query("\\\\.\\DISPLAY1", full_hd(), 1)];
    let monitors = get_monitor_infos(&queries).unwrap();
    let capturers = get_full_monitor_capturers(&monitors).unwrap();
    let capturer = &capturers[0];
    let mut metrics = Metrics::default();

    assert_eq!(
        capturer.capture(CaptureReadback::BlitFailed, &mut metrics).unwrap_err(),
        CaptureError::BlitFailed
    );
    assert_eq!(
        capturer.capture(CaptureReadback::NoScanlines, &mut metrics).unwrap_err(),
        CaptureError::ReadbackFailed
    );
    assert_eq!(
        capturer.capture(CaptureReadback::Data(vec![0u8; 16]), &mut metrics).unwrap_err(),
        CaptureError::MalformedBuffer
    );
}

#[test]
fn out_of_bounds_or_empty_regions_are_rejected() {
    let queries = vec![display_query("\\\\.\\DISPLAY1", full_hd(), 1)];
    let monitors = get_monitor_infos(&queries).unwrap();

    let outside = Rect { left: 1900, top: 0, right: 2000, bottom: 100 };
    assert!(get_monitor_capturer(get_monitor_infos(&queries).unwrap().remove(0), outside).is_err());

    let empty = Rect { left: 10, top: 10, right: 10, bottom: 20 };
    assert!(get_monitor_capturer(get_monitor_infos(&queries).unwrap().remove(0), empty).is_err());

    let inside = Rect { left: 10, top: 10, right: 20, bottom: 20 };
    assert!(get_monitor_capturer(monitors.into_iter().next().unwrap(), inside).is_ok());
}

#[test]
fn blit_offset_is_region_relative_to_monitor() {
    let rect = Rect { left: -1920, top: 0, right: 0, bottom: 1080 };
    let queries = vec![display_query("\\\\.\\DISPLAY2", rect, 0)];
    let monitors = get_monitor_infos(&queries).unwrap();
    let region = Rect { left: -1910, top: 20, right: -1810, bottom: 120 };
    let capturer = get_monitor_capturer(monitors.into_iter().next().unwrap(), region).unwrap();
    assert_eq!(capturer.blit_source_offset(), (10, 20));
}

#[test]
fn device_names_with_nul_are_invalid() {
    assert!(device_name_valid("\\\\.\\DISPLAY1"));
    assert!(!device_name_valid("bad\0name"));
    assert!(device_name_valid(""));
}
