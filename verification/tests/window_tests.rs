use wisplet::window::{monitor_for_point, window_placement, with_style_flag, MonitorRect, Placement};

fn monitors() -> Vec<MonitorRect> {
    vec![
        MonitorRect { x: 0, y: 0, width: 1920, height: 1080 },
        MonitorRect { x: 1920, y: 0, width: 2560, height: 1440 },
        MonitorRect { x: -1280, y: 0, width: 1280, height: 1024 },
    ]
}

#[test]
fn monitor_under_the_cursor() {
    let m = monitors();
    assert_eq!(monitor_for_point(10, 10, &m), Some(0));
    assert_eq!(monitor_for_point(1919, 1079, &m), Some(0));
    assert_eq!(monitor_for_point(1920, 0, &m), Some(1));
    assert_eq!(monitor_for_point(-1, 500, &m), Some(2));
    assert_eq!(monitor_for_point(0, 1080, &m), None);
    assert_eq!(monitor_for_point(5000, 5000, &m), None);
    assert_eq!(monitor_for_point(0, 0, &Vec::new()), None);
}

#[test]
fn first_matching_monitor_wins() {
    let m = vec![
        MonitorRect { x: 0, y: 0, width: 100, height: 100 },
        MonitorRect { x: 0, y: 0, width: 200, height: 200 },
    ];
    assert_eq!(monitor_for_point(50, 50, &m), Some(0));
    assert_eq!(monitor_for_point(150, 150, &m), Some(1));
}

#[test]
fn huge_monitors_do_not_overflow() {
    let m = vec![MonitorRect { x: i32::MAX - 10, y: i32::MIN, width: u32::MAX, height: u32::MAX }];
    assert_eq!(monitor_for_point(i32::MAX, 0, &m), Some(0));
}

#[test]
fn placement_rules() {
    let m = monitors();
    assert_eq!(window_placement(true, Some((2000, 100)), &m), Placement::CoverMonitor(1));
    assert_eq!(
        window_placement(false, Some((2000, 100)), &m),
        Placement::Centered { width: 1400, height: 900 }
    );
    assert_eq!(window_placement(true, None, &m), Placement::Centered { width: 1400, height: 900 });
    assert_eq!(
        window_placement(true, Some((9999, 9999)), &m),
        Placement::Centered { width: 1400, height: 900 }
    );
}

#[test]
fn style_flags() {
    const LAYERED: isize = 0x0008_0000;
    assert_eq!(with_style_flag(0x100, LAYERED), Some(0x100 | LAYERED));
    assert_eq!(with_style_flag(0x100 | LAYERED, LAYERED), None);
}
