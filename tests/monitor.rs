use launcher_shell::config::AppConfig;
use launcher_shell::monitor::{
    monitor_contains, monitor_under_cursor, placement_on, plan_show, target_monitor, CursorBox,
    MonitorArea, WindowPlacement,
};

fn area(x: i32, y: i32, width: u32, height: u32) -> MonitorArea {
    MonitorArea { x, y, width, height }
}

fn at(x: i64, y: i64) -> CursorBox {
    CursorBox { left: x, top: y, right: x, bottom: y }
}

fn two_side_by_side() -> Vec<MonitorArea> {
    vec![area(0, 0, 1920, 1080), area(1920, 0, 2560, 1440)]
}

#[test]
fn cursor_inside_and_outside() {
    let m = area(0, 0, 1920, 1080);
    assert!(monitor_contains(&m, &at(100, 200)));
    assert!(!monitor_contains(&m, &at(-1, 200)));
    assert!(!monitor_contains(&m, &at(100, 1081)));
}

#[test]
fn edges_are_inside() {
    let m = area(0, 0, 1920, 1080);
    assert!(monitor_contains(&m, &at(0, 0)));
    assert!(monitor_contains(&m, &at(1920, 1080)));
}

#[test]
fn fractional_cursor_beyond_edge_is_outside() {
    let m = area(0, 0, 1920, 1080);
    // 1920.5: rounded down 1920, up 1921
    let c = CursorBox { left: 1920, top: 10, right: 1921, bottom: 10 };
    assert!(!monitor_contains(&m, &c));
    // 1919.5 lies inside
    let d = CursorBox { left: 1919, top: 10, right: 1920, bottom: 11 };
    assert!(monitor_contains(&m, &d));
}

#[test]
fn negative_origin_monitor() {
    let m = area(-1280, -200, 1280, 1024);
    assert!(monitor_contains(&m, &at(-640, 0)));
    assert!(!monitor_contains(&m, &at(-1281, 0)));
}

#[test]
fn first_matching_monitor_wins_on_shared_edge() {
    let ms = two_side_by_side();
    assert_eq!(monitor_under_cursor(&ms, &at(1920, 500)), Some(0));
    assert_eq!(monitor_under_cursor(&ms, &at(1921, 500)), Some(1));
    assert_eq!(monitor_under_cursor(&ms, &at(100, 100)), Some(0));
}

#[test]
fn no_monitor_under_cursor() {
    let ms = two_side_by_side();
    assert_eq!(monitor_under_cursor(&ms, &at(5000, 10)), None);
    assert_eq!(monitor_under_cursor(&Vec::new(), &at(0, 0)), None);
}

#[test]
fn target_falls_back_to_primary() {
    let ms = two_side_by_side();
    let primary = Some(area(0, 0, 1920, 1080));
    assert_eq!(target_monitor(&ms, Some(at(3000, 10)), primary), Some(ms[1]));
    assert_eq!(target_monitor(&ms, Some(at(9000, 10)), primary), primary);
    assert_eq!(target_monitor(&ms, None, primary), primary);
    assert_eq!(target_monitor(&ms, None, None), None);
    assert_eq!(target_monitor(&ms, Some(at(9000, 10)), None), None);
}

#[test]
fn placement_shifts_corner_and_keeps_size() {
    let m = area(1920, 0, 2560, 1440);
    assert_eq!(
        placement_on(&m, -9, -1),
        Some(WindowPlacement { x: 1911, y: -1, width: 2560, height: 1440 })
    );
    assert_eq!(
        placement_on(&m, 0, 0),
        Some(WindowPlacement { x: 1920, y: 0, width: 2560, height: 1440 })
    );
}

#[test]
fn placement_out_of_range_is_none() {
    let m = area(i32::MIN, 0, 800, 600);
    assert_eq!(placement_on(&m, -1, 0), None);
    let n = area(0, i32::MAX, 800, 600);
    assert_eq!(placement_on(&n, 0, 1), None);
    assert_eq!(
        placement_on(&n, 0, 0),
        Some(WindowPlacement { x: 0, y: i32::MAX, width: 800, height: 600 })
    );
}

#[test]
fn plan_show_uses_config_offsets() {
    let ms = two_side_by_side();
    let cfg = AppConfig::from_fields("Alt+Space".to_string(), None, None);
    assert_eq!(
        plan_show(&ms, Some(at(2000, 300)), None, &cfg),
        Some((ms[1], WindowPlacement { x: 1911, y: -1, width: 2560, height: 1440 }))
    );
    let primary = area(0, 0, 1366, 768);
    assert_eq!(
        plan_show(&ms, None, Some(primary), &cfg),
        Some((primary, WindowPlacement { x: -9, y: -1, width: 1366, height: 768 }))
    );
    assert_eq!(plan_show(&ms, None, None, &cfg), None);
}
