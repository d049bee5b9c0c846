use map_explorer::file_watcher::FileWatcher;
use map_explorer::map_renderer::{Box2d, Point};
use map_explorer::mapnik_config::{mapnik_config_output, trim_config_output, MapnikConfigError};

#[test]
fn trim_removes_surrounding_whitespace() {
    let out = trim_config_output(&b"  /usr/share/fonts \n".to_vec());
    assert_eq!(out, b"/usr/share/fonts".to_vec());
}

#[test]
fn trim_keeps_interior_whitespace() {
    let out = trim_config_output(&b"\t/a dir/b\r\n".to_vec());
    assert_eq!(out, b"/a dir/b".to_vec());
}

#[test]
fn trim_of_empty_is_empty() {
    assert_eq!(trim_config_output(&Vec::new()), Vec::<u8>::new());
}

#[test]
fn trim_of_only_whitespace_is_empty() {
    assert_eq!(trim_config_output(&b" \n\t\r".to_vec()), Vec::<u8>::new());
}

#[test]
fn trim_without_whitespace_is_identity() {
    assert_eq!(trim_config_output(&b"/plugins".to_vec()), b"/plugins".to_vec());
}

#[test]
fn successful_config_run_yields_trimmed_stdout() {
    let r = mapnik_config_output(true, b"/usr/lib/mapnik/input\n".to_vec(), Vec::new());
    assert_eq!(r, Ok(b"/usr/lib/mapnik/input".to_vec()));
}

#[test]
fn failed_config_run_reports_stderr() {
    let r = mapnik_config_output(false, Vec::new(), b"not found".to_vec());
    assert_eq!(r, Err(MapnikConfigError::RunError(b"not found".to_vec())));
}

#[test]
fn watcher_reports_change_once() {
    let mut w = FileWatcher::new(100);
    assert!(!w.changed(100));
    assert!(w.changed(250));
    assert!(!w.changed(250));
    assert!(w.changed(100));
}

#[test]
fn point_new_keeps_coordinates() {
    let p = Point::new(549000i64, 713900i64);
    assert_eq!(p.x, 549000);
    assert_eq!(p.y, 713900);
}

#[test]
fn box2d_holds_corners() {
    let b = Box2d { startx: -10i64, starty: -5, endx: 10, endy: 5 };
    let c = b;
    assert_eq!(b, c);
    assert_eq!(b.startx, -10);
    assert_eq!(b.endy, 5);
}
