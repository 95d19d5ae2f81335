use novadream::system::{has_child_process, kill_order, proc_pid, screen_resolution, status_ppid};

const XRANDR: &str = "Screen 0: minimum 320 x 200, current 2560 x 1440, maximum 16384 x 16384\n\
DP-1 connected primary 2560x1440+0+0 (normal left inverted right x axis y axis) 597mm x 336mm\n\
   2560x1440     59.95*+ 143.97\n\
HDMI-1 disconnected (normal left inverted right x axis y axis)\n";

const WLR: &str = "DP-1 \"Dell Inc. DELL U2719D\"\n  Make: Dell Inc.\n  Modes:\n    1920x1080 px, 60.000000 Hz (preferred, current)\n";

#[test]
fn xrandr_connected_line() {
    assert_eq!(screen_resolution(Some(XRANDR), None, None), (2560, 1440));
}

#[test]
fn xrandr_mode_line_only() {
    assert_eq!(screen_resolution(Some("   3840x2160     60.00*+\n"), None, None), (3840, 2160));
}

#[test]
fn wlr_randr_when_xrandr_has_nothing() {
    assert_eq!(screen_resolution(Some("nothing here\n"), Some(WLR), None), (1920, 1080));
    assert_eq!(screen_resolution(None, Some(WLR), None), (1920, 1080));
}

#[test]
fn fallback_resolution() {
    assert_eq!(screen_resolution(None, None, None), (1920, 1080));
    assert_eq!(screen_resolution(Some("   320x200 60.00*\n"), Some("  \"quoted\" 2560x1440\n"), None), (1920, 1080));
}

#[test]
fn wlr_randr_first_digit_run() {
    assert_eq!(screen_resolution(None, Some("    1280x1024 px, 75 Hz\n"), None), (1280, 1024));
}

#[test]
fn ppid_from_status() {
    let status = "Name:\tbash\nUmask:\t0022\nState:\tS (sleeping)\nTgid:\t4242\nPid:\t4242\nPPid:\t4000\nTracerPid:\t0\n";
    assert_eq!(status_ppid(status), 4000);
    assert_eq!(status_ppid("Name:\tx\n"), 0);
    assert_eq!(status_ppid("PPid:\n"), 0);
    assert_eq!(status_ppid("PPid:\tabc\n"), 0);
}

#[test]
fn proc_names() {
    assert_eq!(proc_pid("1234"), Some(1234));
    assert_eq!(proc_pid("self"), None);
    assert_eq!(proc_pid(""), None);
}

#[test]
fn child_detection() {
    let procs = vec![(10, 1), (11, 10), (12, 12)];
    assert!(has_child_process(10, &procs));
    assert!(!has_child_process(11, &procs));
    assert!(!has_child_process(12, &procs));
}

#[test]
fn kill_order_children_first() {
    // 100 -> 101 -> 103, 100 -> 102; 200 is unrelated.
    let procs = vec![(101, 100), (102, 100), (103, 101), (200, 1), (100, 50)];
    let order = kill_order(100, &procs);
    assert_eq!(*order.last().unwrap(), 100);
    let mut sorted = order.clone();
    sorted.sort();
    assert_eq!(sorted, vec![100, 101, 102, 103]);
    let pos = |p: u32| order.iter().position(|&x| x == p).unwrap();
    assert!(pos(103) < pos(101));
    assert!(pos(101) < pos(100));
    assert!(pos(102) < pos(100));
    assert_eq!(order, vec![103, 101, 102, 100]);
}

#[test]
fn kill_order_lone_process() {
    assert_eq!(kill_order(7, &vec![]), vec![7]);
}

#[test]
fn framebuffer_after_xrandr_and_wlr_randr() {
    assert_eq!(screen_resolution(None, None, Some("2560,1440\n")), (2560, 1440));
    assert_eq!(screen_resolution(Some("nothing\n"), Some("nothing\n"), Some(" 1366 , 768 \n")), (1366, 768));
    assert_eq!(screen_resolution(Some(XRANDR), None, Some("1024,768\n")), (2560, 1440));
    assert_eq!(screen_resolution(None, Some(WLR), Some("1024,768\n")), (1920, 1080));
}

#[test]
fn framebuffer_unreadable_falls_back() {
    assert_eq!(screen_resolution(None, None, Some("")), (1920, 1080));
    assert_eq!(screen_resolution(None, None, Some("2560x1440\n")), (1920, 1080));
    assert_eq!(screen_resolution(None, None, Some("320,200\n")), (1920, 1080));
    assert_eq!(screen_resolution(None, None, Some("abc,def\n")), (1920, 1080));
}
