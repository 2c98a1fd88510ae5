use hotshader::hotloader::{Hotloader, WatchEvent, WRITE};

const CHMOD: u32 = 0x01;
const CREATE: u32 = 0x02;
const REMOVE: u32 = 0x04;
const RENAME: u32 = 0x08;
const CLOSE_WRITE: u32 = 0x20;
const RESCAN: u32 = 0x40;

fn event(path: &str, op: u32) -> WatchEvent {
    WatchEvent { path: Some(path.to_string()), op: Some(op) }
}

#[test]
fn write_bit_is_the_write_flag_of_the_watcher() {
    assert_eq!(WRITE, notify::op::WRITE.bits());
}

#[test]
fn poll_without_changes_returns_nothing() {
    let mut hotloader = Hotloader::watch("shaders");
    assert_eq!(hotloader.path(), "shaders");
    assert_eq!(hotloader.has_event(), None);
    assert_eq!(hotloader.has_event(), None);
}

#[test]
fn write_comes_up_exactly_once() {
    let mut hotloader = Hotloader::watch("shaders");
    hotloader.deliver(event("/work/shaders/basic.frag", WRITE));
    assert_eq!(hotloader.has_event(), Some("/work/shaders/basic.frag".to_string()));
    assert_eq!(hotloader.has_event(), None);
}

#[test]
fn each_write_comes_up_in_the_order_of_delivery() {
    let mut hotloader = Hotloader::watch("shaders");
    hotloader.deliver(event("a.vert", WRITE));
    hotloader.deliver(event("b.frag", WRITE));
    hotloader.deliver(event("a.vert", WRITE));
    assert_eq!(hotloader.has_event(), Some("a.vert".to_string()));
    assert_eq!(hotloader.has_event(), Some("b.frag".to_string()));
    assert_eq!(hotloader.has_event(), Some("a.vert".to_string()));
    assert_eq!(hotloader.has_event(), None);
}

#[test]
fn changes_that_are_no_writes_never_come_up() {
    let mut hotloader = Hotloader::watch("shaders");
    for op in [CHMOD, CREATE, REMOVE, RENAME, CLOSE_WRITE, RESCAN, 0, CREATE | REMOVE, !WRITE] {
        hotloader.deliver(event("basic.frag", op));
        assert_eq!(hotloader.has_event(), None, "op {:#x}", op);
    }
    assert_eq!(hotloader.has_event(), None);
}

#[test]
fn write_among_other_operations_comes_up() {
    let mut hotloader = Hotloader::watch("shaders");
    hotloader.deliver(event("basic.frag", CREATE | WRITE));
    hotloader.deliver(event("basic.vert", WRITE | CLOSE_WRITE | CHMOD));
    hotloader.deliver(event("odd.vert", u32::MAX));
    assert_eq!(hotloader.has_event(), Some("basic.frag".to_string()));
    assert_eq!(hotloader.has_event(), Some("basic.vert".to_string()));
    assert_eq!(hotloader.has_event(), Some("odd.vert".to_string()));
}

#[test]
fn poll_takes_one_change_at_a_time() {
    let mut hotloader = Hotloader::watch("shaders");
    hotloader.deliver(event("new.frag", CREATE));
    hotloader.deliver(event("basic.frag", WRITE));
    assert_eq!(hotloader.has_event(), None);
    assert_eq!(hotloader.has_event(), Some("basic.frag".to_string()));
    assert_eq!(hotloader.has_event(), None);
}

#[test]
fn change_without_path_or_operation_never_comes_up() {
    let mut hotloader = Hotloader::watch("shaders");
    hotloader.deliver(WatchEvent { path: None, op: Some(WRITE) });
    hotloader.deliver(WatchEvent { path: Some("basic.frag".to_string()), op: None });
    hotloader.deliver(WatchEvent { path: None, op: None });
    assert_eq!(hotloader.has_event(), None);
    assert_eq!(hotloader.has_event(), None);
    assert_eq!(hotloader.has_event(), None);
}

#[test]
fn written_path_is_the_path_of_a_write_only() {
    assert_eq!(event("a", WRITE).written_path(), Some("a".to_string()));
    assert_eq!(event("a", REMOVE).written_path(), None);
}
