use gitlight::model::{AppMode, Platform, WindowSnapshot};
use gitlight::shell::Shell;
use gitlight::store::{decode_preference, decode_snapshot, encode_preference, encode_snapshot, same_bytes};

#[test]
fn preference_record_is_a_small_json_object() {
    assert_eq!(encode_preference(true), b"{\"is_tray_app\":true}".to_vec());
    assert_eq!(encode_preference(false), b"{\"is_tray_app\":false}".to_vec());
}

#[test]
fn preference_is_read_back_as_written() {
    for flag in [true, false] {
        assert_eq!(decode_preference(&encode_preference(flag)), Some(flag));
    }
}

#[test]
fn anything_but_a_record_is_unreadable() {
    for bytes in [
        &b""[..],
        b"true",
        b"{\"is_tray_app\":true} ",
        b"{\"is_tray_app\": true}",
        b"{\"is_tray_app\":True}",
        b"{\"is_tray_app\":tru",
        b"{\"is_tray_app\":1}",
        b"{\"is_tray_app\":false}\n",
        b"\xff\xfe",
    ] {
        assert_eq!(decode_preference(bytes), None);
    }
}

#[test]
fn unreadable_preference_starts_in_normal_mode() {
    let shell = Shell::startup(Platform::standard(), decode_preference(b"garbage"), None);
    assert_eq!(shell.mode(), AppMode::Normal);
    assert!(!shell.preference());
    let shell = Shell::startup(Platform::standard(), decode_preference(&encode_preference(true)), None);
    assert_eq!(shell.mode(), AppMode::TrayApp);
}

#[test]
fn snapshot_record_is_little_endian() {
    let snapshot = WindowSnapshot { width: 0x0102_0304, height: 600, x: -2, y: 100, decorated: true, resizable: false };
    assert_eq!(
        encode_snapshot(snapshot),
        vec![0x04, 0x03, 0x02, 0x01, 0x58, 0x02, 0, 0, 0xfe, 0xff, 0xff, 0xff, 100, 0, 0, 0, 1, 0]
    );
}

#[test]
fn snapshot_is_read_back_as_written() {
    let cases = [
        WindowSnapshot { width: 0, height: 0, x: 0, y: 0, decorated: false, resizable: false },
        WindowSnapshot { width: 1280, height: 800, x: 37, y: -12, decorated: true, resizable: true },
        WindowSnapshot { width: u32::MAX, height: 1, x: i32::MIN, y: i32::MAX, decorated: false, resizable: true },
        WindowSnapshot { width: 400, height: 600, x: 100, y: 100, decorated: true, resizable: false },
    ];
    for snapshot in cases {
        let record = encode_snapshot(snapshot);
        assert_eq!(record.len(), 18);
        assert_eq!(decode_snapshot(&record), Some(snapshot));
    }
}

#[test]
fn malformed_snapshot_records_are_unreadable() {
    let good = encode_snapshot(WindowSnapshot { width: 1, height: 2, x: 3, y: 4, decorated: true, resizable: true });
    assert_eq!(decode_snapshot(&good[..17]), None);
    assert_eq!(decode_snapshot(&[]), None);
    let mut long = good.clone();
    long.push(0);
    assert_eq!(decode_snapshot(&long), None);
    let mut flag = good.clone();
    flag[16] = 2;
    assert_eq!(decode_snapshot(&flag), None);
    let mut flag = good.clone();
    flag[17] = 255;
    assert_eq!(decode_snapshot(&flag), None);
}

#[test]
fn bytes_are_compared_one_by_one() {
    assert!(same_bytes(b"", b""));
    assert!(same_bytes(b"abc", b"abc"));
    assert!(!same_bytes(b"abc", b"abd"));
    assert!(!same_bytes(b"abc", b"ab"));
    assert!(!same_bytes(b"", b"a"));
}
