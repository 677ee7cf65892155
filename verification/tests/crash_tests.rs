use wisplet::crash::{
    crash_log_entry, panic_report, show_fatal_dialog, startup_failure_report, PanicSite,
};
use wisplet::paths::{crash_log_path, crash_log_under};

#[test]
fn crash_log_entries() {
    assert_eq!(crash_log_entry(42, "boom"), "=== unix:42 ===\nboom\n\n");
    assert_eq!(crash_log_entry(0, ""), "=== unix:0 ===\n\n\n");
    assert_eq!(
        crash_log_entry(u64::MAX, "x"),
        format!("=== unix:{} ===\nx\n\n", u64::MAX)
    );
}

#[test]
fn panic_reports() {
    let site = PanicSite { file: "src/lib.rs".to_string(), line: 12, column: 5 };
    assert_eq!(
        panic_report(Some(site), Some("index out of bounds".to_string())),
        "Panic à src/lib.rs:12:5 :\n\nindex out of bounds"
    );
    assert_eq!(
        panic_report(None, None),
        "Panic à <unknown location> :\n\n<unknown panic payload>"
    );
}

#[test]
fn startup_failures() {
    assert_eq!(startup_failure_report("no window"), "Tauri n'a pas pu démarrer :\n\nno window");
}

#[test]
fn fatal_dialog_texts_are_wide_and_terminated() {
    let d = show_fatal_dialog("Wisplet — crash", "Détails");
    let mut title: Vec<u16> = "Wisplet — crash".encode_utf16().collect();
    title.push(0);
    let mut body: Vec<u16> = "Détails".encode_utf16().collect();
    body.push(0);
    assert_eq!(d.title, title);
    assert_eq!(d.body, body);
}

#[test]
fn crash_log_location() {
    match dirs::data_local_dir() {
        Some(d) => assert_eq!(crash_log_path(), Some(crash_log_under(&d.to_string_lossy()))),
        None => assert_eq!(crash_log_path(), None),
    }
}
