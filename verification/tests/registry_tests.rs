use timer_cli::{ActiveTimerRecord, Registry};

fn record(id: u64, pid: i32, started: u64, dur: &str, msg: &str) -> ActiveTimerRecord {
    ActiveTimerRecord {
        id,
        process_id: pid,
        started_at: started,
        duration_spec: dur.to_string(),
        message: msg.to_string(),
    }
}

#[test]
fn insert_assigns_increasing_ids() {
    let mut reg = Registry::new();
    let a = reg.insert("2s".to_string(), "one".to_string(), 10, 100);
    let b = reg.insert("3s".to_string(), "two".to_string(), 11, 101);
    let c = reg.insert("4s".to_string(), "three".to_string(), 12, 102);
    assert_eq!(a, 1);
    assert_eq!(b, 2);
    assert_eq!(c, 3);
    let rows = reg.list_active();
    assert_eq!(rows.len(), 3);
    assert!(rows[0].id < rows[1].id && rows[1].id < rows[2].id);
}

#[test]
fn ids_never_reused_after_remove() {
    let mut reg = Registry::new();
    let a = reg.insert("2s".to_string(), "one".to_string(), 10, 100);
    reg.remove(a);
    let b = reg.insert("3s".to_string(), "two".to_string(), 11, 101);
    assert!(b > a);
    assert_eq!(reg.list_active().len(), 1);
    assert_eq!(reg.list_active()[0].id, b);
}

#[test]
fn list_active_never_holds_duplicate_ids() {
    let mut reg = Registry::new();
    for k in 0..5u64 {
        reg.insert("1m".to_string(), format!("m{}", k), k as i32, 100 + k);
    }
    reg.remove(2);
    reg.remove(4);
    reg.insert("1m".to_string(), "late".to_string(), 9, 200);
    let rows = reg.list_active();
    for i in 0..rows.len() {
        for j in (i + 1)..rows.len() {
            assert_ne!(rows[i].id, rows[j].id);
        }
        if i + 1 < rows.len() {
            assert!(rows[i].id < rows[i + 1].id);
        }
    }
}

#[test]
fn removing_absent_id_is_idempotent() {
    let mut reg = Registry::new();
    reg.insert("2s".to_string(), "one".to_string(), 10, 100);
    reg.remove(99);
    reg.remove(99);
    assert_eq!(reg.list_active().len(), 1);
    assert_eq!(reg.list_active()[0].id, 1);
    assert_eq!(reg.next_id, 2);
}

#[test]
fn remove_deletes_only_the_target() {
    let mut reg = Registry::new();
    reg.insert("2s".to_string(), "one".to_string(), 10, 100);
    reg.insert("3s".to_string(), "two".to_string(), 11, 101);
    reg.insert("4s".to_string(), "three".to_string(), 12, 102);
    reg.remove(2);
    let rows = reg.list_active();
    assert_eq!(rows.len(), 2);
    assert_eq!(rows[0].id, 1);
    assert_eq!(rows[1].id, 3);
    assert_eq!(rows[0].message, "one");
    assert_eq!(rows[1].message, "three");
}

#[test]
fn find_index_reports_presence() {
    let mut reg = Registry::new();
    reg.insert("2s".to_string(), "one".to_string(), 10, 100);
    reg.insert("3s".to_string(), "two".to_string(), 11, 101);
    assert_eq!(reg.find_index(2), Some(1));
    assert_eq!(reg.find_index(7), None);
}

#[test]
fn from_snapshot_accepts_ordered_rows() {
    let rows = vec![
        record(3, 10, 100, "2s", "a"),
        record(5, 11, 101, "3s", "b"),
    ];
    let reg = Registry::from_snapshot(rows).expect("ordered rows");
    assert_eq!(reg.next_id, 6);
    assert_eq!(reg.list_active().len(), 2);
}

#[test]
fn from_snapshot_rejects_unordered_rows() {
    let rows = vec![
        record(5, 10, 100, "2s", "a"),
        record(3, 11, 101, "3s", "b"),
    ];
    assert!(Registry::from_snapshot(rows).is_none());
}

#[test]
fn from_snapshot_rejects_duplicate_ids() {
    let rows = vec![
        record(3, 10, 100, "2s", "a"),
        record(3, 11, 101, "3s", "b"),
    ];
    assert!(Registry::from_snapshot(rows).is_none());
}

#[test]
fn from_snapshot_of_empty_is_fresh() {
    let reg = Registry::from_snapshot(Vec::new()).expect("empty snapshot");
    assert_eq!(reg.next_id, 1);
    assert!(reg.list_active().is_empty());
}

#[test]
fn history_is_listed_newest_first() {
    let mut reg = Registry::new();
    reg.append_history(timer_cli::HistoryEntry {
        timestamp: 100,
        duration_spec: "2s".to_string(),
        message: "first".to_string(),
        foreground: true,
    });
    reg.append_history(timer_cli::HistoryEntry {
        timestamp: 200,
        duration_spec: "3s".to_string(),
        message: "second".to_string(),
        foreground: false,
    });
    reg.append_history(timer_cli::HistoryEntry {
        timestamp: 300,
        duration_spec: "4s".to_string(),
        message: "third".to_string(),
        foreground: false,
    });
    let recent = reg.list_history(2);
    assert_eq!(recent.len(), 2);
    assert_eq!(recent[0].message, "third");
    assert_eq!(recent[1].message, "second");
    let all = reg.list_history(10);
    assert_eq!(all.len(), 3);
    assert_eq!(all[2].message, "first");
    assert!(all[2].foreground);
}
