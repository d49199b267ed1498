use timer_cli::{
    apply_command, parse_command, reap_and_render, MonitorCommand, MonitorOutcome, Registry,
};

fn registry_with_two() -> Registry {
    let mut reg = Registry::new();
    reg.insert("10s".to_string(), "one".to_string(), 101, 1000);
    reg.insert("20s".to_string(), "two".to_string(), 102, 1001);
    reg
}

#[test]
fn parse_command_reads_all() {
    assert_eq!(parse_command("all"), MonitorCommand::KillAll);
}

#[test]
fn parse_command_reads_ids() {
    assert_eq!(parse_command("7"), MonitorCommand::KillId(7));
    assert_eq!(parse_command("007"), MonitorCommand::KillId(7));
    assert_eq!(parse_command("0"), MonitorCommand::KillId(0));
    assert_eq!(
        parse_command("18446744073709551615"),
        MonitorCommand::KillId(u64::MAX)
    );
}

#[test]
fn parse_command_rejects_the_rest() {
    assert_eq!(parse_command(""), MonitorCommand::Invalid);
    assert_eq!(parse_command("abc"), MonitorCommand::Invalid);
    assert_eq!(parse_command("12x"), MonitorCommand::Invalid);
    assert_eq!(parse_command("x12"), MonitorCommand::Invalid);
    assert_eq!(parse_command("ALL"), MonitorCommand::Invalid);
    assert_eq!(parse_command("-3"), MonitorCommand::Invalid);
    assert_eq!(parse_command("18446744073709551616"), MonitorCommand::Invalid);
    assert_eq!(
        parse_command("99999999999999999999999999"),
        MonitorCommand::Invalid
    );
}

#[test]
fn kill_by_id_terminates_and_removes() {
    let mut reg = registry_with_two();
    let out = apply_command(&mut reg, MonitorCommand::KillId(1));
    assert_eq!(
        out,
        MonitorOutcome::Killed {
            id: 1,
            process_id: 101
        }
    );
    let rows = reg.list_active();
    assert_eq!(rows.len(), 1);
    assert_eq!(rows[0].id, 2);
}

#[test]
fn kill_unknown_id_reports_not_found() {
    let mut reg = registry_with_two();
    let out = apply_command(&mut reg, MonitorCommand::KillId(7));
    assert_eq!(out, MonitorOutcome::NotFound);
    assert_eq!(reg.list_active().len(), 2);
    assert_eq!(reg.list_active()[0].id, 1);
    assert_eq!(reg.list_active()[1].id, 2);
}

#[test]
fn kill_all_terminates_everything() {
    let mut reg = registry_with_two();
    let out = apply_command(&mut reg, MonitorCommand::KillAll);
    assert_eq!(
        out,
        MonitorOutcome::KilledAll {
            process_ids: vec![101, 102]
        }
    );
    assert!(reg.list_active().is_empty());
}

#[test]
fn invalid_command_changes_nothing() {
    let mut reg = registry_with_two();
    let out = apply_command(&mut reg, MonitorCommand::Invalid);
    assert_eq!(out, MonitorOutcome::Invalid);
    assert_eq!(reg.list_active().len(), 2);
}

#[test]
fn expired_record_is_reaped() {
    let mut reg = Registry::new();
    reg.insert("10s".to_string(), "old".to_string(), 101, 1000);
    let rows = reap_and_render(&mut reg, 1011);
    assert!(rows.is_empty());
    assert!(reg.list_active().is_empty());
}

#[test]
fn record_expiring_exactly_now_is_reaped() {
    let mut reg = Registry::new();
    reg.insert("10s".to_string(), "old".to_string(), 101, 1000);
    let rows = reap_and_render(&mut reg, 1010);
    assert!(rows.is_empty());
    assert!(reg.list_active().is_empty());
}

#[test]
fn live_record_is_rendered_with_remaining_time() {
    let mut reg = Registry::new();
    reg.insert("10s".to_string(), "fresh".to_string(), 101, 1000);
    let rows = reap_and_render(&mut reg, 1004);
    assert_eq!(rows.len(), 1);
    assert_eq!(rows[0].id, 1);
    assert_eq!(rows[0].process_id, 101);
    assert_eq!(rows[0].remaining_secs, 6);
    assert_eq!(rows[0].duration_spec, "10s");
    assert_eq!(rows[0].message, "fresh");
    assert_eq!(reg.list_active().len(), 1);
}

#[test]
fn reap_keeps_the_living_and_drops_the_dead() {
    let mut reg = Registry::new();
    reg.insert("10s".to_string(), "dead".to_string(), 101, 1000);
    reg.insert("1h".to_string(), "alive".to_string(), 102, 1000);
    let rows = reap_and_render(&mut reg, 1030);
    assert_eq!(rows.len(), 1);
    assert_eq!(rows[0].message, "alive");
    assert_eq!(rows[0].remaining_secs, 3600 - 30);
    let left = reg.list_active();
    assert_eq!(left.len(), 1);
    assert_eq!(left[0].message, "alive");
}

#[test]
fn unparseable_record_is_skipped_but_never_reaped() {
    let mut reg = Registry::new();
    reg.insert("gibberish".to_string(), "odd".to_string(), 101, 1000);
    let rows = reap_and_render(&mut reg, 999_999);
    assert!(rows.is_empty());
    assert_eq!(reg.list_active().len(), 1);
    assert_eq!(reg.list_active()[0].message, "odd");
}

#[test]
fn overlong_record_is_skipped_but_never_reaped() {
    let mut reg = Registry::new();
    reg.insert(
        "90 minutes 30 seconds".to_string(),
        "long".to_string(),
        101,
        1000,
    );
    let rows = reap_and_render(&mut reg, 999_999);
    assert!(rows.is_empty());
    assert_eq!(reg.list_active().len(), 1);
    assert_eq!(reg.list_active()[0].message, "long");
}

#[test]
fn monitor_pass_then_kill_command() {
    let mut reg = registry_with_two();
    let rows = reap_and_render(&mut reg, 1002);
    assert_eq!(rows.len(), 2);
    let cmd = parse_command("2");
    let out = apply_command(&mut reg, cmd);
    assert_eq!(
        out,
        MonitorOutcome::Killed {
            id: 2,
            process_id: 102
        }
    );
    assert_eq!(reg.list_active().len(), 1);
}
