use desktop_pet::clock::MAX_INSTANT_MS;
use desktop_pet::reminder::{
    after_notify, dismiss_found, fire_due, fire_due_now, fire_reminder, is_due, snooze_at,
    snooze_found, snooze_minutes, snooze_now, ReminderError, ReminderRow,
};

const MINUTE: i64 = 60_000;

fn now_ms() -> i64 {
    chrono::Utc::now().timestamp_millis()
}

fn row(id: &str, title: &str, due_at: Option<i64>, status: &str, sent: bool) -> ReminderRow {
    ReminderRow {
        todo_id: id.to_string(),
        title: title.to_string(),
        due_at,
        status: status.to_string(),
        reminder_sent: sent,
    }
}

#[test]
fn snooze_updates_due_at_resets_flag_and_writes_log() {
    let original_due_at = now_ms() + 5 * MINUTE;
    let seeded = row("todo-1", "喝水", Some(original_due_at), "pending", true);

    let result = snooze_now(Some(seeded), "todo-1", 10).expect("snooze should succeed");

    assert!(result.row.due_at.expect("due time") > original_due_at);
    assert!(!result.row.reminder_sent);
    assert_eq!(result.title, "喝水");

    assert_eq!(result.log.todo_id, "todo-1");
    assert_eq!(result.log.event, "snoozed");
    assert_eq!(result.log.source, "user");
    assert_eq!(result.log.due_at, Some(result.next_due_at));
}

#[test]
fn dismiss_marks_sent_and_writes_log() {
    let due_at = now_ms() + 12 * MINUTE;
    let seeded = row("todo-2", "看周报", Some(due_at), "pending", false);

    let result = dismiss_found(Some(seeded), "todo-2").expect("dismiss should succeed");

    assert!(result.row.reminder_sent);
    assert_eq!(result.title, "看周报");

    assert_eq!(result.log.todo_id, "todo-2");
    assert_eq!(result.log.event, "dismissed");
    assert_eq!(result.log.source, "user");
    assert_eq!(result.log.due_at, Some(due_at));
}

#[test]
fn missing_todo_is_reported() {
    let err = snooze_now(None, "nope", 10).unwrap_err();
    assert_eq!(err, ReminderError::TodoNotFound("nope".to_string()));
    assert_eq!(err.message(), "todo not found: nope");
    let err = dismiss_found(None, "gone").unwrap_err();
    assert_eq!(err.message(), "todo not found: gone");
}

#[test]
fn snooze_is_clamped_to_one_minute_through_twelve_hours() {
    assert_eq!(snooze_minutes(-5), 1);
    assert_eq!(snooze_minutes(0), 1);
    assert_eq!(snooze_minutes(45), 45);
    assert_eq!(snooze_minutes(10_000), 720);
    let s = snooze_found(Some(row("a", "t", None, "pending", true)), "a", 1_000, 0).unwrap();
    assert_eq!(s.next_due_at, 1_000 + MINUTE);
    let s = snooze_found(Some(row("a", "t", None, "pending", true)), "a", 1_000, 99_999).unwrap();
    assert_eq!(s.next_due_at, 1_000 + 720 * MINUTE);
    assert_eq!(s.row.due_at, Some(1_000 + 720 * MINUTE));
}

#[test]
fn due_reminders_fire_once() {
    let rows = vec![
        row("1", "due", Some(100), "pending", false),
        row("2", "later", Some(500), "pending", false),
        row("3", "sent", Some(50), "pending", true),
        row("4", "done", Some(50), "done", false),
        row("5", "undated", None, "pending", false),
        row("6", "exact", Some(200), "pending", false),
    ];
    let alerts = fire_due(&rows, 200);
    let ids: Vec<&str> = alerts.iter().map(|a| a.row.todo_id.as_str()).collect();
    assert_eq!(ids, vec!["1", "6"]);
    let mut after: Vec<ReminderRow> = rows.clone();
    for a in &alerts {
        assert!(!a.row.reminder_sent);
        assert_eq!(a.notification_title, "桌宠提醒");
        assert_eq!(a.notification_body, a.row.title);
        let fired = after_notify(a.row.clone(), true).expect("shown notification fires");
        assert!(fired.row.reminder_sent);
        assert_eq!(fired.log.event, "triggered");
        assert_eq!(fired.log.source, "scheduler");
        assert_eq!(fired.log.due_at, a.row.due_at);
        assert_eq!(fired.log.title, a.row.title);
        for r in after.iter_mut() {
            if r.todo_id == fired.row.todo_id {
                *r = fired.row.clone();
            }
        }
    }
    assert!(fire_due(&after, 200).is_empty());
    let later: Vec<String> = fire_due(&after, 500).iter().map(|a| a.row.todo_id.clone()).collect();
    assert_eq!(later, vec!["2".to_string()]);
}

#[test]
fn fire_due_now_uses_the_clock() {
    let now = now_ms();
    let rows = vec![
        row("past", "p", Some(now - MINUTE), "pending", false),
        row("future", "f", Some(now + 60 * MINUTE), "pending", false),
    ];
    let alerts = fire_due_now(&rows);
    assert_eq!(alerts.len(), 1);
    assert_eq!(alerts[0].row.todo_id, "past");
}

#[test]
fn snooze_rearms_a_fired_reminder() {
    let mut r = row("x", "stretch", Some(1_000), "pending", false);
    assert!(is_due(&r, 1_000));
    assert!(!is_due(&r, 999));
    let log = fire_reminder(&mut r);
    assert_eq!(log.event, "triggered");
    assert!(!is_due(&r, 10_000_000));
    let log = snooze_at(&mut r, 2_000, 3);
    assert_eq!(log.due_at, Some(2_000 + 3 * MINUTE));
    assert!(!is_due(&r, 2_000 + 3 * MINUTE - 1));
    assert!(is_due(&r, 2_000 + 3 * MINUTE));
}

#[test]
fn failed_notification_keeps_reminder_due() {
    let rows = vec![row("n", "drink", Some(100), "pending", false)];
    let alerts = fire_due(&rows, 150);
    assert_eq!(alerts.len(), 1);
    assert!(after_notify(alerts[0].row.clone(), false).is_none());
    // Nothing was marked sent, so the next tick offers it again.
    let again = fire_due(&rows, 210);
    assert_eq!(again.len(), 1);
    assert_eq!(again[0].row.todo_id, "n");
}

#[test]
fn snooze_beyond_the_representable_range_is_refused() {
    let r = row("z", "late", None, "pending", true);
    let err = snooze_found(Some(r.clone()), "z", MAX_INSTANT_MS - 5 * MINUTE, 10).unwrap_err();
    assert_eq!(err, ReminderError::ClockOutOfRange);
    assert_eq!(err.message(), "clock reading is beyond the representable range");
    let s = snooze_found(Some(r), "z", MAX_INSTANT_MS - 5 * MINUTE, 5).unwrap();
    assert_eq!(s.next_due_at, MAX_INSTANT_MS);
    assert_eq!(
        snooze_found(None, "gone", MAX_INSTANT_MS, 10).unwrap_err(),
        ReminderError::TodoNotFound("gone".to_string())
    );
}

#[test]
fn later_tick_without_new_due_times_fires_nothing() {
    let rows = vec![
        row("a", "one", Some(100), "pending", false),
        row("b", "two", Some(900), "pending", false),
    ];
    let fired: Vec<ReminderRow> = fire_due(&rows, 200)
        .into_iter()
        .map(|a| after_notify(a.row, true).unwrap().row)
        .collect();
    let after: Vec<ReminderRow> = rows
        .iter()
        .map(|r| fired.iter().find(|f| f.todo_id == r.todo_id).cloned().unwrap_or_else(|| r.clone()))
        .collect();
    assert!(fire_due(&after, 899).is_empty());
    assert_eq!(fire_due(&after, 900).len(), 1);
}
