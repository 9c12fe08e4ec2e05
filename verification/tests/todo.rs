use desktop_pet::models::{TodoCreateRequest, TodoUpdateRequest};
use desktop_pet::todo::{create, new_todo, update};

const MINUTE: i64 = 60_000;

fn now_ms() -> i64 {
    chrono::Utc::now().timestamp_millis()
}

#[test]
fn update_can_clear_due_at() {
    let due_at = now_ms() + 30 * MINUTE;

    let created = create(TodoCreateRequest {
        title: "test".to_string(),
        due_at: Some(due_at),
        repeat_rule: None,
        priority: 2,
        source: "test".to_string(),
    });

    let updated = update(
        created.clone(),
        TodoUpdateRequest {
            id: created.id,
            title: Some("updated".to_string()),
            due_at: None,
            clear_due_at: Some(true),
            repeat_rule: None,
            priority: None,
        },
    );

    assert_eq!(updated.title, "updated");
    assert!(updated.due_at.is_none());
}

#[test]
fn update_keeps_due_at_when_not_clearing() {
    let due_at = now_ms() + 45 * MINUTE;

    let created = create(TodoCreateRequest {
        title: "test".to_string(),
        due_at: Some(due_at),
        repeat_rule: None,
        priority: 2,
        source: "test".to_string(),
    });

    let updated = update(
        created.clone(),
        TodoUpdateRequest {
            id: created.id,
            title: Some("updated".to_string()),
            due_at: None,
            clear_due_at: Some(false),
            repeat_rule: None,
            priority: None,
        },
    );

    assert_eq!(updated.title, "updated");
    assert!(updated.due_at.is_some());
}

#[test]
fn create_starts_pending_with_request_fields() {
    let t = new_todo(
        "id-1".to_string(),
        TodoCreateRequest {
            title: "write".to_string(),
            due_at: Some(42),
            repeat_rule: Some("daily".to_string()),
            priority: 3,
            source: "chat".to_string(),
        },
    );
    assert_eq!(t.id, "id-1");
    assert_eq!(t.title, "write");
    assert_eq!(t.due_at, Some(42));
    assert_eq!(t.repeat_rule.as_deref(), Some("daily"));
    assert_eq!(t.priority, 3);
    assert_eq!(t.status, "pending");
    assert_eq!(t.source, "chat");
    let a = create(TodoCreateRequest {
        title: "x".to_string(),
        due_at: None,
        repeat_rule: None,
        priority: 1,
        source: "s".to_string(),
    });
    assert_eq!(a.id.len(), 36);
}

#[test]
fn update_merges_given_fields() {
    let current = new_todo(
        "id".to_string(),
        TodoCreateRequest {
            title: "old".to_string(),
            due_at: Some(10),
            repeat_rule: Some("weekly".to_string()),
            priority: 1,
            source: "ui".to_string(),
        },
    );
    let moved = update(
        current.clone(),
        TodoUpdateRequest {
            id: "id".to_string(),
            title: None,
            due_at: Some(99),
            clear_due_at: None,
            repeat_rule: None,
            priority: Some(5),
        },
    );
    assert_eq!(moved.title, "old");
    assert_eq!(moved.due_at, Some(99));
    assert_eq!(moved.repeat_rule.as_deref(), Some("weekly"));
    assert_eq!(moved.priority, 5);
    assert_eq!(moved.status, "pending");
    assert_eq!(moved.source, "ui");
    let cleared = update(
        current.clone(),
        TodoUpdateRequest {
            id: "id".to_string(),
            title: None,
            due_at: Some(99),
            clear_due_at: Some(true),
            repeat_rule: Some("never".to_string()),
            priority: None,
        },
    );
    assert_eq!(cleared.due_at, None);
    assert_eq!(cleared.repeat_rule.as_deref(), Some("never"));
    let same = update(
        current.clone(),
        TodoUpdateRequest {
            id: "id".to_string(),
            title: None,
            due_at: None,
            clear_due_at: None,
            repeat_rule: None,
            priority: None,
        },
    );
    assert_eq!(same, current);
}
