use desktop_pet::db::{after_attempt, db_candidates, env_db_path, first_attempt, PoolStep};
use desktop_pet::ids::fresh_id;
use desktop_pet::persona::seed_needed;
use desktop_pet::self_talk::{
    cooldown_passed, cooldown_passed_now, is_quiet_hours, quiet_at, self_talk_allowed,
    self_talk_message, should_speak, COOLDOWN_MS,
};
use desktop_pet::state::RuntimeFlags;
use desktop_pet::text::{contains, join, same_text, trim};

const HOUR: u32 = 3600;

#[test]
fn default_flags_allow_talk_but_not_system_control() {
    let flags = RuntimeFlags::default();
    assert!(!flags.do_not_disturb);
    assert!(flags.self_talk_enabled);
    assert!(!flags.system_control_enabled);
    assert!(self_talk_allowed(&flags));
    assert!(!self_talk_allowed(&RuntimeFlags { do_not_disturb: true, ..flags }));
    assert!(!self_talk_allowed(&RuntimeFlags { self_talk_enabled: false, ..flags }));
}

#[test]
fn overnight_quiet_hours() {
    let start = Some(23 * HOUR);
    let end = Some(8 * HOUR);
    assert!(quiet_at(start, end, 23 * HOUR + 30 * 60));
    assert!(quiet_at(start, end, 0));
    assert!(quiet_at(start, end, 8 * HOUR - 1));
    assert!(!quiet_at(start, end, 8 * HOUR));
    assert!(!quiet_at(start, end, 12 * HOUR));
    assert!(quiet_at(start, end, 23 * HOUR));
}

#[test]
fn daytime_and_empty_windows() {
    assert!(quiet_at(Some(9 * HOUR), Some(17 * HOUR), 12 * HOUR));
    assert!(!quiet_at(Some(9 * HOUR), Some(17 * HOUR), 18 * HOUR));
    assert!(!quiet_at(Some(9 * HOUR), Some(17 * HOUR), 17 * HOUR));
    assert!(!quiet_at(Some(5 * HOUR), Some(5 * HOUR), 5 * HOUR));
}

#[test]
fn missing_bounds_fall_back_to_night() {
    assert!(quiet_at(None, None, 23 * HOUR));
    assert!(quiet_at(Some(HOUR), None, 7 * HOUR + 59 * 60));
    assert!(!quiet_at(None, Some(HOUR), 8 * HOUR));
    assert!(!quiet_at(None, None, 22 * HOUR + 59 * 60));
}

#[test]
fn quiet_hours_from_the_local_clock() {
    // The morning window and the window from noon over midnight split the
    // day: exactly one of them holds whatever the local time is.
    let a = is_quiet_hours(Some((Some("00:00".to_string()), Some("12:00".to_string()))));
    let b = is_quiet_hours(Some((Some("12:00".to_string()), Some("00:00".to_string()))));
    assert!(a != b);
    assert!(!is_quiet_hours(Some((Some("10:00".to_string()), Some("10:00".to_string())))));
}

#[test]
fn cooldown_is_thirty_minutes() {
    assert_eq!(COOLDOWN_MS, 30 * 60 * 1000);
    assert!(cooldown_passed(None, 0));
    assert!(!cooldown_passed(Some(1_000), 1_000 + COOLDOWN_MS - 1));
    assert!(cooldown_passed(Some(1_000), 1_000 + COOLDOWN_MS));
    assert!(!cooldown_passed(Some(5_000), 1_000));
    let now = chrono::Utc::now().timestamp_millis();
    assert!(!cooldown_passed_now(Some(now)));
    assert!(cooldown_passed_now(Some(now - 31 * 60 * 1000)));
    assert!(cooldown_passed_now(None));
}

#[test]
fn self_talk_message_text() {
    assert_eq!(self_talk_message(), "我刚刚看了下进度，你要不要先完成一个 10 分钟的小任务？");
}

#[test]
fn database_candidates_in_order() {
    assert_eq!(env_db_path(Some("  ".to_string())), None);
    assert_eq!(env_db_path(None), None);
    assert_eq!(env_db_path(Some(" /x/db ".to_string())), Some(" /x/db ".to_string()));
    assert_eq!(db_candidates(Some(1), Some(2), 3), vec![1, 2, 3]);
    assert_eq!(db_candidates(None, Some(2), 3), vec![2, 3]);
    assert_eq!(db_candidates(Some(1), None, 3), vec![1, 3]);
    assert_eq!(db_candidates::<i32>(None, None, 3), vec![3]);
}

#[test]
fn text_helpers() {
    assert!(contains("abcabd", "abd"));
    assert!(!contains("abcab", "abd"));
    assert!(contains("x", ""));
    assert!(!contains("", "x"));
    assert_eq!(trim("\t a b \n"), "a b");
    assert_eq!(trim("   "), "");
    assert_eq!(join(&vec!["a".to_string(), "b".to_string()], ", "), "a, b");
    assert!(same_text("你好", "你好"));
    assert!(!same_text("a", "b"));
}

#[test]
fn pool_steps_take_the_first_candidate_that_opens() {
    assert_eq!(first_attempt(0), PoolStep::Fail("failed to initialize sqlite pool".to_string()));
    assert_eq!(first_attempt(3), PoolStep::Try(0));
    assert_eq!(after_attempt(0, 3, Ok(())), PoolStep::Use(0));
    assert_eq!(after_attempt(0, 3, Err("locked".to_string())), PoolStep::Try(1));
    assert_eq!(after_attempt(1, 3, Ok(())), PoolStep::Use(1));
    assert_eq!(after_attempt(2, 3, Err("read-only".to_string())), PoolStep::Fail("read-only".to_string()));
    // Running the steps over outcomes [Err, Err, Ok] ends at the third.
    let outcomes: Vec<Result<(), String>> = vec![Err("a".to_string()), Err("b".to_string()), Ok(())];
    let mut step = first_attempt(outcomes.len());
    let mut tried = 0;
    while let PoolStep::Try(i) = step {
        tried += 1;
        step = after_attempt(i, outcomes.len(), outcomes[i].clone());
    }
    assert_eq!(step, PoolStep::Use(2));
    assert_eq!(tried, 3);
}

#[test]
fn should_speak_needs_switches_no_quiet_and_cooldown() {
    let flags = RuntimeFlags::default();
    assert!(should_speak(&flags, false, true));
    assert!(!should_speak(&flags, true, true));
    assert!(!should_speak(&flags, false, false));
    assert!(!should_speak(&RuntimeFlags { do_not_disturb: true, ..flags }, false, true));
    assert!(!should_speak(&RuntimeFlags { self_talk_enabled: false, ..flags }, false, true));
}

#[test]
fn default_persona_is_seeded_only_when_absent() {
    assert!(seed_needed(None));
    assert!(!seed_needed(Some("default".to_string())));
}

#[test]
fn fresh_ids_are_random_uuids() {
    let a = fresh_id();
    let b = fresh_id();
    assert_eq!(a.len(), 36);
    assert_eq!(a.chars().nth(14), Some('4'));
    assert_ne!(a, b);
}
