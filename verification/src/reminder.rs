//! Reminders of todos: when one is due, what firing, snoozing and
//! dismissing do to a todo's reminder state, and the log rows they leave.

use vstd::prelude::*;

use crate::clock::{is_instant, now_ms, MAX_INSTANT_MS, MINUTE_MS};
use crate::text::{concat, same_text};

verus! {

/// The reminder state of a todo.
#[derive(Clone, Debug, PartialEq, Eq)]
pub struct ReminderRow {
    pub todo_id: String,
    pub title: String,
    pub due_at: Option<i64>,
    pub status: String,
    pub reminder_sent: bool,
}

/// The reminder state of a todo, as texts.
pub struct RowView {
    pub todo_id: Seq<char>,
    pub title: Seq<char>,
    pub due_at: Option<i64>,
    pub status: Seq<char>,
    pub reminder_sent: bool,
}

impl View for ReminderRow {
    type V = RowView;

    open spec fn view(&self) -> RowView {
        RowView {
            todo_id: self.todo_id@,
            title: self.title@,
            due_at: self.due_at,
            status: self.status@,
            reminder_sent: self.reminder_sent,
        }
    }
}

/// A row of the reminder log.
#[derive(Clone, Debug, PartialEq, Eq)]
pub struct ReminderLog {
    pub todo_id: String,
    pub event: String,
    pub title: String,
    pub due_at: Option<i64>,
    pub source: String,
}

/// A reminder log row, as texts.
pub struct LogView {
    pub todo_id: Seq<char>,
    pub event: Seq<char>,
    pub title: Seq<char>,
    pub due_at: Option<i64>,
    pub source: Seq<char>,
}

impl View for ReminderLog {
    type V = LogView;

    open spec fn view(&self) -> LogView {
        LogView {
            todo_id: self.todo_id@,
            event: self.event@,
            title: self.title@,
            due_at: self.due_at,
            source: self.source@,
        }
    }
}

/// The todo is still open.
pub open spec fn is_pending(r: RowView) -> bool {
    r.status == "pending"@
}

/// The reminder of an open todo whose due time has come and that has not
/// been sent yet.
pub open spec fn due_now(r: RowView, now: int) -> bool {
    &&& is_pending(r)
    &&& !r.reminder_sent
    &&& r.due_at matches Some(d) && d <= now
}

/// A snooze lasts between 1 and 720 minutes.
pub open spec fn clamp_minutes(minutes: int) -> int {
    if minutes < 1 {
        1
    } else if minutes > 720 {
        720
    } else {
        minutes
    }
}

/// When a reminder snoozed at `now` for `minutes` comes due again.
pub open spec fn snoozed_until(now: int, minutes: int) -> int {
    now + clamp_minutes(minutes) * MINUTE_MS
}

/// The state after a reminder fired: it counts as sent.
pub open spec fn after_trigger(r: RowView) -> RowView {
    RowView { reminder_sent: true, ..r }
}

/// The state after a snooze: due again at `next`, not sent.
pub open spec fn after_snooze(r: RowView, next: i64) -> RowView {
    RowView { due_at: Some(next), reminder_sent: false, ..r }
}

/// The state after a dismissal: it counts as sent, due time kept.
pub open spec fn after_dismiss(r: RowView) -> RowView {
    RowView { reminder_sent: true, ..r }
}

/// A log row for a reminder event.
pub open spec fn log_of(r: RowView, event: Seq<char>, due_at: Option<i64>, source: Seq<char>) -> LogView {
    LogView { todo_id: r.todo_id, event, title: r.title, due_at, source }
}

/// Why a reminder operation could not be carried out.
#[derive(Clone, Debug, PartialEq, Eq)]
pub enum ReminderError {
    /// No todo has this id.
    TodoNotFound(String),
    /// The clock reads so late that the snoozed time cannot be represented.
    ClockOutOfRange,
}

impl ReminderError {
    /// The error's message.
    pub fn message(&self) -> (m: String)
        ensures
            self matches ReminderError::TodoNotFound(id) ==> m@ == "todo not found: "@ + id@,
            self matches ReminderError::ClockOutOfRange ==> m@
                == "clock reading is beyond the representable range"@,
    {
        match self {
            ReminderError::TodoNotFound(id) => concat("todo not found: ", id.as_str()),
            ReminderError::ClockOutOfRange => String::from_str(
                "clock reading is beyond the representable range",
            ),
        }
    }
}

/// Limits a snooze to between 1 and 720 minutes.
pub fn snooze_minutes(minutes: i64) -> (m: i64)
    ensures
        m == clamp_minutes(minutes as int),
        1 <= m <= 720,
{
    if minutes < 1 {
        1
    } else if minutes > 720 {
        720
    } else {
        minutes
    }
}

/// When a reminder snoozed at `now` for `minutes` comes due again.
pub fn snooze_due_at(now: i64, minutes: i64) -> (t: i64)
    requires
        is_instant(now as int),
        snoozed_until(now as int, minutes as int) <= MAX_INSTANT_MS,
    ensures
        t == snoozed_until(now as int, minutes as int),
{
    now + snooze_minutes(minutes) * MINUTE_MS
}

/// Whether a reminder should fire at `now`.
pub fn is_due(row: &ReminderRow, now: i64) -> (r: bool)
    ensures
        r == due_now(row@, now as int),
{
    let pending = same_text(row.status.as_str(), "pending");
    match row.due_at {
        Some(d) => pending && !row.reminder_sent && d <= now,
        None => false,
    }
}

fn copy_text(s: &String) -> (c: String)
    ensures
        c@ == s@,
{
    s.clone()
}

fn copy_row(row: &ReminderRow) -> (c: ReminderRow)
    ensures
        c@ == row@,
{
    ReminderRow {
        todo_id: copy_text(&row.todo_id),
        title: copy_text(&row.title),
        due_at: row.due_at,
        status: copy_text(&row.status),
        reminder_sent: row.reminder_sent,
    }
}

fn make_log(row: &ReminderRow, event: &str, due_at: Option<i64>, source: &str) -> (l: ReminderLog)
    ensures
        l@ == log_of(row@, event@, due_at, source@),
{
    ReminderLog {
        todo_id: copy_text(&row.todo_id),
        event: String::from_str(event),
        title: copy_text(&row.title),
        due_at,
        source: String::from_str(source),
    }
}

/// Fires a reminder: marks it sent and logs the trigger, made by the
/// scheduler, with the due time.
pub fn fire_reminder(row: &mut ReminderRow) -> (log: ReminderLog)
    ensures
        final(row)@ == after_trigger(old(row)@),
        log@ == log_of(old(row)@, "triggered"@, old(row)@.due_at, "scheduler"@),
{
    let log = make_log(row, "triggered", row.due_at, "scheduler");
    row.reminder_sent = true;
    log
}

/// Snoozes a reminder at `now`: it comes due again after the clamped number
/// of minutes and is no longer sent; the log records the new due time,
/// made by the user.
pub fn snooze_at(row: &mut ReminderRow, now: i64, minutes: i64) -> (log: ReminderLog)
    requires
        is_instant(now as int),
        snoozed_until(now as int, minutes as int) <= MAX_INSTANT_MS,
    ensures
        final(row)@ == after_snooze(old(row)@, snoozed_until(now as int, minutes as int) as i64),
        log@ == log_of(
            old(row)@,
            "snoozed"@,
            Some(snoozed_until(now as int, minutes as int) as i64),
            "user"@,
        ),
{
    let next = snooze_due_at(now, minutes);
    let log = make_log(row, "snoozed", Some(next), "user");
    row.due_at = Some(next);
    row.reminder_sent = false;
    log
}

/// Dismisses a reminder: it counts as sent; the log keeps the due time and
/// records the user.
pub fn dismiss(row: &mut ReminderRow) -> (log: ReminderLog)
    ensures
        final(row)@ == after_dismiss(old(row)@),
        log@ == log_of(old(row)@, "dismissed"@, old(row)@.due_at, "user"@),
{
    let log = make_log(row, "dismissed", row.due_at, "user");
    row.reminder_sent = true;
    log
}

/// A snoozed todo: its new reminder state, the log row, and what the user
/// is told (title and new due time).
#[derive(Clone, Debug, PartialEq, Eq)]
pub struct Snoozed {
    pub row: ReminderRow,
    pub log: ReminderLog,
    pub title: String,
    pub next_due_at: i64,
}

/// Snoozes the todo `todo_id`, whose reminder state was looked up as
/// `found`, at `now`. Refused when `now` is so late that the new due time
/// would not be representable.
pub fn snooze_found(found: Option<ReminderRow>, todo_id: &str, now: i64, minutes: i64) -> (r: Result<
    Snoozed,
    ReminderError,
>)
    requires
        is_instant(now as int),
    ensures
        found is None ==> (r matches Err(ReminderError::TodoNotFound(id)) && id@ == todo_id@),
        found is Some && snoozed_until(now as int, minutes as int) > MAX_INSTANT_MS ==> r matches Err(
            ReminderError::ClockOutOfRange,
        ),
        found matches Some(row) ==> snoozed_until(now as int, minutes as int) <= MAX_INSTANT_MS ==> (
        r matches Ok(s) && {
            let next = snoozed_until(now as int, minutes as int);
            &&& s.next_due_at == next
            &&& s.title@ == row@.title
            &&& s.row@ == after_snooze(row@, next as i64)
            &&& s.log@ == log_of(row@, "snoozed"@, Some(next as i64), "user"@)
        }),
{
    match found {
        None => Err(ReminderError::TodoNotFound(String::from_str(todo_id))),
        Some(row) => {
            let d = snooze_minutes(minutes);
            if now > MAX_INSTANT_MS - d * MINUTE_MS {
                return Err(ReminderError::ClockOutOfRange);
            }
            let mut row = row;
            let title = copy_text(&row.title);
            let next_due_at = snooze_due_at(now, minutes);
            let log = snooze_at(&mut row, now, minutes);
            Ok(Snoozed { row, log, title, next_due_at })
        },
    }
}

/// Snoozes the todo `todo_id`, whose reminder state was looked up as
/// `found`, at the current time. Which instant the clock gives is not
/// known; the result is `snooze_found`'s at that instant.
pub fn snooze_now(found: Option<ReminderRow>, todo_id: &str, minutes: i64) -> (r: Result<
    Snoozed,
    ReminderError,
>)
    ensures
        found is None ==> (r matches Err(ReminderError::TodoNotFound(id)) && id@ == todo_id@),
        found matches Some(row) ==> exists|now: int|
            is_instant(now) && if snoozed_until(now, minutes as int) > MAX_INSTANT_MS {
                r matches Err(ReminderError::ClockOutOfRange)
            } else {
                r matches Ok(s) && {
                    let next = snoozed_until(now, minutes as int);
                    &&& s.next_due_at == next
                    &&& s.title@ == row@.title
                    &&& s.row@ == after_snooze(row@, next as i64)
                    &&& s.log@ == log_of(row@, "snoozed"@, Some(next as i64), "user"@)
                }
            },
{
    if found.is_none() {
        return Err(ReminderError::TodoNotFound(String::from_str(todo_id)));
    }
    let now = now_ms();
    snooze_found(found, todo_id, now, minutes)
}

/// A dismissed todo: its new reminder state, the log row and its title.
#[derive(Clone, Debug, PartialEq, Eq)]
pub struct Dismissed {
    pub row: ReminderRow,
    pub log: ReminderLog,
    pub title: String,
}

/// Dismisses the reminder of the todo `todo_id`, whose reminder state was
/// looked up as `found`.
pub fn dismiss_found(found: Option<ReminderRow>, todo_id: &str) -> (r: Result<Dismissed, ReminderError>)
    ensures
        found is None ==> (r matches Err(ReminderError::TodoNotFound(id)) && id@ == todo_id@),
        found matches Some(row) ==> (r matches Ok(d) && {
            &&& d.title@ == row@.title
            &&& d.row@ == after_dismiss(row@)
            &&& d.log@ == log_of(row@, "dismissed"@, row@.due_at, "user"@)
        }),
{
    match found {
        None => Err(ReminderError::TodoNotFound(String::from_str(todo_id))),
        Some(row) => {
            let mut row = row;
            let title = copy_text(&row.title);
            let log = dismiss(&mut row);
            Ok(Dismissed { row, log, title })
        },
    }
}

/// A reminder that is due: the todo's reminder state and the desktop
/// notification (title and body) to show for it.
#[derive(Clone, Debug, PartialEq, Eq)]
pub struct ReminderAlert {
    pub row: ReminderRow,
    pub notification_title: String,
    pub notification_body: String,
}

/// When the scheduler looks for due reminders: a cron schedule with a
/// seconds field, firing every thirty seconds.
pub const REMINDER_SCHEDULE: &'static str = "1/30 * * * * *";

/// The reminders among `rows` that are due at `now`, in order.
pub open spec fn due_rows(rows: Seq<RowView>, now: int) -> Seq<RowView>
    decreases rows.len(),
{
    if rows.len() == 0 {
        Seq::empty()
    } else {
        let r = rows.last();
        let rest = due_rows(rows.drop_last(), now);
        if due_now(r, now) {
            rest.push(r)
        } else {
            rest
        }
    }
}

/// The views of a list of reminder states.
pub open spec fn row_views(rows: Seq<ReminderRow>) -> Seq<RowView> {
    rows.map_values(|r: ReminderRow| r@)
}

/// The reminder states of a list of alerts.
pub open spec fn alert_rows(alerts: Seq<ReminderAlert>) -> Seq<RowView> {
    alerts.map_values(|a: ReminderAlert| a.row@)
}

/// The reminders among `rows` that are due at `now`, in the order of
/// `rows`, each with its notification: titled "桌宠提醒", showing the
/// todo's title.
pub fn fire_due(rows: &Vec<ReminderRow>, now: i64) -> (alerts: Vec<ReminderAlert>)
    ensures
        alert_rows(alerts@) == due_rows(row_views(rows@), now as int),
        forall|i: int|
            0 <= i < alerts@.len() ==> (#[trigger] alerts@[i]).notification_title@ == "桌宠提醒"@
                && alerts@[i].notification_body@ == alerts@[i].row@.title,
{
    let mut alerts: Vec<ReminderAlert> = Vec::new();
    let n = rows.len();
    let mut i: usize = 0;
    while i < n
        invariant
            n == rows@.len(),
            i <= n,
            alert_rows(alerts@) == due_rows(row_views(rows@).take(i as int), now as int),
            forall|k: int|
                0 <= k < alerts@.len() ==> (#[trigger] alerts@[k]).notification_title@
                    == "桌宠提醒"@ && alerts@[k].notification_body@ == alerts@[k].row@.title,
        decreases n - i,
    {
        let ghost prefix = row_views(rows@).take(i as int);
        let ghost next = row_views(rows@).take(i + 1);
        assert(next.drop_last() =~= prefix);
        assert(next.last() == rows@[i as int]@);
        if is_due(&rows[i], now) {
            let row = copy_row(&rows[i]);
            let body = copy_text(&row.title);
            let alert = ReminderAlert {
                row,
                notification_title: String::from_str("桌宠提醒"),
                notification_body: body,
            };
            let ghost before = alerts@;
            alerts.push(alert);
            assert(alert_rows(alerts@) =~= alert_rows(before).push(alerts@.last().row@));
        }
        i = i + 1;
    }
    assert(row_views(rows@).take(n as int) =~= row_views(rows@));
    alerts
}

/// The reminders among `rows` that are due now, by the system clock. Which
/// instant "now" is depends on the clock; the alerts are those due at that
/// instant.
pub fn fire_due_now(rows: &Vec<ReminderRow>) -> (alerts: Vec<ReminderAlert>)
    ensures
        exists|now: int| is_instant(now) && alert_rows(alerts@) == due_rows(row_views(rows@), now),
{
    let now = now_ms();
    fire_due(rows, now)
}

/// A reminder that fired: its new state and its log row.
#[derive(Clone, Debug, PartialEq, Eq)]
pub struct Fired {
    pub row: ReminderRow,
    pub log: ReminderLog,
}

/// What showing a due reminder's notification leads to: when it was shown,
/// the reminder counts as sent and the trigger is logged by the scheduler
/// with the due time; when it could not be shown, nothing changes, so the
/// reminder is tried again on the next tick.
pub fn after_notify(row: ReminderRow, shown: bool) -> (r: Option<Fired>)
    ensures
        shown ==> (r matches Some(f) && f.row@ == after_trigger(row@) && f.log@ == log_of(
            row@,
            "triggered"@,
            row@.due_at,
            "scheduler"@,
        )),
        !shown ==> r is None,
{
    if !shown {
        return None;
    }
    let mut row = row;
    let log = fire_reminder(&mut row);
    Some(Fired { row, log })
}

/// Law: once a reminder has fired, it is not due again at any time, until
/// a snooze re-arms it.
pub proof fn law_fired_reminder_stays_quiet(r: RowView, t: int)
    ensures
        !due_now(after_trigger(r), t),
{
}

/// Law: once a reminder has been dismissed, it is not due at any time,
/// until a snooze re-arms it.
pub proof fn law_dismissed_reminder_stays_quiet(r: RowView, t: int)
    ensures
        !due_now(after_dismiss(r), t),
{
}

/// Law: a snooze lasts at least one minute and at most twelve hours.
pub proof fn law_snooze_window(now: int, minutes: int)
    ensures
        now + MINUTE_MS <= snoozed_until(now, minutes) <= now + 720 * MINUTE_MS,
{
}

/// Law: a snoozed reminder of an open todo (fired, dismissed or not) comes
/// due exactly when its new due time is reached.
pub proof fn law_snooze_rearms(r: RowView, now: int, minutes: int, t: int)
    requires
        is_pending(r),
        is_instant(now),
        snoozed_until(now, minutes) <= MAX_INSTANT_MS,
    ensures
        due_now(after_snooze(r, snoozed_until(now, minutes) as i64), t) <==> t >= snoozed_until(
            now,
            minutes,
        ),
{
}

/// Law: a due reminder whose notification could not be shown stays due at
/// every later time, so no reminder is lost to a failed notification.
pub proof fn law_failed_notification_is_retried(r: RowView, now: int, t: int)
    requires
        due_now(r, now),
        now <= t,
    ensures
        due_now(r, t),
{
}

/// The reminder states after a scheduler tick at `now` in which every
/// notification was shown: each reminder due at `now` has fired.
pub open spec fn after_tick(rows: Seq<RowView>, now: int) -> Seq<RowView> {
    rows.map_values(|r: RowView| if due_now(r, now) { after_trigger(r) } else { r })
}

/// Law: a reminder fires once per due time: one that fired in a tick at
/// `now` is not due at any later tick, and a second tick at the same instant
/// finds nothing due.
pub proof fn law_tick_fires_each_reminder_once(rows: Seq<RowView>, now: int, t: int)
    ensures
        forall|i: int|
            0 <= i < rows.len() && due_now(#[trigger] rows[i], now) ==> !due_now(
                after_tick(rows, now)[i],
                t,
            ),
        due_rows(after_tick(rows, now), now).len() == 0,
    decreases rows.len(),
{
    if rows.len() > 0 {
        let rest = rows.drop_last();
        law_tick_fires_each_reminder_once(rest, now, t);
        assert(after_tick(rows, now).drop_last() =~= after_tick(rest, now));
    }
}

/// Law: after a tick at `now` in which every notification was shown, a
/// later tick at `t` fires nothing unless some reminder's due time falls
/// after `now` and no later than `t`.
pub proof fn law_later_tick_fires_nothing_new(rows: Seq<RowView>, now: int, t: int)
    requires
        now <= t,
        forall|i: int|
            0 <= i < rows.len() ==> !((#[trigger] rows[i]).due_at matches Some(d) && now < d <= t),
    ensures
        due_rows(after_tick(rows, now), t).len() == 0,
    decreases rows.len(),
{
    if rows.len() > 0 {
        let rest = rows.drop_last();
        assert forall|i: int| 0 <= i < rest.len() implies !((#[trigger] rest[i]).due_at matches Some(d)
            && now < d <= t) by {
            assert(rest[i] == rows[i]);
        }
        law_later_tick_fires_nothing_new(rest, now, t);
        assert(after_tick(rows, now).drop_last() =~= after_tick(rest, now));
        assert(rows[rows.len() - 1] == rows.last());
    }
}

/// Law: the reminders that fire at `now` are exactly those of an open todo,
/// not yet sent, whose due time is `now` or earlier: every fired one is
/// such a reminder taken from `rows`, none of them fires before its due
/// time, and every such reminder of `rows` fires.
pub proof fn law_fired_reminders_are_the_due_ones(rows: Seq<RowView>, now: int)
    ensures
        forall|j: int|
            0 <= j < due_rows(rows, now).len() ==> {
                let r = #[trigger] due_rows(rows, now)[j];
                &&& r.status == "pending"@
                &&& !r.reminder_sent
                &&& r.due_at matches Some(d) && d <= now
                &&& rows.contains(r)
            },
        forall|i: int|
            0 <= i < rows.len() && (#[trigger] rows[i]).status == "pending"@ && !rows[i].reminder_sent
                && (rows[i].due_at matches Some(d) && d <= now) ==> due_rows(rows, now).contains(
                rows[i],
            ),
    decreases rows.len(),
{
    if rows.len() > 0 {
        let rest = rows.drop_last();
        law_fired_reminders_are_the_due_ones(rest, now);
        let fired = due_rows(rows, now);
        let before = due_rows(rest, now);
        assert forall|j: int| 0 <= j < fired.len() implies {
            let r = #[trigger] fired[j];
            &&& r.status == "pending"@
            &&& !r.reminder_sent
            &&& r.due_at matches Some(d) && d <= now
            &&& rows.contains(r)
        } by {
            if j < before.len() {
                assert(fired[j] == before[j]);
                let k = choose|k: int| 0 <= k < rest.len() && rest[k] == before[j];
                assert(rows[k] == rest[k]);
            } else {
                assert(fired[j] == rows.last());
                assert(rows[rows.len() - 1] == rows.last());
            }
        }
        assert forall|i: int|
            0 <= i < rows.len() && (#[trigger] rows[i]).status == "pending"@ && !rows[i].reminder_sent
                && (rows[i].due_at matches Some(d) && d <= now) implies fired.contains(rows[i]) by {
            if i < rest.len() {
                assert(rest[i] == rows[i]);
                let k = choose|k: int| 0 <= k < before.len() && before[k] == rest[i];
                assert(fired[k] == before[k]);
            } else {
                assert(rows[i] == rows.last());
                assert(fired[fired.len() - 1] == rows.last());
            }
        }
    }
}

/// Law: a snooze of 1 to 720 minutes comes due exactly that many minutes
/// after the instant it was made at; a shorter one after one minute, a
/// longer one after 720 minutes.
pub proof fn law_snooze_lasts_the_clamped_minutes(now: int, minutes: int)
    ensures
        1 <= minutes <= 720 ==> snoozed_until(now, minutes) == now + minutes * 60_000,
        minutes < 1 ==> snoozed_until(now, minutes) == now + 60_000,
        minutes > 720 ==> snoozed_until(now, minutes) == now + 720 * 60_000,
{
}

} // verus!
