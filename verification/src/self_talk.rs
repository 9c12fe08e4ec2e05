//! When the pet speaks up on its own: never while the user asked not to be
//! disturbed or turned self-talk off, never during quiet hours, and at most
//! once every thirty minutes.

use vstd::prelude::*;

use crate::clock::{
    chrono_time_of_day, is_instant, local_seconds_of_day, now_ms, parse_time_of_day,
    MAX_INSTANT_MS, MINUTE_MS, SECONDS_PER_DAY,
};
use crate::state::RuntimeFlags;

verus! {

/// The self-talk switches allow speaking.
pub open spec fn may_speak(flags: RuntimeFlags) -> bool {
    !flags.do_not_disturb && flags.self_talk_enabled
}

/// Whether the switches let the pet talk on its own.
pub fn self_talk_allowed(flags: &RuntimeFlags) -> (r: bool)
    ensures
        r == may_speak(*flags),
{
    !flags.do_not_disturb && flags.self_talk_enabled
}

/// Start of the quiet hours when a persona gives none: 23:00.
pub const DEFAULT_QUIET_START: u32 = 82_800;

/// End of the quiet hours when a persona gives none: 08:00.
pub const DEFAULT_QUIET_END: u32 = 28_800;

/// The format of a persona's quiet-hour bounds.
pub open spec fn hour_minute_format() -> Seq<char> {
    "%H:%M"@
}

/// Time of day `t` lies in the window from `start` (included) to `end`
/// (excluded); a window whose start is after its end runs over midnight,
/// and an empty window (start equal to end) holds no time.
pub open spec fn in_window(start: int, end: int, t: int) -> bool {
    if start > end {
        t >= start || t < end
    } else {
        start <= t && t < end
    }
}

/// Quiet hours at time of day `t`, given the parsed bounds of the persona's
/// quiet hours; without both bounds the window is 23:00 to 08:00.
pub open spec fn quiet_rule(start: Option<u32>, end: Option<u32>, t: u32) -> bool {
    match (start, end) {
        (Some(s), Some(e)) => in_window(s as int, e as int, t as int),
        _ => {
            let hour = t / 3600;
            hour >= 23 || hour < 8
        },
    }
}

/// The persona's quiet-hour bounds as parsed: both when both are given,
/// none otherwise.
pub open spec fn parsed_bounds(hours: Option<(Option<String>, Option<String>)>) -> (
    Option<u32>,
    Option<u32>,
) {
    match hours {
        Some((Some(s), Some(e))) => (
            chrono_time_of_day(s@, hour_minute_format()),
            chrono_time_of_day(e@, hour_minute_format()),
        ),
        _ => (None, None),
    }
}

/// Whether time of day `now_secs` falls in the quiet hours with the given
/// parsed bounds.
pub fn quiet_at(start: Option<u32>, end: Option<u32>, now_secs: u32) -> (r: bool)
    ensures
        r == quiet_rule(start, end, now_secs),
{
    match (start, end) {
        (Some(s), Some(e)) => if s > e {
            now_secs >= s || now_secs < e
        } else {
            s <= now_secs && now_secs < e
        },
        _ => {
            let hour = now_secs / 3600;
            hour >= 23 || hour < 8
        },
    }
}

/// Whether it is quiet hours now, by the local clock, for a persona's quiet
/// hours `(start, end)` written as `HH:MM`. Which time of day the clock
/// gives is not known; the answer is the rule's for that time.
pub fn is_quiet_hours(persona_hours: Option<(Option<String>, Option<String>)>) -> (r: bool)
    ensures
        exists|t: u32|
            t < SECONDS_PER_DAY && r == quiet_rule(
                parsed_bounds(persona_hours).0,
                parsed_bounds(persona_hours).1,
                t,
            ),
{
    let (start, end) = match &persona_hours {
        Some((Some(s), Some(e))) => (
            parse_time_of_day(s.as_str(), "%H:%M"),
            parse_time_of_day(e.as_str(), "%H:%M"),
        ),
        _ => (None, None),
    };
    assert(start == parsed_bounds(persona_hours).0 && end == parsed_bounds(persona_hours).1);
    let now_secs = local_seconds_of_day();
    let r = quiet_at(start, end, now_secs);
    assert(now_secs < SECONDS_PER_DAY && r == quiet_rule(start, end, now_secs));
    r
}

/// How often the self-talk loop runs, in seconds.
pub const SELF_TALK_PERIOD_SECS: u64 = 120;

/// The least time between two self-talk messages: thirty minutes.
pub const COOLDOWN_MS: i64 = 1_800_000;

/// The last message, if any, is at least thirty minutes before `now`.
pub open spec fn cooled_down(last: Option<i64>, now: int) -> bool {
    match last {
        None => true,
        Some(l) => now - l >= COOLDOWN_MS,
    }
}

/// Whether enough time has passed at `now` since the last message.
pub fn cooldown_passed(last: Option<i64>, now: i64) -> (r: bool)
    requires
        is_instant(now as int),
        last matches Some(l) ==> is_instant(l as int),
    ensures
        r == cooled_down(last, now as int),
{
    match last {
        None => true,
        Some(l) => now - l >= COOLDOWN_MS,
    }
}

/// Whether enough time has passed since the last message, by the system
/// clock. Which instant the clock gives is not known; the answer is the
/// rule's for that instant.
pub fn cooldown_passed_now(last: Option<i64>) -> (r: bool)
    requires
        last matches Some(l) ==> is_instant(l as int),
    ensures
        exists|now: int| is_instant(now) && r == cooled_down(last, now),
{
    let now = now_ms();
    cooldown_passed(last, now)
}

/// Whether a self-talk run speaks: the switches allow it, it is not quiet
/// hours, and the last message is far enough back.
pub fn should_speak(flags: &RuntimeFlags, quiet: bool, cooled: bool) -> (r: bool)
    ensures
        r == (may_speak(*flags) && !quiet && cooled),
{
    self_talk_allowed(flags) && !quiet && cooled
}

/// The instants at which a series of self-talk runs speak, each run given
/// by its instant and whether it fell in quiet hours, starting from the
/// instant `last` of the latest message before them (if any). A run that
/// speaks becomes the latest message for the runs after it.
pub open spec fn spoken_times(flags: RuntimeFlags, runs: Seq<(i64, bool)>, last: Option<i64>) -> Seq<i64>
    decreases runs.len(),
{
    if runs.len() == 0 {
        Seq::empty()
    } else {
        let now = runs[0].0;
        let quiet = runs[0].1;
        if may_speak(flags) && !quiet && cooled_down(last, now as int) {
            seq![now] + spoken_times(flags, runs.drop_first(), Some(now))
        } else {
            spoken_times(flags, runs.drop_first(), last)
        }
    }
}

/// Any two instants of `times` are at least thirty minutes apart, and each
/// is at least thirty minutes after `last`, if there is one.
pub open spec fn spaced(times: Seq<i64>, last: Option<i64>) -> bool {
    &&& forall|i: int, j: int|
        #![trigger times[i], times[j]]
        0 <= i < j < times.len() ==> times[j] - times[i] >= COOLDOWN_MS
    &&& forall|j: int|
        #![trigger times[j]]
        0 <= j < times.len() && last is Some ==> times[j] - last->0 >= COOLDOWN_MS
}

/// Law: however the runs fall, the pet speaks at most once in any thirty
/// minutes: the messages of a series of runs are pairwise at least thirty
/// minutes apart, and thirty minutes after the message before them.
pub proof fn law_self_talk_is_spaced(flags: RuntimeFlags, runs: Seq<(i64, bool)>, last: Option<i64>)
    ensures
        spaced(spoken_times(flags, runs, last), last),
    decreases runs.len(),
{
    if runs.len() > 0 {
        let now = runs[0].0;
        let quiet = runs[0].1;
        if may_speak(flags) && !quiet && cooled_down(last, now as int) {
            law_self_talk_is_spaced(flags, runs.drop_first(), Some(now));
            let rest = spoken_times(flags, runs.drop_first(), Some(now));
            let all = seq![now] + rest;
            assert(spoken_times(flags, runs, last) == all);
            assert forall|i: int, j: int| 0 <= i < j < all.len() implies all[j] - all[i] >= COOLDOWN_MS by {
                if i == 0 {
                    assert(all[j] == rest[j - 1]);
                } else {
                    assert(all[j] == rest[j - 1] && all[i] == rest[i - 1]);
                }
            }
            assert forall|j: int| 0 <= j < all.len() && last is Some implies #[trigger] all[j] - last->0 >= COOLDOWN_MS by {
                if j > 0 {
                    assert(all[j] == rest[j - 1]);
                    assert(rest[j - 1] - now >= COOLDOWN_MS);
                }
            }
        } else {
            law_self_talk_is_spaced(flags, runs.drop_first(), last);
        }
    }
}

/// What the pet says when it speaks up.
pub fn self_talk_message() -> (s: String)
    ensures
        s@ == "我刚刚看了下进度，你要不要先完成一个 10 分钟的小任务？"@,
{
    String::from_str("我刚刚看了下进度，你要不要先完成一个 10 分钟的小任务？")
}

/// Law: without usable quiet hours the pet is quiet from 23:00 to 08:00,
/// the same window as a persona whose quiet hours are 23:00 to 08:00.
pub proof fn law_default_quiet_window(start: Option<u32>, end: Option<u32>, t: u32)
    requires
        start is None || end is None,
        t < SECONDS_PER_DAY,
    ensures
        quiet_rule(start, end, t) == quiet_rule(Some(DEFAULT_QUIET_START), Some(DEFAULT_QUIET_END), t),
        quiet_rule(start, end, t) == (t >= DEFAULT_QUIET_START || t < DEFAULT_QUIET_END),
{
}

/// Law: a window from a later to an earlier time of day runs over midnight:
/// it holds every time from its start to midnight and from midnight to its
/// end.
pub proof fn law_overnight_window(start: u32, end: u32, t: u32)
    requires
        start > end,
        t < SECONDS_PER_DAY,
    ensures
        quiet_rule(Some(start), Some(end), t) <==> (start <= t || t < end),
{
}

/// Law: quiet hours whose start equals their end never silence the pet.
pub proof fn law_empty_window_is_never_quiet(bound: u32, t: u32)
    ensures
        !quiet_rule(Some(bound), Some(bound), t),
{
}

/// Law: within thirty minutes after a message, no other is due; from then
/// on, one is.
pub proof fn law_cooldown_is_thirty_minutes(last: i64, now: int)
    ensures
        cooled_down(Some(last), now) <==> now >= last + 30 * MINUTE_MS,
{
}

} // verus!
