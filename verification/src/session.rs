//! The hours in which the exchanges trade.
use chrono::{Datelike, Timelike};
use vstd::prelude::*;

verus! {

/// Whether the exchanges trade at a moment of the week: Monday to Friday, from half past nine to
/// half past eleven and from one to three. Day 0 is Monday; a session's last minute is left out.
pub open spec fn in_session(weekday: int, hour: int, minute: int) -> bool {
    let time = hour * 60 + minute;
    weekday < 5 && (9 * 60 + 30 <= time < 11 * 60 + 30 || 13 * 60 <= time < 15 * 60)
}

/// Whether the exchanges trade at a moment of the week.
pub fn is_trading_time(weekday: u32, hour: u32, minute: u32) -> (r: bool)
    requires
        hour < 24,
        minute < 60,
    ensures
        r == in_session(weekday as int, hour as int, minute as int),
{
    let time: u32 = hour * 60 + minute;
    weekday < 5 && ((time >= 570 && time < 690) || (time >= 780 && time < 900))
}

/// The local time of `chrono::Local::now`, as the number of days since Monday
/// (`Weekday::num_days_from_monday`), the hour and the minute. Nothing is said of which moment it
/// is: the clock and the time zone of the machine decide. The system's clock must not read a
/// moment before 1970.
#[verifier::external_body]
fn local_clock() -> (r: (u32, u32, u32))
    ensures
        r.0 < 7,
        r.1 < 24,
        r.2 < 60,
{
    let now = chrono::Local::now();
    (now.weekday().num_days_from_monday(), now.hour(), now.minute())
}

/// The moment of the week that the local clock reads, as the day, the hour and the minute, and whether
/// the exchanges trade at it.
pub fn trading_moment() -> (r: (u32, u32, u32, bool))
    ensures
        r.0 < 7,
        r.1 < 24,
        r.2 < 60,
        r.3 == in_session(r.0 as int, r.1 as int, r.2 as int),
{
    let (weekday, hour, minute) = local_clock();
    (weekday, hour, minute, is_trading_time(weekday, hour, minute))
}

/// There is no trading on Saturday and Sunday, and none at noon.
pub proof fn law_no_session(weekday: int, hour: int, minute: int)
    requires
        0 <= hour < 24,
        0 <= minute < 60,
        weekday >= 5 || hour < 9 || hour == 12 || hour >= 15,
    ensures
        !in_session(weekday, hour, minute),
{
}

/// On a weekday there is trading in the second half of the tenth hour, through the eleventh, in the
/// first half of the twelfth, and through the fourteenth and the fifteenth.
pub proof fn law_sessions(weekday: int, minute: int)
    requires
        0 <= weekday < 5,
        0 <= minute < 60,
    ensures
        in_session(weekday, 9, minute) <==> minute >= 30,
        in_session(weekday, 10, minute),
        in_session(weekday, 11, minute) <==> minute < 30,
        in_session(weekday, 13, minute),
        in_session(weekday, 14, minute),
        forall|hour: int|
            0 <= hour < 9 || hour == 12 || 15 <= hour < 24 ==> !#[trigger] in_session(
                weekday,
                hour,
                minute,
            ),
        forall|day: int, hour: int| day >= 5 ==> !#[trigger] in_session(day, hour, minute),
{
}

} // verus!
