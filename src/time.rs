use chrono::{Datelike, TimeZone, Timelike};
use vstd::prelude::*;
use vstd::string::*;
use crate::text::{push_padded, zero_padded};

verus! {

/// Wall-clock fields of an instant: year, month, day, hour, minute, second.
pub type CivilTime = (i32, u32, u32, u32, u32, u32);

/// Seconds east of UTC of the time zone in which claim windows are shown.
pub const DISPLAY_OFFSET_SECS: i32 = 8 * 3600;

/// The wall-clock fields that chrono gives for `millis` milliseconds after the epoch at
/// `offset_secs` seconds east of UTC, or none where chrono has no such instant.
pub uninterp spec fn civil_time_of(millis: int, offset_secs: int) -> Option<CivilTime>;

/// Relies on chrono's `Utc.timestamp_millis_opt`, `FixedOffset::east_opt` and
/// `DateTime::with_timezone`: the wall-clock fields of an epoch instant at a fixed offset.
/// `east_opt` accepts exactly the offsets of less than one day.
#[verifier::external_body]
fn civil_time_at(millis: i64, offset_secs: i32) -> (r: Option<CivilTime>)
    requires
        -86400 < offset_secs < 86400,
    ensures
        r == civil_time_of(millis as int, offset_secs as int),
{
    let offset = chrono::FixedOffset::east_opt(offset_secs).unwrap();
    match chrono::Utc.timestamp_millis_opt(millis).single() {
        Some(dt) => {
            let t = dt.with_timezone(&offset);
            Some((t.year(), t.month(), t.day(), t.hour(), t.minute(), t.second()))
        },
        None => None,
    }
}

/// The marker shown in place of a timestamp that has no calendar date.
pub open spec fn invalid_time_marker() -> Seq<char> {
    seq!['无', '效', '时', '间']
}

/// A year as four digits; outside 0..=9999 with its sign in front.
pub open spec fn year_text(y: int) -> Seq<char> {
    if 0 <= y <= 9999 {
        zero_padded(y as nat, 4)
    } else if y < 0 {
        seq!['-'] + zero_padded((-y) as nat, 4)
    } else {
        seq!['+'] + zero_padded(y as nat, 4)
    }
}

/// `YYYY-MM-DD HH:MM:SS`.
pub open spec fn civil_text(t: CivilTime) -> Seq<char> {
    year_text(t.0 as int) + seq!['-'] + zero_padded(t.1 as nat, 2) + seq!['-'] + zero_padded(
        t.2 as nat,
        2,
    ) + seq![' '] + zero_padded(t.3 as nat, 2) + seq![':'] + zero_padded(t.4 as nat, 2) + seq![
        ':',
    ] + zero_padded(t.5 as nat, 2)
}

/// How a timestamp is shown: its wall-clock fields, or the invalid-time marker.
pub open spec fn timestamp_text(t: Option<CivilTime>) -> Seq<char> {
    match t {
        Some(c) => civil_text(c),
        None => invalid_time_marker(),
    }
}

/// The display text of an epoch timestamp in milliseconds.
pub open spec fn display_time(millis: int) -> Seq<char> {
    timestamp_text(civil_time_of(millis, DISPLAY_OFFSET_SECS as int))
}

fn push_char_lit(s: &mut String, c: char)
    requires
        c == '-' || c == ' ' || c == ':' || c == '+',
    ensures
        final(s)@ == old(s)@ + seq![c],
{
    if c == '-' {
        proof { reveal_strlit("-"); }
        s.append("-");
    } else if c == ' ' {
        proof { reveal_strlit(" "); }
        s.append(" ");
    } else if c == ':' {
        proof { reveal_strlit(":"); }
        s.append(":");
    } else {
        proof { reveal_strlit("+"); }
        s.append("+");
    }
}

/// Renders wall-clock fields as `YYYY-MM-DD HH:MM:SS`, or the invalid-time marker where
/// there are none.
pub fn render_civil_time(t: Option<CivilTime>) -> (r: String)
    ensures
        r@ == timestamp_text(t),
{
    match t {
        Some(c) => {
            let mut s = String::new();
            let y = c.0;
            if 0 <= y && y <= 9999 {
                push_padded(&mut s, y as u64, 4);
            } else if y < 0 {
                push_char_lit(&mut s, '-');
                let a: i64 = -(y as i64);
                push_padded(&mut s, a as u64, 4);
            } else {
                push_char_lit(&mut s, '+');
                push_padded(&mut s, y as u64, 4);
            }
            assert(s@ =~= year_text(y as int));
            push_char_lit(&mut s, '-');
            push_padded(&mut s, c.1 as u64, 2);
            push_char_lit(&mut s, '-');
            push_padded(&mut s, c.2 as u64, 2);
            push_char_lit(&mut s, ' ');
            push_padded(&mut s, c.3 as u64, 2);
            push_char_lit(&mut s, ':');
            push_padded(&mut s, c.4 as u64, 2);
            push_char_lit(&mut s, ':');
            push_padded(&mut s, c.5 as u64, 2);
            assert(s@ =~= civil_text(c));
            s
        },
        None => {
            proof { reveal_strlit("无效时间"); }
            let s = String::from_str("无效时间");
            assert(s@ =~= invalid_time_marker());
            s
        },
    }
}

/// Renders an epoch timestamp in milliseconds in the display time zone.
pub fn format_timestamp(millis: i64) -> (r: String)
    ensures
        r@ == display_time(millis as int),
{
    render_civil_time(civil_time_at(millis, DISPLAY_OFFSET_SECS))
}

} // verus!
