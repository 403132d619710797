//! Quiet hours: windows such as `"22:00-06:00"` and what falls into them.

use vstd::prelude::*;

use crate::error::DomainError;
use crate::text::{concat, decimal, parse_unsigned, read_unsigned, split_first, split_once, trim, trimmed, u64_text};

verus! {

/// A time of day.
#[derive(Debug, Clone, Copy, PartialEq, Eq, Structural)]
pub struct TimeOfDay {
    /// 0 to 23.
    pub hour: u32,
    /// 0 to 59.
    pub minute: u32,
}

/// A quiet window, from one time of day until another, the latter excluded. It
/// runs over midnight where it ends before it begins.
#[derive(Debug, Clone, Copy, PartialEq, Eq, Structural)]
pub struct MuteWindow {
    pub from: TimeOfDay,
    pub until: TimeOfDay,
}

/// A number in decimal, with a zero in front where it has one digit.
pub open spec fn two_digits(n: nat) -> Seq<char> {
    if n < 10 {
        seq!['0'] + decimal(n)
    } else {
        decimal(n)
    }
}

/// Writes a number with two digits at least.
fn two_digit_text(n: u32) -> (r: String)
    ensures
        r@ == two_digits(n as nat),
{
    let digits = u64_text(n as u64);
    if n < 10 {
        proof {
            reveal_strlit("0");
            assert("0"@ =~= seq!['0']);
        }
        concat("0", digits.as_str())
    } else {
        digits
    }
}

impl TimeOfDay {
    /// The time exists on a clock.
    pub open spec fn valid(self) -> bool {
        self.hour <= 23 && self.minute <= 59
    }

    /// Minutes since midnight.
    pub open spec fn minutes(self) -> int {
        self.hour * 60 + self.minute
    }

    /// How a time that does not exist is refused.
    pub open spec fn refusal(hour: u32, minute: u32) -> Seq<char> {
        "非法时刻 "@ + two_digits(hour as nat) + ":"@ + two_digits(minute as nat)
    }

    /// A time of day; an error where it does not exist.
    pub fn new(hour: u32, minute: u32) -> (r: Result<TimeOfDay, DomainError>)
        ensures
            r is Ok <==> hour <= 23 && minute <= 59,
            r matches Ok(t) ==> t.hour == hour && t.minute == minute,
            r matches Err(e) ==> (e matches DomainError::InvalidState(s) && s@
                == TimeOfDay::refusal(hour, minute)),
    {
        if hour > 23 || minute > 59 {
            let head = concat("非法时刻 ", two_digit_text(hour).as_str());
            let colon = concat(head.as_str(), ":");
            return Err(
                DomainError::InvalidState(concat(colon.as_str(), two_digit_text(minute).as_str())),
            );
        }
        Ok(TimeOfDay { hour, minute })
    }

    /// Minutes since midnight.
    pub fn to_minutes(self) -> (r: u32)
        requires
            self.minutes() <= u32::MAX,
        ensures
            r == self.minutes(),
    {
        self.hour * 60 + self.minute
    }
}

/// What a text reads as, as a time of day; else the refusal.
pub open spec fn read_time(s: Seq<char>) -> Result<TimeOfDay, Seq<char>> {
    let t = trimmed(s);
    match split_first(t, ':') {
        None => Err("时刻缺少 ':'："@ + t),
        Some((h, m)) => match read_unsigned(trimmed(h), u32::MAX as nat) {
            None => Err("非法的时："@ + h),
            Some(hour) => match read_unsigned(trimmed(m), u32::MAX as nat) {
                None => Err("非法的分："@ + m),
                Some(minute) => if hour <= 23 && minute <= 59 {
                    Ok(TimeOfDay { hour: hour as u32, minute: minute as u32 })
                } else {
                    Err(TimeOfDay::refusal(hour as u32, minute as u32))
                },
            },
        },
    }
}

/// What a text reads as, as a quiet window: none where it is blank; else the refusal.
pub open spec fn read_schedule(s: Seq<char>) -> Result<Option<MuteWindow>, Seq<char>> {
    let t = trimmed(s);
    if t.len() == 0 {
        Ok(None)
    } else {
        match split_first(t, '-') {
            None => Err("静默时段缺少 '-' 分隔符："@ + t),
            Some((a, b)) => match read_time(a) {
                Err(e) => Err(e),
                Ok(from) => match read_time(b) {
                    Err(e) => Err(e),
                    Ok(until) => Ok(Some(MuteWindow { from, until })),
                },
            },
        }
    }
}

/// Reads one `HH:MM` time of day.
pub fn parse_time(s: &str) -> (r: Result<TimeOfDay, DomainError>)
    ensures
        match (r, read_time(s@)) {
            (Ok(a), Ok(b)) => a == b,
            (Err(e), Err(text)) => e matches DomainError::InvalidState(m) && m@ == text,
            _ => false,
        },
{
    let t = trim(s);
    match split_once(t.as_str(), ':') {
        None => Err(DomainError::InvalidState(concat("时刻缺少 ':'：", t.as_str()))),
        Some((h, m)) => {
            let hour: u64 = match parse_unsigned(trim(h.as_str()).as_str(), u32::MAX as u64) {
                Some(n) => n,
                None => {
                    return Err(DomainError::InvalidState(concat("非法的时：", h.as_str())));
                },
            };
            let minute: u64 = match parse_unsigned(trim(m.as_str()).as_str(), u32::MAX as u64) {
                Some(n) => n,
                None => {
                    return Err(DomainError::InvalidState(concat("非法的分：", m.as_str())));
                },
            };
            TimeOfDay::new(hour as u32, minute as u32)
        },
    }
}

/// Reads a `HH:MM-HH:MM` window; a blank text is no window.
pub fn parse_mute_schedule(s: &str) -> (r: Result<Option<MuteWindow>, DomainError>)
    ensures
        match (r, read_schedule(s@)) {
            (Ok(a), Ok(b)) => a == b,
            (Err(e), Err(text)) => e matches DomainError::InvalidState(m) && m@ == text,
            _ => false,
        },
{
    let t = trim(s);
    if t.as_str().is_empty() {
        return Ok(None);
    }
    match split_once(t.as_str(), '-') {
        None => Err(
            DomainError::InvalidState(concat("静默时段缺少 '-' 分隔符：", t.as_str())),
        ),
        Some((a, b)) => {
            let from = match parse_time(a.as_str()) {
                Ok(time) => time,
                Err(e) => {
                    return Err(e);
                },
            };
            match parse_time(b.as_str()) {
                Ok(until) => Ok(Some(MuteWindow { from, until })),
                Err(e) => Err(e),
            }
        },
    }
}

/// The time of day falls into the window.
pub open spec fn in_window(window: MuteWindow, time: TimeOfDay) -> bool {
    let t = time.minutes();
    let from = window.from.minutes();
    let until = window.until.minutes();
    if from <= until {
        from <= t < until
    } else {
        from <= t || t < until
    }
}

/// Tells whether a time of day falls into a window.
pub fn is_within_window(window: &MuteWindow, time: &TimeOfDay) -> (r: bool)
    requires
        time.minutes() <= u32::MAX,
        window.from.minutes() <= u32::MAX,
        window.until.minutes() <= u32::MAX,
    ensures
        r == in_window(*window, *time),
{
    let t: u32 = time.to_minutes();
    let from: u32 = window.from.to_minutes();
    let until: u32 = window.until.to_minutes();
    if from <= until {
        t >= from && t < until
    } else {
        t >= from || t < until
    }
}

/// The quiet window, if any, that an optional schedule sets; a schedule that
/// cannot be read sets none.
pub open spec fn scheduled_window(schedule: Option<Seq<char>>) -> Option<MuteWindow> {
    match schedule {
        None => None,
        Some(s) => match read_schedule(s) {
            Ok(w) => w,
            Err(_) => None,
        },
    }
}

/// The schedule mutes the time of day.
pub open spec fn muted_at(schedule: Option<Seq<char>>, time: TimeOfDay) -> bool {
    match scheduled_window(schedule) {
        Some(w) => in_window(w, time),
        None => false,
    }
}

/// Tells whether an optional schedule mutes a time of day.
pub fn is_muted(schedule: &Option<String>, time: &TimeOfDay) -> (r: bool)
    requires
        time.minutes() <= u32::MAX,
    ensures
        r == muted_at(crate::domain::character::text_of(*schedule), *time),
{
    match schedule {
        None => false,
        Some(s) => match parse_mute_schedule(s.as_str()) {
            Ok(Some(w)) => is_within_window(&w, time),
            _ => false,
        },
    }
}

/// A window is an arc of the clock: going round from its beginning, every time
/// in it is met before its end, and no other time is.
pub proof fn window_is_an_arc(window: MuteWindow, time: TimeOfDay)
    requires
        window.from.valid(),
        window.until.valid(),
        time.valid(),
    ensures
        in_window(window, time) <==> (time.minutes() - window.from.minutes()) % 1440 < (
        window.until.minutes() - window.from.minutes()) % 1440,
{
}

/// A window that ends where it begins mutes nothing; any other one and the
/// window with its ends exchanged share the day between them.
pub proof fn exchanged_ends_mute_the_rest(window: MuteWindow, time: TimeOfDay)
    requires
        window.from.valid(),
        window.until.valid(),
        time.valid(),
    ensures
        window.from == window.until ==> !in_window(window, time),
        window.from != window.until ==> in_window(window, time) != in_window(
            MuteWindow { from: window.until, until: window.from },
            time,
        ),
{
}

/// A time of day as `HH:MM`.
pub open spec fn time_text(t: TimeOfDay) -> Seq<char> {
    two_digits(t.hour as nat) + seq![':'] + two_digits(t.minute as nat)
}

/// A window as `HH:MM-HH:MM`.
pub open spec fn window_text(w: MuteWindow) -> Seq<char> {
    time_text(w.from) + seq!['-'] + time_text(w.until)
}

proof fn lemma_two_digits(n: nat)
    requires
        n < 100,
    ensures
        two_digits(n).len() == 2,
        two_digits(n)[0] as int == 0x30 + n / 10,
        two_digits(n)[1] as int == 0x30 + n % 10,
        read_unsigned(two_digits(n), u32::MAX as nat) == Some(n),
        trimmed(two_digits(n)) == two_digits(n),
{
    reveal_with_fuel(decimal, 3);
    reveal_with_fuel(crate::text::digits_value, 3);
    let s = two_digits(n);
    assert(s =~= seq![(0x30 + n / 10) as char, (0x30 + n % 10) as char]);
    assert(s[0] != '+');
    assert(s.drop_last() =~= seq![s[0]]);
    assert(s.drop_last().drop_last() =~= Seq::<char>::empty());
    assert(crate::text::digits_value(s) == n);
    assert(crate::text::all_digits(s));
}

proof fn lemma_time_text(t: TimeOfDay)
    requires
        t.valid(),
    ensures
        time_text(t).len() == 5,
        read_time(time_text(t)) == Ok::<TimeOfDay, Seq<char>>(t),
        trimmed(time_text(t)) == time_text(t),
        !crate::text::is_space(time_text(t)[0]),
        !crate::text::is_space(time_text(t)[4]),
        forall|i: int| 0 <= i < 5 ==> time_text(t)[i] != '-',
{
    lemma_two_digits(t.hour as nat);
    lemma_two_digits(t.minute as nat);
    let s = time_text(t);
    reveal_with_fuel(crate::text::index_from, 4);
    assert(crate::text::index_from(s, ':', 0) == 2);
    assert(s.subrange(0, 2) =~= two_digits(t.hour as nat));
    assert(s.subrange(3, 5) =~= two_digits(t.minute as nat));
}

/// Reading what was written gives back the window.
pub proof fn reading_a_written_window(w: MuteWindow)
    requires
        w.from.valid(),
        w.until.valid(),
    ensures
        read_schedule(window_text(w)) == Ok::<Option<MuteWindow>, Seq<char>>(Some(w)),
{
    lemma_time_text(w.from);
    lemma_time_text(w.until);
    let s = window_text(w);
    let a = time_text(w.from);
    assert(s[0] == a[0]);
    assert(s.last() == time_text(w.until)[4]);
    assert(Seq::<char>::empty() + s + Seq::<char>::empty() =~= s);
    crate::text::trimming_finds_the_core(Seq::empty(), s, Seq::empty());
    assert forall|i: int| 0 <= i < 5 implies s[i] != '-' by {
        assert(s[i] == a[i]);
    }
    assert(s[5] == '-');
    crate::text::the_first_index_is_found(s, '-', 0, 5);
    assert(s.subrange(0, 5) =~= a);
    assert(s.subrange(6, 11) =~= time_text(w.until));
}

/// A schedule written as a window mutes the times on the arc from its beginning to its
/// end, the end excluded; no schedule, a blank one and one that cannot be read mute
/// nothing.
pub proof fn schedules_mute_their_window(w: MuteWindow, time: TimeOfDay, s: Seq<char>)
    requires
        w.from.valid(),
        w.until.valid(),
        time.valid(),
    ensures
        muted_at(Some(window_text(w)), time) <==> (time.hour * 60 + time.minute - w.from.hour * 60
            - w.from.minute) % 1440 < (w.until.hour * 60 + w.until.minute - w.from.hour * 60
            - w.from.minute) % 1440,
        !muted_at(None, time),
        read_schedule(s) is Err ==> !muted_at(Some(s), time),
        trimmed(s).len() == 0 ==> !muted_at(Some(s), time),
{
    reading_a_written_window(w);
    window_is_an_arc(w, time);
}

/// A schedule without a dash, and a time without a colon or out of the clock's range,
/// are refused; whatever is read is a window of the clock.
pub proof fn schedules_are_checked(s: Seq<char>, t: Seq<char>)
    ensures
        trimmed(s).len() > 0 && !trimmed(s).contains('-') ==> read_schedule(s) is Err,
        trimmed(s).len() == 0 ==> read_schedule(s) == Ok::<Option<MuteWindow>, Seq<char>>(None),
        (read_schedule(s) matches Ok(Some(w)) && w.from.valid() && w.until.valid())
            || read_schedule(s) is Err || read_schedule(s) == Ok::<Option<MuteWindow>, Seq<char>>(
            None,
        ),
        !trimmed(t).contains(':') ==> read_time(t) is Err,
        read_time(t) matches Ok(time) ==> time.hour <= 23 && time.minute <= 59,
{
    crate::text::splitting_is_at_the_first(trimmed(s), '-');
    crate::text::splitting_is_at_the_first(trimmed(t), ':');
}

/// A time is made exactly where the clock has it.
pub proof fn times_are_on_the_clock(hour: u32, minute: u32, r: Result<TimeOfDay, DomainError>)
    requires
        call_ensures(TimeOfDay::new, (hour, minute), r),
    ensures
        r is Ok <==> hour < 24 && minute < 60,
        r matches Ok(t) ==> t.hour == hour && t.minute == minute,
{
}

/// A schedule is asked for the very time that is given: whether it falls on the arc
/// from the beginning of its window to the end, the end excluded.
pub proof fn times_are_held_against_the_schedule(
    schedule: Option<String>,
    time: TimeOfDay,
    w: MuteWindow,
    r: bool,
    within: bool,
)
    requires
        time.valid(),
        w.from.valid(),
        w.until.valid(),
        call_ensures(is_muted, (&schedule, &time), r),
        call_ensures(is_within_window, (&w, &time), within),
    ensures
        schedule is None ==> !r,
        schedule is Some && schedule->0@ == window_text(w) ==> r == within,
        within <==> (time.hour * 60 + time.minute - w.from.hour * 60 - w.from.minute) % 1440 < (
        w.until.hour * 60 + w.until.minute - w.from.hour * 60 - w.from.minute) % 1440,
{
    reading_a_written_window(w);
    window_is_an_arc(w, time);
}

/// A written window reads as itself, a blank text as none, and white space around a
/// time does not matter.
pub proof fn windows_are_read(
    s: &str,
    w: MuteWindow,
    t: &str,
    before: Seq<char>,
    after: Seq<char>,
    r: Result<Option<MuteWindow>, DomainError>,
    time: Result<TimeOfDay, DomainError>,
)
    requires
        w.from.valid(),
        w.until.valid(),
        call_ensures(parse_mute_schedule, (s,), r),
        call_ensures(parse_time, (t,), time),
        forall|i: int| 0 <= i < before.len() ==> crate::text::is_space(#[trigger] before[i]),
        forall|i: int| 0 <= i < after.len() ==> crate::text::is_space(#[trigger] after[i]),
    ensures
        s@ == window_text(w) ==> r == Ok::<Option<MuteWindow>, DomainError>(Some(w)),
        trimmed(s@).len() == 0 ==> r == Ok::<Option<MuteWindow>, DomainError>(None),
        t@ == before + time_text(w.from) + after ==> time == Ok::<TimeOfDay, DomainError>(w.from),
{
    reading_a_written_window(w);
    lemma_time_text(w.from);
    crate::text::trimming_finds_the_core(before, time_text(w.from), after);
}

} // verus!
