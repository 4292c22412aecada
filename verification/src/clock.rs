//! Wall-clock times of day as shown next to chat lines (`HH:MM:SS`).

use vstd::prelude::*;
use crate::text::{pad2, push_pad2, digit};

verus! {

/// `HH:MM:SS` from its three parts, each padded to two digits.
pub open spec fn clock_text(h: nat, m: nat, s: nat) -> Seq<char> {
    pad2(h) + seq![':'] + pad2(m) + seq![':'] + pad2(s)
}

/// The time of day, in UTC, of a count of seconds since the Unix epoch.
pub open spec fn clock_of_unix_secs(secs: nat) -> Seq<char> {
    let day = secs % 86400;
    clock_text(day / 3600, (day % 3600) / 60, day % 60)
}

/// Decimal digits `0-9`.
pub open spec fn is_digit(c: char) -> bool {
    '0' <= c && c <= '9'
}

/// The shape of a time of day: two digits, `:`, two digits, `:`, two digits.
pub open spec fn is_clock_shape(s: Seq<char>) -> bool {
    &&& s.len() == 8
    &&& s[2] == ':' && s[5] == ':'
    &&& is_digit(s[0]) && is_digit(s[1]) && is_digit(s[3])
    &&& is_digit(s[4]) && is_digit(s[6]) && is_digit(s[7])
}

proof fn lemma_pad2_two_digits(n: nat)
    requires
        n < 100,
    ensures
        pad2(n).len() == 2,
        is_digit(pad2(n)[0]),
        is_digit(pad2(n)[1]),
{
    if n >= 10 {
        reveal_with_fuel(crate::text::decimal, 2);
        assert(n / 10 < 10);
    }
    assert(forall|d: nat| d < 10 ==> is_digit(#[trigger] digit(d))) by {
        assert forall|d: nat| d < 10 implies is_digit(#[trigger] digit(d)) by {
            let b = (d + 48) as u8;
            assert(48 <= b <= 57);
        }
    }
}

/// A time of day whose parts are below 100 has the `HH:MM:SS` shape.
pub proof fn lemma_clock_text_shape(h: nat, m: nat, s: nat)
    requires
        h < 100,
        m < 100,
        s < 100,
    ensures
        is_clock_shape(clock_text(h, m, s)),
{
    lemma_pad2_two_digits(h);
    lemma_pad2_two_digits(m);
    lemma_pad2_two_digits(s);
    let t = clock_text(h, m, s);
    assert(t[0] == pad2(h)[0] && t[1] == pad2(h)[1]);
    assert(t[3] == pad2(m)[0] && t[4] == pad2(m)[1]);
    assert(t[6] == pad2(s)[0] && t[7] == pad2(s)[1]);
}

/// Every count of seconds renders as a well-formed time of day, and the
/// rendering repeats every day.
pub proof fn law_clock_of_unix_secs(secs: nat)
    ensures
        is_clock_shape(clock_of_unix_secs(secs)),
        clock_of_unix_secs(secs + 86400) == clock_of_unix_secs(secs),
{
    let day = secs % 86400;
    assert(day / 3600 < 24);
    assert((day % 3600) / 60 < 60);
    lemma_clock_text_shape(day / 3600, (day % 3600) / 60, day % 60);
    assert((secs + 86400) % 86400 == secs % 86400);
}

/// `HH:MM:SS` from its parts (`{:02}:{:02}:{:02}`).
pub fn clock_string(h: u64, m: u64, s: u64) -> (r: String)
    ensures
        r@ == clock_text(h as nat, m as nat, s as nat),
{
    let mut r = String::new();
    push_pad2(&mut r, h);
    r.push(':');
    push_pad2(&mut r, m);
    r.push(':');
    push_pad2(&mut r, s);
    assert(r@ =~= clock_text(h as nat, m as nat, s as nat));
    r
}

/// The UTC time of day of a count of seconds since the Unix epoch.
pub fn clock_from_unix_secs(secs: u64) -> (r: String)
    ensures
        r@ == clock_of_unix_secs(secs as nat),
        is_clock_shape(r@),
{
    let day = secs % 86400;
    let hours = day / 3600;
    let minutes = (day % 3600) / 60;
    let seconds = day % 60;
    proof {
        law_clock_of_unix_secs(secs as nat);
    }
    clock_string(hours, minutes, seconds)
}

/// The system clock's reading, `std::time::SystemTime`, carried opaque.
#[verifier::external_type_specification]
#[verifier::external_body]
pub struct ExSystemTime(std::time::SystemTime);

/// `std::time::SystemTime::now()`. It reads the clock: nothing is stated
/// of it.
#[verifier::external_body]
fn system_now() -> (t: std::time::SystemTime) {
    std::time::SystemTime::now()
}

/// `t.duration_since(std::time::UNIX_EPOCH)`, with `None` for the error
/// that a time before the epoch gives. Which duration comes back depends on
/// the clock reading: nothing is stated of it.
#[verifier::external_body]
fn since_unix_epoch(t: &std::time::SystemTime) -> (d: Option<std::time::Duration>) {
    match t.duration_since(std::time::UNIX_EPOCH) {
        Ok(d) => Some(d),
        Err(_) => None,
    }
}

/// `d.as_secs()`, the whole seconds of a duration. The duration is opaque
/// here, so nothing is stated of the count.
#[verifier::external_body]
fn whole_secs(d: &std::time::Duration) -> (secs: u64) {
    d.as_secs()
}

/// `secs` is what the system clock gave: the whole seconds (`whole_secs`)
/// of the time since the Unix epoch (`since_unix_epoch`) of a reading of
/// the clock (`system_now`), or 0 where that reading lies before the epoch.
pub closed spec fn read_from_clock(secs: u64) -> bool {
    exists|t: std::time::SystemTime, o: Option<std::time::Duration>|
        #![trigger call_ensures(since_unix_epoch, (&t,), o)]
        call_ensures(system_now, (), t) && call_ensures(since_unix_epoch, (&t,), o) && match o {
            Some(d) => call_ensures(whole_secs, (&d,), secs),
            None => secs == 0,
        }
}

/// Whole seconds since the Unix epoch on the system clock; 0 where the
/// clock reads a time before the epoch.
fn unix_now_secs() -> (secs: u64)
    ensures
        read_from_clock(secs),
{
    let t = system_now();
    let o = since_unix_epoch(&t);
    proof {
        assert(call_ensures(system_now, (), t));
        assert(call_ensures(since_unix_epoch, (&t,), o));
    }
    match &o {
        Some(d) => {
            let secs = whole_secs(d);
            proof {
                assert(call_ensures(whole_secs, (d,), secs));
            }
            secs
        },
        None => 0,
    }
}

/// An `HH:MM:SS` text that is the UTC time of day of some count of seconds
/// since the Unix epoch.
pub open spec fn is_clock_reading(s: Seq<char>) -> bool {
    &&& is_clock_shape(s)
    &&& exists|secs: nat| s == #[trigger] clock_of_unix_secs(secs)
    &&& exists|secs: u64| #[trigger] read_from_clock(secs) && s == clock_of_unix_secs(secs as nat)
}

/// The current UTC time of day as `HH:MM:SS`.
pub fn current_timestamp_string() -> (r: String)
    ensures
        is_clock_reading(r@),
{
    let secs = unix_now_secs();
    let r = clock_from_unix_secs(secs);
    assert(r@ == clock_of_unix_secs(secs as nat));
    assert(read_from_clock(secs) && r@ == clock_of_unix_secs(secs as nat));
    r
}

/// The time of day that `current_timestamp_string` gives is the UTC time of
/// day of the seconds that the system clock gave: hours, minutes and
/// seconds of those seconds modulo one day.
pub proof fn law_current_time_of_day(r: String)
    requires
        call_ensures(current_timestamp_string, (), r),
    ensures
        exists|secs: u64|
            #[trigger] read_from_clock(secs) && r@ == clock_text(
                (secs as nat % 86400) / 3600,
                (secs as nat % 3600) / 60,
                secs as nat % 60,
            ),
{
    let secs = choose|secs: u64| #[trigger] read_from_clock(secs) && r@ == clock_of_unix_secs(secs as nat);
    let day = secs as nat % 86400;
    assert(day % 3600 == (secs as nat % 3600)) by (nonlinear_arith)
        requires day == secs as nat % 86400;
    assert(day % 60 == secs as nat % 60) by (nonlinear_arith)
        requires day == secs as nat % 86400;
}

} // verus!
