//! Creation timestamps and the identifiers derived from them.

use vstd::prelude::*;
use vstd::string::*;
use std::time::Duration;
use std::time::SystemTime;
use std::time::UNIX_EPOCH;

verus! {

/// The system clock's type for a point in time, `std::time::SystemTime`.
/// Nothing inside a value of it is visible to the proofs.
#[verifier::external_type_specification]
#[verifier::external_body]
pub struct ExSystemTime(std::time::SystemTime);

/// Reads the system clock with `SystemTime::now`. Nothing is claimed of the
/// value: it depends on the machine and the moment.
#[verifier::external_body]
fn clock_now() -> (now: SystemTime) {
    SystemTime::now()
}

/// Measures a point in time against `UNIX_EPOCH` with
/// `SystemTime::duration_since`: the time elapsed, or `None` where the point
/// lies before the epoch. Nothing is claimed of the value.
#[verifier::external_body]
fn since_epoch(time: &SystemTime) -> (elapsed: Option<Duration>) {
    match time.duration_since(UNIX_EPOCH) {
        Ok(elapsed) => Some(elapsed),
        Err(_) => None,
    }
}

/// The whole seconds of a duration, by `Duration::as_secs`. Nothing is
/// claimed of the value, since nothing is known of the duration.
#[verifier::external_body]
fn whole_seconds(elapsed: &Duration) -> (seconds: u64) {
    elapsed.as_secs()
}

/// The timestamp that a clock reading stands for. A clock set before the
/// epoch reads as the epoch itself.
pub open spec fn timestamp_of(reading: Option<u64>) -> u64 {
    match reading {
        Some(seconds) => seconds,
        None => 0,
    }
}

/// Turns a clock reading, in whole seconds since the epoch if the clock
/// stands after it, into a timestamp.
pub fn timestamp_from_reading(reading: Option<u64>) -> (t: u64)
    ensures
        t == timestamp_of(reading),
{
    match reading {
        Some(seconds) => seconds,
        None => 0,
    }
}

/// Current Unix time in seconds. The value depends on the clock alone, so the
/// contract is silent on it; every function that needs a timestamp also
/// exists in a form that takes one.
pub fn create_timestamp() -> (t: u64) {
    let now = clock_now();
    let reading = match since_epoch(&now) {
        Some(elapsed) => Some(whole_seconds(&elapsed)),
        None => None,
    };
    timestamp_from_reading(reading)
}

/// The character that writes a decimal digit.
pub open spec fn digit_char(d: nat) -> char {
    if d == 0 {
        '0'
    } else if d == 1 {
        '1'
    } else if d == 2 {
        '2'
    } else if d == 3 {
        '3'
    } else if d == 4 {
        '4'
    } else if d == 5 {
        '5'
    } else if d == 6 {
        '6'
    } else if d == 7 {
        '7'
    } else if d == 8 {
        '8'
    } else {
        '9'
    }
}

/// A number written in base ten, most significant digit first, without
/// leading zeros.
pub open spec fn decimal(n: nat) -> Seq<char>
    decreases n,
{
    if n < 10 {
        seq![digit_char(n)]
    } else {
        decimal(n / 10).push(digit_char(n % 10))
    }
}

fn digit_str(d: u64) -> (s: &'static str)
    requires
        d < 10,
    ensures
        s@ == seq![digit_char(d as nat)],
{
    proof {
        reveal_strlit("0");
        reveal_strlit("1");
        reveal_strlit("2");
        reveal_strlit("3");
        reveal_strlit("4");
        reveal_strlit("5");
        reveal_strlit("6");
        reveal_strlit("7");
        reveal_strlit("8");
        reveal_strlit("9");
    }
    let s = if d == 0 {
        "0"
    } else if d == 1 {
        "1"
    } else if d == 2 {
        "2"
    } else if d == 3 {
        "3"
    } else if d == 4 {
        "4"
    } else if d == 5 {
        "5"
    } else if d == 6 {
        "6"
    } else if d == 7 {
        "7"
    } else if d == 8 {
        "8"
    } else {
        "9"
    };
    assert(s@ =~= seq![digit_char(d as nat)]);
    s
}

/// Writes a number in base ten.
pub fn decimal_string(n: u64) -> (s: String)
    ensures
        s@ == decimal(n as nat),
    decreases n,
{
    if n < 10 {
        String::from_str(digit_str(n))
    } else {
        let mut s = decimal_string(n / 10);
        s.append(digit_str(n % 10));
        assert(s@ =~= decimal(n as nat));
        s
    }
}

/// The letters before the timestamp in the identifier of a text completion.
pub open spec fn completion_id_prefix() -> Seq<char> {
    seq!['c', 'm', 'p', 'l', '-']
}

/// The letters before the timestamp in the identifier of a chat completion.
pub open spec fn chat_completion_id_prefix() -> Seq<char> {
    seq!['c', 'h', 'a', 't', 'c', 'm', 'p', 'l', '-']
}

/// The identifier of a text completion created at `created`.
pub open spec fn completion_id(created: u64) -> Seq<char> {
    completion_id_prefix() + decimal(created as nat)
}

/// The identifier of a chat completion, or of a chunk of one, created at
/// `created`.
pub open spec fn chat_completion_id(created: u64) -> Seq<char> {
    chat_completion_id_prefix() + decimal(created as nat)
}

pub fn make_completion_id(created: u64) -> (id: String)
    ensures
        id@ == completion_id(created),
{
    proof {
        reveal_strlit("cmpl-");
    }
    assert("cmpl-"@ =~= completion_id_prefix());
    let mut id = String::from_str("cmpl-");
    let digits = decimal_string(created);
    id.append(digits.as_str());
    id
}

pub fn make_chat_completion_id(created: u64) -> (id: String)
    ensures
        id@ == chat_completion_id(created),
{
    proof {
        reveal_strlit("chatcmpl-");
    }
    assert("chatcmpl-"@ =~= chat_completion_id_prefix());
    let mut id = String::from_str("chatcmpl-");
    let digits = decimal_string(created);
    id.append(digits.as_str());
    id
}

} // verus!
