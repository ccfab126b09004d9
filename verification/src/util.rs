//! Miscellaneous text utilities: decimal rendering and approximate
//! duration formatting.

use vstd::prelude::*;
use vstd::string::StringExecFns;
use crate::colorio::Style;
use crate::db::JobState;

verus! {

/// The affective color for a job state: neutral while pending, bright
/// while running, green on success, red on every failure, yellow on
/// states that merely pause or bound the job.
pub open spec fn spec_state_style(state: JobState) -> Style {
    match state {
        JobState::Pending => Style::Plain,
        JobState::Running => Style::Highlight,
        JobState::Complete => Style::Green,
        JobState::Cancelled => Style::Red,
        JobState::Failed => Style::Red,
        JobState::NodeFail => Style::Red,
        JobState::BootFail => Style::Red,
        JobState::Deadline => Style::Red,
        JobState::OutOfMemory => Style::Red,
        JobState::Suspended => Style::Yellow,
        JobState::Timeout => Style::Yellow,
        JobState::Preempted => Style::Yellow,
    }
}

/// Pick the style a job-state shortcode is printed in.
pub fn state_style(state: JobState) -> (r: Style)
    ensures
        r == spec_state_style(state),
{
    match state {
        JobState::Pending => Style::Plain,
        JobState::Running => Style::Highlight,
        JobState::Complete => Style::Green,
        JobState::Cancelled | JobState::Failed | JobState::NodeFail | JobState::BootFail
            | JobState::Deadline | JobState::OutOfMemory => Style::Red,
        JobState::Suspended | JobState::Timeout | JobState::Preempted => Style::Yellow,
    }
}

/// The decimal digit character for `d` (meaningful for `d < 10`).
pub open spec fn spec_digit_char(d: nat) -> char {
    if d == 0 {
        '0'
    } else if d == 1 {
        '1'
    } else if d == 2 {
        '2'
    } else if d == 3 {
        '3'
    } else if d == 4 {
        '4'
    } else if d == 5 {
        '5'
    } else if d == 6 {
        '6'
    } else if d == 7 {
        '7'
    } else if d == 8 {
        '8'
    } else {
        '9'
    }
}

/// The usual decimal rendering of a natural number, most significant
/// digit first, with no leading zeros (and `0` rendered as "0").
pub open spec fn spec_u64_decimal(n: nat) -> Seq<char>
    decreases n,
{
    if n < 10 {
        seq![spec_digit_char(n)]
    } else {
        spec_u64_decimal(n / 10).push(spec_digit_char(n % 10))
    }
}

/// The decimal rendering of a (possibly negative) integer.
pub open spec fn spec_i64_decimal(n: int) -> Seq<char> {
    if n >= 0 {
        spec_u64_decimal(n as nat)
    } else {
        seq!['-'] + spec_u64_decimal((-n) as nat)
    }
}

/// The one-character string for the decimal digit `d`.
fn digit_str(d: u64) -> (r: &'static str)
    requires
        d < 10,
    ensures
        r@ == seq![spec_digit_char(d as nat)],
{
    proof {
        reveal_strlit("0");
        reveal_strlit("1");
        reveal_strlit("2");
        reveal_strlit("3");
        reveal_strlit("4");
        reveal_strlit("5");
        reveal_strlit("6");
        reveal_strlit("7");
        reveal_strlit("8");
        reveal_strlit("9");
    }
    let r: &'static str = if d == 0 {
        "0"
    } else if d == 1 {
        "1"
    } else if d == 2 {
        "2"
    } else if d == 3 {
        "3"
    } else if d == 4 {
        "4"
    } else if d == 5 {
        "5"
    } else if d == 6 {
        "6"
    } else if d == 7 {
        "7"
    } else if d == 8 {
        "8"
    } else {
        "9"
    };
    proof {
        assert(r@ =~= seq![spec_digit_char(d as nat)]);
    }
    r
}

/// Render `n` in decimal.
pub fn u64_to_decimal(n: u64) -> (s: String)
    ensures
        s@ == spec_u64_decimal(n as nat),
    decreases n,
{
    if n < 10 {
        digit_str(n).to_owned()
    } else {
        proof {
            assert(n / 10 < n) by (nonlinear_arith)
                requires
                    n >= 10,
            ;
        }
        let mut s = u64_to_decimal(n / 10);
        s.append(digit_str(n % 10));
        proof {
            assert(s@ =~= spec_u64_decimal((n / 10) as nat).push(spec_digit_char((n % 10) as nat)));
        }
        s
    }
}

/// Render `n` in decimal, with a leading minus sign when negative.
pub fn i64_to_decimal(n: i64) -> (s: String)
    ensures
        s@ == spec_i64_decimal(n as int),
{
    if n >= 0 {
        u64_to_decimal(n as u64)
    } else {
        let mag: u64 = if n == i64::MIN {
            9223372036854775808u64
        } else {
            (-n) as u64
        };
        let mut s = "-".to_owned();
        let digits = u64_to_decimal(mag);
        s.append(digits.as_str());
        proof {
            reveal_strlit("-");
            assert(s@ =~= seq!['-'] + spec_u64_decimal((-(n as int)) as nat));
        }
        s
    }
}

/// The approximate textual form of a nonnegative duration: whole days if
/// more than two, else whole hours if more than two, else whole minutes if
/// more than two, else seconds.
pub open spec fn spec_dur_text(secs: nat) -> Seq<char> {
    if secs / 86400 > 2 {
        spec_u64_decimal(secs / 86400) + " days"@
    } else if secs / 3600 > 2 {
        spec_u64_decimal(secs / 3600) + " hours"@
    } else if secs / 60 > 2 {
        spec_u64_decimal(secs / 60) + " minutes"@
    } else {
        spec_u64_decimal(secs) + " seconds"@
    }
}

/// Express a nonnegative duration in text, approximately: the coarsest
/// unit of which the duration holds more than two.
pub fn dur_to_text(dur_seconds: i64) -> (s: String)
    requires
        dur_seconds >= 0,
    ensures
        s@ == spec_dur_text(dur_seconds as nat),
{
    proof {
        reveal_strlit(" days");
        reveal_strlit(" hours");
        reveal_strlit(" minutes");
        reveal_strlit(" seconds");
    }
    let secs = dur_seconds as u64;
    if secs / 86400 > 2 {
        let mut s = u64_to_decimal(secs / 86400);
        s.append(" days");
        s
    } else if secs / 3600 > 2 {
        let mut s = u64_to_decimal(secs / 3600);
        s.append(" hours");
        s
    } else if secs / 60 > 2 {
        let mut s = u64_to_decimal(secs / 60);
        s.append(" minutes");
        s
    } else {
        let mut s = u64_to_decimal(secs);
        s.append(" seconds");
        s
    }
}

} // verus!
