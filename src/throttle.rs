//! The persisted pump-usage counter, which alerts and starts over past its limit.
//!
//! The count is read, advanced and written back by one writer at a time; two
//! processes sharing one store could lose a use between the read and the write.
use crate::sensor::{parse_i32, parse_i32_at};
use vstd::prelude::*;
use vstd::string::*;

verus! {

/// Highest count the store may hold; one more use raises the refill alert.
pub const USAGE_LIMIT: u32 = 6;

/// The count held by the stored text: a non-negative decimal `i32`, else 0.
pub open spec fn stored_count(text: Seq<u8>) -> u32 {
    match parse_i32(text) {
        Some(v) => if v >= 0 {
            v as u32
        } else {
            0
        },
        None => 0,
    }
}

/// Outcome of one counted use.
#[derive(Clone, Copy, Debug, PartialEq, Eq, Structural)]
pub struct Usage {
    /// The count to store now.
    pub value: u32,
    /// The limit was passed: the pumps need a refill.
    pub alert: bool,
}

/// The outcome of one use on top of `stored`.
pub open spec fn usage_after(stored: u32) -> Usage {
    if stored as int + 1 > USAGE_LIMIT {
        Usage { value: 0, alert: true }
    } else {
        Usage { value: (stored + 1) as u32, alert: false }
    }
}

/// Reads the stored count; a missing or malformed store counts as 0.
pub fn load_usage(text: &[u8]) -> (count: u32)
    ensures
        count == stored_count(text@),
{
    assert(text@.subrange(0, text@.len() as int) =~= text@);
    match parse_i32_at(text, 0, text.len()) {
        Some(v) => if v >= 0 {
            v as u32
        } else {
            0
        },
        None => 0,
    }
}

/// Counts one use: past the limit the count starts over at 0 and the alert is raised.
pub fn increment(stored: u32) -> (usage: Usage)
    ensures
        usage == usage_after(stored),
        usage.value <= USAGE_LIMIT,
{
    if stored >= USAGE_LIMIT {
        Usage { value: 0, alert: true }
    } else {
        Usage { value: stored + 1, alert: false }
    }
}

/// Counts one use against the stored text.
pub fn check_the_pumps(text: &[u8]) -> (usage: Usage)
    ensures
        usage == usage_after(stored_count(text@)),
{
    increment(load_usage(text))
}

/// The decimal digit `d`.
pub open spec fn digit_char(d: nat) -> char {
    (48 + d) as char
}

/// The decimal text of `n`, without leading zeros.
pub open spec fn decimal(n: nat) -> Seq<char>
    decreases n,
{
    if n < 10 {
        seq![digit_char(n)]
    } else {
        decimal(n / 10).push(digit_char(n % 10))
    }
}

fn digit_text(d: u32) -> (t: &'static str)
    requires
        d < 10,
    ensures
        t@ == seq![digit_char(d as nat)],
{
    proof {
        reveal_strlit("0");
        reveal_strlit("1");
        reveal_strlit("2");
        reveal_strlit("3");
        reveal_strlit("4");
        reveal_strlit("5");
        reveal_strlit("6");
        reveal_strlit("7");
        reveal_strlit("8");
        reveal_strlit("9");
    }
    let t = match d {
        0 => "0",
        1 => "1",
        2 => "2",
        3 => "3",
        4 => "4",
        5 => "5",
        6 => "6",
        7 => "7",
        8 => "8",
        _ => "9",
    };
    assert(t@ =~= seq![digit_char(d as nat)]);
    t
}

/// The text under which a count is stored: its decimal digits.
pub fn usage_text(count: u32) -> (text: String)
    ensures
        text@ == decimal(count as nat),
    decreases count,
{
    if count < 10 {
        String::from_str(digit_text(count))
    } else {
        let mut text = usage_text(count / 10);
        text.append(digit_text(count % 10));
        text
    }
}

} // verus!
