//! The text of the control channel: the trigger line and the result message.
use crate::symbol::is_symbol;
use vstd::prelude::*;
use vstd::string::*;

verus! {

/// The one line that starts a reading.
pub open spec fn trigger_word() -> Seq<char> {
    seq!['r', 'e', 'a', 'd']
}

/// The line is exactly `read`: same case, nothing around it.
pub fn is_trigger(line: &str) -> (r: bool)
    ensures
        r == (line@ == trigger_word()),
{
    if line.unicode_len() != 4 {
        return false;
    }
    let r = line.get_char(0) == 'r' && line.get_char(1) == 'e' && line.get_char(2) == 'a'
        && line.get_char(3) == 'd';
    assert(r ==> line@ =~= trigger_word());
    r
}

/// The message that reports a reading: primary symbol, a pipe, related symbol.
pub open spec fn message_of(primary: Seq<char>, related: Seq<char>) -> Seq<char> {
    primary + seq!['|'] + related
}

/// Thirteen characters: a six-line symbol, `|`, a six-line symbol.
pub open spec fn is_result_message(m: Seq<char>) -> bool {
    &&& m.len() == 13
    &&& is_symbol(m.subrange(0, 6))
    &&& m[6] == '|'
    &&& is_symbol(m.subrange(7, 13))
}

/// Builds the message that reports a reading.
pub fn result_message(primary: &str, related: &str) -> (m: String)
    ensures
        m@ == message_of(primary@, related@),
        is_symbol(primary@) && is_symbol(related@) ==> is_result_message(m@),
{
    let mut m = String::from_str(primary);
    proof {
        reveal_strlit("|");
    }
    m.append("|");
    m.append(related);
    assert(m@ =~= message_of(primary@, related@));
    proof {
        if is_symbol(primary@) && is_symbol(related@) {
            assert(m@.subrange(0, 6) =~= primary@);
            assert(m@.subrange(7, 13) =~= related@);
        }
    }
    m
}

/// Checks that a text is a six-line symbol of '0' and '1'.
pub fn symbol_ok(s: &str) -> (r: bool)
    ensures
        r == is_symbol(s@),
{
    if s.unicode_len() != 6 {
        return false;
    }
    let mut i: usize = 0;
    while i < 6
        invariant
            s@.len() == 6,
            i <= 6,
            forall|k: int| 0 <= k < i ==> #[trigger] s@[k] == '0' || s@[k] == '1',
        decreases 6 - i,
    {
        let c = s.get_char(i);
        if c != '0' && c != '1' {
            return false;
        }
        i = i + 1;
    }
    true
}

} // verus!
