//! Reading one sensor value out of a raw serial frame such as `b"PiPVal: 512\r\n"`.
use vstd::prelude::*;
use vstd::utf8::valid_utf8;

verus! {

/// The tag that precedes a value in a frame: `PiPVal: `.
pub open spec fn tag() -> Seq<u8> {
    seq![80u8, 105u8, 80u8, 86u8, 97u8, 108u8, 58u8, 32u8]
}

/// Carriage return, which ends a value.
pub const CR: u8 = 13;

/// `pat` occurs in `hay` at position `i`.
pub open spec fn occurs_at(hay: Seq<u8>, pat: Seq<u8>, i: int) -> bool {
    0 <= i && i + pat.len() <= hay.len() && hay.subrange(i, i + pat.len()) == pat
}

/// The first position at or after `from` where `pat` occurs in `hay`.
pub open spec fn first_at(hay: Seq<u8>, pat: Seq<u8>, from: int) -> Option<int>
    decreases hay.len() + 1 - from,
{
    if from < 0 || from + pat.len() > hay.len() {
        None
    } else if occurs_at(hay, pat, from) {
        Some(from)
    } else {
        first_at(hay, pat, from + 1)
    }
}

pub open spec fn is_digit(b: u8) -> bool {
    48 <= b <= 57
}

pub open spec fn all_digits(s: Seq<u8>) -> bool {
    forall|i: int| 0 <= i < s.len() ==> is_digit(#[trigger] s[i])
}

/// The number written by a run of decimal digits.
pub open spec fn digits_value(s: Seq<u8>) -> int
    decreases s.len(),
{
    if s.len() == 0 {
        0
    } else {
        digits_value(s.drop_last()) * 10 + (s.last() - 48)
    }
}

/// What Rust's `str::parse::<i32>` gives for the text `s`: an optional sign, then
/// at least one digit, and a value that fits in an `i32`.
pub open spec fn parse_i32(s: Seq<u8>) -> Option<i32> {
    if s.len() > 0 && s[0] == 45u8 {
        let d = s.skip(1);
        if d.len() > 0 && all_digits(d) && digits_value(d) <= 2147483648 {
            Some((-digits_value(d)) as i32)
        } else {
            None
        }
    } else {
        let d = if s.len() > 0 && s[0] == 43u8 {
            s.skip(1)
        } else {
            s
        };
        if d.len() > 0 && all_digits(d) && digits_value(d) <= 2147483647 {
            Some(digits_value(d) as i32)
        } else {
            None
        }
    }
}

/// The value a frame carries: the text between the first tag and the first
/// carriage return after it, read as an `i32`. A frame that is not UTF-8, lacks
/// the tag or the carriage return, or holds no number there carries 0.
pub open spec fn frame_value(buf: Seq<u8>) -> i32 {
    if !valid_utf8(buf) {
        0
    } else {
        match first_at(buf, tag(), 0) {
            None => 0,
            Some(i) => match first_at(buf, seq![CR], i + 8) {
                None => 0,
                Some(j) => match parse_i32(buf.subrange(i + 8, j)) {
                    Some(v) => v,
                    None => 0,
                },
            },
        }
    }
}

/// Relies on `std::str::from_utf8`: it succeeds exactly on well-formed UTF-8.
#[verifier::external_body]
fn is_utf8(buf: &[u8]) -> (r: bool)
    ensures
        r == valid_utf8(buf@),
{
    std::str::from_utf8(buf).is_ok()
}

fn tag_at(buf: &[u8], i: usize) -> (r: bool)
    requires
        i + 8 <= buf@.len(),
    ensures
        r == occurs_at(buf@, tag(), i as int),
{
    let r = buf[i] == 80 && buf[i + 1] == 105 && buf[i + 2] == 80 && buf[i + 3] == 86 && buf[i
        + 4] == 97 && buf[i + 5] == 108 && buf[i + 6] == 58 && buf[i + 7] == 32;
    assert(r ==> buf@.subrange(i as int, i + 8) =~= tag());
    assert(buf@.subrange(i as int, i + 8) == tag() ==> r) by {
        if buf@.subrange(i as int, i + 8) == tag() {
            assert(buf@.subrange(i as int, i + 8)[0] == buf@[i as int]);
        }
    }
    r
}

fn find_tag(buf: &[u8]) -> (r: Option<usize>)
    ensures
        r matches Some(i) ==> first_at(buf@, tag(), 0) == Some(i as int) && i + 8 <= buf@.len(),
        r is None ==> first_at(buf@, tag(), 0) is None,
{
    let n = buf.len();
    if n < 8 {
        return None;
    }
    let mut i: usize = 0;
    while i <= n - 8
        invariant
            n == buf@.len(),
            n >= 8,
            i <= n - 7,
            first_at(buf@, tag(), 0) == first_at(buf@, tag(), i as int),
        decreases n - i,
    {
        if tag_at(buf, i) {
            return Some(i);
        }
        i = i + 1;
    }
    None
}

fn find_cr(buf: &[u8], from: usize) -> (r: Option<usize>)
    ensures
        r matches Some(j) ==> first_at(buf@, seq![CR], from as int) == Some(j as int),
        r is None ==> first_at(buf@, seq![CR], from as int) is None,
{
    let n = buf.len();
    let mut j = from;
    while j < n
        invariant
            n == buf@.len(),
            from <= j,
            first_at(buf@, seq![CR], from as int) == first_at(buf@, seq![CR], j as int),
        decreases n - j,
    {
        assert(buf@.subrange(j as int, j + 1) =~= seq![buf@[j as int]]);
        if buf[j] == CR {
            return Some(j);
        }
        assert(!occurs_at(buf@, seq![CR], j as int)) by {
            if occurs_at(buf@, seq![CR], j as int) {
                assert(buf@.subrange(j as int, j + 1)[0] == seq![CR][0]);
            }
        }
        assert(first_at(buf@, seq![CR], j as int) == first_at(buf@, seq![CR], j + 1));
        j = j + 1;
    }
    None
}

proof fn lemma_digits_prefix(s: Seq<u8>, k: int)
    requires
        0 <= k <= s.len(),
        all_digits(s),
    ensures
        digits_value(s.subrange(0, k)) <= digits_value(s),
        0 <= digits_value(s.subrange(0, k)),
    decreases s.len() - k,
{
    if k < s.len() {
        lemma_digits_prefix(s, k + 1);
        assert(s.subrange(0, k + 1).drop_last() =~= s.subrange(0, k));
    } else {
        assert(s.subrange(0, k) =~= s);
    }
    lemma_digits_nonneg(s.subrange(0, k));
}

proof fn lemma_digits_nonneg(s: Seq<u8>)
    requires
        all_digits(s),
    ensures
        0 <= digits_value(s),
    decreases s.len(),
{
    if s.len() > 0 {
        assert(all_digits(s.drop_last())) by {
            assert forall|i: int| 0 <= i < s.drop_last().len() implies is_digit(
                #[trigger] s.drop_last()[i],
            ) by {
                assert(s.drop_last()[i] == s[i]);
            }
        }
        lemma_digits_nonneg(s.drop_last());
    }
}

/// Reads the digits `buf[from..to]` as a number no larger than `limit`.
fn digits_upto(buf: &[u8], from: usize, to: usize, limit: i64) -> (r: Option<i64>)
    requires
        from <= to <= buf@.len(),
        0 <= limit <= 2147483648,
    ensures
        r matches Some(v) ==> {
            &&& all_digits(buf@.subrange(from as int, to as int))
            &&& v == digits_value(buf@.subrange(from as int, to as int))
            &&& 0 <= v <= limit
        },
        r is None ==> !all_digits(buf@.subrange(from as int, to as int)) || digits_value(
            buf@.subrange(from as int, to as int),
        ) > limit,
{
    let ghost s = buf@.subrange(from as int, to as int);
    let mut i = from;
    while i < to
        invariant
            from <= i <= to <= buf@.len(),
            s == buf@.subrange(from as int, to as int),
            all_digits(buf@.subrange(from as int, i as int)),
        decreases to - i,
    {
        if buf[i] < 48 || buf[i] > 57 {
            assert(!is_digit(s[i - from]));
            return None;
        }
        assert(all_digits(buf@.subrange(from as int, i + 1))) by {
            assert forall|k: int| 0 <= k < i + 1 - from implies is_digit(
                #[trigger] buf@.subrange(from as int, i + 1)[k],
            ) by {
                if k < i - from {
                    assert(buf@.subrange(from as int, i + 1)[k] == buf@.subrange(
                        from as int,
                        i as int,
                    )[k]);
                }
            }
        }
        i = i + 1;
    }
    assert(buf@.subrange(from as int, to as int) =~= s);
    let mut value: i64 = 0;
    let mut k = from;
    while k < to
        invariant
            from <= k <= to <= buf@.len(),
            s == buf@.subrange(from as int, to as int),
            all_digits(s),
            0 <= limit <= 2147483648,
            value == digits_value(s.subrange(0, k - from)),
            0 <= value <= limit,
        decreases to - k,
    {
        assert(s.subrange(0, k + 1 - from).drop_last() =~= s.subrange(0, k - from));
        assert(is_digit(s[k - from]));
        let next = value * 10 + (buf[k] - 48) as i64;
        if next > limit {
            proof {
                lemma_digits_prefix(s, k + 1 - from);
            }
            return None;
        }
        value = next;
        k = k + 1;
    }
    assert(s.subrange(0, to - from) =~= s);
    Some(value)
}

/// Parses `buf[from..to]` as Rust parses an `i32`.
pub fn parse_i32_at(buf: &[u8], from: usize, to: usize) -> (r: Option<i32>)
    requires
        from <= to <= buf@.len(),
    ensures
        r == parse_i32(buf@.subrange(from as int, to as int)),
{
    let ghost s = buf@.subrange(from as int, to as int);
    if from < to && buf[from] == 45 {
        assert(s.skip(1) =~= buf@.subrange(from + 1, to as int));
        if from + 1 == to {
            return None;
        }
        match digits_upto(buf, from + 1, to, 2147483648) {
            Some(v) => Some((-v) as i32),
            None => None,
        }
    } else {
        let start = if from < to && buf[from] == 43 {
            from + 1
        } else {
            from
        };
        if from < to {
            assert(s.skip(1) =~= buf@.subrange(from + 1, to as int));
        }
        if start == to {
            return None;
        }
        match digits_upto(buf, start, to, 2147483647) {
            Some(v) => Some(v as i32),
            None => None,
        }
    }
}

/// The value a raw sensor frame carries, 0 when it carries none.
pub fn get_val(buf: &[u8]) -> (v: i32)
    ensures
        v == frame_value(buf@),
{
    if !is_utf8(buf) || buf.len() < 8 {
        return 0;
    }
    match find_tag(buf) {
        None => 0,
        Some(i) => {
            match find_cr(buf, i + 8) {
                None => 0,
                Some(j) => {
                    proof {
                        lemma_first_at_bounds(buf@, seq![CR], i + 8);
                    }
                    match parse_i32_at(buf, i + 8, j) {
                        Some(v) => v,
                        None => 0,
                    }
                },
            }
        },
    }
}

proof fn lemma_first_at_bounds(hay: Seq<u8>, pat: Seq<u8>, from: int)
    ensures
        first_at(hay, pat, from) matches Some(i) ==> from <= i && i + pat.len() <= hay.len(),
    decreases hay.len() + 1 - from,
{
    if !(from < 0 || from + pat.len() > hay.len()) && !occurs_at(hay, pat, from) {
        lemma_first_at_bounds(hay, pat, from + 1);
    }
}

} // verus!
