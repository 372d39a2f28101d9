//! Classification of one window of sensor samples into a single line.
use vstd::prelude::*;

verus! {

/// One binary line of a symbol: Yin is written '0', Yang is written '1'.
#[derive(Clone, Copy, Debug, PartialEq, Eq, Structural)]
pub enum Line {
    Yin,
    Yang,
}

impl Line {
    pub open spec fn spec_char(self) -> char {
        match self {
            Line::Yin => '0',
            Line::Yang => '1',
        }
    }

    /// The character that stands for this line in a symbol string.
    pub fn to_char(self) -> (c: char)
        ensures
            c == self.spec_char(),
    {
        match self {
            Line::Yin => '0',
            Line::Yang => '1',
        }
    }
}

/// Sample `i` with the bias taken off.
pub open spec fn norm(s: Seq<i32>, bias: int, i: int) -> int {
    s[i] as int - bias
}

pub open spec fn abs(x: int) -> int {
    if x < 0 {
        -x
    } else {
        x
    }
}

/// Sample `i` is strictly above both neighbours and above the threshold.
pub open spec fn is_local_max(s: Seq<i32>, bias: int, threshold: int, i: int) -> bool {
    &&& 0 < i < s.len() - 1
    &&& norm(s, bias, i) > norm(s, bias, i - 1)
    &&& norm(s, bias, i) > norm(s, bias, i + 1)
    &&& norm(s, bias, i) > threshold
}

/// Sample `i` is strictly below both neighbours and its magnitude exceeds the threshold.
pub open spec fn is_local_min(s: Seq<i32>, bias: int, threshold: int, i: int) -> bool {
    &&& 0 < i < s.len() - 1
    &&& norm(s, bias, i) < norm(s, bias, i - 1)
    &&& norm(s, bias, i) < norm(s, bias, i + 1)
    &&& abs(norm(s, bias, i)) > threshold
}

/// Number of local maxima among the window centres `1 .. k`.
pub open spec fn maxima_before(s: Seq<i32>, bias: int, threshold: int, k: int) -> nat
    decreases k,
{
    if k <= 1 {
        0
    } else {
        maxima_before(s, bias, threshold, k - 1) + if is_local_max(s, bias, threshold, k - 1) {
            1nat
        } else {
            0nat
        }
    }
}

/// Number of local minima among the window centres `1 .. k`.
pub open spec fn minima_before(s: Seq<i32>, bias: int, threshold: int, k: int) -> nat
    decreases k,
{
    if k <= 1 {
        0
    } else {
        minima_before(s, bias, threshold, k - 1) + if is_local_min(s, bias, threshold, k - 1) {
            1nat
        } else {
            0nat
        }
    }
}

/// Local maxima over every window of three consecutive samples.
pub open spec fn maxima_count(s: Seq<i32>, bias: int, threshold: int) -> nat {
    maxima_before(s, bias, threshold, s.len() - 1)
}

/// Local minima over every window of three consecutive samples.
pub open spec fn minima_count(s: Seq<i32>, bias: int, threshold: int) -> nat {
    minima_before(s, bias, threshold, s.len() - 1)
}

/// Yang exactly when the window holds more local maxima than local minima.
pub open spec fn line_of(s: Seq<i32>, bias: int, threshold: int) -> Line {
    if maxima_count(s, bias, threshold) > minima_count(s, bias, threshold) {
        Line::Yang
    } else {
        Line::Yin
    }
}

proof fn lemma_counts_bounded(s: Seq<i32>, bias: int, threshold: int, k: int)
    ensures
        maxima_before(s, bias, threshold, k) <= if k <= 1 { 0 } else { k - 1 },
        minima_before(s, bias, threshold, k) <= if k <= 1 { 0 } else { k - 1 },
    decreases k,
{
    if k > 1 {
        lemma_counts_bounded(s, bias, threshold, k - 1);
    }
}

/// Classifies a sample window into a line. The multiplier is accepted for
/// compatibility with the sensor parameter set and takes no part in the result.
pub fn classify(samples: &Vec<i32>, bias: i64, threshold: i64, _multiplier: i64) -> (line: Line)
    ensures
        line == line_of(samples@, bias as int, threshold as int),
{
    let ghost s = samples@;
    let ghost b = bias as int;
    let ghost t = threshold as int;
    let n = samples.len();
    let mut maxima: usize = 0;
    let mut minima: usize = 0;
    if n >= 3 {
        let mut i: usize = 1;
        while i < n - 1
            invariant
                n == s.len(),
                s == samples@,
                b == bias as int,
                t == threshold as int,
                n >= 3,
                1 <= i <= n - 1,
                maxima == maxima_before(s, b, t, i as int),
                minima == minima_before(s, b, t, i as int),
            decreases n - 1 - i,
        {
            proof {
                lemma_counts_bounded(s, b, t, i as int);
            }
            let prev = samples[i - 1] as i128 - bias as i128;
            let cur = samples[i] as i128 - bias as i128;
            let next = samples[i + 1] as i128 - bias as i128;
            let magnitude = if cur < 0 {
                -cur
            } else {
                cur
            };
            // one more window centre: each count grows by whether sample `i` is an extremum
            assert(maxima_before(s, b, t, i + 1) == maxima_before(s, b, t, i as int) + if is_local_max(
                s,
                b,
                t,
                i as int,
            ) {
                1nat
            } else {
                0nat
            });
            assert(minima_before(s, b, t, i + 1) == minima_before(s, b, t, i as int) + if is_local_min(
                s,
                b,
                t,
                i as int,
            ) {
                1nat
            } else {
                0nat
            });
            if cur > prev && cur > next && cur > threshold as i128 {
                maxima = maxima + 1;
            }
            if cur < prev && cur < next && magnitude > threshold as i128 {
                minima = minima + 1;
            }
            i = i + 1;
        }
    }
    if maxima > minima {
        Line::Yang
    } else {
        Line::Yin
    }
}

/// A window of fewer than three samples holds no extremum, so it reads as Yin.
pub proof fn lemma_short_window_is_yin(s: Seq<i32>, bias: int, threshold: int)
    requires
        s.len() < 3,
    ensures
        line_of(s, bias, threshold) == Line::Yin,
{
}

/// When maxima and minima are equally many (none at all included), the line is Yin.
pub proof fn lemma_tie_is_yin(s: Seq<i32>, bias: int, threshold: int)
    requires
        maxima_count(s, bias, threshold) == minima_count(s, bias, threshold),
    ensures
        line_of(s, bias, threshold) == Line::Yin,
{
}

} // verus!
