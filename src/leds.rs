//! Pixel frames for the two LED strips: six symbol rows of 144 pixels on the
//! first strip, and the "Li" strip around it.
use crate::classifier::Line;
use rand::distributions::{Distribution, Uniform};
use vstd::prelude::*;

verus! {

/// Pixels in one symbol row.
pub const LEDS_IN_LINE: usize = 144;

/// Named colours of the installation.
#[derive(Clone, Copy, Debug, PartialEq, Eq, Structural)]
pub enum Colour {
    Default,
    Li,
    Heaven,
    Cloud,
    Sun,
    Wind,
    Thunder,
    Water,
    Mountain,
    Earth,
}

/// Red, green and blue of each named colour.
pub open spec fn rgb_of(c: Colour) -> (u8, u8, u8) {
    match c {
        Colour::Default => (51, 0, 180),
        Colour::Li => (230, 4, 211),
        Colour::Heaven => (224, 4, 235),
        Colour::Cloud => (255, 2, 14),
        Colour::Sun => (255, 109, 0),
        Colour::Wind => (121, 255, 0),
        Colour::Thunder => (255, 53, 6),
        Colour::Water => (38, 2, 255),
        Colour::Mountain => (14, 255, 232),
        Colour::Earth => (0, 0, 0),
    }
}

impl Colour {
    /// Red, green and blue of this colour.
    pub fn rgb(self) -> (r: (u8, u8, u8))
        ensures
            r == rgb_of(self),
    {
        match self {
            Colour::Default => (51, 0, 180),
            Colour::Li => (230, 4, 211),
            Colour::Heaven => (224, 4, 235),
            Colour::Cloud => (255, 2, 14),
            Colour::Sun => (255, 109, 0),
            Colour::Wind => (121, 255, 0),
            Colour::Thunder => (255, 53, 6),
            Colour::Water => (38, 2, 255),
            Colour::Mountain => (14, 255, 232),
            Colour::Earth => (0, 0, 0),
        }
    }
}

/// A dark pixel.
pub open spec fn dark() -> [u8; 4] {
    [0u8, 0u8, 0u8, 0u8]
}

/// A symbol-row pixel of colour `c`, in the strip's byte order: blue, red, green.
pub open spec fn row_pixel(c: Colour) -> [u8; 4] {
    [rgb_of(c).2, rgb_of(c).0, rgb_of(c).1, 0u8]
}

/// A Li-strip pixel of colour `c`, in that strip's byte order: blue, green, red.
pub open spec fn li_pixel(c: Colour) -> [u8; 4] {
    [rgb_of(c).2, rgb_of(c).1, rgb_of(c).0, 0u8]
}

/// First pixel of symbol row `line_num` (rows count from 1).
pub open spec fn row_start(line_num: int) -> int {
    LEDS_IN_LINE * (line_num - 1)
}

/// Offset `k` within a row falls in the gap that splits a Yin row in two.
pub open spec fn in_yin_gap(k: int) -> bool {
    LEDS_IN_LINE / 3 < k < LEDS_IN_LINE / 3 * 2
}

/// What pixel `k` of a row shows when the row is drawn as `line` in colour `c`.
pub open spec fn line_pixel(line: Line, c: Colour, k: int) -> [u8; 4] {
    if line == Line::Yin && in_yin_gap(k) {
        dark()
    } else {
        row_pixel(c)
    }
}

/// Draws symbol row `line_num` as `line` in colour `colour`; other pixels keep their value.
pub fn render(leds: &mut Vec<[u8; 4]>, line: Line, line_num: usize, colour: Colour)
    requires
        1 <= line_num,
        LEDS_IN_LINE * line_num <= old(leds)@.len(),
    ensures
        final(leds)@.len() == old(leds)@.len(),
        forall|k: int|
            0 <= k < old(leds)@.len() ==> #[trigger] final(leds)@[k] == if row_start(
                line_num as int,
            ) <= k < row_start(line_num as int) + LEDS_IN_LINE {
                line_pixel(line, colour, k - row_start(line_num as int))
            } else {
                old(leds)@[k]
            },
{
    let (a, b, c) = colour.rgb();
    let total = leds.len();
    proof {
        let n = line_num as int;
        assert(144 * (n - 1) + 144 == 144 * n) by (nonlinear_arith);
        assert(LEDS_IN_LINE * (n - 1) + LEDS_IN_LINE <= total);
    }
    let position = LEDS_IN_LINE * (line_num - 1);
    let part = LEDS_IN_LINE / 3;
    let mut num = position;
    while num < position + LEDS_IN_LINE
        invariant
            position == row_start(line_num as int),
            position + LEDS_IN_LINE <= total,
            total == old(leds)@.len(),
            part == LEDS_IN_LINE / 3,
            (a, b, c) == rgb_of(colour),
            position <= num <= position + LEDS_IN_LINE,
            leds@.len() == old(leds)@.len(),
            forall|k: int|
                0 <= k < old(leds)@.len() ==> #[trigger] leds@[k] == if position <= k < num {
                    line_pixel(line, colour, k - position)
                } else {
                    old(leds)@[k]
                },
        decreases position + LEDS_IN_LINE - num,
    {
        if line == Line::Yin && num > position + part && num < position + part * 2 {
            leds.set(num, [0, 0, 0, 0]);
        } else {
            leds.set(num, [c, a, b, 0]);
        }
        num = num + 1;
    }
}

/// Draws a Yin row: the row in colour `colour` with its middle third dark.
pub fn render_yin(leds: &mut Vec<[u8; 4]>, line_num: usize, colour: Colour)
    requires
        1 <= line_num,
        LEDS_IN_LINE * line_num <= old(leds)@.len(),
    ensures
        final(leds)@.len() == old(leds)@.len(),
        forall|k: int|
            0 <= k < old(leds)@.len() ==> #[trigger] final(leds)@[k] == if row_start(
                line_num as int,
            ) <= k < row_start(line_num as int) + LEDS_IN_LINE {
                line_pixel(Line::Yin, colour, k - row_start(line_num as int))
            } else {
                old(leds)@[k]
            },
{
    render(leds, Line::Yin, line_num, colour);
}

/// Draws a Yang row: the whole row in colour `colour`.
pub fn render_yang(leds: &mut Vec<[u8; 4]>, line_num: usize, colour: Colour)
    requires
        1 <= line_num,
        LEDS_IN_LINE * line_num <= old(leds)@.len(),
    ensures
        final(leds)@.len() == old(leds)@.len(),
        forall|k: int|
            0 <= k < old(leds)@.len() ==> #[trigger] final(leds)@[k] == if row_start(
                line_num as int,
            ) <= k < row_start(line_num as int) + LEDS_IN_LINE {
                row_pixel(colour)
            } else {
                old(leds)@[k]
            },
{
    render(leds, Line::Yang, line_num, colour);
}

/// Sets every pixel of `leds` to `px`.
pub fn fill(leds: &mut Vec<[u8; 4]>, px: [u8; 4])
    ensures
        final(leds)@.len() == old(leds)@.len(),
        forall|k: int| 0 <= k < old(leds)@.len() ==> #[trigger] final(leds)@[k] == px,
{
    let mut num: usize = 0;
    while num < leds.len()
        invariant
            leds@.len() == old(leds)@.len(),
            num <= leds@.len(),
            forall|k: int| 0 <= k < num ==> #[trigger] leds@[k] == px,
        decreases leds@.len() - num,
    {
        leds.set(num, px);
        num = num + 1;
    }
}

/// Resets the Li strip to its resting colour.
pub fn drop_li_to_default(li: &mut Vec<[u8; 4]>)
    ensures
        final(li)@.len() == old(li)@.len(),
        forall|k: int| 0 <= k < old(li)@.len() ==> #[trigger] final(li)@[k] == li_pixel(Colour::Li),
{
    let (a, b, c) = Colour::Li.rgb();
    fill(li, [c, b, a, 0]);
}

/// The resting frame: every symbol row dark and the Li strip in its resting colour.
pub fn render_resting(yao: &mut Vec<[u8; 4]>, li: &mut Vec<[u8; 4]>)
    ensures
        final(yao)@.len() == old(yao)@.len(),
        final(li)@.len() == old(li)@.len(),
        forall|k: int| 0 <= k < old(yao)@.len() ==> #[trigger] final(yao)@[k] == dark(),
        forall|k: int| 0 <= k < old(li)@.len() ==> #[trigger] final(li)@[k] == li_pixel(Colour::Li),
{
    fill(yao, [0, 0, 0, 0]);
    drop_li_to_default(li);
}

/// Relies on rand's `Uniform::from(low..high)` sampled with `thread_rng`: a value
/// in `low .. high`; the constructor panics unless `low < high`.
#[verifier::external_body]
fn uniform_below(low: u8, high: u8) -> (r: u8)
    requires
        low < high,
    ensures
        low <= r < high,
{
    Uniform::from(low..high).sample(&mut rand::thread_rng())
}

/// A flickering Li pixel: blue in `54 .. 200`, green below a quarter of that blue.
pub open spec fn is_flicker_pixel(px: [u8; 4]) -> bool {
    &&& 54 <= px[0] < 200
    &&& px[1] < px[0] / 4
    &&& px[2] == 0
    &&& px[3] == 0
}

/// Fills the Li strip with a random flicker.
pub fn render_li(li: &mut Vec<[u8; 4]>)
    ensures
        final(li)@.len() == old(li)@.len(),
        forall|k: int| 0 <= k < old(li)@.len() ==> is_flicker_pixel(#[trigger] final(li)@[k]),
{
    let mut num: usize = 0;
    while num < li.len()
        invariant
            li@.len() == old(li)@.len(),
            num <= li@.len(),
            forall|k: int| 0 <= k < num ==> is_flicker_pixel(#[trigger] li@[k]),
        decreases li@.len() - num,
    {
        let b = uniform_below(54, 200);
        let g = uniform_below(0, b / 4);
        li.set(num, [b, g, 0, 0]);
        num = num + 1;
    }
}

} // verus!
