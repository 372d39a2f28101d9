//! Assembly of the primary and related symbols from classified sample windows.
use crate::classifier::{classify, line_of, Line};
use crate::leds::Colour;
use crate::reaction::{dispatch, effects_of, releases, releases_of, Effect};
use vstd::prelude::*;
use vstd::string::*;

verus! {

/// The line a related pass yields at one position: a line that held steady flips,
/// a line that changed is kept as it was.
pub open spec fn related_char(x: char, y: char) -> char {
    if x == y {
        if x == '0' {
            '1'
        } else {
            '0'
        }
    } else {
        x
    }
}

/// The related symbol of `primary`, position by position against the second pass.
pub open spec fn related_of(primary: Seq<char>, second: Seq<char>) -> Seq<char> {
    Seq::new(
        if primary.len() <= second.len() {
            primary.len()
        } else {
            second.len()
        },
        |i: int| related_char(primary[i], second[i]),
    )
}

/// A six-line symbol written with '0' and '1'.
pub open spec fn is_symbol(s: Seq<char>) -> bool {
    s.len() == 6 && forall|i: int| 0 <= i < 6 ==> #[trigger] s[i] == '0' || s[i] == '1'
}

/// The other binary character.
pub open spec fn complement(c: char) -> char {
    if c == '0' {
        '1'
    } else {
        '0'
    }
}

/// Computes the related symbol from the primary symbol and the second-pass lines.
pub fn get_related(h: &str, r: &str) -> (result: String)
    ensures
        result@ == related_of(h@, r@),
{
    let hl = h.unicode_len();
    let rl = r.unicode_len();
    let n = if hl <= rl {
        hl
    } else {
        rl
    };
    let mut result = String::new();
    let mut i: usize = 0;
    while i < n
        invariant
            n as int == related_of(h@, r@).len(),
            n <= h@.len(),
            n <= r@.len(),
            i <= n,
            result@ == related_of(h@, r@).subrange(0, i as int),
        decreases n - i,
    {
        proof {
            reveal_strlit("0");
            reveal_strlit("1");
        }
        let x = h.get_char(i);
        let y = r.get_char(i);
        if x == y {
            if x == '0' {
                result.append("1");
            } else {
                result.append("0");
            }
        } else {
            result.append(h.substring_char(i, i + 1));
        }
        assert(result@ =~= related_of(h@, r@).subrange(0, i + 1));
        i = i + 1;
    }
    assert(result@ =~= related_of(h@, r@));
    result
}

/// At each of the six positions the related symbol holds the complement of a
/// steady line and the primary line where the second pass differed.
pub proof fn lemma_related_positions(primary: Seq<char>, second: Seq<char>)
    requires
        is_symbol(primary),
        is_symbol(second),
    ensures
        is_symbol(related_of(primary, second)),
        forall|i: int|
            0 <= i < 6 ==> #[trigger] related_of(primary, second)[i] == if primary[i] == second[i] {
                complement(primary[i])
            } else {
                primary[i]
            },
{
    let rel = related_of(primary, second);
    assert forall|i: int| 0 <= i < 6 implies #[trigger] rel[i] == '0' || rel[i] == '1' by {
        assert(primary[i] == '0' || primary[i] == '1');
    }
}


/// Bias taken off every sample before classification.
pub const BIAS: i64 = 500;
/// Magnitude an extremum must exceed to count.
pub const THRESHOLD: i64 = 10;
/// Multiplier of the sensor parameter set; classification does not use it.
pub const MULTIPLIER: i64 = 1;
/// Seconds of a window that yields a primary line.
pub const PRIMARY_WINDOW: u64 = 2;
/// Seconds of a window that yields a second-pass line.
pub const RELATED_WINDOW: u64 = 1;

/// One step for the surroundings to carry out between sample windows.
#[derive(Clone, Copy, Debug, PartialEq, Eq, Structural)]
pub enum Command {
    /// Draw LED row `row` as `line` in `colour`.
    Render { row: usize, line: Line, colour: Colour },
    /// Hold still for this many seconds.
    Wait(u64),
    /// Hand an effect to the actuators.
    Apply(Effect),
}

/// The characters of a run of lines.
pub open spec fn text_of(ls: Seq<Line>) -> Seq<char> {
    ls.map_values(|l: Line| l.spec_char())
}

/// LED row on which the line at position `p` (from 0) is drawn.
pub open spec fn row_of(p: int) -> usize {
    if p == 0 {
        6
    } else {
        p as usize
    }
}

/// Colour in which a trigram is drawn.
pub open spec fn trigram_colour(t: Seq<Line>) -> Colour {
    match (t[0], t[1], t[2]) {
        (Line::Yang, Line::Yang, Line::Yang) => Colour::Heaven,
        (Line::Yang, Line::Yang, Line::Yin) => Colour::Cloud,
        (Line::Yang, Line::Yin, Line::Yang) => Colour::Sun,
        (Line::Yin, Line::Yang, Line::Yang) => Colour::Wind,
        (Line::Yang, Line::Yin, Line::Yin) => Colour::Thunder,
        (Line::Yin, Line::Yang, Line::Yin) => Colour::Water,
        (Line::Yin, Line::Yin, Line::Yang) => Colour::Mountain,
        (Line::Yin, Line::Yin, Line::Yin) => Colour::Earth,
    }
}

/// Three Yin lines.
pub open spec fn is_earth(t: Seq<Line>) -> bool {
    t[0] == Line::Yin && t[1] == Line::Yin && t[2] == Line::Yin
}

/// Effects handed to the actuators, in order.
pub open spec fn applied(effects: Seq<Effect>) -> Seq<Command> {
    effects.map_values(|e: Effect| Command::Apply(e))
}

/// What follows a completed trigram `t` whose first line stands at position `first`:
/// its effects, the trigram drawn in its colour, and for Earth, after a pause,
/// the three rows redrawn as Yin in the default colour.
pub open spec fn reaction_commands(t: Seq<Line>, first: int) -> Seq<Command> {
    let c = trigram_colour(t);
    applied(effects_of(text_of(t))) + seq![
        Command::Render { row: row_of(first), line: t[0], colour: c },
        Command::Render { row: row_of(first + 1), line: t[1], colour: c },
        Command::Render { row: row_of(first + 2), line: t[2], colour: c },
    ] + if is_earth(t) {
        seq![
            Command::Wait(2),
            Command::Render { row: row_of(first), line: Line::Yin, colour: Colour::Default },
            Command::Render { row: row_of(first + 1), line: Line::Yin, colour: Colour::Default },
            Command::Render { row: row_of(first + 2), line: Line::Yin, colour: Colour::Default },
        ]
    } else {
        seq![]
    }
}

/// What follows the primary line that ends `ls`: the line is drawn, then a pause;
/// the third line of a trigram gets a shorter pause and the trigram's reaction.
pub open spec fn primary_commands(ls: Seq<Line>) -> Seq<Command> {
    let p = ls.len() - 1;
    let shown = seq![Command::Render { row: row_of(p), line: ls[p], colour: Colour::Default }];
    if p % 3 != 2 {
        shown.push(Command::Wait(3))
    } else {
        shown.push(Command::Wait(2)) + reaction_commands(ls.subrange(p - 2, p + 1), p - 2)
    }
}

/// What follows the second-pass line that ends `rs`: once a trigram's three
/// second-pass lines are in, its pins are released, and after the lower trigram
/// there is a pause.
pub open spec fn related_commands(ls: Seq<Line>, rs: Seq<Line>) -> Seq<Command> {
    let k = rs.len() as int;
    if k % 3 != 0 {
        seq![]
    } else {
        applied(releases_of(text_of(ls.subrange(k - 3, k)))) + if k == 3 {
            seq![Command::Wait(3)]
        } else {
            seq![]
        }
    }
}

/// The orders in which primary lines (`l` of them) and second-pass lines (`r`)
/// come in: three primary lines, then their three second-pass lines, twice.
pub open spec fn valid_progress(l: int, r: int) -> bool {
    &&& 0 <= r <= l <= 6
    &&& l % 3 != 0 ==> r == l - l % 3
    &&& l % 3 == 0 ==> l - 3 <= r
}

/// With `l` primary and `r` second-pass lines in, the next window yields a primary line.
pub open spec fn wants_primary(l: int, r: int) -> bool {
    (r == l && l < 6) || l % 3 != 0
}

/// Windows come in the order: three primary, three second-pass, three primary,
/// three second-pass; after the twelfth the acquisition is done.
pub proof fn lemma_window_order(l: int, r: int)
    requires
        valid_progress(l, r),
    ensures
        r == 6 <==> l + r == 12,
        r < 6 ==> (wants_primary(l, r) <==> (l + r) % 6 < 3),
{
    assert(0 <= l <= 6);
    if l == 0 {
    } else if l == 1 {
    } else if l == 2 {
    } else if l == 3 {
    } else if l == 4 {
    } else if l == 5 {
    } else {
    }
}

fn row_index(p: usize) -> (row: usize)
    ensures
        row == row_of(p as int),
{
    if p == 0 {
        6
    } else {
        p
    }
}

fn line_text(lines: &Vec<Line>, from: usize, to: usize) -> (s: String)
    requires
        from <= to <= lines@.len(),
    ensures
        s@ == text_of(lines@.subrange(from as int, to as int)),
{
    let mut s = String::new();
    let mut i = from;
    while i < to
        invariant
            from <= i <= to <= lines@.len(),
            s@ == text_of(lines@.subrange(from as int, i as int)),
        decreases to - i,
    {
        proof {
            reveal_strlit("0");
            reveal_strlit("1");
        }
        if lines[i] == Line::Yin {
            s.append("0");
        } else {
            s.append("1");
        }
        assert(s@ =~= text_of(lines@.subrange(from as int, i + 1)));
        i = i + 1;
    }
    s
}

fn apply_all(effects: Vec<Effect>) -> (commands: Vec<Command>)
    ensures
        commands@ == applied(effects@),
{
    let mut commands: Vec<Command> = Vec::new();
    let mut i: usize = 0;
    while i < effects.len()
        invariant
            i <= effects@.len(),
            commands@ == applied(effects@.subrange(0, i as int)),
        decreases effects@.len() - i,
    {
        commands.push(Command::Apply(effects[i]));
        assert(commands@ =~= applied(effects@.subrange(0, i + 1)));
        i = i + 1;
    }
    assert(effects@.subrange(0, effects@.len() as int) =~= effects@);
    commands
}

fn colour_of(a: Line, b: Line, c: Line) -> (colour: Colour)
    ensures
        colour == trigram_colour(seq![a, b, c]),
{
    match (a, b, c) {
        (Line::Yang, Line::Yang, Line::Yang) => Colour::Heaven,
        (Line::Yang, Line::Yang, Line::Yin) => Colour::Cloud,
        (Line::Yang, Line::Yin, Line::Yang) => Colour::Sun,
        (Line::Yin, Line::Yang, Line::Yang) => Colour::Wind,
        (Line::Yang, Line::Yin, Line::Yin) => Colour::Thunder,
        (Line::Yin, Line::Yang, Line::Yin) => Colour::Water,
        (Line::Yin, Line::Yin, Line::Yang) => Colour::Mountain,
        (Line::Yin, Line::Yin, Line::Yin) => Colour::Earth,
    }
}

fn react_to(lines: &Vec<Line>, first: usize) -> (commands: Vec<Command>)
    requires
        first <= 3,
        first + 3 <= lines@.len(),
    ensures
        commands@ == reaction_commands(lines@.subrange(first as int, first + 3), first as int),
{
    let ghost t = lines@.subrange(first as int, first + 3);
    let trigram = line_text(lines, first, first + 3);
    let mut commands = apply_all(dispatch(trigram.as_str()));
    let (a, b, c) = (lines[first], lines[first + 1], lines[first + 2]);
    assert(t =~= seq![a, b, c]);
    let colour = colour_of(a, b, c);
    commands.push(Command::Render { row: row_index(first), line: a, colour });
    commands.push(Command::Render { row: row_index(first + 1), line: b, colour });
    commands.push(Command::Render { row: row_index(first + 2), line: c, colour });
    if a == Line::Yin && b == Line::Yin && c == Line::Yin {
        commands.push(Command::Wait(2));
        commands.push(Command::Render { row: row_index(first), line: Line::Yin, colour: Colour::Default });
        commands.push(Command::Render { row: row_index(first + 1), line: Line::Yin, colour: Colour::Default });
        commands.push(Command::Render { row: row_index(first + 2), line: Line::Yin, colour: Colour::Default });
    }
    assert(commands@ =~= reaction_commands(t, first as int));
    commands
}

/// Progress of one acquisition: the primary lines and the second-pass lines read so far.
pub struct Acquisition {
    lines: Vec<Line>,
    changes: Vec<Line>,
}

impl Acquisition {
    /// Primary lines read so far, in order.
    pub closed spec fn primary_lines(&self) -> Seq<Line> {
        self.lines@
    }

    /// Second-pass lines read so far, in order.
    pub closed spec fn second_lines(&self) -> Seq<Line> {
        self.changes@
    }

    pub open spec fn wf(&self) -> bool {
        valid_progress(self.primary_lines().len() as int, self.second_lines().len() as int)
    }

    /// All twelve windows have been read.
    pub open spec fn is_done(&self) -> bool {
        self.second_lines().len() == 6
    }

    /// The next window yields a primary line.
    pub open spec fn expects_primary(&self) -> bool {
        wants_primary(self.primary_lines().len() as int, self.second_lines().len() as int)
    }

    /// An acquisition with nothing read yet.
    pub fn new() -> (a: Self)
        ensures
            a.wf(),
            a.primary_lines() == Seq::<Line>::empty(),
            a.second_lines() == Seq::<Line>::empty(),
    {
        Acquisition { lines: Vec::new(), changes: Vec::new() }
    }

    /// Seconds of the next sample window, or `None` once all windows are read.
    pub fn next_window(&self) -> (w: Option<u64>)
        requires
            self.wf(),
        ensures
            w == if self.is_done() {
                None
            } else if self.expects_primary() {
                Some(PRIMARY_WINDOW)
            } else {
                Some(RELATED_WINDOW)
            },
    {
        let l = self.lines.len();
        let r = self.changes.len();
        if r == 6 {
            None
        } else if (r == l && l < 6) || l % 3 != 0 {
            Some(PRIMARY_WINDOW)
        } else {
            Some(RELATED_WINDOW)
        }
    }

    /// Classifies the samples of the window just read, files the line where the
    /// protocol puts it, and returns what is to be done before the next window.
    pub fn record(&mut self, samples: &Vec<i32>) -> (commands: Vec<Command>)
        requires
            old(self).wf(),
            !old(self).is_done(),
        ensures
            final(self).wf(),
            old(self).expects_primary() ==> {
                &&& final(self).primary_lines() == old(self).primary_lines().push(
                    line_of(samples@, BIAS as int, THRESHOLD as int),
                )
                &&& final(self).second_lines() == old(self).second_lines()
                &&& commands@ == primary_commands(final(self).primary_lines())
            },
            !old(self).expects_primary() ==> {
                &&& final(self).primary_lines() == old(self).primary_lines()
                &&& final(self).second_lines() == old(self).second_lines().push(
                    line_of(samples@, BIAS as int, THRESHOLD as int),
                )
                &&& commands@ == related_commands(
                    final(self).primary_lines(),
                    final(self).second_lines(),
                )
            },
    {
        let line = classify(samples, BIAS, THRESHOLD, MULTIPLIER);
        let l = self.lines.len();
        let r = self.changes.len();
        if (r == l && l < 6) || l % 3 != 0 {
            self.lines.push(line);
            let mut commands = vec![
                Command::Render { row: row_index(l), line, colour: Colour::Default },
            ];
            if l % 3 != 2 {
                commands.push(Command::Wait(3));
            } else {
                commands.push(Command::Wait(2));
                let mut reaction = react_to(&self.lines, l - 2);
                commands.append(&mut reaction);
            }
            assert(commands@ =~= primary_commands(self.lines@));
            commands
        } else {
            self.changes.push(line);
            let k = r + 1;
            if k % 3 != 0 {
                Vec::new()
            } else {
                let trigram = line_text(&self.lines, k - 3, k);
                let mut commands = apply_all(releases(trigram.as_str()));
                if k == 3 {
                    commands.push(Command::Wait(3));
                }
                assert(commands@ =~= related_commands(self.lines@, self.changes@));
                commands
            }
        }
    }

    /// The primary symbol and the related symbol of a completed acquisition.
    pub fn finish(&self) -> (symbols: (String, String))
        requires
            self.wf(),
            self.is_done(),
        ensures
            symbols.0@ == text_of(self.primary_lines()),
            symbols.1@ == related_of(text_of(self.primary_lines()), text_of(self.second_lines())),
            is_symbol(symbols.0@),
            is_symbol(symbols.1@),
    {
        let primary = line_text(&self.lines, 0, 6);
        let second = line_text(&self.changes, 0, 6);
        assert(self.lines@.subrange(0, 6) =~= self.lines@);
        assert(self.changes@.subrange(0, 6) =~= self.changes@);
        let related = get_related(primary.as_str(), second.as_str());
        proof {
            lemma_text_is_symbol(self.lines@);
            lemma_text_is_symbol(self.changes@);
            lemma_related_positions(primary@, second@);
        }
        (primary, related)
    }
}

proof fn lemma_text_is_symbol(ls: Seq<Line>)
    requires
        ls.len() == 6,
    ensures
        is_symbol(text_of(ls)),
{
    assert forall|i: int| 0 <= i < 6 implies #[trigger] text_of(ls)[i] == '0' || text_of(ls)[i] == '1' by {
        assert(text_of(ls)[i] == ls[i].spec_char());
    }
}

} // verus!
