//! The hue cycle: a six-phase walk round the edges of the RGB cube, one
//! channel unit per step, between the channel values `LOW` and `HIGH`.
use vstd::prelude::*;

verus! {

/// Smallest value a channel takes on the cycle.
pub const LOW: u8 = 5;

/// Largest value a channel takes on the cycle.
pub const HIGH: u8 = 255;

/// Number of steps in one phase of the cycle.
pub const PHASE_LEN: u64 = 250;

/// Number of steps after which the cycle repeats.
pub const CYCLE_LEN: u64 = 1500;

/// An RGB triple, one byte per channel.
#[derive(Clone, Copy, Debug, PartialEq, Eq, Structural)]
pub struct Color {
    pub red: u8,
    pub green: u8,
    pub blue: u8,
}

/// The six phases of the cycle, each named by the hues it joins.
#[derive(Clone, Copy, Debug, PartialEq, Eq, Structural)]
pub enum Phase {
    RedToYellow,
    YellowToGreen,
    GreenToCyan,
    CyanToBlue,
    BlueToMagenta,
    MagentaToRed,
}

/// A channel value the cycle can take.
pub open spec fn in_range(v: u8) -> bool {
    LOW <= v && v <= HIGH
}

impl Color {
    /// The triple lies on the cycle: every channel is in range and the
    /// triple sits on one of the six cube edges that the cycle walks.
    pub open spec fn on_cycle(self) -> bool {
        &&& in_range(self.red)
        &&& in_range(self.green)
        &&& in_range(self.blue)
        &&& {
            ||| (self.red == HIGH && self.blue == LOW)
            ||| (self.green == HIGH && self.blue == LOW)
            ||| (self.red == LOW && self.green == HIGH)
            ||| (self.red == LOW && self.blue == HIGH)
            ||| (self.green == LOW && self.blue == HIGH)
            ||| (self.red == HIGH && self.green == LOW)
        }
    }
}

/// Position of a phase in the cycle, counting from the one that leaves red.
pub open spec fn phase_index(p: Phase) -> nat {
    match p {
        Phase::RedToYellow => 0,
        Phase::YellowToGreen => 1,
        Phase::GreenToCyan => 2,
        Phase::CyanToBlue => 3,
        Phase::BlueToMagenta => 4,
        Phase::MagentaToRed => 5,
    }
}

/// Pure red, where the cycle starts.
pub open spec fn spec_start() -> Color {
    Color { red: HIGH, green: LOW, blue: LOW }
}

/// The phase a triple on the cycle is in; at a corner, the phase that
/// leaves it.
pub open spec fn spec_phase(c: Color) -> Phase {
    if c.red == HIGH && c.green < HIGH && c.blue == LOW {
        Phase::RedToYellow
    } else if c.green == HIGH && c.blue == LOW && c.red != LOW {
        Phase::YellowToGreen
    } else if c.red == LOW && c.green == HIGH && c.blue < HIGH {
        Phase::GreenToCyan
    } else if c.red == LOW && c.blue == HIGH && c.green != LOW {
        Phase::CyanToBlue
    } else if c.red < HIGH && c.green == LOW && c.blue == HIGH {
        Phase::BlueToMagenta
    } else {
        Phase::MagentaToRed
    }
}

/// One step of the cycle: the phase moves one channel by one unit.
pub open spec fn spec_step(c: Color) -> Color {
    match spec_phase(c) {
        Phase::RedToYellow => Color { green: (c.green + 1) as u8, ..c },
        Phase::YellowToGreen => Color { red: (c.red - 1) as u8, ..c },
        Phase::GreenToCyan => Color { blue: (c.blue + 1) as u8, ..c },
        Phase::CyanToBlue => Color { green: (c.green - 1) as u8, ..c },
        Phase::BlueToMagenta => Color { red: (c.red + 1) as u8, ..c },
        Phase::MagentaToRed => Color { blue: (c.blue - 1) as u8, ..c },
    }
}

/// The triple reached by `n` steps from `c`.
pub open spec fn spec_iterate(c: Color, n: nat) -> Color
    decreases n,
{
    if n == 0 {
        c
    } else {
        spec_step(spec_iterate(c, (n - 1) as nat))
    }
}

/// Closed form of the cycle: the triple `k` steps after pure red, for
/// `k < CYCLE_LEN`.
pub open spec fn cycle_color(k: nat) -> Color {
    let o = k % (PHASE_LEN as nat);
    let up = (LOW + o) as u8;
    let down = (HIGH - o) as u8;
    let p = k / (PHASE_LEN as nat);
    if p == 0 {
        Color { red: HIGH, green: up, blue: LOW }
    } else if p == 1 {
        Color { red: down, green: HIGH, blue: LOW }
    } else if p == 2 {
        Color { red: LOW, green: HIGH, blue: up }
    } else if p == 3 {
        Color { red: LOW, green: down, blue: HIGH }
    } else if p == 4 {
        Color { red: up, green: LOW, blue: HIGH }
    } else {
        Color { red: HIGH, green: LOW, blue: down }
    }
}

/// The colour of the body at index `n` of a population.
pub open spec fn color_of_index(n: nat) -> Color {
    cycle_color(n % (CYCLE_LEN as nat))
}

/// Every point of the closed form lies on the cycle, in phase number
/// `k / PHASE_LEN`, and one step moves it to the next point, wrapping after
/// the last.
pub proof fn lemma_step_cycle_color(k: nat)
    requires
        k < CYCLE_LEN,
    ensures
        cycle_color(k).on_cycle(),
        phase_index(spec_phase(cycle_color(k))) == k / (PHASE_LEN as nat),
        spec_step(cycle_color(k)) == cycle_color((k + 1) % (CYCLE_LEN as nat)),
{
    assert(k / 250 < 6);
    assert(k % 250 < 250);
    if k % 250 == 249 {
        assert((k + 1) % 250 == 0 && (k + 1) / 250 == k / 250 + 1);
    } else {
        assert((k + 1) % 250 == k % 250 + 1 && (k + 1) / 250 == k / 250);
    }
    if k == 1499 {
        assert((k + 1) % 1500 == 0);
    } else {
        assert((k + 1) % 1500 == k + 1);
    }
}

/// `n` steps from pure red reach the closed form at `n` modulo the cycle
/// length.
pub proof fn lemma_iterate_start(n: nat)
    ensures
        spec_iterate(spec_start(), n) == color_of_index(n),
    decreases n,
{
    if n == 0 {
        assert(cycle_color(0) == spec_start());
    } else {
        let m = (n - 1) as nat;
        lemma_iterate_start(m);
        lemma_step_cycle_color(m % 1500);
        assert((m % 1500 + 1) % 1500 == n % 1500) by {
            vstd::arithmetic::div_mod::lemma_add_mod_noop(m as int, 1, 1500);
        }
    }
}

/// Walking the whole cycle from pure red comes back to pure red.
pub proof fn lemma_cycle_closes()
    ensures
        spec_iterate(spec_start(), CYCLE_LEN as nat) == spec_start(),
{
    lemma_iterate_start(CYCLE_LEN as nat);
    assert(cycle_color(0) == spec_start());
}

/// Colours repeat with the cycle's period: the body at index `n` and the
/// body `CYCLE_LEN` places later share a colour.
pub proof fn lemma_colors_repeat(n: nat)
    ensures
        color_of_index((n + CYCLE_LEN) as nat) == color_of_index(n),
{
    vstd::arithmetic::div_mod::lemma_mod_add_multiples_vanish(n as int, CYCLE_LEN as int);
}

/// One step keeps a triple on the cycle.
pub proof fn lemma_step_on_cycle(c: Color)
    requires
        c.on_cycle(),
    ensures
        spec_step(c).on_cycle(),
{
}

/// The triple reached by any number of steps from a triple on the cycle is
/// on the cycle.
pub proof fn lemma_iterate_on_cycle(c: Color, n: nat)
    requires
        c.on_cycle(),
    ensures
        spec_iterate(c, n).on_cycle(),
    decreases n,
{
    if n > 0 {
        lemma_iterate_on_cycle(c, (n - 1) as nat);
        lemma_step_on_cycle(spec_iterate(c, (n - 1) as nat));
    }
}

impl Color {
    /// Pure red, where the cycle starts.
    pub fn start() -> (r: Color)
        ensures
            r == spec_start(),
            r.on_cycle(),
    {
        Color { red: HIGH, green: LOW, blue: LOW }
    }

    /// The phase this triple is in; at a corner, the phase that leaves it.
    pub fn phase(&self) -> (r: Phase)
        ensures
            r == spec_phase(*self),
    {
        if self.red == HIGH && self.green < HIGH && self.blue == LOW {
            Phase::RedToYellow
        } else if self.green == HIGH && self.blue == LOW && self.red != LOW {
            Phase::YellowToGreen
        } else if self.red == LOW && self.green == HIGH && self.blue < HIGH {
            Phase::GreenToCyan
        } else if self.red == LOW && self.blue == HIGH && self.green != LOW {
            Phase::CyanToBlue
        } else if self.red < HIGH && self.green == LOW && self.blue == HIGH {
            Phase::BlueToMagenta
        } else {
            Phase::MagentaToRed
        }
    }

    /// The next triple of the cycle.
    pub fn step(&self) -> (r: Color)
        requires
            self.on_cycle(),
        ensures
            r == spec_step(*self),
            r.on_cycle(),
    {
        proof {
            lemma_step_on_cycle(*self);
        }
        let c = *self;
        match self.phase() {
            Phase::RedToYellow => Color { green: c.green + 1, ..c },
            Phase::YellowToGreen => Color { red: c.red - 1, ..c },
            Phase::GreenToCyan => Color { blue: c.blue + 1, ..c },
            Phase::CyanToBlue => Color { green: c.green - 1, ..c },
            Phase::BlueToMagenta => Color { red: c.red + 1, ..c },
            Phase::MagentaToRed => Color { blue: c.blue - 1, ..c },
        }
    }

    /// The triple reached by `n` steps from this one.
    pub fn advance(&self, n: u64) -> (r: Color)
        requires
            self.on_cycle(),
        ensures
            r == spec_iterate(*self, n as nat),
            r.on_cycle(),
    {
        let mut c = *self;
        let mut i: u64 = 0;
        while i < n
            invariant
                self.on_cycle(),
                i <= n,
                c == spec_iterate(*self, i as nat),
                c.on_cycle(),
            decreases n - i,
        {
            c = c.step();
            i = i + 1;
        }
        c
    }
}

/// The colours of the first `count` bodies of a population, produced by
/// running the cycle from pure red, one step per body.
pub fn cycle_colors(count: usize) -> (r: Vec<Color>)
    ensures
        r@.len() == count,
        forall|i: int| 0 <= i < count ==> #[trigger] r@[i] == color_of_index(i as nat),
{
    let mut out: Vec<Color> = Vec::new();
    let mut c = Color::start();
    let mut i: usize = 0;
    while i < count
        invariant
            i <= count,
            out@.len() == i,
            forall|j: int| 0 <= j < i ==> #[trigger] out@[j] == color_of_index(j as nat),
            c == color_of_index(i as nat),
            c.on_cycle(),
        decreases count - i,
    {
        out.push(c);
        proof {
            lemma_iterate_start(i as nat);
            lemma_iterate_start((i + 1) as nat);
            lemma_iterate_on_cycle(spec_start(), (i + 1) as nat);
        }
        c = c.step();
        i = i + 1;
    }
    out
}

} // verus!
