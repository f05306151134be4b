//! A number on the screen, drawn as seven-segment digits, that can count up
//! to its value as a reveal.

use crate::clock::millis_since;
use crate::clock::spec_time_between;
use crate::clock::time_between;
use crate::geometry::spec_trunc;
use crate::geometry::trunc;
use crate::geometry::Vector2;
use std::time::Instant;
use vstd::prelude::*;

verus! {

/// Distance between the corners of two neighbouring digits.
pub const DIGIT_PITCH: i64 = 500;

/// Milliseconds after which a number that counts up goes one up.
pub const COUNT_PACE: u128 = 50;

/// One filled rectangle of a digit, in the colour of the digits.
#[derive(Clone, Copy, Debug, PartialEq, Eq, Structural)]
pub struct Bar {
    pub x: i64,
    pub y: i64,
    pub width: i32,
    pub height: i32,
}

/// The decimal digits of `n`, the leading one first.
pub open spec fn spec_digits(n: nat) -> Seq<u8>
    decreases n,
{
    if n < 10 {
        seq![n as u8]
    } else {
        spec_digits(n / 10).push((n % 10) as u8)
    }
}

/// `bars`, and after them `bar` if `lit` holds.
pub open spec fn spec_with(bars: Seq<Bar>, lit: bool, bar: Bar) -> Seq<Bar> {
    if lit { bars.push(bar) } else { bars }
}

/// The segments of the digit `d` whose corner is at `(x, y)`, in the order
/// bottom, lower right, upper right, top, upper left, lower left, middle. The
/// digit rises from `y` towards smaller coordinates.
pub open spec fn spec_digit_bars(d: u8, x: int, y: int) -> Seq<Bar> {
    let bottom = spec_with(
        Seq::empty(),
        d != 1 && d != 4,
        Bar { x: (x + 100) as i64, y: y as i64, width: 200, height: 100 },
    );
    let lower_right = spec_with(
        bottom,
        d != 5 && d != 6,
        Bar { x: (x + 300) as i64, y: (y - 200) as i64, width: 100, height: 200 },
    );
    let upper_right = spec_with(
        lower_right,
        d != 2,
        Bar { x: (x + 300) as i64, y: (y - 500) as i64, width: 100, height: 200 },
    );
    let top = spec_with(
        upper_right,
        d != 1 && d != 4 && d != 7,
        Bar { x: (x + 100) as i64, y: (y - 600) as i64, width: 200, height: 100 },
    );
    let upper_left = spec_with(
        top,
        d == 0 || d == 2 || d == 6 || d == 8,
        Bar { x: x as i64, y: (y - 500) as i64, width: 100, height: 200 },
    );
    let lower_left = spec_with(
        upper_left,
        d != 1 && d != 2 && d != 3 && d != 7,
        Bar { x: x as i64, y: (y - 200) as i64, width: 100, height: 200 },
    );
    spec_with(
        lower_left,
        d != 0 && d != 1 && d != 7,
        Bar { x: (x + 100) as i64, y: (y - 300) as i64, width: 200, height: 100 },
    )
}

/// The segments of the first `count` of `digits`, written from `pos` to the
/// right. Every digit starts on a whole unit.
pub open spec fn spec_number_bars(digits: Seq<u8>, pos: Vector2, count: int) -> Seq<Bar>
    decreases count,
{
    if count <= 0 {
        Seq::empty()
    } else {
        spec_number_bars(digits, pos, count - 1) + spec_digit_bars(
            digits[count - 1],
            spec_trunc(pos.x + DIGIT_PITCH * (count - 1)),
            spec_trunc(pos.y as int),
        )
    }
}

/// What the rules read of a number on the screen.
pub struct NumberDisplayView {
    pub pos: Vector2,
    /// The number that is shown.
    pub value: u32,
    /// The number to count up to, or 0 while nothing is being revealed.
    pub backup: u32,
    /// When the reveal began or last went one up, in milliseconds on the
    /// display's clock.
    pub start: u128,
}

impl NumberDisplayView {
    /// Whether the number can go on counting: it has not yet to go beyond
    /// the largest number that it can hold.
    pub open spec fn can_count(self) -> bool {
        self.backup == 0 || self.value == self.backup || self.value < u32::MAX
    }

    /// The display once the reveal has begun at the time `now`: it shows 0
    /// and counts up to what it showed before.
    pub open spec fn escalated(self, now: u128) -> NumberDisplayView {
        NumberDisplayView { backup: self.value, value: 0, start: now, ..self }
    }

    /// Whether this is `before` after its reveal has begun, at whatever
    /// time.
    pub open spec fn escalated_from(self, before: NumberDisplayView) -> bool {
        exists|now: u128| self == #[trigger] before.escalated(now)
    }

    /// Whether the number goes one up at the time `now`: it has not arrived,
    /// and more than `COUNT_PACE` has passed since it last went up.
    pub open spec fn counts(self, now: u128) -> bool {
        self.backup != self.value && spec_time_between(now, self.start) > COUNT_PACE
    }

    /// The display after one step of the reveal at the time `now`.
    pub open spec fn counted(self, now: u128) -> NumberDisplayView {
        if self.counts(now) {
            NumberDisplayView { value: (self.value + 1) as u32, start: now, ..self }
        } else {
            self
        }
    }

    /// The display after it has been drawn at the time `now`. Only a display
    /// with a reveal counts.
    pub open spec fn drawn(self, now: u128) -> NumberDisplayView {
        if self.backup != 0 { self.counted(now) } else { self }
    }

    /// Whether this is `before` after it has been drawn once, at whatever
    /// time.
    pub open spec fn may_follow(self, before: NumberDisplayView) -> bool {
        exists|now: u128| self == #[trigger] before.drawn(now)
    }

    /// The segments that show the number.
    pub open spec fn bars(self) -> Seq<Bar> {
        spec_number_bars(spec_digits(self.value as nat), self.pos, spec_digits(self.value as nat).len() as int)
    }
}

/// A number on the screen.
pub struct NumberDisplay {
    pos: Vector2,
    pub value: u32,
    backup: u32,
    clock: Instant,
    start: u128,
}

impl View for NumberDisplay {
    type V = NumberDisplayView;

    closed spec fn view(&self) -> NumberDisplayView {
        NumberDisplayView { pos: self.pos, value: self.value, backup: self.backup, start: self.start }
    }
}

/// A number has at least one digit and at most ten, and each is less than 10.
pub proof fn lemma_digits(n: nat)
    requires
        n <= u32::MAX,
    ensures
        1 <= spec_digits(n).len() <= 10,
        forall|i: int| 0 <= i < spec_digits(n).len() ==> #[trigger] spec_digits(n)[i] < 10,
{
    reveal_with_fuel(spec_digits, 11);
}

/// The decimal digits of `n`, the leading one first.
pub fn digits(n: u32) -> (text: Vec<u8>)
    ensures
        text@ == spec_digits(n as nat),
{
    let mut reversed: Vec<u8> = Vec::new();
    let mut rest: u32 = n;
    while rest >= 10
        invariant
            spec_digits(rest as nat) + reversed@.reverse() == spec_digits(n as nat),
        decreases rest,
    {
        reversed.push((rest % 10) as u8);
        rest = rest / 10;
    }
    let mut text: Vec<u8> = Vec::new();
    text.push(rest as u8);
    let ghost head = text@;
    let count = reversed.len();
    let mut i: usize = count;
    while i > 0
        invariant
            i <= count,
            count == reversed@.len(),
            text@ == head + reversed@.reverse().take(count - i),
        decreases i,
    {
        i -= 1;
        text.push(reversed[i]);
    }
    text
}

/// Adds to `bars` the segments of the digit `d` whose corner is at `(x, y)`.
/// The corner has to leave room for the digit, which reaches three units to
/// the right and six units towards smaller `y`.
pub fn push_digit_bars(bars: &mut Vec<Bar>, d: u8, x: i64, y: i64)
    requires
        x <= i64::MAX - 300,
        y >= i64::MIN + 600,
    ensures
        final(bars)@ == old(bars)@ + spec_digit_bars(d, x as int, y as int),
{
    if d != 1 && d != 4 {
        bars.push(Bar { x: x + 100, y: y, width: 200, height: 100 });
    }
    if d != 5 && d != 6 {
        bars.push(Bar { x: x + 300, y: y - 200, width: 100, height: 200 });
    }
    if d != 2 {
        bars.push(Bar { x: x + 300, y: y - 500, width: 100, height: 200 });
    }
    if d != 1 && d != 4 && d != 7 {
        bars.push(Bar { x: x + 100, y: y - 600, width: 200, height: 100 });
    }
    if d == 0 || d == 2 || d == 6 || d == 8 {
        bars.push(Bar { x: x, y: y - 500, width: 100, height: 200 });
    }
    if d != 1 && d != 2 && d != 3 && d != 7 {
        bars.push(Bar { x: x, y: y - 200, width: 100, height: 200 });
    }
    if d != 0 && d != 1 && d != 7 {
        bars.push(Bar { x: x + 100, y: y - 300, width: 200, height: 100 });
    }
}

impl NumberDisplay {
    /// A display at `(x, y)` that shows 0 and reveals nothing, whose clock
    /// is read now and stands at 0.
    pub fn new(x: i32, y: i32) -> (display: Self)
        ensures
            display@ == (NumberDisplayView { pos: Vector2 { x, y }, value: 0, backup: 0, start: 0 }),
    {
        Self { pos: Vector2 { x, y }, value: 0, backup: 0, clock: Instant::now(), start: 0 }
    }

    /// One step of the reveal at the time `now`. Says whether the number
    /// went up.
    pub fn count(&mut self, now: u128) -> (counted: bool)
        requires
            old(self)@.value == old(self)@.backup || old(self)@.value < u32::MAX,
        ensures
            final(self)@ == old(self)@.counted(now),
            counted == old(self)@.counts(now),
    {
        if self.backup != self.value && time_between(now, self.start) > COUNT_PACE {
            self.value += 1;
            self.start = now;
            true
        } else {
            false
        }
    }

    fn cycle_animation(&mut self)
        requires
            old(self)@.value == old(self)@.backup || old(self)@.value < u32::MAX,
        ensures
            exists|now: u128| final(self)@ == #[trigger] old(self)@.counted(now),
    {
        let now = millis_since(&self.clock);
        self.count(now);
    }

    /// Begins the reveal at the time `now`: the display shows 0 and counts
    /// up to what it showed before.
    pub fn escalate_at(&mut self, now: u128)
        ensures
            final(self)@ == old(self)@.escalated(now),
    {
        self.backup = self.value;
        self.value = 0;
        self.start = now;
    }

    /// Reads the clock and begins the reveal at that time. Whatever the
    /// clock says, the display is then as `escalated` gives it for that
    /// time.
    pub fn escalate(&mut self)
        ensures
            final(self)@.escalated_from(old(self)@),
    {
        let now = millis_since(&self.clock);
        self.escalate_at(now);
    }

    /// Whether the display shows the number that it counts up to.
    pub fn has_escalated(&self) -> (arrived: bool)
        ensures
            arrived == (self@.value == self@.backup),
    {
        return self.value == self.backup;
    }

    /// The segments that show `value` at `pos`.
    fn segments(value: u32, pos: Vector2) -> (bars: Vec<Bar>)
        ensures
            bars@ == (NumberDisplayView { pos, value, backup: 0, start: 0 }).bars(),
    {
        let text = digits(value);
        proof {
            lemma_digits(value as nat);
        }
        let mut bars: Vec<Bar> = Vec::new();
        let count = text.len();
        let mut i: usize = 0;
        while i < count
            invariant
                i <= count,
                count == text@.len(),
                count <= 10,
                bars@ == spec_number_bars(text@, pos, i as int),
            decreases count - i,
        {
            let x = trunc(pos.x as i64 + DIGIT_PITCH * (i as i64));
            let y = trunc(pos.y as i64);
            push_digit_bars(&mut bars, text[i], x, y);
            i += 1;
        }
        bars
    }

    /// Gives the segments that show the number, and lets a reveal go one
    /// step at the time `now`. The segments are those of the number before
    /// that step.
    pub fn draw_at(&mut self, now: u128) -> (bars: Vec<Bar>)
        requires
            old(self)@.can_count(),
        ensures
            bars@ == old(self)@.bars(),
            final(self)@ == old(self)@.drawn(now),
    {
        let bars = NumberDisplay::segments(self.value, self.pos);
        if self.backup != 0 {
            self.count(now);
        }
        bars
    }

    /// Gives the segments that show the number, reads the clock and lets a
    /// reveal go one step. The segments are those of the number before that
    /// step. Whatever the clock says, the display is then as `drawn` gives it
    /// for that time.
    pub fn draw(&mut self) -> (bars: Vec<Bar>)
        requires
            old(self)@.can_count(),
        ensures
            bars@ == old(self)@.bars(),
            final(self)@.may_follow(old(self)@),
    {
        let bars = NumberDisplay::segments(self.value, self.pos);
        if self.backup != 0 {
            self.cycle_animation();
            proof {
                let now = choose|now: u128| self@ == #[trigger] old(self)@.counted(now);
                assert(self@ == old(self)@.drawn(now));
            }
        } else {
            assert(self@ == old(self)@.drawn(0));
        }
        bars
    }

    /// Moves the display to `(x, y)`.
    pub fn translate(&mut self, x: i32, y: i32)
        ensures
            final(self)@ == (NumberDisplayView { pos: Vector2 { x, y }, ..old(self)@ }),
    {
        self.pos.x = x;
        self.pos.y = y;
    }

    /// Shows 0 again and forgets the reveal.
    pub fn reset(&mut self)
        ensures
            final(self)@ == (NumberDisplayView { value: 0, backup: 0, ..old(self)@ }),
    {
        self.value = 0;
        self.backup = 0;
    }

    /// Where the display stands.
    pub fn get_pos(&self) -> (pos: &Vector2)
        ensures
            *pos == self@.pos,
    {
        return &self.pos;
    }

    /// The number that is shown.
    pub fn get_value(&self) -> (value: u32)
        ensures
            value == self@.value,
    {
        self.value
    }

    /// Shows `value`.
    pub fn set_value(&mut self, value: u32)
        ensures
            final(self)@ == (NumberDisplayView { value, ..old(self)@ }),
    {
        self.value = value;
    }
}

} // verus!
