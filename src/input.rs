use vstd::prelude::*;

verus! {

/// A logical movement direction, bound by the host to a physical key.
#[derive(Clone, Copy, Debug, PartialEq, Eq, Structural)]
pub enum Input {
    MoveLeft,
    MoveRight,
    MoveUp,
    MoveDown,
}

/// A movement intent: the unit vector pointing along `(x, y)`, or the zero
/// vector when both components are zero.  Each component lies in {-1, 0, 1}.
#[derive(Clone, Copy, Debug, PartialEq, Eq, Structural)]
pub struct Direction {
    pub x: i8,
    pub y: i8,
}

impl Direction {
    pub open spec fn wf(self) -> bool {
        -1 <= self.x <= 1 && -1 <= self.y <= 1
    }

    pub open spec fn is_zero(self) -> bool {
        self.x == 0 && self.y == 0
    }

    pub open spec fn is_diagonal(self) -> bool {
        self.x != 0 && self.y != 0
    }

    /// The displacement `(dx, dy)` that moving a distance `dist` along this
    /// direction gives, rounded toward zero to whole position units: along an axis the
    /// full distance, along a diagonal `half_diag(dist)` on each axis.
    pub open spec fn step_of(self, dist: int) -> (int, int) {
        if self.is_diagonal() {
            (self.x * half_diag(dist), self.y * half_diag(dist))
        } else {
            (self.x * dist, self.y * dist)
        }
    }

    pub fn is_zero_vector(&self) -> (r: bool)
        ensures
            r == self.is_zero(),
    {
        self.x == 0 && self.y == 0
    }

    /// The displacement for moving `dist` units along this direction.
    pub fn step(&self, dist: u64) -> (r: (i64, i64))
        requires
            self.wf(),
            dist <= i64::MAX,
        ensures
            (r.0 as int, r.1 as int) == self.step_of(dist as int),
    {
        let len: u64 = if self.x != 0 && self.y != 0 {
            let c = half_diagonal(dist);
            proof {
                lemma_half_diag(c as int, dist as int);
            }
            c
        } else {
            dist
        };
        assert(len <= dist);
        let l = len as i64;
        let dx: i64 = if self.x > 0 { l } else if self.x < 0 { -l } else { 0 };
        let dy: i64 = if self.y > 0 { l } else if self.y < 0 { -l } else { 0 };
        assert(dx == self.x * len && dy == self.y * len) by (nonlinear_arith)
            requires
                self.wf(),
                l == len,
                self.x > 0 ==> dx == l,
                self.x < 0 ==> dx == -l,
                self.x == 0 ==> dx == 0,
                self.y > 0 ==> dy == l,
                self.y < 0 ==> dy == -l,
                self.y == 0 ==> dy == 0,
        ;
        (dx, dy)
    }
}

/// `c` is the largest whole number with `2 * c * c <= d * d`, that is the
/// length `d / sqrt(2)` rounded down.
pub open spec fn is_half_diagonal(c: int, d: int) -> bool {
    0 <= c && 2 * c * c <= d * d && d * d < 2 * (c + 1) * (c + 1)
}

/// The length `d / sqrt(2)` rounded down.
pub open spec fn half_diag(d: int) -> int {
    choose|c: int| is_half_diagonal(c, d)
}

/// Only one whole number is `d / sqrt(2)` rounded down.
proof fn lemma_half_diagonal_unique(a: int, b: int, d: int)
    requires
        is_half_diagonal(a, d),
        is_half_diagonal(b, d),
    ensures
        a == b,
{
    if a < b {
        assert(2 * (a + 1) * (a + 1) <= 2 * b * b) by (nonlinear_arith)
            requires
                0 <= a,
                a + 1 <= b,
        ;
    } else if b < a {
        assert(2 * (b + 1) * (b + 1) <= 2 * a * a) by (nonlinear_arith)
            requires
                0 <= b,
                b + 1 <= a,
        ;
    }
}

proof fn lemma_half_diag(c: int, d: int)
    requires
        is_half_diagonal(c, d),
    ensures
        half_diag(d) == c,
{
    lemma_half_diagonal_unique(half_diag(d), c, d);
}

/// `dist / sqrt(2)` rounded down, by bisection.
pub fn half_diagonal(dist: u64) -> (r: u64)
    requires
        dist <= i64::MAX,
    ensures
        is_half_diagonal(r as int, dist as int),
        r <= dist,
{
    let d: u128 = dist as u128;
    assert(d * d <= 0x4000_0000_0000_0000_0000_0000_0000_0000u128) by (nonlinear_arith)
        requires
            d <= i64::MAX,
    ;
    let dd: u128 = d * d;
    let mut lo: u128 = 0;
    let mut hi: u128 = d + 1;
    assert(2 * hi * hi > dd) by (nonlinear_arith)
        requires
            hi == d + 1,
            dd == d * d,
    ;
    while hi - lo > 1
        invariant
            dd == d * d,
            d <= i64::MAX,
            lo < hi <= d + 1,
            2 * lo * lo <= dd,
            2 * hi * hi > dd,
        decreases hi - lo,
    {
        let mid: u128 = lo + (hi - lo) / 2;
        assert(mid * mid <= (d + 1) * (d + 1)) by (nonlinear_arith)
            requires
                mid <= d + 1,
        ;
        assert((d + 1) * (d + 1) <= 0x4000_0000_0000_0000_0000_0000_0000_0000u128) by (nonlinear_arith)
            requires
                d <= i64::MAX,
        ;
        assert(2 * mid * mid == 2 * (mid * mid)) by (nonlinear_arith);
        if 2 * (mid * mid) <= dd {
            lo = mid;
        } else {
            hi = mid;
        }
    }
    assert(hi == lo + 1);
    assert(lo <= d) by (nonlinear_arith)
        requires
            2 * lo * lo <= d * d,
            lo >= 0,
            d >= 0,
    ;
    lo as u64
}

/// The key bound to each direction: `a` left, `d` right, `w` up, `s` down.
pub open spec fn spec_key_binding(key: char) -> Option<Input> {
    if key == 'a' {
        Some(Input::MoveLeft)
    } else if key == 'd' {
        Some(Input::MoveRight)
    } else if key == 'w' {
        Some(Input::MoveUp)
    } else if key == 's' {
        Some(Input::MoveDown)
    } else {
        None
    }
}

pub fn key_binding(key: char) -> (r: Option<Input>)
    ensures
        r == spec_key_binding(key),
{
    if key == 'a' {
        Some(Input::MoveLeft)
    } else if key == 'd' {
        Some(Input::MoveRight)
    } else if key == 'w' {
        Some(Input::MoveUp)
    } else if key == 's' {
        Some(Input::MoveDown)
    } else {
        None
    }
}

/// Records a key event: a bound key sets its direction pressed or released;
/// any other key is ignored.
pub fn process_keyboard_input(state: &mut InputState, key: char, pressed: bool)
    ensures
        match spec_key_binding(key) {
            Some(input) => *final(state) == old(state).spec_set(input, pressed),
            None => *final(state) == *old(state),
        },
{
    match key_binding(key) {
        Some(input) => state.set(input, pressed),
        None => {},
    }
}

/// Which logical directions are currently held down.
#[derive(Clone, Copy, Debug, PartialEq, Eq, Structural)]
pub struct InputState {
    pub left: bool,
    pub right: bool,
    pub up: bool,
    pub down: bool,
}

pub open spec fn unit(b: bool) -> int {
    if b { 1 } else { 0 }
}

impl Input {
    /// The unit vector of this direction.
    pub open spec fn spec_direction(self) -> Direction {
        match self {
            Input::MoveLeft => Direction { x: -1i8, y: 0i8 },
            Input::MoveRight => Direction { x: 1, y: 0 },
            Input::MoveUp => Direction { x: 0, y: 1 },
            Input::MoveDown => Direction { x: 0i8, y: -1i8 },
        }
    }

    /// Every movement direction, in a fixed order.
    pub fn movement() -> (r: Vec<Input>)
        ensures
            r@ == seq![Input::MoveLeft, Input::MoveRight, Input::MoveUp, Input::MoveDown],
    {
        vec![Input::MoveLeft, Input::MoveRight, Input::MoveUp, Input::MoveDown]
    }

    pub fn direction(&self) -> (r: Option<Direction>)
        ensures
            r == Some(self.spec_direction()),
    {
        match self {
            Input::MoveLeft => Some(Direction { x: -1, y: 0 }),
            Input::MoveRight => Some(Direction { x: 1, y: 0 }),
            Input::MoveUp => Some(Direction { x: 0, y: 1 }),
            Input::MoveDown => Some(Direction { x: 0, y: -1 }),
        }
    }
}

impl InputState {
    pub open spec fn spec_get(self, input: Input) -> bool {
        match input {
            Input::MoveLeft => self.left,
            Input::MoveRight => self.right,
            Input::MoveUp => self.up,
            Input::MoveDown => self.down,
        }
    }

    /// The sum of the unit vectors of the pressed directions.
    pub open spec fn net_x(self) -> int {
        unit(self.right) - unit(self.left)
    }

    pub open spec fn net_y(self) -> int {
        unit(self.up) - unit(self.down)
    }

    /// The normalized direction of the pressed set.
    pub open spec fn spec_direction(self) -> Direction {
        Direction { x: self.net_x() as i8, y: self.net_y() as i8 }
    }

    pub open spec fn none_pressed(self) -> bool {
        !self.left && !self.right && !self.up && !self.down
    }

    /// This state with `input` pressed or released.
    pub open spec fn spec_set(self, input: Input, pressed: bool) -> InputState {
        match input {
            Input::MoveLeft => InputState { left: pressed, ..self },
            Input::MoveRight => InputState { right: pressed, ..self },
            Input::MoveUp => InputState { up: pressed, ..self },
            Input::MoveDown => InputState { down: pressed, ..self },
        }
    }

    /// Nothing pressed.
    pub fn new() -> (r: InputState)
        ensures
            r.none_pressed(),
            r == (InputState { left: false, right: false, up: false, down: false }),
    {
        InputState { left: false, right: false, up: false, down: false }
    }

    pub fn get(&self, input: Input) -> (r: bool)
        ensures
            r == self.spec_get(input),
    {
        match input {
            Input::MoveLeft => self.left,
            Input::MoveRight => self.right,
            Input::MoveUp => self.up,
            Input::MoveDown => self.down,
        }
    }

    /// Records that `input` was pressed or released.
    pub fn set(&mut self, input: Input, pressed: bool)
        ensures
            *final(self) == old(self).spec_set(input, pressed),
            final(self).spec_get(input) == pressed,
            forall|other: Input| other != input ==> final(self).spec_get(other) == old(self).spec_get(other),
    {
        match input {
            Input::MoveLeft => self.left = pressed,
            Input::MoveRight => self.right = pressed,
            Input::MoveUp => self.up = pressed,
            Input::MoveDown => self.down = pressed,
        }
    }

    /// The sum of the unit vectors of all pressed directions, normalized:
    /// the zero vector when nothing is pressed or opposite directions cancel.
    pub fn normalized_direction(&self) -> (r: Direction)
        ensures
            r.wf(),
            r == self.spec_direction(),
            r.x == self.net_x(),
            r.y == self.net_y(),
    {
        let inputs = Input::movement();
        let mut x: i8 = 0;
        let mut y: i8 = 0;
        let mut i: usize = 0;
        while i < inputs.len()
            invariant
                inputs@ == seq![Input::MoveLeft, Input::MoveRight, Input::MoveUp, Input::MoveDown],
                0 <= i <= 4,
                x == (if i > 1 { unit(self.right) } else { 0 }) - (if i > 0 { unit(self.left) } else { 0 }),
                y == (if i > 2 { unit(self.up) } else { 0 }) - (if i > 3 { unit(self.down) } else { 0 }),
            decreases inputs.len() - i,
        {
            let input = inputs[i];
            if self.get(input) {
                if let Some(d) = input.direction() {
                    x = x + d.x;
                    y = y + d.y;
                }
            }
            i = i + 1;
        }
        Direction { x, y }
    }
}

proof fn lemma_half_diagonal_exists(d: int)
    requires
        d >= 0,
    ensures
        is_half_diagonal(half_diag(d), d),
    decreases d,
{
    if d == 0 {
        assert(is_half_diagonal(0, 0));
    } else {
        lemma_half_diagonal_exists(d - 1);
        let c = half_diag(d - 1);
        // d^2 grows by 2d - 1 from (d-1)^2: either c or c + 1 fits
        if 2 * (c + 1) * (c + 1) <= d * d {
            assert(d * d < 2 * (c + 2) * (c + 2)) by (nonlinear_arith)
                requires
                    (d - 1) * (d - 1) < 2 * (c + 1) * (c + 1),
                    c >= 0,
                    d >= 1,
            ;
            assert(is_half_diagonal(c + 1, d));
        } else {
            assert(2 * c * c <= d * d) by (nonlinear_arith)
                requires
                    2 * c * c <= (d - 1) * (d - 1),
                    d >= 1,
            ;
            assert(is_half_diagonal(c, d));
        }
    }
}

/// A pressed set's normalized direction is zero exactly when no direction is
/// pressed or the pressed directions cancel; otherwise it has length one:
/// moving `dist` along it covers `dist` up to the rounding to whole position units,
/// `len^2 <= dist^2 < len^2 + 4 * dist + 2` for the displacement's length `len`.
pub proof fn lemma_direction_is_unit_or_zero(s: InputState, dist: int)
    requires
        dist >= 0,
    ensures
        ({
            let d = s.spec_direction();
            let (dx, dy) = d.step_of(dist);
            &&& d.wf()
            &&& d.is_zero() <==> (s.none_pressed() || (s.net_x() == 0 && s.net_y() == 0))
            &&& d.is_zero() ==> dx == 0 && dy == 0
            &&& !d.is_zero() ==> dx * dx + dy * dy <= dist * dist
            &&& !d.is_zero() ==> dist * dist < dx * dx + dy * dy + 4 * dist + 2
        }),
{
    let d = s.spec_direction();
    let (dx, dy) = d.step_of(dist);
    if d.is_diagonal() {
        lemma_half_diagonal_exists(dist);
        let c = half_diag(dist);
        assert(dx * dx == c * c && dy * dy == c * c) by (nonlinear_arith)
            requires
                dx == d.x * c,
                dy == d.y * c,
                d.x == 1 || d.x == -1,
                d.y == 1 || d.y == -1,
        ;
        assert(c <= dist) by (nonlinear_arith)
            requires
                2 * c * c <= dist * dist,
                c >= 0,
                dist >= 0,
        ;
        assert(2 * (c + 1) * (c + 1) == 2 * c * c + 4 * c + 2) by (nonlinear_arith);
        assert(2 * c * c == c * c + c * c) by (nonlinear_arith);
    } else if !d.is_zero() {
        assert(dx * dx + dy * dy == dist * dist) by (nonlinear_arith)
            requires
                dx == d.x * dist,
                dy == d.y * dist,
                (d.x == 0 && (d.y == 1 || d.y == -1)) || (d.y == 0 && (d.x == 1 || d.x == -1)),
        ;
    } else {
        assert(dx == 0 && dy == 0) by (nonlinear_arith)
            requires
                dx == d.x * dist,
                dy == d.y * dist,
                d.x == 0,
                d.y == 0,
        ;
    }
}

} // verus!
