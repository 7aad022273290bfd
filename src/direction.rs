use vstd::prelude::*;

verus! {

/// One of the four orthogonal headings of the snake.
#[derive(Clone, Copy, Debug, PartialEq, Eq, Structural)]
pub enum Direction {
    Up,
    Down,
    Right,
    Left,
}

/// A cell coordinate on the grid; `x` grows to the right, `y` grows downwards.
#[derive(Clone, Copy, Debug, PartialEq, Eq, Structural)]
pub struct Position {
    pub x: i32,
    pub y: i32,
}

/// Horizontal component of a heading's unit step.
pub open spec fn dx(d: Direction) -> int {
    match d {
        Direction::Right => 1,
        Direction::Left => -1,
        _ => 0,
    }
}

/// Vertical component of a heading's unit step (up is towards `y == 0`).
pub open spec fn dy(d: Direction) -> int {
    match d {
        Direction::Down => 1,
        Direction::Up => -1,
        _ => 0,
    }
}

/// The opposite heading.
pub open spec fn opposite(d: Direction) -> Direction {
    match d {
        Direction::Up => Direction::Down,
        Direction::Down => Direction::Up,
        Direction::Right => Direction::Left,
        Direction::Left => Direction::Right,
    }
}

/// A coordinate one step past an edge of an axis of length `n` re-enters at
/// the opposite edge.
pub open spec fn wrap_coord(c: int, n: int) -> int {
    if c >= n {
        0
    } else if c < 0 {
        n - 1
    } else {
        c
    }
}

/// Whether `p` lies on a `width` by `height` grid.
pub open spec fn on_grid(p: Position, width: int, height: int) -> bool {
    0 <= p.x < width && 0 <= p.y < height
}

/// The cell reached from `p` by one step in direction `d` on a toroidal grid.
pub open spec fn step_on_torus(p: Position, d: Direction, width: int, height: int) -> Position {
    Position {
        x: wrap_coord(p.x + dx(d), width) as i32,
        y: wrap_coord(p.y + dy(d), height) as i32,
    }
}

impl Direction {
    /// The unit step `(dx, dy)` of this heading.
    pub fn offset(self) -> (r: (i32, i32))
        ensures
            r.0 == dx(self),
            r.1 == dy(self),
    {
        match self {
            Direction::Up => (0, -1),
            Direction::Down => (0, 1),
            Direction::Right => (1, 0),
            Direction::Left => (-1, 0),
        }
    }

    /// The heading that points the other way.
    pub fn reverse(self) -> (r: Direction)
        ensures
            r == opposite(self),
    {
        match self {
            Direction::Up => Direction::Down,
            Direction::Down => Direction::Up,
            Direction::Right => Direction::Left,
            Direction::Left => Direction::Right,
        }
    }
}

impl Position {
    pub fn new(x: i32, y: i32) -> (r: Position)
        ensures
            r == (Position { x, y }),
    {
        Position { x, y }
    }

    /// The neighbouring cell in direction `d` on a `width` by `height` torus.
    ///
    /// The candidate `self + offset(d)` is brought back onto the grid by
    /// testing, in this order, the right edge, the bottom edge, the left edge
    /// and the top edge; a unit step leaves by at most one of them.
    pub fn step(self, d: Direction, width: i32, height: i32) -> (r: Position)
        requires
            on_grid(self, width as int, height as int),
        ensures
            r == step_on_torus(self, d, width as int, height as int),
            on_grid(r, width as int, height as int),
    {
        let (ox, oy) = d.offset();
        let mut x: i32 = self.x + ox;
        let mut y: i32 = self.y + oy;
        if x > width - 1 {
            x = 0;
        } else if y > height - 1 {
            y = 0;
        } else if x < 0 {
            x = width - 1;
        } else if y < 0 {
            y = height - 1;
        }
        Position { x, y }
    }
}

} // verus!
