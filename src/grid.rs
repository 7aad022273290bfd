use vstd::prelude::*;

use crate::direction::{on_grid, Position};

verus! {

/// What occupies one cell of the grid.
#[derive(Clone, Copy, Debug, PartialEq, Eq, Structural)]
pub enum Cell {
    Empty,
    SnakeHead,
    SnakeBody,
    Food,
}

/// Why a grid or a game could not be set up.
#[derive(Clone, Copy, Debug, PartialEq, Eq, Structural)]
pub enum GameError {
    /// A width or a height that is not positive.
    InvalidDimensions,
    /// A snake or a food position that does not fit on the grid.
    InvalidLayout,
}

/// The abstract grid: its size and the tag of every cell on it.
pub ghost struct GridView {
    pub width: int,
    pub height: int,
    pub cells: Map<Position, Cell>,
}

/// A `width` by `height` grid whose cells are all `tag`.
pub open spec fn filled(width: int, height: int, tag: Cell) -> GridView {
    GridView {
        width,
        height,
        cells: Map::new(|p: Position| on_grid(p, width, height), |p: Position| tag),
    }
}

impl GridView {
    pub open spec fn contains(self, p: Position) -> bool {
        on_grid(p, self.width, self.height)
    }

    /// The grid after writing `tag` at `p`; writes off the grid change nothing.
    pub open spec fn with_cell(self, p: Position, tag: Cell) -> GridView {
        if self.contains(p) {
            GridView { cells: self.cells.insert(p, tag), ..self }
        } else {
            self
        }
    }
}

/// A fixed-size grid of cell tags, stored row by row.
pub struct GridWorld {
    width: i32,
    height: i32,
    cells: Vec<Cell>,
}

/// Row-major storage: cell `(x, y)` sits at `y * width + x`, which is a
/// distinct slot inside the storage for every cell on the grid.
proof fn lemma_slot(x: int, y: int, x2: int, y2: int, width: int, height: int)
    requires
        0 <= x < width,
        0 <= y < height,
        0 <= x2 < width,
        0 <= y2 < height,
    ensures
        0 <= y * width + x < width * height,
        (y * width + x == y2 * width + x2) ==> (x == x2 && y == y2),
{
    assert(0 <= y * width + x < width * height) by (nonlinear_arith)
        requires
            0 <= x < width,
            0 <= y < height,
    ;
    if y * width + x == y2 * width + x2 {
        assert(y == y2) by (nonlinear_arith)
            requires
                0 <= x < width,
                0 <= x2 < width,
                y * width + x == y2 * width + x2,
        ;
    }
}

impl View for GridWorld {
    type V = GridView;

    closed spec fn view(&self) -> GridView {
        let ghost w = self.width as int;
        let ghost h = self.height as int;
        GridView {
            width: w,
            height: h,
            cells: Map::new(
                |p: Position| on_grid(p, w, h),
                |p: Position| self.cells@[p.y * w + p.x],
            ),
        }
    }
}

impl GridWorld {
    /// Internal consistency: a positive size and one stored tag per cell.
    pub closed spec fn wf(&self) -> bool {
        &&& self.width > 0
        &&& self.height > 0
        &&& self.cells@.len() == self.width as int * self.height as int
    }

    /// A grid of the given size with every cell `Empty`.
    pub fn new(width: i32, height: i32) -> (r: Result<GridWorld, GameError>)
        requires
            width as int * height as int <= usize::MAX,
        ensures
            (width <= 0 || height <= 0) <==> r is Err,
            r matches Err(e) ==> e == GameError::InvalidDimensions,
            r matches Ok(g) ==> g.wf() && g@ == filled(width as int, height as int, Cell::Empty),
    {
        if width <= 0 || height <= 0 {
            return Err(GameError::InvalidDimensions);
        }
        let total: usize = width as usize * height as usize;
        let mut cells: Vec<Cell> = Vec::with_capacity(total);
        let mut i: usize = 0;
        while i < total
            invariant
                i <= total,
                cells@.len() == i,
                forall|k: int| 0 <= k < i ==> cells@[k] == Cell::Empty,
            decreases total - i,
        {
            cells.push(Cell::Empty);
            i = i + 1;
        }
        let g = GridWorld { width, height, cells };
        assert forall|p: Position| on_grid(p, width as int, height as int) implies g.cells@[p.y
            * width + p.x] == Cell::Empty by {
            lemma_slot(p.x as int, p.y as int, 0, 0, width as int, height as int);
        }
        assert(g@.cells =~= filled(width as int, height as int, Cell::Empty).cells);
        Ok(g)
    }

    /// Where cell `(x, y)` is stored.
    fn slot(&self, x: i32, y: i32) -> (k: usize)
        requires
            self.wf(),
            on_grid(Position { x, y }, self.width as int, self.height as int),
        ensures
            k == y * self.width + x,
            k < self.cells@.len(),
    {
        let n: usize = self.cells.len();
        proof {
            lemma_slot(x as int, y as int, 0, 0, self.width as int, self.height as int);
        }
        let row: usize = y as usize * self.width as usize;
        row + x as usize
    }

    /// Whether `(x, y)` lies on the grid.
    pub fn in_bounds(&self, x: i32, y: i32) -> (r: bool)
        requires
            self.wf(),
        ensures
            r == self@.contains(Position { x, y }),
    {
        0 <= x && x < self.width && 0 <= y && y < self.height
    }

    /// The grid's `(width, height)`.
    pub fn size(&self) -> (r: (i32, i32))
        ensures
            r.0 == self@.width,
            r.1 == self@.height,
    {
        (self.width, self.height)
    }

    /// The tag at `(x, y)`, or `None` off the grid.
    pub fn get_cell(&self, x: i32, y: i32) -> (r: Option<Cell>)
        requires
            self.wf(),
        ensures
            r == (if self@.contains(Position { x, y }) {
                Some(self@.cells[Position { x, y }])
            } else {
                None
            }),
    {
        if self.in_bounds(x, y) {
            let k = self.slot(x, y);
            Some(self.cells[k])
        } else {
            None
        }
    }

    /// Writes `tag` at `(x, y)`. A write off the grid is ignored: the
    /// movement rule keeps every coordinate it produces on the grid, so such
    /// a write never comes from play and needs no error.
    pub fn set_cell(&mut self, x: i32, y: i32, tag: Cell)
        requires
            old(self).wf(),
        ensures
            final(self).wf(),
            final(self)@ == old(self)@.with_cell(Position { x, y }, tag),
    {
        if self.in_bounds(x, y) {
            let ghost w = self.width as int;
            let ghost h = self.height as int;
            let k = self.slot(x, y);
            let ghost before = self@;
            self.cells.set(k, tag);
            let p = Position { x, y };
            assert forall|q: Position| on_grid(q, w, h) implies self@.cells[q] == (if q == p {
                tag
            } else {
                before.cells[q]
            }) by {
                lemma_slot(q.x as int, q.y as int, x as int, y as int, w, h);
            }
            assert(self@.cells =~= before.cells.insert(p, tag));
        }
    }

    /// Resets every cell to `Empty`.
    pub fn clear(&mut self)
        requires
            old(self).wf(),
        ensures
            final(self).wf(),
            final(self)@ == filled(old(self)@.width, old(self)@.height, Cell::Empty),
    {
        let n: usize = self.cells.len();
        let mut i: usize = 0;
        while i < n
            invariant
                i <= n,
                n == self.cells@.len(),
                self.wf(),
                self.width == old(self).width,
                self.height == old(self).height,
                forall|k: int| 0 <= k < i ==> self.cells@[k] == Cell::Empty,
            decreases n - i,
        {
            self.cells.set(i, Cell::Empty);
            i = i + 1;
        }
        let ghost w = self.width as int;
        let ghost h = self.height as int;
        assert forall|p: Position| on_grid(p, w, h) implies self.cells@[p.y * w + p.x]
            == Cell::Empty by {
            lemma_slot(p.x as int, p.y as int, 0, 0, w, h);
        }
        assert(self@.cells =~= filled(w, h, Cell::Empty).cells);
    }
}

} // verus!
