use vstd::prelude::*;

use crate::direction::{on_grid, opposite, step_on_torus, Direction, Position};
use crate::grid::{filled, Cell, GameError, GridView, GridWorld};
use crate::random::random_below;

verus! {

/// Number of cells of a fresh snake, head included.
pub const INITIAL_LENGTH: i32 = 10;

/// Time between two moves of the snake, in microseconds.
pub const MOVE_INTERVAL: u64 = 50000;

/// Which part of a session the game is in; it decides which actions count.
#[derive(Clone, Copy, Debug, PartialEq, Eq, Structural)]
pub enum GameState {
    Menu,
    Playing,
    Paused,
    Ended,
    GameOver,
}

/// A player's input, already mapped from whatever key produced it.
#[derive(Clone, Copy, Debug, PartialEq, Eq, Structural)]
pub enum Action {
    Start,
    Pause,
    Continue,
    End,
    Restart,
    MoveUp,
    MoveDown,
    MoveLeft,
    MoveRight,
}

/// The abstract game: the grid as last painted, the snake (`body[0]` is
/// the segment right behind the head, the last one is the tail), the food,
/// and the counters.
pub ghost struct GameView {
    pub grid: GridView,
    pub state: GameState,
    pub since_move: int,
    pub head: Position,
    pub body: Seq<Position>,
    pub direction: Direction,
    pub food: Position,
    pub score: int,
    pub best: int,
}

/// The grid with the snake painted on an empty background: body segments
/// over the head.
pub open spec fn snake_picture(width: int, height: int, head: Position, segs: Seq<Position>) -> GridView {
    GridView {
        width,
        height,
        cells: Map::new(
            |p: Position| on_grid(p, width, height),
            |p: Position|
                if segs.contains(p) {
                    Cell::SnakeBody
                } else if p == head {
                    Cell::SnakeHead
                } else {
                    Cell::Empty
                },
        ),
    }
}

/// The grid as repainted after each step: the snake, then the food on top.
pub open spec fn scene(width: int, height: int, head: Position, body: Seq<Position>, food: Position) -> GridView {
    snake_picture(width, height, head, body).with_cell(food, Cell::Food)
}

/// The middle cell of the grid, where a fresh snake's head goes.
pub open spec fn center(width: int, height: int) -> Position {
    Position { x: (width / 2) as i32, y: (height / 2) as i32 }
}

/// A fresh snake's body: a straight line to the left of its head.
pub open spec fn initial_body(head: Position) -> Seq<Position> {
    Seq::new(
        (INITIAL_LENGTH - 1) as nat,
        |i: int| Position { x: (head.x - (i + 1)) as i32, y: head.y },
    )
}

/// Whether a `width` by `height` grid can hold a game: a positive size,
/// wide enough for a fresh snake to lie left of the center.
pub open spec fn fits(width: int, height: int) -> bool {
    &&& width > 0
    &&& height > 0
    &&& width / 2 >= INITIAL_LENGTH - 1
}

/// Whether a snake and a food position make a playable layout on the grid:
/// all on it, a body of at least one segment, and the head not on the body.
pub open spec fn layout_ok(width: int, height: int, head: Position, body: Seq<Position>, food: Position) -> bool {
    &&& on_grid(head, width, height)
    &&& on_grid(food, width, height)
    &&& body.len() >= 1
    &&& forall|i: int| 0 <= i < body.len() ==> #[trigger] on_grid(body[i], width, height)
    &&& !body.contains(head)
}

/// The larger of a best score and the score of a session that just ended.
pub open spec fn best_after(best: int, score: int) -> int {
    if score > best {
        score
    } else {
        best
    }
}

impl GameView {
    /// What holds of every game at every moment.
    pub open spec fn valid(self) -> bool {
        &&& self.grid.width > 0
        &&& self.grid.height > 0
        &&& self.grid.contains(self.head)
        &&& self.grid.contains(self.food)
        &&& self.body.len() >= 1
        &&& forall|i: int| 0 <= i < self.body.len() ==> #[trigger] self.grid.contains(self.body[i])
        &&& 0 <= self.score <= self.body.len()
        &&& 0 <= self.best
        &&& 0 <= self.since_move < MOVE_INTERVAL
        &&& fits(self.grid.width, self.grid.height)
    }

    /// Where the head goes on the next step.
    pub open spec fn next_head(self) -> Position {
        step_on_torus(self.head, self.direction, self.grid.width, self.grid.height)
    }

    /// A session ends (explicitly or by collision): the best score keeps the larger.
    pub open spec fn finished(self, state: GameState) -> GameView {
        GameView { state, best: best_after(self.best, self.score), ..self }
    }

    /// One discrete move step; `roll` is where food goes if this step eats it.
    pub open spec fn moved(self, roll: Position) -> GameView {
        let nh = self.next_head();
        let w = self.grid.width;
        let h = self.grid.height;
        if self.body.contains(nh) {
            self.finished(GameState::GameOver)
        } else if nh == self.food {
            let body = seq![self.head] + self.body;
            GameView {
                grid: scene(w, h, nh, body, roll),
                head: nh,
                body,
                food: roll,
                score: self.score + 1,
                ..self
            }
        } else {
            let body = seq![self.head] + self.body.drop_last();
            GameView { grid: scene(w, h, nh, body, self.food), head: nh, body, ..self }
        }
    }

    /// A full reset into a new session, with the food at `roll`.
    pub open spec fn reset(self, roll: Position) -> GameView {
        let w = self.grid.width;
        let h = self.grid.height;
        let head = center(w, h);
        let body = initial_body(head);
        GameView {
            grid: scene(w, h, head, body, roll),
            state: GameState::Playing,
            since_move: 0,
            head,
            body,
            direction: Direction::Right,
            food: roll,
            score: 0,
            best: self.best,
        }
    }

    /// A change of heading, refused when it would turn the snake back on itself.
    pub open spec fn turned(self, d: Direction) -> GameView {
        if self.direction == opposite(d) {
            self
        } else {
            GameView { direction: d, ..self }
        }
    }

    /// The game after `delta` microseconds of play time.
    pub open spec fn ticked(self, delta: int, roll: Position) -> GameView {
        if self.state != GameState::Playing {
            self
        } else if self.since_move + delta < MOVE_INTERVAL {
            GameView { since_move: self.since_move + delta, ..self }
        } else {
            GameView { since_move: 0, ..self }.moved(roll)
        }
    }

    /// The game after the player's `action`, which counts only in some states.
    pub open spec fn acted(self, action: Action, roll: Position) -> GameView {
        match self.state {
            GameState::Menu => match action {
                Action::Start => self.reset(roll),
                _ => self,
            },
            GameState::Playing => match action {
                Action::Pause => GameView { state: GameState::Paused, ..self },
                Action::End => self.finished(GameState::Ended),
                Action::Restart => self.reset(roll),
                Action::MoveUp => self.turned(Direction::Up),
                Action::MoveDown => self.turned(Direction::Down),
                Action::MoveLeft => self.turned(Direction::Left),
                Action::MoveRight => self.turned(Direction::Right),
                _ => self,
            },
            GameState::Paused => match action {
                Action::Continue => GameView { state: GameState::Playing, ..self },
                Action::Restart => self.reset(roll),
                Action::End => self.finished(GameState::Ended),
                _ => self,
            },
            GameState::GameOver => match action {
                Action::Start | Action::Continue | Action::Restart => self.reset(roll),
                _ => self,
            },
            GameState::Ended => self,
        }
    }
}

/// A snake game: the grid it paints on, the snake, the food, the scores and
/// the clock that paces the moves.
pub struct GameEngine {
    grid: GridWorld,
    state: GameState,
    since_move: u64,
    head: Position,
    body: Vec<Position>,
    direction: Direction,
    food: Position,
    current_score: u64,
    best_score: u64,
}

impl View for GameEngine {
    type V = GameView;

    closed spec fn view(&self) -> GameView {
        GameView {
            grid: self.grid@,
            state: self.state,
            since_move: self.since_move as int,
            head: self.head,
            body: self.body@,
            direction: self.direction,
            food: self.food,
            score: self.current_score as int,
            best: self.best_score as int,
        }
    }
}

/// Painting the next body segment over a partly painted snake extends the
/// picture by that segment.
proof fn lemma_picture_grows(width: int, height: int, head: Position, segs: Seq<Position>, i: int)
    requires
        0 <= i < segs.len(),
        on_grid(segs[i], width, height),
    ensures
        snake_picture(width, height, head, segs.subrange(0, i)).with_cell(segs[i], Cell::SnakeBody)
            == snake_picture(width, height, head, segs.subrange(0, i + 1)),
{
    let a = segs.subrange(0, i);
    let b = segs.subrange(0, i + 1);
    assert forall|p: Position| b.contains(p) <==> (a.contains(p) || p == segs[i]) by {
        if b.contains(p) {
            let k = choose|k: int| 0 <= k < b.len() && b[k] == p;
            if k < i {
                assert(a[k] == p);
            }
        }
        if a.contains(p) {
            let k = choose|k: int| 0 <= k < a.len() && a[k] == p;
            assert(b[k] == p);
        }
        if p == segs[i] {
            assert(b[i] == p);
        }
    }
    assert(snake_picture(width, height, head, a).with_cell(segs[i], Cell::SnakeBody).cells =~= snake_picture(
        width,
        height,
        head,
        b,
    ).cells);
}

impl GameEngine {
    /// Internal consistency: the grid is well formed and holds the game's
    /// size, and the abstract game is valid.
    pub closed spec fn wf(&self) -> bool {
        &&& self.grid.wf()
        &&& self@.valid()
    }

    /// A well-formed engine presents a valid game.
    pub proof fn lemma_valid_view(&self)
        requires
            self.wf(),
        ensures
            self@.valid(),
    {
    }

    /// Whether `p` is one of the body's segments (the tail included).
    fn body_contains(&self, p: Position) -> (r: bool)
        ensures
            r == self@.body.contains(p),
    {
        let n: usize = self.body.len();
        let mut i: usize = 0;
        while i < n
            invariant
                i <= n,
                n == self.body@.len(),
                forall|k: int| 0 <= k < i ==> self.body@[k] != p,
            decreases n - i,
        {
            if self.body[i] == p {
                return true;
            }
            i = i + 1;
        }
        false
    }

    /// Paints the grid afresh: cleared, then the head, the body, and the food.
    fn repaint(&mut self)
        requires
            old(self).wf(),
        ensures
            final(self).wf(),
            final(self)@ == (GameView {
                grid: scene(
                    old(self)@.grid.width,
                    old(self)@.grid.height,
                    old(self)@.head,
                    old(self)@.body,
                    old(self)@.food,
                ),
                ..old(self)@
            }),
    {
        let ghost w = self@.grid.width;
        let ghost h = self@.grid.height;
        self.grid.clear();
        self.grid.set_cell(self.head.x, self.head.y, Cell::SnakeHead);
        assert(self.grid@ =~= snake_picture(w, h, self.head, self.body@.subrange(0, 0))) by {
            assert(self.grid@.cells =~= snake_picture(w, h, self.head, self.body@.subrange(0, 0)).cells);
        }
        let n: usize = self.body.len();
        let mut i: usize = 0;
        while i < n
            invariant
                i <= n,
                n == self.body@.len(),
                self.grid.wf(),
                self.grid@ == snake_picture(w, h, self.head, self.body@.subrange(0, i as int)),
                self.head == old(self).head,
                self.body == old(self).body,
                self.food == old(self).food,
                self.state == old(self).state,
                self.since_move == old(self).since_move,
                self.direction == old(self).direction,
                self.current_score == old(self).current_score,
                self.best_score == old(self).best_score,
                old(self)@.valid(),
                w == old(self)@.grid.width,
                h == old(self)@.grid.height,
            decreases n - i,
        {
            let seg = self.body[i];
            assert(old(self)@.grid.contains(old(self)@.body[i as int]));
            proof {
                lemma_picture_grows(w, h, self.head, self.body@, i as int);
            }
            self.grid.set_cell(seg.x, seg.y, Cell::SnakeBody);
            i = i + 1;
        }
        assert(self.body@.subrange(0, n as int) =~= self.body@);
        self.grid.set_cell(self.food.x, self.food.y, Cell::Food);
        assert forall|k: int| 0 <= k < self@.body.len() implies #[trigger] self@.grid.contains(
            self@.body[k],
        ) by {
            assert(old(self)@.grid.contains(old(self)@.body[k]));
        }
    }
}

impl GameEngine {
    /// Where the head goes on the next step: one cell along the current
    /// heading, wrapping around the edges.
    pub fn next_head_location(&self) -> (r: Position)
        requires
            self.wf(),
        ensures
            r == self@.next_head(),
            self@.grid.contains(r),
    {
        let (w, h) = self.grid.size();
        self.head.step(self.direction, w, h)
    }

    /// Closes the session in `state`, keeping the larger score as the best.
    fn finish(&mut self, state: GameState)
        requires
            old(self).wf(),
        ensures
            final(self).wf(),
            final(self)@ == old(self)@.finished(state),
    {
        if self.current_score > self.best_score {
            self.best_score = self.current_score;
        }
        self.state = state;
    }

    /// One discrete move step, with `roll` as the new food position should
    /// the snake eat.
    ///
    /// A head that would land on any current body segment (the tail too,
    /// although it is about to move) ends the game and changes nothing else.
    /// Otherwise the body follows the head; on the food it also keeps its old
    /// tail cell, the score goes up by one and the food moves to `roll`.
    pub fn move_snake_with(&mut self, roll: Position)
        requires
            old(self).wf(),
            old(self)@.grid.contains(roll),
        ensures
            final(self).wf(),
            final(self)@ == old(self)@.moved(roll),
    {
        let next = self.next_head_location();
        if self.body_contains(next) {
            self.finish(GameState::GameOver);
            return;
        }
        let eats = next == self.food;
        let n: usize = self.body.len();
        let keep: usize = if eats {
            n
        } else {
            n - 1
        };
        let mut body: Vec<Position> = Vec::new();
        body.push(self.head);
        let mut i: usize = 0;
        while i < keep
            invariant
                i <= keep <= n,
                n == self.body@.len(),
                body@ == seq![self.head] + self.body@.subrange(0, i as int),
            decreases keep - i,
        {
            body.push(self.body[i]);
            i = i + 1;
        }
        let ghost before = self@;
        let new_len: usize = body.len();
        assert(new_len == keep + 1);
        if eats {
            assert(self.body@.subrange(0, n as int) =~= self.body@);
            self.current_score = self.current_score + 1;
            self.food = roll;
        } else {
            assert(self.body@.subrange(0, n - 1) =~= self.body@.drop_last());
        }
        self.body = body;
        self.head = next;
        assert forall|k: int| 0 <= k < self@.body.len() implies #[trigger] self@.grid.contains(
            self@.body[k],
        ) by {
            if k > 0 {
                assert(self@.body[k] == before.body[k - 1]);
                assert(before.grid.contains(before.body[k - 1]));
            }
        }
        self.repaint();
    }
}

/// A fresh snake's body behind a head at `head`.
fn initial_snake(head: Position) -> (r: Vec<Position>)
    requires
        head.x >= INITIAL_LENGTH - 1,
    ensures
        r@ == initial_body(head),
{
    let mut body: Vec<Position> = Vec::new();
    let mut i: i32 = 1;
    while i < INITIAL_LENGTH
        invariant
            1 <= i <= INITIAL_LENGTH,
            head.x >= INITIAL_LENGTH - 1,
            body@ == initial_body(head).subrange(0, i - 1),
        decreases INITIAL_LENGTH - i,
    {
        body.push(Position { x: head.x - i, y: head.y });
        i = i + 1;
        assert(body@ =~= initial_body(head).subrange(0, i - 1));
    }
    assert(body@ =~= initial_body(head));
    body
}

/// The fresh snake of a `width` by `height` grid lies on it, off its head.
proof fn lemma_initial_layout(width: int, height: int)
    requires
        fits(width, height),
        width <= i32::MAX,
        height <= i32::MAX,
    ensures
        forall|i: int|
            0 <= i < initial_body(center(width, height)).len() ==> #[trigger] on_grid(
                initial_body(center(width, height))[i],
                width,
                height,
            ),
        !initial_body(center(width, height)).contains(center(width, height)),
        on_grid(center(width, height), width, height),
{
    let head = center(width, height);
    let body = initial_body(head);
    assert forall|i: int| 0 <= i < body.len() implies #[trigger] on_grid(body[i], width, height)
        && body[i] != head by {}
}

impl GameEngine {
    /// A game in the menu on an empty `width` by `height` grid, with a fresh
    /// snake waiting at the center (not painted yet) and no score.
    ///
    /// Fails with `InvalidDimensions` unless the size is positive and the
    /// grid is wide enough for a fresh snake left of its center.
    pub fn new(width: i32, height: i32) -> (r: Result<GameEngine, GameError>)
        requires
            width as int * height as int <= usize::MAX,
        ensures
            !fits(width as int, height as int) <==> r is Err,
            r matches Err(e) ==> e == GameError::InvalidDimensions,
            r matches Ok(g) ==> {
                &&& g.wf()
                &&& g@ == (GameView {
                    grid: filled(width as int, height as int, Cell::Empty),
                    state: GameState::Menu,
                    since_move: 0,
                    head: center(width as int, height as int),
                    body: initial_body(center(width as int, height as int)),
                    direction: Direction::Right,
                    food: Position { x: 0, y: 0 },
                    score: 0,
                    best: 0,
                })
            },
    {
        if width <= 0 || height <= 0 || width / 2 < INITIAL_LENGTH - 1 {
            return Err(GameError::InvalidDimensions);
        }
        let grid = match GridWorld::new(width, height) {
            Ok(g) => g,
            Err(e) => return Err(e),
        };
        let head = Position { x: width / 2, y: height / 2 };
        let body = initial_snake(head);
        proof {
            lemma_initial_layout(width as int, height as int);
        }
        Ok(GameEngine {
            grid,
            state: GameState::Menu,
            since_move: 0,
            head,
            body,
            direction: Direction::Right,
            food: Position { x: 0, y: 0 },
            current_score: 0,
            best_score: 0,
        })
    }

    /// A game in play on a `width` by `height` grid with the given snake,
    /// heading and food, painted, with no score yet.
    ///
    /// Fails with `InvalidDimensions` where `new` would, and with
    /// `InvalidLayout` unless the layout is playable.
    pub fn from_parts(
        width: i32,
        height: i32,
        head: Position,
        body: Vec<Position>,
        direction: Direction,
        food: Position,
    ) -> (r: Result<GameEngine, GameError>)
        requires
            width as int * height as int <= usize::MAX,
        ensures
            !fits(width as int, height as int) <==> r == Err::<GameEngine, GameError>(
                GameError::InvalidDimensions,
            ),
            fits(width as int, height as int) ==> (!layout_ok(
                width as int,
                height as int,
                head,
                body@,
                food,
            ) <==> r == Err::<GameEngine, GameError>(GameError::InvalidLayout)),
            r matches Ok(g) ==> {
                &&& g.wf()
                &&& g@ == (GameView {
                    grid: scene(width as int, height as int, head, body@, food),
                    state: GameState::Playing,
                    since_move: 0,
                    head,
                    body: body@,
                    direction,
                    food,
                    score: 0,
                    best: 0,
                })
            },
    {
        let mut g = match GameEngine::new(width, height) {
            Ok(g) => g,
            Err(e) => return Err(e),
        };
        if !g.grid.in_bounds(head.x, head.y) || !g.grid.in_bounds(food.x, food.y) || body.len()
            == 0 {
            return Err(GameError::InvalidLayout);
        }
        let n: usize = body.len();
        let mut i: usize = 0;
        while i < n
            invariant
                i <= n,
                n == body@.len(),
                g.wf(),
                g@.grid.width == width,
                g@.grid.height == height,
                forall|k: int|
                    0 <= k < i ==> on_grid(#[trigger] body@[k], width as int, height as int)
                        && body@[k] != head,
            decreases n - i,
        {
            let seg = body[i];
            if !g.grid.in_bounds(seg.x, seg.y) || seg == head {
                return Err(GameError::InvalidLayout);
            }
            i = i + 1;
        }
        g.head = head;
        g.body = body;
        g.direction = direction;
        g.food = food;
        g.state = GameState::Playing;
        g.repaint();
        Ok(g)
    }

    /// A position drawn at random on the grid, for the next food.
    fn roll_food(&self) -> (r: Position)
        requires
            self.wf(),
        ensures
            self@.grid.contains(r),
    {
        let (w, h) = self.grid.size();
        let x = random_below(w);
        let y = random_below(h);
        Position { x, y }
    }

    /// Starts a new session with the food at `roll`: score and clock at
    /// zero, heading right, a fresh snake at the center, the grid repainted.
    /// The best score stays.
    pub fn start_game_with(&mut self, roll: Position)
        requires
            old(self).wf(),
            old(self)@.grid.contains(roll),
        ensures
            final(self).wf(),
            final(self)@ == old(self)@.reset(roll),
    {
        let (w, h) = self.grid.size();
        let head = Position { x: w / 2, y: h / 2 };
        proof {
            lemma_initial_layout(w as int, h as int);
        }
        self.body = initial_snake(head);
        self.head = head;
        self.direction = Direction::Right;
        self.since_move = 0;
        self.current_score = 0;
        self.food = roll;
        self.state = GameState::Playing;
        self.repaint();
    }

    /// Starts a new session with the food at a random cell.
    pub fn start_game(&mut self)
        requires
            old(self).wf(),
        ensures
            final(self).wf(),
            final(self)@ == old(self)@.reset(final(self)@.food),
    {
        let roll = self.roll_food();
        self.start_game_with(roll);
    }

    /// The same full reset as `start_game`.
    pub fn restart_game(&mut self)
        requires
            old(self).wf(),
        ensures
            final(self).wf(),
            final(self)@ == old(self)@.reset(final(self)@.food),
    {
        self.start_game();
    }

    /// One discrete move step; food that is eaten reappears at a random cell.
    pub fn move_snake(&mut self)
        requires
            old(self).wf(),
        ensures
            final(self).wf(),
            exists|roll: Position| #[trigger]
                old(self)@.grid.contains(roll) && final(self)@ == old(self)@.moved(roll),
    {
        let roll = self.roll_food();
        self.move_snake_with(roll);
    }

    /// Takes heading `desired` unless it is the reverse of the current one.
    pub fn try_set_direction(&mut self, desired: Direction)
        requires
            old(self).wf(),
        ensures
            final(self).wf(),
            final(self)@ == old(self)@.turned(desired),
    {
        if self.direction != desired.reverse() {
            self.direction = desired;
        }
    }

    pub fn pause_game(&mut self)
        requires
            old(self).wf(),
        ensures
            final(self).wf(),
            final(self)@ == (GameView { state: GameState::Paused, ..old(self)@ }),
    {
        self.state = GameState::Paused;
    }

    pub fn continue_game(&mut self)
        requires
            old(self).wf(),
        ensures
            final(self).wf(),
            final(self)@ == (GameView { state: GameState::Playing, ..old(self)@ }),
    {
        self.state = GameState::Playing;
    }

    /// Ends the session; the best score becomes the current one if that is larger.
    pub fn end_game(&mut self)
        requires
            old(self).wf(),
        ensures
            final(self).wf(),
            final(self)@ == old(self)@.finished(GameState::Ended),
    {
        self.finish(GameState::Ended);
    }

    /// Advances the clock by `delta` microseconds while in play, and makes
    /// one move step (with `roll` for new food) once a full move interval
    /// has gone by since the last one.
    pub fn tick_with(&mut self, delta: u64, roll: Position)
        requires
            old(self).wf(),
            old(self)@.grid.contains(roll),
        ensures
            final(self).wf(),
            final(self)@ == old(self)@.ticked(delta as int, roll),
    {
        if self.state != GameState::Playing {
            return;
        }
        if delta < MOVE_INTERVAL - self.since_move {
            self.since_move = self.since_move + delta;
        } else {
            self.since_move = 0;
            self.move_snake_with(roll);
        }
    }

    /// `tick_with`, with any food eaten reappearing at a random cell.
    pub fn tick(&mut self, delta: u64)
        requires
            old(self).wf(),
        ensures
            final(self).wf(),
            exists|roll: Position| #[trigger]
                old(self)@.grid.contains(roll) && final(self)@ == old(self)@.ticked(delta as int, roll),
    {
        let roll = self.roll_food();
        self.tick_with(delta, roll);
    }

    /// Applies a player's action where the current state accepts it, with
    /// `roll` as the food of a session it starts; other actions are ignored.
    pub fn process_action_with(&mut self, action: Action, roll: Position)
        requires
            old(self).wf(),
            old(self)@.grid.contains(roll),
        ensures
            final(self).wf(),
            final(self)@ == old(self)@.acted(action, roll),
    {
        match self.state {
            GameState::Menu => match action {
                Action::Start => self.start_game_with(roll),
                _ => {},
            },
            GameState::Playing => match action {
                Action::Pause => self.pause_game(),
                Action::End => self.end_game(),
                Action::Restart => self.start_game_with(roll),
                Action::MoveUp => self.try_set_direction(Direction::Up),
                Action::MoveDown => self.try_set_direction(Direction::Down),
                Action::MoveLeft => self.try_set_direction(Direction::Left),
                Action::MoveRight => self.try_set_direction(Direction::Right),
                _ => {},
            },
            GameState::Paused => match action {
                Action::Continue => self.continue_game(),
                Action::Restart => self.start_game_with(roll),
                Action::End => self.end_game(),
                _ => {},
            },
            GameState::GameOver => match action {
                Action::Start | Action::Continue | Action::Restart => self.start_game_with(roll),
                _ => {},
            },
            GameState::Ended => {},
        }
    }

    /// `process_action_with`, with the food of a new session at a random cell.
    pub fn process_action(&mut self, action: Action)
        requires
            old(self).wf(),
        ensures
            final(self).wf(),
            exists|roll: Position| #[trigger]
                old(self)@.grid.contains(roll) && final(self)@ == old(self)@.acted(action, roll),
    {
        let roll = self.roll_food();
        self.process_action_with(action, roll);
    }

    pub fn state(&self) -> (r: GameState)
        ensures
            r == self@.state,
    {
        self.state
    }

    pub fn head(&self) -> (r: Position)
        ensures
            r == self@.head,
    {
        self.head
    }

    /// The body segments, from the one behind the head to the tail.
    pub fn body(&self) -> (r: &Vec<Position>)
        ensures
            r@ == self@.body,
    {
        &self.body
    }

    pub fn direction(&self) -> (r: Direction)
        ensures
            r == self@.direction,
    {
        self.direction
    }

    pub fn food(&self) -> (r: Position)
        ensures
            r == self@.food,
    {
        self.food
    }

    pub fn current_score(&self) -> (r: u64)
        ensures
            r == self@.score,
    {
        self.current_score
    }

    pub fn best_score(&self) -> (r: u64)
        ensures
            r == self@.best,
    {
        self.best_score
    }

    /// The grid as last painted, for a renderer to read.
    pub fn grid(&self) -> (r: &GridWorld)
        requires
            self.wf(),
        ensures
            r.wf(),
            r@ == self@.grid,
    {
        &self.grid
    }

    /// The grid's `(width, height)`.
    pub fn world_size(&self) -> (r: (i32, i32))
        ensures
            r.0 == self@.grid.width,
            r.1 == self@.grid.height,
    {
        self.grid.size()
    }
}

} // verus!
