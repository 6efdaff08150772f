use vstd::prelude::*;

use crate::direction::Direction;
use crate::snake::{in_grid, in_reach, next_cell, Snake, CAPACITY, GRID_HEIGHT, GRID_WIDTH};

verus! {

/// Side of one cell on the canvas, in pixels.
pub const CELL_SIZE: i32 = 10;

/// Colour of the field.
pub const COLOR_BACKGROUND: u32 = 0x00000000;

/// Colour of the snake.
pub const COLOR_SNAKE: u32 = 0x00ff00;

/// Colour of the apple.
pub const COLOR_APPLE: u32 = 0xff0000;

/// Input code for the up arrow.
pub const KEY_CODE_ARROW_UP: u32 = 0;

/// Input code for the down arrow.
pub const KEY_CODE_ARROW_DOWN: u32 = 1;

/// Input code for the left arrow.
pub const KEY_CODE_ARROW_LEFT: u32 = 2;

/// Input code for the right arrow.
pub const KEY_CODE_ARROW_RIGHT: u32 = 3;

/// Time between two ticks at the start of a game.
pub const INITIAL_STEP_PERIOD: i32 = 300;

/// How much shorter the time between ticks gets with each apple.
pub const STEP_PERIOD_DECREMENT: i32 = 25;

/// The time between ticks is only shortened while it is above this.
pub const MIN_STEP_PERIOD: i32 = 50;

/// Points for the first apple.
pub const FIRST_REWARD: i32 = 10;

/// How much more each further apple is worth than the one before.
pub const REWARD_INCREMENT: i32 = 10;

/// One command for the canvas.
#[derive(Clone, Copy, Debug, PartialEq, Eq, Structural)]
pub enum DrawCall {
    /// Sets the colour of the rectangles that follow.
    SetFillStyle(u32),
    /// Fills a rectangle, in pixels.
    FillRect(i32, i32, i32, i32),
    /// Shows what was drawn.
    Fill,
}

/// What a tick did, for the host to pass on.
#[derive(Clone, Copy, Debug, PartialEq, Eq)]
pub struct StepOutcome {
    /// The snake ate the apple: the host places a new one.
    pub ate_apple: bool,
    /// The new time between ticks, when it changed.
    pub new_period: Option<i32>,
    /// The new score, when it changed.
    pub new_score: Option<i32>,
    /// The head left the field or ran into the body: the game is over.
    pub game_over: bool,
}

/// The abstract state of a game.
pub struct GameView {
    /// The snake's segments, head first.
    pub body: Seq<(int, int)>,
    /// The direction of the next move.
    pub heading: Direction,
    /// The apple's cell.
    pub apple: (int, int),
    /// The time between ticks.
    pub step_period: int,
    /// The points scored so far.
    pub score: int,
    /// What the next apple is worth.
    pub next_reward: int,
    /// The last tick ended the game.
    pub over: bool,
}

/// The direction that an input code stands for.
pub open spec fn key_direction(code: u32) -> Direction {
    if code == KEY_CODE_ARROW_UP {
        Direction::Up
    } else if code == KEY_CODE_ARROW_DOWN {
        Direction::Down
    } else if code == KEY_CODE_ARROW_LEFT {
        Direction::Left
    } else {
        Direction::Right
    }
}

/// The time between ticks after `eaten` apples: one decrement per apple,
/// down to the floor.
pub open spec fn period_after(eaten: int) -> int {
    if INITIAL_STEP_PERIOD - STEP_PERIOD_DECREMENT * eaten > MIN_STEP_PERIOD {
        INITIAL_STEP_PERIOD - STEP_PERIOD_DECREMENT * eaten
    } else {
        MIN_STEP_PERIOD as int
    }
}

/// The head shares its cell with another segment.
pub open spec fn hits_itself(body: Seq<(int, int)>) -> bool {
    exists|k: int| 1 <= k < body.len() && #[trigger] body[k] == body[0]
}

/// The square that shows cell `c` on the canvas.
pub open spec fn cell_rect(c: (int, int)) -> DrawCall {
    DrawCall::FillRect((c.0 * CELL_SIZE) as i32, (c.1 * CELL_SIZE) as i32, CELL_SIZE, CELL_SIZE)
}

impl GameView {
    /// The cell that the head moves to next.
    pub open spec fn next_head(self) -> (int, int) {
        next_cell(self.body[0], self.heading)
    }

    /// The next move lands on the apple, and the body has room to grow.
    pub open spec fn eats_apple(self) -> bool {
        self.next_head() == self.apple && self.body.len() < CAPACITY
    }

    /// The state after one tick (before the host places a new apple).
    pub open spec fn ticked(self) -> GameView {
        let head = self.next_head();
        let eats = self.eats_apple();
        let body = if eats {
            seq![head] + self.body
        } else {
            seq![head] + self.body.drop_last()
        };
        GameView {
            body,
            heading: self.heading,
            apple: self.apple,
            step_period: if eats && self.step_period > MIN_STEP_PERIOD {
                self.step_period - STEP_PERIOD_DECREMENT
            } else {
                self.step_period
            },
            score: if eats {
                self.score + self.next_reward
            } else {
                self.score
            },
            next_reward: if eats {
                self.next_reward + REWARD_INCREMENT
            } else {
                self.next_reward
            },
            over: !in_grid(head) || hits_itself(body),
        }
    }

    /// The state after asking to turn towards `d`: a turn straight back is
    /// ignored.
    pub open spec fn turned(self, d: Direction) -> GameView {
        if d == self.heading.opposite() {
            self
        } else {
            GameView { heading: d, ..self }
        }
    }

    /// What a state always satisfies: score, reward and speed follow from
    /// the number of apples eaten, which is the growth beyond four segments;
    /// the apple is on the field, and so is the head while the game runs.
    pub open spec fn inv(self) -> bool {
        &&& 4 <= self.body.len() <= CAPACITY
        &&& self.next_reward == FIRST_REWARD + REWARD_INCREMENT * (self.body.len() - 4)
        &&& self.score == 5 * (self.body.len() - 4) * (self.body.len() - 3)
        &&& self.step_period == period_after(self.body.len() - 4)
        &&& in_grid(self.apple)
        &&& !self.over ==> in_grid(self.body[0])
    }

    /// The commands that draw this state: the field, every segment from the
    /// head to the tail, the apple, then the command that shows the frame.
    pub open spec fn frame(self) -> Seq<DrawCall> {
        seq![
            DrawCall::SetFillStyle(COLOR_BACKGROUND),
            DrawCall::FillRect(0, 0, (GRID_WIDTH * CELL_SIZE) as i32, (GRID_HEIGHT * CELL_SIZE) as i32),
            DrawCall::SetFillStyle(COLOR_SNAKE),
        ] + Seq::new(self.body.len(), |k: int| cell_rect(self.body[k])) + seq![
            DrawCall::SetFillStyle(COLOR_APPLE),
            cell_rect(self.apple),
            DrawCall::Fill,
        ]
    }
}

/// Clears the canvas to the background colour.
fn paint_background(out: &mut Vec<DrawCall>)
    ensures
        final(out)@ == old(out)@ + seq![
            DrawCall::SetFillStyle(COLOR_BACKGROUND),
            DrawCall::FillRect(0, 0, (GRID_WIDTH * CELL_SIZE) as i32, (GRID_HEIGHT * CELL_SIZE) as i32),
        ],
{
    out.push(DrawCall::SetFillStyle(COLOR_BACKGROUND));
    out.push(
        DrawCall::FillRect(0, 0, GRID_WIDTH as i32 * CELL_SIZE, GRID_HEIGHT as i32 * CELL_SIZE),
    );
}

/// The square of cell (x, y).
fn fill_cell(x: i32, y: i32) -> (r: DrawCall)
    requires
        in_reach((x as int, y as int)),
    ensures
        r == cell_rect((x as int, y as int)),
{
    DrawCall::FillRect(x * CELL_SIZE, y * CELL_SIZE, CELL_SIZE, CELL_SIZE)
}

/// Draws every segment of the snake, from the head to the tail.
fn paint_snake(snake: &Snake, out: &mut Vec<DrawCall>)
    requires
        snake.wf(),
    ensures
        final(out)@ == old(out)@ + seq![DrawCall::SetFillStyle(COLOR_SNAKE)] + Seq::new(
            snake@.len(),
            |k: int| cell_rect(snake@[k]),
        ),
{
    out.push(DrawCall::SetFillStyle(COLOR_SNAKE));
    let ghost start = out@;
    let n = snake.len();
    let mut k: usize = 0;
    while k < n
        invariant
            snake.wf(),
            n == snake@.len(),
            0 <= k <= n,
            out@ == start + Seq::new(k as nat, |i: int| cell_rect(snake@[i])),
        decreases n - k,
    {
        let (x, y) = snake.segment(k);
        assert(in_reach(snake@[k as int]));
        out.push(fill_cell(x, y));
        k += 1;
        assert(out@ =~= start + Seq::new(k as nat, |i: int| cell_rect(snake@[i])));
    }
}

/// Draws the apple on cell (x, y).
fn paint_apple(x: i32, y: i32, out: &mut Vec<DrawCall>)
    requires
        in_grid((x as int, y as int)),
    ensures
        final(out)@ == old(out)@ + seq![
            DrawCall::SetFillStyle(COLOR_APPLE),
            cell_rect((x as int, y as int)),
        ],
{
    out.push(DrawCall::SetFillStyle(COLOR_APPLE));
    out.push(fill_cell(x, y));
}

/// The starting state: the snake on cells (0, 0) to (3, 0) with its head at
/// (3, 0), heading right; the apple at (0, 0); no score yet.
pub open spec fn initial_view() -> GameView {
    GameView {
        body: seq![(3int, 0int), (2int, 0int), (1int, 0int), (0int, 0int)],
        heading: Direction::Right,
        apple: (0int, 0int),
        step_period: INITIAL_STEP_PERIOD as int,
        score: 0,
        next_reward: FIRST_REWARD as int,
        over: false,
    }
}

/// The state after `n` ticks from `v`, with no input in between.
pub open spec fn run(v: GameView, n: nat) -> GameView
    decreases n,
{
    if n == 0 {
        v
    } else {
        run(v, (n - 1) as nat).ticked()
    }
}

/// The state `n` ticks after the start, while the snake runs along the top
/// row.
spec fn straight_run_view(n: nat) -> GameView {
    GameView {
        body: seq![(n + 3int, 0int), (n + 2int, 0int), (n + 1int, 0int), (n as int, 0int)],
        over: n == GRID_WIDTH - 3,
        ..initial_view()
    }
}

proof fn lemma_run_straight(n: nat)
    requires
        n <= GRID_WIDTH - 3,
    ensures
        run(initial_view(), n) == straight_run_view(n),
    decreases n,
{
    if n > 0 {
        lemma_run_straight((n - 1) as nat);
        let prev = straight_run_view((n - 1) as nat);
        let next = prev.ticked();
        let b = straight_run_view(n).body;
        assert(!prev.eats_apple());
        assert(next.body =~= b);
        assert(!hits_itself(b)) by {
            assert forall|k: int| 1 <= k < b.len() implies #[trigger] b[k] != b[0] by {}
        }
        assert(next == straight_run_view(n));
    }
}

/// Left alone from the starting state, the snake moves right by one cell per
/// tick, and the game ends on exactly the tick on which its head reaches
/// `x == GRID_WIDTH`, just past the right edge.
pub proof fn lemma_straight_run(n: nat)
    requires
        1 <= n <= GRID_WIDTH - 3,
    ensures
        run(initial_view(), n).body[0] == (n + 3int, 0int),
        run(initial_view(), n).over <==> n == GRID_WIDTH - 3,
{
    lemma_run_straight(n);
}

/// A running game: the snake, the apple, the speed and the score.
pub struct GameState {
    snake: Snake,
    apple_x: i32,
    apple_y: i32,
    step_period: i32,
    score: i32,
    next_reward: i32,
    over: bool,
}

impl View for GameState {
    type V = GameView;

    closed spec fn view(&self) -> GameView {
        GameView {
            body: self.snake@,
            heading: self.snake.heading(),
            apple: (self.apple_x as int, self.apple_y as int),
            step_period: self.step_period as int,
            score: self.score as int,
            next_reward: self.next_reward as int,
            over: self.over,
        }
    }
}

impl GameState {
    /// Well-formedness of the representation and of the abstract state.
    pub closed spec fn wf(&self) -> bool {
        self.snake.wf() && self@.inv()
    }

    /// A new game, in the starting state.
    pub fn new() -> (g: GameState)
        ensures
            g.wf(),
            g@ == initial_view(),
    {
        let g = GameState {
            snake: Snake::new(),
            apple_x: 0,
            apple_y: 0,
            step_period: INITIAL_STEP_PERIOD,
            score: 0,
            next_reward: FIRST_REWARD,
            over: false,
        };
        assert(g@ == initial_view());
        g
    }

    /// Turns the snake towards `d`, unless `d` points straight back.
    fn change_snake_direction(&mut self, d: Direction)
        requires
            old(self).wf(),
        ensures
            final(self).wf(),
            final(self)@ == old(self)@.turned(d),
    {
        if self.snake.direction().is_opposite(d) {
            return;
        }
        self.snake.set_direction(d);
    }

    /// Handles an arrow key: turns the snake that way, but never straight
    /// back. Codes other than the four arrows are a fault of the host.
    pub fn on_key_down(&mut self, code: u32)
        requires
            old(self).wf(),
            code <= KEY_CODE_ARROW_RIGHT,
        ensures
            final(self).wf(),
            final(self)@ == old(self)@.turned(key_direction(code)),
            key_direction(code) == old(self)@.heading.opposite() ==> final(self)@ == old(self)@,
    {
        if code == KEY_CODE_ARROW_UP {
            self.change_snake_direction(Direction::Up);
        } else if code == KEY_CODE_ARROW_DOWN {
            self.change_snake_direction(Direction::Down);
        } else if code == KEY_CODE_ARROW_LEFT {
            self.change_snake_direction(Direction::Left);
        } else {
            self.change_snake_direction(Direction::Right);
        }
    }

    /// Whether the next move lands on the apple.
    fn snake_will_eat_apple(&self) -> (r: bool)
        requires
            self.wf(),
        ensures
            r == (self@.next_head() == self@.apple),
    {
        let (x, y) = self.snake.head_cell();
        let d = self.snake.direction();
        x + d.dx() == self.apple_x && y + d.dy() == self.apple_y
    }

    /// Shortens the time between ticks, while it is above the floor; returns
    /// the new value when it changed.
    fn speedup_game(&mut self) -> (r: Option<i32>)
        requires
            MIN_STEP_PERIOD <= old(self).step_period <= INITIAL_STEP_PERIOD,
        ensures
            final(self).step_period == (if old(self).step_period > MIN_STEP_PERIOD {
                old(self).step_period - STEP_PERIOD_DECREMENT
            } else {
                old(self).step_period as int
            }),
            r == (if old(self).step_period > MIN_STEP_PERIOD {
                Some(final(self).step_period)
            } else {
                None::<i32>
            }),
            final(self).snake == old(self).snake,
            final(self).apple_x == old(self).apple_x,
            final(self).apple_y == old(self).apple_y,
            final(self).score == old(self).score,
            final(self).next_reward == old(self).next_reward,
            final(self).over == old(self).over,
    {
        if self.step_period > MIN_STEP_PERIOD {
            self.step_period -= STEP_PERIOD_DECREMENT;
            Some(self.step_period)
        } else {
            None
        }
    }

    /// Adds the reward of this apple to the score and raises the next one.
    fn update_score(&mut self)
        requires
            0 <= old(self).score,
            0 <= old(self).next_reward,
            old(self).score + old(self).next_reward <= i32::MAX,
            old(self).next_reward + REWARD_INCREMENT <= i32::MAX,
        ensures
            final(self).score == old(self).score + old(self).next_reward,
            final(self).next_reward == old(self).next_reward + REWARD_INCREMENT,
            final(self).snake == old(self).snake,
            final(self).apple_x == old(self).apple_x,
            final(self).apple_y == old(self).apple_y,
            final(self).step_period == old(self).step_period,
            final(self).over == old(self).over,
    {
        self.score += self.next_reward;
        self.next_reward += REWARD_INCREMENT;
    }

    /// Puts the apple on cell (x, y), which the host draws at random.
    pub fn teleport_apple(&mut self, x: i32, y: i32)
        requires
            old(self).wf(),
            in_grid((x as int, y as int)),
        ensures
            final(self).wf(),
            final(self)@ == (GameView { apple: (x as int, y as int), ..old(self)@ }),
    {
        self.apple_x = x;
        self.apple_y = y;
    }

    /// One tick of the game. If the next move lands on the apple (and the
    /// snake has room to grow) the snake grows onto it, the game speeds up
    /// and the reward is added to the score; otherwise the snake moves on.
    /// Then the game is over if the head has left the field or run into the
    /// body. The host must stop ticking once the game is over, and place a
    /// new apple after one is eaten.
    pub fn step(&mut self, _timestamp: i32) -> (r: StepOutcome)
        requires
            old(self).wf(),
            !old(self)@.over,
        ensures
            final(self).wf(),
            final(self)@ == old(self)@.ticked(),
            r.ate_apple == old(self)@.eats_apple(),
            r.new_score == (if r.ate_apple {
                Some(final(self)@.score as i32)
            } else {
                None::<i32>
            }),
            r.new_period == (if r.ate_apple && old(self)@.step_period > MIN_STEP_PERIOD {
                Some(final(self)@.step_period as i32)
            } else {
                None::<i32>
            }),
            r.game_over == final(self)@.over,
    {
        let ghost prev = self@;
        let ate = self.snake_will_eat_apple() && self.snake.len() < CAPACITY;
        let mut new_period: Option<i32> = None;
        let mut new_score: Option<i32> = None;
        if ate {
            let ghost n = prev.body.len();
            assert(5 * (n - 4) * (n - 3) + 10 * (n - 3) == 5 * (n - 3) * (n - 2)) by (nonlinear_arith);
            assert(5 * (n - 3) * (n - 2) <= 5 * CAPACITY * CAPACITY) by (nonlinear_arith)
                requires
                    4 <= n < CAPACITY,
            ;
            self.snake.grow();
            new_period = self.speedup_game();
            self.update_score();
            new_score = Some(self.score);
        } else {
            self.snake.move_ahead();
        }
        let over = self.snake.is_out_of_bounds(GRID_WIDTH, GRID_HEIGHT) || self.snake.eats_himself();
        self.over = over;
        assert(self@.body == prev.ticked().body);
        assert(self@ == prev.ticked());
        StepOutcome { ate_apple: ate, new_period, new_score, game_over: over }
    }

    /// The commands that draw the current state; the host hands them to the
    /// canvas in order.
    pub fn repaint(&self) -> (r: Vec<DrawCall>)
        requires
            self.wf(),
        ensures
            r@ == self@.frame(),
    {
        let mut out: Vec<DrawCall> = Vec::new();
        paint_background(&mut out);
        paint_snake(&self.snake, &mut out);
        paint_apple(self.apple_x, self.apple_y, &mut out);
        out.push(DrawCall::Fill);
        assert(out@ =~= self@.frame());
        out
    }

    /// The snake.
    pub fn snake(&self) -> (r: &Snake)
        requires
            self.wf(),
        ensures
            r.wf(),
            r@ == self@.body,
            r.heading() == self@.heading,
    {
        &self.snake
    }

    /// The apple's cell.
    pub fn apple(&self) -> (r: (i32, i32))
        ensures
            (r.0 as int, r.1 as int) == self@.apple,
    {
        (self.apple_x, self.apple_y)
    }

    /// The time between ticks.
    pub fn step_period(&self) -> (r: i32)
        ensures
            r == self@.step_period,
    {
        self.step_period
    }

    /// The score so far.
    pub fn score(&self) -> (r: i32)
        ensures
            r == self@.score,
    {
        self.score
    }

    /// What the next apple is worth.
    pub fn next_reward(&self) -> (r: i32)
        ensures
            r == self@.next_reward,
    {
        self.next_reward
    }

    /// Whether the game is over.
    pub fn is_over(&self) -> (r: bool)
        ensures
            r == self@.over,
    {
        self.over
    }
}

} // verus!
