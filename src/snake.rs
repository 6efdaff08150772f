use vstd::prelude::*;

use crate::direction::Direction;

verus! {

/// Width of the playing field, in cells.
pub const GRID_WIDTH: usize = 40;

/// Height of the playing field, in cells.
pub const GRID_HEIGHT: usize = 40;

/// Most segments a snake can have: one per cell of the field.
pub const CAPACITY: usize = GRID_WIDTH * GRID_HEIGHT;

/// A cell of the field, as (x, y).
pub open spec fn in_grid(c: (int, int)) -> bool {
    0 <= c.0 < GRID_WIDTH && 0 <= c.1 < GRID_HEIGHT
}

/// The field together with a one-cell margin around it: every cell that a
/// head on the field can reach in one move.
pub open spec fn in_reach(c: (int, int)) -> bool {
    -1 <= c.0 <= GRID_WIDTH && -1 <= c.1 <= GRID_HEIGHT
}

/// The cell one move from `c` towards `d`.
pub open spec fn next_cell(c: (int, int), d: Direction) -> (int, int) {
    (c.0 + d.dx_spec(), c.1 + d.dy_spec())
}

/// The snake's body: two parallel fixed-size coordinate arrays used as a ring.
///
/// The live segments sit in slots `0..length`. Slot `head` holds the head;
/// going backwards from it (wrapping from slot 0 to slot `length - 1`) gives
/// the rest of the body in order, so the slot after `head` holds the tail.
/// Moving overwrites the tail slot with the new head; growing opens a slot
/// right after the head.
pub struct Snake {
    xs: Vec<i32>,
    ys: Vec<i32>,
    length: usize,
    head: usize,
    direction: Direction,
}

impl View for Snake {
    /// The segments, from the head (index 0) to the tail.
    type V = Seq<(int, int)>;

    closed spec fn view(&self) -> Seq<(int, int)> {
        Seq::new(self.length as nat, |k: int| self.cell(self.slot(k)))
    }
}

impl Snake {
    /// The slot that holds the segment `k` places behind the head.
    closed spec fn slot(&self, k: int) -> int {
        if k <= self.head {
            self.head - k
        } else {
            self.head - k + self.length
        }
    }

    closed spec fn cell(&self, i: int) -> (int, int) {
        (self.xs@[i] as int, self.ys@[i] as int)
    }

    /// The arrays have full capacity and `head` is a live slot.
    pub closed spec fn layout_ok(&self) -> bool {
        &&& self.xs@.len() == CAPACITY
        &&& self.ys@.len() == CAPACITY
        &&& 1 <= self.length <= CAPACITY
        &&& self.head < self.length
    }

    /// The direction of the next move.
    pub closed spec fn heading(&self) -> Direction {
        self.direction
    }

    /// Well-formedness: a non-empty body within capacity, every segment on
    /// the field or its margin.
    pub open spec fn wf(&self) -> bool {
        &&& self.layout_ok()
        &&& 1 <= self@.len() <= CAPACITY
        &&& forall|k: int| 0 <= k < self@.len() ==> in_reach(#[trigger] self@[k])
    }

    /// The cell that the head moves to next.
    pub open spec fn next_head(&self) -> (int, int) {
        next_cell(self@[0], self.heading())
    }

    /// The starting snake: four segments on the top row, from (0, 0) to the
    /// head at (3, 0), heading right.
    pub fn new() -> (s: Snake)
        ensures
            s.wf(),
            s@ == seq![(3int, 0int), (2int, 0int), (1int, 0int), (0int, 0int)],
            s.heading() == Direction::Right,
    {
        let mut xs: Vec<i32> = vec![0i32; CAPACITY];
        let ys: Vec<i32> = vec![0i32; CAPACITY];
        xs.set(1, 1);
        xs.set(2, 2);
        xs.set(3, 3);
        let s = Snake { xs, ys, length: 4, head: 3, direction: Direction::Right };
        assert(s@ =~= seq![(3int, 0int), (2int, 0int), (1int, 0int), (0int, 0int)]);
        s
    }

    /// The head cell.
    pub fn head_cell(&self) -> (r: (i32, i32))
        requires
            self.wf(),
        ensures
            (r.0 as int, r.1 as int) == self@[0],
    {
        (self.xs[self.head], self.ys[self.head])
    }

    /// The segment `k` places behind the head.
    pub fn segment(&self, k: usize) -> (r: (i32, i32))
        requires
            self.wf(),
            k < self@.len(),
        ensures
            (r.0 as int, r.1 as int) == self@[k as int],
    {
        let i: usize = if k <= self.head {
            self.head - k
        } else {
            self.head + self.length - k
        };
        (self.xs[i], self.ys[i])
    }

    /// The number of segments.
    pub fn len(&self) -> (r: usize)
        requires
            self.wf(),
        ensures
            r == self@.len(),
    {
        self.length
    }

    /// The direction of the next move.
    pub fn direction(&self) -> (r: Direction)
        ensures
            r == self.heading(),
    {
        self.direction
    }

    /// Points the snake towards `d`.
    pub fn set_direction(&mut self, d: Direction)
        ensures
            final(self)@ == old(self)@,
            final(self).layout_ok() == old(self).layout_ok(),
            final(self).heading() == d,
    {
        self.direction = d;
    }

    /// Whether the head shares its cell with any other segment.
    ///
    /// Only the head is compared with the others: the moves of the game never
    /// bring two other segments together.
    pub fn eats_himself(&self) -> (r: bool)
        requires
            self.wf(),
        ensures
            r == exists|k: int| 1 <= k < self@.len() && #[trigger] self@[k] == self@[0],
    {
        let hx = self.xs[self.head];
        let hy = self.ys[self.head];
        let mut i: usize = 0;
        while i < self.length
            invariant
                self.wf(),
                hx == self.xs@[self.head as int],
                hy == self.ys@[self.head as int],
                0 <= i <= self.length,
                forall|j: int|
                    0 <= j < i && j != self.head ==> #[trigger] self.cell(j) != self.cell(self.head as int),
            decreases self.length - i,
        {
            if i != self.head && self.xs[i] == hx && self.ys[i] == hy {
                assert(self@[self.back(i as int)] == self@[0]);
                return true;
            }
            i += 1;
        }
        assert forall|k: int| 1 <= k < self@.len() implies #[trigger] self@[k] != self@[0] by {
            assert(self.cell(self.slot(k)) != self.cell(self.head as int));
        }
        false
    }

    /// How many places behind the head slot `i` is.
    closed spec fn back(&self, i: int) -> int {
        if i <= self.head {
            self.head - i
        } else {
            self.head + self.length - i
        }
    }

    /// Whether the head lies outside `[0, width) x [0, height)`.
    pub fn is_out_of_bounds(&self, width: usize, height: usize) -> (r: bool)
        requires
            self.wf(),
        ensures
            r == !(0 <= self@[0].0 < width && 0 <= self@[0].1 < height),
    {
        let x = self.xs[self.head];
        let y = self.ys[self.head];
        x < 0 || x as usize >= width || y < 0 || y as usize >= height
    }

    /// Moves one cell in the current direction: the new head is written over
    /// the tail's slot, so the length stays the same and nothing is shifted.
    pub fn move_ahead(&mut self)
        requires
            old(self).wf(),
            in_grid(old(self)@[0]),
        ensures
            final(self).wf(),
            final(self)@ == seq![old(self).next_head()] + old(self)@.drop_last(),
            final(self)@.len() == old(self)@.len(),
            final(self).heading() == old(self).heading(),
    {
        let next_x = self.xs[self.head] + self.direction.dx();
        let next_y = self.ys[self.head] + self.direction.dy();
        let ghost prev = *self;
        if self.head == self.length - 1 {
            self.head = 0;
        } else {
            self.head += 1;
        }
        self.xs.set(self.head, next_x);
        self.ys.set(self.head, next_y);
        let ghost target = seq![prev.next_head()] + prev@.drop_last();
        assert forall|k: int| 0 <= k < self@.len() implies #[trigger] self@[k] == target[k] by {
            if k > 0 {
                assert(self.slot(k) != self.head);
                assert(self.slot(k) == prev.slot(k - 1));
            }
        }
        assert(self@ =~= target);
    }

    /// Grows by one cell in the current direction: the segments after the
    /// head's slot move up one slot and the new head goes into the slot so
    /// opened, right after the old head.
    pub fn grow(&mut self)
        requires
            old(self).wf(),
            in_grid(old(self)@[0]),
            old(self)@.len() < CAPACITY,
        ensures
            final(self).wf(),
            final(self)@ == seq![old(self).next_head()] + old(self)@,
            final(self)@.len() == old(self)@.len() + 1,
            final(self)@.drop_first() == old(self)@,
            old(self)@.no_duplicates() ==> final(self)@.drop_first().no_duplicates(),
            final(self).heading() == old(self).heading(),
    {
        let next_x = self.xs[self.head] + self.direction.dx();
        let next_y = self.ys[self.head] + self.direction.dy();
        let ghost prev = *self;
        let mut i: usize = self.length;
        while i > self.head + 1
            invariant
                prev.wf(),
                self.head == prev.head,
                self.length == prev.length,
                self.direction == prev.direction,
                self.head + 1 <= i <= self.length,
                self.xs@.len() == CAPACITY,
                self.ys@.len() == CAPACITY,
                self.length < CAPACITY,
                forall|j: int| 0 <= j <= i ==> #[trigger] self.xs@[j] == prev.xs@[j],
                forall|j: int| 0 <= j <= i ==> #[trigger] self.ys@[j] == prev.ys@[j],
                forall|j: int| i < j <= self.length ==> #[trigger] self.xs@[j] == prev.xs@[j - 1],
                forall|j: int| i < j <= self.length ==> #[trigger] self.ys@[j] == prev.ys@[j - 1],
            decreases i,
        {
            let x = self.xs[i - 1];
            let y = self.ys[i - 1];
            self.xs.set(i, x);
            self.ys.set(i, y);
            i -= 1;
        }
        self.xs.set(self.head + 1, next_x);
        self.ys.set(self.head + 1, next_y);
        self.head += 1;
        self.length += 1;
        let ghost target = seq![prev.next_head()] + prev@;
        assert forall|k: int| 0 <= k < self@.len() implies #[trigger] self@[k] == target[k] by {
            if k > 0 {
                let j = self.slot(k);
                if k <= self.head {
                    assert(j == prev.slot(k - 1));
                    assert(self.xs@[j] == prev.xs@[j] && self.ys@[j] == prev.ys@[j]);
                } else {
                    assert(j == prev.slot(k - 1) + 1);
                    assert(self.xs@[j] == prev.xs@[j - 1] && self.ys@[j] == prev.ys@[j - 1]);
                }
            }
        }
        assert(self@ =~= target);
        assert(self@.drop_first() =~= prev@);
    }
}

} // verus!
