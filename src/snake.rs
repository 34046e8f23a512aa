use vstd::prelude::*;

verus! {

/// A heading on the grid. `Up` decreases `y`, `Right` increases `x`.
#[derive(Debug, Clone, Copy, PartialEq, Eq, Structural)]
pub enum Direction {
    Up,
    Down,
    Right,
    Left,
}

/// The heading that reverses `d`.
pub open spec fn opposite_of(d: Direction) -> Direction {
    match d {
        Direction::Up => Direction::Down,
        Direction::Down => Direction::Up,
        Direction::Right => Direction::Left,
        Direction::Left => Direction::Right,
    }
}

/// The cell one step from `(x, y)` in direction `d`.
pub open spec fn step(x: int, y: int, d: Direction) -> (int, int) {
    match d {
        Direction::Up => (x, y - 1),
        Direction::Down => (x, y + 1),
        Direction::Right => (x + 1, y),
        Direction::Left => (x - 1, y),
    }
}

/// Whether both coordinates of `c` fit in an `i32`.
pub open spec fn fits_i32(c: (int, int)) -> bool {
    i32::MIN <= c.0 <= i32::MAX && i32::MIN <= c.1 <= i32::MAX
}

impl Direction {
    pub fn opposite(&self) -> (r: Direction)
        ensures
            r == opposite_of(*self),
    {
        match *self {
            Direction::Up => Direction::Down,
            Direction::Down => Direction::Up,
            Direction::Right => Direction::Left,
            Direction::Left => Direction::Right,
        }
    }
}

/// One cell of the grid.
#[derive(Debug, Clone, Copy, PartialEq, Eq, Structural)]
pub struct Block {
    pub x: i32,
    pub y: i32,
}

impl Block {
    pub open spec fn cell(self) -> (int, int) {
        (self.x as int, self.y as int)
    }
}

/// The block standing at cell `c`, which must fit in `i32`.
pub open spec fn block_at(c: (int, int)) -> Block {
    Block { x: c.0 as i32, y: c.1 as i32 }
}

/// What a snake is: its heading, its body from head (index 0) to tail, and the
/// segment that the last forward step removed.
pub struct SnakeView {
    pub direction: Direction,
    pub body: Seq<Block>,
    pub tail: Option<Block>,
}

impl SnakeView {
    pub open spec fn head(self) -> Block {
        self.body[0]
    }

    /// The heading after a step that may override the current one.
    pub open spec fn next_direction(self, dir: Option<Direction>) -> Direction {
        match dir {
            Some(d) => d,
            None => self.direction,
        }
    }

    /// The cell the head would enter on a step with heading override `dir`.
    pub open spec fn next_cell(self, dir: Option<Direction>) -> (int, int) {
        step(self.head().x as int, self.head().y as int, self.next_direction(dir))
    }

    /// A step with override `dir` is possible: the body is not empty and the
    /// next cell fits in `i32`.
    pub open spec fn can_step(self, dir: Option<Direction>) -> bool {
        self.body.len() > 0 && fits_i32(self.next_cell(dir))
    }

    /// Some segment other than the last one stands at `c`.
    pub open spec fn occupies(self, c: (int, int)) -> bool {
        exists|i: int| 0 <= i < self.body.len() - 1 && (#[trigger] self.body[i]).cell() == c
    }

    /// The snake after one forward step with heading override `dir`.
    pub open spec fn moved(self, dir: Option<Direction>) -> SnakeView {
        SnakeView {
            direction: self.next_direction(dir),
            body: seq![block_at(self.next_cell(dir))] + self.body.drop_last(),
            tail: Some(self.body.last()),
        }
    }

    /// The snake with the removed segment appended again at its back.
    pub open spec fn restored(self) -> SnakeView {
        SnakeView { body: self.body.push(self.tail.unwrap()), ..self }
    }
}

/// The snake's starting body for start cell `(x, y)`: head at `(x + 2, y)`,
/// tail at `(x, y)`.
pub open spec fn start_body(x: int, y: int) -> Seq<Block> {
    seq![block_at((x + 2, y)), block_at((x + 1, y)), block_at((x, y))]
}

#[derive(Debug)]
pub struct Snake {
    pub direction: Direction,
    pub body: Vec<Block>,
    pub tail: Option<Block>,
}

impl View for Snake {
    type V = SnakeView;

    open spec fn view(&self) -> SnakeView {
        SnakeView { direction: self.direction, body: self.body@, tail: self.tail }
    }
}

impl Snake {
    /// A snake of three segments from `(x, y)` to the head at `(x + 2, y)`,
    /// heading right.
    pub fn new(x: i32, y: i32) -> (r: Snake)
        requires
            x + 2 <= i32::MAX,
        ensures
            r@.direction == Direction::Right,
            r@.body == start_body(x as int, y as int),
            r@.tail.is_none(),
    {
        let mut body: Vec<Block> = Vec::new();
        let mut i: i32 = 3;
        while i > 0
            invariant
                0 <= i <= 3,
                x + 2 <= i32::MAX,
                body@.len() == 3 - i,
                forall|k: int| 0 <= k < body@.len() ==> #[trigger] body@[k] == block_at((x + 2 - k, y as int)),
            decreases i,
        {
            i = i - 1;
            body.push(Block { x: x + i, y });
        }
        assert(body@ =~= start_body(x as int, y as int));
        Snake { direction: Direction::Right, body, tail: None }
    }

    pub fn head_position(&self) -> (r: (i32, i32))
        requires
            self@.body.len() > 0,
        ensures
            r.0 == self@.head().x,
            r.1 == self@.head().y,
    {
        let head = self.body[0];
        (head.x, head.y)
    }

    pub fn head_direction(&self) -> (r: Direction)
        ensures
            r == self@.direction,
    {
        self.direction
    }

    /// Where the head would go with heading override `dir`; the snake is not
    /// changed.
    pub fn next_head(&self, dir: Option<Direction>) -> (r: (i32, i32))
        requires
            self@.can_step(dir),
        ensures
            (r.0 as int, r.1 as int) == self@.next_cell(dir),
    {
        let (x, y) = self.head_position();
        let moving = match dir {
            Some(d) => d,
            None => self.direction,
        };
        match moving {
            Direction::Up => (x, y - 1),
            Direction::Down => (x, y + 1),
            Direction::Right => (x + 1, y),
            Direction::Left => (x - 1, y),
        }
    }

    /// Takes `dir` as the heading if given, pushes the next head cell to the
    /// front and moves the back segment into the removed-tail slot.
    pub fn move_foward(&mut self, dir: Option<Direction>)
        requires
            old(self)@.can_step(dir),
        ensures
            final(self)@ == old(self)@.moved(dir),
    {
        let (x, y) = self.next_head(dir);
        if let Some(d) = dir {
            self.direction = d;
        }
        self.body.insert(0, Block { x, y });
        let removed = self.body.pop();
        self.tail = removed;
        assert(self.body@ =~= old(self)@.moved(dir).body);
    }

    /// Appends the removed segment at the back of the body.
    pub fn restore_tail(&mut self)
        requires
            old(self)@.tail.is_some(),
        ensures
            final(self)@ == old(self)@.restored(),
    {
        if let Some(blk) = self.tail {
            self.body.push(blk);
        }
    }

    /// Whether `(x, y)` is the cell of some segment other than the last one.
    pub fn overlap_tails(&self, x: i32, y: i32) -> (r: bool)
        ensures
            r == self@.occupies((x as int, y as int)),
    {
        let n = self.body.len();
        if n == 0 {
            return false;
        }
        let mut i: usize = 0;
        while i < n - 1
            invariant
                n == self.body@.len(),
                0 <= i <= n - 1,
                forall|k: int| 0 <= k < i ==> (#[trigger] self.body@[k]).cell() != (x as int, y as int),
            decreases n - 1 - i,
        {
            let b = self.body[i];
            if b.x == x && b.y == y {
                assert(self@.body[i as int].cell() == (x as int, y as int));
                return true;
            }
            i = i + 1;
        }
        false
    }
}

} // verus!
