use vstd::prelude::*;

use crate::facing::{facing_after, Facing, Key};
use crate::position::{grid_ok, within, Position, Size};

verus! {

/// One step from `p` towards `f` stays within the range of `i32`.
pub open spec fn can_step(p: Position, f: Facing) -> bool {
    match f {
        Facing::Up => p.y > i32::MIN,
        Facing::Down => p.y < i32::MAX,
        Facing::Left => p.x > i32::MIN,
        Facing::Right => p.x < i32::MAX,
    }
}

/// The cell next to `p` in direction `f`; rows grow downwards.
pub open spec fn stepped(p: Position, f: Facing) -> Position {
    match f {
        Facing::Up => Position { x: p.x, y: (p.y - 1) as i32 },
        Facing::Down => Position { x: p.x, y: (p.y + 1) as i32 },
        Facing::Left => Position { x: (p.x - 1) as i32, y: p.y },
        Facing::Right => Position { x: (p.x + 1) as i32, y: p.y },
    }
}

/// The tail after the chain follows its leader: segment 0 takes the head's
/// old cell, and every later segment the old cell of the one before it.
pub open spec fn shifted_tail(head: Position, tail: Seq<Position>) -> Seq<Position> {
    Seq::new(tail.len(), |i: int| if i == 0 { head } else { tail[i - 1] })
}

/// The cell where a new game puts the head.
pub open spec fn center_of(size: Size<i32>) -> Position {
    Position { x: (size.width / 2) as i32, y: (size.height / 2) as i32 }
}

/// Movement depends on nothing but the facing and the positions: two snakes
/// that agree on them agree on the head and on the tail after a step.
pub proof fn lemma_movement_deterministic(a: Snake, b: Snake)
    requires
        a.facing == b.facing,
        a.head == b.head,
        a.tail@ == b.tail@,
    ensures
        stepped(a.head, a.facing) == stepped(b.head, b.facing),
        shifted_tail(a.head, a.tail@) == shifted_tail(b.head, b.tail@),
{
}

/// The head with its facing, and the tail segments in chain order: index 0
/// is the segment right behind the head.
#[derive(Clone, Debug)]
pub struct Snake {
    pub head: Position,
    pub facing: Facing,
    pub tail: Vec<Position>,
}

impl Snake {
    /// A snake of a head alone, facing up.
    pub fn new(head: Position) -> (r: Self)
        ensures
            r.head == head,
            r.facing == Facing::Up,
            r.tail@ == Seq::<Position>::empty(),
    {
        Snake { head, facing: Facing::Up, tail: Vec::new() }
    }

    /// Moves the head one cell towards its facing and shifts the tail after
    /// it; returns the cell the head left.
    pub fn move_snake(&mut self) -> (prev_head: Position)
        requires
            can_step(old(self).head, old(self).facing),
        ensures
            prev_head == old(self).head,
            final(self).head == stepped(old(self).head, old(self).facing),
            final(self).facing == old(self).facing,
            final(self).tail@ == shifted_tail(old(self).head, old(self).tail@),
    {
        let prev_head = self.head;
        match self.facing {
            Facing::Up => self.head.y = self.head.y - 1,
            Facing::Left => self.head.x = self.head.x - 1,
            Facing::Down => self.head.y = self.head.y + 1,
            Facing::Right => self.head.x = self.head.x + 1,
        }
        let ghost before = self.tail@;
        let ghost moved = *self;
        // `carry` is the cell that segment `i` moves to: the old cell of its
        // predecessor, read before that predecessor was overwritten.
        let mut carry = prev_head;
        let mut i: usize = 0;
        while i < self.tail.len()
            invariant
                i <= self.tail@.len(),
                self.head == moved.head,
                self.facing == moved.facing,
                self.tail@.len() == before.len(),
                carry == (if i == 0 { prev_head } else { before[i - 1] }),
                forall|j: int| 0 <= j < i ==> self.tail@[j] == shifted_tail(prev_head, before)[j],
                forall|j: int| i <= j < before.len() ==> self.tail@[j] == before[j],
            decreases before.len() - i,
        {
            let cur = self.tail[i];
            self.tail.set(i, carry);
            carry = cur;
            i += 1;
        }
        proof {
            assert(self.tail@ =~= shifted_tail(prev_head, before));
        }
        prev_head
    }
}

/// Whether the game goes on; a game that is over keeps its final score.
#[derive(Clone, Copy, Debug, PartialEq, Eq, Structural)]
pub enum Status {
    Running,
    GameOver { score: u32 },
}

/// The whole state of a game: the playfield's size in cells, the snake, the
/// fruit, the score and whether the game goes on.
#[derive(Clone, Debug)]
pub struct Game {
    pub grid: Size<i32>,
    pub snake: Snake,
    pub fruit: Position,
    pub score: u32,
    pub status: Status,
}

impl Game {
    /// The playfield has cells, the fruit lies on it, the score counts the
    /// tail's segments, a running game has its head on the playfield and a
    /// finished one records the score.
    pub open spec fn wf(&self) -> bool {
        &&& grid_ok(self.grid)
        &&& within(self.fruit, self.grid)
        &&& self.score as int == self.snake.tail@.len()
        &&& match self.status {
            Status::Running => within(self.snake.head, self.grid),
            Status::GameOver { score } => score == self.score,
        }
    }

    /// The cell the head moves to in the next tick.
    pub open spec fn next_head(&self) -> Position {
        stepped(self.snake.head, self.snake.facing)
    }

    /// A new game with the fruit at `fruit`: the head in the middle of the
    /// playfield, facing up, with no tail and no score.
    pub fn new(grid: Size<i32>, fruit: Position) -> (r: Self)
        requires
            grid_ok(grid),
            within(fruit, grid),
        ensures
            r.wf(),
            r.grid == grid,
            r.fruit == fruit,
            r.snake.head == center_of(grid),
            r.snake.facing == Facing::Up,
            r.snake.tail@ == Seq::<Position>::empty(),
            r.score == 0,
            r.status == Status::Running,
    {
        let head = Position::center(grid);
        Game { grid, snake: Snake::new(head), fruit, score: 0, status: Status::Running }
    }

    /// A new game with the fruit on a random cell.
    pub fn start(grid: Size<i32>) -> (r: Self)
        requires
            grid_ok(grid),
        ensures
            r.wf(),
            r.grid == grid,
            within(r.fruit, grid),
            r.snake.head == center_of(grid),
            r.snake.facing == Facing::Up,
            r.snake.tail@ == Seq::<Position>::empty(),
            r.score == 0,
            r.status == Status::Running,
    {
        let fruit = Position::random(grid);
        Game::new(grid, fruit)
    }

    /// Steers the head by the pressed keys, read in the order given: the
    /// last steering key wins. Nothing else changes.
    pub fn change_direction(&mut self, pressed: &Vec<Key>)
        ensures
            final(self).snake.facing == facing_after(old(self).snake.facing, pressed@),
            final(self).snake.head == old(self).snake.head,
            final(self).snake.tail@ == old(self).snake.tail@,
            final(self).grid == old(self).grid,
            final(self).fruit == old(self).fruit,
            final(self).score == old(self).score,
            final(self).status == old(self).status,
    {
        self.snake.facing = self.snake.facing.after_keys(pressed);
    }

    /// Ends the game when the head has left the playfield; returns whether
    /// the head is on it.
    pub fn collide_snake(&mut self) -> (alive: bool)
        ensures
            alive == within(old(self).snake.head, old(self).grid),
            final(self).status == (if alive {
                old(self).status
            } else {
                Status::GameOver { score: old(self).score }
            }),
            final(self).snake.head == old(self).snake.head,
            final(self).snake.facing == old(self).snake.facing,
            final(self).snake.tail@ == old(self).snake.tail@,
            final(self).grid == old(self).grid,
            final(self).fruit == old(self).fruit,
            final(self).score == old(self).score,
    {
        let alive = self.snake.head.in_bounds(self.grid);
        if !alive {
            self.status = Status::GameOver { score: self.score };
        }
        alive
    }

    /// When the head is on the fruit: the fruit moves to `new_fruit`, the
    /// score goes up by one and a segment is added at the end of the tail,
    /// on `prev_head`, the cell the head left in this tick. Otherwise nothing
    /// changes.
    pub fn eat_fruit_at(&mut self, prev_head: Position, new_fruit: Position)
        requires
            old(self).score < u32::MAX,
        ensures
            old(self).snake.head == old(self).fruit ==> {
                &&& final(self).fruit == new_fruit
                &&& final(self).score == old(self).score + 1
                &&& final(self).snake.tail@ == old(self).snake.tail@.push(prev_head)
            },
            old(self).snake.head != old(self).fruit ==> {
                &&& final(self).fruit == old(self).fruit
                &&& final(self).score == old(self).score
                &&& final(self).snake.tail@ == old(self).snake.tail@
            },
            final(self).snake.head == old(self).snake.head,
            final(self).snake.facing == old(self).snake.facing,
            final(self).grid == old(self).grid,
            final(self).status == old(self).status,
    {
        if self.snake.head == self.fruit {
            self.fruit = new_fruit;
            self.score = self.score + 1;
            self.snake.tail.push(prev_head);
        }
    }

    /// As `eat_fruit_at`, with the fruit moved to a random cell of the
    /// playfield.
    pub fn eat_fruit(&mut self, prev_head: Position)
        requires
            old(self).score < u32::MAX,
            grid_ok(old(self).grid),
        ensures
            old(self).snake.head == old(self).fruit ==> {
                &&& within(final(self).fruit, old(self).grid)
                &&& final(self).score == old(self).score + 1
                &&& final(self).snake.tail@ == old(self).snake.tail@.push(prev_head)
            },
            old(self).snake.head != old(self).fruit ==> {
                &&& final(self).fruit == old(self).fruit
                &&& final(self).score == old(self).score
                &&& final(self).snake.tail@ == old(self).snake.tail@
            },
            final(self).snake.head == old(self).snake.head,
            final(self).snake.facing == old(self).snake.facing,
            final(self).grid == old(self).grid,
            final(self).status == old(self).status,
    {
        if self.snake.head == self.fruit {
            let new_fruit = Position::random(self.grid);
            self.eat_fruit_at(prev_head, new_fruit);
        }
    }

    /// One movement tick of a running game: the snake moves; if the head
    /// has left the playfield the game is over, else if it is on the fruit
    /// the snake eats it. A finished game does not change.
    pub fn tick(&mut self)
        requires
            old(self).wf(),
            old(self).score < u32::MAX,
        ensures
            final(self).wf(),
            final(self).grid == old(self).grid,
            final(self).snake.facing == old(self).snake.facing,
            old(self).status != Status::Running ==> {
                &&& final(self).snake.head == old(self).snake.head
                &&& final(self).snake.tail@ == old(self).snake.tail@
                &&& final(self).fruit == old(self).fruit
                &&& final(self).score == old(self).score
                &&& final(self).status == old(self).status
            },
            old(self).status == Status::Running ==> {
                &&& final(self).snake.head == old(self).next_head()
                &&& !within(old(self).next_head(), old(self).grid) ==> {
                    &&& final(self).status == (Status::GameOver { score: old(self).score })
                    &&& final(self).snake.tail@ == shifted_tail(
                        old(self).snake.head,
                        old(self).snake.tail@,
                    )
                    &&& final(self).fruit == old(self).fruit
                    &&& final(self).score == old(self).score
                }
                &&& within(old(self).next_head(), old(self).grid) && old(self).next_head()
                    != old(self).fruit ==> {
                    &&& final(self).status == Status::Running
                    &&& final(self).snake.tail@ == shifted_tail(
                        old(self).snake.head,
                        old(self).snake.tail@,
                    )
                    &&& final(self).fruit == old(self).fruit
                    &&& final(self).score == old(self).score
                }
                &&& within(old(self).next_head(), old(self).grid) && old(self).next_head()
                    == old(self).fruit ==> {
                    &&& final(self).status == Status::Running
                    &&& final(self).snake.tail@ == shifted_tail(
                        old(self).snake.head,
                        old(self).snake.tail@,
                    ).push(old(self).snake.head)
                    &&& within(final(self).fruit, old(self).grid)
                    &&& final(self).score == old(self).score + 1
                }
            },
    {
        if self.status != Status::Running {
            return;
        }
        let prev_head = self.snake.move_snake();
        if self.collide_snake() {
            self.eat_fruit(prev_head);
        }
    }
}

} // verus!
