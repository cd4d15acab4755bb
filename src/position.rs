use vstd::prelude::*;

verus! {

/// A cell of the playfield, column `x` from the left and row `y` from the top.
#[derive(Clone, Copy, Debug, PartialEq, Eq, Structural)]
pub struct Position {
    pub x: i32,
    pub y: i32,
}

/// A width and a height: of the playfield in cells, of a sprite or a window.
#[derive(Clone, Copy, Debug)]
pub struct Size<T: Copy> {
    pub width: T,
    pub height: T,
}

/// A playfield has at least one cell.
pub open spec fn grid_ok(size: Size<i32>) -> bool {
    size.width > 0 && size.height > 0
}

/// `p` lies in `[0, width) x [0, height)`.
pub open spec fn within(p: Position, size: Size<i32>) -> bool {
    0 <= p.x < size.width && 0 <= p.y < size.height
}

/// A position one column to the right of the playfield, or one row above it,
/// is outside it.
pub proof fn lemma_edge_out_of_bounds(p: Position, size: Size<i32>)
    requires
        p.x == size.width || p.y == -1,
    ensures
        !within(p, size),
{
}

/// Relies on rand's `Rng::gen_range` with the thread-local generator: it
/// returns a value of `low..high`, and panics only when that range is empty.
#[verifier::external_body]
fn gen_range(low: i32, high: i32) -> (r: i32)
    requires
        low < high,
    ensures
        low <= r < high,
{
    rand::Rng::gen_range(&mut rand::thread_rng(), low..high)
}

impl<T: Copy> Size<T> {
    pub fn square(val: T) -> (r: Self)
        ensures
            r.width == val,
            r.height == val,
    {
        Size { width: val, height: val }
    }
}

impl Position {
    pub fn new(x: i32, y: i32) -> (r: Self)
        ensures
            r.x == x,
            r.y == y,
    {
        Position { x, y }
    }

    pub fn in_bounds(&self, size: Size<i32>) -> (r: bool)
        ensures
            r == within(*self, size),
    {
        self.x >= 0 && self.y >= 0 && self.x < size.width && self.y < size.height
    }

    /// A cell of the playfield drawn at random.
    pub fn random(size: Size<i32>) -> (r: Self)
        requires
            grid_ok(size),
        ensures
            within(r, size),
    {
        let x = gen_range(0, size.width);
        let y = gen_range(0, size.height);
        Position { x, y }
    }

    /// The middle cell of the playfield (rounded towards the top left).
    pub fn center(size: Size<i32>) -> (r: Self)
        requires
            grid_ok(size),
        ensures
            r.x == size.width / 2,
            r.y == size.height / 2,
            within(r, size),
    {
        Position { x: size.width / 2, y: size.height / 2 }
    }
}

} // verus!
