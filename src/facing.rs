use vstd::prelude::*;

verus! {

/// One of the four directions the snake's head can point in.
#[derive(Clone, Copy, Debug, PartialEq, Eq, Structural)]
pub enum Facing {
    Up,
    Down,
    Left,
    Right,
}

/// A keyboard key, as far as steering is concerned: the arrows, their
/// WASD and HJKL aliases, and everything else.
#[derive(Clone, Copy, Debug, PartialEq, Eq, Structural)]
pub enum Key {
    Up,
    Down,
    Left,
    Right,
    W,
    A,
    S,
    D,
    H,
    J,
    K,
    L,
    Other,
}

pub open spec fn opposite_of(f: Facing) -> Facing {
    match f {
        Facing::Up => Facing::Down,
        Facing::Down => Facing::Up,
        Facing::Left => Facing::Right,
        Facing::Right => Facing::Left,
    }
}

/// The direction a key steers towards, if it is a steering key.
pub open spec fn facing_of_key(k: Key) -> Option<Facing> {
    match k {
        Key::Up | Key::W | Key::K => Some(Facing::Up),
        Key::Left | Key::A | Key::H => Some(Facing::Left),
        Key::Down | Key::S | Key::J => Some(Facing::Down),
        Key::Right | Key::D | Key::L => Some(Facing::Right),
        Key::Other => None,
    }
}

/// The facing after the pressed keys are read in order, starting from `f`:
/// each steering key overwrites the facing, so the last one wins.
pub open spec fn facing_after(f: Facing, keys: Seq<Key>) -> Facing
    decreases keys.len(),
{
    if keys.len() == 0 {
        f
    } else {
        match facing_of_key(keys.last()) {
            Some(g) => g,
            None => facing_after(f, keys.drop_last()),
        }
    }
}

impl Default for Facing {
    fn default() -> (r: Self)
        ensures
            r == Facing::Up,
    {
        Facing::Up
    }
}

impl Facing {
    pub fn opposite(self) -> (r: Facing)
        ensures
            r == opposite_of(self),
    {
        match self {
            Facing::Up => Facing::Down,
            Facing::Left => Facing::Right,
            Facing::Down => Facing::Up,
            Facing::Right => Facing::Left,
        }
    }

    pub fn is_opposite(self, other: Facing) -> (r: bool)
        ensures
            r == (opposite_of(self) == other),
    {
        self.opposite() == other
    }

    pub fn from_key_code(key_code: Key) -> (r: Option<Facing>)
        ensures
            r == facing_of_key(key_code),
    {
        match key_code {
            Key::Up | Key::W | Key::K => Some(Facing::Up),
            Key::Left | Key::A | Key::H => Some(Facing::Left),
            Key::Down | Key::S | Key::J => Some(Facing::Down),
            Key::Right | Key::D | Key::L => Some(Facing::Right),
            Key::Other => None,
        }
    }

    /// Reads the pressed keys in the order given; every steering key
    /// overwrites the facing, so the last steering key in `pressed` wins.
    pub fn after_keys(self, pressed: &Vec<Key>) -> (r: Facing)
        ensures
            r == facing_after(self, pressed@),
    {
        let mut facing = self;
        let mut i: usize = 0;
        while i < pressed.len()
            invariant
                i <= pressed@.len(),
                facing == facing_after(self, pressed@.take(i as int)),
            decreases pressed@.len() - i,
        {
            let code = pressed[i];
            proof {
                let next = pressed@.take(i as int + 1);
                assert(next.drop_last() == pressed@.take(i as int));
                assert(next.last() == code);
            }
            match Facing::from_key_code(code) {
                Some(val) => {
                    facing = val;
                },
                None => {},
            }
            i += 1;
        }
        proof {
            assert(pressed@.take(i as int) == pressed@);
        }
        facing
    }
}

} // verus!
