//! Player sprite selection: which atlas cell shows a standing or walking
//! player at a given frame.

use vstd::prelude::*;

verus! {

/// Direction the player faces.
#[derive(Debug, Clone, Copy, PartialEq, Eq, Structural)]
pub enum Direction {
    Up,
    Down,
    Left,
    Right,
}

/// What the player is doing, and facing which way.
#[derive(Debug, Clone, Copy, PartialEq, Eq, Structural)]
pub enum MovementAnimation {
    Standing(Direction),
    Walking(Direction),
}

/// Atlas column of the player's sprites for a direction.
pub open spec fn direction_column(dir: Direction) -> usize {
    match dir {
        Direction::Left => 23,
        Direction::Down => 24,
        Direction::Up => 25,
        Direction::Right => 26,
    }
}

/// Row offset of walking frame `f`, for `f` in `0..4`: middle, top, bottom,
/// top again.
pub open spec fn walk_offset(f: nat) -> usize {
    if f == 0 {
        27
    } else if f == 2 {
        54
    } else {
        0
    }
}

impl MovementAnimation {
    pub open spec fn spec_animation_len(self) -> usize {
        match self {
            MovementAnimation::Standing(_) => 1,
            MovementAnimation::Walking(_) => 4,
        }
    }

    pub open spec fn spec_direction(self) -> Direction {
        match self {
            MovementAnimation::Standing(dir) => dir,
            MovementAnimation::Walking(dir) => dir,
        }
    }

    pub open spec fn spec_index(self, offset: nat) -> usize {
        match self {
            MovementAnimation::Standing(dir) => direction_column(dir),
            MovementAnimation::Walking(dir) => (direction_column(dir) + walk_offset(offset % 4)) as usize,
        }
    }

    /// Number of frames in the animation.
    pub fn animation_len(&self) -> (r: usize)
        ensures
            r == self.spec_animation_len(),
    {
        match self {
            MovementAnimation::Standing(_) => 1,
            MovementAnimation::Walking(_) => 4,
        }
    }

    /// Atlas cell of frame `offset` (taken modulo the animation's length).
    pub fn index(&self, offset: usize) -> (r: usize)
        ensures
            r == self.spec_index(offset as nat),
    {
        match self {
            MovementAnimation::Standing(dir) => Self::column(*dir),
            MovementAnimation::Walking(dir) => {
                let main = Self::column(*dir);
                let frame = offset % self.animation_len();
                let shift: usize = if frame == 0 {
                    27
                } else if frame == 2 {
                    27 * 2
                } else {
                    0
                };
                main + shift
            },
        }
    }

    fn column(dir: Direction) -> (r: usize)
        ensures
            r == direction_column(dir),
    {
        match dir {
            Direction::Left => 23,
            Direction::Down => 24,
            Direction::Up => 25,
            Direction::Right => 26,
        }
    }

    /// Direction the player faces.
    pub fn direction(&self) -> (r: Direction)
        ensures
            r == self.spec_direction(),
    {
        match self {
            MovementAnimation::Standing(dir) => *dir,
            MovementAnimation::Walking(dir) => *dir,
        }
    }
}

} // verus!
