//! What is drawn of an image, and where it is held: the sprite sheet of the
//! turrets, a square of two by two cells with one cell for each player, and
//! the anchor of a sprite.

use vstd::prelude::*;

verus! {

/// Lengths on an image are counted in halves of the image's side: `WHOLE` is
/// its full width or height, and 1 is half of it.
pub const WHOLE: u8 = 2;

/// Which of the four players a tank belongs to.
#[derive(Clone, Copy, Debug, PartialEq, Eq, Hash, Structural)]
pub enum Player {
    P1,
    P2,
    P3,
    P4,
}

impl Player {
    /// The player's place in the order P1, P2, P3, P4, counted from zero.
    pub open spec fn index(self) -> int {
        match self {
            Player::P1 => 0,
            Player::P2 => 1,
            Player::P3 => 2,
            Player::P4 => 3,
        }
    }
}

/// A rectangle on the sprite sheet, in halves of the sheet's side: its left
/// upper corner, its width and its height.
#[derive(Clone, Copy, Debug, PartialEq, Eq, Hash, Structural)]
pub struct Region {
    pub x: u8,
    pub y: u8,
    pub w: u8,
    pub h: u8,
}

impl Region {
    /// The region lies on the sheet and is not empty.
    pub open spec fn on_sheet(self) -> bool {
        &&& 0 < self.w
        &&& 0 < self.h
        &&& self.x + self.w <= WHOLE
        &&& self.y + self.h <= WHOLE
    }

    /// The two regions have more than an edge in common.
    pub open spec fn overlaps(self, other: Region) -> bool {
        &&& self.x < other.x + other.w
        &&& other.x < self.x + self.w
        &&& self.y < other.y + other.h
        &&& other.y < self.y + self.h
    }
}

/// The point of a sprite that is put on the destination and about which the
/// sprite is turned, in halves of the sprite's width and height.
#[derive(Clone, Copy, Debug, PartialEq, Eq, Hash, Structural)]
pub struct Anchor {
    pub x: u8,
    pub y: u8,
}

/// The middle of a sprite: half its width and half its height.
pub open spec fn centre() -> Anchor {
    Anchor { x: 1, y: 1 }
}

/// The cell of a player's turret: half the sheet wide and high. The players
/// fill the sheet row by row, P1 and P2 above, P3 and P4 below.
pub open spec fn quadrant(player: Player) -> Region {
    Region {
        x: (player.index() % (WHOLE as int)) as u8,
        y: (player.index() / (WHOLE as int)) as u8,
        w: 1,
        h: 1,
    }
}

/// No two players share a part of the sheet: the cells of different players
/// do not overlap.
pub proof fn lemma_quadrants_apart(a: Player, b: Player)
    requires
        a != b,
    ensures
        !quadrant(a).overlaps(quadrant(b)),
{
}

} // verus!
