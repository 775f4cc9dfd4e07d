//! What one frame does to a tank, as a list of actions in the order in which
//! they are carried out.

use crate::keys::{back_pressed, forward_pressed, left_pressed, right_pressed, Key};
use vstd::prelude::*;

verus! {

/// One unit step along the hull's direction.
#[derive(Clone, Copy, Debug, PartialEq, Eq, Hash, Structural)]
pub enum Step {
    /// With the hull's direction.
    Forward,
    /// Against the hull's direction.
    Back,
}

impl Step {
    /// The factor on the hull's direction: the step leads from the position
    /// to the position plus this many times the direction.
    pub open spec fn factor(self) -> int {
        match self {
            Step::Forward => 1,
            Step::Back => -1,
        }
    }

    /// The factor on the hull's direction, +1 or -1.
    pub fn sign(self) -> (s: i8)
        ensures
            s == self.factor(),
    {
        match self {
            Step::Forward => 1,
            Step::Back => -1,
        }
    }
}

/// One turn of the hull by the time that the frame took.
#[derive(Clone, Copy, Debug, PartialEq, Eq, Hash, Structural)]
pub enum Turn {
    /// The hull's rotation grows by the elapsed time.
    Right,
    /// The hull's rotation shrinks by the elapsed time.
    Left,
}

/// One thing that a frame does to the tank.
#[derive(Clone, Copy, Debug, PartialEq, Eq, Hash, Structural)]
pub enum Action {
    /// Try a step; it counts only if the field contains where it leads.
    Move(Step),
    /// Turn the hull, then point its direction along the new rotation.
    Turn(Turn),
    /// Point the turret at the target.
    Aim,
}

/// `item` alone if `wanted`, else nothing.
pub open spec fn only_if<T>(wanted: bool, item: T) -> Seq<T> {
    if wanted {
        seq![item]
    } else {
        Seq::empty()
    }
}

/// The steps that the keys ask for. Forward comes before back, so that with
/// both pressed the step back starts where the step forward ended.
pub open spec fn movement_plan(keys: Seq<Key>) -> Seq<Step> {
    only_if(forward_pressed(keys), Step::Forward) + only_if(back_pressed(keys), Step::Back)
}

/// The turns that the keys ask for. Right comes before left.
pub open spec fn rotation_plan(keys: Seq<Key>) -> Seq<Turn> {
    only_if(right_pressed(keys), Turn::Right) + only_if(left_pressed(keys), Turn::Left)
}

/// All that one frame does: the steps, then the turns, then the turret, which
/// is aimed in every frame whatever the keys.
pub open spec fn frame_plan(keys: Seq<Key>) -> Seq<Action> {
    movement_plan(keys).map_values(|s: Step| Action::Move(s))
        + rotation_plan(keys).map_values(|t: Turn| Action::Turn(t))
        + seq![Action::Aim]
}

} // verus!
