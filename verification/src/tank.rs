//! The tank: where it stands, how its hull and its turret are turned, and how
//! it takes up the outcome of each action of a frame.

use crate::atlas::{centre, quadrant, Anchor, Player, Region};
use crate::controls::{frame_plan, movement_plan, rotation_plan, Action, Step, Turn};
use crate::keys::{back_pressed, forward_pressed, is_pressed, left_pressed, right_pressed, Key};
use vstd::prelude::*;

verus! {

/// A point of the field.
#[derive(Clone, Copy, Debug, PartialEq)]
pub struct Point<N> {
    pub x: N,
    pub y: N,
}

/// A direction on the field.
#[derive(Clone, Copy, Debug, PartialEq)]
pub struct Vector<N> {
    pub x: N,
    pub y: N,
}

/// Where the turret points when it is aimed at a target other than the
/// tank's own position.
#[derive(Clone, Copy, Debug, PartialEq)]
pub struct Aim<N> {
    /// The unit vector from the tank's position to the target.
    pub direction: Vector<N>,
    /// The turret's angle: the negated angle of the target as seen from the
    /// tank, taken with the x axis reversed, that is `-atan2(dy, -dx)` for
    /// the vector `(dx, dy)` from the tank to the target.
    pub rotation: N,
}

/// How one sprite is drawn.
#[derive(Clone, Copy, Debug, PartialEq)]
pub struct Sprite<N> {
    /// The point of the field on which the sprite's anchor is put.
    pub dest: Point<N>,
    /// The point of the sprite that is put there.
    pub offset: Anchor,
    /// The angle by which the sprite is turned about its anchor.
    pub rotation: N,
    /// The part of the image that is drawn; `None` for the whole image.
    pub src: Option<Region>,
}

/// A tank. `N` is the scalar of the field's coordinates and of the angles.
#[derive(Clone, Copy, Debug, PartialEq)]
pub struct Tank<N> {
    /// Where the tank stands.
    pub position: Point<N>,
    /// The unit vector along which the hull drives.
    pub tank_direction: Vector<N>,
    /// The hull's angle.
    pub tank_rotation: N,
    /// The unit vector along which the turret points.
    pub turret_direction: Vector<N>,
    /// The turret's angle.
    pub turret_rotation: N,
    /// Half the width of the turret's sprite: how far the muzzle is from the
    /// tank's position.
    pub turret_width: N,
    /// Whose tank it is.
    pub player: Player,
}

impl<N: Copy> Tank<N> {
    /// The tank after a step that would lead to `candidate`: it stands there
    /// if the field contains the point, and is unchanged if not.
    pub open spec fn settled(self, candidate: Point<N>, contained: bool) -> Self {
        if contained {
            Tank { position: candidate, ..self }
        } else {
            self
        }
    }

    /// The tank after a turn of the hull to `rotation`, with `direction` the
    /// unit vector along it.
    pub open spec fn turned(self, rotation: N, direction: Vector<N>) -> Self {
        Tank { tank_rotation: rotation, tank_direction: direction, ..self }
    }

    /// The tank after its turret was aimed. With no aim, which is the case of
    /// a target on the tank's own position, the turret stays as it is.
    pub open spec fn aimed(self, aim: Option<Aim<N>>) -> Self {
        match aim {
            Some(a) => Tank { turret_direction: a.direction, turret_rotation: a.rotation, ..self },
            None => self,
        }
    }

    /// The steps that the pressed keys ask for, in the order in which they
    /// are tried: forward if `W` or `Up` is pressed, then back if `S` or
    /// `Down` is. The candidate of each step is the position at that moment
    /// plus `sign()` times the hull's direction; `update_position` settles
    /// it.
    pub fn movement(&self, keys: &[Key]) -> (plan: Vec<Step>)
        ensures
            plan@ == movement_plan(keys@),
    {
        let mut plan: Vec<Step> = Vec::new();
        if is_pressed(keys, Key::W) || is_pressed(keys, Key::Up) {
            plan.push(Step::Forward);
        }
        if is_pressed(keys, Key::S) || is_pressed(keys, Key::Down) {
            plan.push(Step::Back);
        }
        assert(plan@ =~= movement_plan(keys@));
        plan
    }

    /// Settles one step: the tank moves to `candidate` if the field contains
    /// it, and stays where it is if not. Nothing but the position changes.
    pub fn update_position(&mut self, candidate: Point<N>, contained: bool)
        ensures
            *final(self) == old(self).settled(candidate, contained),
            contained ==> final(self).position == candidate,
            !contained ==> *final(self) == *old(self),
    {
        if contained {
            self.position = candidate;
        }
    }

    /// The turns that the pressed keys ask for, in the order in which they
    /// are made: right if `D` or `Right` is pressed, then left if `A` or
    /// `Left` is. A turn right adds the elapsed time to the hull's angle at
    /// that moment and a turn left takes it off; `update_direction` takes up
    /// the new angle. With none of the four pressed there is no turn, and
    /// the hull stays as it is.
    pub fn rotation(&self, keys: &[Key]) -> (plan: Vec<Turn>)
        ensures
            plan@ == rotation_plan(keys@),
            !right_pressed(keys@) && !left_pressed(keys@) ==> plan@.len() == 0,
    {
        let mut plan: Vec<Turn> = Vec::new();
        if is_pressed(keys, Key::D) || is_pressed(keys, Key::Right) {
            plan.push(Turn::Right);
        }
        if is_pressed(keys, Key::A) || is_pressed(keys, Key::Left) {
            plan.push(Turn::Left);
        }
        assert(plan@ =~= rotation_plan(keys@));
        plan
    }

    /// Takes up one turn: the hull's new angle and the unit vector along it,
    /// which for the angle `a` is `(-cos a, -sin a)`. Nothing else changes.
    pub fn update_direction(&mut self, rotation: N, direction: Vector<N>)
        ensures
            *final(self) == old(self).turned(rotation, direction),
    {
        self.tank_rotation = rotation;
        self.tank_direction = direction;
    }

    /// Points the turret along `aim`, whatever it pointed at before. A target
    /// on the tank's own position has no direction: the caller passes `None`
    /// for it, and the turret stays as it is.
    pub fn update_turret_direction(&mut self, aim: Option<Aim<N>>)
        ensures
            *final(self) == old(self).aimed(aim),
    {
        match aim {
            Some(a) => {
                self.turret_direction = a.direction;
                self.turret_rotation = a.rotation;
            },
            None => {},
        }
    }

    /// All that one frame does to the tank, in order: the steps of
    /// `movement`, the turns of `rotation`, and last the aiming of the
    /// turret, so that the turret is aimed from where the tank then stands.
    pub fn update(&self, keys: &[Key]) -> (plan: Vec<Action>)
        ensures
            plan@ == frame_plan(keys@),
    {
        let steps = self.movement(keys);
        let turns = self.rotation(keys);
        let mut plan: Vec<Action> = Vec::new();
        let mut i: usize = 0;
        while i < steps.len()
            invariant
                i <= steps.len(),
                plan@ == steps@.take(i as int).map_values(|s: Step| Action::Move(s)),
            decreases steps.len() - i,
        {
            plan.push(Action::Move(steps[i]));
            i += 1;
            assert(plan@ =~= steps@.take(i as int).map_values(|s: Step| Action::Move(s)));
        }
        assert(steps@.take(i as int) =~= steps@);
        let ghost moves = plan@;
        let mut j: usize = 0;
        while j < turns.len()
            invariant
                j <= turns.len(),
                plan@ == moves + turns@.take(j as int).map_values(|t: Turn| Action::Turn(t)),
            decreases turns.len() - j,
        {
            plan.push(Action::Turn(turns[j]));
            j += 1;
            assert(plan@ =~= moves + turns@.take(j as int).map_values(|t: Turn| Action::Turn(t)));
        }
        assert(turns@.take(j as int) =~= turns@);
        plan.push(Action::Aim);
        plan
    }

    /// The two sprites of the tank in the order in which they are drawn: the
    /// hull, then the turret over it. Both are put with their middle on the
    /// tank's position. The hull is the whole of its image, turned by the
    /// hull's angle; the turret is the player's cell of the sprite sheet,
    /// turned by the turret's angle.
    pub fn draw(&self) -> (sprites: (Sprite<N>, Sprite<N>))
        ensures
            sprites.0 == (Sprite {
                dest: self.position,
                offset: centre(),
                rotation: self.tank_rotation,
                src: None,
            }),
            sprites.1 == (Sprite {
                dest: self.position,
                offset: centre(),
                rotation: self.turret_rotation,
                src: Some(quadrant(self.player)),
            }),
    {
        let middle = Anchor { x: 1, y: 1 };
        let hull = Sprite {
            dest: self.position,
            offset: middle,
            rotation: self.tank_rotation,
            src: None,
        };
        let turret = Sprite {
            dest: self.position,
            offset: middle,
            rotation: self.turret_rotation,
            src: Some(self.get_player_turret()),
        };
        (hull, turret)
    }

    /// The cell of the sprite sheet that shows this tank's turret.
    pub fn get_player_turret(&self) -> (cell: Region)
        ensures
            cell == quadrant(self.player),
            cell.on_sheet(),
    {
        match self.player {
            Player::P1 => Region { x: 0, y: 0, w: 1, h: 1 },
            Player::P2 => Region { x: 1, y: 0, w: 1, h: 1 },
            Player::P3 => Region { x: 0, y: 1, w: 1, h: 1 },
            Player::P4 => Region { x: 1, y: 1, w: 1, h: 1 },
        }
    }
}

/// With forward pressed and back not, one step is tried, and it leads along
/// the hull's direction, once. After it the tank stands on the candidate if
/// the field contains it, and exactly where it stood if not.
pub proof fn lemma_forward_alone<N: Copy>(
    tank: Tank<N>,
    keys: Seq<Key>,
    candidate: Point<N>,
    contained: bool,
)
    requires
        forward_pressed(keys),
        !back_pressed(keys),
    ensures
        movement_plan(keys) == seq![Step::Forward],
        Step::Forward.factor() == 1,
        contained ==> tank.settled(candidate, contained).position == candidate,
        !contained ==> tank.settled(candidate, contained).position == tank.position,
{
    assert(movement_plan(keys) =~= seq![Step::Forward]);
}

/// With back pressed and forward not, one step is tried, and it leads against
/// the hull's direction, once. Where the field does not contain the
/// candidate the step is rejected: the tank is as it was.
pub proof fn lemma_back_alone<N: Copy>(tank: Tank<N>, keys: Seq<Key>, candidate: Point<N>)
    requires
        back_pressed(keys),
        !forward_pressed(keys),
    ensures
        movement_plan(keys) == seq![Step::Back],
        Step::Back.factor() == -1,
        tank.settled(candidate, false) == tank,
        tank.settled(candidate, true).position == candidate,
{
    assert(movement_plan(keys) =~= seq![Step::Back]);
}

/// A tank on the field stays on it. Whatever region the field is: if the
/// tank stands in it, and a candidate counts as contained only when it lies
/// in it, then the tank stands in it after the step is settled.
pub proof fn lemma_stays_on_field<N: Copy>(
    tank: Tank<N>,
    candidate: Point<N>,
    contained: bool,
    field: spec_fn(Point<N>) -> bool,
)
    requires
        field(tank.position),
        contained ==> field(candidate),
    ensures
        field(tank.settled(candidate, contained).position),
{
}

/// With no key pressed nothing turns the hull: there is no turn to take up,
/// and a frame holds no action that changes the hull's angle or direction.
pub proof fn lemma_no_key_no_turn(keys: Seq<Key>)
    requires
        keys.len() == 0,
    ensures
        rotation_plan(keys) == Seq::<Turn>::empty(),
        forall|i: int|
            0 <= i < frame_plan(keys).len() ==> !(#[trigger] frame_plan(keys)[i] is Turn),
{
    assert(rotation_plan(keys) =~= Seq::<Turn>::empty());
    assert(movement_plan(keys) =~= Seq::<Step>::empty());
    assert(frame_plan(keys) =~= seq![Action::Aim]);
}

/// Only a turn changes the hull: a settled step and an aimed turret leave
/// the hull's angle and direction as they were.
pub proof fn lemma_hull_kept<N: Copy>(
    tank: Tank<N>,
    candidate: Point<N>,
    contained: bool,
    aim: Option<Aim<N>>,
)
    ensures
        tank.settled(candidate, contained).tank_rotation == tank.tank_rotation,
        tank.settled(candidate, contained).tank_direction == tank.tank_direction,
        tank.aimed(aim).tank_rotation == tank.tank_rotation,
        tank.aimed(aim).tank_direction == tank.tank_direction,
{
}

/// Aiming forgets where the turret pointed before: two tanks that are given
/// the same aim have the same turret afterwards, whatever their turrets were.
/// If the same aim is taken up a second time nothing changes.
pub proof fn lemma_aim_forgets<N: Copy>(a: Tank<N>, b: Tank<N>, aim: Aim<N>)
    ensures
        a.aimed(Some(aim)).turret_direction == b.aimed(Some(aim)).turret_direction,
        a.aimed(Some(aim)).turret_rotation == b.aimed(Some(aim)).turret_rotation,
        a.aimed(Some(aim)).aimed(Some(aim)) == a.aimed(Some(aim)),
{
}

} // verus!
