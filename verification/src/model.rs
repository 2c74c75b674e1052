//! Teams, squares, skills, actions and the inputs that drive procedures.
use vstd::prelude::*;

use crate::dice::RollResult;

verus! {

/// The two sides of a game.
#[derive(Clone, Copy, Debug, PartialEq, Eq, Structural)]
pub enum TeamType {
    Home,
    Away,
}

/// A player's identity, unique within a game.
pub type PlayerID = usize;

/// A square of the pitch.
#[derive(Clone, Copy, Debug, PartialEq, Eq, Structural)]
pub struct Position {
    pub x: i8,
    pub y: i8,
}

impl Position {
    /// The square with the given coordinates.
    pub fn new(xy: (i8, i8)) -> (p: Position)
        ensures
            p.x == xy.0,
            p.y == xy.1,
    {
        Position { x: xy.0, y: xy.1 }
    }
}

/// A permanent skill or trait of a player.
#[derive(Clone, Copy, Debug, PartialEq, Eq, Structural)]
pub enum Skill {
    Block,
    Dodge,
    Loner3,
    Loner4,
    Pro,
}

/// A skill that a player holds until the end of the drive.
#[derive(Clone, Copy, Debug, PartialEq, Eq, Structural)]
pub enum TemporarySkill {
    Stab,
    MightyBlow1,
}

/// An action that is aimed at a square.
#[derive(Clone, Copy, Debug, PartialEq, Eq, Structural)]
pub enum PosAT {
    SelectPosition,
    StartMove,
    Move,
}

/// An action that needs no square.
#[derive(Clone, Copy, Debug, PartialEq, Eq, Structural)]
pub enum SimpleAT {
    ArgueTheCall,
    DontArgueTheCall,
}

/// An action chosen by a coach.
#[derive(Clone, Copy, Debug, PartialEq, Eq, Structural)]
pub enum Action {
    Positional(PosAT, Position),
    Simple(SimpleAT),
}

/// What a procedure is handed when it is stepped.
#[derive(Clone, Copy, Debug, PartialEq, Eq, Structural)]
pub enum ProcInput {
    Nothing,
    Roll(RollResult),
    Action(Action),
}

/// Where the ball is.
#[derive(Clone, Copy, Debug, PartialEq, Eq, Structural)]
pub enum BallState {
    OffPitch,
    OnGround(Position),
    Carried(PlayerID),
    InAir(Position),
}

/// Where a player off the pitch sits.
#[derive(Clone, Copy, Debug, PartialEq, Eq, Structural)]
pub enum DugoutPlace {
    Reserves,
    KnockedOut,
    Injured,
    Ejected,
}

/// The actions that a coach may choose from.
#[derive(Clone, Debug)]
pub struct AvailableActions {
    pub team: TeamType,
    pub simple: Vec<SimpleAT>,
    pub positional: Vec<(PosAT, Position)>,
}

impl AvailableActions {
    /// Whether `action` is among the available actions.
    pub open spec fn spec_is_legal(self, action: Action) -> bool {
        match action {
            Action::Simple(at) => self.simple@.contains(at),
            Action::Positional(at, pos) => self.positional@.contains((at, pos)),
        }
    }

    /// No action yet, for `team`.
    pub fn new(team: TeamType) -> (aa: AvailableActions)
        ensures
            aa.team == team,
            aa.simple@ == Seq::<SimpleAT>::empty(),
            aa.positional@ == Seq::<(PosAT, Position)>::empty(),
    {
        AvailableActions { team, simple: Vec::new(), positional: Vec::new() }
    }

    /// Adds the action `at`, needing no square.
    pub fn insert_simple(&mut self, at: SimpleAT)
        ensures
            final(self).team == old(self).team,
            final(self).simple@ == old(self).simple@.push(at),
            final(self).positional@ == old(self).positional@,
    {
        self.simple.push(at);
    }

    /// Adds the action `at` aimed at each of `positions`, in their order.
    pub fn insert_positional(&mut self, at: PosAT, positions: Vec<Position>)
        ensures
            final(self).team == old(self).team,
            final(self).simple@ == old(self).simple@,
            final(self).positional@ == old(self).positional@ + positions@.map_values(
                |p: Position| (at, p),
            ),
    {
        let ghost start = self.positional@;
        let mut i: usize = 0;
        while i < positions.len()
            invariant
                i <= positions.len(),
                self.team == old(self).team,
                self.simple@ == old(self).simple@,
                start == old(self).positional@,
                self.positional@ == start + positions@.take(i as int).map_values(
                    |p: Position| (at, p),
                ),
            decreases positions.len() - i,
        {
            self.positional.push((at, positions[i]));
            proof {
                assert(positions@.take(i + 1) == positions@.take(i as int).push(positions@[i as int]));
                assert(positions@.take(i + 1).map_values(|p: Position| (at, p)) =~= positions@.take(
                    i as int,
                ).map_values(|p: Position| (at, p)).push((at, positions@[i as int])));
            }
            i = i + 1;
        }
        assert(positions@.take(i as int) == positions@);
    }

    /// Whether `action` is among the available actions.
    pub fn is_legal_action(&self, action: Action) -> (legal: bool)
        ensures
            legal == self.spec_is_legal(action),
    {
        match action {
            Action::Simple(at) => {
                let mut i: usize = 0;
                while i < self.simple.len()
                    invariant
                        i <= self.simple.len(),
                        action == Action::Simple(at),
                        forall|j: int| 0 <= j < i ==> self.simple@[j] != at,
                    decreases self.simple.len() - i,
                {
                    if self.simple[i] == at {
                        assert(self.simple@[i as int] == at);
                        return true;
                    }
                    i = i + 1;
                }
                false
            },
            Action::Positional(at, pos) => {
                let mut i: usize = 0;
                while i < self.positional.len()
                    invariant
                        i <= self.positional.len(),
                        action == Action::Positional(at, pos),
                        forall|j: int| 0 <= j < i ==> self.positional@[j] != (at, pos),
                    decreases self.positional.len() - i,
                {
                    let (a, p) = self.positional[i];
                    if a == at && p == pos {
                        assert(self.positional@[i as int] == (at, pos));
                        return true;
                    }
                    i = i + 1;
                }
                false
            },
        }
    }
}

} // verus!
