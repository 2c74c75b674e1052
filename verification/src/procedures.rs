//! Procedures of the game engine: what every procedure hands back when it is stepped, and
//! the procedures that the prayers to Nuffle start or lead to.
use vstd::prelude::*;

use crate::dice::{D6, RequestedRoll, RollResult};
use crate::gamestate::{GameInfo, GameState, GameStateView, TeamState};
use crate::model::{Action, AvailableActions, PlayerID, ProcInput, SimpleAT, TeamType};
use crate::nuffle_prayers_procs::{
    FirendsWithTheRef, IronMan, KnuckleDusters, PrayersToNuffle, Stiletto, TrapdoorCheck,
};

verus! {

/// Any procedure of the game.
#[derive(Debug, PartialEq, Eq)]
pub enum AnyProc {
    PrayersToNuffle(PrayersToNuffle),
    TrapdoorCheck(TrapdoorCheck),
    FirendsWithTheRef(FirendsWithTheRef),
    Stiletto(Stiletto),
    IronMan(IronMan),
    KnuckleDusters(KnuckleDusters),
    Bounce(Bounce),
    Injury(Injury),
    Ejection(Ejection),
}

/// What a procedure answers when it is stepped.
#[derive(Debug)]
pub enum ProcState {
    /// The procedure is over.
    Done,
    /// The procedure is over and these procedures are to run next, first one first.
    DoneNewProcs(Vec<AnyProc>),
    /// The procedure waits for a roll of this die.
    NeedRoll(RequestedRoll),
    /// The procedure waits for a coach to choose one of these actions.
    NeedAction(AvailableActions),
}

impl ProcState {
    /// The end of a procedure that may start `procs`: plainly over where there are none.
    pub fn from_procs(procs: Vec<AnyProc>) -> (res: ProcState)
        ensures
            procs@.len() == 0 ==> res == ProcState::Done,
            procs@.len() != 0 ==> res == ProcState::DoneNewProcs(procs),
    {
        if procs.len() == 0 {
            ProcState::Done
        } else {
            ProcState::DoneNewProcs(procs)
        }
    }
}

/// The ball bounces from where it lies; the engine's ball procedures carry it out.
#[derive(Clone, Copy, Debug, PartialEq, Eq, Structural)]
pub struct Bounce {}

impl Bounce {
    pub fn new() -> (p: AnyProc)
        ensures
            p == AnyProc::Bounce(Bounce {}),
    {
        AnyProc::Bounce(Bounce {})
    }
}

/// An injury roll for a player; the engine's casualty procedures carry it out.
#[derive(Clone, Copy, Debug, PartialEq, Eq, Structural)]
pub struct Injury {
    pub id: PlayerID,
    /// The player was pushed or fell into the crowd, so no armour roll is made.
    pub crowd: bool,
}

impl Injury {
    /// An injury roll for the player `id`, who went into the crowd.
    pub fn new_crowd(id: PlayerID) -> (p: AnyProc)
        ensures
            p == AnyProc::Injury(Injury { id, crowd: true }),
    {
        AnyProc::Injury(Injury { id, crowd: true })
    }
}

/// The referee sends off a player who committed a foul; his coach may argue the call.
#[derive(Clone, Copy, Debug, PartialEq, Eq, Structural)]
pub struct Ejection {
    pub id: PlayerID,
    /// The coach argues the call and the roll is awaited.
    pub arguing: bool,
}

/// The least argue-the-call roll that keeps the player on the pitch: a six, or a five for a
/// team that is friends with the referee.
pub open spec fn argue_the_call_target(friends_with_the_ref: bool) -> nat {
    if friends_with_the_ref {
        5
    } else {
        6
    }
}

/// The actions offered to a coach whose player is sent off.
pub open spec fn offers_argue_the_call(aa: AvailableActions, team: TeamType) -> bool {
    &&& aa.team == team
    &&& aa.simple@ == seq![SimpleAT::ArgueTheCall, SimpleAT::DontArgueTheCall]
    &&& aa.positional@.len() == 0
}

impl GameStateView {
    /// This state after a turnover.
    pub open spec fn with_turnover(self) -> GameStateView {
        GameStateView { info: GameInfo { turnover: true, ..self.info }, ..self }
    }

    /// This state after the player `id` is sent off for a foul.
    pub open spec fn sent_off(self, id: PlayerID) -> GameStateView {
        self.eject_player(id).with_turnover()
    }

    /// This state after the coach of the player `id` argues the call and rolls `roll`: on
    /// a one the coach is sent off as well; a roll that meets the target keeps the player on
    /// the pitch. The turn ends in a turnover in any case.
    pub open spec fn after_argue_roll(self, id: PlayerID, roll: D6) -> GameStateView {
        let team = self.field[self.player_index(id)].stats.team;
        let t = self.team(team);
        if roll == D6::One {
            self.with_team(team, TeamState { coach_ejected: true, ..t }).sent_off(id)
        } else if roll.spec_value() >= argue_the_call_target(t.friends_with_the_ref) {
            self.with_turnover()
        } else {
            self.sent_off(id)
        }
    }
}

impl Ejection {
    /// The sending-off of the player `id` for a foul.
    pub fn new_foul(id: PlayerID) -> (p: AnyProc)
        ensures
            p == AnyProc::Ejection(Ejection { id, arguing: false }),
    {
        AnyProc::Ejection(Ejection { id, arguing: false })
    }

    /// The input that this procedure can take next.
    pub open spec fn accepts(self, s: GameStateView, input: ProcInput) -> bool {
        if self.arguing {
            input matches ProcInput::Roll(RollResult::D6(_))
        } else {
            ||| input is Nothing
            ||| input == ProcInput::Action(Action::Simple(SimpleAT::DontArgueTheCall))
            ||| input == ProcInput::Action(Action::Simple(SimpleAT::ArgueTheCall)) && !s.team(
                s.field[s.player_index(self.id)].stats.team,
            ).coach_ejected
        }
    }

    /// Sends the player off, or lets his coach argue the call first: on `Nothing` the coach
    /// is offered to argue where he still may; arguing asks for a D6; not arguing, or a
    /// coach who may no longer argue, sends the player off.
    pub fn step(&mut self, game_state: &mut GameState, input: ProcInput) -> (res: ProcState)
        requires
            old(game_state)@.wf(),
            old(game_state)@.has_player(old(self).id),
            old(self).accepts(old(game_state)@, input),
        ensures
            final(game_state)@.wf(),
            *final(self) == (Ejection {
                arguing: old(self).arguing || input == ProcInput::Action(
                    Action::Simple(SimpleAT::ArgueTheCall),
                ),
                ..*old(self)
            }),
            ({
                let s = old(game_state)@;
                let id = old(self).id;
                let team = s.field[s.player_index(id)].stats.team;
                let can_argue = !s.team(team).coach_ejected;
                if old(self).arguing {
                    &&& res == ProcState::Done
                    &&& input matches ProcInput::Roll(RollResult::D6(roll))
                        && final(game_state)@ == s.after_argue_roll(id, roll)
                } else {
                    match input {
                        ProcInput::Nothing => if can_argue {
                            &&& res matches ProcState::NeedAction(aa) && offers_argue_the_call(aa, team)
                            &&& final(game_state)@ == s
                        } else {
                            &&& res == ProcState::Done
                            &&& final(game_state)@ == s.sent_off(id)
                        },
                        ProcInput::Action(Action::Simple(SimpleAT::ArgueTheCall)) => {
                            &&& res == ProcState::NeedRoll(RequestedRoll::D6)
                            &&& final(game_state)@ == s
                        },
                        _ => {
                            &&& res == ProcState::Done
                            &&& final(game_state)@ == s.sent_off(id)
                        },
                    }
                }
            }),
    {
        let ghost s = game_state@;
        let team = match game_state.get_player(self.id) {
            Ok(player) => player.stats.team,
            Err(_) => {
                assert(false);
                TeamType::Home
            },
        };
        assert(team == s.field[s.player_index(self.id)].stats.team);
        let can_argue = match team {
            TeamType::Home => game_state.home.can_argue_the_call(),
            TeamType::Away => game_state.away.can_argue_the_call(),
        };
        if self.arguing {
            let roll = match input {
                ProcInput::Roll(RollResult::D6(roll)) => roll,
                _ => {
                    assert(false);
                    D6::One
                },
            };
            if roll == D6::One {
                match team {
                    TeamType::Home => {
                        game_state.home.coach_ejected = true;
                    },
                    TeamType::Away => {
                        game_state.away.coach_ejected = true;
                    },
                }
                assert(game_state@ =~= s.with_team(team, TeamState { coach_ejected: true, ..s.team(team) }));
                game_state.eject_player(self.id);
            } else {
                let friends = match team {
                    TeamType::Home => game_state.home.has_friends_with_the_ref(),
                    TeamType::Away => game_state.away.has_friends_with_the_ref(),
                };
                let target: u8 = if friends {
                    5
                } else {
                    6
                };
                if roll.value() < target {
                    game_state.eject_player(self.id);
                }
            }
            game_state.info.turnover = true;
            assert(game_state@ =~= s.after_argue_roll(self.id, roll));
            ProcState::Done
        } else {
            match input {
                ProcInput::Nothing => {
                    if can_argue {
                        let mut aa = AvailableActions::new(team);
                        aa.insert_simple(SimpleAT::ArgueTheCall);
                        aa.insert_simple(SimpleAT::DontArgueTheCall);
                        assert(aa.simple@ =~= seq![SimpleAT::ArgueTheCall, SimpleAT::DontArgueTheCall]);
                        ProcState::NeedAction(aa)
                    } else {
                        game_state.eject_player(self.id);
                        game_state.info.turnover = true;
                        assert(game_state@ =~= s.sent_off(self.id));
                        ProcState::Done
                    }
                },
                ProcInput::Action(Action::Simple(SimpleAT::ArgueTheCall)) => {
                    self.arguing = true;
                    ProcState::NeedRoll(RequestedRoll::D6)
                },
                _ => {
                    game_state.eject_player(self.id);
                    game_state.info.turnover = true;
                    assert(game_state@ =~= s.sent_off(self.id));
                    ProcState::Done
                },
            }
        }
    }
}

} // verus!
