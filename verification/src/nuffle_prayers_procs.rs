//! The Prayers to Nuffle: a D16 roll that gives a team a favour for the drive, and the
//! procedures that carry the favours out.
use vstd::prelude::*;

use crate::dice::{D16, D6, D6Target, RequestedRoll, RollResult};
use crate::gamestate::{GameInfo, GameState, GameStateView, TeamState};
use crate::model::{
    Action, AvailableActions, BallState, PlayerID, PosAT, Position, ProcInput, Skill, TeamType,
    TemporarySkill,
};
use crate::player::{FieldPlayerView, PlayerStatsView};
use crate::procedures::{AnyProc, Bounce, Injury, ProcState};

verus! {

/// A prayer to Nuffle by the coach of `team`.
#[derive(Clone, Copy, Debug, PartialEq, Eq, Structural)]
pub struct PrayersToNuffle {
    pub team: TeamType,
}

/// The favour that a prayer roll grants, as the procedure that carries it out.
pub open spec fn prayer_effect(team: TeamType, roll: D16) -> Option<AnyProc> {
    match roll {
        D16::Two => Some(AnyProc::FirendsWithTheRef(FirendsWithTheRef { team })),
        D16::Three => Some(AnyProc::Stiletto(Stiletto { team })),
        D16::Four => Some(AnyProc::IronMan(IronMan { team })),
        D16::Five => Some(AnyProc::KnuckleDusters(KnuckleDusters { team })),
        _ => None,
    }
}

impl PrayersToNuffle {
    pub fn new(team: TeamType) -> (p: AnyProc)
        ensures
            p == AnyProc::PrayersToNuffle(PrayersToNuffle { team }),
    {
        AnyProc::PrayersToNuffle(PrayersToNuffle { team })
    }

    /// Asks for a D16; on the roll, a one opens trapdoors in the pitch, a two to five starts
    /// the procedure of its favour, and any other result grants nothing here.
    pub fn step(&mut self, game_state: &mut GameState, input: ProcInput) -> (res: ProcState)
        requires
            input is Nothing || input matches ProcInput::Roll(RollResult::D16(_)),
        ensures
            *final(self) == *old(self),
            old(game_state)@.wf() ==> final(game_state)@.wf(),
            match input {
                ProcInput::Roll(RollResult::D16(roll)) => {
                    &&& final(game_state)@ == if roll == D16::One {
                        GameStateView {
                            info: GameInfo { trapdoors_active: true, ..old(game_state)@.info },
                            ..old(game_state)@
                        }
                    } else {
                        old(game_state)@
                    }
                    &&& (roll.spec_value() < 2 || roll.spec_value() > 5) ==> res == ProcState::Done
                    &&& match prayer_effect(old(self).team, roll) {
                        Some(p) => res matches ProcState::DoneNewProcs(procs) && procs@ == seq![p],
                        None => res == ProcState::Done,
                    }
                },
                _ => {
                    &&& res == ProcState::NeedRoll(RequestedRoll::D16)
                    &&& final(game_state)@ == old(game_state)@
                },
            },
    {
        let prayers_to_nuffles_roll = match input {
            ProcInput::Roll(RollResult::D16(prayers_to_nuffle_roll)) => prayers_to_nuffle_roll,
            _ => {
                return ProcState::NeedRoll(RequestedRoll::D16);
            },
        };
        let mut procs: Vec<AnyProc> = Vec::new();
        match prayers_to_nuffles_roll {
            D16::One => {
                game_state.info.trapdoors_active = true;
            },
            D16::Two => {
                procs.push(FirendsWithTheRef::new(self.team));
            },
            D16::Three => {
                procs.push(Stiletto::new(self.team));
            },
            D16::Four => {
                procs.push(IronMan::new(self.team));
            },
            D16::Five => {
                procs.push(KnuckleDusters::new(self.team));
            },
            // The favours of the other results (Bad Habits, Greasy Cleats, Blessed Statue of
            // Nuffle, Moles under the Pitch, Perfect Passing, Fan Interaction, Necessary
            // Violence, Fouling Frenzy, Throw a Rock, Under Scrutiny, Intensive Training)
            // are not carried out by the engine yet.
            _ => {},
        }
        assert(procs@.len() != 0 ==> procs@ == seq![prayer_effect(self.team, prayers_to_nuffles_roll)->Some_0]);
        ProcState::from_procs(procs)
    }
}

/// A player on the pitch who may fall through a trapdoor.
#[derive(Debug, PartialEq, Eq)]
pub struct TrapdoorCheck {
    pub id: PlayerID,
    /// The roll that the player needs to stay clear of the trapdoor.
    pub target: D6Target,
    /// What runs next when the player stays clear.
    pub on_safe_procs: Vec<AnyProc>,
}

impl TrapdoorCheck {
    /// A trapdoor check for the player `id` with nothing to run when he stays clear.
    pub fn new(id: PlayerID, target: D6Target) -> (p: AnyProc)
        ensures
            p matches AnyProc::TrapdoorCheck(t) && t.id == id && t.target == target
                && t.on_safe_procs@.len() == 0,
    {
        Self::new_with_on_safe_procs(id, target, Vec::new())
    }

    /// A trapdoor check for the player `id` that runs `on_safe_procs` when he stays clear.
    pub fn new_with_on_safe_procs(id: PlayerID, target: D6Target, on_safe_procs: Vec<AnyProc>) -> (p:
        AnyProc)
        ensures
            p == AnyProc::TrapdoorCheck(TrapdoorCheck { id, target, on_safe_procs }),
    {
        AnyProc::TrapdoorCheck(TrapdoorCheck { id, target, on_safe_procs })
    }

    /// The input that this check can take next.
    pub open spec fn accepts(self, s: GameStateView, input: ProcInput) -> bool {
        ||| !s.info.trapdoors_active
        ||| input is Nothing
        ||| input matches ProcInput::Roll(RollResult::D6(roll)) && (self.target.spec_is_success(roll)
            || roll == D6::One && s.has_player(self.id))
    }

    /// Where no trapdoor is open, nothing happens. Else a D6 is asked for: a roll that meets
    /// the target lets the player stay clear and hands out what was to run then; a one drops
    /// him through the trapdoor into the crowd, and a ball that he carried bounces from his
    /// square.
    pub fn step(&mut self, game_state: &mut GameState, input: ProcInput) -> (res: ProcState)
        requires
            old(self).accepts(old(game_state)@, input),
        ensures
            final(self).id == old(self).id,
            final(self).target == old(self).target,
            old(game_state)@.wf() ==> final(game_state)@.wf(),
            ({
                let s = old(game_state)@;
                let id = old(self).id;
                let safe = old(self).on_safe_procs@;
                if !s.info.trapdoors_active {
                    &&& res == ProcState::Done
                    &&& final(game_state)@ == s
                    &&& *final(self) == *old(self)
                } else {
                    match input {
                        ProcInput::Roll(RollResult::D6(roll)) => if old(self).target.spec_is_success(
                            roll,
                        ) {
                            &&& final(game_state)@ == s
                            &&& final(self).on_safe_procs@.len() == 0
                            &&& safe.len() == 0 ==> res == ProcState::Done
                            &&& safe.len() != 0 ==> (res matches ProcState::DoneNewProcs(procs)
                                && procs@ == safe)
                        } else {
                            let pos = s.field[s.player_index(id)].position;
                            let injury = AnyProc::Injury(Injury { id, crowd: true });
                            &&& *final(self) == *old(self)
                            &&& if s.ball == BallState::Carried(id) {
                                &&& final(game_state)@ == (GameStateView {
                                    ball: BallState::InAir(pos),
                                    ..s
                                })
                                &&& res matches ProcState::DoneNewProcs(procs) && procs@ == seq![
                                    AnyProc::Bounce(Bounce {}),
                                    injury,
                                ]
                            } else {
                                &&& final(game_state)@ == s
                                &&& res matches ProcState::DoneNewProcs(procs) && procs@ == seq![
                                    injury,
                                ]
                            }
                        },
                        _ => {
                            &&& res == ProcState::NeedRoll(RequestedRoll::D6)
                            &&& final(game_state)@ == s
                            &&& *final(self) == *old(self)
                        },
                    }
                }
            }),
    {
        if !game_state.info.trapdoors_active {
            return ProcState::Done;
        }
        match input {
            ProcInput::Nothing => ProcState::NeedRoll(RequestedRoll::D6),
            ProcInput::Roll(RollResult::D6(roll)) => {
                if self.target.is_success(roll) {
                    let mut procs: Vec<AnyProc> = Vec::new();
                    std::mem::swap(&mut procs, &mut self.on_safe_procs);
                    ProcState::from_procs(procs)
                } else {
                    // The player falls through the trapdoor.
                    let mut procs: Vec<AnyProc> = Vec::new();
                    let player_position = match game_state.get_player(self.id) {
                        Ok(player_) => player_.position,
                        Err(_) => {
                            assert(false);
                            Position { x: 0, y: 0 }
                        },
                    };
                    if game_state.ball == BallState::Carried(self.id) {
                        game_state.ball = BallState::InAir(player_position);
                        procs.push(Bounce::new());
                    }
                    procs.push(Injury::new_crowd(self.id));
                    ProcState::from_procs(procs)
                }
            },
            _ => {
                assert(false);
                ProcState::Done
            },
        }
    }
}

/// The Friends with the Ref favour: the referee favours the team for the drive.
#[derive(Clone, Copy, Debug, PartialEq, Eq, Structural)]
pub struct FirendsWithTheRef {
    pub team: TeamType,
}

impl FirendsWithTheRef {
    pub fn new(team: TeamType) -> (p: AnyProc)
        ensures
            p == AnyProc::FirendsWithTheRef(FirendsWithTheRef { team }),
    {
        AnyProc::FirendsWithTheRef(FirendsWithTheRef { team })
    }

    /// Makes the team friends with the referee until the end of the drive.
    pub fn step(&mut self, game_state: &mut GameState, input: ProcInput) -> (res: ProcState)
        requires
            input is Nothing,
        ensures
            *final(self) == *old(self),
            res == ProcState::Done,
            final(game_state)@ == old(game_state)@.with_team(
                old(self).team,
                TeamState { friends_with_the_ref: true, ..old(game_state)@.team(old(self).team) },
            ),
            old(game_state)@.wf() ==> final(game_state)@.wf(),
    {
        match input {
            ProcInput::Nothing => {
                match self.team {
                    TeamType::Home => game_state.home.activate_friends_with_the_ref(),
                    TeamType::Away => game_state.away.activate_friends_with_the_ref(),
                }
                ProcState::Done
            },
            _ => {
                assert(false);
                ProcState::Done
            },
        }
    }
}

/// A player carries a Loner trait.
pub open spec fn is_loner(stats: PlayerStatsView) -> bool {
    stats.has_skill(Skill::Loner3) || stats.has_skill(Skill::Loner4)
}

/// The players of `team` on the pitch, in pitch order, that a prayer may give a temporary
/// skill: those without a Loner trait.
pub open spec fn skill_candidates(field: Seq<FieldPlayerView>, team: TeamType) -> Seq<PlayerID>
    decreases field.len(),
{
    if field.len() == 0 {
        Seq::empty()
    } else {
        let rest = skill_candidates(field.drop_last(), team);
        let p = field.last();
        if p.stats.team == team && !is_loner(p.stats) {
            rest.push(p.id)
        } else {
            rest
        }
    }
}

/// Each skill candidate is a player of `team` on the pitch without a Loner trait.
pub proof fn lemma_skill_candidate(field: Seq<FieldPlayerView>, team: TeamType, k: int) -> (i: int)
    requires
        0 <= k < skill_candidates(field, team).len(),
    ensures
        0 <= i < field.len(),
        field[i].id == skill_candidates(field, team)[k],
        field[i].stats.team == team,
        !is_loner(field[i].stats),
    decreases field.len(),
{
    let rest = skill_candidates(field.drop_last(), team);
    if k < rest.len() {
        let i = lemma_skill_candidate(field.drop_last(), team, k);
        assert(field.drop_last()[i] == field[i]);
        i
    } else {
        (field.len() - 1) as int
    }
}

/// Every player of `team` on the pitch who carries neither Loner (3+) nor Loner (4+) is a
/// skill candidate, whatever his other skills and his armour (`lemma_skill_candidate` gives
/// the converse).
pub proof fn law_skill_candidates_are_the_non_loners_of_the_team(
    field: Seq<FieldPlayerView>,
    team: TeamType,
)
    ensures
        forall|i: int|
            0 <= i < field.len() && #[trigger] field[i].stats.team == team
                && !field[i].stats.skills.contains(Skill::Loner3) && !field[i].stats.skills.contains(
                Skill::Loner4,
            ) ==> skill_candidates(field, team).contains(field[i].id),
{
    assert forall|i: int|
        0 <= i < field.len() && #[trigger] field[i].stats.team == team
            && !field[i].stats.skills.contains(Skill::Loner3) && !field[i].stats.skills.contains(
            Skill::Loner4,
        ) implies skill_candidates(field, team).contains(field[i].id) by {
        lemma_skill_candidate_complete(field, team, i);
    }
}

proof fn lemma_skill_candidate_complete(field: Seq<FieldPlayerView>, team: TeamType, i: int)
    requires
        0 <= i < field.len(),
        field[i].stats.team == team,
        !field[i].stats.skills.contains(Skill::Loner3),
        !field[i].stats.skills.contains(Skill::Loner4),
    ensures
        skill_candidates(field, team).contains(field[i].id),
    decreases field.len(),
{
    let c = skill_candidates(field, team);
    let rest = skill_candidates(field.drop_last(), team);
    if i == field.len() - 1 {
        assert(c[c.len() - 1] == field[i].id);
    } else {
        assert(field.drop_last()[i] == field[i]);
        lemma_skill_candidate_complete(field.drop_last(), team, i);
        let k = choose|k: int| 0 <= k < rest.len() && rest[k] == field[i].id;
        assert(c[k] == rest[k]);
    }
}

/// The square of every player of `team` on the pitch who carries neither Loner (3+) nor
/// Loner (4+) and whose armour (base plus temporary bonus) is below 11 is an Iron Man
/// candidate, whatever his other skills (`lemma_iron_man_candidate` gives the converse).
pub proof fn law_iron_man_candidates_are_the_eligible_squares(
    field: Seq<FieldPlayerView>,
    team: TeamType,
)
    ensures
        forall|i: int|
            0 <= i < field.len() && #[trigger] field[i].stats.team == team
                && !field[i].stats.skills.contains(Skill::Loner3) && !field[i].stats.skills.contains(
                Skill::Loner4,
            ) && field[i].stats.av + field[i].stats.temporary_av < 11
                ==> iron_man_candidates(field, team).contains(field[i].position),
{
    assert forall|i: int|
        0 <= i < field.len() && #[trigger] field[i].stats.team == team
            && !field[i].stats.skills.contains(Skill::Loner3) && !field[i].stats.skills.contains(
            Skill::Loner4,
        ) && field[i].stats.av + field[i].stats.temporary_av < 11 implies iron_man_candidates(
        field,
        team,
    ).contains(field[i].position) by {
        lemma_iron_man_candidate_complete(field, team, i);
    }
}

proof fn lemma_iron_man_candidate_complete(field: Seq<FieldPlayerView>, team: TeamType, i: int)
    requires
        0 <= i < field.len(),
        field[i].stats.team == team,
        !field[i].stats.skills.contains(Skill::Loner3),
        !field[i].stats.skills.contains(Skill::Loner4),
        field[i].stats.av + field[i].stats.temporary_av < 11,
    ensures
        iron_man_candidates(field, team).contains(field[i].position),
    decreases field.len(),
{
    let c = iron_man_candidates(field, team);
    let rest = iron_man_candidates(field.drop_last(), team);
    if i == field.len() - 1 {
        assert(c[c.len() - 1] == field[i].position);
    } else {
        assert(field.drop_last()[i] == field[i]);
        lemma_iron_man_candidate_complete(field.drop_last(), team, i);
        let k = choose|k: int| 0 <= k < rest.len() && rest[k] == field[i].position;
        assert(c[k] == rest[k]);
    }
}

/// A player of `team` without Loner (3+) or Loner (4+).
pub open spec fn non_loner_of(team: TeamType) -> spec_fn(FieldPlayerView) -> bool {
    |p: FieldPlayerView|
        p.stats.team == team && !p.stats.skills.contains(Skill::Loner3)
            && !p.stats.skills.contains(Skill::Loner4)
}

/// A player of `team` without Loner (3+) or Loner (4+) whose armour (base plus temporary
/// bonus) is below 11.
pub open spec fn iron_man_eligible_of(team: TeamType) -> spec_fn(FieldPlayerView) -> bool {
    |p: FieldPlayerView|
        p.stats.team == team && !p.stats.skills.contains(Skill::Loner3)
            && !p.stats.skills.contains(Skill::Loner4) && p.stats.av + p.stats.temporary_av < 11
}

/// The skill candidates are exactly the identities of the players of `team` on the pitch
/// without a Loner trait, each once, in pitch order.
pub proof fn law_skill_candidates_exactly_in_pitch_order(field: Seq<FieldPlayerView>, team: TeamType)
    ensures
        skill_candidates(field, team) == field.filter(non_loner_of(team)).map_values(
            |p: FieldPlayerView| p.id,
        ),
    decreases field.len(),
{
    reveal(Seq::filter);
    if field.len() > 0 {
        law_skill_candidates_exactly_in_pitch_order(field.drop_last(), team);
        let sub = field.drop_last().filter(non_loner_of(team));
        if non_loner_of(team)(field.last()) {
            assert(field.filter(non_loner_of(team)) == sub.push(field.last()));
            assert(sub.push(field.last()).map_values(|p: FieldPlayerView| p.id) =~= sub.map_values(
                |p: FieldPlayerView| p.id,
            ).push(field.last().id));
        } else {
            assert(field.filter(non_loner_of(team)) == sub);
        }
    }
}

/// The Iron Man candidates are exactly the squares of the players of `team` on the pitch
/// without a Loner trait and with armour below 11, each once, in pitch order.
pub proof fn law_iron_man_candidates_exactly_in_pitch_order(
    field: Seq<FieldPlayerView>,
    team: TeamType,
)
    ensures
        iron_man_candidates(field, team) == field.filter(iron_man_eligible_of(team)).map_values(
            |p: FieldPlayerView| p.position,
        ),
    decreases field.len(),
{
    reveal(Seq::filter);
    if field.len() > 0 {
        law_iron_man_candidates_exactly_in_pitch_order(field.drop_last(), team);
        let sub = field.drop_last().filter(iron_man_eligible_of(team));
        if iron_man_eligible_of(team)(field.last()) {
            assert(field.filter(iron_man_eligible_of(team)) == sub.push(field.last()));
            assert(sub.push(field.last()).map_values(|p: FieldPlayerView| p.position)
                =~= sub.map_values(|p: FieldPlayerView| p.position).push(field.last().position));
        } else {
            assert(field.filter(iron_man_eligible_of(team)) == sub);
        }
    }
}

/// A prayer roll of 2, 3, 4 or 5 grants Friends with the Ref, Stiletto, Iron Man or Knuckle
/// Dusters to the praying team, and those favours come from no other roll; every other roll
/// grants no favour.
pub proof fn law_prayer_favours_by_roll(team: TeamType, roll: D16)
    ensures
        (roll.spec_value() == 2) <==> prayer_effect(team, roll) == Some(
            AnyProc::FirendsWithTheRef(FirendsWithTheRef { team }),
        ),
        (roll.spec_value() == 3) <==> prayer_effect(team, roll) == Some(
            AnyProc::Stiletto(Stiletto { team }),
        ),
        (roll.spec_value() == 4) <==> prayer_effect(team, roll) == Some(
            AnyProc::IronMan(IronMan { team }),
        ),
        (roll.spec_value() == 5) <==> prayer_effect(team, roll) == Some(
            AnyProc::KnuckleDusters(KnuckleDusters { team }),
        ),
        (roll.spec_value() < 2 || roll.spec_value() > 5) <==> prayer_effect(team, roll) is None,
{
}

/// The player that a skill favour picks on `input`: the candidate with the rolled number.
pub open spec fn skill_pick(s: GameStateView, team: TeamType, input: ProcInput) -> Option<PlayerID> {
    let c = skill_candidates(s.field, team);
    match input {
        ProcInput::Roll(RollResult::D16(roll)) => if roll.spec_value() <= c.len() {
            Some(c[roll.spec_value() - 1])
        } else {
            None
        },
        _ => None,
    }
}

/// The input that a skill favour can take next.
pub open spec fn skill_favour_accepts(s: GameStateView, team: TeamType, input: ProcInput) -> bool {
    ||| skill_candidates(s.field, team).len() == 0
    ||| input is Nothing
    ||| input matches ProcInput::Roll(RollResult::D16(_))
}

/// Whether a skill favour step ends: there is no candidate, or one was picked.
pub open spec fn skill_favour_done(s: GameStateView, team: TeamType, input: ProcInput) -> bool {
    skill_candidates(s.field, team).len() == 0 || skill_pick(s, team, input) is Some
}

/// The game state after a skill favour step that gives `skill`.
pub open spec fn skill_favour_state(
    s: GameStateView,
    team: TeamType,
    input: ProcInput,
    skill: TemporarySkill,
) -> GameStateView {
    if skill_candidates(s.field, team).len() == 0 {
        s
    } else {
        match skill_pick(s, team, input) {
            Some(id) => s.give_temporary_skill(id, skill),
            None => s,
        }
    }
}

fn collect_skill_candidates(game_state: &GameState, team: TeamType) -> (ids: Vec<PlayerID>)
    ensures
        ids@ == skill_candidates(game_state@.field, team),
        forall|i: int|
            0 <= i < game_state@.field.len() && #[trigger] game_state@.field[i].stats.team == team
                && !game_state@.field[i].stats.skills.contains(Skill::Loner3)
                && !game_state@.field[i].stats.skills.contains(Skill::Loner4) ==> ids@.contains(
                game_state@.field[i].id,
            ),
{
    proof {
        law_skill_candidates_are_the_non_loners_of_the_team(game_state@.field, team);
    }
    let ghost field = game_state@.field;
    let mut ids: Vec<PlayerID> = Vec::new();
    let mut i: usize = 0;
    while i < game_state.field.len()
        invariant
            i <= game_state.field.len(),
            field == game_state@.field,
            ids@ == skill_candidates(field.take(i as int), team),
        decreases game_state.field.len() - i,
    {
        let player = &game_state.field[i];
        proof {
            assert(field.take(i + 1).drop_last() =~= field.take(i as int));
            assert(field[i as int] == player@);
            assert(field.take(i + 1).last() == player@);
        }
        if player.stats.team == team && !player.has_skill(Skill::Loner3) && !player.has_skill(
            Skill::Loner4,
        ) {
            ids.push(player.id);
        }
        i = i + 1;
    }
    assert(field.take(i as int) =~= field);
    ids
}

/// One step of a favour that gives a temporary skill to a player picked by a D16.
fn skill_favour_step(team: TeamType, skill: TemporarySkill, game_state: &mut GameState, input: ProcInput) -> (res: ProcState)
    requires
        skill_favour_accepts(old(game_state)@, team, input),
    ensures
        final(game_state)@ == skill_favour_state(old(game_state)@, team, input, skill),
        old(game_state)@.wf() ==> final(game_state)@.wf(),
        skill_favour_done(old(game_state)@, team, input) ==> res == ProcState::Done,
        !skill_favour_done(old(game_state)@, team, input) ==> res == ProcState::NeedRoll(RequestedRoll::D16),
{
    let eligible_players = collect_skill_candidates(game_state, team);
    if eligible_players.len() == 0 {
        return ProcState::Done;
    }
    match input {
        ProcInput::Nothing => ProcState::NeedRoll(RequestedRoll::D16),
        ProcInput::Roll(RollResult::D16(roll)) => {
            let index: usize = (roll.value() - 1) as usize;
            if index >= eligible_players.len() {
                return ProcState::NeedRoll(RequestedRoll::D16);
            }
            let id: PlayerID = eligible_players[index];
            proof {
                let i = lemma_skill_candidate(old(game_state)@.field, team, index as int);
                old(game_state)@.lemma_has_player(id, i);
            }
            game_state.give_player_temporary_skill(id, skill);
            ProcState::Done
        },
        _ => {
            assert(false);
            ProcState::Done
        },
    }
}

/// The Stiletto favour: a player of the team, picked by a D16, gains Stab for the drive.
#[derive(Clone, Copy, Debug, PartialEq, Eq, Structural)]
pub struct Stiletto {
    pub team: TeamType,
}

impl Stiletto {
    pub fn new(team: TeamType) -> (p: AnyProc)
        ensures
            p == AnyProc::Stiletto(Stiletto { team }),
    {
        AnyProc::Stiletto(Stiletto { team })
    }

    /// The players who may gain Stab: those of the team on the pitch without a Loner trait.
    pub fn eligible_players(&self, game_state: &GameState) -> (ids: Vec<PlayerID>)
        ensures
            ids@ == skill_candidates(game_state@.field, self.team),
            ids@ == game_state@.field.filter(non_loner_of(self.team)).map_values(
                |p: FieldPlayerView| p.id,
            ),
            forall|i: int|
                0 <= i < game_state@.field.len() && #[trigger] game_state@.field[i].stats.team == self.team
                    && !game_state@.field[i].stats.skills.contains(Skill::Loner3)
                    && !game_state@.field[i].stats.skills.contains(Skill::Loner4) ==> ids@.contains(
                    game_state@.field[i].id,
                ),
    {
        proof {
            law_skill_candidates_exactly_in_pitch_order(game_state@.field, self.team);
        }
        collect_skill_candidates(game_state, self.team)
    }

    /// With no eligible player the favour is over. Else a D16 is asked for, and the eligible
    /// player with the rolled number gains Stab; a number beyond them asks for a new roll.
    pub fn step(&mut self, game_state: &mut GameState, input: ProcInput) -> (res: ProcState)
        requires
            skill_favour_accepts(old(game_state)@, old(self).team, input),
        ensures
            *final(self) == *old(self),
            final(game_state)@ == skill_favour_state(
                old(game_state)@,
                old(self).team,
                input,
                TemporarySkill::Stab,
            ),
            old(game_state)@.wf() ==> final(game_state)@.wf(),
            skill_favour_done(old(game_state)@, old(self).team, input) ==> res == ProcState::Done,
            !skill_favour_done(old(game_state)@, old(self).team, input) ==> res
                == ProcState::NeedRoll(RequestedRoll::D16),
    {
        skill_favour_step(self.team, TemporarySkill::Stab, game_state, input)
    }
}

/// The Knuckle Dusters favour: a player of the team, picked by a D16, gains Mighty Blow (+1)
/// for the drive.
#[derive(Clone, Copy, Debug, PartialEq, Eq, Structural)]
pub struct KnuckleDusters {
    pub team: TeamType,
}

impl KnuckleDusters {
    pub fn new(team: TeamType) -> (p: AnyProc)
        ensures
            p == AnyProc::KnuckleDusters(KnuckleDusters { team }),
    {
        AnyProc::KnuckleDusters(KnuckleDusters { team })
    }

    /// The players who may gain Mighty Blow: those of the team on the pitch without a
    /// Loner trait.
    pub fn eligible_players(&self, game_state: &GameState) -> (ids: Vec<PlayerID>)
        ensures
            ids@ == skill_candidates(game_state@.field, self.team),
            ids@ == game_state@.field.filter(non_loner_of(self.team)).map_values(
                |p: FieldPlayerView| p.id,
            ),
            forall|i: int|
                0 <= i < game_state@.field.len() && #[trigger] game_state@.field[i].stats.team == self.team
                    && !game_state@.field[i].stats.skills.contains(Skill::Loner3)
                    && !game_state@.field[i].stats.skills.contains(Skill::Loner4) ==> ids@.contains(
                    game_state@.field[i].id,
                ),
    {
        proof {
            law_skill_candidates_exactly_in_pitch_order(game_state@.field, self.team);
        }
        collect_skill_candidates(game_state, self.team)
    }

    /// With no eligible player the favour is over. Else a D16 is asked for, and the eligible
    /// player with the rolled number gains Mighty Blow (+1); a number beyond them asks for a
    /// new roll.
    pub fn step(&mut self, game_state: &mut GameState, input: ProcInput) -> (res: ProcState)
        requires
            skill_favour_accepts(old(game_state)@, old(self).team, input),
        ensures
            *final(self) == *old(self),
            final(game_state)@ == skill_favour_state(
                old(game_state)@,
                old(self).team,
                input,
                TemporarySkill::MightyBlow1,
            ),
            old(game_state)@.wf() ==> final(game_state)@.wf(),
            skill_favour_done(old(game_state)@, old(self).team, input) ==> res == ProcState::Done,
            !skill_favour_done(old(game_state)@, old(self).team, input) ==> res
                == ProcState::NeedRoll(RequestedRoll::D16),
    {
        skill_favour_step(self.team, TemporarySkill::MightyBlow1, game_state, input)
    }
}

/// The Iron Man favour: a player of the team, chosen by the coach, wears one more point of
/// armour for the drive.
#[derive(Clone, Copy, Debug, PartialEq, Eq, Structural)]
pub struct IronMan {
    pub team: TeamType,
}

/// The squares of the players of `team` on the pitch, in pitch order, that Iron Man may
/// pick: those without a Loner trait whose armour is below 11.
pub open spec fn iron_man_candidates(field: Seq<FieldPlayerView>, team: TeamType) -> Seq<Position>
    decreases field.len(),
{
    if field.len() == 0 {
        Seq::empty()
    } else {
        let rest = iron_man_candidates(field.drop_last(), team);
        let p = field.last();
        if p.stats.team == team && !is_loner(p.stats) && p.stats.effective_av() < 11 {
            rest.push(p.position)
        } else {
            rest
        }
    }
}

/// Each Iron Man candidate is the square of a player of `team` on the pitch without a Loner
/// trait and with armour below 11.
pub proof fn lemma_iron_man_candidate(field: Seq<FieldPlayerView>, team: TeamType, k: int) -> (i: int)
    requires
        0 <= k < iron_man_candidates(field, team).len(),
    ensures
        0 <= i < field.len(),
        field[i].position == iron_man_candidates(field, team)[k],
        field[i].stats.team == team,
        !is_loner(field[i].stats),
        field[i].stats.effective_av() < 11,
    decreases field.len(),
{
    let rest = iron_man_candidates(field.drop_last(), team);
    if k < rest.len() {
        let i = lemma_iron_man_candidate(field.drop_last(), team, k);
        assert(field.drop_last()[i] == field[i]);
        i
    } else {
        (field.len() - 1) as int
    }
}

/// The actions offered to pick one of `squares` for a favour of `team`.
pub open spec fn offers_selection(aa: AvailableActions, team: TeamType, squares: Seq<Position>) -> bool {
    &&& aa.team == team
    &&& aa.simple@.len() == 0
    &&& aa.positional@ == squares.map_values(|p: Position| (PosAT::SelectPosition, p))
}

/// An offer to pick one of `squares` allows exactly the selection of one of them.
pub proof fn lemma_offers_selection(
    aa: AvailableActions,
    team: TeamType,
    squares: Seq<Position>,
    action: Action,
)
    requires
        offers_selection(aa, team, squares),
    ensures
        aa.spec_is_legal(action) <==> (action matches Action::Positional(PosAT::SelectPosition, p)
            && squares.contains(p)),
{
    match action {
        Action::Positional(at, p) => {
            if aa.spec_is_legal(action) {
                let k = choose|k: int| 0 <= k < aa.positional@.len() && aa.positional@[k] == (at, p);
                assert(squares[k] == p);
            }
            if at == PosAT::SelectPosition && squares.contains(p) {
                let k = choose|k: int| 0 <= k < squares.len() && squares[k] == p;
                assert(aa.positional@[k] == (at, p));
            }
        },
        Action::Simple(_) => {},
    }
}

/// The square that a coach picks for Iron Man with `input`, if he picks one.
pub open spec fn iron_man_choice(input: ProcInput) -> Option<Position> {
    match input {
        ProcInput::Action(Action::Positional(PosAT::SelectPosition, pos)) => Some(pos),
        _ => None,
    }
}

fn contains_position(squares: &Vec<Position>, pos: Position) -> (found: bool)
    ensures
        found == squares@.contains(pos),
{
    let mut i: usize = 0;
    while i < squares.len()
        invariant
            i <= squares.len(),
            forall|j: int| 0 <= j < i ==> squares@[j] != pos,
        decreases squares.len() - i,
    {
        if squares[i] == pos {
            assert(squares@[i as int] == pos);
            return true;
        }
        i = i + 1;
    }
    false
}

impl IronMan {
    pub fn new(team: TeamType) -> (p: AnyProc)
        ensures
            p == AnyProc::IronMan(IronMan { team }),
    {
        AnyProc::IronMan(IronMan { team })
    }

    /// The squares of the players who may wear more armour: those of the team on the pitch
    /// without a Loner trait whose armour is below 11.
    pub fn eligible_positions(&self, game_state: &GameState) -> (squares: Vec<Position>)
        ensures
            squares@ == iron_man_candidates(game_state@.field, self.team),
            squares@ == game_state@.field.filter(iron_man_eligible_of(self.team)).map_values(
                |p: FieldPlayerView| p.position,
            ),
            forall|i: int|
                0 <= i < game_state@.field.len() && #[trigger] game_state@.field[i].stats.team == self.team
                    && !game_state@.field[i].stats.skills.contains(Skill::Loner3)
                    && !game_state@.field[i].stats.skills.contains(Skill::Loner4)
                    && game_state@.field[i].stats.av + game_state@.field[i].stats.temporary_av < 11
                    ==> squares@.contains(game_state@.field[i].position),
    {
        proof {
            law_iron_man_candidates_are_the_eligible_squares(game_state@.field, self.team);
            law_iron_man_candidates_exactly_in_pitch_order(game_state@.field, self.team);
        }
        let ghost field = game_state@.field;
        let mut squares: Vec<Position> = Vec::new();
        let mut i: usize = 0;
        while i < game_state.field.len()
            invariant
                i <= game_state.field.len(),
                field == game_state@.field,
                squares@ == iron_man_candidates(field.take(i as int), self.team),
            decreases game_state.field.len() - i,
        {
            let player = &game_state.field[i];
            proof {
                assert(field.take(i + 1).drop_last() =~= field.take(i as int));
                assert(field[i as int] == player@);
                assert(field.take(i + 1).last() == player@);
            }
            if player.stats.team == self.team && !player.has_skill(Skill::Loner3)
                && !player.has_skill(Skill::Loner4) && player.stats.av() < 11 {
                squares.push(player.position);
            }
            i = i + 1;
        }
        assert(field.take(i as int) =~= field);
        squares
    }

    /// With no eligible player the favour is over. Else the coach is asked to pick the
    /// square of an eligible player, and that player wears one more point of armour; a pick
    /// of any other square asks again.
    pub fn step(&mut self, game_state: &mut GameState, input: ProcInput) -> (res: ProcState)
        requires
            old(game_state)@.wf(),
            iron_man_candidates(old(game_state)@.field, old(self).team).len() == 0 || input is Nothing
                || iron_man_choice(input) is Some,
        ensures
            *final(self) == *old(self),
            final(game_state)@.wf(),
            ({
                let s = old(game_state)@;
                let c = iron_man_candidates(s.field, old(self).team);
                let choice = iron_man_choice(input);
                if c.len() == 0 {
                    &&& res == ProcState::Done
                    &&& final(game_state)@ == s
                } else if choice is Some && c.contains(choice->Some_0) {
                    &&& res == ProcState::Done
                    &&& final(game_state)@ == s.add_temporary_av(
                        s.player_id_at(choice->Some_0)->Some_0,
                        1,
                    )
                } else {
                    &&& res matches ProcState::NeedAction(aa) && offers_selection(aa, old(self).team, c)
                    &&& final(game_state)@ == s
                }
            }),
    {
        let ghost s = game_state@;
        let eligible_positions = self.eligible_positions(game_state);
        if eligible_positions.len() == 0 {
            return ProcState::Done;
        }
        match input {
            ProcInput::Nothing => {
                let mut aa = AvailableActions::new(self.team);
                aa.insert_positional(PosAT::SelectPosition, eligible_positions);
                ProcState::NeedAction(aa)
            },
            ProcInput::Action(Action::Positional(PosAT::SelectPosition, pos)) => {
                if !contains_position(&eligible_positions, pos) {
                    return ProcState::NeedAction(
                        {
                            let mut aa = AvailableActions::new(self.team);
                            aa.insert_positional(PosAT::SelectPosition, eligible_positions);
                            aa
                        },
                    );
                }
                let ghost c = eligible_positions@;
                let ghost k = choose|k: int| 0 <= k < c.len() && c[k] == pos;
                let ghost i = lemma_iron_man_candidate(s.field, self.team, k);
                proof {
                    s.lemma_wf_index_at(i);
                    s.lemma_wf_player_index(i);
                }
                let id: PlayerID = match game_state.get_player_id_at(pos) {
                    Some(id) => id,
                    None => {
                        assert(false);
                        0
                    },
                };
                game_state.add_player_temporary_av(id, 1);
                ProcState::Done
            },
            _ => {
                assert(false);
                ProcState::Done
            },
        }
    }
}

} // verus!
