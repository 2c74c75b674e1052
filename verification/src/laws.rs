//! Laws that relate the procedures of the prayers to the rest of the game.
use vstd::prelude::*;

use crate::dice::D6;
use crate::gamestate::{rested, to_reserves, GameStateView, TeamState};
use crate::model::{DugoutPlace, Position, ProcInput, TeamType, TemporarySkill};
use crate::nuffle_prayers_procs::{
    iron_man_candidates, is_loner, lemma_iron_man_candidate, lemma_skill_candidate,
    skill_candidates, skill_favour_state, skill_pick,
};
use crate::player::DugoutPlayerView;

verus! {

/// The favours of the prayers last until the end of the drive: once it ends, nobody is left
/// on the pitch, every player is in the dugout without a temporary skill or armour bonus,
/// and no team is friends with the referee any more.
pub proof fn law_end_of_drive_ends_favours(s: GameStateView)
    ensures
        s.end_drive().field.len() == 0,
        s.end_drive().dugout.len() == s.dugout.len() + s.field.len(),
        forall|j: int|
            0 <= j < s.end_drive().dugout.len() ==> (#[trigger] s.end_drive().dugout[j]).stats.has_no_temporary_effects(),
        !s.end_drive().home.friends_with_the_ref,
        !s.end_drive().away.friends_with_the_ref,
        s.end_drive().next_id == s.next_id,
        s.wf() ==> s.end_drive().wf(),
{
    let e = s.end_drive();
    assert forall|j: int| 0 <= j < e.dugout.len() implies (#[trigger] e.dugout[j]).stats.has_no_temporary_effects() by {
        if j < s.dugout.len() {
            assert(e.dugout[j] == rested(s.dugout[j]));
        } else {
            assert(e.dugout[j] == to_reserves(s.field[j - s.dugout.len()]));
        }
    }
    if s.wf() {
        assert forall|a: int, b: int|
            0 <= a < e.dugout.len() && 0 <= b < e.dugout.len() && a != b implies #[trigger] e.dugout[a].id
            != #[trigger] e.dugout[b].id by {
            let d = s.dugout.len();
            if a < d && b < d {
                assert(s.dugout[a].id != s.dugout[b].id);
            } else if a < d {
                assert(s.field[b - d].id != s.dugout[a].id);
            } else if b < d {
                assert(s.field[a - d].id != s.dugout[b].id);
            } else {
                assert(s.field[a - d].id != s.field[b - d].id);
            }
        }
        assert forall|b: int| 0 <= b < e.dugout.len() implies #[trigger] e.dugout[b].id < e.next_id by {
            if b < s.dugout.len() {
                assert(s.dugout[b].id < s.next_id);
            } else {
                assert(s.field[b - s.dugout.len()].id < s.next_id);
            }
        }
    }
}

/// A touchdown ends the drive, and with it every favour of the prayers; the scoring team
/// gains a point.
pub proof fn law_touchdown_ends_favours(s: GameStateView, team: TeamType)
    requires
        s.team(team).score < u32::MAX,
    ensures
        s.touchdown(team).team(team).score == s.team(team).score + 1,
        s.touchdown(team).field.len() == 0,
        forall|j: int|
            0 <= j < s.touchdown(team).dugout.len() ==> (#[trigger] s.touchdown(team).dugout[j]).stats.has_no_temporary_effects(),
        !s.touchdown(team).home.friends_with_the_ref,
        !s.touchdown(team).away.friends_with_the_ref,
{
    let t = s.team(team);
    let scored = s.with_team(team, TeamState { score: (t.score + 1) as u32, ..t });
    law_end_of_drive_ends_favours(scored);
}

/// A skill favour changes nothing but the temporary skills of one player: a player of the
/// praying team on the pitch, without a Loner trait, who gains the skill. Players in the
/// dugout, other players and everything else stay as they were.
pub proof fn law_skill_favour_touches_one_eligible_player(
    s: GameStateView,
    team: TeamType,
    input: ProcInput,
    skill: TemporarySkill,
)
    requires
        s.wf(),
    ensures
        ({
            let t = skill_favour_state(s, team, input, skill);
            &&& t.dugout == s.dugout
            &&& t.home == s.home
            &&& t.away == s.away
            &&& t.info == s.info
            &&& t.ball == s.ball
            &&& t.next_id == s.next_id
            &&& t.field.len() == s.field.len()
            &&& forall|j: int|
                0 <= j < s.field.len() && #[trigger] t.field[j] != s.field[j] ==> {
                    &&& s.field[j].stats.team == team
                    &&& !is_loner(s.field[j].stats)
                    &&& t.field[j].id == s.field[j].id
                    &&& t.field[j].position == s.field[j].position
                    &&& t.field[j].stats == s.field[j].stats.with_temporary_skill(skill)
                }
            &&& t.wf()
        }),
{
    let c = skill_candidates(s.field, team);
    if c.len() > 0 {
        if let Some(id) = skill_pick(s, team, input) {
            let k = match input {
                ProcInput::Roll(crate::dice::RollResult::D16(roll)) => roll.spec_value() - 1,
                _ => 0,
            };
            let i = lemma_skill_candidate(s.field, team, k);
            s.lemma_wf_player_index(i);
            let t = skill_favour_state(s, team, input, skill);
            assert forall|j: int|
                0 <= j < s.field.len() && #[trigger] t.field[j] != s.field[j] implies {
                    &&& s.field[j].stats.team == team
                    &&& !is_loner(s.field[j].stats)
                    &&& t.field[j].id == s.field[j].id
                    &&& t.field[j].position == s.field[j].position
                    &&& t.field[j].stats == s.field[j].stats.with_temporary_skill(skill)
                } by {
                assert(j == i);
            }
            assert forall|a: int, b: int|
                0 <= a < t.field.len() && 0 <= b < t.field.len() && a != b implies #[trigger] t.field[a].id
                != #[trigger] t.field[b].id && t.field[a].position != t.field[b].position by {
                assert(s.field[a].id != s.field[b].id);
            }
            assert forall|a: int, b: int|
                0 <= a < t.field.len() && 0 <= b < t.dugout.len() implies #[trigger] t.field[a].id
                != #[trigger] t.dugout[b].id by {
                assert(s.field[a].id != s.dugout[b].id);
            }
            assert forall|a: int| 0 <= a < t.field.len() implies #[trigger] t.field[a].id < t.next_id by {
                assert(s.field[a].id < s.next_id);
            }
        }
    }
}

/// Iron Man raises the armour of the player on the chosen square by exactly one and never
/// above 11; that player is of the praying team, on the pitch and without a Loner trait,
/// and nobody else changes.
pub proof fn law_iron_man_armour_at_most_11(s: GameStateView, team: TeamType, pos: Position)
    requires
        s.wf(),
        iron_man_candidates(s.field, team).contains(pos),
    ensures
        ({
            let i = s.index_at(pos);
            let t = s.add_temporary_av(s.player_id_at(pos)->Some_0, 1);
            &&& 0 <= i < s.field.len()
            &&& s.field[i].position == pos
            &&& s.field[i].stats.team == team
            &&& !is_loner(s.field[i].stats)
            &&& t.field[i].stats.effective_av() == s.field[i].stats.effective_av() + 1
            &&& t.field[i].stats.effective_av() <= 11
            &&& t.field.len() == s.field.len()
            &&& forall|j: int| 0 <= j < s.field.len() && j != i ==> #[trigger] t.field[j] == s.field[j]
            &&& t.dugout == s.dugout
        }),
{
    let c = iron_man_candidates(s.field, team);
    let k = choose|k: int| 0 <= k < c.len() && c[k] == pos;
    let i = lemma_iron_man_candidate(s.field, team, k);
    s.lemma_wf_index_at(i);
    s.lemma_wf_player_index(i);
}

/// Friends with the Ref lets a coach keep his player on the pitch on an argue-the-call roll
/// of five or six; a two, three or four still sends the player off, and the coach may go on
/// arguing calls. Without the favour a five sends the player off.
pub proof fn law_friends_with_the_ref_argue_the_call(s: GameStateView, id: usize, roll: D6)
    requires
        s.wf(),
        s.has_player(id),
    ensures
        ({
            let team = s.field[s.player_index(id)].stats.team;
            let friendly = s.with_team(team, TeamState { friends_with_the_ref: true, ..s.team(team) });
            let after = friendly.after_argue_roll(id, roll);
            &&& after.info.turnover
            &&& (roll == D6::Five || roll == D6::Six) ==> after.has_player(id) && after.field
                == s.field && after.dugout == s.dugout
            &&& (roll == D6::Two || roll == D6::Three || roll == D6::Four) ==> {
                &&& !after.has_player(id)
                &&& after.dugout.last() == (DugoutPlayerView {
                    id,
                    place: DugoutPlace::Ejected,
                    stats: s.field[s.player_index(id)].stats,
                })
                &&& !after.team(team).coach_ejected == !s.team(team).coach_ejected
            }
            &&& (!s.team(team).friends_with_the_ref && roll == D6::Five) ==> !s.after_argue_roll(
                id,
                roll,
            ).has_player(id)
        }),
{
    let k = choose|k: int| 0 <= k < s.field.len() && #[trigger] s.field[k].id == id;
    s.lemma_wf_player_index(k);
    let i = s.player_index(id);
    assert(i == k);
    let team = s.field[i].stats.team;
    let friendly = s.with_team(team, TeamState { friends_with_the_ref: true, ..s.team(team) });
    assert(friendly.player_index(id) == i);
    let removed = s.field.remove(i);
    assert forall|j: int| 0 <= j < removed.len() implies #[trigger] removed[j].id != id by {
        let j2 = if j < i { j } else { j + 1 };
        assert(removed[j] == s.field[j2]);
        assert(s.field[j2].id != s.field[i].id);
    }
}

} // verus!
