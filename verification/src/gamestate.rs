//! The state of a game that procedures read and change.
use vstd::prelude::*;

use crate::model::{BallState, DugoutPlace, PlayerID, PosAT, Position, TeamType};
use crate::player::{
    DugoutPlayer, DugoutPlayerView, FieldPlayer, FieldPlayerView, PlayerStats, PlayerStatsView,
};
use crate::model::TemporarySkill;

verus! {

/// What a game remembers of one team.
#[derive(Clone, Copy, Debug, PartialEq, Eq, Structural)]
pub struct TeamState {
    pub score: u32,
    /// The Friends with the Ref prayer holds for this drive.
    pub friends_with_the_ref: bool,
    /// The head coach was sent off for arguing a call.
    pub coach_ejected: bool,
}

impl TeamState {
    /// A team at kick-off of a game.
    pub fn new() -> (t: TeamState)
        ensures
            t.score == 0,
            !t.friends_with_the_ref,
            !t.coach_ejected,
    {
        TeamState { score: 0, friends_with_the_ref: false, coach_ejected: false }
    }

    /// Starts the Friends with the Ref prayer for this team.
    pub fn activate_friends_with_the_ref(&mut self)
        ensures
            *final(self) == (TeamState { friends_with_the_ref: true, ..*old(self) }),
    {
        self.friends_with_the_ref = true;
    }

    pub fn has_friends_with_the_ref(&self) -> (active: bool)
        ensures
            active == self.friends_with_the_ref,
    {
        self.friends_with_the_ref
    }

    /// The head coach may still argue a call.
    pub fn can_argue_the_call(&self) -> (can: bool)
        ensures
            can == !self.coach_ejected,
    {
        !self.coach_ejected
    }
}

/// Facts about the game that belong to no team.
#[derive(Clone, Copy, Debug, PartialEq, Eq)]
pub struct GameInfo {
    /// Trapdoors have opened in the pitch.
    pub trapdoors_active: bool,
    /// The active team's turn has ended in a turnover.
    pub turnover: bool,
    /// The player who is taking an action.
    pub active_player: Option<PlayerID>,
}

/// Why a request on the game state was refused.
#[derive(Clone, Copy, Debug, PartialEq, Eq, Structural)]
pub enum GameError {
    PlayerNotFound,
    PositionOccupied,
}

/// The state of a game: both teams, the ball, the pitch and the dugouts.
#[derive(Clone, Debug)]
pub struct GameState {
    pub home: TeamState,
    pub away: TeamState,
    pub info: GameInfo,
    pub ball: BallState,
    /// The players on the pitch.
    pub field: Vec<FieldPlayer>,
    /// The players off the pitch.
    pub dugout: Vec<DugoutPlayer>,
    /// The identity that the next new player gets.
    pub next_id: PlayerID,
}

/// The mathematical value of [`GameState`].
#[verifier::ext_equal]
pub struct GameStateView {
    pub home: TeamState,
    pub away: TeamState,
    pub info: GameInfo,
    pub ball: BallState,
    pub field: Seq<FieldPlayerView>,
    pub dugout: Seq<DugoutPlayerView>,
    pub next_id: PlayerID,
}

impl View for GameState {
    type V = GameStateView;

    open spec fn view(&self) -> GameStateView {
        GameStateView {
            home: self.home,
            away: self.away,
            info: self.info,
            ball: self.ball,
            field: self.field@.map_values(|p: FieldPlayer| p@),
            dugout: self.dugout@.map_values(|p: DugoutPlayer| p@),
            next_id: self.next_id,
        }
    }
}

/// The column that a player of `team` scores in.
pub open spec fn scoring_column(team: TeamType) -> i8 {
    match team {
        TeamType::Home => 1,
        TeamType::Away => 26,
    }
}

/// The first index of the player `id` in `field`.
pub open spec fn first_index_of(field: Seq<FieldPlayerView>, id: PlayerID) -> int {
    choose|i: int| is_first_index_of(field, i, id)
}

/// `i` is the first index of the player `id` in `field`.
pub open spec fn is_first_index_of(field: Seq<FieldPlayerView>, i: int, id: PlayerID) -> bool {
    &&& 0 <= i < field.len()
    &&& field[i].id == id
    &&& forall|j: int| 0 <= j < i ==> #[trigger] field[j].id != id
}

/// `i` is the first index of a player on `pos` in `field`.
pub open spec fn is_first_index_at(field: Seq<FieldPlayerView>, i: int, pos: Position) -> bool {
    &&& 0 <= i < field.len()
    &&& field[i].position == pos
    &&& forall|j: int| 0 <= j < i ==> #[trigger] field[j].position != pos
}

/// The first index of a player on `pos` in `field`.
pub open spec fn first_index_at(field: Seq<FieldPlayerView>, pos: Position) -> int {
    choose|i: int| is_first_index_at(field, i, pos)
}

/// A player in the dugout once the drive is over: his temporary effects end.
pub open spec fn rested(d: DugoutPlayerView) -> DugoutPlayerView {
    DugoutPlayerView { stats: d.stats.without_temporary_effects(), ..d }
}

/// A player on the pitch once the drive is over: he goes to the reserves and his temporary
/// effects end.
pub open spec fn to_reserves(p: FieldPlayerView) -> DugoutPlayerView {
    DugoutPlayerView {
        id: p.id,
        place: DugoutPlace::Reserves,
        stats: p.stats.without_temporary_effects(),
    }
}

/// The column that a player of `team` scores in.
pub fn get_scoring_column(team: TeamType) -> (x: i8)
    ensures
        x == scoring_column(team),
{
    match team {
        TeamType::Home => 1,
        TeamType::Away => 26,
    }
}

impl GameStateView {
    /// No two players on the pitch share an identity or a square, no two players share an
    /// identity at all, and every identity is below the next one to be handed out.
    pub open spec fn wf(self) -> bool {
        &&& forall|i: int, j: int|
            #![trigger self.field[i], self.field[j]]
            0 <= i < self.field.len() && 0 <= j < self.field.len() && i != j ==> self.field[i].id
                != self.field[j].id && self.field[i].position != self.field[j].position
        &&& forall|i: int, j: int|
            #![trigger self.dugout[i], self.dugout[j]]
            0 <= i < self.dugout.len() && 0 <= j < self.dugout.len() && i != j
                ==> self.dugout[i].id != self.dugout[j].id
        &&& forall|i: int, j: int|
            #![trigger self.field[i], self.dugout[j]]
            0 <= i < self.field.len() && 0 <= j < self.dugout.len() ==> self.field[i].id
                != self.dugout[j].id
        &&& forall|i: int| #![trigger self.field[i]] 0 <= i < self.field.len() ==> self.field[i].id < self.next_id
        &&& forall|j: int| #![trigger self.dugout[j]] 0 <= j < self.dugout.len() ==> self.dugout[j].id < self.next_id
    }

    pub open spec fn team(self, team: TeamType) -> TeamState {
        match team {
            TeamType::Home => self.home,
            TeamType::Away => self.away,
        }
    }

    pub open spec fn with_team(self, team: TeamType, state: TeamState) -> GameStateView {
        match team {
            TeamType::Home => GameStateView { home: state, ..self },
            TeamType::Away => GameStateView { away: state, ..self },
        }
    }

    /// `i` is the first index of the player `id` on the pitch.
    pub open spec fn is_player_index(self, i: int, id: PlayerID) -> bool {
        is_first_index_of(self.field, i, id)
    }

    pub open spec fn has_player(self, id: PlayerID) -> bool {
        exists|i: int| 0 <= i < self.field.len() && #[trigger] self.field[i].id == id
    }

    pub open spec fn player_index(self, id: PlayerID) -> int {
        first_index_of(self.field, id)
    }

    /// `i` is the first index of a player on the square `pos`.
    pub open spec fn is_index_at(self, i: int, pos: Position) -> bool {
        is_first_index_at(self.field, i, pos)
    }

    pub open spec fn has_player_at(self, pos: Position) -> bool {
        exists|i: int| 0 <= i < self.field.len() && #[trigger] self.field[i].position == pos
    }

    pub open spec fn index_at(self, pos: Position) -> int {
        first_index_at(self.field, pos)
    }

    /// The player on the square `pos`, if any.
    pub open spec fn player_id_at(self, pos: Position) -> Option<PlayerID> {
        if self.has_player_at(pos) {
            Some(self.field[self.index_at(pos)].id)
        } else {
            None
        }
    }

    /// This state with new statistics for the player at index `i` of the pitch.
    pub open spec fn with_field_stats(self, i: int, stats: PlayerStatsView) -> GameStateView {
        GameStateView {
            field: self.field.update(i, FieldPlayerView { stats, ..self.field[i] }),
            ..self
        }
    }

    /// This state with the player `id` holding `skill` until the end of the drive.
    pub open spec fn give_temporary_skill(self, id: PlayerID, skill: TemporarySkill) -> GameStateView {
        let i = self.player_index(id);
        self.with_field_stats(i, self.field[i].stats.with_temporary_skill(skill))
    }

    /// This state with the player `id` wearing `bonus` more armour until the end of the drive.
    pub open spec fn add_temporary_av(self, id: PlayerID, bonus: u8) -> GameStateView {
        let i = self.player_index(id);
        self.with_field_stats(i, self.field[i].stats.with_temporary_av(bonus))
    }

    /// This state with a new player of `stats` on `pos`, or unchanged where `pos` is taken.
    pub open spec fn add_field_player(self, stats: PlayerStatsView, pos: Position) -> GameStateView {
        if self.has_player_at(pos) {
            self
        } else {
            GameStateView {
                field: self.field.push(FieldPlayerView { id: self.next_id, position: pos, stats }),
                next_id: (self.next_id + 1) as PlayerID,
                ..self
            }
        }
    }

    /// This state with a new player of `stats` in the dugout at `place`.
    pub open spec fn add_dugout_player(self, stats: PlayerStatsView, place: DugoutPlace) -> GameStateView {
        GameStateView {
            dugout: self.dugout.push(DugoutPlayerView { id: self.next_id, place, stats }),
            next_id: (self.next_id + 1) as PlayerID,
            ..self
        }
    }

    /// This state with the player `id` sent from the pitch to the dugout as ejected.
    pub open spec fn eject_player(self, id: PlayerID) -> GameStateView {
        let i = self.player_index(id);
        GameStateView {
            field: self.field.remove(i),
            dugout: self.dugout.push(
                DugoutPlayerView { id, place: DugoutPlace::Ejected, stats: self.field[i].stats },
            ),
            ..self
        }
    }

    /// This state after the team `team` scores: one more point, and the drive ends.
    pub open spec fn touchdown(self, team: TeamType) -> GameStateView {
        let t = self.team(team);
        let score = if t.score < u32::MAX { (t.score + 1) as u32 } else { t.score };
        self.with_team(team, TeamState { score, ..t }).end_drive()
    }

    /// This state after the positional action `action_type` on `pos`. Starting a move makes
    /// the player on `pos`, if any, the active player. A move takes the active player to
    /// the empty square `pos`; where he carries the ball into the column that his team
    /// scores in, his team scores. Any other positional action changes nothing here.
    pub open spec fn after_positional(self, action_type: PosAT, pos: Position) -> GameStateView {
        match action_type {
            PosAT::StartMove => GameStateView {
                info: GameInfo { active_player: self.player_id_at(pos), ..self.info },
                ..self
            },
            PosAT::Move => match self.info.active_player {
                Some(id) => if self.has_player(id) && !self.has_player_at(pos) {
                    let i = self.player_index(id);
                    let team = self.field[i].stats.team;
                    let moved = GameStateView {
                        field: self.field.update(i, FieldPlayerView { position: pos, ..self.field[i] }),
                        ..self
                    };
                    if self.ball == BallState::Carried(id) && pos.x == scoring_column(team) {
                        moved.touchdown(team)
                    } else {
                        moved
                    }
                } else {
                    self
                },
                None => self,
            },
            PosAT::SelectPosition => self,
        }
    }

    /// This state at the end of a drive: every player goes to the dugout (those on the pitch
    /// to the reserves), every temporary effect and every Friends with the Ref prayer ends,
    /// and the ball leaves the pitch.
    pub open spec fn end_drive(self) -> GameStateView {
        GameStateView {
            home: TeamState { friends_with_the_ref: false, ..self.home },
            away: TeamState { friends_with_the_ref: false, ..self.away },
            info: GameInfo { active_player: None, ..self.info },
            ball: BallState::OffPitch,
            field: Seq::empty(),
            dugout: self.dugout.map_values(|d: DugoutPlayerView| rested(d)) + self.field.map_values(
                |p: FieldPlayerView| to_reserves(p),
            ),
            next_id: self.next_id,
        }
    }
}

impl GameStateView {
    /// The first index of a player is the one that `player_index` names.
    pub proof fn lemma_player_index(self, i: int, id: PlayerID)
        requires
            self.is_player_index(i, id),
        ensures
            self.player_index(id) == i,
            self.has_player(id),
    {
        let k = self.player_index(id);
        assert(self.is_player_index(k, id));
        if k < i {
            assert(self.field[k].id != id);
        } else if k > i {
            assert(self.field[i].id != id);
        }
    }

    /// A player on the pitch has a first index.
    pub proof fn lemma_has_player(self, id: PlayerID, k: int)
        requires
            0 <= k < self.field.len(),
            self.field[k].id == id,
        ensures
            self.is_player_index(self.player_index(id), id),
            self.has_player(id),
        decreases k,
    {
        if forall|j: int| 0 <= j < k ==> #[trigger] self.field[j].id != id {
            assert(self.is_player_index(k, id));
        } else {
            let j = choose|j: int| 0 <= j < k && #[trigger] self.field[j].id == id;
            self.lemma_has_player(id, j);
        }
    }

    /// In a well-formed state a player's index is any index holding his identity.
    pub proof fn lemma_wf_player_index(self, i: int)
        requires
            self.wf(),
            0 <= i < self.field.len(),
        ensures
            self.is_player_index(i, self.field[i].id),
            self.player_index(self.field[i].id) == i,
    {
        let id = self.field[i].id;
        assert forall|j: int| 0 <= j < i implies #[trigger] self.field[j].id != id by {
            assert(self.field[j].id != self.field[i].id);
        }
        self.lemma_player_index(i, id);
    }

    /// In a well-formed state the player on a square is the one at any index on that square.
    pub proof fn lemma_wf_index_at(self, i: int)
        requires
            self.wf(),
            0 <= i < self.field.len(),
        ensures
            self.is_index_at(i, self.field[i].position),
            self.index_at(self.field[i].position) == i,
            self.player_id_at(self.field[i].position) == Some(self.field[i].id),
    {
        let pos = self.field[i].position;
        assert forall|j: int| 0 <= j < i implies #[trigger] self.field[j].position != pos by {
            assert(self.field[j].position != self.field[i].position);
        }
        self.lemma_index_at(i, pos);
    }

    /// The first index of a player on `pos` is the one that `index_at` names.
    pub proof fn lemma_index_at(self, i: int, pos: Position)
        requires
            self.is_index_at(i, pos),
        ensures
            self.index_at(pos) == i,
            self.has_player_at(pos),
    {
        let k = self.index_at(pos);
        assert(self.is_index_at(k, pos));
        if k < i {
            assert(self.field[k].position != pos);
        } else if k > i {
            assert(self.field[i].position != pos);
        }
    }
}

impl GameState {
    fn find_player_index(&self, id: PlayerID) -> (r: Option<usize>)
        ensures
            match r {
                Some(i) => self@.is_player_index(i as int, id),
                None => !self@.has_player(id),
            },
    {
        let mut i: usize = 0;
        while i < self.field.len()
            invariant
                i <= self.field.len(),
                forall|j: int| 0 <= j < i ==> #[trigger] self@.field[j].id != id,
            decreases self.field.len() - i,
        {
            assert(self@.field[i as int] == self.field@[i as int]@);
            if self.field[i].id == id {
                return Some(i);
            }
            i = i + 1;
        }
        None
    }

    fn find_index_at(&self, pos: Position) -> (r: Option<usize>)
        ensures
            match r {
                Some(i) => self@.is_index_at(i as int, pos),
                None => !self@.has_player_at(pos),
            },
    {
        let mut i: usize = 0;
        while i < self.field.len()
            invariant
                i <= self.field.len(),
                forall|j: int| 0 <= j < i ==> #[trigger] self@.field[j].position != pos,
            decreases self.field.len() - i,
        {
            assert(self@.field[i as int] == self.field@[i as int]@);
            if self.field[i].position == pos {
                return Some(i);
            }
            i = i + 1;
        }
        None
    }

    /// The player `id` on the pitch.
    pub fn get_player(&self, id: PlayerID) -> (r: Result<&FieldPlayer, GameError>)
        ensures
            match r {
                Ok(p) => self@.has_player(id) && self@.is_player_index(self@.player_index(id), id)
                    && p@ == self@.field[self@.player_index(id)],
                Err(e) => !self@.has_player(id) && e == GameError::PlayerNotFound,
            },
    {
        match self.find_player_index(id) {
            Some(i) => {
                proof {
                    self@.lemma_player_index(i as int, id);
                }
                Ok(&self.field[i])
            },
            None => Err(GameError::PlayerNotFound),
        }
    }

    /// The player on the square `pos`, if any.
    pub fn get_player_id_at(&self, pos: Position) -> (r: Option<PlayerID>)
        ensures
            r == self@.player_id_at(pos),
    {
        match self.find_index_at(pos) {
            Some(i) => {
                proof {
                    self@.lemma_index_at(i as int, pos);
                }
                Some(self.field[i].id)
            },
            None => None,
        }
    }

    /// The players off the pitch.
    pub fn get_dugout(&self) -> (d: &Vec<DugoutPlayer>)
        ensures
            d@.map_values(|p: DugoutPlayer| p@) == self@.dugout,
    {
        &self.dugout
    }
}

impl GameState {
    /// Puts a new player of `stats` on the square `position`, refused where it is taken.
    pub fn add_new_player_to_field(&mut self, stats: PlayerStats, position: Position) -> (r: Result<
        PlayerID,
        GameError,
    >)
        requires
            old(self).next_id < PlayerID::MAX,
        ensures
            final(self)@ == old(self)@.add_field_player(stats@, position),
            r == if old(self)@.has_player_at(position) {
                Err::<PlayerID, GameError>(GameError::PositionOccupied)
            } else {
                Ok::<PlayerID, GameError>(old(self).next_id)
            },
            old(self)@.wf() ==> final(self)@.wf(),
    {
        match self.find_index_at(position) {
            Some(i) => {
                proof {
                    self@.lemma_index_at(i as int, position);
                }
                Err(GameError::PositionOccupied)
            },
            None => {
                let id: PlayerID = self.next_id;
                self.field.push(FieldPlayer { id, position, stats });
                self.next_id = self.next_id + 1;
                assert(self@.field =~= old(self)@.field.push(
                    FieldPlayerView { id, position, stats: stats@ },
                ));
                Ok(id)
            },
        }
    }

    /// Puts a new player of `stats` in the dugout at `place`.
    pub fn dugout_add_new_player(&mut self, stats: PlayerStats, place: DugoutPlace) -> (id: PlayerID)
        requires
            old(self).next_id < PlayerID::MAX,
        ensures
            final(self)@ == old(self)@.add_dugout_player(stats@, place),
            id == old(self).next_id,
            old(self)@.wf() ==> final(self)@.wf(),
    {
        let id: PlayerID = self.next_id;
        self.dugout.push(DugoutPlayer { id, place, stats });
        self.next_id = self.next_id + 1;
        assert(self@.dugout =~= old(self)@.dugout.push(DugoutPlayerView { id, place, stats: stats@ }));
        id
    }

    /// Gives the player `id` on the pitch `skill` until the end of the drive.
    pub fn give_player_temporary_skill(&mut self, id: PlayerID, skill: TemporarySkill)
        requires
            old(self)@.has_player(id),
        ensures
            final(self)@ == old(self)@.give_temporary_skill(id, skill),
            old(self)@.wf() ==> final(self)@.wf(),
    {
        let i: usize = match self.find_player_index(id) {
            Some(i) => i,
            None => {
                assert(false);
                0
            },
        };
        proof {
            self@.lemma_player_index(i as int, id);
        }
        let mut player = self.field.remove(i);
        player.stats.give_temporary_skill(skill);
        self.field.insert(i, player);
        assert(self@.field =~= old(self)@.field.update(
            i as int,
            FieldPlayerView {
                stats: old(self)@.field[i as int].stats.with_temporary_skill(skill),
                ..old(self)@.field[i as int]
            },
        ));
    }

    /// Raises the armour of the player `id` on the pitch by `bonus` until the end of the drive.
    pub fn add_player_temporary_av(&mut self, id: PlayerID, bonus: u8)
        requires
            old(self)@.has_player(id),
            old(self)@.field[old(self)@.player_index(id)].stats.temporary_av + bonus <= u8::MAX,
        ensures
            final(self)@ == old(self)@.add_temporary_av(id, bonus),
            old(self)@.wf() ==> final(self)@.wf(),
    {
        let i: usize = match self.find_player_index(id) {
            Some(i) => i,
            None => {
                assert(false);
                0
            },
        };
        proof {
            self@.lemma_player_index(i as int, id);
        }
        let mut player = self.field.remove(i);
        player.stats.add_temporary_av(bonus);
        self.field.insert(i, player);
        assert(self@.field =~= old(self)@.field.update(
            i as int,
            FieldPlayerView {
                stats: old(self)@.field[i as int].stats.with_temporary_av(bonus),
                ..old(self)@.field[i as int]
            },
        ));
    }

    /// Sends the player `id` from the pitch to the dugout as ejected.
    pub fn eject_player(&mut self, id: PlayerID)
        requires
            old(self)@.has_player(id),
        ensures
            final(self)@ == old(self)@.eject_player(id),
            old(self)@.wf() ==> final(self)@.wf(),
    {
        let i: usize = match self.find_player_index(id) {
            Some(i) => i,
            None => {
                assert(false);
                0
            },
        };
        proof {
            self@.lemma_player_index(i as int, id);
        }
        let player = self.field.remove(i);
        let ghost stats = player.stats@;
        self.dugout.push(DugoutPlayer { id, place: DugoutPlace::Ejected, stats: player.stats });
        assert(self@.field =~= old(self)@.field.remove(i as int));
        assert(self@.dugout =~= old(self)@.dugout.push(
            DugoutPlayerView { id, place: DugoutPlace::Ejected, stats },
        ));
        proof {
            let o = old(self)@;
            let n = self@;
            if o.wf() {
                assert forall|a: int, b: int|
                    0 <= a < n.field.len() && 0 <= b < n.dugout.len() implies #[trigger] n.field[a].id
                    != #[trigger] n.dugout[b].id by {
                    let a2 = if a < i { a } else { a + 1 };
                    assert(n.field[a] == o.field[a2]);
                    if b < o.dugout.len() {
                        assert(n.dugout[b] == o.dugout[b]);
                    } else {
                        assert(a2 != i as int);
                    }
                }
                assert forall|a: int, b: int|
                    0 <= a < n.dugout.len() && 0 <= b < n.dugout.len() && a != b implies #[trigger] n.dugout[a].id
                    != #[trigger] n.dugout[b].id by {
                    if a < o.dugout.len() && b < o.dugout.len() {
                    } else if a < o.dugout.len() {
                        assert(o.field[i as int].id != o.dugout[a].id);
                    } else {
                        assert(o.field[i as int].id != o.dugout[b].id);
                    }
                }
                assert forall|a: int, b: int|
                    0 <= a < n.field.len() && 0 <= b < n.field.len() && a != b implies #[trigger] n.field[a].id
                    != #[trigger] n.field[b].id && n.field[a].position != n.field[b].position by {
                    let a2 = if a < i { a } else { a + 1 };
                    let b2 = if b < i { b } else { b + 1 };
                    assert(n.field[a] == o.field[a2]);
                    assert(n.field[b] == o.field[b2]);
                }
                assert forall|a: int| 0 <= a < n.field.len() implies #[trigger] n.field[a].id < n.next_id by {
                    let a2 = if a < i { a } else { a + 1 };
                    assert(n.field[a] == o.field[a2]);
                }
            }
        }
    }
}

impl GameState {
    /// Ends the drive: every player goes to the dugout, those on the pitch to the reserves;
    /// every temporary skill and armour bonus ends, and so does Friends with the Ref.
    pub fn end_drive(&mut self)
        ensures
            final(self)@ == old(self)@.end_drive(),
            old(self)@.wf() ==> final(self)@.wf(),
    {
        let ghost d0 = old(self)@.dugout;
        let ghost f0 = old(self)@.field;
        self.home.friends_with_the_ref = false;
        self.away.friends_with_the_ref = false;
        self.info.active_player = None;
        self.ball = BallState::OffPitch;
        let mut rest: Vec<DugoutPlayer> = Vec::new();
        std::mem::swap(&mut rest, &mut self.dugout);
        let mut leaving: Vec<FieldPlayer> = Vec::new();
        std::mem::swap(&mut leaving, &mut self.field);
        let ghost mid = *self;
        assert(rest@.map_values(|p: DugoutPlayer| p@) == d0);
        assert(leaving@.map_values(|p: FieldPlayer| p@) == f0);
        while rest.len() > 0
            invariant
                rest.len() + self.dugout.len() == d0.len(),
                forall|j: int|
                    0 <= j < rest.len() ==> #[trigger] rest@[j]@ == d0[self.dugout.len() + j],
                forall|j: int|
                    0 <= j < self.dugout.len() ==> #[trigger] self.dugout@[j]@ == rested(d0[j]),
                self.field@.len() == 0,
                self.home == mid.home,
                self.away == mid.away,
                self.info == mid.info,
                self.ball == mid.ball,
                self.next_id == mid.next_id,
            decreases rest.len(),
        {
            assert(rest@[0]@ == d0[self.dugout.len() + 0]);
            let ghost before = rest@;
            let mut d = rest.remove(0);
            d.stats.clear_temporary_effects();
            self.dugout.push(d);
            assert forall|j: int| 0 <= j < rest.len() implies #[trigger] rest@[j]@ == d0[self.dugout.len() + j] by {
                assert(rest@[j] == before[j + 1]);
            }
        }
        while leaving.len() > 0
            invariant
                leaving.len() + self.dugout.len() == d0.len() + f0.len(),
                self.dugout.len() >= d0.len(),
                forall|j: int|
                    0 <= j < leaving.len() ==> #[trigger] leaving@[j]@ == f0[self.dugout.len() - d0.len() + j],
                forall|j: int|
                    0 <= j < d0.len() ==> #[trigger] self.dugout@[j]@ == rested(d0[j]),
                forall|j: int|
                    d0.len() <= j < self.dugout.len() ==> #[trigger] self.dugout@[j]@ == to_reserves(
                        f0[j - d0.len()],
                    ),
                self.field@.len() == 0,
                self.home == mid.home,
                self.away == mid.away,
                self.info == mid.info,
                self.ball == mid.ball,
                self.next_id == mid.next_id,
            decreases leaving.len(),
        {
            assert(leaving@[0]@ == f0[self.dugout.len() - d0.len() + 0]);
            let ghost before = leaving@;
            let p = leaving.remove(0);
            let mut stats = p.stats;
            stats.clear_temporary_effects();
            self.dugout.push(DugoutPlayer { id: p.id, place: DugoutPlace::Reserves, stats });
            assert forall|j: int| 0 <= j < leaving.len() implies #[trigger] leaving@[j]@ == f0[self.dugout.len() - d0.len() + j] by {
                assert(leaving@[j] == before[j + 1]);
            }
        }
        let ghost target = old(self)@.end_drive();
        assert(self@.field =~= target.field);
        assert(self@.dugout =~= target.dugout);
        assert(self@ =~= target);
        proof {
            let o = old(self)@;
            let n = self@;
            if o.wf() {
                assert forall|a: int, b: int|
                    0 <= a < n.dugout.len() && 0 <= b < n.dugout.len() && a != b implies #[trigger] n.dugout[a].id
                    != #[trigger] n.dugout[b].id by {
                    if a < d0.len() && b < d0.len() {
                        assert(o.dugout[a].id != o.dugout[b].id);
                    } else if a < d0.len() {
                        assert(o.field[b - d0.len()].id != o.dugout[a].id);
                    } else if b < d0.len() {
                        assert(o.field[a - d0.len()].id != o.dugout[b].id);
                    } else {
                        assert(o.field[a - d0.len()].id != o.field[b - d0.len()].id);
                    }
                }
                assert forall|b: int| 0 <= b < n.dugout.len() implies #[trigger] n.dugout[b].id < n.next_id by {
                    if b < d0.len() {
                        assert(o.dugout[b].id < o.next_id);
                    } else {
                        assert(o.field[b - d0.len()].id < o.next_id);
                    }
                }
            }
        }
    }

    /// Carries out the positional action `action_type` on `position`: starting a move picks
    /// the active player; a move takes him to the square and scores a touchdown where he
    /// carries the ball into the column that his team scores in.
    pub fn step_positional(&mut self, action_type: PosAT, position: Position)
        ensures
            final(self)@ == old(self)@.after_positional(action_type, position),
            old(self)@.wf() ==> final(self)@.wf(),
    {
        match action_type {
            PosAT::StartMove => {
                let active = self.get_player_id_at(position);
                self.info.active_player = active;
            },
            PosAT::Move => {
                if let Some(id) = self.info.active_player {
                    if let Some(i) = self.find_player_index(id) {
                        proof {
                            self@.lemma_player_index(i as int, id);
                        }
                        if self.find_index_at(position).is_none() {
                            let mut player = self.field.remove(i);
                            let team = player.stats.team;
                            player.position = position;
                            self.field.insert(i, player);
                            let ghost o = old(self)@;
                            assert(self@.field =~= o.field.update(
                                i as int,
                                FieldPlayerView { position, ..o.field[i as int] },
                            ));
                            proof {
                                if o.wf() {
                                    let n = self@;
                                    assert forall|a: int, b: int|
                                        0 <= a < n.field.len() && 0 <= b < n.field.len() && a != b implies #[trigger] n.field[a].id
                                        != #[trigger] n.field[b].id && n.field[a].position != n.field[b].position by {
                                        if a != i && b != i {
                                            assert(n.field[a] == o.field[a]);
                                            assert(n.field[b] == o.field[b]);
                                        } else if a == i {
                                            assert(n.field[b] == o.field[b]);
                                            assert(o.field[b].position != position);
                                            assert(o.field[b].id != o.field[a].id);
                                        } else {
                                            assert(n.field[a] == o.field[a]);
                                            assert(o.field[a].position != position);
                                            assert(o.field[b].id != o.field[a].id);
                                        }
                                    }
                                    assert forall|a: int, b: int|
                                        0 <= a < n.field.len() && 0 <= b < n.dugout.len() implies #[trigger] n.field[a].id
                                        != #[trigger] n.dugout[b].id by {
                                        assert(n.field[a].id == o.field[a].id);
                                    }
                                    assert forall|a: int| 0 <= a < n.field.len() implies #[trigger] n.field[a].id < n.next_id by {
                                        assert(n.field[a].id == o.field[a].id);
                                    }
                                }
                            }
                            if self.ball == BallState::Carried(id) && position.x == get_scoring_column(team) {
                                match team {
                                    TeamType::Home => {
                                        if self.home.score < u32::MAX {
                                            self.home.score = self.home.score + 1;
                                        }
                                    },
                                    TeamType::Away => {
                                        if self.away.score < u32::MAX {
                                            self.away.score = self.away.score + 1;
                                        }
                                    },
                                }
                                self.end_drive();
                            }
                        }
                    }
                }
            },
            PosAT::SelectPosition => {},
        }
    }
}

} // verus!
