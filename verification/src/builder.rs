//! Setting up game states: an empty game, and a game with linemen on given squares.
use vstd::prelude::*;

use crate::gamestate::{GameInfo, GameState, GameStateView, TeamState};
use crate::model::{BallState, PlayerID, Position, TeamType};
use crate::player::{PlayerStats, PlayerStatsView};

verus! {

/// A game before kick-off: nobody on the pitch or in the dugouts, no score, no ball.
pub open spec fn empty_game() -> GameStateView {
    GameStateView {
        home: TeamState { score: 0, friends_with_the_ref: false, coach_ejected: false },
        away: TeamState { score: 0, friends_with_the_ref: false, coach_ejected: false },
        info: GameInfo { trapdoors_active: false, turnover: false, active_player: None },
        ball: BallState::OffPitch,
        field: Seq::empty(),
        dugout: Seq::empty(),
        next_id: 0,
    }
}

/// `s` with a new lineman of `team` on each of `squares` in turn, skipping taken squares.
pub open spec fn place_linemen(s: GameStateView, squares: Seq<Position>, team: TeamType) -> GameStateView
    decreases squares.len(),
{
    if squares.len() == 0 {
        s
    } else {
        place_linemen(s, squares.drop_last(), team).add_field_player(
            PlayerStatsView::lineman(team),
            squares.last(),
        )
    }
}

/// Squares for linemen of either team and for the ball.
pub struct GameStateBuilder {
    pub home_positions: Vec<Position>,
    pub away_positions: Vec<Position>,
    pub ball_position: Option<Position>,
}

/// The mathematical value of [`GameStateBuilder`].
pub struct GameStateBuilderView {
    pub home: Seq<Position>,
    pub away: Seq<Position>,
    pub ball: Option<Position>,
}

impl View for GameStateBuilder {
    type V = GameStateBuilderView;

    open spec fn view(&self) -> GameStateBuilderView {
        GameStateBuilderView {
            home: self.home_positions@,
            away: self.away_positions@,
            ball: self.ball_position,
        }
    }
}

impl GameStateBuilderView {
    /// The game that these squares describe: home linemen, then away linemen, on their
    /// squares (a taken square gets no second player); the ball, where it has a square, is
    /// held by the player on it or else lies there.
    pub open spec fn built(self) -> GameStateView {
        let s = place_linemen(place_linemen(empty_game(), self.home, TeamType::Home), self.away, TeamType::Away);
        match self.ball {
            None => s,
            Some(pos) => GameStateView {
                ball: match s.player_id_at(pos) {
                    Some(id) => BallState::Carried(id),
                    None => BallState::OnGround(pos),
                },
                ..s
            },
        }
    }
}

fn place_linemen_exec(game: &mut GameState, squares: &Vec<Position>, team: TeamType)
    requires
        old(game)@.wf(),
        old(game)@.next_id + squares@.len() < PlayerID::MAX,
    ensures
        final(game)@ == place_linemen(old(game)@, squares@, team),
        final(game)@.wf(),
        final(game)@.next_id <= old(game)@.next_id + squares@.len(),
{
    let ghost start = game@;
    let mut i: usize = 0;
    while i < squares.len()
        invariant
            i <= squares.len(),
            start.next_id + squares@.len() < PlayerID::MAX,
            game@ == place_linemen(start, squares@.take(i as int), team),
            game@.next_id <= start.next_id + i,
            game@.wf(),
        decreases squares.len() - i,
    {
        let _ = game.add_new_player_to_field(PlayerStats::new_lineman(team), squares[i]);
        proof {
            assert(squares@.take(i + 1).drop_last() =~= squares@.take(i as int));
            assert(squares@.take(i + 1).last() == squares@[i as int]);
        }
        i = i + 1;
    }
    assert(squares@.take(i as int) =~= squares@);
}

impl GameStateBuilder {
    /// No square yet.
    pub fn new() -> (b: GameStateBuilder)
        ensures
            b@.home == Seq::<Position>::empty(),
            b@.away == Seq::<Position>::empty(),
            b@.ball == None::<Position>,
    {
        GameStateBuilder { home_positions: Vec::new(), away_positions: Vec::new(), ball_position: None }
    }

    /// Adds a home lineman on `position`.
    pub fn add_home_player(&mut self, position: Position) -> (b: &mut GameStateBuilder)
        ensures
            b@ == (GameStateBuilderView { home: old(self)@.home.push(position), ..old(self)@ }),
            *final(self) == *final(b),
    {
        self.home_positions.push(position);
        self
    }

    /// Adds an away lineman on `position`.
    pub fn add_away_player(&mut self, position: Position) -> (b: &mut GameStateBuilder)
        ensures
            b@ == (GameStateBuilderView { away: old(self)@.away.push(position), ..old(self)@ }),
            *final(self) == *final(b),
    {
        self.away_positions.push(position);
        self
    }

    /// Puts the ball on `position`.
    pub fn add_ball_pos(&mut self, position: Position) -> (b: &mut GameStateBuilder)
        ensures
            b@ == (GameStateBuilderView { ball: Some(position), ..old(self)@ }),
            *final(self) == *final(b),
    {
        self.ball_position = Some(position);
        self
    }

    /// The game that the squares describe.
    pub fn build(&self) -> (game: GameState)
        requires
            self@.home.len() + self@.away.len() < PlayerID::MAX,
        ensures
            game@ == self@.built(),
            game@.wf(),
    {
        let mut game = Self::empty_state();
        place_linemen_exec(&mut game, &self.home_positions, TeamType::Home);
        place_linemen_exec(&mut game, &self.away_positions, TeamType::Away);
        match self.ball_position {
            None => {},
            Some(pos) => {
                game.ball = match game.get_player_id_at(pos) {
                    Some(id) => BallState::Carried(id),
                    None => BallState::OnGround(pos),
                };
            },
        }
        game
    }

    /// A game before kick-off: nobody anywhere, no score, no ball.
    pub fn empty_state() -> (game: GameState)
        ensures
            game@ == empty_game(),
            game@.wf(),
    {
        let game = GameState {
            home: TeamState::new(),
            away: TeamState::new(),
            info: GameInfo { trapdoors_active: false, turnover: false, active_player: None },
            ball: BallState::OffPitch,
            field: Vec::new(),
            dugout: Vec::new(),
            next_id: 0,
        };
        assert(game@ =~= empty_game());
        game
    }
}

} // verus!
