use botbowl_engine::builder::GameStateBuilder;
use botbowl_engine::dice::{RequestedRoll, RollResult, D16, D6};
use botbowl_engine::gamestate::GameState;
use botbowl_engine::model::{
    Action, DugoutPlace, PlayerID, PosAT, Position, ProcInput, SimpleAT, Skill, TeamType,
    TemporarySkill,
};
use botbowl_engine::nuffle_prayers_procs::{IronMan, PrayersToNuffle};
use botbowl_engine::player::PlayerStats;
use botbowl_engine::procedures::{AnyProc, Ejection, ProcState};

// ---- Friends with the Ref ----

fn activate_friends_with_the_ref(state: &mut GameState, team: TeamType) {
    let mut prayer = match PrayersToNuffle::new(team) {
        AnyProc::PrayersToNuffle(proc) => proc,
        _ => unreachable!(),
    };

    assert!(matches!(
        prayer.step(state, ProcInput::Nothing),
        ProcState::NeedRoll(RequestedRoll::D16)
    ));

    let ProcState::DoneNewProcs(mut procs) =
        prayer.step(state, ProcInput::Roll(RollResult::D16(D16::Two)))
    else {
        panic!("Friends with the Ref should enqueue its activator proc");
    };

    assert_eq!(procs.len(), 1);
    let AnyProc::FirendsWithTheRef(mut effect) = procs.pop().unwrap() else {
        panic!("Expected Friends with the Ref activator proc");
    };

    assert!(matches!(effect.step(state, ProcInput::Nothing), ProcState::Done));
}

fn build_single_player_state(team: TeamType, position: Position) -> GameState {
    let mut builder = GameStateBuilder::new();
    match team {
        TeamType::Home => {
            builder.add_home_player(position);
        }
        TeamType::Away => {
            builder.add_away_player(position);
        }
    }
    builder.build()
}

fn new_foul_ejection(id: PlayerID) -> Ejection {
    match Ejection::new_foul(id) {
        AnyProc::Ejection(proc) => proc,
        _ => unreachable!(),
    }
}

fn resolve_foul_argue_the_call(state: &mut GameState, id: PlayerID, roll: D6) {
    let mut ejection = new_foul_ejection(id);

    let proc_state = ejection.step(state, ProcInput::Nothing);
    assert!(matches!(
        proc_state,
        ProcState::NeedAction(aa)
            if aa.is_legal_action(Action::Simple(SimpleAT::ArgueTheCall))
                && aa.is_legal_action(Action::Simple(SimpleAT::DontArgueTheCall))
    ));

    assert!(matches!(
        ejection.step(
            state,
            ProcInput::Action(Action::Simple(SimpleAT::ArgueTheCall)),
        ),
        ProcState::NeedRoll(RequestedRoll::D6)
    ));

    assert!(matches!(
        ejection.step(state, ProcInput::Roll(RollResult::D6(roll))),
        ProcState::Done
    ));
}

#[test]
fn should_be_removed_at_the_end_of_the_drive() {
    let start_pos = Position::new((2, 5));
    let td_pos = Position::new((1, 5));
    let mut state = GameStateBuilder::new()
        .add_home_player(start_pos)
        .add_ball_pos(start_pos)
        .build();

    activate_friends_with_the_ref(&mut state, TeamType::Home);

    state.step_positional(PosAT::StartMove, start_pos);
    state.step_positional(PosAT::Move, td_pos);

    assert_eq!(state.home.score, 1);

    let post_drive_pos = Position::new((5, 5));
    let id = state
        .add_new_player_to_field(PlayerStats::new_lineman(TeamType::Home), post_drive_pos)
        .unwrap();

    resolve_foul_argue_the_call(&mut state, id, D6::Five);

    assert_eq!(state.get_player_id_at(post_drive_pos), None);
    assert!(state.info.turnover);
    assert!(state.home.can_argue_the_call());
    assert!(state.get_dugout().iter().any(|player| {
        player.place == DugoutPlace::Ejected && player.stats.team == TeamType::Home
    }));
}

#[test]
fn argue_the_call_should_be_correctly_modified_on_roll_of_five_or_six() {
    let start_pos = Position::new((5, 5));

    for roll in [D6::Five, D6::Six] {
        let mut state = build_single_player_state(TeamType::Home, start_pos);
        activate_friends_with_the_ref(&mut state, TeamType::Home);

        let id = state.get_player_id_at(start_pos).unwrap();
        resolve_foul_argue_the_call(&mut state, id, roll);

        assert_eq!(state.get_player_id_at(start_pos), Some(id));
        assert!(state.info.turnover);
        assert!(state.home.can_argue_the_call());
        assert!(state.get_dugout().iter().next().is_none());
    }

    let mut control_state = build_single_player_state(TeamType::Away, start_pos);
    activate_friends_with_the_ref(&mut control_state, TeamType::Home);

    let away_id = control_state.get_player_id_at(start_pos).unwrap();
    resolve_foul_argue_the_call(&mut control_state, away_id, D6::Five);

    assert_eq!(control_state.get_player_id_at(start_pos), None);
    assert!(control_state.info.turnover);
    assert!(control_state.away.can_argue_the_call());
    assert!(control_state.get_dugout().iter().any(|player| {
        player.place == DugoutPlace::Ejected && player.stats.team == TeamType::Away
    }));
}

#[test]
fn argue_the_call_should_be_correctly_modified_on_roll_of_two_to_four() {
    let start_pos = Position::new((5, 5));

    for roll in [D6::Two, D6::Three, D6::Four] {
        let mut state = build_single_player_state(TeamType::Home, start_pos);
        activate_friends_with_the_ref(&mut state, TeamType::Home);

        let id = state.get_player_id_at(start_pos).unwrap();
        resolve_foul_argue_the_call(&mut state, id, roll);

        assert_eq!(state.get_player_id_at(start_pos), None);
        assert!(state.info.turnover);
        assert!(state.home.can_argue_the_call());
        assert!(state.get_dugout().iter().any(|player| {
            player.place == DugoutPlace::Ejected && player.stats.team == TeamType::Home
        }));
    }
}

// ---- Stiletto ----

fn activate_stiletto(state: &mut GameState, team: TeamType, selection_roll: D16) {
    let mut prayer = match PrayersToNuffle::new(team) {
        AnyProc::PrayersToNuffle(proc) => proc,
        _ => unreachable!(),
    };

    assert!(matches!(
        prayer.step(state, ProcInput::Nothing),
        ProcState::NeedRoll(RequestedRoll::D16)
    ));

    let ProcState::DoneNewProcs(mut procs) =
        prayer.step(state, ProcInput::Roll(RollResult::D16(D16::Three)))
    else {
        panic!("Stiletto should enqueue its activator proc");
    };

    assert_eq!(procs.len(), 1);
    let AnyProc::Stiletto(mut effect) = procs.pop().unwrap() else {
        panic!("Expected Stiletto activator proc");
    };

    assert!(matches!(
        effect.step(state, ProcInput::Nothing),
        ProcState::NeedRoll(RequestedRoll::D16)
    ));
    assert!(matches!(
        effect.step(state, ProcInput::Roll(RollResult::D16(selection_roll))),
        ProcState::Done
    ));
}

#[test]
fn nuffle_prayers_procs_only_players_on_the_pitch_available_for_selection() {
    let start_pos = Position::new((5, 5));
    let mut state = GameStateBuilder::empty_state();

    let on_pitch_id = state
        .add_new_player_to_field(PlayerStats::new_lineman(TeamType::Home), start_pos)
        .unwrap();
    state.dugout_add_new_player(PlayerStats::new_lineman(TeamType::Home), DugoutPlace::Reserves);

    activate_stiletto(&mut state, TeamType::Home, D16::One);

    assert!(state.get_player(on_pitch_id).unwrap().has_temporary_skill(TemporarySkill::Stab));
    assert!(state
        .get_dugout()
        .iter()
        .filter(|player| player.stats.team == TeamType::Home)
        .all(|player| !player.stats.has_temporary_skill(TemporarySkill::Stab)));
}

#[test]
fn nuffle_prayers_procs_players_with_loner_skill_not_selectable() {
    let loner_pos = Position::new((5, 5));
    let normal_pos = Position::new((6, 5));
    let mut state = GameStateBuilder::empty_state();

    let mut loner_stats = PlayerStats::new_lineman(TeamType::Home);
    loner_stats.give_skill(Skill::Loner3);
    let loner_id = state.add_new_player_to_field(loner_stats, loner_pos).unwrap();
    let normal_id = state
        .add_new_player_to_field(PlayerStats::new_lineman(TeamType::Home), normal_pos)
        .unwrap();

    activate_stiletto(&mut state, TeamType::Home, D16::One);

    assert!(!state.get_player(loner_id).unwrap().has_temporary_skill(TemporarySkill::Stab));
    assert!(state.get_player(normal_id).unwrap().has_temporary_skill(TemporarySkill::Stab));
}

#[test]
fn nuffle_prayers_procs_skill_is_lost_at_end_of_drive() {
    let start_pos = Position::new((2, 5));
    let td_pos = Position::new((1, 5));
    let mut state = GameStateBuilder::new()
        .add_home_player(start_pos)
        .add_ball_pos(start_pos)
        .build();

    let id = state.get_player_id_at(start_pos).unwrap();
    activate_stiletto(&mut state, TeamType::Home, D16::One);
    assert!(state.get_player(id).unwrap().has_temporary_skill(TemporarySkill::Stab));

    state.step_positional(PosAT::StartMove, start_pos);
    state.step_positional(PosAT::Move, td_pos);

    assert_eq!(state.home.score, 1);
    assert!(state
        .get_dugout()
        .iter()
        .filter(|player| player.stats.team == TeamType::Home)
        .all(|player| !player.stats.has_temporary_skill(TemporarySkill::Stab)));
}

// ---- Iron Man ----

fn activate_iron_man(state: &mut GameState, team: TeamType, position: Position) {
    let mut prayer = match PrayersToNuffle::new(team) {
        AnyProc::PrayersToNuffle(proc) => proc,
        _ => unreachable!(),
    };

    assert!(matches!(
        prayer.step(state, ProcInput::Nothing),
        ProcState::NeedRoll(RequestedRoll::D16)
    ));

    let ProcState::DoneNewProcs(mut procs) =
        prayer.step(state, ProcInput::Roll(RollResult::D16(D16::Four)))
    else {
        panic!("Iron Man should enqueue its activator proc");
    };

    assert_eq!(procs.len(), 1);
    let AnyProc::IronMan(mut effect) = procs.pop().unwrap() else {
        panic!("Expected Iron Man activator proc");
    };

    let ProcState::NeedAction(aa) = effect.step(state, ProcInput::Nothing) else {
        panic!("Iron Man should require selecting an eligible player");
    };
    assert!(aa.is_legal_action(Action::Positional(PosAT::SelectPosition, position)));

    assert!(matches!(
        effect.step(
            state,
            ProcInput::Action(Action::Positional(PosAT::SelectPosition, position)),
        ),
        ProcState::Done
    ));
}

#[test]
fn only_players_on_the_pitch_available_for_selection() {
    let start_pos = Position::new((5, 5));
    let mut state = GameStateBuilder::empty_state();

    let on_pitch_id = state
        .add_new_player_to_field(PlayerStats::new_lineman(TeamType::Home), start_pos)
        .unwrap();
    state.dugout_add_new_player(PlayerStats::new_lineman(TeamType::Home), DugoutPlace::Reserves);

    activate_iron_man(&mut state, TeamType::Home, start_pos);

    assert_eq!(state.get_player(on_pitch_id).unwrap().stats.av(), 9);
    assert!(state
        .get_dugout()
        .iter()
        .filter(|player| player.stats.team == TeamType::Home)
        .all(|player| player.stats.av() == player.stats.av));
}

#[test]
fn players_with_loner_skill_not_selectable() {
    let loner_pos = Position::new((5, 5));
    let normal_pos = Position::new((6, 5));
    let mut state = GameStateBuilder::empty_state();

    let mut loner_stats = PlayerStats::new_lineman(TeamType::Home);
    loner_stats.give_skill(Skill::Loner3);
    let loner_id = state.add_new_player_to_field(loner_stats, loner_pos).unwrap();
    let normal_id = state
        .add_new_player_to_field(PlayerStats::new_lineman(TeamType::Home), normal_pos)
        .unwrap();

    let mut prayer = match PrayersToNuffle::new(TeamType::Home) {
        AnyProc::PrayersToNuffle(proc) => proc,
        _ => unreachable!(),
    };

    assert!(matches!(
        prayer.step(&mut state, ProcInput::Nothing),
        ProcState::NeedRoll(RequestedRoll::D16)
    ));

    let ProcState::DoneNewProcs(mut procs) =
        prayer.step(&mut state, ProcInput::Roll(RollResult::D16(D16::Four)))
    else {
        panic!("Iron Man should enqueue its activator proc");
    };

    let AnyProc::IronMan(mut effect) = procs.pop().unwrap() else {
        panic!("Expected Iron Man activator proc");
    };

    let ProcState::NeedAction(aa) = effect.step(&mut state, ProcInput::Nothing) else {
        panic!("Iron Man should require selecting an eligible player");
    };
    assert!(!aa.is_legal_action(Action::Positional(PosAT::SelectPosition, loner_pos)));
    assert!(aa.is_legal_action(Action::Positional(PosAT::SelectPosition, normal_pos)));

    assert!(matches!(
        effect.step(
            &mut state,
            ProcInput::Action(Action::Positional(PosAT::SelectPosition, normal_pos)),
        ),
        ProcState::Done
    ));

    assert_eq!(state.get_player(loner_id).unwrap().stats.av(), 8);
    assert_eq!(state.get_player(normal_id).unwrap().stats.av(), 9);
}

#[test]
fn armor_value_is_lost_at_end_of_drive() {
    let start_pos = Position::new((2, 5));
    let td_pos = Position::new((1, 5));
    let mut state = GameStateBuilder::new()
        .add_home_player(start_pos)
        .add_ball_pos(start_pos)
        .build();

    let id = state.get_player_id_at(start_pos).unwrap();
    activate_iron_man(&mut state, TeamType::Home, start_pos);
    assert_eq!(state.get_player(id).unwrap().stats.av(), 9);

    state.step_positional(PosAT::StartMove, start_pos);
    state.step_positional(PosAT::Move, td_pos);

    assert_eq!(state.home.score, 1);
    assert!(state
        .get_dugout()
        .iter()
        .filter(|player| player.stats.team == TeamType::Home)
        .all(|player| player.stats.av() == player.stats.av));
}

#[test]
fn player_with_armor_value_11_is_not_elegible() {
    let maxed_pos = Position::new((5, 5));
    let normal_pos = Position::new((6, 5));
    let mut state = GameStateBuilder::empty_state();

    let mut maxed_stats = PlayerStats::new_lineman(TeamType::Home);
    maxed_stats.av = 11;
    let maxed_id = state.add_new_player_to_field(maxed_stats, maxed_pos).unwrap();
    let normal_id = state
        .add_new_player_to_field(PlayerStats::new_lineman(TeamType::Home), normal_pos)
        .unwrap();

    let mut prayer = match PrayersToNuffle::new(TeamType::Home) {
        AnyProc::PrayersToNuffle(proc) => proc,
        _ => unreachable!(),
    };

    assert!(matches!(
        prayer.step(&mut state, ProcInput::Nothing),
        ProcState::NeedRoll(RequestedRoll::D16)
    ));

    let ProcState::DoneNewProcs(mut procs) =
        prayer.step(&mut state, ProcInput::Roll(RollResult::D16(D16::Four)))
    else {
        panic!("Iron Man should enqueue its activator proc");
    };

    let AnyProc::IronMan(mut effect) = procs.pop().unwrap() else {
        panic!("Expected Iron Man activator proc");
    };

    let ProcState::NeedAction(aa) = effect.step(&mut state, ProcInput::Nothing) else {
        panic!("Iron Man should require selecting an eligible player");
    };
    assert!(!aa.is_legal_action(Action::Positional(PosAT::SelectPosition, maxed_pos)));
    assert!(aa.is_legal_action(Action::Positional(PosAT::SelectPosition, normal_pos)));

    assert!(matches!(
        effect.step(
            &mut state,
            ProcInput::Action(Action::Positional(PosAT::SelectPosition, normal_pos)),
        ),
        ProcState::Done
    ));

    assert_eq!(state.get_player(maxed_id).unwrap().stats.av(), 11);
    assert_eq!(state.get_player(normal_id).unwrap().stats.av(), 9);

    let mut all_maxed_state = GameStateBuilder::empty_state();
    let mut all_maxed_stats = PlayerStats::new_lineman(TeamType::Home);
    all_maxed_stats.av = 11;
    all_maxed_state
        .add_new_player_to_field(all_maxed_stats, maxed_pos)
        .unwrap();

    let mut effect = match IronMan::new(TeamType::Home) {
        AnyProc::IronMan(proc) => proc,
        _ => unreachable!(),
    };

    assert!(matches!(
        effect.step(&mut all_maxed_state, ProcInput::Nothing),
        ProcState::Done
    ));
}

// ---- Knuckle Dusters ----

fn activate_knuckle_dusters(state: &mut GameState, team: TeamType, selection_roll: D16) {
    let mut prayer = match PrayersToNuffle::new(team) {
        AnyProc::PrayersToNuffle(proc) => proc,
        _ => unreachable!(),
    };

    assert!(matches!(
        prayer.step(state, ProcInput::Nothing),
        ProcState::NeedRoll(RequestedRoll::D16)
    ));

    let ProcState::DoneNewProcs(mut procs) =
        prayer.step(state, ProcInput::Roll(RollResult::D16(D16::Five)))
    else {
        panic!("Knuckle Dusters should enqueue its activator proc");
    };

    assert_eq!(procs.len(), 1);
    let AnyProc::KnuckleDusters(mut effect) = procs.pop().unwrap() else {
        panic!("Expected Knuckle Dusters activator proc");
    };

    assert!(matches!(
        effect.step(state, ProcInput::Nothing),
        ProcState::NeedRoll(RequestedRoll::D16)
    ));
    assert!(matches!(
        effect.step(state, ProcInput::Roll(RollResult::D16(selection_roll))),
        ProcState::Done
    ));
}

#[test]
fn knuckle_dusters_only_players_on_the_pitch_available_for_selection() {
    let start_pos = Position::new((5, 5));
    let mut state = GameStateBuilder::empty_state();

    let on_pitch_id = state
        .add_new_player_to_field(PlayerStats::new_lineman(TeamType::Home), start_pos)
        .unwrap();
    state.dugout_add_new_player(
        PlayerStats::new_lineman(TeamType::Home),
        DugoutPlace::Reserves,
    );

    activate_knuckle_dusters(&mut state, TeamType::Home, D16::One);

    assert!(state
        .get_player(on_pitch_id)
        .unwrap()
        .has_temporary_skill(TemporarySkill::MightyBlow1));
    assert!(state
        .get_dugout()
        .iter()
        .filter(|player| player.stats.team == TeamType::Home)
        .all(|player| !player.stats.has_temporary_skill(TemporarySkill::MightyBlow1)));
}

#[test]
fn knuckle_dusters_players_with_loner_skill_not_selectable() {
    let loner_pos = Position::new((5, 5));
    let normal_pos = Position::new((6, 5));
    let mut state = GameStateBuilder::empty_state();

    let mut loner_stats = PlayerStats::new_lineman(TeamType::Home);
    loner_stats.give_skill(Skill::Loner3);
    let loner_id = state.add_new_player_to_field(loner_stats, loner_pos).unwrap();
    let normal_id = state
        .add_new_player_to_field(PlayerStats::new_lineman(TeamType::Home), normal_pos)
        .unwrap();

    activate_knuckle_dusters(&mut state, TeamType::Home, D16::One);

    assert!(!state
        .get_player(loner_id)
        .unwrap()
        .has_temporary_skill(TemporarySkill::MightyBlow1));
    assert!(state
        .get_player(normal_id)
        .unwrap()
        .has_temporary_skill(TemporarySkill::MightyBlow1));
}

#[test]
fn skill_is_lost_at_end_of_drive() {
    let start_pos = Position::new((2, 5));
    let td_pos = Position::new((1, 5));
    let mut state = GameStateBuilder::new()
        .add_home_player(start_pos)
        .add_ball_pos(start_pos)
        .build();

    let id = state.get_player_id_at(start_pos).unwrap();
    activate_knuckle_dusters(&mut state, TeamType::Home, D16::One);
    assert!(state
        .get_player(id)
        .unwrap()
        .has_temporary_skill(TemporarySkill::MightyBlow1));

    state.step_positional(PosAT::StartMove, start_pos);
    state.step_positional(PosAT::Move, td_pos);

    assert_eq!(state.home.score, 1);
    assert!(state
        .get_dugout()
        .iter()
        .filter(|player| player.stats.team == TeamType::Home)
        .all(|player| !player.stats.has_temporary_skill(TemporarySkill::MightyBlow1)));
}
