use botbowl_engine::builder::GameStateBuilder;
use botbowl_engine::dice::{D6Target, RequestedRoll, RollResult, D16, D6};
use botbowl_engine::model::{
    Action, BallState, DugoutPlace, PosAT, Position, ProcInput, SimpleAT, Skill, TeamType,
    TemporarySkill,
};
use botbowl_engine::nuffle_prayers_procs::{
    FirendsWithTheRef, IronMan, KnuckleDusters, PrayersToNuffle, Stiletto, TrapdoorCheck,
};
use botbowl_engine::player::PlayerStats;
use botbowl_engine::procedures::{AnyProc, Ejection, ProcState};

fn prayer(team: TeamType) -> PrayersToNuffle {
    match PrayersToNuffle::new(team) {
        AnyProc::PrayersToNuffle(p) => p,
        _ => unreachable!(),
    }
}

fn trapdoor(proc: AnyProc) -> TrapdoorCheck {
    match proc {
        AnyProc::TrapdoorCheck(t) => t,
        _ => unreachable!(),
    }
}

#[test]
fn prayer_roll_of_one_opens_trapdoors() {
    let mut state = GameStateBuilder::empty_state();
    let mut p = prayer(TeamType::Away);
    assert!(!state.info.trapdoors_active);
    assert!(matches!(
        p.step(&mut state, ProcInput::Roll(RollResult::D16(D16::One))),
        ProcState::Done
    ));
    assert!(state.info.trapdoors_active);
}

#[test]
fn prayer_rolls_start_the_favour_of_the_praying_team() {
    for (roll, expected) in [
        (D16::Two, "friends"),
        (D16::Three, "stiletto"),
        (D16::Four, "iron"),
        (D16::Five, "knuckle"),
    ] {
        let mut state = GameStateBuilder::empty_state();
        let mut p = prayer(TeamType::Away);
        let ProcState::DoneNewProcs(procs) =
            p.step(&mut state, ProcInput::Roll(RollResult::D16(roll)))
        else {
            panic!("a favour should be enqueued");
        };
        assert_eq!(procs.len(), 1);
        let kind = match &procs[0] {
            AnyProc::FirendsWithTheRef(f) if f.team == TeamType::Away => "friends",
            AnyProc::Stiletto(s) if s.team == TeamType::Away => "stiletto",
            AnyProc::IronMan(i) if i.team == TeamType::Away => "iron",
            AnyProc::KnuckleDusters(k) if k.team == TeamType::Away => "knuckle",
            _ => "other",
        };
        assert_eq!(kind, expected);
        assert!(!state.info.trapdoors_active);
    }
}

#[test]
fn prayer_rolls_six_to_sixteen_grant_nothing_yet() {
    for roll in [D16::Six, D16::Nine, D16::Sixteen] {
        let mut state = GameStateBuilder::empty_state();
        let mut p = prayer(TeamType::Home);
        assert!(matches!(
            p.step(&mut state, ProcInput::Roll(RollResult::D16(roll))),
            ProcState::Done
        ));
        assert!(!state.info.trapdoors_active);
    }
}

#[test]
fn friends_with_the_ref_is_for_the_praying_team_only() {
    let mut state = GameStateBuilder::empty_state();
    let mut f = match FirendsWithTheRef::new(TeamType::Away) {
        AnyProc::FirendsWithTheRef(f) => f,
        _ => unreachable!(),
    };
    assert!(matches!(f.step(&mut state, ProcInput::Nothing), ProcState::Done));
    assert!(state.away.has_friends_with_the_ref());
    assert!(!state.home.has_friends_with_the_ref());
}

#[test]
fn trapdoor_does_nothing_while_no_trapdoor_is_open() {
    let mut state = GameStateBuilder::empty_state();
    let id = state
        .add_new_player_to_field(PlayerStats::new_lineman(TeamType::Home), Position::new((3, 3)))
        .unwrap();
    let mut check = trapdoor(TrapdoorCheck::new(id, D6Target::TwoPlus));
    assert!(matches!(check.step(&mut state, ProcInput::Nothing), ProcState::Done));
}

#[test]
fn trapdoor_safe_roll_hands_out_what_runs_next_once() {
    let mut state = GameStateBuilder::empty_state();
    state.info.trapdoors_active = true;
    let id = state
        .add_new_player_to_field(PlayerStats::new_lineman(TeamType::Home), Position::new((3, 3)))
        .unwrap();
    let mut check = trapdoor(TrapdoorCheck::new_with_on_safe_procs(
        id,
        D6Target::TwoPlus,
        vec![Stiletto::new(TeamType::Home)],
    ));
    assert!(matches!(
        check.step(&mut state, ProcInput::Nothing),
        ProcState::NeedRoll(RequestedRoll::D6)
    ));
    let ProcState::DoneNewProcs(procs) =
        check.step(&mut state, ProcInput::Roll(RollResult::D6(D6::Two)))
    else {
        panic!("the waiting procedures should be handed out");
    };
    assert_eq!(procs.len(), 1);
    assert!(matches!(procs[0], AnyProc::Stiletto(_)));
    assert!(matches!(
        check.step(&mut state, ProcInput::Roll(RollResult::D6(D6::Six))),
        ProcState::Done
    ));
}

#[test]
fn trapdoor_roll_of_one_drops_the_ball_carrier_into_the_crowd() {
    let pos = Position::new((4, 7));
    let mut state = GameStateBuilder::new().add_home_player(pos).add_ball_pos(pos).build();
    state.info.trapdoors_active = true;
    let id = state.get_player_id_at(pos).unwrap();
    assert_eq!(state.ball, BallState::Carried(id));
    let mut check = trapdoor(TrapdoorCheck::new(id, D6Target::TwoPlus));
    let ProcState::DoneNewProcs(procs) =
        check.step(&mut state, ProcInput::Roll(RollResult::D6(D6::One)))
    else {
        panic!("the fall should be carried out");
    };
    assert_eq!(procs.len(), 2);
    assert!(matches!(procs[0], AnyProc::Bounce(_)));
    assert!(matches!(procs[1], AnyProc::Injury(inj) if inj.id == id && inj.crowd));
    assert_eq!(state.ball, BallState::InAir(pos));
}

#[test]
fn trapdoor_roll_of_one_leaves_a_ball_that_another_player_carries() {
    let pos = Position::new((4, 7));
    let other = Position::new((9, 7));
    let mut state = GameStateBuilder::new()
        .add_home_player(pos)
        .add_home_player(other)
        .add_ball_pos(other)
        .build();
    state.info.trapdoors_active = true;
    let id = state.get_player_id_at(pos).unwrap();
    let carrier = state.get_player_id_at(other).unwrap();
    let mut check = trapdoor(TrapdoorCheck::new(id, D6Target::ThreePlus));
    let ProcState::DoneNewProcs(procs) =
        check.step(&mut state, ProcInput::Roll(RollResult::D6(D6::One)))
    else {
        panic!("the fall should be carried out");
    };
    assert_eq!(procs.len(), 1);
    assert!(matches!(procs[0], AnyProc::Injury(inj) if inj.id == id));
    assert_eq!(state.ball, BallState::Carried(carrier));
}

#[test]
fn stiletto_with_nobody_eligible_is_over_at_once() {
    let mut state = GameStateBuilder::empty_state();
    let mut loner = PlayerStats::new_lineman(TeamType::Home);
    loner.give_skill(Skill::Loner4);
    state.add_new_player_to_field(loner, Position::new((5, 5))).unwrap();
    state
        .add_new_player_to_field(PlayerStats::new_lineman(TeamType::Away), Position::new((6, 5)))
        .unwrap();
    let mut s = match Stiletto::new(TeamType::Home) {
        AnyProc::Stiletto(s) => s,
        _ => unreachable!(),
    };
    assert!(s.eligible_players(&state).is_empty());
    assert!(matches!(s.step(&mut state, ProcInput::Nothing), ProcState::Done));
}

#[test]
fn knuckle_dusters_roll_beyond_the_candidates_asks_again() {
    let mut state = GameStateBuilder::empty_state();
    let first = state
        .add_new_player_to_field(PlayerStats::new_lineman(TeamType::Home), Position::new((5, 5)))
        .unwrap();
    let second = state
        .add_new_player_to_field(PlayerStats::new_lineman(TeamType::Home), Position::new((6, 5)))
        .unwrap();
    let mut k = match KnuckleDusters::new(TeamType::Home) {
        AnyProc::KnuckleDusters(k) => k,
        _ => unreachable!(),
    };
    assert_eq!(k.eligible_players(&state), vec![first, second]);
    assert!(matches!(
        k.step(&mut state, ProcInput::Roll(RollResult::D16(D16::Three))),
        ProcState::NeedRoll(RequestedRoll::D16)
    ));
    assert!(!state.get_player(first).unwrap().has_temporary_skill(TemporarySkill::MightyBlow1));
    assert!(matches!(
        k.step(&mut state, ProcInput::Roll(RollResult::D16(D16::Two))),
        ProcState::Done
    ));
    assert!(!state.get_player(first).unwrap().has_temporary_skill(TemporarySkill::MightyBlow1));
    assert!(state.get_player(second).unwrap().has_temporary_skill(TemporarySkill::MightyBlow1));
}

#[test]
fn iron_man_pick_of_another_square_asks_again() {
    let mut state = GameStateBuilder::empty_state();
    let pos = Position::new((5, 5));
    let id = state
        .add_new_player_to_field(PlayerStats::new_lineman(TeamType::Home), pos)
        .unwrap();
    let mut iron = match IronMan::new(TeamType::Home) {
        AnyProc::IronMan(i) => i,
        _ => unreachable!(),
    };
    assert_eq!(iron.eligible_positions(&state), vec![pos]);
    let wrong = Position::new((7, 7));
    let ProcState::NeedAction(aa) = iron.step(
        &mut state,
        ProcInput::Action(Action::Positional(PosAT::SelectPosition, wrong)),
    ) else {
        panic!("the coach should be asked again");
    };
    assert_eq!(aa.team, TeamType::Home);
    assert!(aa.is_legal_action(Action::Positional(PosAT::SelectPosition, pos)));
    assert!(!aa.is_legal_action(Action::Positional(PosAT::SelectPosition, wrong)));
    assert!(!aa.is_legal_action(Action::Positional(PosAT::Move, pos)));
    assert_eq!(state.get_player(id).unwrap().stats.av(), 8);
}

#[test]
fn iron_man_raises_armour_of_ten_to_eleven_and_no_further() {
    let mut state = GameStateBuilder::empty_state();
    let pos = Position::new((5, 5));
    let mut stats = PlayerStats::new_lineman(TeamType::Away);
    stats.av = 10;
    let id = state.add_new_player_to_field(stats, pos).unwrap();
    let mut iron = match IronMan::new(TeamType::Away) {
        AnyProc::IronMan(i) => i,
        _ => unreachable!(),
    };
    assert!(matches!(
        iron.step(
            &mut state,
            ProcInput::Action(Action::Positional(PosAT::SelectPosition, pos)),
        ),
        ProcState::Done
    ));
    assert_eq!(state.get_player(id).unwrap().stats.av(), 11);
    assert_eq!(state.get_player(id).unwrap().stats.av, 10);
    assert!(iron.eligible_positions(&state).is_empty());
    assert!(matches!(iron.step(&mut state, ProcInput::Nothing), ProcState::Done));
}

#[test]
fn not_arguing_the_call_sends_the_player_off() {
    let pos = Position::new((5, 5));
    let mut state = GameStateBuilder::new().add_away_player(pos).build();
    let id = state.get_player_id_at(pos).unwrap();
    let mut e = match Ejection::new_foul(id) {
        AnyProc::Ejection(e) => e,
        _ => unreachable!(),
    };
    assert!(matches!(
        e.step(&mut state, ProcInput::Action(Action::Simple(SimpleAT::DontArgueTheCall))),
        ProcState::Done
    ));
    assert_eq!(state.get_player_id_at(pos), None);
    assert!(state.info.turnover);
    assert_eq!(state.get_dugout().len(), 1);
    assert_eq!(state.get_dugout()[0].place, DugoutPlace::Ejected);
    assert_eq!(state.get_dugout()[0].id, id);
}

#[test]
fn arguing_roll_of_one_sends_off_the_coach_too() {
    let pos = Position::new((5, 5));
    let mut state = GameStateBuilder::new().add_home_player(pos).build();
    state.home.activate_friends_with_the_ref();
    let id = state.get_player_id_at(pos).unwrap();
    let mut e = match Ejection::new_foul(id) {
        AnyProc::Ejection(e) => e,
        _ => unreachable!(),
    };
    e.step(&mut state, ProcInput::Action(Action::Simple(SimpleAT::ArgueTheCall)));
    assert!(matches!(
        e.step(&mut state, ProcInput::Roll(RollResult::D6(D6::One))),
        ProcState::Done
    ));
    assert_eq!(state.get_player_id_at(pos), None);
    assert!(!state.home.can_argue_the_call());

    // A coach who was sent off is not offered to argue again.
    let other = Position::new((8, 5));
    let id2 = state
        .add_new_player_to_field(PlayerStats::new_lineman(TeamType::Home), other)
        .unwrap();
    let mut e2 = match Ejection::new_foul(id2) {
        AnyProc::Ejection(e) => e,
        _ => unreachable!(),
    };
    assert!(matches!(e2.step(&mut state, ProcInput::Nothing), ProcState::Done));
    assert_eq!(state.get_player_id_at(other), None);
}

#[test]
fn arguing_roll_of_six_keeps_the_player_without_friends() {
    let pos = Position::new((5, 5));
    let mut state = GameStateBuilder::new().add_home_player(pos).build();
    let id = state.get_player_id_at(pos).unwrap();
    let mut e = match Ejection::new_foul(id) {
        AnyProc::Ejection(e) => e,
        _ => unreachable!(),
    };
    e.step(&mut state, ProcInput::Action(Action::Simple(SimpleAT::ArgueTheCall)));
    e.step(&mut state, ProcInput::Roll(RollResult::D6(D6::Six)));
    assert_eq!(state.get_player_id_at(pos), Some(id));
    assert!(state.info.turnover);
}

#[test]
fn end_of_drive_sends_everyone_to_the_dugout_without_favours() {
    let a = Position::new((5, 5));
    let b = Position::new((20, 5));
    let mut state = GameStateBuilder::new().add_home_player(a).add_away_player(b).build();
    let ida = state.get_player_id_at(a).unwrap();
    let idb = state.get_player_id_at(b).unwrap();
    state.give_player_temporary_skill(ida, TemporarySkill::Stab);
    state.add_player_temporary_av(idb, 1);
    state.away.activate_friends_with_the_ref();
    state.end_drive();
    assert_eq!(state.get_player_id_at(a), None);
    assert_eq!(state.get_dugout().len(), 2);
    for p in state.get_dugout() {
        assert_eq!(p.place, DugoutPlace::Reserves);
        assert!(!p.stats.has_temporary_skill(TemporarySkill::Stab));
        assert_eq!(p.stats.av(), p.stats.av);
    }
    assert!(!state.away.has_friends_with_the_ref());
    assert_eq!(state.ball, BallState::OffPitch);
}

#[test]
fn away_team_scores_in_its_own_column() {
    let start = Position::new((25, 5));
    let mut state = GameStateBuilder::new().add_away_player(start).add_ball_pos(start).build();
    state.step_positional(PosAT::StartMove, start);
    state.step_positional(PosAT::Move, Position::new((26, 5)));
    assert_eq!(state.away.score, 1);
    assert_eq!(state.home.score, 0);

    // Without the ball a move into that column scores nothing.
    let mut state = GameStateBuilder::new().add_away_player(start).build();
    state.step_positional(PosAT::StartMove, start);
    state.step_positional(PosAT::Move, Position::new((26, 5)));
    assert_eq!(state.away.score, 0);
    assert!(state.get_player_id_at(Position::new((26, 5))).is_some());
}

#[test]
fn a_square_takes_one_player() {
    let pos = Position::new((5, 5));
    let mut state = GameStateBuilder::empty_state();
    state.add_new_player_to_field(PlayerStats::new_lineman(TeamType::Home), pos).unwrap();
    assert!(state
        .add_new_player_to_field(PlayerStats::new_lineman(TeamType::Away), pos)
        .is_err());
    assert!(state.get_player(42).is_err());
}

#[test]
fn dice_targets() {
    assert!(D6Target::FourPlus.is_success(D6::Four));
    assert!(!D6Target::FourPlus.is_success(D6::Three));
    assert!(!D6Target::TwoPlus.is_success(D6::One));
    assert_eq!(D16::Sixteen.value(), 16);
    assert_eq!(D6::Five.value(), 5);
}
