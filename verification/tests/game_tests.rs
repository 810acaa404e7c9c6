use pass_and_shoot::game_logic::ErrorKind;
use pass_and_shoot::game_logic::Event;
use pass_and_shoot::game_logic::EventKind;
use pass_and_shoot::game_logic::Game;
use pass_and_shoot::game_logic::PlayerId;
use pass_and_shoot::game_logic::Team;
use pass_and_shoot::game_logic::team_of;

fn arg(s: &str) -> Option<String> {
    Some(s.to_string())
}

#[test]
fn new_game_initial_state() {
    let g = Game::new();
    assert_eq!(g.name_of_player_with_ball, PlayerId::BGk);
    assert_eq!(g.which_team_has_ball(), Some(Team::B));
    assert_eq!(g.goals.of(Team::R), 0);
    assert_eq!(g.goals.of(Team::B), 0);
    assert_eq!(g.round, 1);
    assert_eq!(g.total_rounds, 10);
    assert_eq!(g.players.len(), 12);
    assert_eq!(g.events.len(), 1);
    assert_eq!(
        g.events[0],
        Event {
            minute: 0,
            kind: EventKind::GameStart
        }
    );
}

#[test]
fn new_game_twice_yields_identical_state() {
    let g1 = Game::new();
    let g2 = Game::new();
    assert_eq!(g1.players, g2.players);
    assert_eq!(g1.goals, g2.goals);
    assert_eq!(g1.name_of_player_with_ball, g2.name_of_player_with_ball);
    assert_eq!(g1.events, g2.events);
    assert_eq!(g1.round, g2.round);
    assert_eq!(g1.total_rounds, g2.total_rounds);
    assert_eq!(g1.end_event_logged, g2.end_event_logged);
}

#[test]
fn pass_without_argument_fails_and_changes_nothing() {
    let mut g = Game::new();
    let r = g.pass_ball_to(&None);
    assert_eq!(r, Err(ErrorKind::InvalidArgument));
    assert_eq!(g.round, 1);
    assert_eq!(g.name_of_player_with_ball, PlayerId::BGk);
    assert_eq!(g.goals.of(Team::R), 0);
    assert_eq!(g.goals.of(Team::B), 0);
    assert_eq!(g.events.len(), 1);
}

#[test]
fn pass_to_unknown_player_fails_and_changes_nothing() {
    let mut g = Game::new();
    let r = g.pass_ball_to(&arg("NOBODY"));
    assert_eq!(r, Err(ErrorKind::NotFound));
    assert_eq!(g.round, 1);
    assert_eq!(g.name_of_player_with_ball, PlayerId::BGk);
    assert_eq!(g.events.len(), 1);
}

#[test]
fn shoot_without_argument_fails_and_changes_nothing() {
    let mut g = Game::new();
    let r = g.shoot_ball_to(&None);
    assert_eq!(r, Err(ErrorKind::InvalidArgument));
    assert_eq!(g.round, 1);
    assert_eq!(g.name_of_player_with_ball, PlayerId::BGk);
    assert_eq!(g.events.len(), 1);
}

#[test]
fn shoot_at_unknown_team_fails_and_changes_nothing() {
    let mut g = Game::new();
    let r = g.shoot_ball_to(&arg("X"));
    assert_eq!(r, Err(ErrorKind::InvalidArgument));
    assert_eq!(g.round, 1);
    assert_eq!(g.name_of_player_with_ball, PlayerId::BGk);
    assert_eq!(g.events.len(), 1);
}

#[test]
fn successful_pass_advances_round_and_appends_one_event() {
    let mut g = Game::new();
    let r = g.pass_ball_to(&arg("B_MF"));
    assert_eq!(r, Ok(()));
    assert_eq!(g.round, 2);
    assert_eq!(g.events.len(), 2);
    let last = g.events[1];
    assert_eq!(last.minute, 1);
    match last.kind {
        EventKind::Pass { from, to } => {
            assert_eq!(from, PlayerId::BGk);
            assert_eq!(to, PlayerId::BMf);
            assert_eq!(g.name_of_player_with_ball, PlayerId::BMf);
        }
        EventKind::Interception { from, to, by } => {
            assert_eq!(from, PlayerId::BGk);
            assert_eq!(to, PlayerId::BMf);
            assert_eq!(g.name_of_player_with_ball, by);
            assert_eq!(team_of(by), Team::R);
        }
        other => panic!("pass appended a wrong event: {:?}", other),
    }
}

#[test]
fn pass_with_no_defender_in_reach_is_always_clean() {
    // B_GK at (1,7) passing to B_LD at (0,6): no R player stands at
    // Manhattan distance 2 from either, so no interception chance exists.
    for _ in 0..200 {
        let mut g = Game::new();
        let r = g.pass_ball_to(&arg("B_LD"));
        assert_eq!(r, Ok(()));
        assert_eq!(g.name_of_player_with_ball, PlayerId::BLd);
        match g.events[1].kind {
            EventKind::Pass { from, to } => {
                assert_eq!(from, PlayerId::BGk);
                assert_eq!(to, PlayerId::BLd);
            }
            other => panic!("safe pass was not clean: {:?}", other),
        }
    }
}

#[test]
fn shoot_resets_possession_to_target_keeper() {
    let mut g = Game::new();
    let r = g.shoot_ball_to(&arg("R"));
    assert_eq!(r, Ok(()));
    assert_eq!(g.round, 2);
    assert_eq!(g.events.len(), 2);
    assert_eq!(g.name_of_player_with_ball, PlayerId::RGk);

    let r = g.shoot_ball_to(&arg("B"));
    assert_eq!(r, Ok(()));
    assert_eq!(g.round, 3);
    assert_eq!(g.events.len(), 3);
    assert_eq!(g.name_of_player_with_ball, PlayerId::BGk);
}

#[test]
fn shot_from_distance_zero_scores_for_the_other_team() {
    let mut g = Game::new();
    // put the ball on R's goalkeeper first
    assert_eq!(g.shoot_ball_to(&arg("R")), Ok(()));
    let b_before = g.goals.of(Team::B);
    // R_GK shooting at R's own goal stands at distance 0 from the keeper:
    // the shot always reaches, and a goal at R's goal counts for team B
    assert_eq!(g.shoot_ball_to(&arg("R")), Ok(()));
    assert_eq!(g.goals.of(Team::B), b_before + 1);
    assert_eq!(g.goals.of(Team::R), 0);
    let last = g.events[g.events.len() - 1];
    match last.kind {
        EventKind::Goal {
            shooter,
            score_b,
            score_r,
        } => {
            assert_eq!(shooter, PlayerId::RGk);
            assert_eq!(score_b, g.goals.of(Team::B));
            assert_eq!(score_r, g.goals.of(Team::R));
        }
        other => panic!("a distance-zero shot did not score: {:?}", other),
    }
}

#[test]
fn shot_event_records_running_score() {
    let mut g = Game::new();
    assert_eq!(g.shoot_ball_to(&arg("B")), Ok(()));
    let last = g.events[g.events.len() - 1];
    match last.kind {
        EventKind::Goal {
            shooter,
            score_b,
            score_r,
        } => {
            assert_eq!(shooter, PlayerId::BGk);
            assert_eq!(score_r, 1);
            assert_eq!(score_b, 0);
            assert_eq!(g.goals.of(Team::R), 1);
        }
        EventKind::Miss {
            shooter,
            score_b,
            score_r,
        } => {
            assert_eq!(shooter, PlayerId::BGk);
            assert_eq!(score_r, 0);
            assert_eq!(score_b, 0);
            assert_eq!(g.goals.of(Team::R), 0);
        }
        other => panic!("a shot appended a wrong event: {:?}", other),
    }
}

#[test]
fn ten_shots_end_the_game_with_a_final_summary() {
    let mut g = Game::new();
    for i in 0..10 {
        // the game is still running through all ten rounds
        assert!(!g.has_ended());
        let tag = if i % 2 == 0 { "R" } else { "B" };
        assert_eq!(g.shoot_ball_to(&arg(tag)), Ok(()));
    }
    assert_eq!(g.round, 11);
    assert_eq!(g.events.len(), 11);

    assert!(g.has_ended());
    assert_eq!(g.events.len(), 12);
    let last = g.events[11];
    assert_eq!(last.minute, 10);
    match last.kind {
        EventKind::GameEnd { score_b, score_r } => {
            assert_eq!(score_b, g.goals.of(Team::B));
            assert_eq!(score_r, g.goals.of(Team::R));
        }
        other => panic!("the game did not end with a summary: {:?}", other),
    }

    // observing the end again appends no duplicate summary
    assert!(g.has_ended());
    assert_eq!(g.events.len(), 12);
}

#[test]
fn has_ended_is_false_through_round_ten_and_true_past_it() {
    for r in 1..=10u8 {
        let mut g = Game::new();
        g.round = r;
        assert!(!g.has_ended());
        assert_eq!(g.events.len(), 1);
    }
    for r in [11u8, 12, 100, 255] {
        let mut g = Game::new();
        g.round = r;
        assert!(g.has_ended());
        assert_eq!(g.events.len(), 2);
        assert_eq!(g.events[1].minute, r - 1);
        match g.events[1].kind {
            EventKind::GameEnd { score_b, score_r } => {
                assert_eq!(score_b, 0);
                assert_eq!(score_r, 0);
            }
            other => panic!("the end was recorded as {:?}", other),
        }
    }
}

#[test]
fn rounds_and_logs_only_grow() {
    let mut g = Game::new();
    let mut round = g.round;
    let mut n_events = g.events.len();
    let mut goals_b = g.goals.of(Team::B);
    let mut goals_r = g.goals.of(Team::R);
    let script = ["B_MF", "B_LF", "R", "B_RF", "B", "B_LD", "R", "B_RD", "B", "R"];
    for s in script.iter() {
        let ok = if *s == "R" || *s == "B" {
            g.shoot_ball_to(&arg(s))
        } else {
            g.pass_ball_to(&arg(s))
        };
        // the round advances exactly when the call succeeded
        if ok.is_ok() {
            assert_eq!(g.round, round + 1);
            assert_eq!(g.events.len(), n_events + 1);
        } else {
            assert_eq!(g.round, round);
            assert_eq!(g.events.len(), n_events);
        }
        assert!(g.goals.of(Team::B) >= goals_b);
        assert!(g.goals.of(Team::R) >= goals_r);
        round = g.round;
        n_events = g.events.len();
        goals_b = g.goals.of(Team::B);
        goals_r = g.goals.of(Team::R);
    }
}
