use angle_out::pickups::PickupType;
use angle_out::player::{player_pickup_grabber, player_pickup_more_balls, Player, PlayerState};
use angle_out::player_laws::BallStep;
use angle_out::powerups::{Bouncer, Grabber, PowerUpData};

fn pools(p: &Player) -> (i32, i32, i32, i32) {
    (p.balls_available, p.balls_carried, p.balls_in_play, p.balls_grabbed)
}

fn player_with(available: i32) -> Player {
    Player { balls_available: available, ..Player::default() }
}

#[test]
fn default_player_has_nothing() {
    let p = Player::default();
    assert_eq!(p.state, PlayerState::Open);
    assert_eq!(p.points, 0);
    assert_eq!(pools(&p), (0, 0, 0, 0));
    assert_eq!(p.balls_lost, 0);
}

#[test]
fn spawn_moves_a_ball_onto_the_paddle() {
    let mut p = player_with(3);
    p.ball_spawned();
    assert_eq!(pools(&p), (2, 1, 0, 0));
}

#[test]
fn spawn_with_empty_reserve_does_nothing() {
    let mut p = player_with(0);
    p.ball_spawned();
    assert_eq!(pools(&p), (0, 0, 0, 0));
}

#[test]
fn launch_moves_a_carried_ball_into_play() {
    let mut p = player_with(3);
    p.ball_spawned();
    p.ball_launched();
    assert_eq!(pools(&p), (2, 0, 1, 0));
}

#[test]
fn launch_with_nothing_on_the_paddle_does_nothing() {
    let mut p = player_with(3);
    p.ball_launched();
    assert_eq!(pools(&p), (3, 0, 0, 0));
}

#[test]
fn grab_brings_a_ball_back_and_launch_releases_it() {
    let mut p = player_with(1);
    p.ball_spawned();
    p.ball_launched();
    p.ball_grabbed();
    assert_eq!(pools(&p), (0, 1, 0, 1));
    assert_eq!(p.total_ball_count(), 2);
    p.ball_launched();
    assert_eq!(pools(&p), (0, 0, 1, 0));
    assert_eq!(p.total_ball_count(), 1);
}

#[test]
fn grab_with_no_ball_in_play_does_nothing() {
    let mut p = Player::default();
    p.ball_grabbed();
    assert_eq!(p, Player::default());
    let mut p = player_with(2);
    p.ball_spawned();
    p.ball_grabbed();
    assert_eq!(pools(&p), (1, 1, 0, 0));
}

#[test]
fn no_pool_goes_negative_whatever_the_run() {
    let mut p = player_with(2);
    for step in "gglgsglgglxgxsglggxlg".chars() {
        match step {
            's' => p.ball_spawned(),
            'l' => p.ball_launched(),
            'g' => p.ball_grabbed(),
            _ => p.ball_lost(),
        }
        let (a, c, i, g) = pools(&p);
        assert!(a >= 0 && c >= 0 && i >= 0 && g >= 0);
        assert!(a + c + i <= 2);
        assert!(g <= c);
    }
}

#[test]
fn lost_ball_is_counted_and_leaves_play() {
    let mut p = player_with(2);
    p.ball_spawned();
    p.ball_launched();
    p.ball_lost();
    assert_eq!(pools(&p), (1, 0, 0, 0));
    assert_eq!(p.balls_lost, 1);
    p.ball_lost();
    assert_eq!(pools(&p), (1, 0, 0, 0));
    assert_eq!(p.balls_lost, 2);
}

#[test]
fn pools_never_exceed_the_start_without_grabs() {
    let mut p = player_with(3);
    let total = p.total_ball_count();
    let script = "slslxlsslslllxss";
    for step in script.chars() {
        match step {
            's' => p.ball_spawned(),
            'l' => p.ball_launched(),
            _ => p.ball_lost(),
        }
        let (a, c, i, g) = pools(&p);
        assert!(a >= 0 && c >= 0 && i >= 0 && g >= 0);
        assert!(p.total_ball_count() <= total);
    }
}

#[test]
fn grabbed_balls_are_among_the_carried() {
    let mut p = player_with(3);
    let owned = 3;
    for step in "slgslglxslgl".chars() {
        match step {
            's' => p.ball_spawned(),
            'l' => p.ball_launched(),
            'g' => {
                assert!(p.balls_in_play > 0);
                p.ball_grabbed()
            }
            _ => p.ball_lost(),
        }
        let (a, c, i, g) = pools(&p);
        assert!(a >= 0 && c >= 0 && i >= 0 && g >= 0);
        assert!(a + c + i <= owned);
        assert!(g <= c);
    }
}

#[test]
fn winning_brings_balls_and_points_home() {
    let mut p = player_with(1);
    p.points = 500;
    p.ball_spawned();
    p.ball_launched();
    p.player_has_won(1200);
    assert_eq!(pools(&p), (1, 0, 0, 0));
    assert_eq!(p.points, 1700);
}

#[test]
fn reset_for_match_keeps_reserve_and_points() {
    let mut p = Player {
        state: PlayerState::HasLost,
        points: 40,
        balls_available: 2,
        balls_carried: 1,
        balls_in_play: 1,
        balls_lost: 5,
        balls_grabbed: 1,
    };
    p.reset_for_match();
    assert_eq!(p.state, PlayerState::Open);
    assert_eq!(p.points, 40);
    assert_eq!(pools(&p), (2, 0, 0, 0));
    assert_eq!(p.balls_lost, 0);
    p.reset();
    assert_eq!(p, Player::default());
}

#[test]
fn set_and_add_balls_change_the_reserve() {
    let mut p = Player::default();
    p.set_balls(3);
    p.add_balls(2);
    assert_eq!(p.balls_available, 5);
    p.add_balls(-1);
    assert_eq!(p.balls_available, 4);
}

#[test]
fn ball_pickup_fills_the_reserve() {
    let mut p = player_with(1);
    assert!(player_pickup_more_balls(&mut p, &PickupType::MoreBalls(2)));
    assert_eq!(p.balls_available, 3);
    assert!(!player_pickup_more_balls(&mut p, &PickupType::Grabber(2)));
    assert_eq!(p.balls_available, 3);
}

#[test]
fn grabber_pickup_adds_grabs() {
    assert_eq!(player_pickup_grabber(None, &PickupType::Grabber(2)), Some(Grabber { grabs: 2 }));
    assert_eq!(
        player_pickup_grabber(Some(Grabber { grabs: 3 }), &PickupType::Grabber(2)),
        Some(Grabber { grabs: 5 })
    );
    assert_eq!(player_pickup_grabber(None, &PickupType::MoreBalls(2)), None);
    assert_eq!(
        player_pickup_grabber(Some(Grabber { grabs: 3 }), &PickupType::MoreBalls(2)),
        Some(Grabber { grabs: 3 })
    );
}

#[test]
fn bouncer_with_negative_count_is_always_available() {
    let mut b = Bouncer { bounces: -1 };
    assert!(b.available());
    b.use_one();
    assert_eq!(b.bounces, -2);
    assert!(b.available());
    let mut b = Bouncer { bounces: 1 };
    assert!(b.available());
    b.use_one();
    assert!(!b.available());
}

#[test]
fn grabber_runs_out() {
    let mut g = Grabber { grabs: 1 };
    assert!(g.available());
    g.use_one();
    assert_eq!(g.grabs, 0);
    assert!(!g.available());
    assert!(!Grabber { grabs: -1 }.available());
}

#[test]
fn ball_steps_are_the_calls_they_name() {
    let mut p = player_with(2);
    for step in [
        BallStep::Spawned,
        BallStep::Launched,
        BallStep::Grabbed,
        BallStep::Launched,
        BallStep::Lost,
        BallStep::Spawned,
    ] {
        p.take_step(&step);
    }
    assert_eq!(pools(&p), (0, 1, 0, 0));
    assert_eq!(p.balls_lost, 1);
}
