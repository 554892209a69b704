use angle_out::ball::{ball_handle_collisions, BallContact};
use angle_out::block::{
    block_handle_collisions, block_spawn, Block, BlockBehaviour, BlockBody, BlockContact,
    BlockMotion, BlockType, Hittable, Obstacle,
};
use angle_out::events::{GameFlowEvent, MatchEvent};
use angle_out::game::{game_start, match_next_level};
use angle_out::geometry::{Position, Vector3};
use angle_out::level::{LevelDefinition, Levels};
use angle_out::physics::{CollidableKind, Collision};
use angle_out::pickups::{pickup_handle_collisions, PickupType};
use angle_out::player::Player;
use angle_out::points::get_sprite_indexes;
use angle_out::powerups::{Bouncer, Grabber};
use angle_out::ship::{ship_grab_ball, ship_launch_ball, GrabStep};
use angle_out::trigger::{
    BlockTrigger, BlockTriggerTarget, BlockTriggerTargetInactive, TargetChange, TriggerState,
    TriggerStates, TriggerType,
};
use angle_out::ui::{ui_handle_action, ui_update, OptionValues, UIEvents};

const ORIGIN: Vector3 = Vector3 { x: 0, y: 0, z: 0 };

fn contact(other: CollidableKind) -> Collision {
    Collision {
        other_entity: 7,
        other,
        pos: Vector3 { x: 10, y: 0, z: 20 },
        other_velocity: None,
        other_pos: ORIGIN,
    }
}

fn block(block_type: BlockType, behaviour: BlockBehaviour) -> Block {
    Block { block_type, behaviour, ..Block::default() }
}

#[test]
fn default_block_is_a_simple_sitting_duck() {
    let b = Block::default();
    assert_eq!(b.position, Position { x: 0, y: 0 });
    assert_eq!(b.block_type, BlockType::Simple);
    assert_eq!(b.behaviour, BlockBehaviour::SittingDuck);
    assert_eq!(b.trigger_type, None);
    assert_eq!(b.trigger_group, None);
    assert_eq!(
        Hittable::default(),
        Hittable { hit_points: 1, original_hit_points: 1, only_top: false }
    );
}

#[test]
fn durability_follows_the_class() {
    let of = |t: BlockType| Hittable::for_block_type(&t).map(|h| (h.hit_points, h.only_top));
    assert_eq!(of(BlockType::Simple), Some((1, false)));
    assert_eq!(of(BlockType::Hardling), Some((2, false)));
    assert_eq!(of(BlockType::Concrete), Some((3, false)));
    assert_eq!(of(BlockType::SimpleTop), Some((1, true)));
    assert_eq!(of(BlockType::Obstacle), None);
}

#[test]
fn hardling_takes_two_hits() {
    let mut h = Hittable::for_block_type(&BlockType::Hardling).unwrap();
    assert!(!h.take_hit(false));
    assert_eq!(h.damage(), 1);
    assert!(h.take_hit(false));
    assert_eq!(h.hit_points, 0);
    assert_eq!(h.damage(), 2);
}

#[test]
fn top_only_block_ignores_hits_from_below() {
    let mut h = Hittable::for_block_type(&BlockType::SimpleTop).unwrap();
    assert!(!h.take_hit(false));
    assert_eq!(h.hit_points, 1);
    assert!(h.take_hit(true));
}

#[test]
fn ball_destroys_or_shakes_a_block() {
    let concrete = block(BlockType::Concrete, BlockBehaviour::Spinner);
    let mut h = Hittable::for_block_type(&BlockType::Concrete).unwrap();
    let ball = contact(CollidableKind::Ball);
    assert_eq!(block_handle_collisions(&mut h, &concrete, &ball, false, false), BlockContact::Shaken);
    assert_eq!(block_handle_collisions(&mut h, &concrete, &ball, false, false), BlockContact::Shaken);
    assert_eq!(
        block_handle_collisions(&mut h, &concrete, &ball, false, false),
        BlockContact::Removed(MatchEvent::BlockHit(
            ball.pos,
            BlockType::Concrete,
            BlockBehaviour::Spinner
        ))
    );
}

#[test]
fn death_trigger_takes_a_crossing_block() {
    let simple = block(BlockType::Simple, BlockBehaviour::EvaderL(1000));
    let mut h = Hittable::default();
    let trigger = contact(CollidableKind::DirectionalDeathTrigger(Vector3 { x: -1, y: 0, z: 0 }));
    assert_eq!(
        block_handle_collisions(&mut h, &simple, &trigger, false, false),
        BlockContact::Untouched
    );
    assert_eq!(
        block_handle_collisions(&mut h, &simple, &trigger, false, true),
        BlockContact::Removed(MatchEvent::BlockLost)
    );
    assert_eq!(h.hit_points, 1);
    let wall = contact(CollidableKind::Wall);
    assert_eq!(block_handle_collisions(&mut h, &simple, &wall, true, true), BlockContact::Untouched);
}

#[test]
fn block_parts_follow_behaviour_class_and_trigger() {
    let duck = block_spawn(&block(BlockType::Simple, BlockBehaviour::SittingDuck));
    assert_eq!(duck.body, None);
    assert_eq!(duck.motion, None);
    assert_eq!(duck.hittable, Some(Hittable::default()));
    assert_eq!(duck.obstacle, None);
    assert_eq!((duck.trigger, duck.target, duck.inactive), (None, None, None));

    let spinner = block_spawn(&block(BlockType::Obstacle, BlockBehaviour::Spinner));
    assert_eq!(spinner.body, Some(BlockBody::Fixed));
    assert_eq!(spinner.motion, Some(BlockMotion::Spinner));
    assert_eq!(spinner.hittable, None);
    assert_eq!(spinner.obstacle, Some(Obstacle));

    let velocity = |b: BlockBehaviour| block_spawn(&block(BlockType::Simple, b)).motion;
    let evader = |x: i64, z: i64| Some(BlockMotion::Evader(Vector3 { x, y: 0, z }));
    assert_eq!(velocity(BlockBehaviour::EvaderR(5)), evader(5, 0));
    assert_eq!(velocity(BlockBehaviour::EvaderL(5)), evader(-5, 0));
    assert_eq!(velocity(BlockBehaviour::EvaderU(5)), evader(0, -5));
    assert_eq!(velocity(BlockBehaviour::EvaderD(5)), evader(0, 5));
    assert_eq!(velocity(BlockBehaviour::Vanisher), Some(BlockMotion::Vanisher));
    assert_eq!(velocity(BlockBehaviour::Repuslor), Some(BlockMotion::Repulsor));
    assert_eq!(
        block_spawn(&block(BlockType::Simple, BlockBehaviour::EvaderD(5))).body,
        Some(BlockBody::Dynamic)
    );

    let with = |t: TriggerType, g: Option<u16>| {
        block_spawn(&Block { trigger_type: Some(t), trigger_group: g, ..Block::default() })
    };
    let start = with(TriggerType::Start, Some(4));
    assert_eq!(start.trigger, Some(BlockTrigger { group: 4, trigger_type: TriggerType::Start }));
    assert_eq!((start.target, start.inactive), (None, None));
    let flip = with(TriggerType::StartStop, None);
    assert_eq!(flip.trigger, Some(BlockTrigger { group: 0, trigger_type: TriggerType::StartStop }));
    let resting = with(TriggerType::ReceiverStartingInactive, Some(2));
    assert_eq!(resting.trigger, None);
    assert_eq!(resting.target, Some(BlockTriggerTarget { group: 2, auto_stop: false }));
    assert_eq!(resting.inactive, Some(BlockTriggerTargetInactive));
    let awake = with(TriggerType::ReceiverStartingActive, Some(2));
    assert_eq!(awake.target, Some(BlockTriggerTarget { group: 2, auto_stop: false }));
    assert_eq!(awake.inactive, None);
}

#[test]
fn untouched_group_is_stopped_and_not_consumed() {
    let states = TriggerStates::new();
    assert!(states.is_stopped(3));
    assert!(!states.is_started(3));
    assert!(!states.is_consumed(3));
    assert_eq!(states.get_state(3), None);
}

#[test]
fn start_and_stop_wait_to_be_consumed() {
    let mut states = TriggerStates::new();
    let ball = contact(CollidableKind::Ball);
    states.start(3, ball);
    assert!(states.is_started(3));
    assert!(!states.is_stopped(3));
    assert_eq!(states.get_state(3), Some(&TriggerState::Started(ball)));
    assert!(states.is_stopped(4));
    states.consume(3);
    assert!(states.is_consumed(3));
    assert!(!states.is_consumed(4));
    states.stop(3);
    assert!(states.is_stopped(3));
    assert_eq!(states.get_state(3), Some(&TriggerState::Stopped));
    assert!(!states.is_consumed(3));
}

#[test]
fn flip_toggles_a_group() {
    let mut states = TriggerStates::new();
    let ball = contact(CollidableKind::Ball);
    states.flip(1, ball);
    assert!(states.is_started(1));
    states.consume(1);
    states.flip(1, ball);
    assert!(states.is_stopped(1));
    assert!(!states.is_consumed(1));
}

#[test]
fn only_the_ball_fires_a_trigger() {
    let mut states = TriggerStates::new();
    let start = BlockTrigger { group: 2, trigger_type: TriggerType::Start };
    states.fire(&start, contact(CollidableKind::Wall));
    assert!(states.is_stopped(2));
    states.fire(&start, contact(CollidableKind::Ball));
    assert!(states.is_started(2));
    let receiver = BlockTrigger { group: 2, trigger_type: TriggerType::ReceiverStartingActive };
    states.consume(2);
    states.fire(&receiver, contact(CollidableKind::Ball));
    assert!(states.is_started(2));
    assert!(states.is_consumed(2));
    let stop = BlockTrigger { group: 2, trigger_type: TriggerType::Stop };
    states.fire(&stop, contact(CollidableKind::Ball));
    assert!(states.is_stopped(2));
    let toggle = BlockTrigger { group: 2, trigger_type: TriggerType::StartStop };
    states.fire(&toggle, contact(CollidableKind::Ball));
    assert!(states.is_started(2));
}

#[test]
fn first_receiver_acts_on_a_change() {
    let mut states = TriggerStates::new();
    let target = BlockTriggerTarget { group: 5, auto_stop: false };
    assert_eq!(states.update_target(&target), TargetChange::Deactivate);
    assert_eq!(states.update_target(&target), TargetChange::Keep);
    states.start(5, contact(CollidableKind::Ball));
    assert_eq!(states.update_target(&target), TargetChange::Activate);
    assert_eq!(states.update_target(&target), TargetChange::Keep);
    assert!(states.is_started(5));
}

#[test]
fn ball_contacts_are_told_to_the_match() {
    let ship = ball_handle_collisions(&CollidableKind::Ship);
    assert_eq!(
        ship,
        BallContact {
            event: Some(MatchEvent::BounceOffPaddle),
            bounce: true,
            correct_speed: true,
            despawn: false
        }
    );
    assert_eq!(ball_handle_collisions(&CollidableKind::Wall).event, Some(MatchEvent::BounceOffWall));
    let death = ball_handle_collisions(&CollidableKind::DeathTrigger);
    assert_eq!(death.event, Some(MatchEvent::BallLost));
    assert!(death.despawn);
    let hit = ball_handle_collisions(&CollidableKind::Block);
    assert_eq!(hit.event, None);
    assert!(hit.correct_speed);
    let other = ball_handle_collisions(&CollidableKind::Pickup);
    assert_eq!(
        other,
        BallContact { event: None, bounce: false, correct_speed: false, despawn: false }
    );
}

#[test]
fn ship_catches_pickups() {
    let pickup = PickupType::MoreBalls(1);
    assert_eq!(
        pickup_handle_collisions(&pickup, &CollidableKind::Ship),
        Some(MatchEvent::PickedUp(pickup))
    );
    assert_eq!(pickup_handle_collisions(&pickup, &CollidableKind::DeathTrigger), None);
    assert_eq!(pickup_handle_collisions(&pickup, &CollidableKind::Ball), None);
}

#[test]
fn launch_control_spawns_when_the_ship_is_empty() {
    let mut player = Player { balls_available: 1, ..Player::default() };
    assert_eq!(ship_launch_ball(&player), MatchEvent::BallSpawned);
    player.balls_carried = 1;
    assert_eq!(ship_launch_ball(&player), MatchEvent::BallLaunched);
    player.balls_carried = 0;
    player.balls_grabbed = 1;
    assert_eq!(ship_launch_ball(&player), MatchEvent::BallLaunched);
}

#[test]
fn grab_pulls_then_takes_the_ball() {
    let player = Player::default();
    assert_eq!(ship_grab_ball(&player, true, true, 3000), GrabStep::Leave);
    assert_eq!(ship_grab_ball(&player, true, true, 2999), GrabStep::Pull);
    assert_eq!(ship_grab_ball(&player, true, true, 200), GrabStep::Pull);
    assert_eq!(ship_grab_ball(&player, true, true, 199), GrabStep::Grab);
    assert_eq!(ship_grab_ball(&player, false, true, 100), GrabStep::Leave);
    assert_eq!(ship_grab_ball(&player, true, false, 100), GrabStep::Leave);
    let holding = Player { balls_grabbed: 1, ..Player::default() };
    assert_eq!(ship_grab_ball(&holding, true, true, 100), GrabStep::Leave);
}

#[test]
fn digits_map_to_the_pictures_of_the_sheet() {
    assert_eq!(
        get_sprite_indexes(&"1234567890".to_string()),
        vec![0, 1, 2, 3, 4, 5, 6, 7, 8, 9]
    );
    assert_eq!(get_sprite_indexes(&"-1,050 pts".to_string()), vec![0, 9, 4, 9]);
    assert_eq!(get_sprite_indexes(&"".to_string()), Vec::<usize>::new());
}

#[test]
fn menu_selection_moves_within_the_menu() {
    let mut selected = OptionValues::NewGame;
    assert_eq!(
        ui_handle_action(&mut selected, false, true, false),
        vec![UIEvents::SelectionChange]
    );
    assert_eq!(selected, OptionValues::NewGame);
    ui_handle_action(&mut selected, true, false, false);
    assert_eq!(selected, OptionValues::Settings);
    ui_handle_action(&mut selected, true, false, false);
    assert_eq!(selected, OptionValues::Settings);
    ui_handle_action(&mut selected, true, true, false);
    assert_eq!(selected, OptionValues::Settings);
    assert_eq!(
        ui_handle_action(&mut selected, false, true, true),
        vec![UIEvents::SelectionChange, UIEvents::SelectionActivated(0)]
    );
    assert_eq!(selected, OptionValues::NewGame);
    assert_eq!(OptionValues::try_from(0), Ok(OptionValues::NewGame));
    assert_eq!(OptionValues::try_from(1), Ok(OptionValues::Settings));
    assert_eq!(OptionValues::try_from(2), Err(()));
    assert_eq!(OptionValues::Settings.index(), 1);
}

#[test]
fn choosing_new_game_starts_a_match() {
    assert_eq!(ui_update(&UIEvents::SelectionActivated(0)), Some(GameFlowEvent::StartMatch));
    assert_eq!(ui_update(&UIEvents::SelectionActivated(1)), None);
    assert_eq!(ui_update(&UIEvents::SelectionChange), None);
}

fn two_levels(current: usize) -> Levels {
    Levels {
        definitions: vec![LevelDefinition::default(), LevelDefinition::default()],
        current_level: current,
    }
}

#[test]
fn game_starts_at_the_first_level_with_three_balls() {
    let mut levels = two_levels(1);
    let start = game_start(&mut levels, None);
    assert_eq!(levels.current_level, 0);
    assert_eq!(start.player, Player { balls_available: 3, ..Player::default() });
    assert_eq!(start.bouncer, Bouncer { bounces: -1 });
    assert_eq!(start.grabber, Some(Grabber { grabs: 5 }));

    let veteran = Player { points: 900, balls_lost: 4, balls_in_play: 1, ..Player::default() };
    let mut levels = two_levels(1);
    let again = game_start(&mut levels, Some(veteran));
    assert_eq!(levels.current_level, 0);
    assert_eq!(again.player, Player { balls_available: 3, ..Player::default() });
    assert_eq!(again.bouncer, Bouncer { bounces: -1 });
    assert_eq!(again.grabber, None);
}

#[test]
fn after_the_last_level_the_game_ends() {
    let mut levels = two_levels(0);
    assert_eq!(match_next_level(&mut levels), GameFlowEvent::StartMatch);
    assert_eq!(levels.current_level, 1);
    assert_eq!(match_next_level(&mut levels), GameFlowEvent::EndGame);
    assert_eq!(levels.current_level, 1);
}
