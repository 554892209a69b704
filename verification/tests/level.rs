use angle_out::block::{BlockBehaviour, BlockType};
use angle_out::level::{
    can_spawn, level_spawn, make_filled_grid, make_grid_from_string_layout, LevelDefinition,
    Levels, PickupPlacement, TargetLayout, WinCriteria,
};
use angle_out::match_state::MatchState;
use angle_out::pickups::PickupType;

fn level_with(pickups: Vec<PickupType>) -> LevelDefinition {
    LevelDefinition { global_pickups: pickups, ..LevelDefinition::default() }
}

#[test]
fn default_level_is_a_five_by_five_grid() {
    let level = LevelDefinition::default();
    assert_eq!(level.background_asset, "ship3_003.glb#Scene10");
    assert_eq!(level.background_scroll_velocity, 0);
    assert_eq!(level.simultaneous_balls, 1);
    assert_eq!(level.win_criteria, WinCriteria::BlockHitPercentage(100));
    assert_eq!(
        level.targets,
        TargetLayout::FilledGrid(5, 5, BlockType::Simple, BlockBehaviour::SittingDuck, 200)
    );
    assert_eq!(level.time_limit, None);
    assert!(level.global_pickups.is_empty());
    assert!(level.obstacles.is_empty());
    assert!(level.default_wall_l);
    assert!(level.default_wall_r);
    assert_eq!(level.pickup_at(0), None);
}

#[test]
fn placed_pickup_is_found_again() {
    let mut level = level_with(vec![]);
    let mut placement = PickupPlacement::new(10);
    assert!(level.place_pickup(&mut placement, 4, PickupType::MoreBalls(2)));
    assert_eq!(level.pickup_at(4), Some(&PickupType::MoreBalls(2)));
    assert_eq!(level.pickup_at(3), None);
    assert_eq!(placement.placed, vec![4]);
    assert_eq!((placement.start, placement.end), (4, 10));
}

#[test]
fn taken_position_is_refused() {
    let mut level = level_with(vec![]);
    let mut placement = PickupPlacement::new(10);
    assert!(level.place_pickup(&mut placement, 4, PickupType::MoreBalls(2)));
    assert!(!level.place_pickup(&mut placement, 4, PickupType::Grabber(1)));
    assert_eq!(level.pickup_at(4), Some(&PickupType::MoreBalls(2)));
    assert_eq!(placement.placed, vec![4]);
    assert_eq!((placement.start, placement.end), (4, 10));
    assert!(level.place_pickup(&mut placement, 7, PickupType::Grabber(1)));
    assert_eq!(level.pickup_at(7), Some(&PickupType::Grabber(1)));
    assert_eq!(placement.placed, vec![4, 7]);
    assert_eq!((placement.start, placement.end), (7, 10));
}

#[test]
fn last_count_keeps_the_window_start() {
    let mut placement = PickupPlacement::new(10);
    assert!(placement.offer(3));
    assert!(placement.offer(9));
    assert_eq!((placement.start, placement.end), (3, 10));
    assert!(placement.is_taken(9));
    assert!(placement.is_taken(3));
    assert!(!placement.is_taken(4));
}

#[test]
fn clearing_takes_every_pickup() {
    let mut level = level_with(vec![]);
    let mut placement = PickupPlacement::new(3);
    level.place_pickup(&mut placement, 0, PickupType::MoreBalls(1));
    level.place_pickup(&mut placement, 2, PickupType::MoreBalls(1));
    level.clear_pickups();
    for count in 0..3 {
        assert_eq!(level.pickup_at(count), None);
    }
}

#[test]
fn distribution_stays_within_the_counts() {
    let pickups = vec![PickupType::MoreBalls(1), PickupType::Grabber(2), PickupType::MoreBalls(3)];
    for _ in 0..50 {
        let mut level = level_with(pickups.clone());
        let left_out = level.distribute_global_pickups(20);
        let mut found = 0;
        for count in 0..40 {
            if let Some(pickup) = level.pickup_at(count) {
                assert!(count < 20);
                assert!(pickups.contains(pickup));
                found += 1;
            }
        }
        assert!((1..=3).contains(&found));
        assert_eq!(found + left_out, 3);
        let waits = |pickup: &PickupType| {
            (0..20).filter(|count| level.pickup_at(*count) == Some(pickup)).count()
        };
        assert_eq!(waits(&pickups[0]), 1);
        assert!(waits(&pickups[1]) <= 1);
        assert!(waits(&pickups[2]) <= 1);
        assert_eq!(level.global_pickups, pickups);
    }
}

#[test]
fn distribution_over_one_count_places_only_the_first_pickup() {
    let mut level = level_with(vec![PickupType::MoreBalls(1), PickupType::Grabber(2)]);
    assert_eq!(level.distribute_global_pickups(1), 1);
    assert_eq!(level.pickup_at(0), Some(&PickupType::MoreBalls(1)));
    assert_eq!(level.pickup_at(1), None);
}

#[test]
fn distribution_over_no_counts_places_nothing() {
    let mut level = level_with(vec![PickupType::MoreBalls(1)]);
    let mut placement = PickupPlacement::new(5);
    level.place_pickup(&mut placement, 2, PickupType::Grabber(9));
    assert_eq!(level.distribute_global_pickups(0), 1);
    for count in 0..5 {
        assert_eq!(level.pickup_at(count), None);
    }
}

#[test]
fn distribution_starts_from_scratch() {
    let mut level = level_with(vec![]);
    let mut placement = PickupPlacement::new(5);
    level.place_pickup(&mut placement, 2, PickupType::Grabber(9));
    level.distribute_global_pickups(5);
    assert_eq!(level.pickup_at(2), None);
}

fn three_levels() -> Levels {
    Levels {
        definitions: vec![
            LevelDefinition { simultaneous_balls: 1, ..LevelDefinition::default() },
            LevelDefinition { simultaneous_balls: 2, ..LevelDefinition::default() },
            LevelDefinition { simultaneous_balls: 3, ..LevelDefinition::default() },
        ],
        current_level: 0,
    }
}

#[test]
fn next_level_stops_at_the_last() {
    let mut levels = three_levels();
    assert_eq!(levels.get_current_level().unwrap().simultaneous_balls, 1);
    assert!(levels.next_level());
    assert_eq!(levels.get_current_level().unwrap().simultaneous_balls, 2);
    assert!(levels.next_level());
    assert_eq!(levels.current_level, 2);
    assert_eq!(levels.get_current_level().unwrap().simultaneous_balls, 3);
    assert!(!levels.next_level());
    assert_eq!(levels.current_level, 2);
}

#[test]
fn current_level_can_be_changed_in_place() {
    let mut levels = three_levels();
    levels.next_level();
    levels.get_current_level_mut().unwrap().simultaneous_balls = 7;
    assert_eq!(levels.definitions[1].simultaneous_balls, 7);
    assert_eq!(levels.definitions[0].simultaneous_balls, 1);
    levels.current_level = 3;
    assert!(levels.get_current_level().is_none());
    assert!(levels.get_current_level_mut().is_none());
}

#[test]
fn filled_grid_blocks_share_class_and_behaviour() {
    let blocks = make_filled_grid(3, 2, &BlockType::Hardling, &BlockBehaviour::Spinner, 200);
    assert_eq!(blocks.len(), 6);
    for block in &blocks {
        assert_eq!(block.block_type, BlockType::Hardling);
        assert_eq!(block.behaviour, BlockBehaviour::Spinner);
        assert_eq!(block.trigger_type, None);
        assert_eq!(block.trigger_group, None);
    }
    assert_eq!((blocks[0].position.x, blocks[0].position.y), (-3400, -13608));
    assert_eq!((blocks[5].position.x, blocks[5].position.y), (3400, -11706));
}

#[test]
fn obstacles_are_not_targets() {
    let (blocks, count) = make_grid_from_string_layout(&"ZA AA ZA\nBA .. CA".to_string(), 200);
    assert_eq!(blocks.len(), 5);
    assert_eq!(count, 3);
    let (blocks, count) = make_grid_from_string_layout(&"".to_string(), 200);
    assert!(blocks.is_empty());
    assert_eq!(count, 0);
}

#[test]
fn spawning_a_filled_grid_sets_the_block_count() {
    let mut stats = MatchState::default();
    stats.points = 12;
    let mut level = level_with(vec![PickupType::MoreBalls(1)]);
    assert!(can_spawn(&level));
    let spawned = level_spawn(&mut stats, &mut level);
    assert_eq!(spawned.blocks.len(), 25);
    assert_eq!(spawned.pickups_left_out, 0);
    assert_eq!(stats.blocks, 25);
    assert_eq!(stats.points, 12);
    assert_eq!((0..25).filter(|count| level.pickup_at(*count).is_some()).count(), 1);
}

#[test]
fn spawning_a_sparse_grid_counts_the_targets() {
    let mut stats = MatchState::default();
    let mut level = LevelDefinition {
        targets: TargetLayout::SparseGrid("ZA AA\nAA AA".to_string(), 200),
        global_pickups: vec![PickupType::Grabber(1)],
        ..LevelDefinition::default()
    };
    let blocks = level_spawn(&mut stats, &mut level).blocks;
    assert_eq!(blocks.len(), 4);
    assert_eq!(stats.blocks, 3);
    assert_eq!((0..3).filter(|count| level.pickup_at(*count).is_some()).count(), 1);
    assert_eq!(level.pickup_at(3), None);
}

#[test]
fn spawning_the_conveyor_places_four_evaders() {
    let mut stats = MatchState::default();
    let mut level = LevelDefinition {
        targets: TargetLayout::Custom("Conveyor".to_string()),
        global_pickups: vec![PickupType::Grabber(1)],
        ..LevelDefinition::default()
    };
    let mut placement = PickupPlacement::new(4);
    level.place_pickup(&mut placement, 1, PickupType::Grabber(1));
    let spawned = level_spawn(&mut stats, &mut level);
    assert_eq!(spawned.pickups_left_out, 0);
    let blocks = spawned.blocks;
    let seen: Vec<(i64, i64, BlockBehaviour)> =
        blocks.iter().map(|b| (b.position.x, b.position.y, b.behaviour)).collect();
    assert_eq!(
        seen,
        vec![
            (20600, -5000, BlockBehaviour::EvaderL(1000)),
            (27000, -5000, BlockBehaviour::EvaderL(1000)),
            (-20600, -7000, BlockBehaviour::EvaderR(1000)),
            (-27000, -7000, BlockBehaviour::EvaderR(1000)),
        ]
    );
    assert_eq!(stats.blocks, 4);
    assert_eq!(level.pickup_at(1), None);
}

#[test]
fn spawning_an_unknown_custom_level_changes_nothing() {
    let mut stats = MatchState::default();
    stats.blocks = 9;
    let mut level = LevelDefinition {
        targets: TargetLayout::Custom("Nowhere".to_string()),
        ..LevelDefinition::default()
    };
    let mut placement = PickupPlacement::new(4);
    level.place_pickup(&mut placement, 1, PickupType::Grabber(1));
    let blocks = level_spawn(&mut stats, &mut level).blocks;
    assert!(blocks.is_empty());
    assert_eq!(stats.blocks, 9);
    assert_eq!(level.pickup_at(1), Some(&PickupType::Grabber(1)));
}

#[test]
fn oversized_grid_cannot_be_spawned() {
    let level = LevelDefinition {
        targets: TargetLayout::FilledGrid(
            70000,
            70000,
            BlockType::Simple,
            BlockBehaviour::SittingDuck,
            200,
        ),
        ..LevelDefinition::default()
    };
    assert!(!can_spawn(&level));
}

fn waits(level: &LevelDefinition, counts: usize) -> Vec<Option<PickupType>> {
    (0..counts).map(|count| level.pickup_at(count).copied()).collect()
}

const BALLS: PickupType = PickupType::MoreBalls(1);
const GRABS: PickupType = PickupType::Grabber(2);
const MORE: PickupType = PickupType::MoreBalls(3);

#[test]
fn drawn_positions_place_the_pickups_in_turn() {
    let mut level = level_with(vec![BALLS, GRABS, MORE]);
    // 3 for the first; 3 again is taken, 4 is free, for the second; the
    // window is then 3..5, so 1 is refused and 3 and 4 are taken.
    let left_out = level.distribute_drawn_pickups(5, &vec![3, 3, 4, 1, 3, 4]);
    assert_eq!(waits(&level, 6), vec![None, None, None, Some(BALLS), Some(GRABS), None]);
    // The third pickup has had three draws refused and no more were given.
    assert_eq!(left_out, 1);
}

#[test]
fn window_starts_at_the_position_taken() {
    let mut level = level_with(vec![BALLS, GRABS]);
    // After 5 is taken the window is 5..10: 2 lies before it.
    assert_eq!(level.distribute_drawn_pickups(10, &vec![5, 2, 7]), 0);
    assert_eq!(level.pickup_at(5), Some(&BALLS));
    assert_eq!(level.pickup_at(2), None);
    assert_eq!(level.pickup_at(7), Some(&GRABS));
}

#[test]
fn last_count_leaves_the_window_whole() {
    let mut level = level_with(vec![BALLS, GRABS]);
    // 9 is the last of ten counts: the window stays 0..10, and 2 is free.
    assert_eq!(level.distribute_drawn_pickups(10, &vec![9, 2]), 0);
    assert_eq!(level.pickup_at(9), Some(&BALLS));
    assert_eq!(level.pickup_at(2), Some(&GRABS));
}

#[test]
fn tenth_refused_draw_gives_the_pickup_up() {
    let mut level = level_with(vec![BALLS, GRABS, MORE]);
    // The second pickup is refused ten times; the draw after that is for
    // the third.
    let mut draws = vec![0];
    draws.extend([0; 10]);
    draws.push(2);
    assert_eq!(level.distribute_drawn_pickups(4, &draws), 1);
    assert_eq!(waits(&level, 4), vec![Some(BALLS), None, Some(MORE), None]);
}

#[test]
fn ninth_refused_draw_does_not_give_up() {
    let mut level = level_with(vec![BALLS, GRABS, MORE]);
    // Nine refusals, and the tenth draw places the second pickup.
    let mut draws = vec![0];
    draws.extend([0; 9]);
    draws.push(2);
    assert_eq!(level.distribute_drawn_pickups(4, &draws), 1);
    assert_eq!(waits(&level, 4), vec![Some(BALLS), None, Some(GRABS), None]);
}

#[test]
fn draws_beyond_the_counts_are_refused() {
    let mut level = level_with(vec![BALLS]);
    assert_eq!(level.distribute_drawn_pickups(3, &vec![3, 7, 1]), 0);
    assert_eq!(waits(&level, 8), vec![None, Some(BALLS), None, None, None, None, None, None]);
}

#[test]
fn draws_after_the_last_pickup_change_nothing() {
    let mut level = level_with(vec![BALLS]);
    assert_eq!(level.distribute_drawn_pickups(3, &vec![1, 2, 0]), 0);
    assert_eq!(waits(&level, 3), vec![None, Some(BALLS), None]);
}

#[test]
fn without_draws_every_pickup_is_left_out() {
    let mut level = level_with(vec![BALLS, GRABS]);
    let mut placement = PickupPlacement::new(3);
    level.place_pickup(&mut placement, 1, MORE);
    assert_eq!(level.distribute_drawn_pickups(3, &vec![]), 2);
    assert_eq!(waits(&level, 3), vec![None, None, None]);
    assert_eq!(level.distribute_drawn_pickups(0, &vec![0, 0, 0]), 2);
    assert_eq!(waits(&level, 3), vec![None, None, None]);
}

#[test]
fn one_draw_at_a_time_moves_the_turn() {
    let mut level = level_with(vec![BALLS, GRABS]);
    let mut placement = PickupPlacement::new(4);
    level.take_draw(&mut placement, 1);
    assert_eq!((placement.next, placement.tries, placement.dropped), (1, 0, 0));
    level.take_draw(&mut placement, 1);
    assert_eq!((placement.next, placement.tries, placement.dropped), (1, 1, 0));
    level.take_draw(&mut placement, 0);
    assert_eq!((placement.next, placement.tries, placement.dropped), (1, 2, 0));
    level.take_draw(&mut placement, 3);
    assert_eq!((placement.next, placement.tries, placement.dropped), (2, 0, 0));
    assert_eq!(placement.placed, vec![1, 3]);
    assert_eq!((placement.start, placement.end), (1, 4));
    level.take_draw(&mut placement, 2);
    assert_eq!((placement.next, placement.tries, placement.dropped), (2, 0, 0));
    assert_eq!(waits(&level, 4), vec![None, Some(BALLS), None, Some(GRABS)]);
}
