use angle_out::block::{Block, BlockBehaviour, BlockType};
use angle_out::config::EVADER_SPEED;
use angle_out::geometry::Position;
use angle_out::layout::{generate_block_grid, interpret_grid, make_block};
use angle_out::trigger::TriggerType;

#[test]
fn works() {
    let a_level = "AA .. .. .. .. .. .. .. .. AA
 .. .. .. .. .. .. .. .. .. ..
 .. .. .. .. AB .. .. .. .. ..
 .. .. .. .. .. .. .. .. .. ..
 AA .. .. .. .. .. .. .. .. AA"
        .to_string();

    if let Some(res) = interpret_grid(&a_level, 1000) {
        assert_eq!(res.len(), 5);

        for b in res {
            println!("{:?}", b);
        }
    } else {
        assert!(false)
    }
}

#[test]
fn sparse_grid_places_blocks_at_their_cells() {
    let a_level = "AA .. .. .. .. .. .. .. .. AA
 .. .. .. .. .. .. .. .. .. ..
 .. .. .. .. AB .. .. .. .. ..
 .. .. .. .. .. .. .. .. .. ..
 AA .. .. .. .. .. .. .. .. AA"
        .to_string();
    let res = interpret_grid(&a_level, 1000).unwrap();
    let plain = |x: i64, y: i64, behaviour: BlockBehaviour| Block {
        position: Position { x, y },
        block_type: BlockType::Simple,
        behaviour,
        trigger_type: None,
        trigger_group: None,
    };
    assert_eq!(
        res,
        vec![
            plain(-22500, -20008, BlockBehaviour::SittingDuck),
            plain(22500, -20008, BlockBehaviour::SittingDuck),
            plain(-2500, -13004, BlockBehaviour::Spinner),
            plain(-22500, -6000, BlockBehaviour::SittingDuck),
            plain(22500, -6000, BlockBehaviour::SittingDuck),
        ]
    );
}

#[test]
fn full_grid_yields_every_cell() {
    let text = "AA AA AA AA AA AA AA AA AA
 AA AA AA AA AA AA AA AA AA
 AA AA AA AA AA AA AA AA AA"
        .to_string();
    let res = interpret_grid(&text, 200).unwrap();
    assert_eq!(res.len(), 27);
}

#[test]
fn single_occupied_cell_yields_one_block() {
    let text = ".. .. ..\n.. CD ..\n.. .. ..\n.. .. ..\n.. .. ..".to_string();
    let res = interpret_grid(&text, 200).unwrap();
    assert_eq!(res.len(), 1);
    assert_eq!(res[0].block_type, BlockType::Concrete);
    assert_eq!(res[0].behaviour, BlockBehaviour::Repuslor);
    assert_eq!(res[0].position, Position { x: 0, y: 2 * (-3000 - 4 * 951 + 951) });
}

#[test]
fn odd_column_count_centres_the_middle_column() {
    let res = interpret_grid(&"AA AA AA".to_string(), 200).unwrap();
    let xs: Vec<i64> = res.iter().map(|b| b.position.x).collect();
    assert_eq!(xs, vec![-3400, 0, 3400]);
}

#[test]
fn even_column_count_straddles_the_centre() {
    let res = interpret_grid(&"AA AA AA AA".to_string(), 200).unwrap();
    let xs: Vec<i64> = res.iter().map(|b| b.position.x).collect();
    assert_eq!(xs, vec![-5100, -1700, 1700, 5100]);
}

#[test]
fn column_count_follows_the_first_row() {
    // One word in the first row: one column, whatever the rows below hold.
    let res = interpret_grid(&"AA\n AA AA".to_string(), 0).unwrap();
    let at: Vec<(i64, i64)> = res.iter().map(|b| (b.position.x, b.position.y)).collect();
    assert_eq!(at, vec![(0, -12008), (0, -10506), (3000, -10506)]);
}

#[test]
fn short_words_take_no_slot() {
    let res = interpret_grid(&"AA A  AA".to_string(), 200).unwrap();
    // Four words in the first row, two of them cells.
    let xs: Vec<i64> = res.iter().map(|b| b.position.x).collect();
    assert_eq!(xs, vec![-5100, -1700]);
}

#[test]
fn empty_slot_still_takes_its_column() {
    let res = interpret_grid(&"AA .. AA".to_string(), 200).unwrap();
    let xs: Vec<i64> = res.iter().map(|b| b.position.x).collect();
    assert_eq!(xs, vec![-3400, 3400]);
}

#[test]
fn text_without_cells_is_refused() {
    assert_eq!(interpret_grid(&"".to_string(), 200), None);
    assert_eq!(interpret_grid(&"\n\n".to_string(), 200), None);
    assert_eq!(interpret_grid(&"A B C".to_string(), 200), None);
    assert_eq!(interpret_grid(&"   ".to_string(), 200), None);
}

#[test]
fn text_of_empty_slots_gives_no_blocks() {
    assert_eq!(interpret_grid(&".. ..\n.. ..".to_string(), 200), Some(Vec::<Block>::new()));
}

#[test]
fn odd_gap_with_even_columns_is_centred() {
    // A gap of 0.25 units: the two blocks stand 7.625 units to either side.
    let res = interpret_grid(&"AA AA".to_string(), 25).unwrap();
    let xs: Vec<i64> = res.iter().map(|b| b.position.x).collect();
    assert_eq!(xs, vec![-1525, 1525]);
    let grid: Vec<i64> = generate_block_grid(1, 2, 25).iter().map(|p| p.x).collect();
    assert_eq!(grid, vec![-1525, 1525]);
    let four: Vec<i64> = generate_block_grid(1, 4, 25).iter().map(|p| p.x).collect();
    assert_eq!(four, vec![-4575, -1525, 1525, 4575]);
    let negative: Vec<i64> = generate_block_grid(1, 2, -3).iter().map(|p| p.x).collect();
    assert_eq!(negative, vec![-1497, 1497]);
}

#[test]
fn every_row_is_a_mirror_image_of_itself() {
    for cols in 1..9usize {
        for gap in [-7, 0, 1, 25, 199, 200, 1001] {
            let grid = generate_block_grid(3, cols, gap);
            assert_eq!(grid.len(), 3 * cols);
            for row in 0..3 {
                for col in 0..cols {
                    let here = grid[row * cols + col];
                    let there = grid[row * cols + (cols - 1 - col)];
                    assert_eq!(here.x + there.x, 0);
                    assert_eq!(here.y, there.y);
                    assert_eq!(here.y, 2 * (-3000 - 4 * (751 + gap as i64)
                        + row as i64 * (751 + gap as i64)));
                    if col + 1 < cols {
                        assert_eq!(grid[row * cols + col + 1].x - here.x, 2 * (1500 + gap as i64));
                    }
                }
            }
        }
    }
}

#[test]
fn trigger_codes_are_read() {
    let res = interpret_grid(&"ZIR1 .. CA ZAA1 BEC9 AAS AAX7 AAAx".to_string(), 200).unwrap();
    assert_eq!(res.len(), 7);
    assert_eq!(res[0].block_type, BlockType::Obstacle);
    assert_eq!(res[0].behaviour, BlockBehaviour::SittingDuck);
    assert_eq!(res[0].trigger_type, Some(TriggerType::ReceiverStartingInactive));
    assert_eq!(res[0].trigger_group, Some(1));
    assert_eq!(res[1].trigger_type, None);
    assert_eq!(res[1].trigger_group, None);
    assert_eq!(res[2].trigger_type, Some(TriggerType::Start));
    assert_eq!(res[2].trigger_group, Some(1));
    assert_eq!(res[3].block_type, BlockType::Hardling);
    assert_eq!(res[3].behaviour, BlockBehaviour::EvaderR(EVADER_SPEED));
    assert_eq!(res[3].trigger_type, Some(TriggerType::StartStop));
    assert_eq!(res[3].trigger_group, Some(9));
    assert_eq!(res[4].trigger_type, Some(TriggerType::ReceiverStartingActive));
    assert_eq!(res[4].trigger_group, None);
    assert_eq!(res[5].trigger_type, None);
    assert_eq!(res[5].trigger_group, Some(7));
    assert_eq!(res[6].trigger_type, Some(TriggerType::Start));
    assert_eq!(res[6].trigger_group, None);
}

#[test]
fn make_block_reads_each_class_and_behaviour() {
    let pos = Position { x: 1, y: 2 };
    let class = |c: char| make_block(c, 'A', None, None, pos).map(|b| b.block_type);
    assert_eq!(class('A'), Some(BlockType::Simple));
    assert_eq!(class('B'), Some(BlockType::Hardling));
    assert_eq!(class('C'), Some(BlockType::Concrete));
    assert_eq!(class('D'), Some(BlockType::SimpleTop));
    assert_eq!(class('Z'), Some(BlockType::Obstacle));
    assert_eq!(class('.'), None);
    assert_eq!(class('q'), Some(BlockType::Simple));
    let behaviour = |c: char| make_block('A', c, None, None, pos).map(|b| b.behaviour);
    assert_eq!(behaviour('A'), Some(BlockBehaviour::SittingDuck));
    assert_eq!(behaviour('B'), Some(BlockBehaviour::Spinner));
    assert_eq!(behaviour('C'), Some(BlockBehaviour::Vanisher));
    assert_eq!(behaviour('D'), Some(BlockBehaviour::Repuslor));
    assert_eq!(behaviour('E'), Some(BlockBehaviour::EvaderR(EVADER_SPEED)));
    assert_eq!(behaviour('F'), Some(BlockBehaviour::EvaderL(EVADER_SPEED)));
    assert_eq!(behaviour('G'), Some(BlockBehaviour::EvaderU(EVADER_SPEED)));
    assert_eq!(behaviour('H'), Some(BlockBehaviour::EvaderD(EVADER_SPEED)));
    assert_eq!(behaviour('.'), None);
    assert_eq!(behaviour('?'), Some(BlockBehaviour::SittingDuck));
    assert_eq!(make_block('A', 'A', None, None, pos).unwrap().position, pos);
}

#[test]
fn make_block_reads_every_trigger_group_digit() {
    let pos = Position { x: 0, y: 0 };
    for (digit, group) in "0123456789".chars().zip(0u16..) {
        let block = make_block('A', 'A', Some('A'), Some(digit), pos).unwrap();
        assert_eq!(block.trigger_group, Some(group));
    }
    assert_eq!(make_block('A', 'A', Some('A'), Some('/'), pos).unwrap().trigger_group, None);
    assert_eq!(make_block('A', 'A', Some('A'), Some(':'), pos).unwrap().trigger_group, None);
}

#[test]
fn filled_grid_has_a_position_for_each_row_and_column() {
    let grid = generate_block_grid(2, 3, 200);
    assert_eq!(
        grid,
        vec![
            Position { x: -3400, y: -13608 },
            Position { x: 0, y: -13608 },
            Position { x: 3400, y: -13608 },
            Position { x: -3400, y: -11706 },
            Position { x: 0, y: -11706 },
            Position { x: 3400, y: -11706 },
        ]
    );
    let even = generate_block_grid(1, 2, 200);
    assert_eq!(even, vec![Position { x: -1700, y: -13608 }, Position { x: 1700, y: -13608 }]);
    assert_eq!(generate_block_grid(0, 5, 200), Vec::<Position>::new());
    assert_eq!(generate_block_grid(5, 0, 200), Vec::<Position>::new());
    assert_eq!(generate_block_grid(7, 9, 0).len(), 63);
}
