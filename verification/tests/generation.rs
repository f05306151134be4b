use cheese_adventure::entity::Cheese;
use cheese_adventure::generation::cell_position;
use cheese_adventure::generation::forced_cheese;
use cheese_adventure::generation::hit;
use cheese_adventure::generation::place_exit;
use cheese_adventure::generation::populate;
use cheese_adventure::generation::scale;
use cheese_adventure::generation::CellDraw;
use cheese_adventure::generation::Draws;
use cheese_adventure::generation::GRID_CELLS;
use cheese_adventure::geometry::Vector2;
use cheese_adventure::level::Level;
use cheese_adventure::node::Direction;
use rand::thread_rng;

const HALF: u32 = 0x8000_0000;

fn draws_of(cheese: u32, spider: u32) -> Draws {
    let mut cells = Vec::new();
    for _ in 0..GRID_CELLS {
        cells.push(CellDraw { cheese, spider });
    }
    Draws { exit_left: false, exit_height: 0, cells, spare_x: HALF, spare_y: HALF / 2 }
}

fn cheese_places(cheeses: &Vec<Cheese>) -> Vec<(i32, i32)> {
    cheeses.iter().map(|c| (c.get_pos().x, c.get_pos().y)).collect()
}

fn all_cells() -> Vec<(i32, i32)> {
    let mut cells = Vec::new();
    for y in 1..8 {
        for x in 1..8 {
            cells.push((x * 800, y * 800));
        }
    }
    cells
}

#[test]
fn a_draw_meets_a_rate_up_to_the_rate() {
    assert!(hit(0, 0));
    assert!(!hit(1, 0));
    assert!(hit(HALF, 50));
    assert!(!hit(HALF + 1, 50));
    assert!(hit(u32::MAX, 100));
    assert!(!hit(u32::MAX, 99));
    assert!(hit(85899345, 2));
    assert!(!hit(85899346, 2));
    assert!(hit(214748364, 5));
    assert!(!hit(214748365, 5));
    assert!(hit(u32::MAX, u32::MAX));
}

#[test]
fn scale_takes_a_fraction_of_the_range() {
    assert_eq!(scale(0, 6000), 0);
    assert_eq!(scale(HALF, 6000), 3000);
    assert_eq!(scale(HALF / 2, 6000), 1500);
    assert_eq!(scale(u32::MAX, 6000), 5999);
    assert_eq!(scale(HALF, 4000), 2000);
    assert_eq!(scale(u32::MAX, 4000), 3999);
    assert_eq!(scale(715827, 6000), 0);
    assert_eq!(scale(715828, 6000), 1);
    assert_eq!(scale(u32::MAX, 0), 0);
    assert_eq!(scale(u32::MAX, u32::MAX), u32::MAX - 1);
}

#[test]
fn the_cells_lie_row_by_row_one_pitch_apart() {
    assert_eq!(cell_position(0), Vector2 { x: 800, y: 800 });
    assert_eq!(cell_position(1), Vector2 { x: 1600, y: 800 });
    assert_eq!(cell_position(6), Vector2 { x: 5600, y: 800 });
    assert_eq!(cell_position(7), Vector2 { x: 800, y: 1600 });
    assert_eq!(cell_position(24), Vector2 { x: 3200, y: 3200 });
    assert_eq!(cell_position(48), Vector2 { x: 5600, y: 5600 });
    let cells = all_cells();
    for k in 0..49 {
        assert_eq!((cell_position(k).x, cell_position(k).y), cells[k]);
    }
}

#[test]
fn a_full_cheese_rate_fills_every_cell_with_cheese() {
    for draws in [draws_of(0, 0), draws_of(u32::MAX, u32::MAX), draws_of(HALF, 7)] {
        let level = Level::from_draws(&1000, &1000, &0, &100, &draws).unwrap();
        assert_eq!(cheese_places(level.cheeses()), all_cells());
        assert_eq!(level.max_points(), 49);
        assert_eq!(level.points(), 0);
        assert_eq!(level.spiders().len(), 0);
        assert!(level.cheeses().iter().all(|c| *c.is_available()));
    }
}

#[test]
fn a_full_cheese_rate_fills_every_cell_whatever_is_drawn() {
    let mut rng = thread_rng();
    for _ in 0..20 {
        let level = Level::generate(&1000, &1000, &0, &100, &mut rng);
        assert_eq!(cheese_places(level.cheeses()), all_cells());
        assert_eq!(level.max_points(), 49);
        assert_eq!(level.spiders().len(), 0);
    }
}

#[test]
fn a_full_cheese_rate_leaves_no_room_for_spiders() {
    let level = Level::from_draws(&0, &0, &100, &100, &draws_of(u32::MAX, 0)).unwrap();
    assert_eq!(level.cheeses().len(), 49);
    assert_eq!(level.spiders().len(), 0);
}

#[test]
fn empty_rates_force_one_cheese() {
    let level = Level::from_draws(&1000, &1000, &0, &0, &draws_of(1, 1)).unwrap();
    assert_eq!(cheese_places(level.cheeses()), vec![(3000, 1500)]);
    assert!(*level.cheeses()[0].is_available());
    assert_eq!(level.max_points(), 1);
    assert_eq!(level.points(), 0);
    assert_eq!(level.spiders().len(), 0);
    assert!(!*level.exit().is_available());
}

#[test]
fn the_forced_cheese_lies_anywhere_in_the_play_area() {
    let mut draws = draws_of(u32::MAX, u32::MAX);
    draws.spare_x = 0;
    draws.spare_y = u32::MAX;
    let level = Level::from_draws(&1000, &1000, &0, &0, &draws).unwrap();
    assert_eq!(cheese_places(level.cheeses()), vec![(0, 5999)]);
    let cheese = forced_cheese(HALF, 3 * (HALF / 2));
    assert_eq!(*cheese.get_pos(), Vector2 { x: 3000, y: 4500 });
    assert!(*cheese.is_available());
}

#[test]
fn a_draw_of_zero_meets_an_empty_rate() {
    let mut draws = draws_of(1, 1);
    draws.cells[10].cheese = 0;
    draws.cells[20].spider = 0;
    let level = Level::from_draws(&1000, &1000, &0, &0, &draws).unwrap();
    assert_eq!(cheese_places(level.cheeses()), vec![(3200, 1600)]);
    assert_eq!(level.spiders().len(), 1);
    assert_eq!(*level.spiders()[0].get_pos(), Vector2 { x: 5600, y: 2400 });
}

#[test]
fn a_generated_level_always_has_cheese_and_counts_it() {
    let mut rng = thread_rng();
    for (enemy, cheese) in [(0u32, 0u32), (5, 2), (50, 50), (100, 0), (0, 100), (30, 1)] {
        for _ in 0..20 {
            let level = Level::generate(&1000, &1000, &enemy, &cheese, &mut rng);
            assert!(level.cheeses().len() >= 1);
            assert!(level.cheeses().len() <= 49);
            assert_eq!(level.max_points() as usize, level.cheeses().len());
            assert_eq!(level.points(), 0);
            assert!(!*level.exit().is_available());
            assert!(level.cheeses().iter().all(|c| *c.is_available()));
        }
    }
}

#[test]
fn generated_levels_differ() {
    let mut rng = thread_rng();
    let mut heights = Vec::new();
    for _ in 0..40 {
        let level = Level::generate(&1000, &1000, &50, &50, &mut rng);
        heights.push((level.exit().get_pos().y, level.cheeses().len(), level.spiders().len()));
    }
    assert!(heights.iter().any(|h| *h != heights[0]));
}

#[test]
fn no_spider_is_placed_within_twenty_units_of_the_player() {
    let level = Level::from_draws(&1000, &1000, &100, &0, &draws_of(1, u32::MAX)).unwrap();
    let mut expected = Vec::new();
    for (x, y) in all_cells() {
        let dx = (x - 1000) as i64;
        let dy = (y - 1000) as i64;
        if dx * dx + dy * dy > 2000 * 2000 {
            expected.push((x, y));
        }
    }
    let placed: Vec<(i32, i32)> = level.spiders().iter().map(|s| (s.get_pos().x, s.get_pos().y)).collect();
    assert_eq!(placed, expected);
    assert_eq!(placed.len(), 40);
    assert!(!placed.contains(&(800, 800)));
    assert!(!placed.contains(&(2400, 2400)));
    assert!(placed.contains(&(3200, 800)));
    assert!(level.spiders().iter().all(|s| s.get_direction() == Direction::DOWN));
    assert_eq!(cheese_places(level.cheeses()), vec![(3000, 1500)]);
}

#[test]
fn a_cell_at_exactly_twenty_units_gets_no_spider() {
    let level = Level::from_draws(&800, &2800, &100, &0, &draws_of(1, 0)).unwrap();
    let placed: Vec<(i32, i32)> = level.spiders().iter().map(|s| (s.get_pos().x, s.get_pos().y)).collect();
    assert!(!placed.contains(&(800, 800)));
    assert!(!placed.contains(&(800, 4800)));
    assert!(!placed.contains(&(2400, 4000)));
    assert!(placed.contains(&(800, 5600)));
    assert!(placed.contains(&(3200, 2400)));
    let nearer = Level::from_draws(&800, &2801, &100, &0, &draws_of(1, 0)).unwrap();
    let placed: Vec<(i32, i32)> = nearer.spiders().iter().map(|s| (s.get_pos().x, s.get_pos().y)).collect();
    assert!(placed.contains(&(800, 800)));
}

#[test]
fn a_far_player_gets_a_spider_in_every_cell() {
    let level = Level::from_draws(&-100000, &-100000, &100, &0, &draws_of(1, 5)).unwrap();
    let placed: Vec<(i32, i32)> = level.spiders().iter().map(|s| (s.get_pos().x, s.get_pos().y)).collect();
    assert_eq!(placed, all_cells());
}

#[test]
fn a_cell_yields_a_cheese_or_a_spider_but_not_both() {
    let mut draws = draws_of(u32::MAX, u32::MAX);
    for k in 0..GRID_CELLS {
        draws.cells[k] = CellDraw {
            cheese: if k % 2 == 0 { 0 } else { u32::MAX },
            spider: if k % 3 == 0 { 0 } else { u32::MAX },
        };
    }
    let level = Level::from_draws(&-100000, &-100000, &10, &10, &draws).unwrap();
    let cheeses = cheese_places(level.cheeses());
    let spiders: Vec<(i32, i32)> = level.spiders().iter().map(|s| (s.get_pos().x, s.get_pos().y)).collect();
    assert_eq!(cheeses.len(), 25);
    assert_eq!(spiders.len(), 8);
    for place in cheeses.iter() {
        assert!(!spiders.contains(place));
    }
    let cells = all_cells();
    for k in 0..GRID_CELLS {
        assert_eq!(cheeses.contains(&cells[k]), k % 2 == 0);
        assert_eq!(spiders.contains(&cells[k]), k % 2 != 0 && k % 3 == 0);
    }
}

#[test]
fn populate_goes_through_the_grid_in_order() {
    let mut draws = draws_of(u32::MAX, u32::MAX);
    draws.cells[48].cheese = 0;
    draws.cells[3].cheese = 0;
    draws.cells[47].spider = 0;
    draws.cells[4].spider = 0;
    let (cheeses, spiders) = populate(-100000, 0, 1, 1, &draws.cells);
    assert_eq!(cheese_places(&cheeses), vec![(3200, 800), (5600, 5600)]);
    let placed: Vec<(i32, i32)> = spiders.iter().map(|s| (s.get_pos().x, s.get_pos().y)).collect();
    assert_eq!(placed, vec![(4000, 800), (4800, 5600)]);
}

#[test]
fn the_exit_stands_on_the_side_that_is_drawn() {
    let left = place_exit(true, 0);
    assert_eq!(*left.get_pos(), Vector2 { x: 0, y: 1000 });
    assert_eq!(left.get_direction(), Direction::LEFT);
    assert!(!*left.is_available());
    let right = place_exit(false, HALF);
    assert_eq!(*right.get_pos(), Vector2 { x: 5900, y: 3000 });
    assert_eq!(right.get_direction(), Direction::RIGHT);
    assert!(!*right.is_available());
    let highest = place_exit(false, u32::MAX);
    assert_eq!(*highest.get_pos(), Vector2 { x: 5900, y: 4999 });
}

#[test]
fn from_draws_places_the_exit_as_drawn() {
    let mut draws = draws_of(1, 1);
    draws.exit_left = true;
    draws.exit_height = HALF / 2;
    let level = Level::from_draws(&1000, &1000, &5, &2, &draws).unwrap();
    assert_eq!(*level.exit().get_pos(), Vector2 { x: 0, y: 2000 });
    assert_eq!(level.exit().get_direction(), Direction::LEFT);
}

#[test]
fn a_generated_exit_stands_on_a_side_between_ten_and_fifty() {
    let mut rng = thread_rng();
    let mut sides = Vec::new();
    for _ in 0..200 {
        let level = Level::generate(&1000, &1000, &5, &2, &mut rng);
        let pos = *level.exit().get_pos();
        assert!(pos.x == 0 || pos.x == 5900);
        assert_eq!(level.exit().get_direction(), if pos.x == 0 { Direction::LEFT } else { Direction::RIGHT });
        assert!(1000 <= pos.y && pos.y < 5000);
        sides.push(pos.x);
    }
    assert!(sides.contains(&0));
    assert!(sides.contains(&5900));
}

#[test]
fn generated_spiders_keep_their_distance_and_their_cells() {
    let mut rng = thread_rng();
    let cells = all_cells();
    for _ in 0..50 {
        let level = Level::generate(&3000, &3000, &50, &10, &mut rng);
        let cheeses = cheese_places(level.cheeses());
        for spider in level.spiders().iter() {
            let pos = *spider.get_pos();
            let dx = (pos.x - 3000) as i64;
            let dy = (pos.y - 3000) as i64;
            assert!(dx * dx + dy * dy > 2000 * 2000);
            assert!(cells.contains(&(pos.x, pos.y)));
            assert!(level.cheeses().len() == 1 || !cheeses.contains(&(pos.x, pos.y)));
        }
    }
}

#[test]
fn from_draws_wants_the_draws_of_all_cells() {
    let mut short = draws_of(1, 1);
    short.cells.pop();
    assert!(Level::from_draws(&1000, &1000, &5, &2, &short).is_none());
    let mut long = draws_of(1, 1);
    long.cells.push(CellDraw { cheese: 0, spider: 0 });
    assert!(Level::from_draws(&1000, &1000, &5, &2, &long).is_none());
    let mut none = draws_of(1, 1);
    none.cells.clear();
    assert!(Level::from_draws(&1000, &1000, &5, &2, &none).is_none());
    assert!(Level::from_draws(&1000, &1000, &5, &2, &draws_of(1, 1)).is_some());
}
