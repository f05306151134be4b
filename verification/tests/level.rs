use cheese_adventure::entity::Cheese;
use cheese_adventure::entity::Exit;
use cheese_adventure::entity::Mouse;
use cheese_adventure::entity::Spider;
use cheese_adventure::geometry::Vector2;
use cheese_adventure::level::CycleOutcome;
use cheese_adventure::level::Level;
use cheese_adventure::node::Direction;
use cheese_adventure::node::Gamestate;
use cheese_adventure::scene::DrawCommand;
use cheese_adventure::scene::Texture;

fn mouse_at(x: i32, y: i32) -> Mouse {
    Mouse::new(x, y, Direction::UP)
}

fn level_of(cheeses: Vec<Cheese>, spiders: Vec<Spider>) -> Level {
    Level::from_parts(cheeses, spiders, Exit::new(5900, 3000)).unwrap()
}

#[test]
fn from_parts_counts_the_cheese() {
    let mut taken = Cheese::new(800, 800);
    taken.take();
    let level = level_of(vec![Cheese::new(1600, 800), taken, Cheese::new(2400, 800)], Vec::new());
    assert_eq!(level.points(), 1);
    assert_eq!(level.max_points(), 3);
    assert_eq!(level.cheeses().len(), 3);
    assert_eq!(level.spiders().len(), 0);
    assert!(!*level.exit().is_available());
}

#[test]
fn from_parts_wants_at_least_one_cheese() {
    assert!(Level::from_parts(Vec::new(), Vec::new(), Exit::new(0, 1000)).is_none());
}

#[test]
fn from_parts_wants_at_most_255_cheeses() {
    let mut many = Vec::new();
    for _ in 0..255 {
        many.push(Cheese::new(800, 800));
    }
    let level = Level::from_parts(many, Vec::new(), Exit::new(0, 1000)).unwrap();
    assert_eq!(level.max_points(), 255);
    let mut too_many = Vec::new();
    for _ in 0..256 {
        too_many.push(Cheese::new(800, 800));
    }
    assert!(Level::from_parts(too_many, Vec::new(), Exit::new(0, 1000)).is_none());
}

#[test]
fn from_parts_wants_the_exit_closed_while_cheese_is_left() {
    let mut open = Exit::new(0, 1000);
    open.activate();
    assert!(Level::from_parts(vec![Cheese::new(800, 800)], Vec::new(), open).is_none());
    let mut open = Exit::new(0, 1000);
    open.activate();
    let mut taken = Cheese::new(800, 800);
    taken.take();
    let level = Level::from_parts(vec![taken], Vec::new(), open).unwrap();
    assert_eq!(level.points(), 1);
    assert!(*level.exit().is_available());
}

#[test]
fn mouse_on_cheese_collects_it_once() {
    let mut level = level_of(vec![Cheese::new(1300, 1300), Cheese::new(4000, 4000)], Vec::new());
    let mouse = mouse_at(1000, 1000);
    let first = level.cycle(&mouse);
    assert_eq!(first, CycleOutcome { state: Gamestate::Play, pickups: 1 });
    assert_eq!(level.points(), 1);
    assert!(!*level.cheeses()[0].is_available());
    assert!(*level.cheeses()[1].is_available());
    let second = level.cycle(&mouse);
    assert_eq!(second, CycleOutcome { state: Gamestate::Play, pickups: 0 });
    assert_eq!(level.points(), 1);
    assert!(!*level.cheeses()[0].is_available());
    assert!(*level.cheeses()[1].is_available());
}

#[test]
fn a_cheese_that_only_touches_the_hitbox_stays() {
    let mut level = level_of(vec![Cheese::new(1600, 1300), Cheese::new(800, 1300)], Vec::new());
    let out = level.cycle(&mouse_at(1000, 1000));
    assert_eq!(out, CycleOutcome { state: Gamestate::Play, pickups: 0 });
    assert_eq!(level.points(), 0);
}

#[test]
fn every_cheese_under_the_mouse_is_collected_in_one_frame() {
    let mut level = level_of(
        vec![Cheese::new(1000, 1000), Cheese::new(4000, 4000), Cheese::new(1500, 1500), Cheese::new(1300, 900)],
        Vec::new(),
    );
    let out = level.cycle(&mouse_at(1000, 1000));
    assert_eq!(out, CycleOutcome { state: Gamestate::Play, pickups: 3 });
    assert_eq!(level.points(), 3);
    assert_eq!(level.max_points(), 4);
    assert!(!*level.cheeses()[0].is_available());
    assert!(*level.cheeses()[1].is_available());
    assert!(!*level.cheeses()[2].is_available());
    assert!(!*level.cheeses()[3].is_available());
    assert!(!*level.exit().is_available());
}

#[test]
fn the_exit_opens_when_all_cheese_is_collected_and_leads_on() {
    let mut level = level_of(vec![Cheese::new(1300, 1300)], Vec::new());
    let mouse = mouse_at(1000, 1000);
    assert_eq!(level.cycle(&mouse), CycleOutcome { state: Gamestate::Play, pickups: 1 });
    assert_eq!(level.points(), level.max_points());
    assert!(!*level.exit().is_available());
    assert_eq!(level.cycle(&mouse), CycleOutcome { state: Gamestate::Play, pickups: 0 });
    assert!(*level.exit().is_available());
    assert_eq!(level.cycle(&mouse), CycleOutcome { state: Gamestate::Play, pickups: 0 });
    assert!(*level.exit().is_available());
    let at_exit = mouse_at(5600, 2900);
    assert_eq!(level.cycle(&at_exit), CycleOutcome { state: Gamestate::NextLevel, pickups: 0 });
    assert!(*level.exit().is_available());
    assert_eq!(level.points(), 1);
}

#[test]
fn a_closed_exit_leads_nowhere() {
    let mut level = level_of(vec![Cheese::new(1300, 1300)], Vec::new());
    let at_exit = mouse_at(5600, 2900);
    assert_eq!(level.cycle(&at_exit), CycleOutcome { state: Gamestate::Play, pickups: 0 });
    assert!(!*level.exit().is_available());
    assert_eq!(level.points(), 0);
}

#[test]
fn the_frame_that_opens_the_exit_does_not_lead_on() {
    let mut taken = Cheese::new(800, 800);
    taken.take();
    let mut level = level_of(vec![taken], Vec::new());
    let at_exit = mouse_at(5600, 2900);
    assert_eq!(level.cycle(&at_exit), CycleOutcome { state: Gamestate::Play, pickups: 0 });
    assert!(*level.exit().is_available());
    assert_eq!(level.cycle(&at_exit), CycleOutcome { state: Gamestate::NextLevel, pickups: 0 });
}

#[test]
fn a_spider_over_the_mouse_ends_the_round() {
    let mut level = level_of(vec![Cheese::new(4000, 4000)], vec![Spider::new(1300, 1300, Direction::DOWN)]);
    let out = level.cycle(&mouse_at(1000, 1000));
    assert_eq!(out, CycleOutcome { state: Gamestate::GameOver, pickups: 0 });
    assert_eq!(*level.spiders()[0].get_pos(), Vector2 { x: 1292, y: 1300 });
    assert_eq!(level.spiders()[0].get_direction(), Direction::LEFT);
}

#[test]
fn a_catch_comes_before_cheese_and_exit() {
    let mut level = level_of(vec![Cheese::new(1300, 1300)], vec![Spider::new(1300, 1300, Direction::DOWN)]);
    let out = level.cycle(&mouse_at(1000, 1000));
    assert_eq!(out, CycleOutcome { state: Gamestate::GameOver, pickups: 0 });
    assert_eq!(level.points(), 0);
    assert!(*level.cheeses()[0].is_available());
    let mut taken = Cheese::new(800, 800);
    taken.take();
    let mut done = level_of(vec![taken], vec![Spider::new(1300, 1300, Direction::DOWN)]);
    let out = done.cycle(&mouse_at(1000, 1000));
    assert_eq!(out.state, Gamestate::GameOver);
    assert!(!*done.exit().is_available());
}

#[test]
fn a_catch_is_judged_after_the_spider_has_moved() {
    let mut level = level_of(vec![Cheese::new(4000, 4000)], vec![Spider::new(1604, 1300, Direction::DOWN)]);
    let out = level.cycle(&mouse_at(1000, 1000));
    assert_eq!(out.state, Gamestate::GameOver);
    assert_eq!(*level.spiders()[0].get_pos(), Vector2 { x: 1596, y: 1300 });
    let mut away = level_of(vec![Cheese::new(4000, 4000)], vec![Spider::new(1608, 1300, Direction::DOWN)]);
    let out = away.cycle(&mouse_at(1000, 1000));
    assert_eq!(out.state, Gamestate::Play);
    assert_eq!(*away.spiders()[0].get_pos(), Vector2 { x: 1600, y: 1300 });
}

#[test]
fn every_spider_moves_before_the_catch_is_judged() {
    let mut level = level_of(
        vec![Cheese::new(4000, 4000)],
        vec![
            Spider::new(5000, 1000, Direction::DOWN),
            Spider::new(1300, 1300, Direction::DOWN),
            Spider::new(1000, 5000, Direction::UP),
        ],
    );
    let out = level.cycle(&mouse_at(1000, 1000));
    assert_eq!(out.state, Gamestate::GameOver);
    assert_eq!(*level.spiders()[0].get_pos(), Vector2 { x: 4992, y: 1000 });
    assert_eq!(level.spiders()[0].get_direction(), Direction::LEFT);
    assert_eq!(*level.spiders()[1].get_pos(), Vector2 { x: 1292, y: 1300 });
    assert_eq!(*level.spiders()[2].get_pos(), Vector2 { x: 1000, y: 4992 });
    assert_eq!(level.spiders()[2].get_direction(), Direction::DOWN);
}

#[test]
fn every_spider_walks_when_none_catches() {
    let mut level = level_of(
        vec![Cheese::new(4000, 4000)],
        vec![Spider::new(5000, 1000, Direction::DOWN), Spider::new(1000, 5000, Direction::DOWN)],
    );
    let out = level.cycle(&mouse_at(1000, 1000));
    assert_eq!(out, CycleOutcome { state: Gamestate::Play, pickups: 0 });
    assert_eq!(*level.spiders()[0].get_pos(), Vector2 { x: 4992, y: 1000 });
    assert_eq!(level.spiders()[0].get_direction(), Direction::LEFT);
    assert_eq!(*level.spiders()[1].get_pos(), Vector2 { x: 1000, y: 4992 });
    assert_eq!(level.spiders()[1].get_direction(), Direction::DOWN);
}

#[test]
fn the_later_of_two_overlapping_spiders_steps_back() {
    let mut level = level_of(
        vec![Cheese::new(800, 800)],
        vec![Spider::new(2000, 2000, Direction::DOWN), Spider::new(2300, 2300, Direction::DOWN)],
    );
    let out = level.cycle(&mouse_at(5000, 5000));
    assert_eq!(out.state, Gamestate::Play);
    assert_eq!(*level.spiders()[0].get_pos(), Vector2 { x: 2008, y: 2000 });
    assert_eq!(level.spiders()[0].get_direction(), Direction::RIGHT);
    assert_eq!(*level.spiders()[1].get_pos(), Vector2 { x: 2300, y: 2300 });
    assert_eq!(level.spiders()[1].get_direction(), Direction::RIGHT);
}

#[test]
fn the_later_of_two_spiders_in_one_row_steps_back() {
    let mut level = level_of(
        vec![Cheese::new(800, 800)],
        vec![Spider::new(2000, 2000, Direction::DOWN), Spider::new(2300, 2000, Direction::DOWN)],
    );
    let out = level.cycle(&mouse_at(5000, 2000));
    assert_eq!(out.state, Gamestate::Play);
    assert_eq!(*level.spiders()[0].get_pos(), Vector2 { x: 2008, y: 2000 });
    assert_eq!(*level.spiders()[1].get_pos(), Vector2 { x: 2300, y: 2000 });
    assert_eq!(level.spiders()[1].get_direction(), Direction::RIGHT);
}

#[test]
fn two_spiders_that_meet_in_a_row_leave_the_step_to_the_earlier() {
    let mut level = level_of(
        vec![Cheese::new(4000, 4000)],
        vec![Spider::new(1000, 1000, Direction::DOWN), Spider::new(1606, 1000, Direction::DOWN)],
    );
    let out = level.cycle(&mouse_at(1300, 1300));
    assert_eq!(out, CycleOutcome { state: Gamestate::Play, pickups: 0 });
    assert_eq!(*level.spiders()[0].get_pos(), Vector2 { x: 1008, y: 1000 });
    assert_eq!(level.spiders()[0].get_direction(), Direction::RIGHT);
    assert_eq!(*level.spiders()[1].get_pos(), Vector2 { x: 1606, y: 1000 });
    assert_eq!(level.spiders()[1].get_direction(), Direction::LEFT);
}

#[test]
fn spiders_whose_boxes_only_touch_after_their_steps_keep_them() {
    let mut level = level_of(
        vec![Cheese::new(4000, 4000)],
        vec![Spider::new(1000, 1000, Direction::DOWN), Spider::new(1616, 1000, Direction::DOWN)],
    );
    let out = level.cycle(&mouse_at(1300, 1300));
    assert_eq!(out.state, Gamestate::Play);
    assert_eq!(*level.spiders()[0].get_pos(), Vector2 { x: 1008, y: 1000 });
    assert_eq!(*level.spiders()[1].get_pos(), Vector2 { x: 1608, y: 1000 });
}

#[test]
fn spiders_at_the_very_same_place_walk_together() {
    let mut level = level_of(
        vec![Cheese::new(800, 800)],
        vec![Spider::new(2000, 2000, Direction::DOWN), Spider::new(2000, 2000, Direction::DOWN)],
    );
    let out = level.cycle(&mouse_at(5000, 2000));
    assert_eq!(out.state, Gamestate::Play);
    assert_eq!(*level.spiders()[0].get_pos(), Vector2 { x: 2008, y: 2000 });
    assert_eq!(*level.spiders()[1].get_pos(), Vector2 { x: 2008, y: 2000 });
}

#[test]
fn a_spider_steps_back_once_for_each_earlier_spider_that_it_overlaps() {
    let mut level = level_of(
        vec![Cheese::new(800, 800)],
        vec![
            Spider::new(2000, 2000, Direction::DOWN),
            Spider::new(2300, 2300, Direction::DOWN),
            Spider::new(2200, 1800, Direction::DOWN),
        ],
    );
    let out = level.cycle(&mouse_at(5000, 2000));
    assert_eq!(out.state, Gamestate::Play);
    assert_eq!(*level.spiders()[0].get_pos(), Vector2 { x: 2008, y: 2000 });
    assert_eq!(*level.spiders()[1].get_pos(), Vector2 { x: 2300, y: 2300 });
    assert_eq!(*level.spiders()[2].get_pos(), Vector2 { x: 2192, y: 1800 });
    assert_eq!(level.spiders()[2].get_direction(), Direction::RIGHT);
}

#[test]
fn a_catch_is_judged_where_the_spider_stands_after_it_has_given_way() {
    let mut level = level_of(
        vec![Cheese::new(4000, 4000)],
        vec![Spider::new(2400, 1300, Direction::DOWN), Spider::new(1904, 1300, Direction::DOWN)],
    );
    let out = level.cycle(&mouse_at(1000, 1000));
    assert_eq!(out.state, Gamestate::Play);
    assert_eq!(*level.spiders()[0].get_pos(), Vector2 { x: 2392, y: 1300 });
    assert_eq!(*level.spiders()[1].get_pos(), Vector2 { x: 1904, y: 1300 });
    let mut alone = level_of(vec![Cheese::new(4000, 4000)], vec![Spider::new(1904, 1300, Direction::DOWN)]);
    let out = alone.cycle(&mouse_at(1000, 1000));
    assert_eq!(out.state, Gamestate::Play);
    assert_eq!(*alone.spiders()[0].get_pos(), Vector2 { x: 1896, y: 1300 });
    let mut nearer = level_of(
        vec![Cheese::new(4000, 4000)],
        vec![Spider::new(2200, 1300, Direction::DOWN), Spider::new(1607, 1300, Direction::DOWN)],
    );
    let out = nearer.cycle(&mouse_at(1000, 1000));
    assert_eq!(out.state, Gamestate::Play);
    assert_eq!(*nearer.spiders()[1].get_pos(), Vector2 { x: 1607, y: 1300 });
    let mut free = level_of(vec![Cheese::new(4000, 4000)], vec![Spider::new(1607, 1300, Direction::DOWN)]);
    let out = free.cycle(&mouse_at(1000, 1000));
    assert_eq!(out.state, Gamestate::GameOver);
    assert_eq!(*free.spiders()[0].get_pos(), Vector2 { x: 1599, y: 1300 });
}

#[test]
fn the_spiders_stay_in_the_arena_while_they_hunt() {
    let mut level = level_of(
        vec![Cheese::new(4000, 4000)],
        vec![
            Spider::new(800, 800, Direction::DOWN),
            Spider::new(1600, 800, Direction::DOWN),
            Spider::new(800, 1600, Direction::DOWN),
            Spider::new(5600, 5600, Direction::DOWN),
        ],
    );
    let far = Mouse::new(-20000, 20000, Direction::UP);
    for _ in 0..1500 {
        let out = level.cycle(&far);
        assert_eq!(out.state, Gamestate::Play);
        for spider in level.spiders().iter() {
            let pos = *spider.get_pos();
            assert!(0 <= pos.x && pos.x <= 5800);
            assert!(0 <= pos.y && pos.y <= 5800);
        }
    }
}

#[test]
fn the_score_never_counts_a_cheese_twice() {
    let mut level = level_of(
        vec![Cheese::new(1300, 1300), Cheese::new(1400, 1400), Cheese::new(5000, 5000)],
        Vec::new(),
    );
    let mouse = mouse_at(1000, 1000);
    let mut sounded = 0;
    for _ in 0..50 {
        let out = level.cycle(&mouse);
        sounded += out.pickups as u32;
        assert!(level.points() <= level.max_points());
    }
    assert_eq!(sounded, 2);
    assert_eq!(level.points(), 2);
    assert!(!*level.exit().is_available());
}

#[test]
fn an_open_exit_never_closes() {
    let mut level = level_of(vec![Cheese::new(1300, 1300)], vec![Spider::new(5600, 5600, Direction::DOWN)]);
    let mouse = mouse_at(1000, 1000);
    level.cycle(&mouse);
    level.cycle(&mouse);
    assert!(*level.exit().is_available());
    for _ in 0..200 {
        level.cycle(&mouse);
        assert!(*level.exit().is_available());
        assert_eq!(level.points(), level.max_points());
    }
}

#[test]
fn draw_items_lists_the_open_exit_and_the_cheese_that_is_left() {
    let mut taken = Cheese::new(800, 800);
    taken.take();
    let mut level = level_of(vec![Cheese::new(1600, 800), taken, Cheese::new(2449, 850)], Vec::new());
    let mut commands = Vec::new();
    level.draw_items(&mut commands);
    assert_eq!(commands.len(), 2);
    match commands[0] {
        DrawCommand::Image { texture, sprite } => {
            assert_eq!(texture, Texture::Cheese);
            assert_eq!((sprite.x, sprite.y), (1600, 800));
        }
        _ => panic!("the first cheese is an image"),
    }
    match commands[1] {
        DrawCommand::Image { texture, sprite } => {
            assert_eq!(texture, Texture::Cheese);
            assert_eq!((sprite.x, sprite.y), (2400, 900));
        }
        _ => panic!("the last cheese is an image"),
    }
    let mut all_taken = Cheese::new(800, 800);
    all_taken.take();
    let mut done = level_of(vec![all_taken], Vec::new());
    done.cycle(&mouse_at(1000, 1000));
    let mut commands = Vec::new();
    done.draw_items(&mut commands);
    assert_eq!(commands.len(), 1);
    match commands[0] {
        DrawCommand::Image { texture, sprite } => {
            assert_eq!(texture, Texture::Exit);
            assert_eq!((sprite.x, sprite.y), (5900, 3000));
        }
        _ => panic!("the exit is an image"),
    }
}

#[test]
fn draw_spiders_lists_the_spiders_in_their_order() {
    let mut level = level_of(
        vec![Cheese::new(800, 800)],
        vec![Spider::new(1600, 1600, Direction::DOWN), Spider::new(2400, 2400, Direction::UP)],
    );
    let mut commands = Vec::new();
    level.draw_spiders(&mut commands);
    assert_eq!(commands.len(), 2);
    match commands[0] {
        DrawCommand::Image { texture, sprite } => {
            assert_eq!(texture, Texture::Spider);
            assert_eq!((sprite.x, sprite.y, sprite.frame_x), (1600, 1600, 1200));
        }
        _ => panic!("a spider is an image"),
    }
    match commands[1] {
        DrawCommand::Image { texture, sprite } => {
            assert_eq!(texture, Texture::Spider);
            assert_eq!((sprite.x, sprite.y, sprite.frame_x), (2400, 2400, 0));
        }
        _ => panic!("a spider is an image"),
    }
}
