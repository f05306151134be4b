//! What holds of the game however long it is played.
//!
//! Each law is stated of the views, for one frame and for every run of
//! frames, and proved from the rules that the views state.

use crate::button::ButtonView;
use crate::button::BUTTON_DURATION;
use crate::clock::spec_time_between;
use crate::entity::CheeseView;
use crate::entity::MouseView;
use crate::entity::SpiderView;
use crate::game::GameView;
use crate::game::CHEESE_RATE_START;
use crate::game::ENEMY_RATE_START;
use crate::game::RATE_CAP;
use crate::geometry::Vector2;
use crate::input::Input;
use crate::level::lemma_collected_taken;
use crate::level::lemma_taken_and_picked;
use crate::level::spec_collected;
use crate::level::spec_pushed_back;
use crate::level::spec_taken;
use crate::level::LevelView;
use crate::node::Gamestate;
use vstd::prelude::*;

verus! {

/// The mouse after the frames of `inputs`, one after the other.
pub open spec fn spec_mouse_run(mouse: MouseView, inputs: Seq<Input>) -> MouseView
    decreases inputs.len(),
{
    if inputs.len() == 0 {
        mouse
    } else {
        spec_mouse_run(mouse, inputs.drop_last()).moved(inputs.last())
    }
}

/// The level after one frame for each place of `mice`, with the mouse at
/// that place.
pub open spec fn spec_level_run(level: LevelView, mice: Seq<Vector2>) -> LevelView
    decreases mice.len(),
{
    if mice.len() == 0 {
        level
    } else {
        spec_level_run(level, mice.drop_last()).cycle(mice.last())
    }
}

/// How many cheeses are there in `before` and picked up in `after`.
pub open spec fn spec_newly_taken(before: Seq<CheeseView>, after: Seq<CheeseView>) -> nat
    decreases before.len(),
{
    if before.len() == 0 {
        0
    } else {
        spec_newly_taken(before.drop_last(), after.drop_last()) + if before.last().available
            && !after.last().available {
            1nat
        } else {
            0nat
        }
    }
}

/// Whatever the keys, a mouse inside the arena is inside it after the
/// frame.
pub proof fn lemma_mouse_stays(mouse: MouseView, input: Input)
    requires
        mouse.in_arena(),
    ensures
        mouse.moved(input).in_arena(),
{
}

/// A mouse that starts inside the arena is inside it after every frame of
/// every run of keyboard input.
pub proof fn lemma_mouse_run_stays(mouse: MouseView, inputs: Seq<Input>)
    requires
        mouse.in_arena(),
    ensures
        forall|frames: int|
            0 <= frames <= inputs.len() ==> (#[trigger] spec_mouse_run(mouse, inputs.take(frames))).in_arena(),
        spec_mouse_run(mouse, inputs).in_arena(),
    decreases inputs.len(),
{
    if inputs.len() > 0 {
        let shorter = inputs.drop_last();
        lemma_mouse_run_stays(mouse, shorter);
        lemma_mouse_stays(spec_mouse_run(mouse, shorter), inputs.last());
        assert forall|frames: int| 0 <= frames <= inputs.len() implies (#[trigger] spec_mouse_run(
            mouse,
            inputs.take(frames),
        )).in_arena() by {
            if frames == inputs.len() {
                assert(inputs.take(frames) == inputs);
            } else {
                assert(inputs.take(frames) == shorter.take(frames));
            }
        }
    }
}

/// A spider inside the arena is inside it after a step towards any target,
/// after a step back, and after it has looked at any box.
pub proof fn lemma_spider_stays(spider: SpiderView, target: Vector2, size: Vector2)
    requires
        spider.in_arena(),
    ensures
        spider.pursue(target).in_arena(),
        spider.pushed_back().in_arena(),
        spider.avoided(target, size).in_arena(),
{
}

/// A spider inside the arena is inside it however often it is pushed back.
pub proof fn lemma_pushed_back_stays(spider: SpiderView, times: nat)
    requires
        spider.in_arena(),
    ensures
        spec_pushed_back(spider, times).in_arena(),
    decreases times,
{
    if times > 0 {
        lemma_pushed_back_stays(spider, (times - 1) as nat);
        lemma_spider_stays(spec_pushed_back(spider, (times - 1) as nat), spider.pos, spider.pos);
    }
}

/// If every spider of a level is inside the arena, every spider is inside
/// it after a frame, wherever the mouse is.
pub proof fn lemma_spiders_stay(level: LevelView, mouse: Vector2)
    requires
        level.spiders_in_arena(),
    ensures
        level.cycle(mouse).spiders_in_arena(),
{
    let after = level.cycle(mouse);
    assert forall|i: int| 0 <= i < after.spiders.len() implies (#[trigger] after.spiders[i]).in_arena() by {
        lemma_spider_stays(level.spiders[i], mouse, mouse);
        lemma_pushed_back_stays(level.spider_stepped(i, mouse), level.crowding(i, mouse));
    }
}

/// A sound level is sound after a frame, wherever the mouse is.
pub proof fn lemma_cycle_wf(level: LevelView, mouse: Vector2)
    requires
        level.wf(),
    ensures
        level.cycle(mouse).wf(),
{
    lemma_taken_and_picked(level.cheeses, mouse, level.cheeses.len() as int);
    assert(level.cheeses.take(level.cheeses.len() as int) == level.cheeses);
    lemma_collected_taken(level.cheeses, mouse);
}

/// A sound level is sound after every run of frames, and its spiders are
/// inside the arena after the run if they were before.
pub proof fn lemma_run_wf(level: LevelView, mice: Seq<Vector2>)
    requires
        level.wf(),
    ensures
        spec_level_run(level, mice).wf(),
        spec_level_run(level, mice).cheeses.len() == level.cheeses.len(),
        spec_level_run(level, mice).max_points == level.max_points,
        level.spiders_in_arena() ==> spec_level_run(level, mice).spiders_in_arena(),
    decreases mice.len(),
{
    if mice.len() > 0 {
        lemma_run_wf(level, mice.drop_last());
        lemma_cycle_wf(spec_level_run(level, mice.drop_last()), mice.last());
        if level.spiders_in_arena() {
            lemma_spiders_stay(spec_level_run(level, mice.drop_last()), mice.last());
        }
    }
}

/// If every spider of a level starts inside the arena, every spider is
/// inside it after every frame of every run.
pub proof fn lemma_spiders_run_stay(level: LevelView, mice: Seq<Vector2>)
    requires
        level.wf(),
        level.spiders_in_arena(),
    ensures
        forall|frames: int|
            0 <= frames <= mice.len() ==> (#[trigger] spec_level_run(level, mice.take(frames))).spiders_in_arena(),
{
    assert forall|frames: int| 0 <= frames <= mice.len() implies (#[trigger] spec_level_run(
        level,
        mice.take(frames),
    )).spiders_in_arena() by {
        lemma_run_wf(level, mice.take(frames));
    }
}

/// The cheeses that a frame of collecting newly takes are those that the
/// mouse picks up.
pub proof fn lemma_newly_taken(cheeses: Seq<CheeseView>, mouse: Vector2)
    ensures
        spec_newly_taken(cheeses, spec_collected(cheeses, mouse)) == spec_taken(spec_collected(cheeses, mouse))
            - spec_taken(cheeses),
        spec_newly_taken(cheeses, cheeses) == 0,
    decreases cheeses.len(),
{
    if cheeses.len() > 0 {
        lemma_newly_taken(cheeses.drop_last(), mouse);
        assert(spec_collected(cheeses, mouse).drop_last() == spec_collected(cheeses.drop_last(), mouse));
    }
}

/// A cheese is counted once. A frame leaves a cheese that is picked up as it
/// is; the score goes up by exactly the number of cheeses that the frame
/// newly takes; and the score is the number of cheeses taken, before the
/// frame and after it.
pub proof fn lemma_pickup_once(level: LevelView, mouse: Vector2)
    requires
        level.wf(),
    ensures
        level.cycle(mouse).cheeses.len() == level.cheeses.len(),
        forall|i: int|
            0 <= i < level.cheeses.len() && !(#[trigger] level.cheeses[i]).available ==> level.cycle(mouse).cheeses[i]
                == level.cheeses[i],
        level.cycle(mouse).points == level.points + spec_newly_taken(level.cheeses, level.cycle(mouse).cheeses),
        level.cycle(mouse).points == spec_taken(level.cycle(mouse).cheeses),
        level.points <= level.cycle(mouse).points <= level.max_points,
{
    lemma_cycle_wf(level, mouse);
    lemma_newly_taken(level.cheeses, mouse);
    lemma_collected_taken(level.cheeses, mouse);
    lemma_taken_and_picked(level.cycle(mouse).cheeses, mouse, 0);
}

/// A cheese that is picked up is picked up, and as it was, after every run
/// of frames; and the score never goes down.
pub proof fn lemma_taken_stays_taken(level: LevelView, mice: Seq<Vector2>, i: int)
    requires
        level.wf(),
        0 <= i < level.cheeses.len(),
        !level.cheeses[i].available,
    ensures
        spec_level_run(level, mice).cheeses.len() == level.cheeses.len(),
        spec_level_run(level, mice).cheeses[i] == level.cheeses[i],
        level.points <= spec_level_run(level, mice).points,
    decreases mice.len(),
{
    if mice.len() > 0 {
        let shorter = spec_level_run(level, mice.drop_last());
        lemma_taken_stays_taken(level, mice.drop_last(), i);
        lemma_run_wf(level, mice.drop_last());
        lemma_pickup_once(shorter, mice.last());
    }
}

/// A frame opens the exit only if every cheese is collected when the frame
/// begins, and no frame closes the exit.
pub proof fn lemma_exit_gate(level: LevelView, mouse: Vector2)
    requires
        level.wf(),
    ensures
        !level.exit.available && level.cycle(mouse).exit.available ==> level.points == level.max_points,
        level.exit.available ==> level.cycle(mouse).exit.available,
        level.cycle(mouse).exit.available ==> level.cycle(mouse).points == level.cycle(mouse).max_points,
{
    lemma_cycle_wf(level, mouse);
}

/// An open exit is open after every run of frames, and whenever the exit is
/// open, every cheese is collected.
pub proof fn lemma_exit_stays_open(level: LevelView, mice: Seq<Vector2>)
    requires
        level.wf(),
    ensures
        level.exit.available ==> spec_level_run(level, mice).exit.available,
        spec_level_run(level, mice).exit.available ==> spec_level_run(level, mice).points == level.max_points,
    decreases mice.len(),
{
    lemma_run_wf(level, mice);
    if mice.len() > 0 {
        lemma_exit_stays_open(level, mice.drop_last());
        lemma_run_wf(level, mice.drop_last());
        lemma_exit_gate(spec_level_run(level, mice.drop_last()), mice.last());
    }
}

/// What one frame may do to a level, wherever the mouse is: the spiders keep
/// to the arena if they were inside it; a cheese that is picked up is left
/// as it is; the score goes up by the cheeses that the frame picks up and
/// stays within the number of cheeses; and the exit opens only once every
/// cheese is collected, and does not close.
pub proof fn lemma_frame(level: LevelView, mouse: Vector2)
    requires
        level.wf(),
    ensures
        level.cycle(mouse).wf(),
        level.spiders_in_arena() ==> level.cycle(mouse).spiders_in_arena(),
        level.cycle(mouse).spiders.len() == level.spiders.len(),
        level.cycle(mouse).cheeses.len() == level.cheeses.len(),
        forall|i: int|
            0 <= i < level.cheeses.len() && !(#[trigger] level.cheeses[i]).available ==> level.cycle(mouse).cheeses[i]
                == level.cheeses[i],
        level.cycle(mouse).points == level.points + level.pickups(mouse),
        level.cycle(mouse).points <= level.max_points,
        !level.exit.available && level.cycle(mouse).exit.available ==> level.points == level.max_points,
        level.exit.available ==> level.cycle(mouse).exit.available,
{
    lemma_cycle_wf(level, mouse);
    lemma_pickup_once(level, mouse);
    lemma_exit_gate(level, mouse);
    if level.spiders_in_arena() {
        lemma_spiders_stay(level, mouse);
    }
    lemma_taken_and_picked(level.cheeses, mouse, level.cheeses.len() as int);
    assert(level.cheeses.take(level.cheeses.len() as int) == level.cheeses);
}

/// Whether the mouse and every spider of the game stand inside the arena.
pub open spec fn spec_game_in_arena(game: GameView) -> bool {
    game.character.in_arena() && game.curr_level.spiders_in_arena()
}

/// A game whose mouse and spiders are inside the arena has them inside it
/// after a frame, if the spiders of the level that the frame makes, where
/// it makes one, are inside it.
pub proof fn lemma_game_stays(game: GameView, input: Input, after: GameView)
    requires
        game.wf(),
        spec_game_in_arena(game),
        game.regenerates() ==> after.curr_level.spiders_in_arena(),
    ensures
        spec_game_in_arena(game.updated(input, after)),
{
    if game.game_state == Gamestate::Play {
        lemma_mouse_stays(game.character, input);
        lemma_spiders_stay(game.curr_level, game.character.moved(input).pos);
    }
}

/// A button is ready only after its time. A button that is not pressed
/// stays as it is when it is drawn; a button that is pressed at one time
/// and drawn at another is ready exactly if `BUTTON_DURATION` or more has
/// passed between the two; and a button that is ready stays ready until it
/// is asked.
pub proof fn lemma_ready_in_time(button: ButtonView, pressed_at: u128, now: u128)
    requires
        !button.ready,
    ensures
        !button.pressed ==> button.drawn(now) == button,
        button.clicked(pressed_at).drawn(now).ready <==> spec_time_between(now, pressed_at) >= BUTTON_DURATION,
        button.clicked(pressed_at).drawn(now).start == pressed_at,
        (ButtonView { ready: true, ..button }).drawn(now).ready,
{
}

/// The screens follow each other as the game is laid out: the main menu
/// leads to the game and to the options, the options lead back to the main
/// menu, the game leads to the next level and to the game over screen, the
/// next level leads into the game, and the game over screen leads back into
/// the game.
pub proof fn lemma_screens(game: GameView, input: Input, after: GameView)
    ensures
        match game.game_state {
            Gamestate::MainMenu => game.updated(input, after).game_state == Gamestate::MainMenu || game.updated(
                input,
                after,
            ).game_state == Gamestate::Play || game.updated(input, after).game_state == Gamestate::OptionMenu,
            Gamestate::OptionMenu => game.updated(input, after).game_state == Gamestate::OptionMenu || game.updated(
                input,
                after,
            ).game_state == Gamestate::MainMenu,
            Gamestate::Play => game.updated(input, after).game_state == Gamestate::Play || game.updated(
                input,
                after,
            ).game_state == Gamestate::NextLevel || game.updated(input, after).game_state == Gamestate::GameOver,
            Gamestate::NextLevel => game.updated(input, after).game_state == Gamestate::Play,
            Gamestate::GameOver => game.updated(input, after).game_state == Gamestate::GameOver || game.updated(
                input,
                after,
            ).game_state == Gamestate::Play,
        },
{
}

/// A sound game whose counters fit is sound after a frame, if the level
/// that the frame makes, where it makes one, is sound.
pub proof fn lemma_update_wf(game: GameView, input: Input, after: GameView)
    requires
        game.wf(),
        game.counters_fit(),
        game.regenerates() ==> after.curr_level.wf(),
    ensures
        game.updated(input, after).wf(),
{
    if game.game_state == Gamestate::Play {
        lemma_cycle_wf(game.curr_level, game.character.moved(input).pos);
    }
    if game.game_state == Gamestate::GameOver && !game.retry_button.ready && game.score_pending() {
        assert(game.total_points.value * game.level_count >= 0) by (nonlinear_arith)
            requires
                game.total_points.value >= 0,
                game.level_count >= 0,
        ;
    }
}

/// No rate goes down and none goes beyond `RATE_CAP`, in any frame but the
/// one that starts the game anew, which sets both back to their start.
pub proof fn lemma_rates(game: GameView, input: Input, after: GameView)
    requires
        game.wf(),
    ensures
        game.updated(input, after).enemy_spawn_rate <= RATE_CAP,
        game.updated(input, after).cheese_spawn_rate <= RATE_CAP,
        !game.starts_anew() ==> game.enemy_spawn_rate <= game.updated(input, after).enemy_spawn_rate,
        !game.starts_anew() ==> game.cheese_spawn_rate <= game.updated(input, after).cheese_spawn_rate,
        game.starts_anew() ==> game.updated(input, after).enemy_spawn_rate == ENEMY_RATE_START,
        game.starts_anew() ==> game.updated(input, after).cheese_spawn_rate == CHEESE_RATE_START,
{
}

} // verus!
