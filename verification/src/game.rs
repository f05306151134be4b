//! The game as a whole: the screens, the score, the rising difficulty, and
//! what one frame does on each screen.
//!
//! A frame takes a snapshot of the keyboard and gives back the sounds to
//! play. `GameView` states what each screen does to the game on plain
//! values; `Game` carries it out.

use crate::button::AnimatedButton;
use crate::button::ButtonView;
use crate::display::Bar;
use crate::display::NumberDisplay;
use crate::display::NumberDisplayView;
use crate::entity::Mouse;
use crate::entity::MouseView;
use crate::generation::spec_generated;
use crate::geometry::Vector2;
use crate::input::Input;
use crate::laws::lemma_game_stays;
use crate::laws::lemma_rates;
use crate::laws::spec_game_in_arena;
use crate::level::lemma_still;
use crate::level::Level;
use crate::level::LevelView;
use crate::node::Direction;
use crate::node::Gamestate;
use crate::node::Sprite;
use crate::scene::banner;
use crate::scene::push_image;
use crate::scene::push_rectangles;
use crate::scene::spec_banner;
use crate::scene::spec_rectangles;
use crate::scene::DrawCommand;
use crate::scene::Texture;
use rand::rngs::ThreadRng;
use rand::thread_rng;
use vstd::prelude::*;

verus! {

/// Number of screen pixels to one world unit.
pub const SCALE: i32 = 15;

/// The enemy rate of a new game, in hundredths.
pub const ENEMY_RATE_START: u32 = 5;

/// The cheese rate of a new game, in hundredths.
pub const CHEESE_RATE_START: u32 = 2;

/// What a rate goes up by, in hundredths.
pub const RATE_STEP: u32 = 5;

/// The rate beyond which no rate goes, in hundredths.
pub const RATE_CAP: u32 = 50;

/// Number of levels after which the cheese rate goes up.
pub const CHEESE_RATE_EVERY: u32 = 8;

/// Number of levels after which the enemy rate goes up.
pub const ENEMY_RATE_EVERY: u32 = 5;

/// What the volume goes up or down by.
pub const VOLUME_STEP: u32 = 10;

/// The loudest volume.
pub const VOLUME_MAX: u32 = 100;

/// Where the mouse stands at the start of a game.
pub const START_X: i32 = 1000;

/// Where the mouse stands at the start of a game.
pub const START_Y: i32 = 1000;

/// Where the score stands while the game is played.
pub const SCORE_X: i32 = 100;

/// Where the score stands while the game is played.
pub const SCORE_Y: i32 = 6200;

/// Where the final score stands.
pub const FINAL_SCORE_X: i32 = 2000;

/// Where the final score stands.
pub const FINAL_SCORE_Y: i32 = 4500;

/// The sounds that one frame asks for.
#[derive(Clone, Copy, Debug, PartialEq, Eq, Structural)]
pub struct Effects {
    /// Whether to start the background theme.
    pub theme: bool,
    /// Whether to sound the click of a button.
    pub click: bool,
    /// How often to sound the pickup of a cheese.
    pub pickups: u8,
    /// The master volume to set, in hundredths, if it has changed.
    pub volume: Option<u32>,
}

/// A rate after it has gone up: by `RATE_STEP`, and no further than
/// `RATE_CAP`.
pub open spec fn spec_raised(rate: u32) -> u32 {
    if rate >= RATE_CAP {
        rate
    } else if rate + RATE_STEP >= RATE_CAP {
        RATE_CAP
    } else {
        (rate + RATE_STEP) as u32
    }
}

/// A rate once `finished` levels are finished: it has gone up if `finished`
/// is a multiple of `every`.
pub open spec fn spec_next_rate(finished: int, every: int, rate: u32) -> u32 {
    if finished % every == 0 {
        spec_raised(rate)
    } else {
        rate
    }
}

/// What the rules read of the game.
pub struct GameView {
    pub total_points: NumberDisplayView,
    pub volume: NumberDisplayView,
    pub enemy_spawn_rate: u32,
    pub cheese_spawn_rate: u32,
    pub game_state: Gamestate,
    pub level_count: u32,
    pub curr_level: LevelView,
    pub character: MouseView,
    pub start_button: ButtonView,
    pub option_button: ButtonView,
    pub retry_button: ButtonView,
    pub extra_cheese: ButtonView,
    pub back: ButtonView,
}

impl GameView {
    /// Whether the game is sound: the level is; no rate is beyond
    /// `RATE_CAP`; the volume is a multiple of `VOLUME_STEP` up to
    /// `VOLUME_MAX`; and the score is revealed only on the last screen, where
    /// it never shows more than it counts up to.
    pub open spec fn wf(self) -> bool {
        &&& self.curr_level.wf()
        &&& self.enemy_spawn_rate <= RATE_CAP
        &&& self.cheese_spawn_rate <= RATE_CAP
        &&& self.volume.value <= VOLUME_MAX
        &&& self.volume.value % VOLUME_STEP == 0
        &&& self.volume.backup == 0
        &&& self.game_state != Gamestate::GameOver ==> self.total_points.backup == 0
        &&& self.total_points.backup == 0 || self.total_points.value <= self.total_points.backup
    }

    /// Whether everything but the level and the screen is as at the start
    /// of a game: no level is finished, nothing is scored, the rates are at
    /// their start, the volume is at its loudest, the mouse stands at its
    /// place and looks up, and every button is at rest at its place.
    pub open spec fn at_start(self) -> bool {
        &&& self.level_count == 0
        &&& self.enemy_spawn_rate == ENEMY_RATE_START
        &&& self.cheese_spawn_rate == CHEESE_RATE_START
        &&& self.character == (MouseView {
            pos: Vector2 { x: START_X, y: START_Y },
            direction: Direction::UP,
            frame: 0,
            last_time_point: 0,
        })
        &&& self.total_points == (NumberDisplayView {
            pos: Vector2 { x: SCORE_X, y: SCORE_Y },
            value: 0,
            backup: 0,
            start: 0,
        })
        &&& self.volume == (NumberDisplayView {
            pos: Vector2 { x: 4000, y: 3000 },
            value: VOLUME_MAX,
            backup: 0,
            start: 0,
        })
        &&& self.start_button == GameView::button(300, 2000, 3000, 700)
        &&& self.option_button == GameView::button(300, 1000, 3600, 700)
        &&& self.retry_button == GameView::button(500, 2000, 3000, 700)
        &&& self.extra_cheese == GameView::button(0, 0, 6400, 1000)
        &&& self.back == GameView::button(500, 500, 2500, 700)
    }

    /// A button at rest at `(x, y)` of size `w` by `h`, as it is made.
    pub open spec fn button(x: i32, y: i32, w: i32, h: i32) -> ButtonView {
        ButtonView {
            pos: Vector2 { x, y },
            size: Vector2 { x: w, y: h },
            animation_status: true,
            pressed: false,
            ready: false,
            start: 0,
            delta: 0,
        }
    }

    /// Whether the score of the game over screen has still to be worked out.
    /// The score stands at its place of the game until it is.
    pub open spec fn score_pending(self) -> bool {
        self.total_points.pos.x == SCORE_X
    }

    /// Whether the next frame keeps its counters within what they can hold:
    /// the number of levels and the score when a level is finished, and the
    /// final score when the game is over.
    pub open spec fn counters_fit(self) -> bool {
        &&& self.game_state == Gamestate::NextLevel ==> self.level_count < u32::MAX && self.total_points.value
            + self.curr_level.max_points <= u32::MAX
        &&& self.game_state == Gamestate::GameOver && !self.retry_button.ready && self.score_pending()
            ==> self.total_points.value * self.level_count <= u32::MAX
    }

    /// Whether the next frame starts the game anew: the game is over and
    /// Retry is ready.
    pub open spec fn starts_anew(self) -> bool {
        self.game_state == Gamestate::GameOver && self.retry_button.ready
    }

    /// Whether the next frame makes a new level.
    pub open spec fn regenerates(self) -> bool {
        self.game_state == Gamestate::NextLevel || self.starts_anew()
    }

    /// The enemy rate of the level that follows the one that is finished: it
    /// goes up with every fifth level.
    pub open spec fn next_enemy_rate(self) -> u32 {
        spec_next_rate(self.level_count + 1, ENEMY_RATE_EVERY as int, self.enemy_spawn_rate)
    }

    /// The cheese rate of the level that follows the one that is finished:
    /// it goes up with every eighth level.
    pub open spec fn next_cheese_rate(self) -> u32 {
        spec_next_rate(self.level_count + 1, CHEESE_RATE_EVERY as int, self.cheese_spawn_rate)
    }

    /// Where the player stands when the next frame makes a new level.
    pub open spec fn anchor(self) -> Vector2 {
        if self.game_state == Gamestate::NextLevel {
            self.character.pos
        } else {
            Vector2 { x: START_X, y: START_Y }
        }
    }

    /// The enemy rate with which the next frame makes a new level.
    pub open spec fn anchor_enemy_rate(self) -> u32 {
        if self.game_state == Gamestate::NextLevel {
            self.next_enemy_rate()
        } else {
            ENEMY_RATE_START
        }
    }

    /// The cheese rate with which the next frame makes a new level.
    pub open spec fn anchor_cheese_rate(self) -> u32 {
        if self.game_state == Gamestate::NextLevel {
            self.next_cheese_rate()
        } else {
            CHEESE_RATE_START
        }
    }

    /// One frame of play: the mouse moves as the keys say, then the level
    /// plays its frame around the mouse and says which screen follows.
    pub open spec fn played(self, input: Input) -> GameView {
        let character = self.character.moved(input);
        GameView {
            character,
            curr_level: self.curr_level.cycle(character.pos),
            game_state: self.curr_level.outcome(character.pos),
            ..self
        }
    }

    /// The step from a finished level to the next one, which is the level of
    /// `after`: the level is counted, its cheeses are added to the score,
    /// the rates go up when their time has come, and the bonus banner is set
    /// off, at the time at which it is set off in `after`, if the new level
    /// has no spider.
    pub open spec fn advanced(self, after: GameView) -> GameView {
        let fresh = after.curr_level;
        GameView {
            level_count: (self.level_count + 1) as u32,
            total_points: NumberDisplayView {
                value: (self.total_points.value + self.curr_level.max_points) as u32,
                ..self.total_points
            },
            cheese_spawn_rate: self.next_cheese_rate(),
            enemy_spawn_rate: self.next_enemy_rate(),
            curr_level: fresh,
            extra_cheese: if fresh.spiders.len() == 0 {
                self.extra_cheese.clicked(after.extra_cheese.start)
            } else {
                self.extra_cheese
            },
            game_state: Gamestate::Play,
            ..self
        }
    }

    /// One frame of the main menu. A button that is ready leads on, Start to
    /// the game before Options to the options. Otherwise the release of A
    /// presses Start, and else the release of S presses Options, at the time
    /// at which the button is pressed in `after`.
    pub open spec fn main_menu(self, input: Input, after: GameView) -> GameView {
        if self.start_button.ready {
            GameView { start_button: self.start_button.cleared(), game_state: Gamestate::Play, ..self }
        } else if self.option_button.ready {
            GameView { option_button: self.option_button.cleared(), game_state: Gamestate::OptionMenu, ..self }
        } else if input.a_released {
            GameView { start_button: self.start_button.clicked(after.start_button.start), ..self }
        } else if input.s_released {
            GameView { option_button: self.option_button.clicked(after.option_button.start), ..self }
        } else {
            self
        }
    }

    /// The game with everything but the level set back to the start of a
    /// game, and `fresh` as its level. The screen stays.
    pub open spec fn reset(self, fresh: LevelView) -> GameView {
        GameView {
            enemy_spawn_rate: ENEMY_RATE_START,
            cheese_spawn_rate: CHEESE_RATE_START,
            character: MouseView { pos: Vector2 { x: START_X, y: START_Y }, ..self.character },
            curr_level: fresh,
            total_points: NumberDisplayView {
                pos: Vector2 { x: SCORE_X, y: SCORE_Y },
                value: 0,
                backup: 0,
                ..self.total_points
            },
            level_count: 0,
            ..self
        }
    }

    /// The score of the game over screen once it is worked out: moved to its
    /// place, multiplied by the number of levels, and set to be revealed
    /// from the time `now` on.
    pub open spec fn final_score(self, now: u128) -> NumberDisplayView {
        if self.score_pending() {
            NumberDisplayView {
                pos: Vector2 { x: FINAL_SCORE_X, y: FINAL_SCORE_Y },
                value: 0,
                backup: (self.total_points.value * self.level_count) as u32,
                start: now,
            }
        } else {
            self.total_points
        }
    }

    /// Whether the score of the game over screen, once it is worked out, is
    /// revealed in full.
    pub open spec fn revealed(self) -> bool {
        self.final_score(0).value == self.final_score(0).backup
    }

    /// Whether this frame of the game over screen presses Retry: A is
    /// released and the score is revealed in full.
    pub open spec fn retries(self, input: Input) -> bool {
        input.a_released && self.revealed()
    }

    /// One frame of the game over screen. Once Retry is ready the game starts
    /// anew with the level of `after` as its level. Until then the score is
    /// worked out in the first frame, and the release of A presses Retry once
    /// the score is revealed in full. The reveal begins, and Retry is
    /// pressed, at the times at which they are in `after`.
    pub open spec fn game_over(self, input: Input, after: GameView) -> GameView {
        if self.retry_button.ready {
            GameView { retry_button: self.retry_button.cleared(), game_state: Gamestate::Play, ..self }.reset(
                after.curr_level,
            )
        } else {
            GameView {
                total_points: self.final_score(after.total_points.start),
                retry_button: if self.retries(input) {
                    self.retry_button.clicked(after.retry_button.start)
                } else {
                    self.retry_button
                },
                ..self
            }
        }
    }

    /// The volume after one frame of the options, if that frame changes it:
    /// the release of X turns it up and else the release of Z turns it down,
    /// by `VOLUME_STEP` and within 0 and `VOLUME_MAX`. The release of A comes
    /// before both.
    pub open spec fn new_volume(self, input: Input) -> Option<u32> {
        if self.back.ready || input.a_released {
            None
        } else if input.x_released {
            if self.volume.value < VOLUME_MAX { Some((self.volume.value + VOLUME_STEP) as u32) } else { None }
        } else if input.z_released {
            if self.volume.value > 0 { Some((self.volume.value - VOLUME_STEP) as u32) } else { None }
        } else {
            None
        }
    }

    /// One frame of the options. Once Back is ready the main menu follows.
    /// Until then the release of A presses Back, and the Options button with
    /// it, at the times at which they are pressed in `after`, and X and Z
    /// change the volume.
    pub open spec fn option_menu(self, input: Input, after: GameView) -> GameView {
        if self.back.ready {
            GameView { back: self.back.cleared(), game_state: Gamestate::MainMenu, ..self }
        } else if input.a_released {
            GameView {
                option_button: self.option_button.clicked(after.option_button.start),
                back: self.back.clicked(after.back.start),
                ..self
            }
        } else {
            match self.new_volume(input) {
                Some(value) => GameView { volume: NumberDisplayView { value, ..self.volume }, ..self },
                None => self,
            }
        }
    }

    /// The game after one frame. A frame leaves two things open: the level
    /// that it makes, if it makes one, and the times at which it presses
    /// buttons and begins the reveal of the score. They are taken from
    /// `after`; everything else is fixed here.
    pub open spec fn updated(self, input: Input, after: GameView) -> GameView {
        match self.game_state {
            Gamestate::Play => self.played(input),
            Gamestate::NextLevel => self.advanced(after),
            Gamestate::MainMenu => self.main_menu(input, after),
            Gamestate::GameOver => self.game_over(input, after),
            Gamestate::OptionMenu => self.option_menu(input, after),
        }
    }

    /// Whether this is `before` after it has been shown once: the same game,
    /// with every animation where it was or one step on.
    pub open spec fn shown_from(self, before: GameView) -> bool {
        &&& self.enemy_spawn_rate == before.enemy_spawn_rate
        &&& self.cheese_spawn_rate == before.cheese_spawn_rate
        &&& self.game_state == before.game_state
        &&& self.level_count == before.level_count
        &&& self.volume == before.volume
        &&& self.total_points.may_follow(before.total_points)
        &&& self.curr_level.animated_from(before.curr_level)
        &&& self.character.animated_from(before.character)
        &&& self.start_button.may_follow(before.start_button)
        &&& self.option_button.may_follow(before.option_button)
        &&& self.retry_button.may_follow(before.retry_button)
        &&& self.extra_cheese.may_follow(before.extra_cheese)
        &&& self.back.may_follow(before.back)
    }

    /// The image of `sprite` taken from `texture`.
    pub open spec fn image(texture: Texture, sprite: Sprite) -> Seq<DrawCommand> {
        seq![DrawCommand::Image { texture, sprite }]
    }

    /// What the game screen shows, from back to front: the exit, the cheese,
    /// the mouse, the spiders, the score with the segments `score`, and the
    /// bonus banner over a level without spiders.
    pub open spec fn play_scene(self, score: Seq<Bar>) -> Seq<DrawCommand> {
        self.curr_level.item_images() + GameView::image(Texture::Mouse, self.character.sprite())
            + self.curr_level.spider_images() + spec_rectangles(score) + if self.curr_level.spiders.len() == 0 {
            GameView::image(Texture::Ceasy, self.extra_cheese.sprite())
        } else {
            Seq::empty()
        }
    }

    /// What the main menu shows: the title, Start and Options.
    pub open spec fn main_menu_scene(self) -> Seq<DrawCommand> {
        GameView::image(Texture::Title, spec_banner(3200, 3200)) + GameView::image(
            Texture::Start,
            self.start_button.sprite(),
        ) + GameView::image(Texture::Options, self.option_button.sprite())
    }

    /// What the game over screen shows: its heading, the score with the
    /// segments `score`, and Retry.
    pub open spec fn game_over_scene(self, score: Seq<Bar>) -> Seq<DrawCommand> {
        GameView::image(Texture::FinalScore, spec_banner(5200, 1100)) + spec_rectangles(score) + GameView::image(
            Texture::Retry,
            self.retry_button.sprite(),
        )
    }

    /// What the options show: their heading, Back, and the volume with the
    /// segments `volume`.
    pub open spec fn option_menu_scene(self, volume: Seq<Bar>) -> Seq<DrawCommand> {
        GameView::image(Texture::VolumeText, spec_banner(3200, 3200)) + GameView::image(
            Texture::Back,
            self.back.sprite(),
        ) + spec_rectangles(volume)
    }

    /// What the screen of the moment shows, where the score is to be drawn
    /// with the segments `score` and the volume with the segments `volume`.
    pub open spec fn scene(self, score: Seq<Bar>, volume: Seq<Bar>) -> Seq<DrawCommand> {
        match self.game_state {
            Gamestate::Play => self.play_scene(score),
            Gamestate::NextLevel => Seq::empty(),
            Gamestate::MainMenu => self.main_menu_scene(),
            Gamestate::GameOver => self.game_over_scene(score),
            Gamestate::OptionMenu => self.option_menu_scene(volume),
        }
    }

    /// Whether the frame sounds the click of a button: when Start or Options
    /// is pressed in the main menu, and when Retry is pressed.
    pub open spec fn clicks(self, input: Input) -> bool {
        match self.game_state {
            Gamestate::MainMenu => !self.start_button.ready && !self.option_button.ready && (input.a_released
                || input.s_released),
            Gamestate::GameOver => !self.retry_button.ready && self.retries(input),
            _ => false,
        }
    }

    /// The sounds of one frame.
    pub open spec fn effects(self, input: Input) -> Effects {
        Effects {
            theme: !input.theme_playing,
            click: self.clicks(input),
            pickups: if self.game_state == Gamestate::Play {
                self.curr_level.pickups(self.character.moved(input).pos) as u8
            } else {
                0
            },
            volume: if self.game_state == Gamestate::OptionMenu { self.new_volume(input) } else { None },
        }
    }
}

/// The game.
pub struct Game {
    total_points: NumberDisplay,
    volume: NumberDisplay,
    enemy_spawn_rate: u32,
    cheese_spawn_rate: u32,
    game_state: Gamestate,
    level_count: u32,
    curr_level: Level,
    character: Mouse,
    rand_gen: ThreadRng,
    start_button: AnimatedButton,
    option_button: AnimatedButton,
    retry_button: AnimatedButton,
    extra_cheese: AnimatedButton,
    back: AnimatedButton,
}

impl View for Game {
    type V = GameView;

    closed spec fn view(&self) -> GameView {
        GameView {
            total_points: self.total_points@,
            volume: self.volume@,
            enemy_spawn_rate: self.enemy_spawn_rate,
            cheese_spawn_rate: self.cheese_spawn_rate,
            game_state: self.game_state,
            level_count: self.level_count,
            curr_level: self.curr_level@,
            character: self.character@,
            start_button: self.start_button@,
            option_button: self.option_button@,
            retry_button: self.retry_button@,
            extra_cheese: self.extra_cheese@,
            back: self.back@,
        }
    }
}

/// Raises a rate by `RATE_STEP`, but not beyond `RATE_CAP`.
pub fn raised(rate: u32) -> (higher: u32)
    ensures
        higher == spec_raised(rate),
{
    if rate >= RATE_CAP {
        rate
    } else if rate >= RATE_CAP - RATE_STEP {
        RATE_CAP
    } else {
        rate + RATE_STEP
    }
}

/// The rate for the level that follows once `finished` levels are finished,
/// where the rate goes up with every `every`-th level.
pub fn next_rate(finished: u32, every: u32, rate: u32) -> (next: u32)
    requires
        every > 0,
    ensures
        next == spec_next_rate(finished as int, every as int, rate),
{
    if finished % every == 0 && rate < RATE_CAP {
        raised(rate)
    } else {
        rate
    }
}

impl Game {
    /// Whether every part of the game has the shape of its kind.
    pub closed spec fn parts_wf(&self) -> bool {
        &&& self.curr_level.parts_wf()
        &&& self.character.wf()
        &&& self.start_button.wf()
        &&& self.option_button.wf()
        &&& self.retry_button.wf()
        &&& self.extra_cheese.wf()
        &&& self.back.wf()
    }

    /// Whether the game is sound.
    pub open spec fn wf(&self) -> bool {
        self.parts_wf() && self@.wf()
    }

    /// A game at its start, on the screen `game_state`, with `curr_level` as
    /// its level and `rand_gen` as its random source.
    fn assemble(curr_level: Level, game_state: Gamestate, rand_gen: ThreadRng) -> (game: Self)
        requires
            curr_level.wf(),
        ensures
            game.wf(),
            game@.at_start(),
            game@.game_state == game_state,
            game@.curr_level == curr_level@,
    {
        let mut volume = NumberDisplay::new(4000, 3000);
        volume.set_value(VOLUME_MAX);
        Self {
            total_points: NumberDisplay::new(SCORE_X, SCORE_Y),
            volume,
            enemy_spawn_rate: ENEMY_RATE_START,
            cheese_spawn_rate: CHEESE_RATE_START,
            game_state,
            level_count: 0,
            curr_level,
            character: Mouse::new(START_X, START_Y, Direction::UP),
            rand_gen,
            start_button: AnimatedButton::new(300, 2000, 3000, 700),
            option_button: AnimatedButton::new(300, 1000, 3600, 700),
            retry_button: AnimatedButton::new(500, 2000, 3000, 700),
            extra_cheese: AnimatedButton::new(0, 0, 6400, 1000),
            back: AnimatedButton::new(500, 500, 2500, 700),
        }
    }

    /// A new game on the main menu, with its first level made.
    pub fn new() -> (game: Self)
        ensures
            game.wf(),
            game@.at_start(),
            game@.game_state == Gamestate::MainMenu,
            spec_game_in_arena(game@),
            spec_generated(
                game@.curr_level,
                Vector2 { x: START_X, y: START_Y },
                ENEMY_RATE_START,
                CHEESE_RATE_START,
            ),
    {
        let mut rand_gen = thread_rng();
        let enemy_spawn_rate: u32 = ENEMY_RATE_START;
        let cheese_spawn_rate: u32 = CHEESE_RATE_START;
        let x: i32 = START_X;
        let y: i32 = START_Y;
        let curr_level = Level::generate(&x, &y, &enemy_spawn_rate, &cheese_spawn_rate, &mut rand_gen);
        Game::assemble(curr_level, Gamestate::MainMenu, rand_gen)
    }

    /// A game that is otherwise new, on the screen `game_state` and with
    /// `curr_level` as its level.
    pub fn with_level(curr_level: Level, game_state: Gamestate) -> (game: Self)
        requires
            curr_level.wf(),
        ensures
            game.wf(),
            game@.at_start(),
            game@.game_state == game_state,
            game@.curr_level == curr_level@,
    {
        Game::assemble(curr_level, game_state, thread_rng())
    }

    /// Whether the next frame keeps the counters within what they can hold.
    /// `update` is to be called only where this holds.
    pub fn counters_fit(&self) -> (fit: bool)
        ensures
            fit == self@.counters_fit(),
    {
        match self.game_state {
            Gamestate::NextLevel => {
                self.level_count < u32::MAX && self.total_points.get_value() as u64 + self.curr_level.max_points() as u64
                    <= u32::MAX as u64
            },
            Gamestate::GameOver => {
                if !self.retry_button.peek_ready() && self.total_points.get_pos().x == SCORE_X {
                    let value: u64 = self.total_points.get_value() as u64;
                    let count: u64 = self.level_count as u64;
                    assert(0 <= value * count <= 0xffff_ffff * 0xffff_ffff) by (nonlinear_arith)
                        requires
                            0 <= value <= 0xffff_ffff,
                            0 <= count <= 0xffff_ffff,
                    ;
                    value * count <= u32::MAX as u64
                } else {
                    true
                }
            },
            _ => true,
        }
    }

    fn play(&mut self, input: &Input) -> (pickups: u8)
        requires
            old(self).wf(),
            old(self)@.game_state == Gamestate::Play,
        ensures
            final(self).wf(),
            final(self)@ == old(self)@.played(*input),
            pickups == old(self)@.curr_level.pickups(old(self)@.character.moved(*input).pos),
    {
        self.character.cycle(input);
        let outcome = self.curr_level.cycle(&self.character);
        self.game_state = outcome.state;
        outcome.pickups
    }

    fn next_level(&mut self)
        requires
            old(self).wf(),
            old(self)@.counters_fit(),
            old(self)@.game_state == Gamestate::NextLevel,
        ensures
            final(self).wf(),
            final(self)@ == old(self)@.advanced(final(self)@),
            final(self)@.curr_level.spiders_in_arena(),
            spec_generated(
                final(self)@.curr_level,
                old(self)@.character.pos,
                old(self)@.next_enemy_rate(),
                old(self)@.next_cheese_rate(),
            ),
    {
        self.level_count += 1;
        let score = self.total_points.get_value() + self.curr_level.max_points() as u32;
        self.total_points.set_value(score);
        self.cheese_spawn_rate = next_rate(self.level_count, CHEESE_RATE_EVERY, self.cheese_spawn_rate);
        self.enemy_spawn_rate = next_rate(self.level_count, ENEMY_RATE_EVERY, self.enemy_spawn_rate);
        let position = *self.character.get_pos();
        self.curr_level = Level::generate(
            &position.x,
            &position.y,
            &self.enemy_spawn_rate,
            &self.cheese_spawn_rate,
            &mut self.rand_gen,
        );
        if self.curr_level.spiders().len() == 0 {
            self.extra_cheese.click();
        }
        self.game_state = Gamestate::Play;
    }

    fn main_menu(&mut self, input: &Input) -> (click: bool)
        requires
            old(self).wf(),
            old(self)@.game_state == Gamestate::MainMenu,
        ensures
            final(self).wf(),
            final(self)@ == old(self)@.main_menu(*input, final(self)@),
            click == old(self)@.clicks(*input),
    {
        if self.start_button.is_ready() {
            self.game_state = Gamestate::Play;
            false
        } else if self.option_button.is_ready() {
            self.game_state = Gamestate::OptionMenu;
            false
        } else if input.a_released {
            self.start_button.click();
            true
        } else if input.s_released {
            self.option_button.click();
            true
        } else {
            false
        }
    }

    fn game_over(&mut self, input: &Input) -> (click: bool)
        requires
            old(self).wf(),
            old(self)@.counters_fit(),
            old(self)@.game_state == Gamestate::GameOver,
        ensures
            final(self).wf(),
            final(self)@ == old(self)@.game_over(*input, final(self)@),
            click == old(self)@.clicks(*input),
            old(self)@.retry_button.ready ==> final(self)@.curr_level.spiders_in_arena(),
            old(self)@.retry_button.ready ==> spec_generated(
                final(self)@.curr_level,
                Vector2 { x: START_X, y: START_Y },
                ENEMY_RATE_START,
                CHEESE_RATE_START,
            ),
    {
        if self.retry_button.is_ready() {
            self.reset_game();
            self.game_state = Gamestate::Play;
            false
        } else {
            if self.total_points.get_pos().x == SCORE_X {
                self.total_points.translate(FINAL_SCORE_X, FINAL_SCORE_Y);
                let score = self.total_points.get_value() * self.level_count;
                self.total_points.set_value(score);
                self.total_points.escalate();
            }
            if input.a_released && self.total_points.has_escalated() {
                self.retry_button.click();
                true
            } else {
                false
            }
        }
    }

    fn option_menu(&mut self, input: &Input) -> (volume: Option<u32>)
        requires
            old(self).wf(),
            old(self)@.game_state == Gamestate::OptionMenu,
        ensures
            final(self).wf(),
            final(self)@ == old(self)@.option_menu(*input, final(self)@),
            volume == old(self)@.new_volume(*input),
    {
        if self.back.is_ready() {
            self.game_state = Gamestate::MainMenu;
            None
        } else {
            if input.a_released {
                self.option_button.click();
                self.back.click();
                None
            } else if input.x_released {
                if self.volume.get_value() < VOLUME_MAX {
                    let louder = self.volume.get_value() + VOLUME_STEP;
                    self.volume.set_value(louder);
                    Some(louder)
                } else {
                    None
                }
            } else if input.z_released {
                if self.volume.get_value() > 0 {
                    let softer = self.volume.get_value() - VOLUME_STEP;
                    self.volume.set_value(softer);
                    Some(softer)
                } else {
                    None
                }
            } else {
                None
            }
        }
    }

    /// Plays one frame on the screen that the game shows, and says which
    /// sounds to play. Where the frame makes a new level, whatever is drawn
    /// for it, the level is one that `spec_generate` makes for the player's
    /// place and the rates of the moment.
    pub fn update(&mut self, input: &Input) -> (effects: Effects)
        requires
            old(self).wf(),
            old(self)@.counters_fit(),
        ensures
            final(self).wf(),
            final(self)@ == old(self)@.updated(*input, final(self)@),
            old(self)@.regenerates() ==> spec_generated(
                final(self)@.curr_level,
                old(self)@.anchor(),
                old(self)@.anchor_enemy_rate(),
                old(self)@.anchor_cheese_rate(),
            ),
            effects == old(self)@.effects(*input),
            spec_game_in_arena(old(self)@) ==> spec_game_in_arena(final(self)@),
            final(self)@.enemy_spawn_rate <= RATE_CAP,
            final(self)@.cheese_spawn_rate <= RATE_CAP,
            !old(self)@.starts_anew() ==> old(self)@.enemy_spawn_rate <= final(self)@.enemy_spawn_rate,
            !old(self)@.starts_anew() ==> old(self)@.cheese_spawn_rate <= final(self)@.cheese_spawn_rate,
    {
        let theme = !input.theme_playing;
        let effects = match self.game_state {
            Gamestate::Play => {
                let pickups = self.play(input);
                Effects { theme, click: false, pickups, volume: None }
            },
            Gamestate::NextLevel => {
                self.next_level();
                Effects { theme, click: false, pickups: 0, volume: None }
            },
            Gamestate::MainMenu => {
                let click = self.main_menu(input);
                Effects { theme, click, pickups: 0, volume: None }
            },
            Gamestate::GameOver => {
                let click = self.game_over(input);
                Effects { theme, click, pickups: 0, volume: None }
            },
            Gamestate::OptionMenu => {
                let volume = self.option_menu(input);
                Effects { theme, click: false, pickups: 0, volume }
            },
        };
        proof {
            lemma_rates(old(self)@, *input, self@);
            if spec_game_in_arena(old(self)@) {
                lemma_game_stays(old(self)@, *input, self@);
            }
        }
        effects
    }

    fn show_play(&mut self, commands: &mut Vec<DrawCommand>)
        requires
            old(self).wf(),
            old(self)@.game_state == Gamestate::Play,
            old(commands)@.len() == 0,
        ensures
            final(self).wf(),
            final(self)@.shown_from(old(self)@),
            final(commands)@ == final(self)@.play_scene(old(self)@.total_points.bars()),
    {
        self.curr_level.draw_items(commands);
        let sprite = self.character.draw();
        push_image(commands, Texture::Mouse, sprite);
        self.curr_level.draw_spiders(commands);
        let bars = self.total_points.draw();
        push_rectangles(commands, &bars);
        if self.curr_level.spiders().len() == 0 {
            let sprite = self.extra_cheese.draw();
            push_image(commands, Texture::Ceasy, Some(sprite));
        } else {
            assert(self@.extra_cheese == old(self)@.extra_cheese.drawn(0));
        }
        proof {
            assert(self@.start_button == old(self)@.start_button.drawn(0));
            assert(self@.option_button == old(self)@.option_button.drawn(0));
            assert(self@.retry_button == old(self)@.retry_button.drawn(0));
            assert(self@.back == old(self)@.back.drawn(0));
        }
    }

    fn show_main_menu(&mut self, commands: &mut Vec<DrawCommand>)
        requires
            old(self).wf(),
            old(commands)@.len() == 0,
        ensures
            final(self).wf(),
            final(self)@.shown_from(old(self)@),
            final(commands)@ == final(self)@.main_menu_scene(),
    {
        push_image(commands, Texture::Title, Some(banner(3200, 3200)));
        let start = self.start_button.draw();
        push_image(commands, Texture::Start, Some(start));
        let options = self.option_button.draw();
        push_image(commands, Texture::Options, Some(options));
        proof {
            assert(self@.total_points == old(self)@.total_points.drawn(0));
            assert(self@.retry_button == old(self)@.retry_button.drawn(0));
            assert(self@.extra_cheese == old(self)@.extra_cheese.drawn(0));
            assert(self@.back == old(self)@.back.drawn(0));
            assert(self@.character == old(self)@.character.animated(0));
            lemma_still(self@.curr_level);
        }
    }

    fn show_game_over(&mut self, commands: &mut Vec<DrawCommand>)
        requires
            old(self).wf(),
            old(commands)@.len() == 0,
        ensures
            final(self).wf(),
            final(self)@.shown_from(old(self)@),
            final(commands)@ == final(self)@.game_over_scene(old(self)@.total_points.bars()),
    {
        push_image(commands, Texture::FinalScore, Some(banner(5200, 1100)));
        let bars = self.total_points.draw();
        push_rectangles(commands, &bars);
        let retry = self.retry_button.draw();
        push_image(commands, Texture::Retry, Some(retry));
        proof {
            assert(self@.start_button == old(self)@.start_button.drawn(0));
            assert(self@.option_button == old(self)@.option_button.drawn(0));
            assert(self@.extra_cheese == old(self)@.extra_cheese.drawn(0));
            assert(self@.back == old(self)@.back.drawn(0));
            assert(self@.character == old(self)@.character.animated(0));
            lemma_still(self@.curr_level);
        }
    }

    fn show_option_menu(&mut self, commands: &mut Vec<DrawCommand>)
        requires
            old(self).wf(),
            old(commands)@.len() == 0,
        ensures
            final(self).wf(),
            final(self)@.shown_from(old(self)@),
            final(commands)@ == final(self)@.option_menu_scene(old(self)@.volume.bars()),
    {
        push_image(commands, Texture::VolumeText, Some(banner(3200, 3200)));
        let back = self.back.draw();
        push_image(commands, Texture::Back, Some(back));
        let bars = self.volume.draw();
        push_rectangles(commands, &bars);
        proof {
            assert(self@.total_points == old(self)@.total_points.drawn(0));
            assert(self@.start_button == old(self)@.start_button.drawn(0));
            assert(self@.option_button == old(self)@.option_button.drawn(0));
            assert(self@.retry_button == old(self)@.retry_button.drawn(0));
            assert(self@.extra_cheese == old(self)@.extra_cheese.drawn(0));
            assert(self@.character == old(self)@.character.animated(0));
            lemma_still(self@.curr_level);
        }
    }

    /// Moves every animation of the screen of the moment on where its time
    /// has come, and gives what the screen shows, from back to front. The
    /// digits of a number are those that it showed before this call.
    pub fn show(&mut self) -> (commands: Vec<DrawCommand>)
        requires
            old(self).wf(),
        ensures
            final(self).wf(),
            final(self)@.shown_from(old(self)@),
            commands@ == final(self)@.scene(old(self)@.total_points.bars(), old(self)@.volume.bars()),
    {
        let mut commands: Vec<DrawCommand> = Vec::new();
        match self.game_state {
            Gamestate::Play => {
                self.show_play(&mut commands);
            },
            Gamestate::MainMenu => {
                self.show_main_menu(&mut commands);
            },
            Gamestate::GameOver => {
                self.show_game_over(&mut commands);
            },
            Gamestate::OptionMenu => {
                self.show_option_menu(&mut commands);
            },
            Gamestate::NextLevel => {
                proof {
                    assert(self@.total_points == old(self)@.total_points.drawn(0));
                    assert(self@.start_button == old(self)@.start_button.drawn(0));
                    assert(self@.option_button == old(self)@.option_button.drawn(0));
                    assert(self@.retry_button == old(self)@.retry_button.drawn(0));
                    assert(self@.extra_cheese == old(self)@.extra_cheese.drawn(0));
                    assert(self@.back == old(self)@.back.drawn(0));
                    assert(self@.character == old(self)@.character.animated(0));
                    lemma_still(self@.curr_level);
                }
            },
        }
        commands
    }

    /// Plays one frame if its counters fit, and says which sounds to play.
    /// Where they do not fit, the game is left as it is and nothing is
    /// returned.
    pub fn checked_update(&mut self, input: &Input) -> (effects: Option<Effects>)
        requires
            old(self).wf(),
        ensures
            final(self).wf(),
            effects is Some <==> old(self)@.counters_fit(),
            effects matches Some(sounds) ==> sounds == old(self)@.effects(*input) && final(self)@ == old(self)@.updated(
                *input,
                final(self)@,
            ) && (old(self)@.regenerates() ==> spec_generated(
                final(self)@.curr_level,
                old(self)@.anchor(),
                old(self)@.anchor_enemy_rate(),
                old(self)@.anchor_cheese_rate(),
            )),
            effects is None ==> final(self)@ == old(self)@,
    {
        if self.counters_fit() {
            Some(self.update(input))
        } else {
            None
        }
    }

    /// Sets everything but the screen back to the start of a game, with a
    /// new level.
    pub fn reset_game(&mut self)
        requires
            old(self).parts_wf(),
        ensures
            final(self).parts_wf(),
            final(self)@.curr_level.wf(),
            final(self)@.curr_level.spiders_in_arena(),
            final(self)@ == old(self)@.reset(final(self)@.curr_level),
            spec_generated(
                final(self)@.curr_level,
                Vector2 { x: START_X, y: START_Y },
                ENEMY_RATE_START,
                CHEESE_RATE_START,
            ),
    {
        self.enemy_spawn_rate = ENEMY_RATE_START;
        self.cheese_spawn_rate = CHEESE_RATE_START;
        self.character.place(START_X, START_Y);
        let position = *self.character.get_pos();
        self.curr_level = Level::generate(
            &position.x,
            &position.y,
            &self.enemy_spawn_rate,
            &self.cheese_spawn_rate,
            &mut self.rand_gen,
        );
        self.total_points.translate(SCORE_X, SCORE_Y);
        self.total_points.reset();
        self.level_count = 0;
    }

    /// The screen that the game shows.
    pub fn state(&self) -> (state: Gamestate)
        ensures
            state == self@.game_state,
    {
        self.game_state
    }

    /// The number of levels that are finished.
    pub fn level_count(&self) -> (count: u32)
        ensures
            count == self@.level_count,
    {
        self.level_count
    }

    /// The enemy rate of the next level, in hundredths.
    pub fn enemy_spawn_rate(&self) -> (rate: u32)
        ensures
            rate == self@.enemy_spawn_rate,
    {
        self.enemy_spawn_rate
    }

    /// The cheese rate of the next level, in hundredths.
    pub fn cheese_spawn_rate(&self) -> (rate: u32)
        ensures
            rate == self@.cheese_spawn_rate,
    {
        self.cheese_spawn_rate
    }

    /// The score.
    pub fn total_points(&self) -> (score: u32)
        ensures
            score == self@.total_points.value,
    {
        self.total_points.get_value()
    }

    /// The volume, in hundredths.
    pub fn volume(&self) -> (volume: u32)
        ensures
            volume == self@.volume.value,
    {
        self.volume.get_value()
    }

    /// The level that is played.
    pub fn level(&self) -> (level: &Level)
        ensures
            level@ == self@.curr_level,
            self.wf() ==> level.wf(),
    {
        &self.curr_level
    }

    /// The player's mouse.
    pub fn character(&self) -> (mouse: &Mouse)
        ensures
            mouse@ == self@.character,
    {
        &self.character
    }
}

} // verus!
