//! One level of the game: its cheese, its spiders and its exit, and what a
//! frame does to them.
//!
//! A frame first lets every spider walk, then looks at the exit, then at the
//! cheese. `LevelView` states these rules on plain values; `Level` carries
//! them out.

use crate::entity::Cheese;
use crate::entity::CheeseView;
use crate::entity::Exit;
use crate::entity::ExitView;
use crate::entity::Mouse;
use crate::entity::Spider;
use crate::entity::SpiderView;
use crate::entity::SPIDER_SIZE;
use crate::generation::forced_cheese;
use crate::generation::grid_cheeses;
use crate::generation::grid_spiders;
use crate::generation::lemma_generated_level;
use crate::generation::lemma_generated_spiders;
use crate::generation::place_exit;
use crate::generation::populate;
use crate::generation::spec_generate;
use crate::generation::spec_generated;
use crate::generation::CellDraw;
use crate::generation::Draws;
use crate::generation::DrawsView;
use crate::generation::GRID_CELLS;
use crate::generation::SPAWN_DISTANCE;
use crate::geometry::spec_distance_squared;
use crate::geometry::Vector2;
use crate::laws::lemma_frame;
use crate::node::Gamestate;
use crate::scene::push_image;
use crate::scene::spec_cheese_images;
use crate::scene::spec_exit_images;
use crate::scene::spec_spider_images;
use crate::scene::DrawCommand;
use crate::scene::Texture;
use crate::random::next_coin;
use crate::random::next_fraction;
use rand::rngs::ThreadRng;
use vstd::prelude::*;

verus! {

/// How many of `cheeses` have been picked up.
pub open spec fn spec_taken(cheeses: Seq<CheeseView>) -> nat
    decreases cheeses.len(),
{
    if cheeses.len() == 0 {
        0
    } else {
        spec_taken(cheeses.drop_last()) + if cheeses.last().available { 0nat } else { 1nat }
    }
}

/// How many of `cheeses` a mouse at `mouse` picks up in one frame.
pub open spec fn spec_picked(cheeses: Seq<CheeseView>, mouse: Vector2) -> nat
    decreases cheeses.len(),
{
    if cheeses.len() == 0 {
        0
    } else {
        spec_picked(cheeses.drop_last(), mouse) + if cheeses.last().picked_by(mouse) { 1nat } else { 0nat }
    }
}

/// `cheeses` after a mouse at `mouse` has picked up all that it reaches.
pub open spec fn spec_collected(cheeses: Seq<CheeseView>, mouse: Vector2) -> Seq<CheeseView> {
    Seq::new(
        cheeses.len(),
        |i: int| if cheeses[i].picked_by(mouse) { cheeses[i].taken() } else { cheeses[i] },
    )
}

/// How many of the first `count` of `boxes` block `spider`. A box is a
/// position and a size.
pub open spec fn spec_blockers(spider: SpiderView, boxes: Seq<(Vector2, Vector2)>, count: int) -> nat
    decreases count,
{
    if count <= 0 {
        0
    } else {
        spec_blockers(spider, boxes, count - 1) + if spider.blocked_by(boxes[count - 1].0, boxes[count - 1].1) {
            1nat
        } else {
            0nat
        }
    }
}

/// The spider `spider` after it has been pushed back `times` times.
pub open spec fn spec_pushed_back(spider: SpiderView, times: nat) -> SpiderView
    decreases times,
{
    if times == 0 {
        spider
    } else {
        spec_pushed_back(spider, (times - 1) as nat).pushed_back()
    }
}

/// What the rules read of a level.
pub struct LevelView {
    pub cheeses: Seq<CheeseView>,
    pub spiders: Seq<SpiderView>,
    pub exit: ExitView,
    pub points: u8,
    pub max_points: u8,
}

impl LevelView {
    /// Whether the counters agree with the cheese: there is at least one
    /// cheese, `max_points` counts them all, `points` counts those that are
    /// picked up, and the exit is open only when they all are.
    pub open spec fn wf(self) -> bool {
        &&& 1 <= self.cheeses.len() <= 255
        &&& self.max_points == self.cheeses.len()
        &&& self.points == spec_taken(self.cheeses)
        &&& self.exit.available ==> self.points == self.max_points
    }

    /// Whether every spider stands inside the arena.
    pub open spec fn spiders_in_arena(self) -> bool {
        forall|i: int| 0 <= i < self.spiders.len() ==> (#[trigger] self.spiders[i]).in_arena()
    }

    /// Spider `i` after its step towards a mouse at `mouse`, before any
    /// spider gives way.
    pub open spec fn spider_stepped(self, i: int, mouse: Vector2) -> SpiderView {
        self.spiders[i].pursue(mouse)
    }

    /// The places that the spiders hold once each has taken its step
    /// towards a mouse at `mouse`, each with a spider's size.
    pub open spec fn boxes(self, mouse: Vector2) -> Seq<(Vector2, Vector2)> {
        Seq::new(
            self.spiders.len(),
            |i: int| (self.spider_stepped(i, mouse).pos, Vector2 { x: SPIDER_SIZE, y: SPIDER_SIZE }),
        )
    }

    /// How often spider `i` gives way: once for every spider before it in
    /// the list whose box, after the steps, overlaps its own, and which does
    /// not stand at the very same place.
    pub open spec fn crowding(self, i: int, mouse: Vector2) -> nat {
        spec_blockers(self.spider_stepped(i, mouse), self.boxes(mouse), i)
    }

    /// Spider `i` at the end of a frame in which the mouse is at `mouse`.
    /// First every spider walks one step towards the mouse. Then, of every
    /// two spiders whose boxes overlap and whose places differ, the later
    /// one in the list is pushed back by one step.
    pub open spec fn spider_moved(self, i: int, mouse: Vector2) -> SpiderView {
        spec_pushed_back(self.spider_stepped(i, mouse), self.crowding(i, mouse))
    }

    /// Whether spider `i`, once it has moved, reaches the mouse.
    pub open spec fn catches(self, i: int, mouse: Vector2) -> bool {
        self.spider_moved(i, mouse).touches(mouse)
    }

    /// Whether some spider, once all have moved, reaches the mouse.
    pub open spec fn caught(self, mouse: Vector2) -> bool {
        exists|i: int| 0 <= i < self.spiders.len() && #[trigger] self.catches(i, mouse)
    }

    /// The spiders at the end of the frame.
    pub open spec fn spiders_after(self, mouse: Vector2) -> Seq<SpiderView> {
        Seq::new(self.spiders.len(), |i: int| self.spider_moved(i, mouse))
    }

    /// Whether this frame opens the exit.
    pub open spec fn opens_exit(self, mouse: Vector2) -> bool {
        !self.caught(mouse) && !self.exit.available && self.points == self.max_points
    }

    /// Whether the mouse leaves through the exit in this frame.
    pub open spec fn leaves(self, mouse: Vector2) -> bool {
        !self.caught(mouse) && !self.opens_exit(mouse) && self.exit.available && self.exit.touches(mouse)
    }

    /// Whether the mouse gets to pick up cheese in this frame: no spider has
    /// caught it, and the frame was spent neither on opening the exit nor on
    /// leaving through it.
    pub open spec fn collects(self, mouse: Vector2) -> bool {
        !self.caught(mouse) && !self.opens_exit(mouse) && !self.leaves(mouse)
    }

    /// How many cheeses the mouse picks up in this frame.
    pub open spec fn pickups(self, mouse: Vector2) -> nat {
        if self.collects(mouse) { spec_picked(self.cheeses, mouse) } else { 0 }
    }

    /// The screen that follows this frame.
    pub open spec fn outcome(self, mouse: Vector2) -> Gamestate {
        if self.caught(mouse) {
            Gamestate::GameOver
        } else if self.leaves(mouse) {
            Gamestate::NextLevel
        } else {
            Gamestate::Play
        }
    }

    /// The level after one frame in which the mouse is at `mouse`.
    pub open spec fn cycle(self, mouse: Vector2) -> LevelView {
        LevelView {
            cheeses: if self.collects(mouse) { spec_collected(self.cheeses, mouse) } else { self.cheeses },
            spiders: self.spiders_after(mouse),
            exit: if self.opens_exit(mouse) { self.exit.activated() } else { self.exit },
            points: (self.points + self.pickups(mouse)) as u8,
            max_points: self.max_points,
        }
    }

    /// Whether this is `before` after it has been drawn: the same level, with
    /// the exit and each cheese on the same frame or on the next.
    pub open spec fn animated_from(self, before: LevelView) -> bool {
        &&& self.spiders == before.spiders
        &&& self.points == before.points
        &&& self.max_points == before.max_points
        &&& self.exit.animated_from(before.exit)
        &&& self.cheeses.len() == before.cheeses.len()
        &&& forall|i: int|
            0 <= i < self.cheeses.len() ==> (#[trigger] self.cheeses[i]).animated_from(before.cheeses[i])
    }

    /// The images of the exit and of the cheese.
    pub open spec fn item_images(self) -> Seq<DrawCommand> {
        spec_exit_images(self.exit) + spec_cheese_images(self.cheeses, self.cheeses.len() as int)
    }

    /// The images of the spiders.
    pub open spec fn spider_images(self) -> Seq<DrawCommand> {
        spec_spider_images(self.spiders, self.spiders.len() as int)
    }

    /// The level that holds the given things, with its counters set by the
    /// cheese.
    pub open spec fn assemble(cheeses: Seq<CheeseView>, spiders: Seq<SpiderView>, exit: ExitView) -> LevelView {
        LevelView { cheeses, spiders, exit, points: spec_taken(cheeses) as u8, max_points: cheeses.len() as u8 }
    }
}

/// What one frame of a level tells the game: the screen to show next, and how
/// often to sound the pickup cue.
#[derive(Clone, Copy, Debug, PartialEq, Eq, Structural)]
pub struct CycleOutcome {
    pub state: Gamestate,
    pub pickups: u8,
}

/// The first `count + 1` cheeses hold the picked-up cheeses of the first
/// `count`, and the next cheese if it is picked up.
pub proof fn lemma_taken_step(cheeses: Seq<CheeseView>, count: int)
    requires
        0 <= count < cheeses.len(),
    ensures
        spec_taken(cheeses.take(count + 1)) == spec_taken(cheeses.take(count)) + if cheeses[count].available {
            0nat
        } else {
            1nat
        },
{
    assert(cheeses.take(count + 1).drop_last() == cheeses.take(count));
}

/// Of the first `count + 1` cheeses the mouse picks up what it picks up of
/// the first `count`, and the next cheese if it reaches it.
pub proof fn lemma_picked_step(cheeses: Seq<CheeseView>, mouse: Vector2, count: int)
    requires
        0 <= count < cheeses.len(),
    ensures
        spec_picked(cheeses.take(count + 1), mouse) == spec_picked(cheeses.take(count), mouse) + if cheeses[count].picked_by(
            mouse,
        ) {
            1nat
        } else {
            0nat
        },
{
    assert(cheeses.take(count + 1).drop_last() == cheeses.take(count));
}

/// A cheese is picked up at most once: those already taken and those picked
/// up in this frame are different cheeses, so together they are no more than
/// there are cheeses. This holds of every beginning of the list as well.
pub proof fn lemma_taken_and_picked(cheeses: Seq<CheeseView>, mouse: Vector2, count: int)
    requires
        0 <= count <= cheeses.len(),
    ensures
        spec_taken(cheeses) + spec_picked(cheeses.take(count), mouse) <= cheeses.len(),
        spec_taken(cheeses) <= cheeses.len(),
    decreases cheeses.len(),
{
    if cheeses.len() > 0 {
        let shorter = cheeses.drop_last();
        if count == cheeses.len() {
            assert(cheeses.take(count) == cheeses);
            lemma_taken_and_picked(shorter, mouse, count - 1);
            assert(shorter.take(count - 1) == shorter);
        } else {
            lemma_taken_and_picked(shorter, mouse, count);
            assert(shorter.take(count) == cheeses.take(count));
        }
    }
}

/// After the mouse has collected, the cheeses taken are those taken before
/// and those picked up in this frame.
pub proof fn lemma_collected_taken(cheeses: Seq<CheeseView>, mouse: Vector2)
    ensures
        spec_taken(spec_collected(cheeses, mouse)) == spec_taken(cheeses) + spec_picked(cheeses, mouse),
    decreases cheeses.len(),
{
    if cheeses.len() > 0 {
        lemma_collected_taken(cheeses.drop_last(), mouse);
        assert(spec_collected(cheeses, mouse).drop_last() == spec_collected(cheeses.drop_last(), mouse));
    }
}

/// A level that is left as it is counts as drawn: at the time 0 no frame
/// is due to change.
pub proof fn lemma_still(level: LevelView)
    ensures
        level.animated_from(level),
{
    assert(level.exit == level.exit.animated(0));
    assert forall|i: int| 0 <= i < level.cheeses.len() implies (#[trigger] level.cheeses[i]).animated_from(
        level.cheeses[i],
    ) by {
        assert(level.cheeses[i] == level.cheeses[i].animated(0));
    }
}

/// How many cheeses are taken depends on nothing but which are there.
pub proof fn lemma_taken_by_flags(cheeses: Seq<CheeseView>, others: Seq<CheeseView>)
    requires
        cheeses.len() == others.len(),
        forall|i: int| 0 <= i < cheeses.len() ==> (#[trigger] cheeses[i]).available == others[i].available,
    ensures
        spec_taken(cheeses) == spec_taken(others),
    decreases cheeses.len(),
{
    if cheeses.len() > 0 {
        lemma_taken_by_flags(cheeses.drop_last(), others.drop_last());
    }
}

/// The images of the first `count` cheeses depend on nothing but those
/// cheeses.
pub proof fn lemma_cheese_images_prefix(cheeses: Seq<CheeseView>, others: Seq<CheeseView>, count: int)
    requires
        forall|i: int| 0 <= i < count ==> #[trigger] cheeses[i] == others[i],
    ensures
        spec_cheese_images(cheeses, count) == spec_cheese_images(others, count),
    decreases count,
{
    if count > 0 {
        lemma_cheese_images_prefix(cheeses, others, count - 1);
    }
}

/// A level.
pub struct Level {
    cheeses: Vec<Cheese>,
    spiders: Vec<Spider>,
    exit: Exit,
    points: u8,
    max_points: u8,
}

impl View for Level {
    type V = LevelView;

    closed spec fn view(&self) -> LevelView {
        LevelView {
            cheeses: self.cheeses@.map_values(|c: Cheese| c@),
            spiders: self.spiders@.map_values(|s: Spider| s@),
            exit: self.exit@,
            points: self.points,
            max_points: self.max_points,
        }
    }
}

/// Whether every cheese of `cheeses` has the shape of its kind.
pub open spec fn cheeses_wf(cheeses: Seq<Cheese>) -> bool {
    forall|i: int| 0 <= i < cheeses.len() ==> (#[trigger] cheeses[i]).wf()
}

/// Whether every spider of `spiders` has the shape of its kind.
pub open spec fn spiders_wf(spiders: Seq<Spider>) -> bool {
    forall|i: int| 0 <= i < spiders.len() ==> (#[trigger] spiders[i]).wf()
}

/// The views of `cheeses`.
pub open spec fn cheese_views(cheeses: Seq<Cheese>) -> Seq<CheeseView> {
    cheeses.map_values(|c: Cheese| c@)
}

/// The views of `spiders`.
pub open spec fn spider_views(spiders: Seq<Spider>) -> Seq<SpiderView> {
    spiders.map_values(|s: Spider| s@)
}

impl Level {
    /// Whether everything in the level has the shape of its kind.
    pub closed spec fn parts_wf(&self) -> bool {
        &&& cheeses_wf(self.cheeses@)
        &&& spiders_wf(self.spiders@)
        &&& self.exit.wf()
    }

    /// Whether the level is sound: its parts are, and its counters agree
    /// with its cheese.
    pub open spec fn wf(&self) -> bool {
        self.parts_wf() && self@.wf()
    }

    /// The level that holds the given things. Its score is the number of
    /// cheeses that are already picked up. There is no level without cheese,
    /// none with more than 255 cheeses, and none whose exit is open while a
    /// cheese is left.
    pub fn from_parts(cheeses: Vec<Cheese>, spiders: Vec<Spider>, exit: Exit) -> (level: Option<Level>)
        requires
            cheeses_wf(cheeses@),
            spiders_wf(spiders@),
            exit.wf(),
        ensures
            level is Some <==> LevelView::assemble(cheese_views(cheeses@), spider_views(spiders@), exit@).wf(),
            level matches Some(l) ==> l.wf() && l@ == LevelView::assemble(
                cheese_views(cheeses@),
                spider_views(spiders@),
                exit@,
            ),
    {
        let count = cheeses.len();
        if count == 0 || count > 255 {
            return None;
        }
        let ghost views = cheese_views(cheeses@);
        let mut taken: usize = 0;
        let mut i: usize = 0;
        while i < count
            invariant
                i <= count,
                count == cheeses@.len(),
                count <= 255,
                views == cheese_views(cheeses@),
                taken == spec_taken(views.take(i as int)),
                taken <= i,
            decreases count - i,
        {
            proof {
                lemma_taken_step(views, i as int);
            }
            if !*cheeses[i].is_available() {
                taken += 1;
            }
            i += 1;
        }
        assert(views.take(count as int) == views);
        if *exit.is_available() && taken != count {
            return None;
        }
        Some(Level { cheeses, spiders, exit, points: taken as u8, max_points: count as u8 })
    }

    /// Puts a new level together from what the grid has yielded. A grid
    /// without cheese gets the forced cheese.
    fn lay_out(
        cheeses: Vec<Cheese>,
        spiders: Vec<Spider>,
        anchor: Ghost<Vector2>,
        enemy_rate: Ghost<u32>,
        cheese_rate: Ghost<u32>,
        draws: Ghost<DrawsView>,
        exit_left: bool,
        exit_height: u32,
        spare_x: u32,
        spare_y: u32,
    ) -> (level: Level)
        requires
            cheeses_wf(cheeses@),
            spiders_wf(spiders@),
            draws@.exit_left == exit_left,
            draws@.exit_height == exit_height,
            cheeses@.len() == 0 ==> draws@.spare_x == spare_x && draws@.spare_y == spare_y,
            cheese_views(cheeses@) == grid_cheeses(draws@.cells, cheese_rate@, GRID_CELLS as int),
            spider_views(spiders@) == grid_spiders(
                draws@.cells,
                anchor@,
                enemy_rate@,
                cheese_rate@,
                GRID_CELLS as int,
            ),
        ensures
            level.wf(),
            level@ == spec_generate(anchor@, enemy_rate@, cheese_rate@, draws@),
    {
        let mut cheeses = cheeses;
        if cheeses.len() == 0 {
            let cheese = forced_cheese(spare_x, spare_y);
            cheeses.push(cheese);
            assert(cheese_views(cheeses@) == seq![cheese@]);
        }
        let exit = place_exit(exit_left, exit_height);
        proof {
            lemma_generated_level(anchor@, enemy_rate@, cheese_rate@, draws@);
        }
        let max_points = cheeses.len() as u8;
        Self { cheeses, spiders, exit, points: 0, max_points }
    }

    /// The level that `draws` make for a player who stands at
    /// `(forbidden_x, forbidden_y)`. Rates count hundredths. There is a level
    /// exactly when `draws` holds the draws of all cells of the grid.
    pub fn from_draws(
        forbidden_x: &i32,
        forbidden_y: &i32,
        enemy_spawn_rate: &u32,
        cheese_spawn_rate: &u32,
        draws: &Draws,
    ) -> (level: Option<Level>)
        ensures
            level is Some <==> draws@.cells.len() == GRID_CELLS,
            level matches Some(l) ==> l.wf() && l@ == spec_generate(
                Vector2 { x: *forbidden_x, y: *forbidden_y },
                *enemy_spawn_rate,
                *cheese_spawn_rate,
                draws@,
            ),
    {
        if draws.cells.len() != GRID_CELLS {
            return None;
        }
        let (cheeses, spiders) = populate(
            *forbidden_x,
            *forbidden_y,
            *enemy_spawn_rate,
            *cheese_spawn_rate,
            &draws.cells,
        );
        Some(
            Level::lay_out(
                cheeses,
                spiders,
                Ghost(Vector2 { x: *forbidden_x, y: *forbidden_y }),
                Ghost(*enemy_spawn_rate),
                Ghost(*cheese_spawn_rate),
                Ghost(draws@),
                draws.exit_left,
                draws.exit_height,
                draws.spare_x,
                draws.spare_y,
            ),
        )
    }

    /// A new level for a player who stands at `(forbidden_x, forbidden_y)`,
    /// decided by draws from `rand`: first the side and the height of the
    /// exit, then two draws for each cell, and two more for the forced cheese
    /// if the grid has yielded none. Rates count hundredths.
    ///
    /// Whatever is drawn, the level is the one that `spec_generate` makes of
    /// the draws. So it has at least one cheese, `max_points` counts its
    /// cheeses, nothing is collected yet, the exit is closed, and every spider
    /// stands inside the arena and more than `SPAWN_DISTANCE` from the player.
    pub fn generate(
        forbidden_x: &i32,
        forbidden_y: &i32,
        enemy_spawn_rate: &u32,
        cheese_spawn_rate: &u32,
        rand: &mut ThreadRng,
    ) -> (level: Level)
        ensures
            level.wf(),
            spec_generated(
                level@,
                Vector2 { x: *forbidden_x, y: *forbidden_y },
                *enemy_spawn_rate,
                *cheese_spawn_rate,
            ),
            level@.cheeses.len() >= 1,
            level@.cheeses.len() <= GRID_CELLS,
            level@.max_points == level@.cheeses.len(),
            level@.points == 0,
            !level@.exit.available,
            level@.spiders_in_arena(),
            forall|j: int|
                0 <= j < level@.spiders.len() ==> spec_distance_squared(
                    (#[trigger] level@.spiders[j]).pos,
                    Vector2 { x: *forbidden_x, y: *forbidden_y },
                ) > SPAWN_DISTANCE * SPAWN_DISTANCE,
    {
        let exit_left = next_coin(rand);
        let exit_height = next_fraction(rand);
        let mut cells: Vec<CellDraw> = Vec::new();
        let mut k: usize = 0;
        while k < GRID_CELLS
            invariant
                k <= GRID_CELLS,
                cells@.len() == k,
            decreases GRID_CELLS - k,
        {
            let cheese = next_fraction(rand);
            let spider = next_fraction(rand);
            cells.push(CellDraw { cheese, spider });
            k += 1;
        }
        let (cheeses, spiders) = populate(*forbidden_x, *forbidden_y, *enemy_spawn_rate, *cheese_spawn_rate, &cells);
        let mut spare_x: u32 = 0;
        let mut spare_y: u32 = 0;
        if cheeses.len() == 0 {
            spare_x = next_fraction(rand);
            spare_y = next_fraction(rand);
        }
        let ghost anchor = Vector2 { x: *forbidden_x, y: *forbidden_y };
        let ghost draws = DrawsView { exit_left, exit_height, cells: cells@, spare_x, spare_y };
        proof {
            lemma_generated_level(anchor, *enemy_spawn_rate, *cheese_spawn_rate, draws);
            lemma_generated_spiders(anchor, *enemy_spawn_rate, *cheese_spawn_rate, draws);
        }
        Level::lay_out(
            cheeses,
            spiders,
            Ghost(anchor),
            Ghost(*enemy_spawn_rate),
            Ghost(*cheese_spawn_rate),
            Ghost(draws),
            exit_left,
            exit_height,
            spare_x,
            spare_y,
        )
    }

    /// Pushes `spider` back once for each of the first `count` of `boxes`
    /// that blocks it where it stands now.
    fn settle(spider: &mut Spider, boxes: &Vec<(Vector2, Vector2)>, count: usize)
        requires
            old(spider).wf(),
            count <= boxes@.len(),
        ensures
            final(spider).wf(),
            final(spider)@ == spec_pushed_back(old(spider)@, spec_blockers(old(spider)@, boxes@, count as int)),
    {
        let mut blockers: usize = 0;
        let mut k: usize = 0;
        while k < count
            invariant
                k <= count,
                count <= boxes@.len(),
                spider.wf(),
                spider@ == old(spider)@,
                blockers == spec_blockers(spider@, boxes@, k as int),
                blockers <= k,
            decreases count - k,
        {
            if spider.blocked_by(&boxes[k].0, &boxes[k].1) {
                blockers += 1;
            }
            k += 1;
        }
        let mut pushed: usize = 0;
        while pushed < blockers
            invariant
                pushed <= blockers,
                spider.wf(),
                spider@ == spec_pushed_back(old(spider)@, pushed as nat),
            decreases blockers - pushed,
        {
            spider.push_back();
            pushed += 1;
        }
    }

    /// Moves the spiders for one frame with the mouse at `target`: every
    /// spider takes its step, then the later of every two spiders that
    /// overlap gives way, then the spiders are tested against the mouse.
    /// Says whether one of them has caught it.
    fn move_spiders(&mut self, target: &Vector2) -> (caught: bool)
        requires
            old(self).parts_wf(),
        ensures
            final(self).parts_wf(),
            final(self)@ == (LevelView { spiders: old(self)@.spiders_after(*target), ..old(self)@ }),
            final(self).cheeses == old(self).cheeses,
            final(self).exit == old(self).exit,
            final(self).points == old(self).points,
            final(self).max_points == old(self).max_points,
            caught == old(self)@.caught(*target),
    {
        let ghost before = self@;
        let n = self.spiders.len();
        let mut s: usize = 0;
        while s < n
            invariant
                s <= n,
                n == self.spiders@.len(),
                n == before.spiders.len(),
                before == old(self)@,
                self.parts_wf(),
                self.cheeses == old(self).cheeses,
                self.exit == old(self).exit,
                self.points == old(self).points,
                self.max_points == old(self).max_points,
                forall|j: int| 0 <= j < s ==> (#[trigger] self.spiders@[j])@ == before.spider_stepped(j, *target),
                forall|j: int| s <= j < n ==> (#[trigger] self.spiders@[j])@ == before.spiders[j],
            decreases n - s,
        {
            let spider = &mut self.spiders[s];
            spider.cycle(target);
            s += 1;
        }
        let mut boxes: Vec<(Vector2, Vector2)> = Vec::new();
        let mut b: usize = 0;
        while b < n
            invariant
                b <= n,
                n == self.spiders@.len(),
                n == before.spiders.len(),
                spiders_wf(self.spiders@),
                forall|j: int| 0 <= j < n ==> (#[trigger] self.spiders@[j])@ == before.spider_stepped(j, *target),
                boxes@.len() == b,
                forall|j: int| 0 <= j < b ==> #[trigger] boxes@[j] == before.boxes(*target)[j],
            decreases n - b,
        {
            let el = &self.spiders[b];
            boxes.push((*el.get_pos(), *el.get_size()));
            b += 1;
        }
        assert(boxes@ == before.boxes(*target));
        let mut i: usize = 0;
        while i < n
            invariant
                i <= n,
                n == self.spiders@.len(),
                n == before.spiders.len(),
                boxes@ == before.boxes(*target),
                before == old(self)@,
                self.parts_wf(),
                self.cheeses == old(self).cheeses,
                self.exit == old(self).exit,
                self.points == old(self).points,
                self.max_points == old(self).max_points,
                forall|j: int| 0 <= j < i ==> (#[trigger] self.spiders@[j])@ == before.spider_moved(j, *target),
                forall|j: int| i <= j < n ==> (#[trigger] self.spiders@[j])@ == before.spider_stepped(j, *target),
            decreases n - i,
        {
            let spider = &mut self.spiders[i];
            Level::settle(spider, &boxes, i);
            i += 1;
        }
        assert(self@.spiders == before.spiders_after(*target));
        let mut t: usize = 0;
        while t < n
            invariant
                t <= n,
                n == self.spiders@.len(),
                n == before.spiders.len(),
                before == old(self)@,
                self.parts_wf(),
                self@ == (LevelView { spiders: before.spiders_after(*target), ..before }),
                self.cheeses == old(self).cheeses,
                self.exit == old(self).exit,
                self.points == old(self).points,
                self.max_points == old(self).max_points,
                forall|j: int| 0 <= j < n ==> (#[trigger] self.spiders@[j])@ == before.spider_moved(j, *target),
                forall|j: int| 0 <= j < t ==> !#[trigger] before.catches(j, *target),
            decreases n - t,
        {
            if self.spiders[t].touches(target) {
                assert(before.catches(t as int, *target));
                return true;
            }
            t += 1;
        }
        false
    }

    /// Plays one frame: the spiders move, then the exit is looked at, then
    /// the cheese. Says which screen follows and how often the pickup cue is
    /// to sound.
    pub fn cycle(&mut self, mouse: &Mouse) -> (out: CycleOutcome)
        requires
            old(self).wf(),
        ensures
            final(self).wf(),
            final(self)@ == old(self)@.cycle(mouse@.pos),
            out.state == old(self)@.outcome(mouse@.pos),
            out.pickups == old(self)@.pickups(mouse@.pos),
            old(self)@.spiders_in_arena() ==> final(self)@.spiders_in_arena(),
            final(self)@.cheeses.len() == old(self)@.cheeses.len(),
            forall|i: int|
                0 <= i < old(self)@.cheeses.len() && !(#[trigger] old(self)@.cheeses[i]).available
                    ==> final(self)@.cheeses[i] == old(self)@.cheeses[i],
            final(self)@.points == old(self)@.points + out.pickups,
            !old(self)@.exit.available && final(self)@.exit.available ==> old(self)@.points == old(self)@.max_points,
            old(self)@.exit.available ==> final(self)@.exit.available,
    {
        let target: Vector2 = *mouse.get_pos();
        let ghost before = self@;
        let caught = self.move_spiders(&target);
        proof {
            lemma_frame(before, target);
        }
        if caught {
            return CycleOutcome { state: Gamestate::GameOver, pickups: 0 };
        }
        if !*self.exit.is_available() && self.points == self.max_points {
            self.exit.activate();
        } else if *self.exit.is_available() && self.exit.touches(&target) {
            return CycleOutcome { state: Gamestate::NextLevel, pickups: 0 };
        } else {
            let count = self.cheeses.len();
            let ghost walked = self.spiders@;
            let mut pickups: u8 = 0;
            let mut c: usize = 0;
            while c < count
                invariant
                    c <= count,
                    count == self.cheeses@.len(),
                    count == before.cheeses.len(),
                    target == mouse@.pos,
                    before == old(self)@,
                    before.wf(),
                    self.parts_wf(),
                    self.spiders@ == walked,
                    self.exit == old(self).exit,
                    self.max_points == old(self).max_points,
                    pickups == spec_picked(before.cheeses.take(c as int), target),
                    self.points == before.points + pickups,
                    forall|j: int|
                        0 <= j < c ==> (#[trigger] self.cheeses@[j])@ == spec_collected(before.cheeses, target)[j],
                    forall|j: int| c <= j < count ==> (#[trigger] self.cheeses@[j])@ == before.cheeses[j],
                decreases count - c,
            {
                proof {
                    lemma_picked_step(before.cheeses, target, c as int);
                    lemma_taken_and_picked(before.cheeses, target, c as int + 1);
                }
                let cheese = &mut self.cheeses[c];
                if *cheese.is_available() && cheese.touches(&target) {
                    pickups += 1;
                    self.points += 1;
                    cheese.take();
                }
                c += 1;
            }
            proof {
                assert(before.cheeses.take(count as int) == before.cheeses);
                lemma_taken_and_picked(before.cheeses, target, count as int);
                lemma_collected_taken(before.cheeses, target);
                assert(self@.cheeses == spec_collected(before.cheeses, target));
                lemma_frame(before, target);
            }
            return CycleOutcome { state: Gamestate::Play, pickups };
        }
        CycleOutcome { state: Gamestate::Play, pickups: 0 }
    }

    /// Moves the animations of the exit and of the cheese on where their time
    /// has come, and adds their images to `commands`: the exit first, if it
    /// is open, then every cheese that is still there.
    pub fn draw_items(&mut self, commands: &mut Vec<DrawCommand>)
        requires
            old(self).wf(),
        ensures
            final(self).wf(),
            final(self)@.animated_from(old(self)@),
            final(commands)@ == old(commands)@ + final(self)@.item_images(),
    {
        let ghost before = self@;
        let sprite = self.exit.draw();
        push_image(commands, Texture::Exit, sprite);
        let ghost base = commands@;
        let count = self.cheeses.len();
        let mut i: usize = 0;
        while i < count
            invariant
                i <= count,
                count == self.cheeses@.len(),
                count == before.cheeses.len(),
                before == old(self)@,
                before.wf(),
                self.parts_wf(),
                self.spiders == old(self).spiders,
                self.exit@.animated_from(before.exit),
                self.points == old(self).points,
                self.max_points == old(self).max_points,
                base == old(commands)@ + spec_exit_images(self.exit@),
                commands@ == base + spec_cheese_images(cheese_views(self.cheeses@), i as int),
                forall|j: int| 0 <= j < i ==> (#[trigger] self.cheeses@[j])@.animated_from(before.cheeses[j]),
                forall|j: int| i <= j < count ==> (#[trigger] self.cheeses@[j])@ == before.cheeses[j],
            decreases count - i,
        {
            let ghost views = cheese_views(self.cheeses@);
            let cheese = &mut self.cheeses[i];
            let sprite = cheese.draw();
            push_image(commands, Texture::Cheese, sprite);
            proof {
                lemma_cheese_images_prefix(views, cheese_views(self.cheeses@), i as int);
            }
            i += 1;
        }
        proof {
            lemma_taken_by_flags(self@.cheeses, before.cheeses);
        }
    }

    /// Adds the images of the spiders to `commands`, in the order in which
    /// the spiders move.
    pub fn draw_spiders(&mut self, commands: &mut Vec<DrawCommand>)
        requires
            old(self).wf(),
        ensures
            final(self).wf(),
            final(self)@ == old(self)@,
            final(commands)@ == old(commands)@ + old(self)@.spider_images(),
    {
        let ghost before = self@;
        let count = self.spiders.len();
        let mut i: usize = 0;
        while i < count
            invariant
                i <= count,
                count == self.spiders@.len(),
                before == old(self)@,
                before.wf(),
                self.parts_wf(),
                self.cheeses == old(self).cheeses,
                self.exit == old(self).exit,
                self.points == old(self).points,
                self.max_points == old(self).max_points,
                spider_views(self.spiders@) == before.spiders,
                commands@ == old(commands)@ + spec_spider_images(before.spiders, i as int),
            decreases count - i,
        {
            let spider = &mut self.spiders[i];
            let sprite = spider.draw();
            push_image(commands, Texture::Spider, sprite);
            i += 1;
        }
    }

    /// The score: how many cheeses are picked up.
    pub fn points(&self) -> (points: u8)
        ensures
            points == self@.points,
    {
        self.points
    }

    /// The score at which the exit opens: how many cheeses there are.
    pub fn max_points(&self) -> (max_points: u8)
        ensures
            max_points == self@.max_points,
    {
        self.max_points
    }

    /// The cheeses, in the order in which they were placed.
    pub fn cheeses(&self) -> (cheeses: &Vec<Cheese>)
        ensures
            cheese_views(cheeses@) == self@.cheeses,
            self.wf() ==> cheeses_wf(cheeses@),
    {
        &self.cheeses
    }

    /// The spiders, in the order in which they move.
    pub fn spiders(&self) -> (spiders: &Vec<Spider>)
        ensures
            spider_views(spiders@) == self@.spiders,
            self.wf() ==> spiders_wf(spiders@),
    {
        &self.spiders
    }

    /// The exit.
    pub fn exit(&self) -> (exit: &Exit)
        ensures
            exit@ == self@.exit,
            self.wf() ==> exit.wf(),
    {
        &self.exit
    }
}

} // verus!
