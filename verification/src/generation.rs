//! Where the things of a new level go.
//!
//! A level is laid out on a grid of seven by seven cells. Every cell gets two
//! random draws: the first decides whether a cheese lies there, the second
//! whether a spider stands there instead. A draw is the numerator of a
//! fraction over 2^32, and a rate counts hundredths, so a draw meets a rate
//! when `draw / 2^32 <= rate / 100`.
//!
//! The rules are stated here as functions of the draws. Which draws come up
//! is the business of the random source.

use crate::entity::Cheese;
use crate::entity::CheeseView;
use crate::entity::Exit;
use crate::entity::ExitView;
use crate::entity::Spider;
use crate::entity::SpiderView;
use crate::geometry::farther_than;
use crate::geometry::spec_distance_squared;
use crate::geometry::Vector2;
use crate::level::cheese_views;
use crate::level::cheeses_wf;
use crate::level::spec_taken;
use crate::level::spider_views;
use crate::level::spiders_wf;
use crate::level::LevelView;
use crate::node::Direction;
use vstd::prelude::*;

verus! {

/// Number of cells along one side of the grid.
pub const GRID_SIDE: usize = 7;

/// Number of cells of the grid.
pub const GRID_CELLS: usize = 49;

/// Distance between the corners of two neighbouring cells.
pub const CELL_PITCH: i32 = 800;

/// Distance from the player within which no spider is placed.
pub const SPAWN_DISTANCE: i32 = 2000;

/// Side of the square in which a forced cheese may lie.
pub const PLAY_AREA: u32 = 6000;

/// Where an exit on the right side stands.
pub const EXIT_RIGHT: i32 = 5900;

/// Lowest place of an exit on its side.
pub const EXIT_LOWEST: i32 = 1000;

/// Length of the stretch above `EXIT_LOWEST` in which an exit may stand.
pub const EXIT_SPAN: u32 = 4000;

/// The rate at which every draw is met.
pub const RATE_ONE: u32 = 100;

/// The two random draws of one cell.
#[derive(Clone, Copy, Debug, PartialEq, Eq, Structural)]
pub struct CellDraw {
    /// Decides whether a cheese lies in the cell.
    pub cheese: u32,
    /// Decides whether a spider stands in the cell, if no cheese lies there.
    pub spider: u32,
}

/// The random draws that decide one level.
#[derive(Debug)]
pub struct Draws {
    /// Whether the exit stands on the left side.
    pub exit_left: bool,
    /// How far up its side the exit stands.
    pub exit_height: u32,
    /// The draws of each cell, row by row.
    pub cells: Vec<CellDraw>,
    /// How far to the right a cheese is put if no cell yields one.
    pub spare_x: u32,
    /// How far up a cheese is put if no cell yields one.
    pub spare_y: u32,
}

/// The draws of one level as plain values.
pub struct DrawsView {
    pub exit_left: bool,
    pub exit_height: u32,
    pub cells: Seq<CellDraw>,
    pub spare_x: u32,
    pub spare_y: u32,
}

impl View for Draws {
    type V = DrawsView;

    open spec fn view(&self) -> DrawsView {
        DrawsView {
            exit_left: self.exit_left,
            exit_height: self.exit_height,
            cells: self.cells@,
            spare_x: self.spare_x,
            spare_y: self.spare_y,
        }
    }
}

/// Whether `draw`, read as a fraction of 2^32, is at most `rate` hundredths.
pub open spec fn spec_hit(draw: u32, rate: u32) -> bool {
    draw * RATE_ONE <= rate * 0x1_0000_0000
}

/// `draw`, read as a fraction of 2^32, taken of `range`, without what comes
/// after the point.
pub open spec fn spec_scale(draw: u32, range: u32) -> int {
    (draw * range) / 0x1_0000_0000
}

/// The corner of cell `k`. Cells are counted row by row, and the first row
/// and the first column lie one pitch inside the arena.
pub open spec fn spec_cell_position(k: int) -> Vector2 {
    Vector2 { x: ((k % 7 + 1) * CELL_PITCH) as i32, y: ((k / 7 + 1) * CELL_PITCH) as i32 }
}

/// A cheese at `pos` that has just been placed.
pub open spec fn fresh_cheese(pos: Vector2) -> CheeseView {
    CheeseView { pos, available: true, frame: 0, last_time_point: 0 }
}

/// A spider at `pos` that has just been placed.
pub open spec fn fresh_spider(pos: Vector2) -> SpiderView {
    SpiderView { pos, direction: Direction::DOWN, available: true }
}

/// Whether cell `k` yields a cheese: its first draw meets the cheese rate.
pub open spec fn yields_cheese(cells: Seq<CellDraw>, cheese_rate: u32, k: int) -> bool {
    spec_hit(cells[k].cheese, cheese_rate)
}

/// Whether cell `k` yields a spider: it yields no cheese, its second draw
/// meets the enemy rate, and it lies more than `SPAWN_DISTANCE` from
/// `anchor`.
pub open spec fn yields_spider(
    cells: Seq<CellDraw>,
    anchor: Vector2,
    enemy_rate: u32,
    cheese_rate: u32,
    k: int,
) -> bool {
    &&& !yields_cheese(cells, cheese_rate, k)
    &&& spec_hit(cells[k].spider, enemy_rate)
    &&& spec_distance_squared(spec_cell_position(k), anchor) > SPAWN_DISTANCE * SPAWN_DISTANCE
}

/// The cheeses that the first `count` cells yield, in the order of the cells.
pub open spec fn grid_cheeses(cells: Seq<CellDraw>, cheese_rate: u32, count: int) -> Seq<CheeseView>
    decreases count,
{
    if count <= 0 {
        Seq::empty()
    } else if yields_cheese(cells, cheese_rate, count - 1) {
        grid_cheeses(cells, cheese_rate, count - 1).push(fresh_cheese(spec_cell_position(count - 1)))
    } else {
        grid_cheeses(cells, cheese_rate, count - 1)
    }
}

/// The spiders that the first `count` cells yield, in the order of the cells.
pub open spec fn grid_spiders(
    cells: Seq<CellDraw>,
    anchor: Vector2,
    enemy_rate: u32,
    cheese_rate: u32,
    count: int,
) -> Seq<SpiderView>
    decreases count,
{
    if count <= 0 {
        Seq::empty()
    } else if yields_spider(cells, anchor, enemy_rate, cheese_rate, count - 1) {
        grid_spiders(cells, anchor, enemy_rate, cheese_rate, count - 1).push(
            fresh_spider(spec_cell_position(count - 1)),
        )
    } else {
        grid_spiders(cells, anchor, enemy_rate, cheese_rate, count - 1)
    }
}

/// The cheese that is put where no cell yields one: anywhere in the play
/// area, as the two spare draws say.
pub open spec fn spec_forced_cheese(spare_x: u32, spare_y: u32) -> CheeseView {
    fresh_cheese(
        Vector2 { x: spec_scale(spare_x, PLAY_AREA) as i32, y: spec_scale(spare_y, PLAY_AREA) as i32 },
    )
}

/// The exit of a new level: closed, on the left side facing left or on the
/// right side facing right, at a height between `EXIT_LOWEST` and
/// `EXIT_LOWEST + EXIT_SPAN`.
pub open spec fn spec_exit(exit_left: bool, exit_height: u32) -> ExitView {
    ExitView {
        pos: Vector2 {
            x: if exit_left { 0 } else { EXIT_RIGHT },
            y: (EXIT_LOWEST + spec_scale(exit_height, EXIT_SPAN)) as i32,
        },
        direction: if exit_left { Direction::LEFT } else { Direction::RIGHT },
        available: false,
        frame: 0,
        last_time_point: 0,
    }
}

/// The cheeses of a new level: those that the grid yields, or the forced
/// cheese if it yields none.
pub open spec fn spec_cheeses(cheese_rate: u32, draws: DrawsView) -> Seq<CheeseView> {
    let grid = grid_cheeses(draws.cells, cheese_rate, GRID_CELLS as int);
    if grid.len() == 0 {
        seq![spec_forced_cheese(draws.spare_x, draws.spare_y)]
    } else {
        grid
    }
}

/// The level that the given draws make for a player who stands at `anchor`.
pub open spec fn spec_generate(anchor: Vector2, enemy_rate: u32, cheese_rate: u32, draws: DrawsView) -> LevelView {
    LevelView {
        cheeses: spec_cheeses(cheese_rate, draws),
        spiders: grid_spiders(draws.cells, anchor, enemy_rate, cheese_rate, GRID_CELLS as int),
        exit: spec_exit(draws.exit_left, draws.exit_height),
        points: 0,
        max_points: spec_cheeses(cheese_rate, draws).len() as u8,
    }
}

/// Whether `level` is a level that some draws make for a player who stands at
/// `anchor`.
pub open spec fn spec_generated(level: LevelView, anchor: Vector2, enemy_rate: u32, cheese_rate: u32) -> bool {
    exists|draws: DrawsView|
        draws.cells.len() == GRID_CELLS && level == #[trigger] spec_generate(anchor, enemy_rate, cheese_rate, draws)
}

/// Whether `draw` meets `rate`.
pub fn hit(draw: u32, rate: u32) -> (met: bool)
    ensures
        met == spec_hit(draw, rate),
{
    let share: u64 = (draw as u64) * 100;
    let bound: u64 = (rate as u64) * 0x1_0000_0000;
    share <= bound
}

/// Takes the fraction `draw` of `range`. The result is less than `range`.
pub fn scale(draw: u32, range: u32) -> (part: u32)
    ensures
        part == spec_scale(draw, range),
        range > 0 ==> part < range,
        range == 0 ==> part == 0,
{
    assert(0 <= draw * range <= 0xffff_ffff * range) by (nonlinear_arith)
        requires
            0 <= draw <= 0xffff_ffff,
            0 <= range,
    ;
    let product: u64 = (draw as u64) * (range as u64);
    (product / 0x1_0000_0000u64) as u32
}

/// The corner of cell `k`.
pub fn cell_position(k: usize) -> (pos: Vector2)
    requires
        k < GRID_CELLS,
    ensures
        pos == spec_cell_position(k as int),
        CELL_PITCH <= pos.x <= 7 * CELL_PITCH,
        CELL_PITCH <= pos.y <= 7 * CELL_PITCH,
{
    let column: i32 = (k % GRID_SIDE) as i32;
    let row: i32 = (k / GRID_SIDE) as i32;
    Vector2 { x: (column + 1) * CELL_PITCH, y: (row + 1) * CELL_PITCH }
}

/// Goes through the grid once, cell by cell, and places a cheese or a spider
/// or nothing in each. `cells` holds the two draws of each cell.
pub fn populate(forbidden_x: i32, forbidden_y: i32, enemy_rate: u32, cheese_rate: u32, cells: &Vec<CellDraw>) -> (placed: (
    Vec<Cheese>,
    Vec<Spider>,
))
    requires
        cells@.len() == GRID_CELLS,
    ensures
        cheeses_wf(placed.0@),
        spiders_wf(placed.1@),
        cheese_views(placed.0@) == grid_cheeses(cells@, cheese_rate, GRID_CELLS as int),
        spider_views(placed.1@) == grid_spiders(
            cells@,
            Vector2 { x: forbidden_x, y: forbidden_y },
            enemy_rate,
            cheese_rate,
            GRID_CELLS as int,
        ),
{
    let anchor = Vector2 { x: forbidden_x, y: forbidden_y };
    let mut cheeses = Vec::<Cheese>::new();
    let mut spiders = Vec::<Spider>::new();
    let mut k: usize = 0;
    while k < GRID_CELLS
        invariant
            k <= GRID_CELLS,
            cells@.len() == GRID_CELLS,
            anchor == (Vector2 { x: forbidden_x, y: forbidden_y }),
            cheeses_wf(cheeses@),
            spiders_wf(spiders@),
            cheese_views(cheeses@) == grid_cheeses(cells@, cheese_rate, k as int),
            spider_views(spiders@) == grid_spiders(cells@, anchor, enemy_rate, cheese_rate, k as int),
        decreases GRID_CELLS - k,
    {
        let draw: CellDraw = cells[k];
        let spot = cell_position(k);
        if hit(draw.cheese, cheese_rate) {
            let cheese = Cheese::new(spot.x, spot.y);
            cheeses.push(cheese);
        } else if hit(draw.spider, enemy_rate) {
            if farther_than(&spot, &anchor, SPAWN_DISTANCE) {
                let spider = Spider::new(spot.x, spot.y, Direction::DOWN);
                spiders.push(spider);
            }
        }
        k += 1;
    }
    (cheeses, spiders)
}

/// The cheese to put where the grid has yielded none.
pub fn forced_cheese(spare_x: u32, spare_y: u32) -> (cheese: Cheese)
    ensures
        cheese.wf(),
        cheese@ == spec_forced_cheese(spare_x, spare_y),
{
    let x = scale(spare_x, PLAY_AREA);
    let y = scale(spare_y, PLAY_AREA);
    Cheese::new(x as i32, y as i32)
}

/// The exit of a new level.
pub fn place_exit(exit_left: bool, exit_height: u32) -> (exit: Exit)
    ensures
        exit.wf(),
        exit@ == spec_exit(exit_left, exit_height),
{
    let mut exit = Exit::new(1000, 1000);
    let y: i32 = EXIT_LOWEST + scale(exit_height, EXIT_SPAN) as i32;
    if exit_left {
        exit.place(0, y, Direction::LEFT);
    } else {
        exit.place(EXIT_RIGHT, y, Direction::RIGHT);
    }
    exit
}

/// The grid yields at most one cheese per cell.
pub proof fn lemma_grid_cheeses_len(cells: Seq<CellDraw>, cheese_rate: u32, count: int)
    requires
        0 <= count,
    ensures
        grid_cheeses(cells, cheese_rate, count).len() <= count,
    decreases count,
{
    if count > 0 {
        lemma_grid_cheeses_len(cells, cheese_rate, count - 1);
    }
}

/// Every cheese of the grid lies, fresh, at the corner of a cell that yields
/// a cheese.
pub proof fn lemma_grid_cheese_origin(cells: Seq<CellDraw>, cheese_rate: u32, count: int, i: int)
    requires
        0 <= i < grid_cheeses(cells, cheese_rate, count).len(),
    ensures
        exists|k: int|
            0 <= k < count && #[trigger] yields_cheese(cells, cheese_rate, k) && grid_cheeses(
                cells,
                cheese_rate,
                count,
            )[i] == fresh_cheese(spec_cell_position(k)),
    decreases count,
{
    if count > 0 {
        let rest = grid_cheeses(cells, cheese_rate, count - 1);
        if i < rest.len() {
            lemma_grid_cheese_origin(cells, cheese_rate, count - 1, i);
        }
    }
}

/// Every spider of the grid stands, fresh, at the corner of a cell that
/// yields a spider.
pub proof fn lemma_grid_spider_origin(
    cells: Seq<CellDraw>,
    anchor: Vector2,
    enemy_rate: u32,
    cheese_rate: u32,
    count: int,
    j: int,
)
    requires
        0 <= j < grid_spiders(cells, anchor, enemy_rate, cheese_rate, count).len(),
    ensures
        exists|k: int|
            0 <= k < count && #[trigger] yields_spider(cells, anchor, enemy_rate, cheese_rate, k) && grid_spiders(
                cells,
                anchor,
                enemy_rate,
                cheese_rate,
                count,
            )[j] == fresh_spider(spec_cell_position(k)),
    decreases count,
{
    if count > 0 {
        let rest = grid_spiders(cells, anchor, enemy_rate, cheese_rate, count - 1);
        if j < rest.len() {
            lemma_grid_spider_origin(cells, anchor, enemy_rate, cheese_rate, count - 1, j);
        }
    }
}

/// Two cells of the grid with the same corner are the same cell.
pub proof fn lemma_cells_apart(k: int, l: int)
    requires
        0 <= k < GRID_CELLS,
        0 <= l < GRID_CELLS,
        spec_cell_position(k) == spec_cell_position(l),
    ensures
        k == l,
{
}

/// No cell yields both a cheese and a spider, so no cheese of the grid lies
/// where a spider of the grid stands.
pub proof fn lemma_spawn_exclusive(
    cells: Seq<CellDraw>,
    anchor: Vector2,
    enemy_rate: u32,
    cheese_rate: u32,
    i: int,
    j: int,
)
    requires
        0 <= i < grid_cheeses(cells, cheese_rate, GRID_CELLS as int).len(),
        0 <= j < grid_spiders(cells, anchor, enemy_rate, cheese_rate, GRID_CELLS as int).len(),
    ensures
        forall|k: int|
            !(yields_cheese(cells, cheese_rate, k) && yields_spider(cells, anchor, enemy_rate, cheese_rate, k)),
        grid_cheeses(cells, cheese_rate, GRID_CELLS as int)[i].pos != grid_spiders(
            cells,
            anchor,
            enemy_rate,
            cheese_rate,
            GRID_CELLS as int,
        )[j].pos,
{
    lemma_grid_cheese_origin(cells, cheese_rate, GRID_CELLS as int, i);
    lemma_grid_spider_origin(cells, anchor, enemy_rate, cheese_rate, GRID_CELLS as int, j);
    let k = choose|k: int|
        0 <= k < GRID_CELLS && #[trigger] yields_cheese(cells, cheese_rate, k) && grid_cheeses(
            cells,
            cheese_rate,
            GRID_CELLS as int,
        )[i] == fresh_cheese(spec_cell_position(k));
    let l = choose|l: int|
        0 <= l < GRID_CELLS && #[trigger] yields_spider(cells, anchor, enemy_rate, cheese_rate, l) && grid_spiders(
            cells,
            anchor,
            enemy_rate,
            cheese_rate,
            GRID_CELLS as int,
        )[j] == fresh_spider(spec_cell_position(l));
    if spec_cell_position(k) == spec_cell_position(l) {
        lemma_cells_apart(k, l);
    }
}

/// Every spider of the grid is there, stands more than `SPAWN_DISTANCE` from
/// the player, and stands inside the arena.
pub proof fn lemma_spawn_distance(cells: Seq<CellDraw>, anchor: Vector2, enemy_rate: u32, cheese_rate: u32, j: int)
    requires
        0 <= j < grid_spiders(cells, anchor, enemy_rate, cheese_rate, GRID_CELLS as int).len(),
    ensures
        spec_distance_squared(
            grid_spiders(cells, anchor, enemy_rate, cheese_rate, GRID_CELLS as int)[j].pos,
            anchor,
        ) > SPAWN_DISTANCE * SPAWN_DISTANCE,
        grid_spiders(cells, anchor, enemy_rate, cheese_rate, GRID_CELLS as int)[j].in_arena(),
        grid_spiders(cells, anchor, enemy_rate, cheese_rate, GRID_CELLS as int)[j].available,
{
    lemma_grid_spider_origin(cells, anchor, enemy_rate, cheese_rate, GRID_CELLS as int, j);
}

/// No cheese of a list of fresh cheeses counts as taken.
pub proof fn lemma_none_taken(cheeses: Seq<CheeseView>)
    requires
        forall|i: int| 0 <= i < cheeses.len() ==> (#[trigger] cheeses[i]).available,
    ensures
        spec_taken(cheeses) == 0,
    decreases cheeses.len(),
{
    if cheeses.len() > 0 {
        lemma_none_taken(cheeses.drop_last());
    }
}

/// Whatever the draws, the new level is sound: it has at least one cheese
/// and at most one per cell, counts all of them in `max_points`, has no
/// cheese taken and no point scored, and its exit is closed.
pub proof fn lemma_generated_level(anchor: Vector2, enemy_rate: u32, cheese_rate: u32, draws: DrawsView)
    ensures
        spec_generate(anchor, enemy_rate, cheese_rate, draws).wf(),
        1 <= spec_generate(anchor, enemy_rate, cheese_rate, draws).cheeses.len() <= GRID_CELLS,
        spec_generate(anchor, enemy_rate, cheese_rate, draws).max_points == spec_generate(
            anchor,
            enemy_rate,
            cheese_rate,
            draws,
        ).cheeses.len(),
        spec_generate(anchor, enemy_rate, cheese_rate, draws).points == 0,
        !spec_generate(anchor, enemy_rate, cheese_rate, draws).exit.available,
        forall|i: int|
            0 <= i < spec_generate(anchor, enemy_rate, cheese_rate, draws).cheeses.len() ==> (#[trigger] spec_generate(
                anchor,
                enemy_rate,
                cheese_rate,
                draws,
            ).cheeses[i]).available,
{
    let level = spec_generate(anchor, enemy_rate, cheese_rate, draws);
    lemma_grid_cheeses_len(draws.cells, cheese_rate, GRID_CELLS as int);
    assert forall|i: int| 0 <= i < level.cheeses.len() implies (#[trigger] level.cheeses[i]).available by {
        if grid_cheeses(draws.cells, cheese_rate, GRID_CELLS as int).len() > 0 {
            lemma_grid_cheese_origin(draws.cells, cheese_rate, GRID_CELLS as int, i);
        }
    }
    lemma_none_taken(level.cheeses);
}

/// Every spider of a new level stands more than `SPAWN_DISTANCE` from the
/// player and inside the arena, and none stands where a cheese of the grid
/// lies.
pub proof fn lemma_generated_spiders(anchor: Vector2, enemy_rate: u32, cheese_rate: u32, draws: DrawsView)
    ensures
        spec_generate(anchor, enemy_rate, cheese_rate, draws).spiders_in_arena(),
        forall|j: int|
            0 <= j < spec_generate(anchor, enemy_rate, cheese_rate, draws).spiders.len() ==> spec_distance_squared(
                (#[trigger] spec_generate(anchor, enemy_rate, cheese_rate, draws).spiders[j]).pos,
                anchor,
            ) > SPAWN_DISTANCE * SPAWN_DISTANCE,
        forall|i: int, j: int|
            0 <= i < grid_cheeses(draws.cells, cheese_rate, GRID_CELLS as int).len() && 0 <= j < spec_generate(
                anchor,
                enemy_rate,
                cheese_rate,
                draws,
            ).spiders.len() ==> (#[trigger] grid_cheeses(draws.cells, cheese_rate, GRID_CELLS as int)[i]).pos
                != (#[trigger] spec_generate(anchor, enemy_rate, cheese_rate, draws).spiders[j]).pos,
{
    let level = spec_generate(anchor, enemy_rate, cheese_rate, draws);
    let grid = grid_cheeses(draws.cells, cheese_rate, GRID_CELLS as int);
    assert forall|j: int| 0 <= j < level.spiders.len() implies (#[trigger] level.spiders[j]).in_arena()
        && spec_distance_squared(level.spiders[j].pos, anchor) > SPAWN_DISTANCE * SPAWN_DISTANCE by {
        lemma_spawn_distance(draws.cells, anchor, enemy_rate, cheese_rate, j);
    }
    assert forall|i: int, j: int| 0 <= i < grid.len() && 0 <= j < level.spiders.len() implies (#[trigger] grid[i]).pos
        != (#[trigger] level.spiders[j]).pos by {
        lemma_spawn_exclusive(draws.cells, anchor, enemy_rate, cheese_rate, i, j);
    }
}

/// At a cheese rate of `RATE_ONE` or more every draw is met: whatever the
/// draws, the grid yields a cheese in every cell, in the order of the cells,
/// and no spider.
pub proof fn lemma_full_rate(cells: Seq<CellDraw>, anchor: Vector2, enemy_rate: u32, cheese_rate: u32, count: int)
    requires
        cheese_rate >= RATE_ONE,
        0 <= count,
    ensures
        grid_cheeses(cells, cheese_rate, count).len() == count,
        forall|k: int|
            0 <= k < count ==> #[trigger] grid_cheeses(cells, cheese_rate, count)[k] == fresh_cheese(
                spec_cell_position(k),
            ),
        grid_spiders(cells, anchor, enemy_rate, cheese_rate, count).len() == 0,
    decreases count,
{
    if count > 0 {
        lemma_full_rate(cells, anchor, enemy_rate, cheese_rate, count - 1);
    }
}

} // verus!
