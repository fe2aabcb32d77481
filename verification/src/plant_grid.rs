//! The plant grid: a density per cell, and the rule by which plants regrow.

use vstd::prelude::*;
use vstd::arithmetic::div_mod::lemma_fundamental_div_mod_converse;
use crate::fixed::Fixed;
use crate::fixed::ONE;
use crate::rng::advanced;
use crate::rng::draw_unit;
use crate::rng::pcg32_words;
use crate::rng::unit_of;
use crate::util::Size2i;
use crate::util::Vec2i;

verus! {

/// A uniform draw above this raw value (the one next to 0.995) sows a plant.
pub const GENERATE_DENSITY_THRESHOLD: i64 = 16_693_330;

/// The number of times that plants regrow when a grid is generated.
pub const GENERATE_REGENERATE: u32 = 100;

/// The time between two regrowths: ten seconds.
pub const REGENERATE_INTERVAL: i64 = 167_772_160;

/// A cell grows where the densities of its eight neighbours sum to more.
pub const REGENERATE_NEIGHBOR_THRESHOLD: u32 = 100;

/// A cell that grows gains less than this much density at a time.
pub const REGENERATE_INCREMENT_MAX: i64 = 3;

/// Regrowth aims at this density per cell, taken over the whole grid.
pub const TARGET_DENSITY_PER_CELL: u128 = 5;

/// The most growing passes that one regrowth makes.
pub const REGENERATE_MAX_PASSES: u32 = 10_000;

/// A grid of plant densities, row by row, with the time that has passed
/// since plants last regrew.
#[derive(Clone, Debug)]
pub struct PlantGrid {
    pub densities: Vec<u8>,
    pub size: Size2i,
    pub time_since_regenerate: Fixed,
}

/// What a plant grid is, mathematically.
pub struct PlantGridView {
    pub cells: Seq<u8>,
    pub size: Size2i,
    pub time_since_regenerate: int,
}

impl View for PlantGrid {
    type V = PlantGridView;

    open spec fn view(&self) -> PlantGridView {
        PlantGridView {
            cells: self.densities@,
            size: self.size,
            time_since_regenerate: self.time_since_regenerate as int,
        }
    }
}

/// Whether `pos` is a cell of a grid of this size.
pub open spec fn in_bounds(size: Size2i, pos: Vec2i) -> bool {
    0 <= pos.x < size.w && 0 <= pos.y < size.h
}

/// Where the cell in column `x` of row `y` stands in the row-by-row order.
pub open spec fn cell_index(size: Size2i, x: int, y: int) -> int {
    y * size.w + x
}

/// The density at `pos`; outside the grid there are no plants.
pub open spec fn density_at(cells: Seq<u8>, size: Size2i, pos: Vec2i) -> u8 {
    if in_bounds(size, pos) {
        cells[cell_index(size, pos.x as int, pos.y as int)]
    } else {
        0
    }
}

/// The cells of a row lie inside the grid's cells.
pub proof fn lemma_cell_index_in_range(size: Size2i, x: int, y: int)
    requires
        0 <= x < size.w,
        0 <= y < size.h,
    ensures
        0 <= cell_index(size, x, y) < size.w * size.h,
{
    let w = size.w as int;
    let h = size.h as int;
    assert(0 <= y * w && y * w + w <= h * w && h * w == w * h) by (nonlinear_arith)
        requires
            0 <= y < h,
            0 <= w,
    ;
}

/// The row at which a walk over the inner rows ends: the last row of the
/// grid, which is border, or the first row where the grid has no inner rows.
pub open spec fn row_end(size: Size2i) -> int {
    if size.h >= 2 {
        size.h - 1
    } else {
        1
    }
}

/// The column at which a walk over the inner columns of a row ends.
pub open spec fn col_end(size: Size2i) -> int {
    if size.w >= 2 {
        size.w - 1
    } else {
        1
    }
}

/// Whether the cell in column `x` of row `y` is off the border of the grid.
pub open spec fn is_inner(size: Size2i, x: int, y: int) -> bool {
    1 <= x < col_end(size) && 1 <= y < row_end(size)
}

/// The density that a draw above the threshold sows: the part of the draw
/// above the threshold, stretched over the densities below 255.
pub open spec fn sown_density(unit: int) -> u8 {
    (((unit - GENERATE_DENSITY_THRESHOLD) * 255) / (ONE - GENERATE_DENSITY_THRESHOLD)) as u8
}

/// Sowing at one cell: one draw, and a plant where the draw is above the
/// threshold.
pub open spec fn sow_cell(state: (Seq<u8>, (u64, u64)), size: Size2i, x: int, y: int) -> (
    Seq<u8>,
    (u64, u64),
) {
    let unit = unit_of(state.1);
    let cells = if unit > GENERATE_DENSITY_THRESHOLD {
        state.0.update(cell_index(size, x, y), sown_density(unit))
    } else {
        state.0
    };
    (cells, advanced(state.1))
}

/// The cells and the generator once sowing, which walks the inner cells row
/// by row, has dealt with every inner cell before column `col` of row `row`.
pub open spec fn sown_upto(cells: Seq<u8>, words: (u64, u64), size: Size2i, row: int, col: int) -> (
    Seq<u8>,
    (u64, u64),
)
    decreases row, col,
{
    if row < 1 {
        (cells, words)
    } else if col > 1 {
        sow_cell(sown_upto(cells, words, size, row, col - 1), size, col - 1, row)
    } else {
        sown_upto(cells, words, size, row - 1, col_end(size))
    }
}

/// The cells and the generator once every inner cell has been sown.
pub open spec fn sown(cells: Seq<u8>, words: (u64, u64), size: Size2i) -> (Seq<u8>, (u64, u64)) {
    sown_upto(cells, words, size, row_end(size), 1)
}

/// The sum of the densities of the eight neighbours of an inner cell.
pub open spec fn neighbor_total(cells: Seq<u8>, size: Size2i, x: int, y: int) -> int {
    cells[cell_index(size, x + 1, y)] + cells[cell_index(size, x + 1, y + 1)] + cells[cell_index(
        size,
        x,
        y + 1,
    )] + cells[cell_index(size, x - 1, y + 1)] + cells[cell_index(size, x - 1, y)]
        + cells[cell_index(size, x - 1, y - 1)] + cells[cell_index(size, x, y - 1)]
        + cells[cell_index(size, x + 1, y - 1)]
}

/// The density of a growing cell after one draw: up by the whole part of
/// the draw stretched to the largest gain, and never above 255.
pub open spec fn grown_density(density: u8, unit: int) -> u8 {
    let grown = density + (REGENERATE_INCREMENT_MAX * unit) / (ONE as int);
    if grown > 255 {
        255u8
    } else {
        grown as u8
    }
}

/// What one pass over the inner cells has seen and done so far.
pub struct Pass {
    /// The densities as the pass has left them.
    pub cells: Seq<u8>,
    /// The generator as the pass has left it.
    pub words: (u64, u64),
    /// The sum of the densities of the inner cells dealt with.
    pub total: int,
    /// Whether one of them had neighbours enough to grow and was not full.
    pub room: bool,
}

/// A pass at one inner cell. The neighbours are read as the pass has left
/// them. Only a growing pass draws, and only at a cell whose neighbours sum
/// to more than the threshold.
pub open spec fn pass_cell(state: Pass, size: Size2i, growing: bool, x: int, y: int) -> Pass {
    let index = cell_index(size, x, y);
    let density = state.cells[index];
    let fed = neighbor_total(state.cells, size, x, y) > REGENERATE_NEIGHBOR_THRESHOLD;
    let room = state.room || (fed && density < 255);
    if growing && fed {
        let grown = grown_density(density, unit_of(state.words));
        Pass {
            cells: state.cells.update(index, grown),
            words: advanced(state.words),
            total: state.total + grown,
            room,
        }
    } else {
        Pass { total: state.total + density, room, ..state }
    }
}

/// A pass once it has dealt with every inner cell before column `col` of
/// row `row`, row by row.
pub open spec fn pass_upto(start: Pass, size: Size2i, growing: bool, row: int, col: int) -> Pass
    decreases row, col,
{
    if row < 1 {
        start
    } else if col > 1 {
        pass_cell(pass_upto(start, size, growing, row, col - 1), size, growing, col - 1, row)
    } else {
        pass_upto(start, size, growing, row - 1, col_end(size))
    }
}

/// One whole pass over the inner cells.
pub open spec fn pass(cells: Seq<u8>, words: (u64, u64), size: Size2i, growing: bool) -> Pass {
    pass_upto(
        Pass { cells, words, total: 0, room: false },
        size,
        growing,
        row_end(size),
        1,
    )
}

/// The total density at which regrowth stops.
pub open spec fn target_total(size: Size2i) -> int {
    size.w * size.h * TARGET_DENSITY_PER_CELL
}

/// Whether regrowth goes on after a pass: the target is not reached, some
/// cell can still grow, and passes are left.
pub open spec fn grows_on(last: Pass, size: Size2i, passes_left: nat) -> bool {
    last.total < target_total(size) && last.room && passes_left > 0
}

/// Growing passes, one after another, until regrowth stops.
pub open spec fn regrown(last: Pass, size: Size2i, passes_left: nat) -> (Seq<u8>, (u64, u64))
    decreases passes_left,
{
    if grows_on(last, size, passes_left) {
        regrown(pass(last.cells, last.words, size, true), size, (passes_left - 1) as nat)
    } else {
        (last.cells, last.words)
    }
}

/// One regrowth: a pass that only measures, then growing passes until the
/// inner cells hold the target total, no cell can grow, or
/// `REGENERATE_MAX_PASSES` growing passes are done.
pub open spec fn regenerated(cells: Seq<u8>, words: (u64, u64), size: Size2i) -> (
    Seq<u8>,
    (u64, u64),
) {
    regrown(pass(cells, words, size, false), size, REGENERATE_MAX_PASSES as nat)
}

/// `count` regrowths in a row.
pub open spec fn regenerated_times(cells: Seq<u8>, words: (u64, u64), size: Size2i, count: nat) -> (
    Seq<u8>,
    (u64, u64),
)
    decreases count,
{
    if count == 0 {
        (cells, words)
    } else {
        let before = regenerated_times(cells, words, size, (count - 1) as nat);
        regenerated(before.0, before.1, size)
    }
}

/// A generated grid: every inner cell sown, then `GENERATE_REGENERATE`
/// regrowths.
pub open spec fn generated(cells: Seq<u8>, words: (u64, u64), size: Size2i) -> (
    Seq<u8>,
    (u64, u64),
) {
    let start = sown(cells, words, size);
    regenerated_times(start.0, start.1, size, GENERATE_REGENERATE as nat)
}

/// The number of regrowths that fall due when the time since the last one
/// has come to `elapsed`.
pub open spec fn regrowths_due(elapsed: int) -> nat {
    if elapsed <= 0 {
        0
    } else {
        ((elapsed - 1) / (REGENERATE_INTERVAL as int)) as nat
    }
}

/// The count of whole intervals taken off `elapsed`, the last of which left
/// more than nothing, is the number of regrowths due.
pub proof fn lemma_regrowths_due(elapsed: int, count: nat, left: int)
    requires
        left == elapsed - count * REGENERATE_INTERVAL,
        left <= REGENERATE_INTERVAL,
        left > 0 || count == 0,
    ensures
        count == regrowths_due(elapsed),
{
    let interval = REGENERATE_INTERVAL as int;
    if elapsed > 0 {
        if count == 0 {
            lemma_fundamental_div_mod_converse(elapsed - 1, interval, 0, elapsed - 1);
        } else {
            assert(elapsed - 1 == count * interval + (left - 1));
            lemma_fundamental_div_mod_converse(elapsed - 1, interval, count as int, left - 1);
        }
    } else if count >= 1 {
        assert(count * interval >= interval) by (nonlinear_arith)
            requires
                count >= 1,
                interval > 0,
        ;
    }
}

/// The density that a draw above the threshold sows.
fn sow(unit: Fixed) -> (density: u8)
    requires
        GENERATE_DENSITY_THRESHOLD < unit < ONE,
    ensures
        density == sown_density(unit as int),
{
    let above: i64 = (unit - GENERATE_DENSITY_THRESHOLD) * 255;
    (above / (ONE - GENERATE_DENSITY_THRESHOLD)) as u8
}

/// The density of a growing cell after one draw.
fn grow(density: u8, unit: Fixed) -> (grown: u8)
    requires
        0 <= unit < ONE,
    ensures
        grown == grown_density(density, unit as int),
        density <= grown,
{
    let gain: i64 = (REGENERATE_INCREMENT_MAX * unit) / ONE;
    let grown: i64 = density as i64 + gain;
    if grown > 255 {
        255
    } else {
        grown as u8
    }
}

impl PlantGridView {
    /// A grid holds one density for each of its cells.
    pub open spec fn wf(self) -> bool {
        self.cells.len() == self.size.w * self.size.h
    }

    /// The density at `pos`; outside the grid there are no plants.
    pub open spec fn density(self, pos: Vec2i) -> u8 {
        density_at(self.cells, self.size, pos)
    }
}

impl PlantGrid {
    /// A grid holds one density for each of its cells.
    pub open spec fn wf(&self) -> bool {
        self@.wf()
    }

    /// A grid of the given size without plants.
    pub fn new(size: Size2i) -> (grid: PlantGrid)
        requires
            size.w * size.h <= usize::MAX,
        ensures
            grid.wf(),
            grid@.size == size,
            grid@.time_since_regenerate == 0,
            grid@.cells == Seq::new((size.w * size.h) as nat, |i: int| 0u8),
    {
        proof {
            assert(0 <= size.w * size.h) by (nonlinear_arith);
        }
        let count: usize = size.w as usize * size.h as usize;
        let grid = PlantGrid { densities: vec![0u8; count], size, time_since_regenerate: 0 };
        assert(grid@.cells =~= Seq::new((size.w * size.h) as nat, |i: int| 0u8));
        grid
    }

    /// Where the cell in column `x` of row `y` stands among the densities.
    pub fn index_of(&self, x: u32, y: u32) -> (index: usize)
        requires
            self.wf(),
            x < self.size.w,
            y < self.size.h,
        ensures
            index == cell_index(self.size, x as int, y as int),
            index < self.densities.len(),
    {
        proof {
            lemma_cell_index_in_range(self.size, x as int, y as int);
            assert(0 <= y * self.size.w) by (nonlinear_arith);
            assert(self.densities.len() <= usize::MAX);
        }
        y as usize * self.size.w as usize + x as usize
    }

    /// The sum of the densities of the eight neighbours of an inner cell.
    fn neighbors(&self, x: u32, y: u32) -> (sum: u32)
        requires
            self.wf(),
            is_inner(self.size, x as int, y as int),
        ensures
            sum == neighbor_total(self.densities@, self.size, x as int, y as int),
    {
        let mut sum: u32 = 0;
        sum += self.densities[self.index_of(x + 1, y)] as u32;
        sum += self.densities[self.index_of(x + 1, y + 1)] as u32;
        sum += self.densities[self.index_of(x, y + 1)] as u32;
        sum += self.densities[self.index_of(x - 1, y + 1)] as u32;
        sum += self.densities[self.index_of(x - 1, y)] as u32;
        sum += self.densities[self.index_of(x - 1, y - 1)] as u32;
        sum += self.densities[self.index_of(x, y - 1)] as u32;
        sum += self.densities[self.index_of(x + 1, y - 1)] as u32;
        sum
    }

    /// One pass over the inner cells, row by row: sums their densities and
    /// notes whether any of them could grow. A growing pass also lets each
    /// cell grow whose neighbours, as the pass has left them, sum to more
    /// than the threshold. Returns the sum and whether a cell could grow.
    fn run_pass(&mut self, growing: bool, rng: &mut rand_pcg::Lcg64Xsh32) -> (seen: (u128, bool))
        requires
            old(self).wf(),
        ensures
            final(self).wf(),
            final(self).size == old(self).size,
            final(self).time_since_regenerate == old(self).time_since_regenerate,
            (Pass {
                cells: final(self).densities@,
                words: pcg32_words(*final(rng)),
                total: seen.0 as int,
                room: seen.1,
            }) == pass(old(self).densities@, pcg32_words(*old(rng)), old(self).size, growing),
    {
        let ghost start = Pass {
            cells: self.densities@,
            words: pcg32_words(*rng),
            total: 0,
            room: false,
        };
        let ghost size = self.size;
        let ghost clock = self.time_since_regenerate;
        let width: u32 = self.size.w;
        let row_last: u32 = if self.size.h >= 2 {
            self.size.h - 1
        } else {
            1
        };
        let col_last: u32 = if width >= 2 {
            width - 1
        } else {
            1
        };
        let mut total: u128 = 0;
        let mut room: bool = false;
        let mut row: u32 = 1;
        assert(pass_upto(start, size, growing, 0, col_end(size)) == start);
        while row < row_last
            invariant
                1 <= row <= row_last,
                row_last == row_end(size),
                col_last == col_end(size),
                width == size.w,
                self.wf(),
                self.size == size,
                self.time_since_regenerate == clock,
                total <= 255 * ((row - 1) * width + 1),
                (Pass {
                    cells: self.densities@,
                    words: pcg32_words(*rng),
                    total: total as int,
                    room,
                }) == pass_upto(start, size, growing, row as int, 1),
            decreases row_last - row,
        {
            let mut col: u32 = 1;
            while col < col_last
                invariant
                    1 <= row < row_last,
                    1 <= col <= col_last,
                    row_last == row_end(size),
                    col_last == col_end(size),
                    width == size.w,
                    self.wf(),
                    self.size == size,
                    self.time_since_regenerate == clock,
                    total <= 255 * ((row - 1) * width + col),
                    (Pass {
                        cells: self.densities@,
                        words: pcg32_words(*rng),
                        total: total as int,
                        room,
                    }) == pass_upto(start, size, growing, row as int, col as int),
                decreases col_last - col,
            {
                proof {
                    let w = size.w as int;
                    let h = size.h as int;
                    assert((row - 1) * w + col <= h * w && 0 <= (row - 1) * w) by (nonlinear_arith)
                        requires
                            1 <= row < h - 1,
                            1 <= col < w - 1,
                    ;
                    assert(h * w == w * h) by (nonlinear_arith);
                    assert(self.densities.len() <= usize::MAX);
                }
                let fed: bool = self.neighbors(col, row) > REGENERATE_NEIGHBOR_THRESHOLD;
                let index: usize = self.index_of(col, row);
                let density: u8 = self.densities[index];
                if fed && density < 255 {
                    room = true;
                }
                if growing && fed {
                    let unit: i64 = draw_unit(rng);
                    let grown: u8 = grow(density, unit);
                    self.densities[index] = grown;
                    total += grown as u128;
                } else {
                    total += density as u128;
                }
                col += 1;
            }
            proof {
                let w = size.w as int;
                assert((row - 1) * w + col <= row * w + 1) by (nonlinear_arith)
                    requires
                        col <= w + 1,
                ;
            }
            row += 1;
        }
        (total, room)
    }

    /// Lets the plants regrow: a pass that only measures, then growing
    /// passes until the inner cells hold the target total, no cell can
    /// grow, or `REGENERATE_MAX_PASSES` growing passes are done.
    pub fn regenerate(&mut self, rng: &mut rand_pcg::Lcg64Xsh32)
        requires
            old(self).wf(),
        ensures
            final(self).wf(),
            final(self).size == old(self).size,
            final(self).time_since_regenerate == old(self).time_since_regenerate,
            (final(self).densities@, pcg32_words(*final(rng))) == regenerated(
                old(self).densities@,
                pcg32_words(*old(rng)),
                old(self).size,
            ),
    {
        let ghost size = self.size;
        let ghost clock = self.time_since_regenerate;
        let ghost goal = regenerated(self.densities@, pcg32_words(*rng), self.size);
        proof {
            let w = self.size.w as int;
            let h = self.size.h as int;
            assert(0 <= w * h <= 0x1_0000_0000 * 0x1_0000_0000) by (nonlinear_arith)
                requires
                    0 <= w < 0x1_0000_0000,
                    0 <= h < 0x1_0000_0000,
            ;
        }
        let target: u128 = self.size.w as u128 * self.size.h as u128 * TARGET_DENSITY_PER_CELL;
        let mut seen: (u128, bool) = self.run_pass(false, rng);
        let mut passes: u32 = 0;
        while seen.0 < target && seen.1 && passes < REGENERATE_MAX_PASSES
            invariant
                passes <= REGENERATE_MAX_PASSES,
                target == target_total(size),
                self.wf(),
                self.size == size,
                self.time_since_regenerate == clock,
                goal == regrown(
                    Pass {
                        cells: self.densities@,
                        words: pcg32_words(*rng),
                        total: seen.0 as int,
                        room: seen.1,
                    },
                    size,
                    (REGENERATE_MAX_PASSES - passes) as nat,
                ),
            decreases REGENERATE_MAX_PASSES - passes,
        {
            seen = self.run_pass(true, rng);
            passes += 1;
        }
    }

    /// Fills a fresh grid with plants: every inner cell is sown with one
    /// draw, in row order, and then the plants regrow
    /// `GENERATE_REGENERATE` times.
    pub fn generate(&mut self, rng: &mut rand_pcg::Lcg64Xsh32)
        requires
            old(self).wf(),
        ensures
            final(self).wf(),
            final(self).size == old(self).size,
            final(self).time_since_regenerate == old(self).time_since_regenerate,
            (final(self).densities@, pcg32_words(*final(rng))) == generated(
                old(self).densities@,
                pcg32_words(*old(rng)),
                old(self).size,
            ),
    {
        let ghost cells = self.densities@;
        let ghost words = pcg32_words(*rng);
        let ghost size = self.size;
        let ghost clock = self.time_since_regenerate;
        let row_last: u32 = if self.size.h >= 2 {
            self.size.h - 1
        } else {
            1
        };
        let col_last: u32 = if self.size.w >= 2 {
            self.size.w - 1
        } else {
            1
        };
        let mut row: u32 = 1;
        assert(sown_upto(cells, words, size, 0, col_end(size)) == (cells, words));
        while row < row_last
            invariant
                1 <= row <= row_last,
                row_last == row_end(size),
                col_last == col_end(size),
                self.wf(),
                self.size == size,
                self.time_since_regenerate == clock,
                (self.densities@, pcg32_words(*rng)) == sown_upto(cells, words, size, row as int, 1),
            decreases row_last - row,
        {
            let mut col: u32 = 1;
            while col < col_last
                invariant
                    1 <= row < row_last,
                    1 <= col <= col_last,
                    row_last == row_end(size),
                    col_last == col_end(size),
                    self.wf(),
                    self.size == size,
                    self.time_since_regenerate == clock,
                    (self.densities@, pcg32_words(*rng)) == sown_upto(
                        cells,
                        words,
                        size,
                        row as int,
                        col as int,
                    ),
                decreases col_last - col,
            {
                let unit: i64 = draw_unit(rng);
                if unit > GENERATE_DENSITY_THRESHOLD {
                    let index: usize = self.index_of(col, row);
                    self.densities[index] = sow(unit);
                }
                col += 1;
            }
            row += 1;
        }
        let ghost start = (self.densities@, pcg32_words(*rng));
        let mut count: u32 = 0;
        while count < GENERATE_REGENERATE
            invariant
                count <= GENERATE_REGENERATE,
                self.wf(),
                self.size == size,
                self.time_since_regenerate == clock,
                (self.densities@, pcg32_words(*rng)) == regenerated_times(
                    start.0,
                    start.1,
                    size,
                    count as nat,
                ),
            decreases GENERATE_REGENERATE - count,
        {
            self.regenerate(rng);
            count += 1;
        }
    }

    /// Lets `d_time` pass: the plants regrow once for each whole interval
    /// that has built up, and what is left over is kept for the next call.
    pub fn tick(&mut self, d_time: Fixed, rng: &mut rand_pcg::Lcg64Xsh32)
        requires
            old(self).wf(),
            d_time >= 0,
        ensures
            final(self).wf(),
            final(self).size == old(self).size,
            (final(self).densities@, pcg32_words(*final(rng))) == regenerated_times(
                old(self).densities@,
                pcg32_words(*old(rng)),
                old(self).size,
                regrowths_due(old(self).time_since_regenerate + d_time),
            ),
            final(self).time_since_regenerate == old(self).time_since_regenerate + d_time
                - regrowths_due(old(self).time_since_regenerate + d_time) * REGENERATE_INTERVAL,
    {
        let ghost cells = self.densities@;
        let ghost words = pcg32_words(*rng);
        let ghost size = self.size;
        let elapsed: i128 = self.time_since_regenerate as i128 + d_time as i128;
        let mut left: i128 = elapsed;
        let ghost mut count: nat = 0;
        while left > REGENERATE_INTERVAL as i128
            invariant
                self.wf(),
                self.size == size,
                left == elapsed - count * REGENERATE_INTERVAL,
                left > 0 || count == 0,
                i64::MIN <= left,
                elapsed <= 2 * i64::MAX,
                (self.densities@, pcg32_words(*rng)) == regenerated_times(cells, words, size, count),
            decreases left,
        {
            self.regenerate(rng);
            left = left - REGENERATE_INTERVAL as i128;
            proof {
                count = count + 1;
            }
        }
        proof {
            lemma_regrowths_due(elapsed as int, count, left as int);
        }
        self.time_since_regenerate = left as i64;
    }

    /// The density at `pos`, and 0 for any place outside the grid.
    pub fn get_density(&self, pos: Vec2i) -> (density: u8)
        requires
            self.wf(),
        ensures
            density == self@.density(pos),
            !in_bounds(self.size, pos) ==> density == 0,
    {
        if pos.x < 0 || pos.y < 0 || pos.x as u32 >= self.size.w || pos.y as u32 >= self.size.h {
            0
        } else {
            self.get_density_unchecked(pos)
        }
    }

    /// The density at a cell of the grid, without the test that `pos` is one.
    pub fn get_density_unchecked(&self, pos: Vec2i) -> (density: u8)
        requires
            self.wf(),
            in_bounds(self.size, pos),
        ensures
            density == self@.density(pos),
    {
        let index: usize = self.index_of(pos.x as u32, pos.y as u32);
        self.densities[index]
    }

    /// Writes the density of one cell of the grid.
    pub fn set_density(&mut self, pos: Vec2i, density: u8)
        requires
            old(self).wf(),
            in_bounds(old(self).size, pos),
        ensures
            final(self).wf(),
            final(self)@ == (PlantGridView {
                cells: old(self)@.cells.update(
                    cell_index(old(self).size, pos.x as int, pos.y as int),
                    density,
                ),
                ..old(self)@
            }),
    {
        let index: usize = self.index_of(pos.x as u32, pos.y as u32);
        self.densities[index] = density;
    }
}

} // verus!
