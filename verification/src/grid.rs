use vstd::prelude::*;

use crate::geom::{rect_contains, rect_wf, rects_overlap, overlaps, Recti, Vec2i};
use crate::plants::{
    cell_advance, cell_harvest, cell_plant, cell_pull, cell_rect_for, cell_render_spec,
    cell_steal, cell_water, cell_wf, CellRender, CropGridCell, plant_type_wf, PlantType,
    CELL_DIM, HARVEST_POINTS,
};
use crate::units::{DT_MAX, QMAX};

verus! {

/// Number of rows of plantable cells.
pub const CROP_ROWS: usize = 5;

/// Number of plantable cells in each row.
pub const CROPS_PER_ROW: usize = 5;

/// Total number of cells in a grid.
pub const GRID_CELLS: usize = 25;

/// A fixed planting area: a centre, an extent, and a row-major sequence
/// of cells, one per equal partition of the area.
pub struct CropGrid {
    pub pos: Vec2i,
    pub w: i64,
    pub h: i64,
    pub crops: Vec<CropGridCell>,
}

/// The centre of the cell at the given row and column of a grid centred
/// at `(x, y)` with extent `(w, h)`: the centre of its partition.
pub open spec fn cell_pos_spec(x: int, y: int, w: int, h: int, row: int, col: int) -> Vec2i {
    Vec2i {
        x: (x - w / 2 + (w / (CROPS_PER_ROW as int)) * col + (w / (CROPS_PER_ROW as int)) / 2) as i64,
        y: (y - h / 2 + (h / (CROP_ROWS as int)) * row + (h / (CROP_ROWS as int)) / 2) as i64,
    }
}

/// A freshly made cell: dry and empty.
pub open spec fn fresh_cell(pos: Vec2i) -> CropGridCell {
    CropGridCell { pos, rect: cell_rect_for(pos), water_level: 0, plant: None }
}

/// The rectangle that bounds every cell rectangle of the grid: the
/// planting area grown by one cell square.
pub open spec fn grid_bound(g: CropGrid) -> Recti {
    Recti {
        x: (g.pos.x - g.w / 2 - CELL_DIM / 2) as i64,
        y: (g.pos.y - g.h / 2 - CELL_DIM / 2) as i64,
        w: (g.w + CELL_DIM) as i64,
        h: (g.h + CELL_DIM) as i64,
    }
}

pub open spec fn grid_wf(g: CropGrid) -> bool {
    &&& -QMAX <= g.pos.x <= QMAX
    &&& -QMAX <= g.pos.y <= QMAX
    &&& 0 <= g.w <= QMAX
    &&& 0 <= g.h <= QMAX
    &&& g.crops@.len() == GRID_CELLS
    &&& forall|i: int| 0 <= i < g.crops@.len() ==> cell_wf(#[trigger] g.crops@[i])
    &&& forall|i: int|
        0 <= i < g.crops@.len() ==> rect_contains(grid_bound(g), (#[trigger] g.crops@[i]).rect)
}

/// Index `i` holds the first cell whose rectangle meets the query.
pub open spec fn is_first_hit(g: CropGrid, query: Recti, i: int) -> bool {
    &&& 0 <= i < g.crops@.len()
    &&& rects_overlap(g.crops@[i].rect, query)
    &&& forall|j: int| 0 <= j < i ==> !rects_overlap((#[trigger] g.crops@[j]).rect, query)
}

/// No cell rectangle meets the query.
pub open spec fn no_hit(g: CropGrid, query: Recti) -> bool {
    forall|j: int| 0 <= j < g.crops@.len() ==> !rects_overlap((#[trigger] g.crops@[j]).rect, query)
}

/// Index `i` holds the first cell whose centre equals `check` exactly.
pub open spec fn is_first_pos_match(g: CropGrid, check: Vec2i, i: int) -> bool {
    &&& 0 <= i < g.crops@.len()
    &&& g.crops@[i].pos == check
    &&& forall|j: int| 0 <= j < i ==> (#[trigger] g.crops@[j]).pos != check
}

/// No cell centre equals `check`.
pub open spec fn no_pos_match(g: CropGrid, check: Vec2i) -> bool {
    forall|j: int| 0 <= j < g.crops@.len() ==> (#[trigger] g.crops@[j]).pos != check
}

/// The grid's fixed frame: everything but the cells' soil and plants.
pub open spec fn same_frame(a: CropGrid, b: CropGrid) -> bool {
    &&& a.pos == b.pos
    &&& a.w == b.w
    &&& a.h == b.h
    &&& a.crops@.len() == b.crops@.len()
}

/// The centre of every cell lies within the planting area, and so well
/// within the coordinate range cells accept.
pub proof fn lemma_cell_pos_in_area(x: int, y: int, w: int, h: int, k: int)
    requires
        -QMAX <= x <= QMAX,
        -QMAX <= y <= QMAX,
        0 <= w <= QMAX,
        0 <= h <= QMAX,
        0 <= k < GRID_CELLS,
    ensures
        x - w / 2 <= cell_pos_spec(x, y, w, h, k / (CROPS_PER_ROW as int), k % (CROPS_PER_ROW as int)).x
            <= x - w / 2 + w,
        y - h / 2 <= cell_pos_spec(x, y, w, h, k / (CROPS_PER_ROW as int), k % (CROPS_PER_ROW as int)).y
            <= y - h / 2 + h,
        -2 * QMAX <= cell_pos_spec(
            x,
            y,
            w,
            h,
            k / (CROPS_PER_ROW as int),
            k % (CROPS_PER_ROW as int),
        ).x <= 2 * QMAX,
        -2 * QMAX <= cell_pos_spec(
            x,
            y,
            w,
            h,
            k / (CROPS_PER_ROW as int),
            k % (CROPS_PER_ROW as int),
        ).y <= 2 * QMAX,
{
    let col = k % (CROPS_PER_ROW as int);
    let row = k / (CROPS_PER_ROW as int);
    let part_x = w / (CROPS_PER_ROW as int);
    let part_y = h / (CROP_ROWS as int);
    vstd::arithmetic::div_mod::lemma_mod_division_less_than_divisor(k, CROPS_PER_ROW as int);
    vstd::arithmetic::div_mod::lemma_div_pos_is_pos(k, CROPS_PER_ROW as int);
    vstd::arithmetic::div_mod::lemma_div_is_ordered(k, 24, CROPS_PER_ROW as int);
    vstd::arithmetic::div_mod::lemma_div_pos_is_pos(w, CROPS_PER_ROW as int);
    vstd::arithmetic::div_mod::lemma_div_pos_is_pos(h, CROP_ROWS as int);
    vstd::arithmetic::div_mod::lemma_div_pos_is_pos(w, 2);
    vstd::arithmetic::div_mod::lemma_div_pos_is_pos(h, 2);
    vstd::arithmetic::div_mod::lemma_div_nonincreasing(w, 2);
    vstd::arithmetic::div_mod::lemma_div_nonincreasing(h, 2);
    vstd::arithmetic::div_mod::lemma_div_pos_is_pos(part_x, 2);
    vstd::arithmetic::div_mod::lemma_div_pos_is_pos(part_y, 2);
    vstd::arithmetic::div_mod::lemma_div_nonincreasing(part_x, 2);
    vstd::arithmetic::div_mod::lemma_div_nonincreasing(part_y, 2);
    vstd::arithmetic::div_mod::lemma_fundamental_div_mod(w, CROPS_PER_ROW as int);
    vstd::arithmetic::div_mod::lemma_mod_division_less_than_divisor(w, CROPS_PER_ROW as int);
    vstd::arithmetic::div_mod::lemma_fundamental_div_mod(h, CROP_ROWS as int);
    vstd::arithmetic::div_mod::lemma_mod_division_less_than_divisor(h, CROP_ROWS as int);
    assert(0 <= part_x * col <= part_x * 4) by (nonlinear_arith)
        requires
            0 <= part_x,
            0 <= col <= 4,
    ;
    assert(0 <= part_y * row <= part_y * 4) by (nonlinear_arith)
        requires
            0 <= part_y,
            0 <= row <= 4,
    ;
    assert(part_x * 4 + part_x == part_x * 5) by (nonlinear_arith);
    assert(part_y * 4 + part_y == part_y * 5) by (nonlinear_arith);
    assert(part_x * 5 == 5 * part_x) by (nonlinear_arith);
    assert(part_y * 5 == 5 * part_y) by (nonlinear_arith);
}

impl CropGrid {
    /// Lays out `CROP_ROWS` by `CROPS_PER_ROW` cells, row-major, each at
    /// the centre of its equal partition of the `w` by `h` area around
    /// `(x, y)`.
    pub fn new(x: i64, y: i64, w: i64, h: i64) -> (g: CropGrid)
        requires
            -QMAX <= x <= QMAX,
            -QMAX <= y <= QMAX,
            0 <= w <= QMAX,
            0 <= h <= QMAX,
        ensures
            g.pos == (Vec2i { x, y }),
            g.w == w,
            g.h == h,
            grid_wf(g),
            forall|k: int|
                0 <= k < GRID_CELLS ==> #[trigger] g.crops@[k] == fresh_cell(
                    cell_pos_spec(
                        x as int,
                        y as int,
                        w as int,
                        h as int,
                        k / (CROPS_PER_ROW as int),
                        k % (CROPS_PER_ROW as int),
                    ),
                ),
    {
        let part_x = w / (CROPS_PER_ROW as i64);
        let part_y = h / (CROP_ROWS as i64);
        let x_init = x - w / 2;
        let y_init = y - h / 2;
        let x_pad = part_x / 2;
        let y_pad = part_y / 2;
        proof {
            vstd::arithmetic::div_mod::lemma_div_pos_is_pos(w as int, CROPS_PER_ROW as int);
            vstd::arithmetic::div_mod::lemma_div_nonincreasing(w as int, CROPS_PER_ROW as int);
            vstd::arithmetic::div_mod::lemma_div_pos_is_pos(h as int, CROP_ROWS as int);
            vstd::arithmetic::div_mod::lemma_div_nonincreasing(h as int, CROP_ROWS as int);
            vstd::arithmetic::div_mod::lemma_div_pos_is_pos(w as int, 2);
            vstd::arithmetic::div_mod::lemma_div_nonincreasing(w as int, 2);
            vstd::arithmetic::div_mod::lemma_div_pos_is_pos(h as int, 2);
            vstd::arithmetic::div_mod::lemma_div_nonincreasing(h as int, 2);
            vstd::arithmetic::div_mod::lemma_div_pos_is_pos(part_x as int, 2);
            vstd::arithmetic::div_mod::lemma_div_nonincreasing(part_x as int, 2);
            vstd::arithmetic::div_mod::lemma_div_pos_is_pos(part_y as int, 2);
            vstd::arithmetic::div_mod::lemma_div_nonincreasing(part_y as int, 2);
        }
        let mut crops: Vec<CropGridCell> = Vec::new();
        let mut idx: usize = 0;
        while idx < GRID_CELLS
            invariant
                -QMAX <= x <= QMAX,
                -QMAX <= y <= QMAX,
                0 <= w <= QMAX,
                0 <= h <= QMAX,
                part_x == w / (CROPS_PER_ROW as i64),
                part_y == h / (CROP_ROWS as i64),
                0 <= part_x <= w,
                0 <= part_y <= h,
                x_init == x - w / 2,
                y_init == y - h / 2,
                x_pad == part_x / 2,
                y_pad == part_y / 2,
                0 <= x_pad <= part_x,
                0 <= y_pad <= part_y,
                idx <= GRID_CELLS,
                crops@.len() == idx,
                forall|k: int|
                    0 <= k < idx ==> #[trigger] crops@[k] == fresh_cell(
                        cell_pos_spec(
                            x as int,
                            y as int,
                            w as int,
                            h as int,
                            k / (CROPS_PER_ROW as int),
                            k % (CROPS_PER_ROW as int),
                        ),
                    ),
            decreases GRID_CELLS - idx,
        {
            let row = idx / CROPS_PER_ROW;
            let col = idx % CROPS_PER_ROW;
            proof {
                lemma_cell_pos_in_area(x as int, y as int, w as int, h as int, idx as int);
                assert(0 <= part_x * (col as int) <= part_x * 4) by (nonlinear_arith)
                    requires
                        0 <= part_x,
                        0 <= col <= 4,
                ;
                assert(0 <= part_y * (row as int) <= part_y * 4) by (nonlinear_arith)
                    requires
                        0 <= part_y,
                        0 <= row <= 4,
                ;
            }
            let px = x_init + part_x * (col as i64) + x_pad;
            let py = y_init + part_y * (row as i64) + y_pad;
            let cell = CropGridCell::new(Vec2i { x: px, y: py });
            crops.push(cell);
            idx = idx + 1;
        }
        let g = CropGrid { pos: Vec2i { x, y }, w, h, crops };
        proof {
            assert forall|i: int| 0 <= i < g.crops@.len() implies cell_wf(#[trigger] g.crops@[i])
                && rect_contains(grid_bound(g), g.crops@[i].rect) by {
                lemma_cell_pos_in_area(x as int, y as int, w as int, h as int, i);
            }
        }
        g
    }

    /// Finds the first cell, in storage order, whose rectangle meets the
    /// query rectangle.
    pub fn check_for_intersect(&self, query: Recti) -> (r: Option<usize>)
        requires
            grid_wf(*self),
            rect_wf(query),
        ensures
            match r {
                Some(i) => is_first_hit(*self, query, i as int),
                None => no_hit(*self, query),
            },
    {
        let n = self.crops.len();
        let mut i: usize = 0;
        while i < n
            invariant
                grid_wf(*self),
                rect_wf(query),
                n == self.crops@.len(),
                i <= n,
                forall|j: int| 0 <= j < i ==> !rects_overlap((#[trigger] self.crops@[j]).rect, query),
            decreases n - i,
        {
            if overlaps(&self.crops[i].rect, &query) {
                return Some(i);
            }
            i = i + 1;
        }
        None
    }

    /// Plants the given species into the first cell the query reaches.
    pub fn plant_to_cell(&mut self, plant: &PlantType, query: Recti)
        requires
            grid_wf(*old(self)),
            plant_type_wf(*plant),
            rect_wf(query),
        ensures
            grid_wf(*final(self)),
            same_frame(*old(self), *final(self)),
            forall|i: int|
                is_first_hit(*old(self), query, i) ==> final(self).crops@ == old(
                    self,
                ).crops@.update(i, cell_plant(old(self).crops@[i], *plant)),
            no_hit(*old(self), query) ==> final(self).crops@ == old(self).crops@,
    {
        let found = self.check_for_intersect(query);
        match found {
            Some(i) => {
                let mut cell = self.crops[i];
                cell.plant(plant);
                self.crops.set(i, cell);
            },
            None => {},
        }
    }

    /// Waters the first cell the query reaches.
    pub fn water_cell(&mut self, query: Recti, portion: i64)
        requires
            grid_wf(*old(self)),
            rect_wf(query),
            0 <= portion <= QMAX,
        ensures
            grid_wf(*final(self)),
            same_frame(*old(self), *final(self)),
            forall|i: int|
                is_first_hit(*old(self), query, i) ==> final(self).crops@ == old(
                    self,
                ).crops@.update(i, cell_water(old(self).crops@[i], portion)),
            no_hit(*old(self), query) ==> final(self).crops@ == old(self).crops@,
    {
        let found = self.check_for_intersect(query);
        match found {
            Some(i) => {
                let mut cell = self.crops[i];
                cell.water(portion);
                self.crops.set(i, cell);
            },
            None => {},
        }
    }

    /// Harvests the first cell the query reaches.
    pub fn harvest_from_cell(&mut self, query: Recti, score: &mut i32)
        requires
            grid_wf(*old(self)),
            rect_wf(query),
            *old(score) <= i32::MAX - HARVEST_POINTS,
        ensures
            grid_wf(*final(self)),
            same_frame(*old(self), *final(self)),
            forall|i: int|
                is_first_hit(*old(self), query, i) ==> final(self).crops@ == old(
                    self,
                ).crops@.update(i, cell_harvest(old(self).crops@[i]).0) && *final(score) == *old(
                    score,
                ) + cell_harvest(old(self).crops@[i]).1,
            no_hit(*old(self), query) ==> final(self).crops@ == old(self).crops@ && *final(score)
                == *old(score),
    {
        let found = self.check_for_intersect(query);
        match found {
            Some(i) => {
                let mut cell = self.crops[i];
                cell.harvest(score);
                self.crops.set(i, cell);
            },
            None => {},
        }
    }

    /// Pulls whatever stands in the first cell the query reaches.
    pub fn pull_from_cell(&mut self, query: Recti, score: &mut i32)
        requires
            grid_wf(*old(self)),
            rect_wf(query),
            *old(score) <= i32::MAX - HARVEST_POINTS,
        ensures
            grid_wf(*final(self)),
            same_frame(*old(self), *final(self)),
            forall|i: int|
                is_first_hit(*old(self), query, i) ==> final(self).crops@ == old(
                    self,
                ).crops@.update(i, cell_pull(old(self).crops@[i]).0) && *final(score) == *old(
                    score,
                ) + cell_pull(old(self).crops@[i]).1,
            no_hit(*old(self), query) ==> final(self).crops@ == old(self).crops@ && *final(score)
                == *old(score),
    {
        let found = self.check_for_intersect(query);
        match found {
            Some(i) => {
                let mut cell = self.crops[i];
                cell.pull(score);
                self.crops.set(i, cell);
            },
            None => {},
        }
    }

    /// Empties the first cell whose centre equals `check` exactly: a crow
    /// knows its target cell by the centre it adopted.
    pub fn steal_from_cell(&mut self, check: Vec2i)
        requires
            grid_wf(*old(self)),
        ensures
            grid_wf(*final(self)),
            same_frame(*old(self), *final(self)),
            forall|i: int|
                is_first_pos_match(*old(self), check, i) ==> final(self).crops@ == old(
                    self,
                ).crops@.update(i, cell_steal(old(self).crops@[i])),
            no_pos_match(*old(self), check) ==> final(self).crops@ == old(self).crops@,
    {
        let n = self.crops.len();
        let mut i: usize = 0;
        while i < n
            invariant
                grid_wf(*self),
                *self == *old(self),
                n == self.crops@.len(),
                i <= n,
                forall|j: int| 0 <= j < i ==> (#[trigger] self.crops@[j]).pos != check,
            decreases n - i,
        {
            if self.crops[i].pos == check {
                let mut cell = self.crops[i];
                cell.steal();
                self.crops.set(i, cell);
                return ;
            }
            i = i + 1;
        }
    }

    /// One growth tick for every cell.
    pub fn update(&mut self, dt: i64)
        requires
            grid_wf(*old(self)),
            0 <= dt <= DT_MAX,
        ensures
            grid_wf(*final(self)),
            same_frame(*old(self), *final(self)),
            forall|i: int|
                0 <= i < old(self).crops@.len() ==> #[trigger] final(self).crops@[i]
                    == cell_advance(old(self).crops@[i], dt as int),
    {
        let n = self.crops.len();
        let mut i: usize = 0;
        while i < n
            invariant
                0 <= dt <= DT_MAX,
                n == self.crops@.len(),
                i <= n,
                same_frame(*old(self), *self),
                grid_wf(*self),
                forall|j: int|
                    i <= j < n ==> #[trigger] self.crops@[j] == old(self).crops@[j],
                forall|j: int|
                    0 <= j < i ==> #[trigger] self.crops@[j] == cell_advance(
                        old(self).crops@[j],
                        dt as int,
                    ),
            decreases n - i,
        {
            let mut cell = self.crops[i];
            cell.update(dt);
            self.crops.set(i, cell);
            i = i + 1;
        }
    }

    /// The data snapshot the drawing layer works from, one entry per cell
    /// in storage order.
    pub fn render(&self) -> (r: Vec<CellRender>)
        requires
            grid_wf(*self),
        ensures
            r@.len() == self.crops@.len(),
            forall|i: int|
                0 <= i < self.crops@.len() ==> #[trigger] r@[i] == cell_render_spec(
                    self.crops@[i],
                ),
    {
        let n = self.crops.len();
        let mut out: Vec<CellRender> = Vec::new();
        let mut i: usize = 0;
        while i < n
            invariant
                grid_wf(*self),
                n == self.crops@.len(),
                i <= n,
                out@.len() == i,
                forall|j: int|
                    0 <= j < i ==> #[trigger] out@[j] == cell_render_spec(self.crops@[j]),
            decreases n - i,
        {
            out.push(self.crops[i].render());
            i = i + 1;
        }
        out
    }
}

/// A query rectangle that misses the grid's bounding area meets no cell.
pub proof fn lemma_query_outside_misses_all(g: CropGrid, query: Recti)
    requires
        grid_wf(g),
        !rects_overlap(query, grid_bound(g)),
    ensures
        no_hit(g, query),
{
    assert forall|j: int| 0 <= j < g.crops@.len() implies !rects_overlap(
        (#[trigger] g.crops@[j]).rect,
        query,
    ) by {
        crate::geom::lemma_miss_container_miss_contained(grid_bound(g), g.crops@[j].rect, query);
    }
}

/// When exactly one cell's rectangle meets the query, the first-match
/// lookup finds precisely that cell.
pub proof fn lemma_unique_hit_is_found(g: CropGrid, query: Recti, i: int)
    requires
        grid_wf(g),
        0 <= i < g.crops@.len(),
        rects_overlap(g.crops@[i].rect, query),
        forall|j: int|
            0 <= j < g.crops@.len() && j != i ==> !rects_overlap(
                (#[trigger] g.crops@[j]).rect,
                query,
            ),
    ensures
        is_first_hit(g, query, i),
        forall|k: int| is_first_hit(g, query, k) ==> k == i,
{
}

} // verus!
