use vstd::prelude::*;
use crate::tile::{EntityType, TileType};

verus! {

/// One room: a collision grid of tiles and a layer of entity markers.
/// `grid[y][x]` is the tile in column `x` of row `y`.
#[derive(Debug)]
pub struct Level {
    pub grid: Vec<Vec<TileType>>,
    pub width: usize,
    pub height: usize,
    pub data: Vec<Vec<EntityType>>,
}

/// An inclusive range of tile columns and rows, as obtained by flooring the
/// edges of a pixel rectangle to tile coordinates. It may reach outside the
/// grid on any side.
#[derive(Clone, Copy, Debug, PartialEq, Eq, Structural)]
pub struct TileRect {
    pub x_start: i32,
    pub x_end: i32,
    pub y_start: i32,
    pub y_end: i32,
}

/// A cell of the entity layer that asks for an enemy: column `x`, row `y`,
/// and the marker found there (`EnemySpawn` or `PotionSpawn`).
#[derive(Clone, Copy, Debug, PartialEq, Eq, Structural)]
pub struct SpawnPoint {
    pub x: usize,
    pub y: usize,
    pub kind: EntityType,
}

/// Whether an entity marker makes something spawn when the room is loaded.
pub open spec fn spawns_enemy(e: EntityType) -> bool {
    e == EntityType::EnemySpawn || e == EntityType::PotionSpawn
}

/// The spawn points of the first `k` cells of row `y`, left to right.
pub open spec fn row_spawns(row: Seq<EntityType>, y: int, k: int) -> Seq<SpawnPoint>
    decreases k,
{
    if k <= 0 {
        Seq::empty()
    } else {
        let before = row_spawns(row, y, k - 1);
        if spawns_enemy(row[k - 1]) {
            before.push(SpawnPoint { x: (k - 1) as usize, y: y as usize, kind: row[k - 1] })
        } else {
            before
        }
    }
}

/// The spawn points of the first `n` rows of an entity layer, in row-major
/// order (top row first, each row left to right).
pub open spec fn layer_spawns(data: Seq<Seq<EntityType>>, n: int) -> Seq<SpawnPoint>
    decreases n,
{
    if n <= 0 {
        Seq::empty()
    } else {
        layer_spawns(data, n - 1) + row_spawns(data[n - 1], n - 1, data[n - 1].len() as int)
    }
}

impl Level {
    /// The room that `Level::new` builds from a tile grid and an entity layer.
    pub open spec fn spec_new(grid: Vec<Vec<TileType>>, data: Vec<Vec<EntityType>>) -> Level {
        Level {
            grid,
            width: if grid.len() > 0 { grid@[0].len() } else { 0 },
            height: grid.len(),
            data,
        }
    }

    /// The entity layer as nested sequences.
    pub open spec fn data_view(&self) -> Seq<Seq<EntityType>> {
        self.data@.map_values(|row: Vec<EntityType>| row@)
    }

    /// The tile at column `x`, row `y` (meaningful inside the grid).
    pub open spec fn tile(&self, x: int, y: int) -> TileType {
        self.grid@[y]@[x]
    }

    /// Whether `(x, y)` names a cell of the room.
    pub open spec fn in_bounds(&self, x: int, y: int) -> bool {
        0 <= x < self.width && 0 <= y < self.height
    }

    /// Well-formed: `height` counts the rows and every row has at least
    /// `width` tiles, so every in-bounds cell exists.
    pub open spec fn wf(&self) -> bool {
        &&& self.height == self.grid@.len()
        &&& forall|y: int| 0 <= y < self.height ==> #[trigger] self.grid@[y]@.len() >= self.width
    }

    /// A cell blocks movement when it lies outside the room or holds a wall.
    pub open spec fn solid_cell(&self, x: int, y: int) -> bool {
        !self.in_bounds(x, y) || self.tile(x, y) == TileType::Wall
    }

    /// A wall lies inside the room within the tile range `r`.
    pub open spec fn wall_in_rect(&self, r: TileRect) -> bool {
        exists|x: int, y: int|
            r.x_start <= x <= r.x_end && r.y_start <= y <= r.y_end && #[trigger] self.in_bounds(x, y)
                && self.tile(x, y) == TileType::Wall
    }

    /// Builds a room; its height is the number of rows and its width the
    /// length of the first row (0 for an empty grid).
    pub fn new(grid: Vec<Vec<TileType>>, data: Vec<Vec<EntityType>>) -> (r: Self)
        ensures
            r == Level::spec_new(grid, data),
            r.grid@ == grid@,
            r.data@ == data@,
            r.height == grid@.len(),
            r.width == (if grid@.len() > 0 { grid@[0]@.len() } else { 0 }),
            (forall|y: int| 0 <= y < grid@.len() ==> #[trigger] grid@[y]@.len() == grid@[0]@.len())
                ==> r.wf(),
    {
        let height = grid.len();
        let width = if height > 0 { grid[0].len() } else { 0 };
        Level { grid, width, height, data }
    }

    /// Whether the cell at column `gx`, row `gy` blocks movement: every cell
    /// outside the room does, and inside it only walls do.
    pub fn solid_point(&self, gx: usize, gy: usize) -> (r: bool)
        requires
            self.wf(),
        ensures
            r == self.solid_cell(gx as int, gy as int),
    {
        if gx < self.width && gy < self.height {
            return self.grid[gy][gx] == TileType::Wall;
        }
        true
    }

    /// Whether any of the probed cells blocks movement.
    pub fn colision(&self, cells: &[(usize, usize)]) -> (r: bool)
        requires
            self.wf(),
        ensures
            r == exists|i: int|
                0 <= i < cells@.len() && #[trigger] self.solid_cell(cells@[i].0 as int, cells@[i].1 as int),
    {
        let mut i: usize = 0;
        while i < cells.len()
            invariant
                self.wf(),
                i <= cells@.len(),
                forall|j: int| 0 <= j < i ==> !#[trigger] self.solid_cell(cells@[j].0 as int, cells@[j].1 as int),
            decreases cells@.len() - i,
        {
            let (gx, gy) = cells[i];
            if self.solid_point(gx, gy) {
                return true;
            }
            i = i + 1;
        }
        false
    }

    /// Whether a wall lies inside the room within the tile range `r`.
    /// Cells of the range outside the room are ignored.
    pub fn solid_in_rect(&self, r: TileRect) -> (res: bool)
        requires
            self.wf(),
            self.width <= i32::MAX,
            self.height <= i32::MAX,
        ensures
            res == self.wall_in_rect(r),
    {
        let w: i64 = self.width as i64;
        let h: i64 = self.height as i64;
        let y_lo: i64 = if (r.y_start as i64) < 0 { 0 } else { r.y_start as i64 };
        let y_hi: i64 = if (r.y_end as i64) < h - 1 { r.y_end as i64 } else { h - 1 };
        let x_lo: i64 = if (r.x_start as i64) < 0 { 0 } else { r.x_start as i64 };
        let x_hi: i64 = if (r.x_end as i64) < w - 1 { r.x_end as i64 } else { w - 1 };
        let mut gy: i64 = y_lo;
        while gy <= y_hi
            invariant
                self.wf(),
                w == self.width,
                h == self.height,
                h <= i32::MAX,
                w <= i32::MAX,
                y_lo == (if r.y_start < 0 { 0 } else { r.y_start as int }),
                y_hi == (if r.y_end < h - 1 { r.y_end as int } else { h - 1 }),
                x_lo == (if r.x_start < 0 { 0 } else { r.x_start as int }),
                x_hi == (if r.x_end < w - 1 { r.x_end as int } else { w - 1 }),
                y_lo <= gy,
                gy <= y_hi + 1 || gy == y_lo,
                forall|x: int, y: int|
                    y_lo <= y < gy && x_lo <= x <= x_hi ==> #[trigger] self.tile(x, y) != TileType::Wall,
            decreases h - gy,
        {
            let mut gx: i64 = x_lo;
            while gx <= x_hi
                invariant
                    self.wf(),
                    w == self.width,
                    h == self.height,
                    w <= i32::MAX,
                    0 <= gy < h,
                    y_lo <= gy <= y_hi,
                    y_lo == (if r.y_start < 0 { 0 } else { r.y_start as int }),
                    y_hi == (if r.y_end < h - 1 { r.y_end as int } else { h - 1 }),
                    x_lo == (if r.x_start < 0 { 0 } else { r.x_start as int }),
                    x_hi == (if r.x_end < w - 1 { r.x_end as int } else { w - 1 }),
                    x_lo <= gx,
                    gx <= x_hi + 1 || gx == x_lo,
                    forall|x: int| x_lo <= x < gx ==> #[trigger] self.tile(x, gy as int) != TileType::Wall,
                decreases w - gx,
            {
                let row = &self.grid[gy as usize];
                if row[gx as usize] == TileType::Wall {
                    assert(self.in_bounds(gx as int, gy as int) && self.tile(gx as int, gy as int) == TileType::Wall);
                    return true;
                }
                gx = gx + 1;
            }
            gy = gy + 1;
        }
        assert forall|x: int, y: int|
            r.x_start <= x <= r.x_end && r.y_start <= y <= r.y_end && #[trigger] self.in_bounds(x, y)
            implies self.tile(x, y) != TileType::Wall by {
            assert(y_lo <= y < gy && x_lo <= x <= x_hi);
        }
        false
    }
}

/// Every spawn point of a row prefix names a cell of that row, to the left
/// of `k`, that holds its marker, and that marker spawns an enemy.
pub proof fn lemma_row_spawns_sound(row: Seq<EntityType>, y: int, k: int)
    requires
        0 <= k <= row.len() <= usize::MAX,
        0 <= y <= usize::MAX,
    ensures
        forall|i: int| 0 <= i < row_spawns(row, y, k).len() ==> {
            let sp = #[trigger] row_spawns(row, y, k)[i];
            &&& sp.y == y
            &&& sp.x < k
            &&& row[sp.x as int] == sp.kind
            &&& spawns_enemy(sp.kind)
        },
    decreases k,
{
    if k > 0 {
        lemma_row_spawns_sound(row, y, k - 1);
    }
}

/// Every spawn point of a room is a cell of its entity layer holding an
/// enemy or potion marker, and records that marker.
pub proof fn lemma_spawns_sound(data: Seq<Seq<EntityType>>, n: int)
    requires
        0 <= n <= data.len() <= usize::MAX,
        forall|y: int| 0 <= y < data.len() ==> #[trigger] data[y].len() <= usize::MAX,
    ensures
        forall|i: int| 0 <= i < layer_spawns(data, n).len() ==> {
            let sp = #[trigger] layer_spawns(data, n)[i];
            &&& sp.y < n
            &&& sp.x < data[sp.y as int].len()
            &&& data[sp.y as int][sp.x as int] == sp.kind
            &&& spawns_enemy(sp.kind)
        },
    decreases n,
{
    if n > 0 {
        lemma_spawns_sound(data, n - 1);
        let pre = layer_spawns(data, n - 1);
        let rs = row_spawns(data[n - 1], n - 1, data[n - 1].len() as int);
        lemma_row_spawns_sound(data[n - 1], n - 1, data[n - 1].len() as int);
        assert forall|i: int| 0 <= i < layer_spawns(data, n).len() implies {
            let sp = #[trigger] layer_spawns(data, n)[i];
            &&& sp.y < n
            &&& sp.x < data[sp.y as int].len()
            &&& data[sp.y as int][sp.x as int] == sp.kind
            &&& spawns_enemy(sp.kind)
        } by {
            if i < pre.len() {
                assert(layer_spawns(data, n)[i] == pre[i]);
            } else {
                assert(layer_spawns(data, n)[i] == rs[i - pre.len()]);
            }
        }
    }
}

/// Every cell of a row prefix that holds an enemy or potion marker has its
/// spawn point.
pub proof fn lemma_row_spawns_complete(row: Seq<EntityType>, y: int, k: int)
    requires
        0 <= k <= row.len(),
    ensures
        forall|x: int| 0 <= x < k && #[trigger] spawns_enemy(row[x]) ==> row_spawns(row, y, k).contains(
            SpawnPoint { x: x as usize, y: y as usize, kind: row[x] },
        ),
    decreases k,
{
    if k > 0 {
        lemma_row_spawns_complete(row, y, k - 1);
        let before = row_spawns(row, y, k - 1);
        assert forall|x: int| 0 <= x < k && #[trigger] spawns_enemy(row[x]) implies row_spawns(row, y, k).contains(
            SpawnPoint { x: x as usize, y: y as usize, kind: row[x] },
        ) by {
            let sp = SpawnPoint { x: x as usize, y: y as usize, kind: row[x] };
            if x < k - 1 {
                let j = choose|j: int| 0 <= j < before.len() && before[j] == sp;
                if spawns_enemy(row[k - 1]) {
                    assert(row_spawns(row, y, k)[j] == sp);
                } else {
                    assert(row_spawns(row, y, k)[j] == sp);
                }
            } else {
                assert(row_spawns(row, y, k)[before.len() as int] == sp);
            }
        }
    }
}

/// Every cell of a room's entity layer that holds an enemy or potion marker
/// has its spawn point: together with `lemma_spawns_sound`, the spawn
/// points are exactly the marker cells.
pub proof fn lemma_spawns_complete(data: Seq<Seq<EntityType>>, n: int)
    requires
        0 <= n <= data.len(),
    ensures
        forall|y: int, x: int|
            0 <= y < n && 0 <= x < data[y].len() && #[trigger] spawns_enemy(data[y][x]) ==> layer_spawns(data, n).contains(
                SpawnPoint { x: x as usize, y: y as usize, kind: data[y][x] },
            ),
    decreases n,
{
    if n > 0 {
        lemma_spawns_complete(data, n - 1);
        let pre = layer_spawns(data, n - 1);
        let rs = row_spawns(data[n - 1], n - 1, data[n - 1].len() as int);
        lemma_row_spawns_complete(data[n - 1], n - 1, data[n - 1].len() as int);
        assert forall|y: int, x: int|
            0 <= y < n && 0 <= x < data[y].len() && #[trigger] spawns_enemy(data[y][x]) implies layer_spawns(data, n).contains(
                SpawnPoint { x: x as usize, y: y as usize, kind: data[y][x] },
            ) by {
            let sp = SpawnPoint { x: x as usize, y: y as usize, kind: data[y][x] };
            if y < n - 1 {
                let j = choose|j: int| 0 <= j < pre.len() && pre[j] == sp;
                assert(layer_spawns(data, n)[j] == sp);
            } else {
                assert(spawns_enemy(data[n - 1][x]));
                assert(rs.contains(sp));
                let j = choose|j: int| 0 <= j < rs.len() && rs[j] == sp;
                assert(layer_spawns(data, n)[pre.len() + j] == sp);
            }
        }
    }
}

/// Enlarging a tile range never hides a wall: a range that finds a wall is
/// still found solid by every range that contains it.
pub proof fn lemma_wall_in_rect_monotone(level: &Level, small: TileRect, big: TileRect)
    requires
        big.x_start <= small.x_start,
        small.x_end <= big.x_end,
        big.y_start <= small.y_start,
        small.y_end <= big.y_end,
        level.wall_in_rect(small),
    ensures
        level.wall_in_rect(big),
{
    let (x, y) = choose|x: int, y: int|
        small.x_start <= x <= small.x_end && small.y_start <= y <= small.y_end && #[trigger] level.in_bounds(x, y)
            && level.tile(x, y) == TileType::Wall;
    assert(level.in_bounds(x, y));
}

/// A tile range lying wholly outside the room never finds a wall, although
/// every single cell outside the room counts as solid for point probes.
pub proof fn lemma_outside_rect_is_clear(level: &Level, r: TileRect)
    requires
        r.x_end < 0 || r.y_end < 0 || r.x_start >= level.width || r.y_start >= level.height,
    ensures
        !level.wall_in_rect(r),
        forall|x: int, y: int| r.x_start <= x <= r.x_end && r.y_start <= y <= r.y_end ==> #[trigger] level.solid_cell(x, y),
{
}

} // verus!
