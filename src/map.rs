//! The grid map: tiles, the per-cell blocking layer, and neighbour enumeration
//! for pathfinding.

use vstd::prelude::*;

verus! {

/// Largest number of cells a map may hold: every cell index fits in an `i32`.
pub const MAX_CELLS: i32 = 2_147_483_647;

#[derive(PartialEq, Eq, Structural, Debug, Clone, Copy)]
pub enum TileType {
    Wall,
    Floor,
    StairsUp,
    StairsDown,
}

/// A `width` by `height` grid stored row by row. `tile_content` holds, per cell,
/// the indices of the actors standing there.
#[derive(Debug)]
pub struct GameMap {
    pub tiles: Vec<TileType>,
    pub width: i32,
    pub height: i32,
    pub revealed_tiles: Vec<bool>,
    pub visible_tiles: Vec<bool>,
    pub blocked: Vec<bool>,
    pub tile_content: Vec<Vec<usize>>,
}

/// Row-major index of a cell.
pub open spec fn cell_index(width: int, x: int, y: int) -> int {
    y * width + x
}

pub proof fn lemma_cell_index_bounds(width: int, height: int, x: int, y: int)
    requires
        0 <= x < width,
        0 <= y < height,
    ensures
        0 <= cell_index(width, x, y) < width * height,
{
    assert(0 <= y * width) by (nonlinear_arith)
        requires
            0 <= y,
            0 <= width,
    ;
    assert(y * width + x < width * height) by (nonlinear_arith)
        requires
            0 <= x < width,
            0 <= y < height,
    ;
}

impl GameMap {
    /// Every per-cell layer has one entry per cell, and the cell count is bounded.
    pub open spec fn wf(&self) -> bool {
        &&& 0 < self.width
        &&& 0 < self.height
        &&& self.width * self.height <= MAX_CELLS
        &&& self.tiles@.len() == self.width * self.height
        &&& self.revealed_tiles@.len() == self.width * self.height
        &&& self.visible_tiles@.len() == self.width * self.height
        &&& self.blocked@.len() == self.width * self.height
        &&& self.tile_content@.len() == self.width * self.height
    }

    pub open spec fn in_bounds(&self, x: int, y: int) -> bool {
        0 <= x < self.width && 0 <= y < self.height
    }

    pub open spec fn idx(&self, x: int, y: int) -> int {
        cell_index(self.width as int, x, y)
    }

    /// An all-wall map of the given size, nothing revealed, visible or blocked.
    pub fn new(width: i32, height: i32) -> (r: GameMap)
        requires
            0 < width,
            0 < height,
            width * height <= MAX_CELLS,
        ensures
            r.wf(),
            r.width == width,
            r.height == height,
            forall|i: int| 0 <= i < width * height ==> r.tiles@[i] == TileType::Wall,
            forall|i: int| 0 <= i < width * height ==> !r.blocked@[i],
            forall|i: int| 0 <= i < width * height ==> #[trigger] r.tile_content@[i].len() == 0,
    {
        let n: usize = (width * height) as usize;
        let mut tiles: Vec<TileType> = Vec::new();
        let mut revealed_tiles: Vec<bool> = Vec::new();
        let mut visible_tiles: Vec<bool> = Vec::new();
        let mut blocked: Vec<bool> = Vec::new();
        let mut tile_content: Vec<Vec<usize>> = Vec::new();
        let mut k: usize = 0;
        while k < n
            invariant
                k <= n,
                tiles@.len() == k,
                revealed_tiles@.len() == k,
                visible_tiles@.len() == k,
                blocked@.len() == k,
                tile_content@.len() == k,
                forall|i: int| 0 <= i < k ==> tiles@[i] == TileType::Wall,
                forall|i: int| 0 <= i < k ==> !blocked@[i],
                forall|i: int| 0 <= i < k ==> #[trigger] tile_content@[i].len() == 0,
            decreases n - k,
        {
            tiles.push(TileType::Wall);
            revealed_tiles.push(false);
            visible_tiles.push(false);
            blocked.push(false);
            tile_content.push(Vec::new());
            k = k + 1;
        }
        GameMap { tiles, width, height, revealed_tiles, visible_tiles, blocked, tile_content }
    }

    /// Row-major index of an in-bounds cell.
    pub fn xy_idx(&self, x: i32, y: i32) -> (r: usize)
        requires
            self.wf(),
            self.in_bounds(x as int, y as int),
        ensures
            r == self.idx(x as int, y as int),
            r < self.width * self.height,
    {
        proof {
            lemma_cell_index_bounds(self.width as int, self.height as int, x as int, y as int);
        }
        (y * self.width + x) as usize
    }

    /// A cell that a path may step onto: inside the border ring and not blocked.
    pub open spec fn exit_valid(&self, x: int, y: int) -> bool {
        &&& 1 <= x <= self.width - 1
        &&& 1 <= y <= self.height - 1
        &&& self.in_bounds(x, y)
        &&& !self.blocked@[self.idx(x, y)]
    }

    pub fn is_exit_valid(&self, x: i32, y: i32) -> (r: bool)
        requires
            self.wf(),
        ensures
            r == self.exit_valid(x as int, y as int),
    {
        if x < 1 || x > self.width - 1 || y < 1 || y > self.height - 1 || x >= self.width || y
            >= self.height {
            return false;
        }
        let idx = self.xy_idx(x, y);
        !self.blocked[idx]
    }

    /// Whether a tile blocks sight.
    pub fn is_opaque(&self, idx: usize) -> (r: bool)
        requires
            self.wf(),
            idx < self.tiles@.len(),
        ensures
            r == (self.tiles@[idx as int] == TileType::Wall),
    {
        self.tiles[idx] == TileType::Wall
    }

    /// Marks exactly the wall cells as blocked.
    pub fn populate_blocked(&mut self)
        requires
            old(self).wf(),
        ensures
            final(self).wf(),
            final(self).tiles == old(self).tiles,
            final(self).width == old(self).width,
            final(self).height == old(self).height,
            final(self).tile_content == old(self).tile_content,
            final(self).revealed_tiles == old(self).revealed_tiles,
            final(self).visible_tiles == old(self).visible_tiles,
            forall|i: int|
                0 <= i < final(self).blocked@.len() ==> final(self).blocked@[i] == (
                final(self).tiles@[i] == TileType::Wall),
    {
        let n = self.tiles.len();
        let mut i: usize = 0;
        while i < n
            invariant
                self.wf(),
                n == self.tiles@.len(),
                i <= n,
                self.tiles == old(self).tiles,
                self.width == old(self).width,
                self.height == old(self).height,
                self.tile_content == old(self).tile_content,
                self.revealed_tiles == old(self).revealed_tiles,
                self.visible_tiles == old(self).visible_tiles,
                forall|j: int| 0 <= j < i ==> self.blocked@[j] == (self.tiles@[j] == TileType::Wall),
            decreases n - i,
        {
            let wall = self.tiles[i] == TileType::Wall;
            self.blocked.set(i, wall);
            i = i + 1;
        }
    }

    /// Empties every cell's content list.
    pub fn clear_content_index(&mut self)
        requires
            old(self).wf(),
        ensures
            final(self).wf(),
            final(self).tiles == old(self).tiles,
            final(self).blocked == old(self).blocked,
            final(self).revealed_tiles == old(self).revealed_tiles,
            final(self).visible_tiles == old(self).visible_tiles,
            final(self).width == old(self).width,
            final(self).height == old(self).height,
            forall|i: int|
                0 <= i < final(self).tile_content@.len() ==> #[trigger] final(self).tile_content@[i]@.len() == 0,
    {
        let n = self.tile_content.len();
        let mut i: usize = 0;
        while i < n
            invariant
                self.wf(),
                n == self.tile_content@.len(),
                i <= n,
                self.tiles == old(self).tiles,
                self.blocked == old(self).blocked,
                self.revealed_tiles == old(self).revealed_tiles,
                self.visible_tiles == old(self).visible_tiles,
                self.width == old(self).width,
                self.height == old(self).height,
                forall|j: int| 0 <= j < i ==> #[trigger] self.tile_content@[j]@.len() == 0,
            decreases n - i,
        {
            self.tile_content.set(i, Vec::new());
            i = i + 1;
        }
    }

    /// Cost, in hundredths of a step, of moving to a neighbour in direction `(dx, dy)`:
    /// 100 for a cardinal step, 145 for a diagonal one.
    pub open spec fn step_cost(dx: int, dy: int) -> u32 {
        if dx != 0 && dy != 0 { 145 } else { 100 }
    }

    /// The eight neighbour offsets in the order exits are listed: the four cardinal
    /// directions, then the four diagonals.
    pub open spec fn neighbour_offsets() -> Seq<(int, int)> {
        seq![(-1, 0), (1, 0), (0, -1), (0, 1), (-1, -1), (1, -1), (-1, 1), (1, 1)]
    }

    /// The valid exits of a cell, in `neighbour_offsets` order, each with its index and
    /// its cost in hundredths of a step.
    pub open spec fn exits_of(&self, x: int, y: int, k: int) -> Seq<(usize, u32)>
        decreases 8 - k,
    {
        if k < 0 || k >= 8 {
            seq![]
        } else {
            let (dx, dy) = Self::neighbour_offsets()[k];
            let rest = self.exits_of(x, y, k + 1);
            if self.exit_valid(x + dx, y + dy) {
                seq![(self.idx(x + dx, y + dy) as usize, Self::step_cost(dx, dy))] + rest
            } else {
                rest
            }
        }
    }

    /// The neighbours that a path from cell `idx` may step onto.
    pub fn get_available_exits(&self, idx: usize) -> (r: Vec<(usize, u32)>)
        requires
            self.wf(),
            idx < self.width * self.height,
        ensures
            r@ == self.exits_of(idx as int % self.width as int, idx as int / self.width as int, 0),
    {
        let x: i32 = (idx as i32) % self.width;
        let y: i32 = (idx as i32) / self.width;
        let dxs: [i32; 8] = [-1, 1, 0, 0, -1, 1, -1, 1];
        let dys: [i32; 8] = [0, 0, -1, 1, -1, -1, 1, 1];
        let ghost gx = idx as int % self.width as int;
        let ghost gy = idx as int / self.width as int;
        proof {
            assert(0 <= gy < self.height) by (nonlinear_arith)
                requires
                    gy == idx as int / self.width as int,
                    0 <= idx < self.width * self.height,
                    0 < self.width,
            ;
        }
        let mut out: Vec<(usize, u32)> = Vec::new();
        let mut k: usize = 8;
        while k > 0
            invariant
                self.wf(),
                k <= 8,
                x == gx,
                y == gy,
                0 <= gx < self.width,
                0 <= gy < self.height,
                dxs@ == seq![-1i32, 1i32, 0i32, 0i32, -1i32, 1i32, -1i32, 1i32],
                dys@ == seq![0i32, 0i32, -1i32, 1i32, -1i32, -1i32, 1i32, 1i32],
                out@ == self.exits_of(gx, gy, k as int),
            decreases k,
        {
            k = k - 1;
            let dx = dxs[k];
            let dy = dys[k];
            assert(Self::neighbour_offsets()[k as int] == (dx as int, dy as int));
            if self.is_exit_valid(x + dx, y + dy) {
                let cell = self.xy_idx(x + dx, y + dy);
                let cost: u32 = if dx != 0 && dy != 0 { 145 } else { 100 };
                let mut front: Vec<(usize, u32)> = Vec::new();
                front.push((cell, cost));
                front.append(&mut out);
                out = front;
            }
        }
        out
    }
}

} // verus!
