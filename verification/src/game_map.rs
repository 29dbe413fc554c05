//! The dungeon level: a grid of tiles with visibility, blocking and
//! occupancy bookkeeping.

use vstd::prelude::*;
use vstd::arithmetic::div_mod::lemma_fundamental_div_mod;

use crate::components::{Entity, Position};

verus! {

/// Movement cost of a cardinal step, in hundredths.
pub const COST_CARDINAL: u32 = 100;

/// Movement cost of a diagonal step, in hundredths.
pub const COST_DIAGONAL: u32 = 145;

/// What a tile is made of.
#[derive(Clone, Copy, Debug, PartialEq, Eq, Structural)]
pub enum TileType {
    Wall,
    Floor,
    DownStairs,
}

/// Width of every level, in tiles.
pub const MAPWIDTH: usize = 80;

/// Height of every level, in tiles.
pub const MAPHEIGHT: usize = 43;

/// Number of tiles in a level.
pub const MAPCOUNT: usize = MAPHEIGHT * MAPWIDTH;

/// One dungeon level. Tiles and the per-tile bookkeeping vectors are indexed
/// by `y * width + x`.
#[derive(Clone, Debug)]
pub struct GameMap {
    pub tiles: Vec<TileType>,
    pub width: i32,
    pub height: i32,
    pub revealed_tiles: Vec<bool>,
    pub visible_tiles: Vec<bool>,
    pub blocked: Vec<bool>,
    pub depth: i32,
    pub bloodstains: Vec<usize>,
    pub tile_content: Vec<Vec<Entity>>,
}

impl GameMap {
    /// The grid and all its parallel vectors agree on the level's size.
    pub open spec fn wf(self) -> bool {
        &&& 0 < self.width
        &&& 0 < self.height
        &&& self.width * self.height == self.tiles.len()
        &&& self.revealed_tiles.len() == self.tiles.len()
        &&& self.visible_tiles.len() == self.tiles.len()
        &&& self.blocked.len() == self.tiles.len()
        &&& self.tile_content.len() == self.tiles.len()
    }

    /// Index of the tile at `(x, y)`.
    pub open spec fn spec_idx(self, x: int, y: int) -> int {
        y * self.width + x
    }

    /// Whether `(x, y)` lies on the grid.
    pub open spec fn spec_in_bounds(self, x: int, y: int) -> bool {
        0 <= x < self.width && 0 <= y < self.height
    }

    /// The tile index of an in-bounds coordinate names a tile.
    pub proof fn lemma_idx_in_range(self, x: int, y: int)
        requires
            self.wf(),
            self.spec_in_bounds(x, y),
        ensures
            0 <= self.spec_idx(x, y) < self.tiles.len(),
    {
        assert(y * self.width + x < self.width * self.height) by (nonlinear_arith)
            requires
                0 <= x < self.width,
                0 <= y < self.height,
        ;
        assert(0 <= y * self.width) by (nonlinear_arith)
            requires
                0 <= y,
                0 < self.width,
        ;
    }

    /// Turns a coordinate into the index of its tile.
    pub fn xy_idx(&self, x: i32, y: i32) -> (idx: usize)
        requires
            self.wf(),
            self.spec_in_bounds(x as int, y as int),
        ensures
            idx == self.spec_idx(x as int, y as int),
            idx < self.tiles.len(),
    {
        proof {
            self.lemma_idx_in_range(x as int, y as int);
        }
        (y as usize * self.width as usize) + x as usize
    }

    /// Whether a position lies on the grid.
    pub fn contains_point(&self, p: Position) -> (r: bool)
        ensures
            r == self.spec_in_bounds(p.x as int, p.y as int),
    {
        p.x >= 0 && p.x < self.width && p.y >= 0 && p.y < self.height
    }

    /// Generates an empty level of the standard size, consisting entirely of
    /// solid walls.
    pub fn new(new_depth: i32) -> (map: GameMap)
        ensures
            map.wf(),
            map.width == MAPWIDTH as i32,
            map.height == MAPHEIGHT as i32,
            map.depth == new_depth,
            forall|i: int| 0 <= i < map.tiles.len() ==> map.tiles[i] == TileType::Wall,
            forall|i: int| 0 <= i < map.tiles.len() ==> !map.revealed_tiles[i],
            forall|i: int| 0 <= i < map.tiles.len() ==> !map.visible_tiles[i],
            forall|i: int| 0 <= i < map.tiles.len() ==> !map.blocked[i],
            forall|i: int| 0 <= i < map.tiles.len() ==> map.tile_content[i]@ == Seq::<Entity>::empty(),
            map.bloodstains@ == Seq::<usize>::empty(),
    {
        let mut tiles: Vec<TileType> = Vec::new();
        let mut revealed_tiles: Vec<bool> = Vec::new();
        let mut visible_tiles: Vec<bool> = Vec::new();
        let mut blocked: Vec<bool> = Vec::new();
        let mut tile_content: Vec<Vec<Entity>> = Vec::new();
        let mut i: usize = 0;
        while i < MAPCOUNT
            invariant
                i <= MAPCOUNT,
                tiles.len() == i,
                revealed_tiles.len() == i,
                visible_tiles.len() == i,
                blocked.len() == i,
                tile_content.len() == i,
                forall|j: int| 0 <= j < i ==> tiles[j] == TileType::Wall,
                forall|j: int| 0 <= j < i ==> !revealed_tiles[j],
                forall|j: int| 0 <= j < i ==> !visible_tiles[j],
                forall|j: int| 0 <= j < i ==> !blocked[j],
                forall|j: int| 0 <= j < i ==> tile_content[j]@ == Seq::<Entity>::empty(),
            decreases MAPCOUNT - i,
        {
            tiles.push(TileType::Wall);
            revealed_tiles.push(false);
            visible_tiles.push(false);
            blocked.push(false);
            tile_content.push(Vec::new());
            i = i + 1;
        }
        proof {
            assert((MAPWIDTH as i32) * (MAPHEIGHT as i32) == MAPCOUNT as int) by (nonlinear_arith);
        }
        GameMap {
            tiles,
            width: MAPWIDTH as i32,
            height: MAPHEIGHT as i32,
            revealed_tiles,
            visible_tiles,
            blocked,
            depth: new_depth,
            bloodstains: Vec::new(),
            tile_content,
        }
    }

    /// Marks exactly the wall tiles as blocked.
    pub fn populate_blocked(&mut self)
        requires
            old(self).wf(),
        ensures
            final(self).wf(),
            forall|i: int|
                0 <= i < final(self).blocked.len() ==> final(self).blocked[i] == (final(self).tiles[i]
                    == TileType::Wall),
            final(self).tiles == old(self).tiles,
            final(self).width == old(self).width,
            final(self).height == old(self).height,
            final(self).revealed_tiles == old(self).revealed_tiles,
            final(self).visible_tiles == old(self).visible_tiles,
            final(self).depth == old(self).depth,
            final(self).bloodstains == old(self).bloodstains,
            final(self).tile_content == old(self).tile_content,
    {
        let n = self.tiles.len();
        let mut i: usize = 0;
        while i < n
            invariant
                self.wf(),
                n == self.tiles.len(),
                i <= n,
                forall|j: int| 0 <= j < i ==> self.blocked[j] == (self.tiles[j] == TileType::Wall),
                self.tiles == old(self).tiles,
                self.width == old(self).width,
                self.height == old(self).height,
                self.revealed_tiles == old(self).revealed_tiles,
                self.visible_tiles == old(self).visible_tiles,
                self.depth == old(self).depth,
                self.bloodstains == old(self).bloodstains,
                self.tile_content == old(self).tile_content,
            decreases n - i,
        {
            let is_wall = self.tiles[i] == TileType::Wall;
            self.blocked.set(i, is_wall);
            i = i + 1;
        }
    }

    /// Empties every tile's occupancy list.
    pub fn clear_content_index(&mut self)
        requires
            old(self).wf(),
        ensures
            final(self).wf(),
            forall|i: int|
                0 <= i < final(self).tile_content.len() ==> final(self).tile_content[i]@
                    == Seq::<Entity>::empty(),
            final(self).tiles == old(self).tiles,
            final(self).width == old(self).width,
            final(self).height == old(self).height,
            final(self).revealed_tiles == old(self).revealed_tiles,
            final(self).visible_tiles == old(self).visible_tiles,
            final(self).blocked == old(self).blocked,
            final(self).depth == old(self).depth,
            final(self).bloodstains == old(self).bloodstains,
    {
        let n = self.tile_content.len();
        let mut i: usize = 0;
        while i < n
            invariant
                self.wf(),
                n == self.tile_content.len(),
                i <= n,
                forall|j: int| 0 <= j < i ==> self.tile_content[j]@ == Seq::<Entity>::empty(),
                self.tiles == old(self).tiles,
                self.width == old(self).width,
                self.height == old(self).height,
                self.revealed_tiles == old(self).revealed_tiles,
                self.visible_tiles == old(self).visible_tiles,
                self.blocked == old(self).blocked,
                self.depth == old(self).depth,
                self.bloodstains == old(self).bloodstains,
            decreases n - i,
        {
            self.tile_content.set(i, Vec::new());
            i = i + 1;
        }
    }

    /// A step may end on `(x, y)`: it lies inside the rim and is not blocked.
    pub open spec fn spec_exit_valid(self, x: int, y: int) -> bool {
        &&& 1 <= x <= self.width - 1
        &&& 1 <= y <= self.height - 1
        &&& !self.blocked[self.spec_idx(x, y)]
    }

    /// Whether a step may end on `(x, y)`.
    fn is_exit_valid(&self, x: i32, y: i32) -> (r: bool)
        requires
            self.wf(),
        ensures
            r == self.spec_exit_valid(x as int, y as int),
    {
        if x < 1 || x > self.width - 1 || y < 1 || y > self.height - 1 {
            return false;
        }
        let idx = self.xy_idx(x, y);
        !self.blocked[idx]
    }

    /// The tile at `(x, y)` is a wall the player has already seen.
    pub open spec fn spec_revealed_wall(self, x: int, y: int) -> bool {
        &&& self.tiles[self.spec_idx(x, y)] == TileType::Wall
        &&& self.revealed_tiles[self.spec_idx(x, y)]
    }

    /// Whether the tile at `(x, y)` is a wall the player has already seen.
    fn is_revealed_and_wall(&self, x: i32, y: i32) -> (r: bool)
        requires
            self.wf(),
            self.spec_in_bounds(x as int, y as int),
        ensures
            r == self.spec_revealed_wall(x as int, y as int),
    {
        let idx = self.xy_idx(x, y);
        self.tiles[idx] == TileType::Wall && self.revealed_tiles[idx]
    }

    /// Bit mask of the revealed wall neighbors of `(x, y)`:
    /// north 1, south 2, west 4, east 8.
    pub open spec fn spec_wall_mask(self, x: int, y: int) -> int {
        (if self.spec_revealed_wall(x, y - 1) {
            1int
        } else {
            0int
        }) + (if self.spec_revealed_wall(x, y + 1) {
            2int
        } else {
            0int
        }) + (if self.spec_revealed_wall(x - 1, y) {
            4int
        } else {
            0int
        }) + (if self.spec_revealed_wall(x + 1, y) {
            8int
        } else {
            0int
        })
    }

    /// The box-drawing glyph for a wall with the given neighbor mask.
    pub open spec fn glyph_for_mask(mask: int) -> u16 {
        if mask == 0 {
            9u16
        } else if mask == 1 || mask == 2 || mask == 3 {
            186u16
        } else if mask == 4 || mask == 8 || mask == 12 {
            205u16
        } else if mask == 5 {
            188u16
        } else if mask == 6 {
            187u16
        } else if mask == 7 {
            185u16
        } else if mask == 9 {
            200u16
        } else if mask == 10 {
            201u16
        } else if mask == 11 {
            204u16
        } else if mask == 13 {
            202u16
        } else if mask == 14 {
            203u16
        } else if mask == 15 {
            206u16
        } else {
            35u16
        }
    }

    /// The glyph drawn for the wall at `(x, y)`: a plain `#` on the rim,
    /// otherwise a box-drawing character joining up with the revealed wall
    /// neighbors.
    pub open spec fn spec_wall_glyph(self, x: int, y: int) -> u16 {
        if x < 1 || x > self.width - 2 || y < 1 || y > self.height - 2 {
            35u16
        } else {
            Self::glyph_for_mask(self.spec_wall_mask(x, y))
        }
    }

    /// Picks the glyph for the wall at `(x, y)`.
    pub fn wall_glyph(&self, x: i32, y: i32) -> (glyph: u16)
        requires
            self.wf(),
            self.spec_in_bounds(x as int, y as int),
        ensures
            glyph == self.spec_wall_glyph(x as int, y as int),
    {
        if x < 1 || x > self.width - 2 || y < 1 || y > self.height - 2 {
            return 35;
        }
        let mut mask: u8 = 0;

        if self.is_revealed_and_wall(x, y - 1) {
            mask += 1;
        }
        if self.is_revealed_and_wall(x, y + 1) {
            mask += 2;
        }
        if self.is_revealed_and_wall(x - 1, y) {
            mask += 4;
        }
        if self.is_revealed_and_wall(x + 1, y) {
            mask += 8;
        }

        match mask {
            0 => 9,
            1 => 186,
            2 => 186,
            3 => 186,
            4 => 205,
            5 => 188,
            6 => 187,
            7 => 185,
            8 => 205,
            9 => 200,
            10 => 201,
            11 => 204,
            12 => 205,
            13 => 202,
            14 => 203,
            15 => 206,
            _ => 35,
        }
    }

    /// A wall tile cannot be seen through.
    pub fn is_opaque(&self, idx: usize) -> (r: bool)
        requires
            self.wf(),
            idx < self.tiles.len(),
        ensures
            r == (self.tiles[idx as int] == TileType::Wall),
    {
        self.tiles[idx] == TileType::Wall
    }

    /// The steps that may leave the tile `idx`, each with its cost in
    /// hundredths: cardinal neighbors first, then diagonals, each present
    /// exactly when it is a valid exit.
    pub open spec fn spec_exits(self, idx: int) -> Seq<(usize, u32)> {
        let x = idx % (self.width as int);
        let y = idx / (self.width as int);
        let w = self.width as int;
        let s0 = Seq::<(usize, u32)>::empty();
        let s1 = if self.spec_exit_valid(x - 1, y) {
            s0.push(((idx - 1) as usize, COST_CARDINAL))
        } else {
            s0
        };
        let s2 = if self.spec_exit_valid(x + 1, y) {
            s1.push(((idx + 1) as usize, COST_CARDINAL))
        } else {
            s1
        };
        let s3 = if self.spec_exit_valid(x, y - 1) {
            s2.push(((idx - w) as usize, COST_CARDINAL))
        } else {
            s2
        };
        let s4 = if self.spec_exit_valid(x, y + 1) {
            s3.push(((idx + w) as usize, COST_CARDINAL))
        } else {
            s3
        };
        let s5 = if self.spec_exit_valid(x - 1, y - 1) {
            s4.push(((idx - w - 1) as usize, COST_DIAGONAL))
        } else {
            s4
        };
        let s6 = if self.spec_exit_valid(x + 1, y - 1) {
            s5.push(((idx - w + 1) as usize, COST_DIAGONAL))
        } else {
            s5
        };
        let s7 = if self.spec_exit_valid(x - 1, y + 1) {
            s6.push(((idx + w - 1) as usize, COST_DIAGONAL))
        } else {
            s6
        };
        let s8 = if self.spec_exit_valid(x + 1, y + 1) {
            s7.push(((idx + w + 1) as usize, COST_DIAGONAL))
        } else {
            s7
        };
        s8
    }

    /// Lists the exits from tile `idx` with their costs, cardinal steps
    /// before diagonal ones.
    pub fn get_available_exits(&self, idx: usize) -> (exits: Vec<(usize, u32)>)
        requires
            self.wf(),
            idx < self.tiles.len(),
        ensures
            exits@ == self.spec_exits(idx as int),
    {
        let mut exits: Vec<(usize, u32)> = Vec::new();
        let w = self.width as usize;
        let xu = idx % w;
        let yu = idx / w;
        proof {
            lemma_fundamental_div_mod(idx as int, w as int);
            assert(xu < w);
            assert(yu <= idx);
            assert(yu < self.height) by (nonlinear_arith)
                requires
                    idx == (self.width as int) * (yu as int) + (xu as int),
                    idx < (self.width as int) * (self.height as int),
                    0 <= xu,
                    0 < self.width,
                    0 < self.height,
            ;
            assert((yu as int) * (w as int) >= 0 && (yu as int + 1) * (w as int) == (yu as int) * (
            w as int) + w && (yu >= 1 ==> (yu as int) * (w as int) >= w)) by (nonlinear_arith)
                requires
                    yu >= 0,
                    w >= 1,
            ;
            assert(idx == (yu as int) * (w as int) + xu);
        }
        let x = xu as i32;
        let y = yu as i32;

        // Cardinal directions
        if self.is_exit_valid(x - 1, y) {
            exits.push((idx - 1, COST_CARDINAL));
        }
        if self.is_exit_valid(x + 1, y) {
            proof {
                self.lemma_idx_in_range(xu as int + 1, yu as int);
            }
            exits.push((idx + 1, COST_CARDINAL));
        }
        if self.is_exit_valid(x, y - 1) {
            exits.push((idx - w, COST_CARDINAL));
        }
        if self.is_exit_valid(x, y + 1) {
            proof {
                self.lemma_idx_in_range(xu as int, yu as int + 1);
            }
            exits.push((idx + w, COST_CARDINAL));
        }

        // Diagonals
        if self.is_exit_valid(x - 1, y - 1) {
            proof {
                assert((yu as int) * (w as int) >= 2 * (w as int)) by (nonlinear_arith)
                    requires
                        yu >= 2,
                        w >= 1,
                ;
            }
            exits.push((idx - w - 1, COST_DIAGONAL));
        }
        if self.is_exit_valid(x + 1, y - 1) {
            proof {
                assert((yu as int) * (w as int) >= 2 * (w as int)) by (nonlinear_arith)
                    requires
                        yu >= 2,
                        w >= 1,
                ;
                self.lemma_idx_in_range(xu as int + 1, yu as int - 1);
            }
            exits.push((idx - w + 1, COST_DIAGONAL));
        }
        if self.is_exit_valid(x - 1, y + 1) {
            proof {
                self.lemma_idx_in_range(xu as int - 1, yu as int + 1);
            }
            exits.push((idx + w - 1, COST_DIAGONAL));
        }
        if self.is_exit_valid(x + 1, y + 1) {
            proof {
                self.lemma_idx_in_range(xu as int + 1, yu as int + 1);
            }
            exits.push((idx + w + 1, COST_DIAGONAL));
        }

        exits
    }

    /// Squared straight-line distance between the tiles `idx1` and `idx2`.
    pub fn distance_squared(&self, idx1: usize, idx2: usize) -> (d2: u64)
        requires
            self.wf(),
            idx1 < self.tiles.len(),
            idx2 < self.tiles.len(),
        ensures
            d2 == {
                let w = self.width as int;
                let dx = (idx1 as int) % w - (idx2 as int) % w;
                let dy = (idx1 as int) / w - (idx2 as int) / w;
                dx * dx + dy * dy
            },
    {
        let w = self.width as usize;
        let x1u = idx1 % w;
        let y1u = idx1 / w;
        let x2u = idx2 % w;
        let y2u = idx2 / w;
        proof {
            lemma_fundamental_div_mod(idx1 as int, w as int);
            lemma_fundamental_div_mod(idx2 as int, w as int);
            assert(y1u < self.height) by (nonlinear_arith)
                requires
                    idx1 == (self.width as int) * (y1u as int) + (x1u as int),
                    idx1 < (self.width as int) * (self.height as int),
                    0 <= x1u,
                    0 < self.width,
                    0 < self.height,
            ;
            assert(y2u < self.height) by (nonlinear_arith)
                requires
                    idx2 == (self.width as int) * (y2u as int) + (x2u as int),
                    idx2 < (self.width as int) * (self.height as int),
                    0 <= x2u,
                    0 < self.width,
                    0 < self.height,
            ;
        }
        let dx: i64 = x1u as i64 - x2u as i64;
        let dy: i64 = y1u as i64 - y2u as i64;
        proof {
            assert(0 <= dx * dx < 0x4000_0000_0000_0000 && 0 <= dy * dy < 0x4000_0000_0000_0000)
                by (nonlinear_arith)
                requires
                    -0x8000_0000 < dx < 0x8000_0000,
                    -0x8000_0000 < dy < 0x8000_0000,
            ;
        }
        (dx * dx + dy * dy) as u64
    }

    /// A bloodstain marks the tile `idx`.
    pub open spec fn spec_bloody(self, idx: usize) -> bool {
        self.bloodstains@.contains(idx)
    }

    /// Whether a bloodstain marks the tile `idx`.
    pub fn is_bloody(&self, idx: usize) -> (r: bool)
        ensures
            r == self.spec_bloody(idx),
    {
        let n = self.bloodstains.len();
        let mut i: usize = 0;
        while i < n
            invariant
                i <= n,
                n == self.bloodstains.len(),
                forall|j: int| 0 <= j < i ==> self.bloodstains[j] != idx,
            decreases n - i,
        {
            if self.bloodstains[i] == idx {
                return true;
            }
            i = i + 1;
        }
        false
    }

    /// Marks the tile `idx` with a bloodstain.
    pub fn add_bloodstain(&mut self, idx: usize)
        ensures
            forall|j: usize|
                #[trigger] final(self).spec_bloody(j) == (old(self).spec_bloody(j) || j == idx),
            final(self).tiles == old(self).tiles,
            final(self).width == old(self).width,
            final(self).height == old(self).height,
            final(self).revealed_tiles == old(self).revealed_tiles,
            final(self).visible_tiles == old(self).visible_tiles,
            final(self).blocked == old(self).blocked,
            final(self).depth == old(self).depth,
            final(self).tile_content == old(self).tile_content,
    {
        if !self.is_bloody(idx) {
            self.bloodstains.push(idx);
            proof {
                let s_old = old(self).bloodstains@;
                let s_new = self.bloodstains@;
                assert(s_new == s_old.push(idx));
                assert forall|j: usize| #[trigger] s_new.contains(j) implies (s_old.contains(j) || j
                    == idx) by {
                    let k = choose|k: int| 0 <= k < s_new.len() && s_new[k] == j;
                    if k < s_old.len() {
                        assert(s_old[k] == j);
                    }
                }
                assert forall|j: usize| s_old.contains(j) implies #[trigger] s_new.contains(j) by {
                    let k = choose|k: int| 0 <= k < s_old.len() && s_old[k] == j;
                    assert(s_new[k] == j);
                }
                assert(s_new[s_new.len() - 1] == idx);
                assert(s_new.contains(idx));
            }
        }
    }

    /// Reveals every tile of the given row.
    pub fn reveal_row(&mut self, row: i32)
        requires
            old(self).wf(),
            0 <= row < old(self).height,
        ensures
            final(self).wf(),
            forall|i: int|
                0 <= i < final(self).revealed_tiles.len() ==> final(self).revealed_tiles[i]
                    == (old(self).revealed_tiles[i] || (old(self).spec_idx(0, row as int) <= i
                    && i < old(self).spec_idx(0, row as int) + old(self).width)),
            final(self).tiles == old(self).tiles,
            final(self).width == old(self).width,
            final(self).height == old(self).height,
            final(self).visible_tiles == old(self).visible_tiles,
            final(self).blocked == old(self).blocked,
            final(self).depth == old(self).depth,
            final(self).bloodstains == old(self).bloodstains,
            final(self).tile_content == old(self).tile_content,
    {
        let w = self.width;
        let mut x: i32 = 0;
        while x < w
            invariant
                self.wf(),
                w == self.width,
                0 <= x <= w,
                0 <= row < self.height,
                forall|i: int|
                    0 <= i < self.revealed_tiles.len() ==> self.revealed_tiles[i]
                        == (old(self).revealed_tiles[i] || (self.spec_idx(0, row as int) <= i
                        && i < self.spec_idx(0, row as int) + x)),
                self.tiles == old(self).tiles,
                self.width == old(self).width,
                self.height == old(self).height,
                self.visible_tiles == old(self).visible_tiles,
                self.blocked == old(self).blocked,
                self.depth == old(self).depth,
                self.bloodstains == old(self).bloodstains,
                self.tile_content == old(self).tile_content,
            decreases w - x,
        {
            let idx = self.xy_idx(x, row);
            self.revealed_tiles.set(idx, true);
            x = x + 1;
        }
    }

    /// How a revealed tile is drawn: its glyph, its kind (which names its
    /// color), whether blood stains it, and whether it is in sight now.
    pub open spec fn spec_tile_draw(self, x: int, y: int) -> Option<TileDraw> {
        let i = self.spec_idx(x, y);
        if !self.revealed_tiles[i] {
            Option::None
        } else {
            Option::Some(
                TileDraw {
                    glyph: match self.tiles[i] {
                        TileType::Floor => 46u16,
                        TileType::Wall => self.spec_wall_glyph(x, y),
                        TileType::DownStairs => 62u16,
                    },
                    tile: self.tiles[i],
                    bloody: self.spec_bloody(i as usize),
                    visible: self.visible_tiles[i],
                },
            )
        }
    }

    /// Describes how the tile at `(x, y)` is drawn, or nothing while it is
    /// unrevealed: a dot for floor, a joined-up wall glyph, a `>` for the
    /// stairs, with blood and out-of-sight greying flagged.
    pub fn tile_draw(&self, x: i32, y: i32) -> (r: Option<TileDraw>)
        requires
            self.wf(),
            self.spec_in_bounds(x as int, y as int),
        ensures
            r == self.spec_tile_draw(x as int, y as int),
    {
        let idx = self.xy_idx(x, y);
        if !self.revealed_tiles[idx] {
            return Option::None;
        }
        let glyph: u16 = match self.tiles[idx] {
            TileType::Floor => 46,
            TileType::Wall => self.wall_glyph(x, y),
            TileType::DownStairs => 62,
        };
        Option::Some(
            TileDraw {
                glyph,
                tile: self.tiles[idx],
                bloody: self.is_bloody(idx),
                visible: self.visible_tiles[idx],
            },
        )
    }
}

/// What the screen needs to draw one revealed tile.
#[derive(Clone, Copy, Debug, PartialEq, Eq, Structural)]
pub struct TileDraw {
    pub glyph: u16,
    pub tile: TileType,
    pub bloody: bool,
    pub visible: bool,
}

} // verus!
