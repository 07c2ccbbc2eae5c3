//! Tiles, the tile map, and the viewport over it.
//!
//! A `TileMap` is a bounded, row-major grid of classified `Tile`s, immutable
//! once filled. A `TileMapView` is a movable fixed-size window over the map's
//! coordinate space; it supports both an edge-clamped scrolling policy and a
//! free/centering policy whose visible ranges are clipped to the map.

use std::ops::Range;
use vstd::prelude::*;
use vstd::arithmetic::div_mod::lemma_fundamental_div_mod_converse;
use vstd::arithmetic::mul::lemma_mul_inequality;

verus! {

/// Largest accepted map or viewport dimension. Keeps every index computation
/// (`y * width + x`, at most `2^30`) within `usize` and `isize` on any target.
pub const MAX_MAP_DIM: usize = 32768;

/// The closed set of biome styles a tile can carry, ordered conceptually by
/// elevation from high rock down to deep water.
#[derive(Clone, Copy, Debug, PartialEq, Eq, Structural)]
pub enum TileStyle {
    RockHigh,
    RockLow,
    Dirt,
    DirtFarmed,
    Tree,
    GrassPlain,
    GrassCoastal,
    Sand,
    WaterShallow,
    WaterDeep,
}

/// A point in view (screen-relative) coordinates; may be negative or exceed
/// the viewport bounds, so callers check before using it as a screen index.
#[derive(Clone, Copy, Debug, PartialEq, Eq, Structural)]
pub struct Coord {
    pub x: isize,
    pub y: isize,
}

/// One grid cell: its world position, biome style, and a per-tile random
/// value in `[0, 1)` scaled by `flock::UNIT`, fixed at generation time and
/// used only for rendering variation.
#[derive(Clone, Copy, Debug, PartialEq, Eq, Structural)]
pub struct Tile {
    pub x: usize,
    pub y: usize,
    pub style: TileStyle,
    pub rand_offset: u32,
}

/// The owned grid of tiles, row-major, immutable after `fill_tiles`.
pub struct TileMap {
    pub width: usize,
    pub height: usize,
    pub tiles: Vec<Tile>,
}

impl TileMap {
    /// Both dimensions are positive and small enough that `width * height`
    /// fits comfortably in `usize`.
    pub open spec fn dims_ok(self) -> bool {
        &&& 1 <= self.width <= MAX_MAP_DIM
        &&& 1 <= self.height <= MAX_MAP_DIM
    }

    /// A fully built map: one tile per cell, each tile recording its own
    /// row-major position.
    pub open spec fn wf(self) -> bool {
        &&& self.dims_ok()
        &&& self.tiles.len() == self.width * self.height
        &&& forall|i: int|
            0 <= i < self.tiles.len() ==> (#[trigger] self.tiles[i]).x == i % (
            self.width as int) && self.tiles[i].y == i / (self.width as int)
    }

    /// The tile at world position `(x, y)` of a well-formed map.
    pub open spec fn spec_tile_at(self, x: int, y: int) -> Tile {
        self.tiles[y * self.width + x]
    }

    pub fn new(width: usize, height: usize) -> (map: TileMap)
        requires
            1 <= width <= MAX_MAP_DIM,
            1 <= height <= MAX_MAP_DIM,
        ensures
            map.width == width,
            map.height == height,
            map.tiles.len() == 0,
            map.dims_ok(),
    {
        TileMap { width, height, tiles: Vec::new() }
    }

    /// Fill the grid by invoking `factory` exactly once per cell, row-major.
    /// The factory must stamp each tile with the cell position it was called
    /// for; the filled map is then well-formed, and every tile is an output
    /// of the factory at its own position.
    pub fn fill_tiles<F: Fn(usize, usize) -> Tile>(&mut self, factory: F)
        requires
            old(self).dims_ok(),
            old(self).tiles.len() == 0,
            forall|x: usize, y: usize|
                x < old(self).width && y < old(self).height ==> call_requires(factory, (x, y)),
            forall|x: usize, y: usize, t: Tile| call_ensures(factory, (x, y), t) ==> t.x == x
                && t.y == y,
        ensures
            final(self).width == old(self).width,
            final(self).height == old(self).height,
            final(self).wf(),
            forall|i: int|
                0 <= i < final(self).tiles.len() ==> call_ensures(
                    factory,
                    ((i % (old(self).width as int)) as usize, (i / (old(self).width as int)) as usize),
                    #[trigger] final(self).tiles[i],
                ),
    {
        let width = self.width;
        let height = self.height;
        proof {
            lemma_mul_inequality(width as int, MAX_MAP_DIM as int, height as int);
        }
        let mut y: usize = 0;
        while y < height
            invariant
                self.width == width,
                self.height == height,
                1 <= width <= MAX_MAP_DIM,
                1 <= height <= MAX_MAP_DIM,
                width * height <= MAX_MAP_DIM * MAX_MAP_DIM,
                y <= height,
                self.tiles.len() == y * width,
                forall|x: usize, yy: usize|
                    x < width && yy < height ==> call_requires(factory, (x, yy)),
                forall|x: usize, yy: usize, t: Tile| call_ensures(factory, (x, yy), t) ==> t.x
                    == x && t.y == yy,
                forall|i: int|
                    0 <= i < self.tiles.len() ==> call_ensures(
                        factory,
                        ((i % (width as int)) as usize, (i / (width as int)) as usize),
                        #[trigger] self.tiles[i],
                    ),
            decreases height - y,
        {
            let mut x: usize = 0;
            proof {
                lemma_mul_inequality(y as int, height as int - 1, width as int);
                assert((height - 1) * width + width == height * width) by (nonlinear_arith);
            }
            while x < width
                invariant
                    self.width == width,
                    self.height == height,
                    1 <= width <= MAX_MAP_DIM,
                    1 <= height <= MAX_MAP_DIM,
                    y < height,
                    x <= width,
                    y * width + width <= height * width,
                    width * height <= MAX_MAP_DIM * MAX_MAP_DIM,
                    self.tiles.len() == y * width + x,
                    forall|xx: usize, yy: usize|
                        xx < width && yy < height ==> call_requires(factory, (xx, yy)),
                    forall|xx: usize, yy: usize, t: Tile| call_ensures(factory, (xx, yy), t)
                        ==> t.x == xx && t.y == yy,
                    forall|i: int|
                        0 <= i < self.tiles.len() ==> call_ensures(
                            factory,
                            ((i % (width as int)) as usize, (i / (width as int)) as usize),
                            #[trigger] self.tiles[i],
                        ),
                decreases width - x,
            {
                let t = factory(x, y);
                proof {
                    lemma_fundamental_div_mod_converse(
                        (y * width + x) as int,
                        width as int,
                        y as int,
                        x as int,
                    );
                }
                self.tiles.push(t);
                x += 1;
            }
            y += 1;
            proof {
                assert((y - 1) * width + width == y * width) by (nonlinear_arith);
            }
        }
        proof {
            assert(width * height == height * width) by (nonlinear_arith);
            assert forall|i: int| 0 <= i < self.tiles.len() implies (#[trigger] self.tiles[i]).x
                == i % (width as int) && self.tiles[i].y == i / (width as int) by {
                assert(call_ensures(
                    factory,
                    ((i % (width as int)) as usize, (i / (width as int)) as usize),
                    self.tiles[i],
                ));
            }
        }
    }

    /// Bounds-checked lookup: `Some` exactly on positions inside
    /// `[0, width) x [0, height)`, and the returned tile records that
    /// position; `None` (no tile here) everywhere else.
    pub fn get_tile(&self, x: usize, y: usize) -> (r: Option<&Tile>)
        requires
            self.wf(),
        ensures
            match r {
                Some(t) => {
                    &&& x < self.width
                    &&& y < self.height
                    &&& *t == self.spec_tile_at(x as int, y as int)
                    &&& t.x == x
                    &&& t.y == y
                },
                None => x >= self.width || y >= self.height,
            },
    {
        if x >= self.width || y >= self.height {
            return None;
        }
        proof {
            lemma_mul_inequality(y as int, self.height as int - 1, self.width as int);
            assert((self.height - 1) * self.width + self.width == self.height * self.width)
                by (nonlinear_arith);
            assert(self.height * self.width == self.width * self.height) by (nonlinear_arith);
            assert(y * self.width + x < self.width * self.height);
            lemma_fundamental_div_mod_converse(
                (y * self.width + x) as int,
                self.width as int,
                y as int,
                x as int,
            );
        }
        let index = y * self.width + x;
        Some(&self.tiles[index])
    }
}

/// A fixed-size window over a map's coordinate space. The origin `(x, y)` is
/// in world coordinates and, under the free/centering policy, may place the
/// window partially or fully outside the map; visible ranges are clipped to
/// the map. The clamped-scroll methods keep the origin inside
/// `[0, map_dim - view_dim]` instead.
pub struct TileMapView {
    pub width: usize,
    pub height: usize,
    pub x: isize,
    pub y: isize,
    pub map_width: usize,
    pub map_height: usize,
}

impl TileMapView {
    /// Dimensions are positive and bounded, and the origin stays within one
    /// map-dimension bound of the map, which keeps all view arithmetic exact.
    pub open spec fn wf(self) -> bool {
        &&& 1 <= self.width <= MAX_MAP_DIM
        &&& 1 <= self.height <= MAX_MAP_DIM
        &&& 1 <= self.map_width <= MAX_MAP_DIM
        &&& 1 <= self.map_height <= MAX_MAP_DIM
        &&& -(MAX_MAP_DIM as int) <= self.x <= MAX_MAP_DIM as int
        &&& -(MAX_MAP_DIM as int) <= self.y <= MAX_MAP_DIM as int
    }

    /// First world column inside both the window and the map.
    pub open spec fn vis_col_lo(self) -> int {
        if self.x > 0 { self.x as int } else { 0 }
    }

    /// One past the last visible world column.
    pub open spec fn vis_col_hi(self) -> int {
        if self.x + self.width < self.map_width { self.x + self.width } else { self.map_width as int }
    }

    /// Number of visible columns (zero when the window misses the map).
    pub open spec fn vis_cols(self) -> int {
        if self.vis_col_hi() > self.vis_col_lo() { self.vis_col_hi() - self.vis_col_lo() } else { 0 }
    }

    /// First world row inside both the window and the map.
    pub open spec fn vis_row_lo(self) -> int {
        if self.y > 0 { self.y as int } else { 0 }
    }

    /// One past the last visible world row.
    pub open spec fn vis_row_hi(self) -> int {
        if self.y + self.height < self.map_height { self.y + self.height } else { self.map_height as int }
    }

    /// Number of visible rows (zero when the window misses the map).
    pub open spec fn vis_rows(self) -> int {
        if self.vis_row_hi() > self.vis_row_lo() { self.vis_row_hi() - self.vis_row_lo() } else { 0 }
    }

    pub fn new(map: &TileMap, width: usize, height: usize) -> (v: TileMapView)
        requires
            map.dims_ok(),
            1 <= width <= MAX_MAP_DIM,
            1 <= height <= MAX_MAP_DIM,
        ensures
            v.wf(),
            v.width == width,
            v.height == height,
            v.x == 0,
            v.y == 0,
            v.map_width == map.width,
            v.map_height == map.height,
    {
        TileMapView {
            width,
            height,
            x: 0,
            y: 0,
            map_width: map.width,
            map_height: map.height,
        }
    }

    /// One backing-store index range per visible row, clipped to the map:
    /// never a negative-length range, never an index outside
    /// `[0, map_width * map_height]`. A window entirely outside the map
    /// yields no ranges.
    pub fn get_tile_ranges(&self) -> (ranges: Vec<Range<usize>>)
        requires
            self.wf(),
        ensures
            ranges@.len() == if self.vis_cols() > 0 { self.vis_rows() } else { 0 },
            forall|k: int|
                0 <= k < ranges@.len() ==> (#[trigger] ranges@[k]).start as int == (
                self.vis_row_lo() + k) * self.map_width + self.vis_col_lo() && ranges@[k].end
                == ranges@[k].start + self.vis_cols(),
            forall|k: int|
                0 <= k < ranges@.len() ==> (#[trigger] ranges@[k]).start <= ranges@[k].end
                    && ranges@[k].end <= self.map_width * self.map_height,
    {
        let mut ranges: Vec<Range<usize>> = Vec::new();
        let col_lo: isize = if self.x > 0 { self.x } else { 0 };
        let col_hi_raw: isize = self.x + self.width as isize;
        let col_hi: isize = if col_hi_raw < self.map_width as isize {
            col_hi_raw
        } else {
            self.map_width as isize
        };
        let ncols: isize = if col_hi > col_lo { col_hi - col_lo } else { 0 };
        let row_lo: isize = if self.y > 0 { self.y } else { 0 };
        let row_hi_raw: isize = self.y + self.height as isize;
        let row_hi: isize = if row_hi_raw < self.map_height as isize {
            row_hi_raw
        } else {
            self.map_height as isize
        };
        let nrows: isize = if row_hi > row_lo { row_hi - row_lo } else { 0 };
        if ncols > 0 {
            let mut k: isize = 0;
            while k < nrows
                invariant
                    self.wf(),
                    0 <= k <= nrows,
                    col_lo == self.vis_col_lo(),
                    ncols == self.vis_cols(),
                    row_lo == self.vis_row_lo(),
                    nrows == self.vis_rows(),
                    ncols > 0,
                    ranges@.len() == k,
                    forall|j: int|
                        0 <= j < k ==> (#[trigger] ranges@[j]).start as int == (self.vis_row_lo()
                            + j) * self.map_width + self.vis_col_lo() && ranges@[j].end
                            == ranges@[j].start + self.vis_cols(),
                    forall|j: int|
                        0 <= j < k ==> (#[trigger] ranges@[j]).start <= ranges@[j].end
                            && ranges@[j].end <= self.map_width * self.map_height,
                decreases nrows - k,
            {
                proof {
                    assert((row_lo + k) * self.map_width + self.map_width == (row_lo + k + 1)
                        * self.map_width) by (nonlinear_arith);
                    lemma_mul_inequality(
                        row_lo + k + 1,
                        self.map_height as int,
                        self.map_width as int,
                    );
                    lemma_mul_inequality(
                        self.map_height as int,
                        MAX_MAP_DIM as int,
                        self.map_width as int,
                    );
                    assert(self.map_height * self.map_width == self.map_width * self.map_height)
                        by (nonlinear_arith);
                    assert((row_lo + k) * self.map_width >= 0) by (nonlinear_arith)
                        requires row_lo + k >= 0 && self.map_width >= 1;
                }
                let start: usize = ((row_lo + k) as usize) * self.map_width + (col_lo as usize);
                let end: usize = start + (ncols as usize);
                ranges.push(start..end);
                k += 1;
            }
        }
        ranges
    }

    /// Translate a world position into view coordinates by subtracting the
    /// origin. The result may lie outside `[0, width) x [0, height)`.
    pub fn world_to_view_coord(&self, x: usize, y: usize) -> (c: Coord)
        requires
            self.wf(),
            x < self.map_width,
            y < self.map_height,
        ensures
            c.x as int == x - self.x,
            c.y as int == y - self.y,
    {
        Coord { x: x as isize - self.x, y: y as isize - self.y }
    }

    /// Move the origin so that `(x, y)` maps to the window's centre, with
    /// integer (floor) division of the window dimensions.
    pub fn centre_on_map_point(&mut self, x: usize, y: usize)
        requires
            old(self).wf(),
            x < old(self).map_width,
            y < old(self).map_height,
        ensures
            final(self).x as int == x - old(self).width as int / 2,
            final(self).y as int == y - old(self).height as int / 2,
            final(self).width == old(self).width,
            final(self).height == old(self).height,
            final(self).map_width == old(self).map_width,
            final(self).map_height == old(self).map_height,
            final(self).wf(),
    {
        self.x = x as isize - (self.width / 2) as isize;
        self.y = y as isize - (self.height / 2) as isize;
    }

    /// The origin after one clamped step east: the step is silently dropped
    /// when it would push the window's right edge past the map's.
    pub open spec fn spec_scrolled_east(self) -> TileMapView {
        if self.x + 1 + self.width <= self.map_width {
            TileMapView { x: (self.x + 1) as isize, ..self }
        } else {
            self
        }
    }

    /// The origin after one clamped step south.
    pub open spec fn spec_scrolled_south(self) -> TileMapView {
        if self.y + 1 + self.height <= self.map_height {
            TileMapView { y: (self.y + 1) as isize, ..self }
        } else {
            self
        }
    }

    /// The origin after one clamped step west (clamped at zero).
    pub open spec fn spec_scrolled_west(self) -> TileMapView {
        if self.x >= 1 {
            TileMapView { x: (self.x - 1) as isize, ..self }
        } else {
            self
        }
    }

    /// The origin after one clamped step north (clamped at zero).
    pub open spec fn spec_scrolled_north(self) -> TileMapView {
        if self.y >= 1 {
            TileMapView { y: (self.y - 1) as isize, ..self }
        } else {
            self
        }
    }

    /// One-step clamped scroll east; a no-op at the map's eastern edge.
    pub fn scroll_east(&mut self)
        requires
            old(self).wf(),
        ensures
            *final(self) == old(self).spec_scrolled_east(),
            final(self).wf(),
    {
        if self.x + 1 + self.width as isize <= self.map_width as isize {
            self.x = self.x + 1;
        }
    }

    /// One-step clamped scroll south; a no-op at the map's southern edge.
    pub fn scroll_south(&mut self)
        requires
            old(self).wf(),
        ensures
            *final(self) == old(self).spec_scrolled_south(),
            final(self).wf(),
    {
        if self.y + 1 + self.height as isize <= self.map_height as isize {
            self.y = self.y + 1;
        }
    }

    /// One-step clamped scroll west; a no-op at origin column zero.
    pub fn scroll_west(&mut self)
        requires
            old(self).wf(),
        ensures
            *final(self) == old(self).spec_scrolled_west(),
            final(self).wf(),
    {
        if self.x >= 1 {
            self.x = self.x - 1;
        }
    }

    /// One-step clamped scroll north; a no-op at origin row zero.
    pub fn scroll_north(&mut self)
        requires
            old(self).wf(),
        ensures
            *final(self) == old(self).spec_scrolled_north(),
            final(self).wf(),
    {
        if self.y >= 1 {
            self.y = self.y - 1;
        }
    }

    /// The view after one camera-follow adjustment toward the tracked point
    /// `(x, y)`: scroll one clamped step per axis, and only when the
    /// point's view coordinate has entered the edge padding band, so the
    /// camera shows hysteresis instead of recentering on every frame.
    pub open spec fn spec_followed(self, x: int, y: int, padding: int) -> TileMapView {
        let h = if x - self.x < padding {
            self.spec_scrolled_west()
        } else if x - self.x >= self.width - padding {
            self.spec_scrolled_east()
        } else {
            self
        };
        if y - h.y < padding {
            h.spec_scrolled_north()
        } else if y - h.y >= h.height - padding {
            h.spec_scrolled_south()
        } else {
            h
        }
    }

    /// Camera-follow with hysteresis: a clamped one-step scroll per axis,
    /// taken only when the tracked point sits within `padding` of the
    /// window's edge.
    pub fn follow_map_point(&mut self, x: usize, y: usize, padding: usize)
        requires
            old(self).wf(),
            x < old(self).map_width,
            y < old(self).map_height,
            2 * padding < old(self).width,
            2 * padding < old(self).height,
        ensures
            *final(self) == old(self).spec_followed(x as int, y as int, padding as int),
            final(self).wf(),
    {
        let vx = x as isize - self.x;
        if vx < padding as isize {
            self.scroll_west();
        } else if vx >= self.width as isize - padding as isize {
            self.scroll_east();
        }
        let vy = y as isize - self.y;
        if vy < padding as isize {
            self.scroll_north();
        } else if vy >= self.height as isize - padding as isize {
            self.scroll_south();
        }
    }

    /// The view after `n` clamped steps east.
    pub open spec fn spec_scrolled_east_n(self, n: nat) -> TileMapView
        decreases n,
    {
        if n == 0 {
            self
        } else {
            self.spec_scrolled_east_n((n - 1) as nat).spec_scrolled_east()
        }
    }

    /// The view after `n` clamped steps south.
    pub open spec fn spec_scrolled_south_n(self, n: nat) -> TileMapView
        decreases n,
    {
        if n == 0 {
            self
        } else {
            self.spec_scrolled_south_n((n - 1) as nat).spec_scrolled_south()
        }
    }
}

/// Clamped-scroll law, eastward: starting from an origin whose window lies
/// within the map horizontally, any number of one-step scrolls east keeps
/// `0 <= origin.x <= map_width - width`; and from the eastern clamp itself,
/// every further scroll east is a no-op.
pub proof fn lemma_clamped_scroll_east(v: TileMapView, n: nat)
    requires
        v.wf(),
        0 <= v.x,
        v.x + v.width <= v.map_width,
    ensures
        0 <= v.spec_scrolled_east_n(n).x,
        v.spec_scrolled_east_n(n).x + v.width <= v.map_width,
        v.spec_scrolled_east_n(n).width == v.width,
        v.spec_scrolled_east_n(n).map_width == v.map_width,
        v.spec_scrolled_east_n(n).wf(),
        v.x + v.width == v.map_width ==> v.spec_scrolled_east_n(n) == v,
    decreases n,
{
    if n == 0 {
        assert(v.spec_scrolled_east_n(0) == v);
    } else {
        lemma_clamped_scroll_east(v, (n - 1) as nat);
        let w = v.spec_scrolled_east_n((n - 1) as nat);
        assert(v.spec_scrolled_east_n(n) == w.spec_scrolled_east());
    }
}

/// Clamped-scroll law, southward: the mirror of `lemma_clamped_scroll_east`
/// for `origin.y` against `map_height - height`.
pub proof fn lemma_clamped_scroll_south(v: TileMapView, n: nat)
    requires
        v.wf(),
        0 <= v.y,
        v.y + v.height <= v.map_height,
    ensures
        0 <= v.spec_scrolled_south_n(n).y,
        v.spec_scrolled_south_n(n).y + v.height <= v.map_height,
        v.spec_scrolled_south_n(n).height == v.height,
        v.spec_scrolled_south_n(n).map_height == v.map_height,
        v.spec_scrolled_south_n(n).wf(),
        v.y + v.height == v.map_height ==> v.spec_scrolled_south_n(n) == v,
    decreases n,
{
    if n == 0 {
        assert(v.spec_scrolled_south_n(0) == v);
    } else {
        lemma_clamped_scroll_south(v, (n - 1) as nat);
        let w = v.spec_scrolled_south_n((n - 1) as nat);
        assert(v.spec_scrolled_south_n(n) == w.spec_scrolled_south());
    }
}

} // verus!
