//! World points, grid cells and the fixed affine map between them.
use vstd::prelude::*;

verus! {

/// Side length of the square town grid, in cells.
pub const TOWN_SIZE: usize = 1000;

/// Fixed-point scale of world coordinates: one world unit is this many milli-units.
pub const WORLD_UNIT: i64 = 1000;

/// Cells per world unit (the grid zoom).
pub const TOWN_ZOOM: i64 = 1;

/// Largest magnitude of a world coordinate that the navigation stack accepts,
/// in milli-units (a million world units). Squared distances of such points fit in `i64`.
pub const WORLD_LIMIT: i64 = 1_000_000_000;

/// Half a turn (pi radians) in microradians; angles are measured in microradians.
pub const HALF_TURN: i64 = 3_141_593;

/// A full turn (two pi radians) in microradians.
pub const FULL_TURN: i64 = 2 * HALF_TURN;

/// A grid cell, as (column, row).
pub type GridCell = (usize, usize);

/// A point of the continuous world plane, in milli-units.
#[derive(Clone, Copy, Debug, PartialEq, Eq, Structural)]
pub struct WorldPoint {
    pub x: i64,
    pub y: i64,
}

impl WorldPoint {
    /// Both coordinates lie within `[-WORLD_LIMIT, WORLD_LIMIT]`.
    pub open spec fn valid(self) -> bool {
        -WORLD_LIMIT <= self.x <= WORLD_LIMIT && -WORLD_LIMIT <= self.y <= WORLD_LIMIT
    }

    pub fn new(x: i64, y: i64) -> (r: WorldPoint)
        ensures
            r.x == x,
            r.y == y,
    {
        WorldPoint { x, y }
    }

    /// The world origin, which the path follower also uses as its "no destination" mark.
    pub fn origin() -> (r: WorldPoint)
        ensures
            r.x == 0,
            r.y == 0,
    {
        WorldPoint { x: 0, y: 0 }
    }

    /// Whether both coordinates are within `WORLD_LIMIT`.
    pub fn is_valid(&self) -> (r: bool)
        ensures
            r == self.valid(),
    {
        -WORLD_LIMIT <= self.x && self.x <= WORLD_LIMIT && -WORLD_LIMIT <= self.y && self.y
            <= WORLD_LIMIT
    }
}

/// Division rounding toward zero, as a cast from a real number to an integer does.
pub open spec fn trunc_div(a: int, b: int) -> int
    recommends
        b > 0,
{
    if a >= 0 {
        a / b
    } else {
        -((-a) / b)
    }
}

/// `v` clamped into `[lo, hi]`.
pub open spec fn clamp_spec(v: int, lo: int, hi: int) -> int {
    if v < lo {
        lo
    } else if v > hi {
        hi
    } else {
        v
    }
}

/// Grid index of a world coordinate (milli-units), before clamping: the
/// coordinate in world units scaled by the zoom and shifted by half the town,
/// truncated toward zero.
pub open spec fn world_to_grid_coord(w: int) -> int {
    trunc_div(w * TOWN_ZOOM as int + TOWN_SIZE as int * WORLD_UNIT as int / 2, WORLD_UNIT as int)
}

/// World coordinate of the centre of grid index `i`.
pub open spec fn grid_to_world_coord(i: int) -> int {
    (i * WORLD_UNIT as int + WORLD_UNIT as int / 2 - TOWN_SIZE as int * WORLD_UNIT as int / 2)
        / TOWN_ZOOM as int
}

/// Grid index of a world coordinate, clamped into `[0, TOWN_SIZE)`.
pub open spec fn world_to_grid_coord_clamped(w: int) -> int {
    clamp_spec(world_to_grid_coord(w), 0, TOWN_SIZE as int - 1)
}

/// The grid cell that holds a world point, clamped into the grid.
pub open spec fn world_to_cell(p: WorldPoint) -> GridCell {
    (
        world_to_grid_coord_clamped(p.x as int) as usize,
        world_to_grid_coord_clamped(p.y as int) as usize,
    )
}

/// The world point at the centre of a grid cell.
pub open spec fn cell_center(c: GridCell) -> WorldPoint {
    WorldPoint {
        x: grid_to_world_coord(c.0 as int) as i64,
        y: grid_to_world_coord(c.1 as int) as i64,
    }
}

/// A cell lies inside the town grid.
pub open spec fn in_town(c: GridCell) -> bool {
    c.0 < TOWN_SIZE && c.1 < TOWN_SIZE
}

/// Squared Euclidean distance of two grid cells, in cells squared.
pub open spec fn cell_distance2(a: GridCell, b: GridCell) -> int {
    (a.0 - b.0) * (a.0 - b.0) + (a.1 - b.1) * (a.1 - b.1)
}

/// Squared Euclidean distance of two world points, in milli-units squared.
pub open spec fn world_distance2(a: WorldPoint, b: WorldPoint) -> int {
    (a.x - b.x) * (a.x - b.x) + (a.y - b.y) * (a.y - b.y)
}

/// `v` clamped into `[lo, hi]`.
pub fn clamp(v: i64, lo: i64, hi: i64) -> (r: i64)
    requires
        lo <= hi,
    ensures
        r == clamp_spec(v as int, lo as int, hi as int),
{
    if v < lo {
        lo
    } else if v > hi {
        hi
    } else {
        v
    }
}

/// Grid index of a world coordinate without clamping.
fn world_to_grid_index(w: i64) -> (r: i64)
    requires
        -WORLD_LIMIT <= w <= WORLD_LIMIT,
    ensures
        r == world_to_grid_coord(w as int),
{
    let shifted = w * TOWN_ZOOM + (TOWN_SIZE as i64) * WORLD_UNIT / 2;
    if shifted >= 0 {
        shifted / WORLD_UNIT
    } else {
        -((-shifted) / WORLD_UNIT)
    }
}

/// The grid position of a world point, truncated but not clamped.
pub fn world_to_gridmap_xy(pos: WorldPoint) -> (r: (i64, i64))
    requires
        pos.valid(),
    ensures
        r.0 == world_to_grid_coord(pos.x as int),
        r.1 == world_to_grid_coord(pos.y as int),
{
    (world_to_grid_index(pos.x), world_to_grid_index(pos.y))
}

/// A grid position clamped into `[0, TOWN_SIZE)` on both axes.
pub fn gridmap_enforce_bounds(v: (i64, i64)) -> (r: GridCell)
    ensures
        r.0 == clamp_spec(v.0 as int, 0, TOWN_SIZE as int - 1),
        r.1 == clamp_spec(v.1 as int, 0, TOWN_SIZE as int - 1),
        in_town(r),
{
    let top = TOWN_SIZE as i64 - 1;
    (clamp(v.0, 0, top) as usize, clamp(v.1, 0, top) as usize)
}

/// The grid cell holding a world point; points outside the town map to the
/// nearest border cell.
pub fn world_to_gridmap_xy_enforce_bounds(pos: WorldPoint) -> (r: GridCell)
    requires
        pos.valid(),
    ensures
        r == world_to_cell(pos),
        in_town(r),
{
    gridmap_enforce_bounds(world_to_gridmap_xy(pos))
}

/// The world point at the centre of a grid cell.
pub fn gridmap_xy_to_world(c: GridCell) -> (r: WorldPoint)
    requires
        in_town(c),
    ensures
        r == cell_center(c),
        r.valid(),
{
    let x = (c.0 as i64 * WORLD_UNIT + WORLD_UNIT / 2 - (TOWN_SIZE as i64) * WORLD_UNIT / 2) / TOWN_ZOOM;
    let y = (c.1 as i64 * WORLD_UNIT + WORLD_UNIT / 2 - (TOWN_SIZE as i64) * WORLD_UNIT / 2) / TOWN_ZOOM;
    WorldPoint { x, y }
}

/// Squared distance of two cells of the town, as the search heuristic and the
/// nearest-cell scan measure it.
pub fn vec2i32_distance2(a: GridCell, b: GridCell) -> (r: u64)
    requires
        in_town(a),
        in_town(b),
    ensures
        r == cell_distance2(a, b),
{
    let dx = a.0 as i64 - b.0 as i64;
    let dy = a.1 as i64 - b.1 as i64;
    assert(dx * dx <= 1_000_000) by (nonlinear_arith)
        requires
            -1000 <= dx <= 1000,
    ;
    assert(dy * dy <= 1_000_000) by (nonlinear_arith)
        requires
            -1000 <= dy <= 1000,
    ;
    assert(dx * dx >= 0 && dy * dy >= 0) by (nonlinear_arith);
    (dx * dx + dy * dy) as u64
}

/// Squared distance of two world points, in milli-units squared.
pub fn world_distance2_of(a: WorldPoint, b: WorldPoint) -> (r: i64)
    requires
        a.valid(),
        b.valid(),
    ensures
        r == world_distance2(a, b),
{
    let dx = a.x - b.x;
    let dy = a.y - b.y;
    proof {
        vstd::arithmetic::mul::lemma_mul_upper_bound(abs_of(dx as int), 2 * WORLD_LIMIT, abs_of(dx as int), 2 * WORLD_LIMIT);
        vstd::arithmetic::mul::lemma_mul_upper_bound(abs_of(dy as int), 2 * WORLD_LIMIT, abs_of(dy as int), 2 * WORLD_LIMIT);
        assert(dx * dx == abs_of(dx as int) * abs_of(dx as int)) by (nonlinear_arith);
        assert(dy * dy == abs_of(dy as int) * abs_of(dy as int)) by (nonlinear_arith);
        assert(dx * dx >= 0 && dy * dy >= 0) by (nonlinear_arith);
    }
    dx * dx + dy * dy
}

pub open spec fn abs_of(v: int) -> int {
    if v < 0 {
        -v
    } else {
        v
    }
}

/// Mapping the centre of any cell back to the grid gives that cell.
pub proof fn lemma_cell_round_trip(c: GridCell)
    requires
        in_town(c),
    ensures
        world_to_cell(cell_center(c)) == c,
        cell_center(c).valid(),
{
}

/// A world point beyond an edge of the town maps to the border cell on that
/// side; every point maps to a cell inside the grid.
pub proof fn lemma_far_points_clamp(p: WorldPoint)
    requires
        p.valid(),
    ensures
        in_town(world_to_cell(p)),
        p.x <= -(TOWN_SIZE * WORLD_UNIT / 2) ==> world_to_cell(p).0 == 0,
        p.x >= TOWN_SIZE * WORLD_UNIT / 2 ==> world_to_cell(p).0 == TOWN_SIZE - 1,
        p.y <= -(TOWN_SIZE * WORLD_UNIT / 2) ==> world_to_cell(p).1 == 0,
        p.y >= TOWN_SIZE * WORLD_UNIT / 2 ==> world_to_cell(p).1 == TOWN_SIZE - 1,
{
}

} // verus!
