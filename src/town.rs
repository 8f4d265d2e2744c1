//! Town generators, the nearest-free-cell query and the shortest-path search.
use vstd::prelude::*;
use std::collections::VecDeque;
use crate::geometry::{
    FULL_TURN, GridCell, TOWN_SIZE, WorldPoint, cell_center, cell_distance2, clamp_spec,
    gridmap_xy_to_world, in_town, lemma_cell_round_trip, vec2i32_distance2, world_to_cell,
    world_to_gridmap_xy_enforce_bounds,
};
use crate::grid_map::{TownGridMap, adjacent, chebyshev_distance, reachable, walk_between};
use crate::random::RandomSource;

verus! {

/// Side of the square block of the test town, in cells.
pub const SQUARE_BLOCK_SIDE: usize = 10;

/// The cells of the test town: a `SQUARE_BLOCK_SIDE`-wide block whose lowest
/// corner is the centre cell of the grid.
pub open spec fn in_square_block(c: GridCell) -> bool {
    &&& TOWN_SIZE / 2 <= c.0 < TOWN_SIZE / 2 + SQUARE_BLOCK_SIDE
    &&& TOWN_SIZE / 2 <= c.1 < TOWN_SIZE / 2 + SQUARE_BLOCK_SIDE
}

/// The drivable cells of the test town.
pub open spec fn square_block() -> Set<GridCell> {
    Set::new(|c: GridCell| in_square_block(c))
}

/// Lowest and highest index of the test block on either axis.
pub open spec fn block_low() -> int {
    (TOWN_SIZE / 2) as int
}

pub open spec fn block_high() -> int {
    (TOWN_SIZE / 2 + SQUARE_BLOCK_SIDE - 1) as int
}

/// The cell of the test block nearest to `q`: `q` clamped into the block.
pub open spec fn clamp_to_block(q: GridCell) -> GridCell {
    (
        clamp_spec(q.0 as int, block_low(), block_high()) as usize,
        clamp_spec(q.1 as int, block_low(), block_high()) as usize,
    )
}

/// A cell of the test block on its outer ring.
pub open spec fn on_block_boundary(c: GridCell) -> bool {
    &&& in_square_block(c)
    &&& (c.0 == block_low() || c.0 == block_high() || c.1 == block_low() || c.1 == block_high())
}

/// On one axis, the clamp of `q` into `[lo, hi]` is strictly nearer to `q`
/// than any other index of that range.
proof fn lemma_clamp_nearest_on_axis(v: int, q: int, lo: int, hi: int)
    requires
        lo <= v <= hi,
    ensures
        (clamp_spec(q, lo, hi) - q) * (clamp_spec(q, lo, hi) - q) <= (v - q) * (v - q),
        (clamp_spec(q, lo, hi) - q) * (clamp_spec(q, lo, hi) - q) == (v - q) * (v - q) ==> v
            == clamp_spec(q, lo, hi),
{
    let c = clamp_spec(q, lo, hi);
    let a = if v >= q { v - q } else { q - v };
    let b = if c >= q { c - q } else { q - c };
    assert(0 <= b <= a);
    assert(b * b <= a * a) by (nonlinear_arith)
        requires
            0 <= b <= a,
    ;
    assert(b * b == a * a ==> a == b) by (nonlinear_arith)
        requires
            0 <= b <= a,
    ;
    assert((c - q) * (c - q) == b * b) by (nonlinear_arith)
        requires
            b == c - q || b == q - c,
    ;
    assert((v - q) * (v - q) == a * a) by (nonlinear_arith)
        requires
            a == v - q || a == q - v,
    ;
}

/// On the test town, the free space nearest to any world point is the centre
/// of the point's cell clamped into the block; for a point outside the block
/// that cell lies on the block's outer ring.
pub proof fn lemma_square_block_nearest(p: WorldPoint)
    requires
        p.valid(),
    ensures
        free_space_close_to(square_block(), p) == Some(cell_center(clamp_to_block(world_to_cell(p)))),
        !in_square_block(world_to_cell(p)) ==> on_block_boundary(clamp_to_block(world_to_cell(p))),
{
    let q = world_to_cell(p);
    let c = clamp_to_block(q);
    let cells = square_block();
    assert(cells.contains(c));
    assert forall|v: GridCell| #[trigger] cells.contains(v) implies nearer_or_first(c, v, q) by {
        lemma_clamp_nearest_on_axis(v.0 as int, q.0 as int, block_low(), block_high());
        lemma_clamp_nearest_on_axis(v.1 as int, q.1 as int, block_low(), block_high());
    }
    assert(is_nearest_cell(cells, q, c));
    lemma_nearest_cell_unique(cells, q, c, nearest_cell(cells, q));
    assert(cells != Set::<GridCell>::empty()) by {
        assert(cells.contains(c));
    }
}

/// One king move from `a` toward `b`: each index moves one step closer, or stays if equal.
pub open spec fn step_toward(a: GridCell, b: GridCell) -> GridCell {
    let x = if a.0 < b.0 { a.0 + 1 } else if a.0 > b.0 { a.0 - 1 } else { a.0 as int };
    let y = if a.1 < b.1 { a.1 + 1 } else if a.1 > b.1 { a.1 - 1 } else { a.1 as int };
    (x as usize, y as usize)
}

/// Any two cells of the test town are joined by a walk, so a path search
/// between them never fails.
pub proof fn lemma_square_block_connected(a: GridCell, b: GridCell)
    requires
        in_square_block(a),
        in_square_block(b),
    ensures
        reachable(square_block(), a, b),
    decreases chebyshev_distance(a, b),
{
    let cells = square_block();
    if a == b {
        let w = seq![a];
        assert(walk_between(cells, w, a, b));
    } else {
        let n = step_toward(a, b);
        assert(chebyshev_distance(n, b) < chebyshev_distance(a, b));
        lemma_square_block_connected(n, b);
        let w1 = choose|w: Seq<GridCell>| walk_between(cells, w, n, b);
        let w = seq![a] + w1;
        assert forall|i: int| 0 <= i < w.len() - 1 implies cells.contains(#[trigger] w[i])
            && cells.contains(w[i + 1]) && adjacent(w[i], w[i + 1]) by {
            if i > 0 {
                assert(w[i] == w1[i - 1]);
                assert(w[i + 1] == w1[i]);
            }
        }
        assert(walk_between(cells, w, a, b));
    }
}

/// A town whose only drivable cells form one solid square block.
pub fn make_square_town_gridmap() -> (r: TownGridMap)
    ensures
        r.wf(),
        r@ == square_block(),
{
    let mut gridmap = TownGridMap::new();
    let mut x: usize = 0;
    while x < SQUARE_BLOCK_SIDE
        invariant
            x <= SQUARE_BLOCK_SIDE,
            gridmap.wf(),
            gridmap@ == Set::new(
                |c: GridCell| in_square_block(c) && c.0 < TOWN_SIZE / 2 + x,
            ),
        decreases SQUARE_BLOCK_SIDE - x,
    {
        let mut y: usize = 0;
        while y < SQUARE_BLOCK_SIDE
            invariant
                x < SQUARE_BLOCK_SIDE,
                y <= SQUARE_BLOCK_SIDE,
                gridmap.wf(),
                gridmap@ == Set::new(
                    |c: GridCell|
                        in_square_block(c) && (c.0 < TOWN_SIZE / 2 + x || (c.0 == TOWN_SIZE / 2
                            + x && c.1 < TOWN_SIZE / 2 + y)),
                ),
            decreases SQUARE_BLOCK_SIDE - y,
        {
            gridmap.add_cell((TOWN_SIZE / 2 + x, TOWN_SIZE / 2 + y));
            assert(gridmap@ =~= Set::new(
                |c: GridCell|
                    in_square_block(c) && (c.0 < TOWN_SIZE / 2 + x || (c.0 == TOWN_SIZE / 2 + x
                        && c.1 < TOWN_SIZE / 2 + y + 1)),
            ));
            y = y + 1;
        }
        assert(gridmap@ =~= Set::new(
            |c: GridCell| in_square_block(c) && c.0 < TOWN_SIZE / 2 + x + 1,
        ));
        x = x + 1;
    }
    assert(gridmap@ =~= Set::new(|c: GridCell| in_square_block(c)));
    gridmap
}

/// Half-width, in cells, of the square that a turtle of the random town
/// generator paints at each step, and the length of its step.
pub const TURTLE_DRAW_RADIUS: i64 = 4;

/// Number of turtles that one random town may spawn in all.
pub const MAX_TURTLES: u32 = 15;

/// Number of steps after which a turtle stops even if it is still inside the town.
pub const MAX_TURTLE_STEPS: u32 = 100_000;

/// Largest heading change of a turtle at one step, in microradians (one radian).
pub const MAX_TURTLE_TURN: i64 = 1_000_000;

/// A cell that a turtle may paint: inside the town and off its outermost ring.
pub open spec fn paintable(c: GridCell) -> bool {
    1 <= c.0 <= TOWN_SIZE - 2 && 1 <= c.1 <= TOWN_SIZE - 2
}

/// The cell `c` lies in the square that a turtle at `pos` paints: offsets
/// from `-TURTLE_DRAW_RADIUS` up to `TURTLE_DRAW_RADIUS - 1` on each axis.
pub open spec fn in_turtle_square(pos: (i64, i64), c: GridCell) -> bool {
    &&& pos.0 - TURTLE_DRAW_RADIUS <= c.0 < pos.0 + TURTLE_DRAW_RADIUS
    &&& pos.1 - TURTLE_DRAW_RADIUS <= c.1 < pos.1 + TURTLE_DRAW_RADIUS
}

/// The whole square of a turtle at `pos` is paintable.
pub open spec fn turtle_square_paintable(pos: (i64, i64)) -> bool {
    &&& 1 <= pos.0 - TURTLE_DRAW_RADIUS
    &&& pos.0 + TURTLE_DRAW_RADIUS - 1 <= TOWN_SIZE - 2
    &&& 1 <= pos.1 - TURTLE_DRAW_RADIUS
    &&& pos.1 + TURTLE_DRAW_RADIUS - 1 <= TOWN_SIZE - 2
}

/// Turtle positions stay within this distance, in cells, of the town.
pub open spec fn turtle_pos_ok(pos: (i64, i64)) -> bool {
    -200 <= pos.0 <= TOWN_SIZE + 200 && -200 <= pos.1 <= TOWN_SIZE + 200
}

/// The cell at offset `(a, b)` from `pos` is paintable and painted.
pub open spec fn painted_at(cells: Set<GridCell>, pos: (i64, i64), a: int, b: int) -> bool {
    &&& 1 <= pos.0 + a <= TOWN_SIZE - 2
    &&& 1 <= pos.1 + b <= TOWN_SIZE - 2
    &&& cells.contains(((pos.0 + a) as usize, (pos.1 + b) as usize))
}

/// One walker of the random town generator: a cell position and a heading in microradians.
struct TownTurtle {
    pos: (i64, i64),
    theta: i64,
}

/// Paints the square of a turtle at `pos`, row by row. At the first cell that
/// is not paintable it stops and returns `false`; cells painted before it stay.
fn mark_turtle_square(gridmap: &mut TownGridMap, pos: (i64, i64)) -> (r: bool)
    requires
        old(gridmap).wf(),
        turtle_pos_ok(pos),
    ensures
        final(gridmap).wf(),
        forall|c: GridCell| old(gridmap)@.contains(c) ==> #[trigger] final(gridmap)@.contains(c),
        forall|c: GridCell|
            #[trigger] final(gridmap)@.contains(c) ==> old(gridmap)@.contains(c) || paintable(c),
        r == turtle_square_paintable(pos),
        r ==> forall|c: GridCell| in_turtle_square(pos, c) ==> #[trigger] final(gridmap)@.contains(c),
{
    let mut ok = true;
    let mut dx: i64 = -TURTLE_DRAW_RADIUS;
    while ok && dx < TURTLE_DRAW_RADIUS
        invariant
            gridmap.wf(),
            turtle_pos_ok(pos),
            -TURTLE_DRAW_RADIUS <= dx <= TURTLE_DRAW_RADIUS,
            forall|c: GridCell| old(gridmap)@.contains(c) ==> #[trigger] gridmap@.contains(c),
            forall|c: GridCell| #[trigger] gridmap@.contains(c) ==> old(gridmap)@.contains(c) || paintable(c),
            !ok ==> !turtle_square_paintable(pos),
            ok ==> forall|a: int, b: int|
                -TURTLE_DRAW_RADIUS <= a < dx && -TURTLE_DRAW_RADIUS <= b < TURTLE_DRAW_RADIUS
                    ==> painted_at(gridmap@, pos, a, b),
        decreases TURTLE_DRAW_RADIUS - dx, (if ok { 1int } else { 0int }),
    {
        let mut dy: i64 = -TURTLE_DRAW_RADIUS;
        while ok && dy < TURTLE_DRAW_RADIUS
            invariant
                gridmap.wf(),
                turtle_pos_ok(pos),
                -TURTLE_DRAW_RADIUS <= dx < TURTLE_DRAW_RADIUS,
                -TURTLE_DRAW_RADIUS <= dy <= TURTLE_DRAW_RADIUS,
                forall|c: GridCell| old(gridmap)@.contains(c) ==> #[trigger] gridmap@.contains(c),
                forall|c: GridCell|
                    #[trigger] gridmap@.contains(c) ==> old(gridmap)@.contains(c) || paintable(c),
                !ok ==> !turtle_square_paintable(pos),
                ok ==> forall|a: int, b: int|
                    -TURTLE_DRAW_RADIUS <= a < TURTLE_DRAW_RADIUS && -TURTLE_DRAW_RADIUS <= b
                        < TURTLE_DRAW_RADIUS && (a < dx || (a == dx && b < dy)) ==> painted_at(
                        gridmap@,
                        pos,
                        a,
                        b,
                    ),
            decreases TURTLE_DRAW_RADIUS - dy, (if ok { 1int } else { 0int }),
        {
            let mx = pos.0 + dx;
            let my = pos.1 + dy;
            let top = TOWN_SIZE as i64 - 1;
            if mx <= 0 || mx >= top || my <= 0 || my >= top {
                ok = false;
            } else {
                let ghost before = gridmap@;
                gridmap.add_cell((mx as usize, my as usize));
                assert forall|a: int, b: int|
                    -TURTLE_DRAW_RADIUS <= a < TURTLE_DRAW_RADIUS && -TURTLE_DRAW_RADIUS <= b
                        < TURTLE_DRAW_RADIUS && (a < dx || (a == dx && b < dy + 1)) implies painted_at(
                    gridmap@,
                    pos,
                    a,
                    b,
                ) by {
                    if !(a == dx && b == dy) {
                        assert(painted_at(before, pos, a, b));
                    }
                }
                dy = dy + 1;
            }
        }
        if ok {
            dx = dx + 1;
        }
    }
    if ok {
        assert(painted_at(gridmap@, pos, -TURTLE_DRAW_RADIUS, -TURTLE_DRAW_RADIUS));
        assert(painted_at(gridmap@, pos, TURTLE_DRAW_RADIUS - 1, TURTLE_DRAW_RADIUS - 1));
        assert forall|c: GridCell| in_turtle_square(pos, c) implies #[trigger] gridmap@.contains(c) by {
            assert(painted_at(gridmap@, pos, c.0 - pos.0, c.1 - pos.1));
        }
    }
    ok
}

/// Adds a heading change to a heading, both in microradians, keeping the
/// result in `[0, FULL_TURN)`.
fn turn_heading(theta: i64, delta: i64) -> (r: i64)
    requires
        0 <= theta < FULL_TURN,
        -FULL_TURN < delta < FULL_TURN,
    ensures
        0 <= r < FULL_TURN,
        r == (theta + delta) % (FULL_TURN as int),
{
    let t = theta + delta;
    if t < 0 {
        t + FULL_TURN
    } else if t >= FULL_TURN {
        t - FULL_TURN
    } else {
        t
    }
}

/// A random town grown by "turtles" that walk from the centre of the grid and
/// paint the cells around them, like an organic road network.
///
/// The first turtle starts at the centre cell with a random heading. Turtles
/// are walked one after the other, first spawned first. At each step a turtle
/// paints its square (stopping for good at the first cell on or beyond the
/// town's outermost ring), turns by a random angle of at most one radian with
/// chance 4 in 255, moves by `advance(heading)`, and with chance 14 in 255
/// spawns a new turtle with a random heading at its new position, while fewer
/// than `MAX_TURTLES` turtles have been spawned.
///
/// `advance` gives, for a heading in microradians, the whole-cell offset of a
/// step of `TURTLE_DRAW_RADIUS` cells along it (each coordinate of the rotated
/// vector truncated toward zero): that is floating-point work left to the
/// caller. The draws come from a generator seeded with `seed`, so equal seeds
/// and equal `advance` give equal towns.
pub fn make_random_town_gridmap<F: Fn(i64) -> (i8, i8)>(seed: u64, advance: F) -> (r: TownGridMap)
    requires
        forall|t: i64| advance.requires((t,)),
    ensures
        r.wf(),
        forall|c: GridCell| #[trigger] r@.contains(c) ==> paintable(c),
        forall|c: GridCell|
            in_turtle_square(((TOWN_SIZE / 2) as i64, (TOWN_SIZE / 2) as i64), c) ==> #[trigger] r@.contains(c),
{
    let mut rng = RandomSource::from_seed(seed);
    let mut gridmap = TownGridMap::new();
    let center: (i64, i64) = (TOWN_SIZE as i64 / 2, TOWN_SIZE as i64 / 2);
    let first_turtle = TownTurtle { pos: center, theta: rng.gen_range(0, FULL_TURN) };
    let mut turtles: VecDeque<TownTurtle> = VecDeque::new();
    turtles.push_back(first_turtle);
    let mut turtle_counter: u32 = 1;
    let ghost mut started = false;
    while turtles.len() > 0
        invariant
            forall|t: i64| advance.requires((t,)),
            gridmap.wf(),
            1 <= turtle_counter <= MAX_TURTLES,
            forall|c: GridCell| #[trigger] gridmap@.contains(c) ==> paintable(c),
            forall|i: int|
                0 <= i < turtles.len() ==> turtle_pos_ok(#[trigger] turtles@[i].pos) && 0
                    <= turtles@[i].theta < FULL_TURN,
            center == ((TOWN_SIZE / 2) as i64, (TOWN_SIZE / 2) as i64),
            !started ==> turtles.len() == 1 && turtles@[0].pos == center,
            started ==> forall|c: GridCell|
                in_turtle_square(center, c) ==> #[trigger] gridmap@.contains(c),
        decreases turtles.len() + (MAX_TURTLES - turtle_counter),
    {
        let ghost first = !started;
        assert(turtle_pos_ok(turtles@[0].pos));
        assert(0 <= turtles@[0].theta < FULL_TURN);
        let mut turtle = match turtles.pop_front() {
            Some(t) => t,
            None => { return gridmap; },
        };
        let ghost measure = turtles.len() + (MAX_TURTLES - turtle_counter);
        let mut walking = true;
        let mut steps: u32 = 0;
        while walking && steps < MAX_TURTLE_STEPS
            invariant
                forall|t: i64| advance.requires((t,)),
                gridmap.wf(),
                1 <= turtle_counter <= MAX_TURTLES,
                turtles.len() + (MAX_TURTLES - turtle_counter) == measure,
                steps <= MAX_TURTLE_STEPS,
                turtle_pos_ok(turtle.pos),
                0 <= turtle.theta < FULL_TURN,
                forall|c: GridCell| #[trigger] gridmap@.contains(c) ==> paintable(c),
                forall|i: int|
                    0 <= i < turtles.len() ==> turtle_pos_ok(#[trigger] turtles@[i].pos) && 0
                        <= turtles@[i].theta < FULL_TURN,
                center == ((TOWN_SIZE / 2) as i64, (TOWN_SIZE / 2) as i64),
                first && steps == 0 ==> turtle.pos == center,
                first && steps == 0 && !walking ==> !turtle_square_paintable(center),
                (started || (first && steps > 0)) ==> forall|c: GridCell|
                    in_turtle_square(center, c) ==> #[trigger] gridmap@.contains(c),
            decreases MAX_TURTLE_STEPS - steps, (if walking { 1int } else { 0int }),
        {
            if !mark_turtle_square(&mut gridmap, turtle.pos) {
                walking = false;
            } else {
                if rng.gen_range(0, 255) > 250 {
                    let delta = rng.gen_range(-MAX_TURTLE_TURN, MAX_TURTLE_TURN);
                    turtle.theta = turn_heading(turtle.theta, delta);
                }
                let step = advance(turtle.theta);
                turtle.pos = (turtle.pos.0 + step.0 as i64, turtle.pos.1 + step.1 as i64);
                if rng.gen_range(0, 255) > 240 && turtle_counter < MAX_TURTLES {
                    let new_turtle = TownTurtle { pos: turtle.pos, theta: rng.gen_range(0, FULL_TURN) };
                    turtles.push_back(new_turtle);
                    turtle_counter = turtle_counter + 1;
                }
                steps = steps + 1;
            }
        }
        proof {
            if first {
                assert(center.0 == 500 && center.1 == 500);
                assert(turtle_square_paintable(center));
            }
            started = true;
        }
    }
    gridmap
}

/// Cell `a` is at least as good an answer as cell `b` to a nearest-cell query
/// from `q`: it is strictly closer, or equally close and not after `b` in
/// column-major order (by column, then by row).
pub open spec fn nearer_or_first(a: GridCell, b: GridCell, q: GridCell) -> bool {
    ||| cell_distance2(a, q) < cell_distance2(b, q)
    ||| (cell_distance2(a, q) == cell_distance2(b, q) && (a.0 < b.0 || (a.0 == b.0 && a.1 <= b.1)))
}

/// `c` is the drivable cell nearest to `q`, the first in column-major order among equals.
pub open spec fn is_nearest_cell(cells: Set<GridCell>, q: GridCell, c: GridCell) -> bool {
    &&& cells.contains(c)
    &&& forall|v: GridCell| #[trigger] cells.contains(v) ==> nearer_or_first(c, v, q)
}

/// A nearest-cell query has at most one answer.
pub proof fn lemma_nearest_cell_unique(cells: Set<GridCell>, q: GridCell, a: GridCell, b: GridCell)
    requires
        is_nearest_cell(cells, q, a),
        is_nearest_cell(cells, q, b),
    ensures
        a == b,
{
    assert(nearer_or_first(a, b, q));
    assert(nearer_or_first(b, a, q));
}

/// The drivable cell nearest to `q` (meaningful when some cell is drivable).
pub open spec fn nearest_cell(cells: Set<GridCell>, q: GridCell) -> GridCell {
    choose|c: GridCell| is_nearest_cell(cells, q, c)
}

/// The answer to a free-space query from world point `p`: the world centre of
/// the drivable cell nearest to the clamped cell of `p`, or `None` when no cell is drivable.
pub open spec fn free_space_close_to(cells: Set<GridCell>, p: WorldPoint) -> Option<WorldPoint> {
    if cells == Set::<GridCell>::empty() {
        None
    } else {
        Some(cell_center(nearest_cell(cells, world_to_cell(p))))
    }
}

/// The drivable cell nearest to cell `q`, by a scan of every drivable cell;
/// `None` when the town has no drivable cell.
pub fn find_free_cell_close_to(gridmap: &TownGridMap, q: GridCell) -> (r: Option<GridCell>)
    requires
        gridmap.wf(),
        in_town(q),
    ensures
        r is None <==> gridmap@ == Set::<GridCell>::empty(),
        r is Some ==> is_nearest_cell(gridmap@, q, r.unwrap()),
{
    let cells = gridmap.cells();
    let mut best: Option<GridCell> = None;
    let mut best_d: u64 = 0;
    let mut i: usize = 0;
    while i < cells.len()
        invariant
            gridmap.wf(),
            in_town(q),
            i <= cells.len(),
            forall|u: GridCell| #[trigger] cells@.contains(u) <==> gridmap@.contains(u),
            best is None <==> i == 0,
            best is Some ==> {
                let b = best.unwrap();
                &&& gridmap@.contains(b)
                &&& best_d == cell_distance2(b, q)
                &&& forall|j: int| 0 <= j < i ==> nearer_or_first(b, #[trigger] cells@[j], q)
            },
        decreases cells.len() - i,
    {
        let c = cells[i];
        assert(cells@.contains(c));
        let d = vec2i32_distance2(c, q);
        let better = match best {
            None => true,
            Some(b) => d < best_d || (d == best_d && (c.0 < b.0 || (c.0 == b.0 && c.1 < b.1))),
        };
        if better {
            best = Some(c);
            best_d = d;
        }
        i = i + 1;
    }
    if best.is_none() {
        assert forall|u: GridCell| !gridmap@.contains(u) by {
            if gridmap@.contains(u) {
                assert(cells@.contains(u));
            }
        }
        assert(gridmap@ =~= Set::<GridCell>::empty());
    } else {
        let b = best.unwrap();
        assert forall|v: GridCell| #[trigger] gridmap@.contains(v) implies nearer_or_first(b, v, q) by {
            assert(cells@.contains(v));
            let j = choose|j: int| 0 <= j < cells.len() && cells@[j] == v;
        }
        assert(gridmap@.contains(b));
    }
    best
}

/// The world centre of the drivable cell nearest to a world point (the point
/// is first mapped to its clamped grid cell); `None` when the town has no
/// drivable cell.
pub fn find_free_space_close_to(gridmap: &TownGridMap, query_point: WorldPoint) -> (r: Option<
    WorldPoint,
>)
    requires
        gridmap.wf(),
        query_point.valid(),
    ensures
        r == free_space_close_to(gridmap@, query_point),
        r is Some ==> r.unwrap().valid(),
        r is Some ==> is_nearest_cell(gridmap@, world_to_cell(query_point), world_to_cell(r.unwrap())),
{
    let query_grid_pos = world_to_gridmap_xy_enforce_bounds(query_point);
    match find_free_cell_close_to(gridmap, query_grid_pos) {
        Some(c) => {
            proof {
                let n = nearest_cell(gridmap@, query_grid_pos);
                lemma_nearest_cell_unique(gridmap@, query_grid_pos, c, n);
                lemma_cell_round_trip(c);
            }
            Some(gridmap_xy_to_world(c))
        },
        None => None,
    }
}

/// The world centres of the cells of a walk.
pub open spec fn walk_points(w: Seq<GridCell>) -> Seq<WorldPoint> {
    w.map_values(|c: GridCell| cell_center(c))
}

/// Shortest-path search between the cells that hold two world points (both
/// clamped into the grid), over drivable cells with moves to any of the eight
/// neighbours. The path runs from the start cell to the end cell, both
/// included, as world cell centres; `None` exactly when no walk joins them.
pub fn find_shortest_path(gridmap: &TownGridMap, start_point: WorldPoint, end_point: WorldPoint) -> (r:
    Option<VecDeque<WorldPoint>>)
    requires
        gridmap.wf(),
        start_point.valid(),
        end_point.valid(),
    ensures
        r is None <==> !reachable(gridmap@, world_to_cell(start_point), world_to_cell(end_point)),
        r is Some ==> exists|w: Seq<GridCell>|
            walk_between(gridmap@, w, world_to_cell(start_point), world_to_cell(end_point))
                && r.unwrap()@ == walk_points(w),
        r is Some ==> forall|i: int| 0 <= i < r.unwrap()@.len() ==> (#[trigger] r.unwrap()@[i]).valid(),
{
    let start_point_grid = world_to_gridmap_xy_enforce_bounds(start_point);
    let end_point_grid = world_to_gridmap_xy_enforce_bounds(end_point);
    match gridmap.search_path(start_point_grid, end_point_grid) {
        Some(cells) => {
            let ghost w = cells@;
            let mut points: VecDeque<WorldPoint> = VecDeque::new();
            let mut i: usize = 0;
            while i < cells.len()
                invariant
                    gridmap.wf(),
                    w == cells@,
                    walk_between(gridmap@, w, start_point_grid, end_point_grid),
                    in_town(end_point_grid),
                    i <= cells.len(),
                    points@ == walk_points(w).take(i as int),
                    forall|j: int| 0 <= j < points@.len() ==> (#[trigger] points@[j]).valid(),
                decreases cells.len() - i,
            {
                if i + 1 < cells.len() {
                    assert(gridmap@.contains(w[i as int]));
                }
                let p = gridmap_xy_to_world(cells[i]);
                points.push_back(p);
                assert(points@ =~= walk_points(w).take(i as int + 1));
                i = i + 1;
            }
            assert(points@ =~= walk_points(w));
            Some(points)
        },
        None => None,
    }
}

} // verus!
