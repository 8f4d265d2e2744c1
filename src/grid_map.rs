//! The drivable-cell map of the town, held in the `pathfinding` crate's grid.
use vstd::prelude::*;
use pathfinding::grid::Grid;
use crate::geometry::{GridCell, TOWN_SIZE, in_town, vec2i32_distance2};

verus! {

#[verifier::external_type_specification]
#[verifier::external_body]
pub struct ExGrid(Grid);

/// The vertices that a `pathfinding` grid holds.
pub uninterp spec fn grid_vertices(g: Grid) -> Set<GridCell>;

/// The (width, height) that a `pathfinding` grid was made with.
pub uninterp spec fn grid_dimensions(g: Grid) -> (nat, nat);

/// Whether a `pathfinding` grid links diagonal neighbours.
pub uninterp spec fn grid_diagonal(g: Grid) -> bool;

/// Two distinct cells that touch by a side or a corner.
pub open spec fn adjacent(a: GridCell, b: GridCell) -> bool {
    a != b && -1 <= a.0 - b.0 <= 1 && -1 <= a.1 - b.1 <= 1
}

/// A walk through drivable cells: one or more cells, each step going to an
/// adjacent cell, every cell that a step leaves or enters being drivable.
pub open spec fn is_walk(cells: Set<GridCell>, w: Seq<GridCell>) -> bool {
    &&& w.len() >= 1
    &&& forall|i: int|
        0 <= i < w.len() - 1 ==> cells.contains(#[trigger] w[i]) && cells.contains(w[i + 1])
            && adjacent(w[i], w[i + 1])
}

/// A walk from `a` to `b`.
pub open spec fn walk_between(cells: Set<GridCell>, w: Seq<GridCell>, a: GridCell, b: GridCell) -> bool {
    &&& is_walk(cells, w)
    &&& w[0] == a
    &&& w.last() == b
}

/// Some walk leads from `a` to `b`.
pub open spec fn reachable(cells: Set<GridCell>, a: GridCell, b: GridCell) -> bool {
    exists|w: Seq<GridCell>| walk_between(cells, w, a, b)
}

/// The number of king moves between two cells: the larger of the two index differences.
pub open spec fn chebyshev_distance(a: GridCell, b: GridCell) -> int {
    let dx = if a.0 >= b.0 { a.0 - b.0 } else { b.0 - a.0 };
    let dy = if a.1 >= b.1 { a.1 - b.1 } else { b.1 - a.1 };
    if dx >= dy {
        dx
    } else {
        dy
    }
}

/// The first `i + 1` cells of a walk take at least the Chebyshev distance
/// between their ends in moves.
proof fn lemma_walk_prefix_at_least_chebyshev(cells: Set<GridCell>, w: Seq<GridCell>, i: int)
    requires
        is_walk(cells, w),
        0 <= i < w.len(),
    ensures
        chebyshev_distance(w[0], w[i]) <= i,
    decreases i,
{
    if i > 0 {
        lemma_walk_prefix_at_least_chebyshev(cells, w, i - 1);
        assert(adjacent(w[i - 1], w[i]));
    }
}

/// Every walk between two cells makes at least as many moves as their
/// Chebyshev distance, so a path with exactly that many moves is a shortest one.
pub proof fn lemma_walk_at_least_chebyshev(cells: Set<GridCell>, w: Seq<GridCell>, a: GridCell, b: GridCell)
    requires
        walk_between(cells, w, a, b),
    ensures
        w.len() >= chebyshev_distance(a, b) + 1,
{
    lemma_walk_prefix_at_least_chebyshev(cells, w, w.len() - 1);
}

/// `region` is an island of `cells`: no move leads from a drivable cell of
/// the region to a drivable cell outside it.
pub open spec fn closed_region(cells: Set<GridCell>, region: Set<GridCell>) -> bool {
    forall|a: GridCell, b: GridCell|
        region.contains(a) && cells.contains(a) && cells.contains(b) && #[trigger] adjacent(a, b)
            ==> region.contains(b)
}

/// Every cell of a walk that starts in an island stays in it.
proof fn lemma_walk_stays_in_region(
    cells: Set<GridCell>,
    region: Set<GridCell>,
    w: Seq<GridCell>,
    i: int,
)
    requires
        closed_region(cells, region),
        is_walk(cells, w),
        region.contains(w[0]),
        0 <= i < w.len(),
    ensures
        region.contains(w[i]),
    decreases i,
{
    if i > 0 {
        lemma_walk_stays_in_region(cells, region, w, i - 1);
        assert(cells.contains(w[i - 1]) && cells.contains(w[i]) && adjacent(w[i - 1], w[i]));
    }
}

/// No walk leads from a cell of an island to a cell outside it.
pub proof fn lemma_island_unreachable(
    cells: Set<GridCell>,
    region: Set<GridCell>,
    a: GridCell,
    b: GridCell,
)
    requires
        closed_region(cells, region),
        region.contains(a),
        !region.contains(b),
    ensures
        !reachable(cells, a, b),
{
    if reachable(cells, a, b) {
        let w = choose|w: Seq<GridCell>| walk_between(cells, w, a, b);
        lemma_walk_stays_in_region(cells, region, w, w.len() - 1);
    }
}

/// The search's goal test: the cell is the goal.
fn is_goal_cell(c: GridCell, goal: GridCell) -> (r: bool)
    ensures
        r == (c == goal),
{
    c.0 == goal.0 && c.1 == goal.1
}

/// Relies on `pathfinding::directed::astar::astar`, searching from `start` along
/// the edges that `successors` gives with `goal` as the only target: a returned
/// path starts at `start`, ends at `goal` and takes only successor edges; the
/// search returns nothing only when no such path exists, since it explores every
/// node reachable from `start`.
#[verifier::external_body]
fn astar_cells(gridmap: &TownGridMap, start: GridCell, goal: GridCell) -> (r: Option<Vec<GridCell>>)
    requires
        gridmap.wf(),
        in_town(start),
        in_town(goal),
    ensures
        r is Some ==> walk_between(gridmap@, r.unwrap()@, start, goal),
        r is None ==> !reachable(gridmap@, start, goal),
{
    pathfinding::directed::astar::astar(
        &start,
        |p: &GridCell| gridmap.successors(*p),
        |p: &GridCell| vec2i32_distance2(*p, goal),
        |p: &GridCell| is_goal_cell(*p, goal),
    ).map(|found| found.0)
}

/// Relies on `Grid::new`: a grid of the given size with no vertex and diagonal mode off.
#[verifier::external_body]
fn new_grid(width: usize, height: usize) -> (r: Grid)
    ensures
        grid_vertices(r) == Set::<GridCell>::empty(),
        grid_dimensions(r) == (width as nat, height as nat),
        !grid_diagonal(r),
{
    Grid::new(width, height)
}

/// Relies on `Grid::enable_diagonal_mode`: it turns diagonal edges on and changes nothing else.
#[verifier::external_body]
fn grid_enable_diagonal_mode(g: &mut Grid)
    ensures
        grid_vertices(*final(g)) == grid_vertices(*old(g)),
        grid_dimensions(*final(g)) == grid_dimensions(*old(g)),
        grid_diagonal(*final(g)),
{
    g.enable_diagonal_mode()
}

/// Relies on `Grid::add_vertex`: a vertex inside the grid is added, one outside
/// is ignored; the result says whether the vertex is new. The size bound keeps
/// the crate's `width * height` computation from overflowing.
#[verifier::external_body]
fn grid_add_vertex(g: &mut Grid, v: GridCell) -> (r: bool)
    requires
        grid_dimensions(*old(g)).0 * grid_dimensions(*old(g)).1 <= usize::MAX,
    ensures
        grid_dimensions(*final(g)) == grid_dimensions(*old(g)),
        grid_diagonal(*final(g)) == grid_diagonal(*old(g)),
        (v.0 < grid_dimensions(*old(g)).0 && v.1 < grid_dimensions(*old(g)).1) ==> grid_vertices(
            *final(g),
        ) == grid_vertices(*old(g)).insert(v),
        !(v.0 < grid_dimensions(*old(g)).0 && v.1 < grid_dimensions(*old(g)).1) ==> grid_vertices(
            *final(g),
        ) == grid_vertices(*old(g)),
        r == (v.0 < grid_dimensions(*old(g)).0 && v.1 < grid_dimensions(*old(g)).1
            && !grid_vertices(*old(g)).contains(v)),
{
    g.add_vertex(v)
}

/// Relies on `Grid::has_vertex`: whether the grid holds the vertex.
#[verifier::external_body]
fn grid_has_vertex(g: &Grid, v: GridCell) -> (r: bool)
    ensures
        r == grid_vertices(*g).contains(v),
{
    g.has_vertex(v)
}

/// Relies on `Grid::neighbours`: in diagonal mode, the vertices adjacent to a
/// vertex by a side or a corner, each once; none for a cell that is no vertex.
#[verifier::external_body]
fn grid_neighbours(g: &Grid, v: GridCell) -> (r: Vec<GridCell>)
    requires
        grid_diagonal(*g),
    ensures
        forall|u: GridCell|
            #[trigger] r@.contains(u) <==> (grid_vertices(*g).contains(v) && grid_vertices(
                *g,
            ).contains(u) && adjacent(u, v)),
{
    g.neighbours(v)
}

/// Relies on `Grid::iter`: it yields every vertex of the grid, and nothing else.
#[verifier::external_body]
fn grid_vertex_list(g: &Grid) -> (r: Vec<GridCell>)
    ensures
        forall|u: GridCell| #[trigger] r@.contains(u) <==> grid_vertices(*g).contains(u),
{
    g.iter().collect()
}

/// The drivable cells of the town: a `TOWN_SIZE` by `TOWN_SIZE` grid with
/// diagonal moves enabled. It is built once and only read afterwards.
pub struct TownGridMap {
    grid: Grid,
}

impl View for TownGridMap {
    type V = Set<GridCell>;

    /// The set of drivable cells.
    closed spec fn view(&self) -> Set<GridCell> {
        grid_vertices(self.grid)
    }
}

impl TownGridMap {
    /// The underlying grid has the town's size and links diagonal neighbours.
    pub closed spec fn well_shaped(&self) -> bool {
        &&& grid_dimensions(self.grid) == (TOWN_SIZE as nat, TOWN_SIZE as nat)
        &&& grid_diagonal(self.grid)
    }

    /// Well-formedness: the grid is well shaped, and every drivable cell lies inside the town.
    pub open spec fn wf(&self) -> bool {
        &&& self.well_shaped()
        &&& forall|c: GridCell| self@.contains(c) ==> in_town(c)
    }

    /// A town with no drivable cell.
    pub fn new() -> (r: TownGridMap)
        ensures
            r.wf(),
            r@ == Set::<GridCell>::empty(),
    {
        let mut grid = new_grid(TOWN_SIZE, TOWN_SIZE);
        grid_enable_diagonal_mode(&mut grid);
        TownGridMap { grid }
    }

    /// Marks a cell drivable. A cell outside the town is ignored. Returns whether
    /// the cell was newly added.
    pub fn add_cell(&mut self, c: GridCell) -> (r: bool)
        requires
            old(self).wf(),
        ensures
            final(self).wf(),
            in_town(c) ==> final(self)@ == old(self)@.insert(c),
            !in_town(c) ==> final(self)@ == old(self)@,
            r == (in_town(c) && !old(self)@.contains(c)),
    {
        grid_add_vertex(&mut self.grid, c)
    }

    /// Whether a cell is drivable.
    pub fn has_cell(&self, c: GridCell) -> (r: bool)
        ensures
            r == self@.contains(c),
    {
        grid_has_vertex(&self.grid, c)
    }

    /// The drivable cells, in no particular order.
    pub fn cells(&self) -> (r: Vec<GridCell>)
        ensures
            forall|u: GridCell| #[trigger] r@.contains(u) <==> self@.contains(u),
    {
        grid_vertex_list(&self.grid)
    }

    /// The drivable cells next to a cell, by a side or a corner.
    pub fn neighbours(&self, c: GridCell) -> (r: Vec<GridCell>)
        requires
            self.wf(),
        ensures
            forall|u: GridCell|
                #[trigger] r@.contains(u) <==> (self@.contains(c) && self@.contains(u) && adjacent(
                    u,
                    c,
                )),
    {
        grid_neighbours(&self.grid, c)
    }

    /// The search edges out of a cell: each drivable neighbour, at cost one.
    pub fn successors(&self, c: GridCell) -> (r: Vec<(GridCell, u64)>)
        requires
            self.wf(),
        ensures
            forall|u: GridCell, cost: u64|
                #[trigger] r@.contains((u, cost)) <==> (cost == 1 && self@.contains(c) && self@.contains(u)
                    && adjacent(u, c)),
    {
        let near = self.neighbours(c);
        let mut r: Vec<(GridCell, u64)> = Vec::new();
        let mut i: usize = 0;
        while i < near.len()
            invariant
                i <= near.len(),
                r.len() == i,
                forall|j: int| 0 <= j < i ==> #[trigger] r@[j] == (near@[j], 1u64),
            decreases near.len() - i,
        {
            r.push((near[i], 1));
            i = i + 1;
        }
        assert forall|u: GridCell, cost: u64|
            #[trigger] r@.contains((u, cost)) <==> (cost == 1 && self@.contains(c) && self@.contains(
                u,
            ) && adjacent(u, c)) by {
            if r@.contains((u, cost)) {
                let j = choose|j: int| 0 <= j < r.len() && r@[j] == (u, cost);
                assert(near@[j] == u);
            }
            if cost == 1 && near@.contains(u) {
                let j = choose|j: int| 0 <= j < near.len() && near@[j] == u;
                assert(r@[j] == (u, cost));
            }
        }
        r
    }

    /// Runs the shortest-path search between two cells of the town.
    pub fn search_path(&self, start: GridCell, goal: GridCell) -> (r: Option<Vec<GridCell>>)
        requires
            self.wf(),
            in_town(start),
            in_town(goal),
        ensures
            r is Some ==> walk_between(self@, r.unwrap()@, start, goal),
            r is None ==> !reachable(self@, start, goal),
    {
        astar_cells(self, start, goal)
    }
}

} // verus!
