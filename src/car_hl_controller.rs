//! The long-horizon path follower: per-vehicle destination and waypoint queue,
//! re-planning, waypoint arrival and the target heading.
use vstd::prelude::*;
use std::collections::VecDeque;
use crate::geometry::{GridCell, WorldPoint, world_distance2, world_distance2_of, world_to_cell};
use crate::grid_map::{TownGridMap, reachable, walk_between};
use crate::random::RandomSource;
use crate::town::{find_free_space_close_to, find_shortest_path, free_space_close_to, walk_points};

verus! {

/// Below this squared distance to its destination (21 world units squared, in
/// milli-units squared) a vehicle picks a new destination.
pub const REPLAN_DISTANCE2: i64 = 21_000_000;

/// Below this squared distance to its next waypoint (20 world units squared,
/// in milli-units squared) a vehicle counts the waypoint as reached.
pub const WAYPOINT_REACHED_DISTANCE2: i64 = 20_000_000;

/// New destinations are drawn in the square `[-TARGET_LIMIT, TARGET_LIMIT)`
/// around the world origin on both axes (100 world units, in milli-units).
pub const TARGET_LIMIT: i64 = 100_000;

/// What the path follower hands to the motion controller.
pub struct CarHighLevelControllerState {
    /// Target heading in microradians.
    pub target_yaw: i64,
    /// Target forward speed in milli-units per second.
    pub target_long_speed: i64,
}

impl CarHighLevelControllerState {
    pub fn new() -> (r: CarHighLevelControllerState)
        ensures
            r.target_yaw == 0,
            r.target_long_speed == 0,
    {
        CarHighLevelControllerState { target_yaw: 0, target_long_speed: 0 }
    }
}

/// Navigation state of one vehicle: its destination, with the world origin
/// standing for "no destination", and the waypoints still to visit, next first.
pub struct CarPathControllerState {
    pub destination_point: WorldPoint,
    pub path: VecDeque<WorldPoint>,
}

/// The world origin, the mark of "no destination".
pub open spec fn no_destination() -> WorldPoint {
    WorldPoint { x: 0, y: 0 }
}

/// A vehicle at `car` heading for `destination` picks a new destination: it
/// is close to it, or has none.
pub open spec fn wants_replan(destination: WorldPoint, car: WorldPoint) -> bool {
    world_distance2(destination, car) < REPLAN_DISTANCE2 || destination == no_destination()
}

/// A candidate destination lies in the square new destinations are drawn from.
pub open spec fn in_target_square(p: WorldPoint) -> bool {
    -TARGET_LIMIT <= p.x < TARGET_LIMIT && -TARGET_LIMIT <= p.y < TARGET_LIMIT
}

/// The outcome of re-planning from `car` toward `candidate`, with target speed
/// `old_speed` before: destination, path and target speed after.
///
/// Both points are resolved to their nearest drivable cell centres. If either
/// has none, the destination is cleared and the path emptied. Otherwise, if a
/// walk joins them, the destination is the resolved candidate and the path a
/// walk between them; if none does, the destination is cleared, the path
/// emptied and the target speed set to zero.
pub open spec fn replanned(
    cells: Set<GridCell>,
    car: WorldPoint,
    candidate: WorldPoint,
    old_speed: int,
    destination: WorldPoint,
    path: Seq<WorldPoint>,
    speed: int,
) -> bool {
    match (free_space_close_to(cells, car), free_space_close_to(cells, candidate)) {
        (Some(s), Some(e)) => if reachable(cells, world_to_cell(s), world_to_cell(e)) {
            &&& destination == e
            &&& speed == old_speed
            &&& exists|w: Seq<GridCell>|
                walk_between(cells, w, world_to_cell(s), world_to_cell(e)) && path == walk_points(w)
        } else {
            &&& destination == no_destination()
            &&& path.len() == 0
            &&& speed == 0
        },
        _ => {
            &&& destination == no_destination()
            &&& path.len() == 0
            &&& speed == old_speed
        },
    }
}

/// One waypoint step of a vehicle at `car` with path `before`: with no
/// waypoint the target heading is zero; otherwise it is the heading that
/// `heading_toward` gives for the vector from `car` to the first waypoint, and
/// that waypoint is dropped when it is reached.
pub open spec fn followed<F: Fn(i64, i64) -> i64>(
    before: Seq<WorldPoint>,
    car: WorldPoint,
    after: Seq<WorldPoint>,
    yaw: i64,
    heading_toward: F,
) -> bool {
    if before.len() == 0 {
        after.len() == 0 && yaw == 0
    } else {
        let front = before[0];
        &&& heading_toward.ensures(((front.x - car.x) as i64, (front.y - car.y) as i64), yaw)
        &&& after == if world_distance2(front, car) < WAYPOINT_REACHED_DISTANCE2 {
            before.drop_first()
        } else {
            before
        }
    }
}

/// After re-planning the destination is cleared or is the drivable cell
/// centre nearest to the candidate: the old destination plays no part.
pub proof fn lemma_replan_takes_candidate(
    cells: Set<GridCell>,
    car: WorldPoint,
    candidate: WorldPoint,
    old_speed: int,
    destination: WorldPoint,
    path: Seq<WorldPoint>,
    speed: int,
)
    requires
        replanned(cells, car, candidate, old_speed, destination, path, speed),
    ensures
        destination == no_destination() || free_space_close_to(cells, candidate) == Some(
            destination,
        ),
{
}

/// One tick of the path follower for a vehicle at `car` with destination
/// `old_dest`, path `old_path` and target speed `old_speed`, re-planning
/// toward `candidate` if it wants a new destination, then steering toward its
/// next waypoint: the destination, path, target speed and target heading after.
pub open spec fn path_tick<F: Fn(i64, i64) -> i64>(
    cells: Set<GridCell>,
    car: WorldPoint,
    candidate: WorldPoint,
    old_dest: WorldPoint,
    old_path: Seq<WorldPoint>,
    old_speed: int,
    new_dest: WorldPoint,
    new_path: Seq<WorldPoint>,
    new_speed: int,
    new_yaw: i64,
    heading_toward: F,
) -> bool {
    if wants_replan(old_dest, car) {
        exists|path: Seq<WorldPoint>|
            replanned(cells, car, candidate, old_speed, new_dest, path, new_speed) && followed(
                path,
                car,
                new_path,
                new_yaw,
                heading_toward,
            )
    } else {
        &&& new_dest == old_dest
        &&& new_speed == old_speed
        &&& followed(old_path, car, new_path, new_yaw, heading_toward)
    }
}

impl CarPathControllerState {
    /// The destination and every waypoint are valid world points.
    pub open spec fn wf(&self) -> bool {
        &&& self.destination_point.valid()
        &&& forall|i: int| 0 <= i < self.path@.len() ==> (#[trigger] self.path@[i]).valid()
    }

    /// A vehicle with no destination and no path.
    pub fn new() -> (r: CarPathControllerState)
        ensures
            r.wf(),
            r.destination_point == no_destination(),
            r.path@.len() == 0,
    {
        CarPathControllerState { destination_point: WorldPoint::origin(), path: VecDeque::new() }
    }

    /// Whether a vehicle at `car_center` picks a new destination this tick.
    pub fn needs_replan(&self, car_center: WorldPoint) -> (r: bool)
        requires
            self.wf(),
            car_center.valid(),
        ensures
            r == wants_replan(self.destination_point, car_center),
    {
        world_distance2_of(self.destination_point, car_center) < REPLAN_DISTANCE2
            || self.destination_point == WorldPoint::origin()
    }

    /// Re-plans from `car_center` toward `candidate`: see `replanned`.
    pub fn replan_toward(
        &mut self,
        controller_state: &mut CarHighLevelControllerState,
        gridmap: &TownGridMap,
        car_center: WorldPoint,
        candidate: WorldPoint,
    )
        requires
            old(self).wf(),
            gridmap.wf(),
            car_center.valid(),
            candidate.valid(),
        ensures
            final(self).wf(),
            final(controller_state).target_yaw == old(controller_state).target_yaw,
            replanned(
                gridmap@,
                car_center,
                candidate,
                old(controller_state).target_long_speed as int,
                final(self).destination_point,
                final(self).path@,
                final(controller_state).target_long_speed as int,
            ),
    {
        let start_point = find_free_space_close_to(gridmap, car_center);
        let end_point = find_free_space_close_to(gridmap, candidate);
        match (start_point, end_point) {
            (Some(s), Some(e)) => {
                self.destination_point = e;
                match find_shortest_path(gridmap, s, e) {
                    Some(shortest_path) => {
                        self.path = shortest_path;
                    },
                    None => {
                        controller_state.target_long_speed = 0;
                        self.destination_point = WorldPoint::origin();
                        self.path = VecDeque::new();
                    },
                }
            },
            _ => {
                self.destination_point = WorldPoint::origin();
                self.path = VecDeque::new();
            },
        }
    }

    /// Steers toward the next waypoint: see `followed`. `heading_toward` gives
    /// the heading, in microradians from the +x axis, of a world vector.
    pub fn follow_path<F: Fn(i64, i64) -> i64>(
        &mut self,
        controller_state: &mut CarHighLevelControllerState,
        car_center: WorldPoint,
        heading_toward: F,
    )
        requires
            old(self).wf(),
            car_center.valid(),
            forall|dx: i64, dy: i64| heading_toward.requires((dx, dy)),
        ensures
            final(self).wf(),
            final(self).destination_point == old(self).destination_point,
            final(controller_state).target_long_speed == old(controller_state).target_long_speed,
            followed(
                old(self).path@,
                car_center,
                final(self).path@,
                final(controller_state).target_yaw,
                heading_toward,
            ),
    {
        if self.path.len() == 0 {
            controller_state.target_yaw = 0;
        } else {
            let next_step_point = self.path[0];
            assert(next_step_point.valid());
            let angle = heading_toward(
                next_step_point.x - car_center.x,
                next_step_point.y - car_center.y,
            );
            if world_distance2_of(next_step_point, car_center) < WAYPOINT_REACHED_DISTANCE2 {
                let _ = self.path.pop_front();
                assert(self.path@ =~= old(self).path@.drop_first());
            }
            controller_state.target_yaw = angle;
        }
    }

    /// One tick of the path follower with a given candidate destination: if
    /// the vehicle wants a new destination it re-plans toward `candidate`, then
    /// it steers toward its next waypoint.
    pub fn update_toward<F: Fn(i64, i64) -> i64>(
        &mut self,
        controller_state: &mut CarHighLevelControllerState,
        gridmap: &TownGridMap,
        car_center: WorldPoint,
        candidate: WorldPoint,
        heading_toward: F,
    )
        requires
            old(self).wf(),
            gridmap.wf(),
            car_center.valid(),
            candidate.valid(),
            forall|dx: i64, dy: i64| heading_toward.requires((dx, dy)),
        ensures
            final(self).wf(),
            path_tick(
                gridmap@,
                car_center,
                candidate,
                old(self).destination_point,
                old(self).path@,
                old(controller_state).target_long_speed as int,
                final(self).destination_point,
                final(self).path@,
                final(controller_state).target_long_speed as int,
                final(controller_state).target_yaw,
                heading_toward,
            ),
    {
        if self.needs_replan(car_center) {
            self.replan_toward(controller_state, gridmap, car_center, candidate);
        }
        self.follow_path(controller_state, car_center, heading_toward);
    }

    /// One tick of the path follower: a vehicle that wants a new destination
    /// draws a candidate uniformly from the target square and re-plans toward
    /// it, then it steers toward its next waypoint.
    pub fn update<F: Fn(i64, i64) -> i64>(
        &mut self,
        controller_state: &mut CarHighLevelControllerState,
        gridmap: &TownGridMap,
        car_center: WorldPoint,
        rng: &mut RandomSource,
        heading_toward: F,
    )
        requires
            old(self).wf(),
            gridmap.wf(),
            car_center.valid(),
            forall|dx: i64, dy: i64| heading_toward.requires((dx, dy)),
        ensures
            final(self).wf(),
            exists|candidate: WorldPoint|
                in_target_square(candidate) && path_tick(
                    gridmap@,
                    car_center,
                    candidate,
                    old(self).destination_point,
                    old(self).path@,
                    old(controller_state).target_long_speed as int,
                    final(self).destination_point,
                    final(self).path@,
                    final(controller_state).target_long_speed as int,
                    final(controller_state).target_yaw,
                    heading_toward,
                ),
    {
        let candidate = if self.needs_replan(car_center) {
            WorldPoint::new(
                rng.gen_range(-TARGET_LIMIT, TARGET_LIMIT),
                rng.gen_range(-TARGET_LIMIT, TARGET_LIMIT),
            )
        } else {
            WorldPoint::origin()
        };
        assert(in_target_square(candidate));
        self.update_toward(controller_state, gridmap, car_center, candidate, heading_toward);
    }
}

} // verus!
