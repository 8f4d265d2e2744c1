//! The navigation mode of a vehicle: autonomous, following planned paths, or
//! scripted, following a list of time-stamped commands.
use vstd::prelude::*;
use crate::car_cmd_list_controller::{CarCmdListState, scripted_tick};
use crate::car_hl_controller::{
    CarHighLevelControllerState, CarPathControllerState, in_target_square, path_tick,
};
use crate::geometry::WorldPoint;
use crate::grid_map::TownGridMap;
use crate::random::RandomSource;

verus! {

/// How a vehicle picks its target heading and speed. The two modes exclude each other.
pub enum NavigationMode {
    Autonomous(CarPathControllerState),
    Scripted(CarCmdListState),
}

impl NavigationMode {
    pub open spec fn wf(&self) -> bool {
        match *self {
            NavigationMode::Autonomous(s) => s.wf(),
            NavigationMode::Scripted(_) => true,
        }
    }

    /// One navigation tick of a vehicle at `car_center` at simulation time
    /// `sim_time` (ms): the path follower for an autonomous vehicle (see
    /// `CarPathControllerState::update`), the script for a scripted one.
    pub fn update<F: Fn(i64, i64) -> i64>(
        &mut self,
        controller_state: &mut CarHighLevelControllerState,
        gridmap: &TownGridMap,
        car_center: WorldPoint,
        sim_time: i64,
        rng: &mut RandomSource,
        heading_toward: F,
    )
        requires
            old(self).wf(),
            gridmap.wf(),
            car_center.valid(),
            forall|dx: i64, dy: i64| heading_toward.requires((dx, dy)),
        ensures
            final(self).wf(),
            (*old(self)) is Autonomous ==> {
                &&& (*final(self)) is Autonomous
                &&& exists|candidate: WorldPoint|
                    in_target_square(candidate) && path_tick(
                        gridmap@,
                        car_center,
                        candidate,
                        (*old(self))->Autonomous_0.destination_point,
                        (*old(self))->Autonomous_0.path@,
                        old(controller_state).target_long_speed as int,
                        (*final(self))->Autonomous_0.destination_point,
                        (*final(self))->Autonomous_0.path@,
                        final(controller_state).target_long_speed as int,
                        final(controller_state).target_yaw,
                        heading_toward,
                    )
            },
            (*old(self)) is Scripted ==> {
                &&& (*final(self)) is Scripted
                &&& scripted_tick(
                    (*old(self))->Scripted_0@,
                    sim_time as int,
                    old(controller_state).target_yaw,
                    old(controller_state).target_long_speed,
                    (*final(self))->Scripted_0@,
                    final(controller_state).target_yaw,
                    final(controller_state).target_long_speed,
                )
            },
    {
        match self {
            NavigationMode::Autonomous(state) => {
                state.update(controller_state, gridmap, car_center, rng, heading_toward);
            },
            NavigationMode::Scripted(script) => {
                script.step(controller_state, sim_time);
            },
        }
    }
}

} // verus!
