//! Scripted vehicles: time-stamped target headings and speeds that replace the
//! path follower.
use vstd::prelude::*;
use std::collections::VecDeque;
use crate::car_hl_controller::CarHighLevelControllerState;

verus! {

/// One scripted command: from `stamp` on, steer toward `yaw` at `lon_vel`.
#[derive(Clone, Copy, Debug, PartialEq, Eq, Structural)]
pub struct CarActionState {
    /// Simulation time in milliseconds after which the command applies.
    pub stamp: i64,
    /// Target forward speed in milli-units per second.
    pub lon_vel: i64,
    /// Target heading in microradians.
    pub yaw: i64,
}

/// One tick of a scripted vehicle at simulation time `sim_time`: once the
/// time is past the next command's stamp, that command sets the target heading
/// and speed and leaves the list; otherwise nothing changes.
pub open spec fn scripted_tick(
    old_cmds: Seq<CarActionState>,
    sim_time: int,
    old_yaw: i64,
    old_speed: i64,
    new_cmds: Seq<CarActionState>,
    new_yaw: i64,
    new_speed: i64,
) -> bool {
    if old_cmds.len() > 0 && sim_time > old_cmds[0].stamp {
        &&& new_cmds == old_cmds.drop_first()
        &&& new_yaw == old_cmds[0].yaw
        &&& new_speed == old_cmds[0].lon_vel
    } else {
        &&& new_cmds == old_cmds
        &&& new_yaw == old_yaw
        &&& new_speed == old_speed
    }
}

/// The commands of a scripted vehicle that have not been applied yet, earliest first.
pub struct CarCmdListState {
    cmd_states: VecDeque<CarActionState>,
}

impl View for CarCmdListState {
    type V = Seq<CarActionState>;

    closed spec fn view(&self) -> Seq<CarActionState> {
        self.cmd_states@
    }
}

impl CarCmdListState {
    /// A script with no command left.
    pub fn new() -> (r: CarCmdListState)
        ensures
            r@.len() == 0,
    {
        CarCmdListState { cmd_states: VecDeque::new() }
    }

    /// A script from a list of commands. The first command, if any, applies
    /// at once: it sets the targets and leaves the list.
    pub fn from_commands(
        cmd_states: VecDeque<CarActionState>,
        controller_state: &mut CarHighLevelControllerState,
    ) -> (r: CarCmdListState)
        ensures
            cmd_states@.len() == 0 ==> r@.len() == 0 && final(controller_state).target_yaw == old(
                controller_state,
            ).target_yaw && final(controller_state).target_long_speed == old(
                controller_state,
            ).target_long_speed,
            cmd_states@.len() > 0 ==> {
                &&& r@ == cmd_states@.drop_first()
                &&& final(controller_state).target_yaw == cmd_states@[0].yaw
                &&& final(controller_state).target_long_speed == cmd_states@[0].lon_vel
            },
    {
        let mut cmd_states = cmd_states;
        let ghost all = cmd_states@;
        match cmd_states.pop_front() {
            Some(first_state) => {
                controller_state.target_yaw = first_state.yaw;
                controller_state.target_long_speed = first_state.lon_vel;
                assert(cmd_states@ =~= all.drop_first());
            },
            None => {},
        }
        CarCmdListState { cmd_states }
    }

    /// One tick of a scripted vehicle at simulation time `sim_time` (ms): see
    /// `scripted_tick`. At most one command applies per tick.
    pub fn step(&mut self, controller_state: &mut CarHighLevelControllerState, sim_time: i64)
        ensures
            scripted_tick(
                old(self)@,
                sim_time as int,
                old(controller_state).target_yaw,
                old(controller_state).target_long_speed,
                final(self)@,
                final(controller_state).target_yaw,
                final(controller_state).target_long_speed,
            ),
    {
        if self.cmd_states.len() > 0 {
            let next_cmd = self.cmd_states[0];
            if sim_time > next_cmd.stamp {
                controller_state.target_yaw = next_cmd.yaw;
                controller_state.target_long_speed = next_cmd.lon_vel;
                let _ = self.cmd_states.pop_front();
                assert(self.cmd_states@ =~= old(self)@.drop_first());
            }
        }
    }

    /// Number of commands not yet applied.
    pub fn len(&self) -> (r: usize)
        ensures
            r == self@.len(),
    {
        self.cmd_states.len()
    }
}

} // verus!
