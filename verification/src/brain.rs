use vstd::prelude::*;

use crate::joint::JointState;
use std::collections::VecDeque;

verus! {

/// A first-in-first-out queue of target joint configurations. The control
/// loop appends waypoints and pops them one at a time.
pub struct Planner {
    trajectory: VecDeque<JointState>,
}

impl View for Planner {
    type V = Seq<JointState>;

    closed spec fn view(&self) -> Seq<JointState> {
        self.trajectory@
    }
}

impl Planner {
    pub fn new() -> (r: Self)
        ensures
            r@ == Seq::<JointState>::empty(),
    {
        Planner { trajectory: VecDeque::new() }
    }

    /// Appends one waypoint at the back of the trajectory.
    pub fn add_waypoint(&mut self, state: JointState)
        ensures
            final(self)@ == old(self)@.push(state),
    {
        self.trajectory.push_back(state);
    }

    /// Pops the oldest waypoint, or returns `None` on an empty trajectory.
    pub fn next_step(&mut self) -> (r: Option<JointState>)
        ensures
            old(self)@.len() == 0 ==> r is None && final(self)@ == old(self)@,
            old(self)@.len() > 0 ==> r == Some(old(self)@[0]) && final(self)@ == old(self)@.skip(1),
    {
        self.trajectory.pop_front()
    }
}

/// The motion planner as the control loop sees it: plan a motion, then
/// execute it step by step.
pub struct RobotBrain {
    planner: Planner,
}

impl View for RobotBrain {
    type V = Seq<JointState>;

    closed spec fn view(&self) -> Seq<JointState> {
        self.planner@
    }
}

impl RobotBrain {
    pub fn new() -> (r: Self)
        ensures
            r@ == Seq::<JointState>::empty(),
    {
        RobotBrain { planner: Planner::new() }
    }

    /// Plans a motion to the target: the direct strategy appends the target
    /// itself as the single remaining waypoint of this plan.
    pub fn plan_motion(&mut self, target: JointState)
        ensures
            final(self)@ == old(self)@.push(target),
    {
        self.planner.add_waypoint(target);
    }

    /// Pops the next planned step, or `None` when the motion is complete.
    pub fn execute_next_step(&mut self) -> (r: Option<JointState>)
        ensures
            old(self)@.len() == 0 ==> r is None && final(self)@ == old(self)@,
            old(self)@.len() > 0 ==> r == Some(old(self)@[0]) && final(self)@ == old(self)@.skip(1),
    {
        self.planner.next_step()
    }
}

} // verus!
