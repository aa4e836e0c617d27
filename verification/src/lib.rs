//! Communication layer of a robot-control node: a bit-exact envelope codec
//! for ROS 2 CDR payloads, the joint-state wire schema with conversions to
//! and from the internal joint representation, the per-topic subscription
//! state machine, and the motion planner's waypoint queue.

pub mod brain;
pub mod codec;
pub mod communication;
pub mod joint;
pub mod session;
pub mod wire;
