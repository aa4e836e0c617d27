use robot_comms::brain::RobotBrain;
use robot_comms::joint::JointState;

#[test]
fn test_planner() {
    let mut brain = RobotBrain::new();
    let target = JointState { angle_bits: (1.0f64).to_bits(), ..Default::default() };
    brain.plan_motion(target);

    let next_step = brain.execute_next_step();
    assert!(next_step.is_some());
    assert_eq!(next_step.unwrap().angle_bits, (1.0f64).to_bits());
}

#[test]
fn test_planner_order_and_exhaustion() {
    let mut brain = RobotBrain::new();
    let first = JointState { angle_bits: (0.25f64).to_bits(), ..Default::default() };
    let second = JointState { angle_bits: (0.5f64).to_bits(), ..Default::default() };
    brain.plan_motion(first);
    brain.plan_motion(second);

    assert_eq!(brain.execute_next_step(), Some(first));
    assert_eq!(brain.execute_next_step(), Some(second));
    assert_eq!(brain.execute_next_step(), None);
}
