use robot_comms::communication::{convert_from_ros_joint_state, convert_to_ros_joint_state};
use robot_comms::joint::JointState;
use robot_comms::wire;
use robot_comms::wire::Time;

#[test]
fn test_convert_determinism_names() {
    // to_wire of a sequence of length N produces name = ["joint_1", ...,
    // "joint_N"] in order, with position[i] exactly the i-th angle.
    let joints = vec![
        JointState {
            angle_bits: (0.1f64).to_bits(),
            velocity_bits: (1.0f64).to_bits(),
            effort_bits: (10.0f64).to_bits(),
        },
        JointState {
            angle_bits: (0.2f64).to_bits(),
            velocity_bits: (2.0f64).to_bits(),
            effort_bits: (20.0f64).to_bits(),
        },
        JointState {
            angle_bits: (0.3f64).to_bits(),
            velocity_bits: (3.0f64).to_bits(),
            effort_bits: (30.0f64).to_bits(),
        },
    ];
    let stamp = Time { sec: 5, nanosec: 6 };

    let msg = convert_to_ros_joint_state(&joints, stamp);

    assert_eq!(msg.name, vec!["joint_1", "joint_2", "joint_3"]);
    assert_eq!(msg.header.frame_id, "robot_base");
    assert_eq!(msg.header.stamp, stamp);
    for i in 0..3 {
        assert_eq!(msg.position[i], joints[i].angle_bits);
        assert_eq!(msg.velocity[i], joints[i].velocity_bits);
        assert_eq!(msg.effort[i], joints[i].effort_bits);
    }
}

#[test]
fn test_convert_names_two_digits() {
    let joints = vec![JointState::default(); 12];
    let msg = convert_to_ros_joint_state(&joints, Time { sec: 0, nanosec: 0 });
    assert_eq!(msg.name.len(), 12);
    assert_eq!(msg.name[8], "joint_9");
    assert_eq!(msg.name[9], "joint_10");
    assert_eq!(msg.name[11], "joint_12");
}

#[test]
fn test_convert_leniency() {
    // A message whose velocity and effort arrays are shorter than position
    // converts with the missing entries read as zero.
    let msg = wire::JointState {
        header: wire::Header {
            stamp: Time { sec: 0, nanosec: 0 },
            frame_id: String::new(),
        },
        name: vec!["joint_1".to_string(), "joint_2".to_string()],
        position: vec![(1.0f64).to_bits(), (2.0f64).to_bits()],
        velocity: vec![(0.5f64).to_bits()],
        effort: vec![],
    };

    let joints = convert_from_ros_joint_state(&msg);

    assert_eq!(joints.len(), 2);
    assert_eq!(joints[0].angle_bits, (1.0f64).to_bits());
    assert_eq!(joints[0].velocity_bits, (0.5f64).to_bits());
    assert_eq!(joints[0].effort_bits, (0.0f64).to_bits());
    assert_eq!(joints[1].angle_bits, (2.0f64).to_bits());
    assert_eq!(joints[1].velocity_bits, (0.0f64).to_bits());
    assert_eq!(joints[1].effort_bits, (0.0f64).to_bits());
}

#[test]
fn test_default_wire_message() {
    let msg = wire::JointState::default();
    assert_eq!(msg.header.stamp, Time { sec: 0, nanosec: 0 });
    assert_eq!(msg.header.frame_id, "");
    assert!(msg.name.is_empty());
    assert!(msg.position.is_empty());
    assert!(msg.velocity.is_empty());
    assert!(msg.effort.is_empty());
}

#[test]
fn test_convert_empty_sequence() {
    let stamp = Time { sec: 1, nanosec: 2 };
    let msg = convert_to_ros_joint_state(&[], stamp);
    assert!(msg.name.is_empty());
    assert!(msg.position.is_empty());
    assert!(convert_from_ros_joint_state(&msg).is_empty());
}
