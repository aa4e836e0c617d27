use robot_comms::codec::{encode_joint_command, DecodeError};
use robot_comms::session::{
    image_step, joint_state_step, ImageAction, JointStateAction, SubscriptionEvent,
    SubscriptionState,
};
use robot_comms::wire;

fn valid_joint_payload() -> Vec<u8> {
    let msg = wire::JointState {
        header: wire::Header {
            stamp: wire::Time { sec: 3, nanosec: 4 },
            frame_id: "robot_base".to_string(),
        },
        name: vec!["joint_1".to_string()],
        position: vec![(0.75f64).to_bits()],
        velocity: vec![(0.25f64).to_bits()],
        effort: vec![(0.0f64).to_bits()],
    };
    encode_joint_command(&msg).unwrap()
}

fn valid_image_payload() -> Vec<u8> {
    let img = edgefirst_schemas::sensor_msgs::Image {
        header: edgefirst_schemas::std_msgs::Header {
            stamp: edgefirst_schemas::builtin_interfaces::Time::new(1, 2),
            frame_id: "camera".to_string(),
        },
        height: 2,
        width: 2,
        encoding: "mono8".to_string(),
        is_bigendian: 0,
        step: 2,
        data: vec![0, 1, 2, 3],
    };
    cdr::serialize::<_, _, cdr::CdrLe>(&img, cdr::Infinite).unwrap()
}

#[test]
fn test_subscription_lifecycle() {
    let state = SubscriptionState::AwaitingMessage;

    // A valid message is delivered and the subscription keeps running.
    let event = SubscriptionEvent::MessageReceived(valid_joint_payload());
    let (state, action) = joint_state_step(state, &event);
    assert_eq!(state, SubscriptionState::AwaitingMessage);
    match action {
        JointStateAction::Deliver(joints) => {
            assert_eq!(joints.len(), 1);
            assert_eq!(joints[0].angle_bits, (0.75f64).to_bits());
        }
        other => panic!("expected a delivery, got {:?}", other),
    }

    // A malformed message is reported; the subscription keeps running.
    let event = SubscriptionEvent::MessageReceived(vec![0x00, 0x01, 0x00]);
    let (state, action) = joint_state_step(state, &event);
    assert_eq!(state, SubscriptionState::AwaitingMessage);
    assert_eq!(action, JointStateAction::Report(DecodeError::PayloadTooShort));

    // A closed channel terminates the subscription, for good.
    let (state, action) = joint_state_step(state, &SubscriptionEvent::ChannelClosed);
    assert_eq!(state, SubscriptionState::Terminated);
    assert_eq!(action, JointStateAction::Stop);

    let event = SubscriptionEvent::MessageReceived(valid_joint_payload());
    let (state, action) = joint_state_step(state, &event);
    assert_eq!(state, SubscriptionState::Terminated);
    assert_eq!(action, JointStateAction::Stop);
}

#[test]
fn test_subscription_independence() {
    // A decode failure on the camera-image topic does not prevent
    // subsequent messages on the joint-state topic, and vice versa: each
    // topic has its own subscription state.
    let image_state = SubscriptionState::AwaitingMessage;
    let joint_state = SubscriptionState::AwaitingMessage;

    let bad = SubscriptionEvent::MessageReceived(vec![0xDE, 0xAD, 0xBE, 0xEF]);
    let (image_state, action) = image_step(image_state, &bad);
    assert!(matches!(action, ImageAction::Report(DecodeError::HeaderMismatch)));
    assert_eq!(image_state, SubscriptionState::AwaitingMessage);

    let good_joints = SubscriptionEvent::MessageReceived(valid_joint_payload());
    let (joint_state, action) = joint_state_step(joint_state, &good_joints);
    assert!(matches!(action, JointStateAction::Deliver(_)));
    assert_eq!(joint_state, SubscriptionState::AwaitingMessage);

    let bad = SubscriptionEvent::MessageReceived(vec![0x00, 0x01, 0x00, 0x00, 0x42]);
    let (joint_state, action) = joint_state_step(joint_state, &bad);
    assert!(matches!(
        action,
        JointStateAction::Report(DecodeError::BodyDecodeError)
    ));
    assert_eq!(joint_state, SubscriptionState::AwaitingMessage);

    let good_image = SubscriptionEvent::MessageReceived(valid_image_payload());
    let (image_state, action) = image_step(image_state, &good_image);
    match action {
        ImageAction::Deliver(img) => {
            assert_eq!(img.width, 2);
            assert_eq!(img.height, 2);
            assert_eq!(img.encoding, "mono8");
        }
        other => panic!("expected a delivery, got {:?}", other),
    }
    assert_eq!(image_state, SubscriptionState::AwaitingMessage);

    let (_, action) = joint_state_step(joint_state, &SubscriptionEvent::ChannelClosed);
    assert_eq!(action, JointStateAction::Stop);
}
