use vstd::prelude::*;

use crate::codec::{
    decode_spec, deserialize_ros_image, deserialize_ros_payload, has_valid_header,
    image_cdr_parse_ok, DecodeError,
};
use crate::communication::{convert_from_ros_joint_state, from_wire_spec};
use crate::joint::JointState;

verus! {

/// Where one subscription stands. A subscription awaits messages for the
/// life of the process; it terminates only when its channel closes, and
/// `Terminated` is the one terminal state — there is no restart path.
#[derive(Clone, Copy, Debug, PartialEq, Eq, Structural)]
pub enum SubscriptionState {
    AwaitingMessage,
    Terminated,
}

/// What the transport hands a subscription: one received payload, or the
/// close of the underlying channel (normal shutdown, not an error).
#[derive(Clone, Debug)]
pub enum SubscriptionEvent {
    MessageReceived(Vec<u8>),
    ChannelClosed,
}

/// What the joint-state subscription asks its runner to do next: deliver a
/// converted message to the registered callback, report a decode failure
/// and carry on, or stop the loop.
#[derive(Clone, Debug, PartialEq)]
pub enum JointStateAction {
    Deliver(Vec<JointState>),
    Report(DecodeError),
    Stop,
}

/// What the camera-image subscription asks its runner to do next.
#[derive(Debug)]
pub enum ImageAction {
    Deliver(edgefirst_schemas::sensor_msgs::Image),
    Report(DecodeError),
    Stop,
}

/// One step of the joint-state subscription: a received payload is decoded
/// and, on success, converted and delivered; a decode failure is reported
/// and the subscription awaits the next message — a single malformed
/// message never terminates it. A closed channel terminates it for good.
pub fn joint_state_step(state: SubscriptionState, event: &SubscriptionEvent) -> (r: (
    SubscriptionState,
    JointStateAction,
))
    ensures
        state is Terminated ==> r.0 is Terminated && r.1 is Stop,
        state is AwaitingMessage && event is ChannelClosed ==> r.0 is Terminated && r.1 is Stop,
        state is AwaitingMessage && event is MessageReceived ==> r.0 is AwaitingMessage,
        state is AwaitingMessage && event is MessageReceived && decode_spec(
            event->MessageReceived_0@,
        ) is Ok ==> (r.1 matches JointStateAction::Deliver(j) && j@ == from_wire_spec(
            decode_spec(event->MessageReceived_0@)->Ok_0,
        )),
        state is AwaitingMessage && event is MessageReceived && decode_spec(
            event->MessageReceived_0@,
        ) is Err ==> r.1 == JointStateAction::Report(decode_spec(event->MessageReceived_0@)->Err_0),
{
    match state {
        SubscriptionState::Terminated => (SubscriptionState::Terminated, JointStateAction::Stop),
        SubscriptionState::AwaitingMessage => match event {
            SubscriptionEvent::ChannelClosed => (
                SubscriptionState::Terminated,
                JointStateAction::Stop,
            ),
            SubscriptionEvent::MessageReceived(payload) => match deserialize_ros_payload(
                payload.as_slice(),
            ) {
                Ok(msg) => (
                    SubscriptionState::AwaitingMessage,
                    JointStateAction::Deliver(convert_from_ros_joint_state(&msg)),
                ),
                Err(e) => (SubscriptionState::AwaitingMessage, JointStateAction::Report(e)),
            },
        },
    }
}

/// One step of the camera-image subscription, with the same lifecycle as
/// the joint-state one: decode failures are reported and contained, and
/// only a closed channel terminates the loop.
pub fn image_step(state: SubscriptionState, event: &SubscriptionEvent) -> (r: (
    SubscriptionState,
    ImageAction,
))
    ensures
        state is Terminated ==> r.0 is Terminated && r.1 is Stop,
        state is AwaitingMessage && event is ChannelClosed ==> r.0 is Terminated && r.1 is Stop,
        state is AwaitingMessage && event is MessageReceived ==> r.0 is AwaitingMessage,
        state is AwaitingMessage && event is MessageReceived && has_valid_header(
            event->MessageReceived_0@,
        ) && image_cdr_parse_ok(event->MessageReceived_0@.skip(4)) ==> r.1 is Deliver,
        state is AwaitingMessage && event is MessageReceived && !(has_valid_header(
            event->MessageReceived_0@,
        ) && image_cdr_parse_ok(event->MessageReceived_0@.skip(4))) ==> r.1 is Report,
{
    match state {
        SubscriptionState::Terminated => (SubscriptionState::Terminated, ImageAction::Stop),
        SubscriptionState::AwaitingMessage => match event {
            SubscriptionEvent::ChannelClosed => (SubscriptionState::Terminated, ImageAction::Stop),
            SubscriptionEvent::MessageReceived(payload) => match deserialize_ros_image(
                payload.as_slice(),
            ) {
                Ok(img) => (SubscriptionState::AwaitingMessage, ImageAction::Deliver(img)),
                Err(e) => (SubscriptionState::AwaitingMessage, ImageAction::Report(e)),
            },
        },
    }
}

} // verus!
