use vstd::prelude::*;

use crate::codec::{decode_spec, encodable, encode_joint_command, DecodeError, EncodeError};
use crate::joint::JointState;
use crate::wire;
use crate::wire::{JointStateView, Time};

verus! {

/// The three fixed topic bindings: established once at construction of the
/// communication layer and immutable afterwards.
pub const JOINT_STATE_TOPIC: &'static str = "rt/robot/joint_states";

pub const JOINT_COMMAND_TOPIC: &'static str = "rt/robot/joint_commands";

pub const CAMERA_IMAGE_TOPIC: &'static str = "rt/camera/image_raw";

/// The decimal digit `d` as a character, for `0 <= d <= 9`.
pub open spec fn dec_digit(d: nat) -> char {
    ((d + 48) as u8) as char
}

/// The decimal digits of `n`, most significant first, with no sign and no
/// padding — what `format!` writes for an unsigned integer.
pub open spec fn dec_str(n: nat) -> Seq<char>
    decreases n,
{
    if n < 10 {
        seq![dec_digit(n)]
    } else {
        dec_str(n / 10).push(dec_digit(n % 10))
    }
}

/// The wire name of the joint at (one-based) position `n`.
pub open spec fn joint_name_spec(n: nat) -> Seq<char> {
    "joint_"@ + dec_str(n)
}

/// Relies on `format!` with `u64`'s `Display` impl, which writes the
/// decimal digits of the number, most significant first, with no sign and
/// no padding.
#[verifier::external_body]
fn joint_name(index: u64) -> (r: String)
    ensures
        r@ == joint_name_spec(index as nat),
{
    format!("joint_{}", index)
}

/// The fixed frame identifier every outgoing joint command carries.
pub open spec fn command_frame_id() -> Seq<char> {
    "robot_base"@
}

/// The wire message that a joint sequence converts to: `name[i]` is
/// `joint_{i+1}`, and position, velocity and effort are the index-aligned
/// copies of the internal components.
pub open spec fn to_wire_spec(joints: Seq<JointState>, stamp: Time) -> JointStateView {
    JointStateView {
        sec: stamp.sec as int,
        nanosec: stamp.nanosec as int,
        frame_id: command_frame_id(),
        name: Seq::new(joints.len(), |i: int| joint_name_spec((i + 1) as nat)),
        position: joints.map(|i: int, j: JointState| j.angle_bits),
        velocity: joints.map(|i: int, j: JointState| j.velocity_bits),
        effort: joints.map(|i: int, j: JointState| j.effort_bits),
    }
}

/// The joint sequence that a wire message converts to: one joint per
/// `position` entry; a `velocity` or `effort` entry that the message lacks
/// is read as zero. This leniency is deliberate.
pub open spec fn from_wire_spec(m: JointStateView) -> Seq<JointState> {
    Seq::new(
        m.position.len(),
        |i: int|
            JointState {
                angle_bits: m.position[i],
                velocity_bits: if i < m.velocity.len() {
                    m.velocity[i]
                } else {
                    0u64
                },
                effort_bits: if i < m.effort.len() {
                    m.effort[i]
                } else {
                    0u64
                },
            },
    )
}

/// Ten to the `k`-th power.
pub open spec fn pow10(k: nat) -> nat
    decreases k,
{
    if k == 0 {
        1
    } else {
        10 * pow10((k - 1) as nat)
    }
}

/// A number below `10^k` has at most `k` decimal digits.
pub proof fn lemma_dec_str_len(n: nat, k: nat)
    requires
        1 <= k,
        n < pow10(k),
    ensures
        dec_str(n).len() <= k,
    decreases k,
{
    if n < 10 {
    } else {
        assert(k >= 2) by {
            if k == 1 {
                assert(pow10(1) == 10) by {
                    reveal_with_fuel(pow10, 2);
                }
            }
        }
        assert(pow10(k) == 10 * pow10((k - 1) as nat));
        assert(n / 10 < pow10((k - 1) as nat)) by (nonlinear_arith)
            requires
                n < 10 * pow10((k - 1) as nat),
        ;
        lemma_dec_str_len(n / 10, (k - 1) as nat);
    }
}

/// Every wire message built from fewer than 2^32 joints is `encodable`: the
/// four arrays are exactly as long as the sequence, the frame identifier is
/// a fixed ten-character string, and a joint name is at most sixteen
/// characters, so every length fits its 32-bit CDR prefix.
pub proof fn lemma_to_wire_encodable(joints: Seq<JointState>, stamp: Time)
    requires
        joints.len() < 0x1_0000_0000,
    ensures
        encodable(to_wire_spec(joints, stamp)),
{
    reveal_strlit("robot_base");
    reveal_strlit("joint_");
    let m = to_wire_spec(joints, stamp);
    assert(m.frame_id.len() == 10);
    assert forall|i: int| 0 <= i < m.name.len() implies #[trigger] m.name[i].len()
        < 0x4000_0000 by {
        assert(m.name[i] == joint_name_spec((i + 1) as nat));
        assert(pow10(10) == 10000000000) by {
            reveal_with_fuel(pow10, 11);
        }
        lemma_dec_str_len((i + 1) as nat, 10);
        assert(m.name[i].len() <= 6 + 10);
    }
}

/// Converting a joint sequence to wire form and back reconstructs the very
/// same sequence: the wire message carries every component bit-exactly, and
/// its arrays are full, so the leniency never fires.
pub proof fn lemma_wire_round_trip(joints: Seq<JointState>, stamp: Time)
    ensures
        from_wire_spec(to_wire_spec(joints, stamp)) == joints,
{
    assert(from_wire_spec(to_wire_spec(joints, stamp)) =~= joints);
}

/// Builds the outgoing wire message for a joint sequence: the given
/// timestamp, the fixed frame identifier, `name[i] = "joint_{i+1}"`, and
/// the index-aligned copies of angle, velocity and effort.
pub fn convert_to_ros_joint_state(joints: &[JointState], stamp: Time) -> (r: wire::JointState)
    ensures
        r@ == to_wire_spec(joints@, stamp),
{
    let ghost target = to_wire_spec(joints@, stamp);
    let mut msg = wire::JointState::default();
    msg.header.stamp = stamp;
    msg.header.frame_id = "robot_base".to_string();
    let mut i: usize = 0;
    while i < joints.len()
        invariant
            i <= joints@.len(),
            target == to_wire_spec(joints@, stamp),
            msg.header.stamp == stamp,
            msg.header.frame_id@ == command_frame_id(),
            msg.name.deep_view() =~= target.name.take(i as int),
            msg.position@ =~= target.position.take(i as int),
            msg.velocity@ =~= target.velocity.take(i as int),
            msg.effort@ =~= target.effort.take(i as int),
        decreases joints@.len() - i,
    {
        let ghost names0 = msg.name.deep_view();
        let name = joint_name((i as u64) + 1);
        msg.name.push(name);
        msg.position.push(joints[i].angle_bits);
        msg.velocity.push(joints[i].velocity_bits);
        msg.effort.push(joints[i].effort_bits);
        proof {
            assert(msg.name.deep_view() =~= names0.push(name@));
            assert(name@ == target.name[i as int]);
            assert(msg.name.deep_view() =~= target.name.take(i as int + 1));
            assert(msg.position@ =~= target.position.take(i as int + 1));
            assert(msg.velocity@ =~= target.velocity.take(i as int + 1));
            assert(msg.effort@ =~= target.effort.take(i as int + 1));
        }
        i = i + 1;
    }
    proof {
        assert(target.name.take(joints@.len() as int) =~= target.name);
        assert(target.position.take(joints@.len() as int) =~= target.position);
        assert(target.velocity.take(joints@.len() as int) =~= target.velocity);
        assert(target.effort.take(joints@.len() as int) =~= target.effort);
    }
    msg
}

/// Converts a decoded wire message to the internal representation: one
/// joint per `position` entry, with a missing `velocity` or `effort` entry
/// read as zero. Never errors; short arrays are not a failure.
pub fn convert_from_ros_joint_state(msg: &wire::JointState) -> (r: Vec<JointState>)
    ensures
        r@ == from_wire_spec(msg@),
{
    let mut joints: Vec<JointState> = Vec::new();
    let len = msg.position.len();
    let mut i: usize = 0;
    while i < len
        invariant
            i <= len,
            len == msg.position@.len(),
            joints@ =~= from_wire_spec(msg@).take(i as int),
        decreases len - i,
    {
        joints.push(
            JointState {
                angle_bits: msg.position[i],
                velocity_bits: if i < msg.velocity.len() {
                    msg.velocity[i]
                } else {
                    0
                },
                effort_bits: if i < msg.effort.len() {
                    msg.effort[i]
                } else {
                    0
                },
            },
        );
        proof {
            assert(joints@ =~= from_wire_spec(msg@).take(i + 1 as int));
        }
        i = i + 1;
    }
    proof {
        assert(from_wire_spec(msg@).take(len as int) =~= from_wire_spec(msg@));
    }
    joints
}

/// Builds the payload that publishes a joint command: converts the sequence
/// to wire form with the given timestamp, encodes the body as little-endian
/// CDR and prepends the encapsulation header. A produced payload decodes
/// back to that wire message, converting the decoded message back
/// reconstructs the given sequence bit-exactly, and encoding succeeds for
/// every sequence of fewer than 2^32 joints.
pub fn build_joint_command_payload(joints: &[JointState], stamp: Time) -> (r: Result<
    Vec<u8>,
    EncodeError,
>)
    ensures
        r is Ok ==> decode_spec(r->Ok_0@) == Ok::<_, DecodeError>(to_wire_spec(joints@, stamp)),
        r is Ok ==> from_wire_spec(decode_spec(r->Ok_0@)->Ok_0) == joints@,
        joints@.len() < 0x1_0000_0000 ==> r is Ok,
{
    let msg = convert_to_ros_joint_state(joints, stamp);
    proof {
        lemma_wire_round_trip(joints@, stamp);
        if joints@.len() < 0x1_0000_0000 {
            lemma_to_wire_encodable(joints@, stamp);
        }
    }
    encode_joint_command(&msg)
}

} // verus!
