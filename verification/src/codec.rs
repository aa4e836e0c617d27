use vstd::prelude::*;

use crate::wire::{Header, JointState, JointStateView, Time};

verus! {

/// The one accepted encapsulation header: plain CDR, little-endian
/// representation identifier, zero options. Any other first four bytes —
/// including the big-endian variant `00 00 00 00` — are rejected.
pub const ROS2_CDR_HEADER_LE: [u8; 4] = [0x00, 0x01, 0x00, 0x00];

/// The encapsulation header as a byte sequence.
pub open spec fn encapsulation_header() -> Seq<u8> {
    seq![0x00u8, 0x01u8, 0x00u8, 0x00u8]
}

/// Why an inbound payload was dropped. Every failure is contained: the
/// message is discarded and the owning subscription continues.
#[derive(Clone, Copy, Debug, PartialEq, Eq, Structural)]
pub enum DecodeError {
    /// Fewer than four bytes: no room for the encapsulation header.
    PayloadTooShort,
    /// The first four bytes are not the little-endian encapsulation header.
    HeaderMismatch,
    /// The header was valid but the body is structurally invalid
    /// (truncated array, bad length prefix, malformed text).
    BodyDecodeError,
}

impl DecodeError {
    /// A fixed description of the failure, for reporting.
    pub fn message(&self) -> (r: &'static str)
        ensures
            self is PayloadTooShort ==> r@ == "Payload too short for ROS 2 CDR header"@,
            self is HeaderMismatch ==> r@ == "Invalid ROS 2 CDR header"@,
            self is BodyDecodeError ==> r@ == "Invalid ROS 2 CDR body"@,
    {
        match self {
            DecodeError::PayloadTooShort => "Payload too short for ROS 2 CDR header",
            DecodeError::HeaderMismatch => "Invalid ROS 2 CDR header",
            DecodeError::BodyDecodeError => "Invalid ROS 2 CDR body",
        }
    }
}

/// Failure while serializing an outgoing message. The serializer writes to
/// memory, so this marks resource exhaustion or an over-long array; it is
/// surfaced to the publish caller and not retried.
#[derive(Clone, Copy, Debug, PartialEq, Eq, Structural)]
pub struct EncodeError;

/// The little-endian CDR body of a joint-state message: the header fields,
/// then the four length-prefixed arrays, in schema order.
pub uninterp spec fn joint_state_cdr_body(m: JointStateView) -> Seq<u8>;

/// What the CDR deserializer makes of a byte sequence when asked for a
/// joint-state body: the parsed message, or `None` where the bytes are
/// structurally invalid.
pub uninterp spec fn joint_state_cdr_parse(b: Seq<u8>) -> Option<JointStateView>;

/// Whether the CDR deserializer accepts a byte sequence as an image body.
/// The image message itself is externally defined and opaque here.
pub uninterp spec fn image_cdr_parse_ok(b: Seq<u8>) -> bool;

/// Lengths under which the CDR serializer accepts a message: every array
/// length fits the 32-bit length prefix, and every text field is short
/// enough that its UTF-8 byte length — at most four bytes per character —
/// plus the terminating byte fits too.
pub open spec fn encodable(m: JointStateView) -> bool {
    &&& m.frame_id.len() < 0x4000_0000
    &&& m.name.len() < 0x1_0000_0000
    &&& (forall|i: int| 0 <= i < m.name.len() ==> #[trigger] m.name[i].len() < 0x4000_0000)
    &&& m.position.len() < 0x1_0000_0000
    &&& m.velocity.len() < 0x1_0000_0000
    &&& m.effort.len() < 0x1_0000_0000
}

/// Relies on cdr's `Serializer` over serde: it writes the message fields in
/// order as little-endian CDR — each 32-bit integer four bytes, each text
/// field and each array length-prefixed, each 64-bit entry eight bytes on
/// an eight-byte boundary — and on cdr's `Deserializer` reading that body
/// back to the very fields it came from. The positions, velocities and
/// efforts are 64-bit IEEE-754 values carried as bit patterns; CDR encodes
/// the bit pattern and the floating-point value as the same eight bytes.
/// Writing is in-memory and fails only on a length that overflows its
/// 32-bit prefix, so an `encodable` message serializes.
#[verifier::external_body]
fn cdr_serialize_joint_state(msg: &JointState) -> (r: Result<Vec<u8>, EncodeError>)
    ensures
        r is Ok ==> r->Ok_0@ == joint_state_cdr_body(msg@),
        r is Ok ==> joint_state_cdr_parse(joint_state_cdr_body(msg@)) == Some(msg@),
        encodable(msg@) ==> r is Ok,
{
    let mut buf: Vec<u8> = Vec::new();
    let mut ser = cdr::Serializer::<_, cdr::LittleEndian>::new(&mut buf);
    let fields = (
        (msg.header.stamp.sec, msg.header.stamp.nanosec, &msg.header.frame_id),
        &msg.name,
        &msg.position,
        &msg.velocity,
        &msg.effort,
    );
    match serde::Serialize::serialize(&fields, &mut ser) {
        Ok(()) => Ok(buf),
        Err(_) => Err(EncodeError),
    }
}

/// Relies on cdr's `Deserializer` over serde: reading a joint-state body is
/// a function of the bytes alone; it returns the parsed fields, or an error
/// on structurally invalid bytes.
#[verifier::external_body]
fn cdr_deserialize_joint_state(body: &[u8]) -> (r: Option<JointState>)
    ensures
        r is Some <==> joint_state_cdr_parse(body@) is Some,
        r is Some ==> Some(r->Some_0@) == joint_state_cdr_parse(body@),
{
    let mut de = cdr::Deserializer::<_, _, cdr::LittleEndian>::new(body, cdr::Infinite);
    let parsed: Result<((i32, u32, String), Vec<String>, Vec<u64>, Vec<u64>, Vec<u64>), _> =
        serde::Deserialize::deserialize(&mut de);
    match parsed {
        Ok(((sec, nanosec, frame_id), name, position, velocity, effort)) => Some(JointState {
            header: Header { stamp: Time { sec, nanosec }, frame_id },
            name,
            position,
            velocity,
            effort,
        }),
        Err(_) => None,
    }
}

/// Relies on cdr's `Deserializer` over serde's derived impl for
/// `edgefirst_schemas::sensor_msgs::Image`: whether an image body parses is
/// a function of the bytes alone.
#[verifier::external_body]
fn cdr_deserialize_image(body: &[u8]) -> (r: Option<edgefirst_schemas::sensor_msgs::Image>)
    ensures
        r is Some <==> image_cdr_parse_ok(body@),
{
    let mut de = cdr::Deserializer::<_, _, cdr::LittleEndian>::new(body, cdr::Infinite);
    let parsed: Result<edgefirst_schemas::sensor_msgs::Image, _> =
        serde::Deserialize::deserialize(&mut de);
    parsed.ok()
}

#[verifier::external_type_specification]
#[verifier::external_body]
pub struct ExImage(edgefirst_schemas::sensor_msgs::Image);

/// Whether a payload opens with the one accepted encapsulation header.
pub open spec fn has_valid_header(payload: Seq<u8>) -> bool {
    payload.len() >= 4 && payload.subrange(0, 4) == encapsulation_header()
}

/// What decoding a joint-state payload returns, byte for byte: the error
/// taxonomy on the envelope, then the CDR parse of the body.
pub open spec fn decode_spec(payload: Seq<u8>) -> Result<JointStateView, DecodeError> {
    if payload.len() < 4 {
        Err(DecodeError::PayloadTooShort)
    } else if payload.subrange(0, 4) != encapsulation_header() {
        Err(DecodeError::HeaderMismatch)
    } else {
        match joint_state_cdr_parse(payload.skip(4)) {
            Some(m) => Ok(m),
            None => Err(DecodeError::BodyDecodeError),
        }
    }
}

/// Validates the envelope of a payload: at least four bytes, opening with
/// the accepted little-endian encapsulation header, and hands the body back.
pub fn check_envelope<'a>(payload: &'a [u8]) -> (r: Result<&'a [u8], DecodeError>)
    ensures
        payload@.len() < 4 ==> r == Err::<&[u8], _>(DecodeError::PayloadTooShort),
        payload@.len() >= 4 && !has_valid_header(payload@) ==> r == Err::<&[u8], _>(
            DecodeError::HeaderMismatch,
        ),
        has_valid_header(payload@) ==> r is Ok && r->Ok_0@ == payload@.skip(4),
{
    if payload.len() < 4 {
        return Err(DecodeError::PayloadTooShort);
    }
    let ok = payload[0] == 0x00 && payload[1] == 0x01 && payload[2] == 0x00 && payload[3] == 0x00;
    proof {
        assert(has_valid_header(payload@) <==> ok) by {
            if ok {
                assert(payload@.subrange(0, 4) =~= encapsulation_header());
            }
            if has_valid_header(payload@) {
                assert(payload@[0] == payload@.subrange(0, 4)[0]);
                assert(payload@[1] == payload@.subrange(0, 4)[1]);
                assert(payload@[2] == payload@.subrange(0, 4)[2]);
                assert(payload@[3] == payload@.subrange(0, 4)[3]);
            }
        }
    }
    if !ok {
        return Err(DecodeError::HeaderMismatch);
    }
    let (_, body) = payload.split_at(4);
    Ok(body)
}

/// Decoding is a function of the payload bytes alone: two results that
/// decoding the same payload may return agree — the same error, or
/// structurally equal messages. The premises are the postconditions of
/// `deserialize_ros_payload`, stated of the two results' views.
pub proof fn lemma_decode_deterministic(
    payload: Seq<u8>,
    r1: Result<JointStateView, DecodeError>,
    r2: Result<JointStateView, DecodeError>,
)
    requires
        r1 is Ok ==> decode_spec(payload) == Ok::<_, DecodeError>(r1->Ok_0),
        r1 is Err ==> decode_spec(payload) == Err::<JointStateView, _>(r1->Err_0),
        r2 is Ok ==> decode_spec(payload) == Ok::<_, DecodeError>(r2->Ok_0),
        r2 is Err ==> decode_spec(payload) == Err::<JointStateView, _>(r2->Err_0),
    ensures
        r1 == r2,
{
}

/// Decodes one inbound joint-state payload: rejects a payload of fewer than
/// four bytes, then one whose first four bytes are not the accepted
/// encapsulation header, then a structurally invalid body; otherwise
/// returns the parsed message. Pure: the result is a function of the bytes,
/// so decoding the same payload twice yields structurally equal messages.
pub fn deserialize_ros_payload(payload: &[u8]) -> (r: Result<JointState, DecodeError>)
    ensures
        r is Ok ==> decode_spec(payload@) == Ok::<_, DecodeError>(r->Ok_0@),
        r is Err ==> decode_spec(payload@) == Err::<JointStateView, _>(r->Err_0),
{
    let body = match check_envelope(payload) {
        Ok(b) => b,
        Err(e) => {
            return Err(e);
        },
    };
    match cdr_deserialize_joint_state(body) {
        Some(msg) => Ok(msg),
        None => Err(DecodeError::BodyDecodeError),
    }
}

/// Decodes one inbound image payload. The envelope rules are those of
/// `deserialize_ros_payload`; the image body itself is externally defined,
/// so all that is promised of it is the error taxonomy.
pub fn deserialize_ros_image(payload: &[u8]) -> (r: Result<
    edgefirst_schemas::sensor_msgs::Image,
    DecodeError,
>)
    ensures
        payload@.len() < 4 <==> r == Err::<edgefirst_schemas::sensor_msgs::Image, _>(
            DecodeError::PayloadTooShort,
        ),
        payload@.len() >= 4 && !has_valid_header(payload@) <==> r == Err::<
            edgefirst_schemas::sensor_msgs::Image,
            _,
        >(DecodeError::HeaderMismatch),
        has_valid_header(payload@) && image_cdr_parse_ok(payload@.skip(4)) <==> r is Ok,
        has_valid_header(payload@) && !image_cdr_parse_ok(payload@.skip(4)) <==> r == Err::<
            edgefirst_schemas::sensor_msgs::Image,
            _,
        >(DecodeError::BodyDecodeError),
{
    let body = match check_envelope(payload) {
        Ok(b) => b,
        Err(e) => {
            return Err(e);
        },
    };
    match cdr_deserialize_image(body) {
        Some(img) => Ok(img),
        None => Err(DecodeError::BodyDecodeError),
    }
}

/// Encodes one outgoing joint-state message: the CDR body of the message,
/// prepended by the four-byte little-endian encapsulation header. The
/// produced payload decodes back to the very message it came from, and
/// every `encodable` message encodes.
pub fn encode_joint_command(msg: &JointState) -> (r: Result<Vec<u8>, EncodeError>)
    ensures
        r is Ok ==> r->Ok_0@ == encapsulation_header() + joint_state_cdr_body(msg@),
        r is Ok ==> decode_spec(r->Ok_0@) == Ok::<_, DecodeError>(msg@),
        encodable(msg@) ==> r is Ok,
{
    let mut body = match cdr_serialize_joint_state(msg) {
        Ok(b) => b,
        Err(e) => {
            return Err(e);
        },
    };
    let ghost body0 = body@;
    let mut payload: Vec<u8> = Vec::new();
    payload.push(0x00);
    payload.push(0x01);
    payload.push(0x00);
    payload.push(0x00);
    payload.append(&mut body);
    proof {
        assert(payload@ =~= encapsulation_header() + body0);
        assert(payload@.subrange(0, 4) =~= encapsulation_header());
        assert(payload@.skip(4) =~= body0);
    }
    Ok(payload)
}

} // verus!
