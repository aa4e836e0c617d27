use vstd::prelude::*;

verus! {

/// A point in time as the wire schema carries it: whole seconds since the
/// epoch (signed) and the nanosecond remainder.
#[derive(Clone, Copy, Debug, PartialEq, Eq, Structural)]
pub struct Time {
    pub sec: i32,
    pub nanosec: u32,
}

/// The standard message header: a timestamp and a frame identifier.
#[derive(Clone, Debug)]
pub struct Header {
    pub stamp: Time,
    pub frame_id: String,
}

/// The joint-state wire message: a header and four index-aligned arrays,
/// one entry per joint. The 64-bit floating-point positions, velocities and
/// efforts are carried by their IEEE-754 bit patterns; the CDR encoding of
/// such a value is the same eight little-endian bytes either way.
///
/// `velocity` and `effort` SHOULD be as long as `name`, but a decoded
/// message may carry shorter ones; the conversion to the internal
/// representation treats the missing entries as zero.
#[derive(Clone, Debug)]
pub struct JointState {
    pub header: Header,
    pub name: Vec<String>,
    pub position: Vec<u64>,
    pub velocity: Vec<u64>,
    pub effort: Vec<u64>,
}

/// The mathematical shape of a joint-state wire message.
pub struct JointStateView {
    pub sec: int,
    pub nanosec: int,
    pub frame_id: Seq<char>,
    pub name: Seq<Seq<char>>,
    pub position: Seq<u64>,
    pub velocity: Seq<u64>,
    pub effort: Seq<u64>,
}

impl View for JointState {
    type V = JointStateView;

    open spec fn view(&self) -> JointStateView {
        JointStateView {
            sec: self.header.stamp.sec as int,
            nanosec: self.header.stamp.nanosec as int,
            frame_id: self.header.frame_id@,
            name: self.name.deep_view(),
            position: self.position@,
            velocity: self.velocity@,
            effort: self.effort@,
        }
    }
}

impl Default for JointState {
    /// A zero timestamp, an empty frame identifier and empty arrays.
    fn default() -> (r: Self)
        ensures
            r@.sec == 0,
            r@.nanosec == 0,
            r@.frame_id == Seq::<char>::empty(),
            r@.name == Seq::<Seq<char>>::empty(),
            r@.position == Seq::<u64>::empty(),
            r@.velocity == Seq::<u64>::empty(),
            r@.effort == Seq::<u64>::empty(),
    {
        JointState {
            header: Header { stamp: Time { sec: 0, nanosec: 0 }, frame_id: String::new() },
            name: Vec::new(),
            position: Vec::new(),
            velocity: Vec::new(),
            effort: Vec::new(),
        }
    }
}

} // verus!
