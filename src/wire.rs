//! Byte-level layout of the telemetry protocol.

use vstd::prelude::*;

verus! {

/// Number of bytes in one encoded single-precision value.
pub const WORD_BYTES: usize = 4;

/// Size of one [`ImuState`] on the wire: six values.
pub const IMU_BYTES: usize = 24;

/// Size of one [`DroneState`] record on the wire.
pub const DRONE_STATE_BYTES: usize = 136;

/// The little-endian 32-bit word stored in `b[at..at + 4]`.
pub open spec fn le_word(b: Seq<u8>, at: int) -> u32 {
    (b[at] as int + 256 * b[at + 1] as int + 65536 * b[at + 2] as int + 16777216 * b[at + 3] as int) as u32
}

/// Three single-precision values, kept as their IEEE-754 bit patterns.
#[derive(Clone, Copy, Debug, PartialEq, Eq, Structural)]
pub struct Vec3Bits {
    pub x: u32,
    pub y: u32,
    pub z: u32,
}

/// One inertial reading: angular rate followed by specific force.
#[derive(Clone, Copy, Debug, PartialEq, Eq, Structural)]
pub struct ImuState {
    pub gyro: Vec3Bits,
    pub accel: Vec3Bits,
}

/// A quaternion `(x, y, z, w)`, kept as IEEE-754 bit patterns.
#[derive(Clone, Copy, Debug, PartialEq, Eq, Structural)]
pub struct QuatBits {
    pub x: u32,
    pub y: u32,
    pub z: u32,
    pub w: u32,
}

/// The richer record sent by a device that fuses on board.
#[derive(Clone, Copy, Debug, PartialEq, Eq, Structural)]
pub struct DroneState {
    pub imu1: ImuState,
    pub imu2: ImuState,
    pub cal_imu1: ImuState,
    pub cal_imu2: ImuState,
    pub main_imu: ImuState,
    pub orientation: QuatBits,
}

/// The three words starting at byte `at`.
pub open spec fn vec3_at(b: Seq<u8>, at: int) -> Vec3Bits {
    Vec3Bits { x: le_word(b, at), y: le_word(b, at + 4), z: le_word(b, at + 8) }
}

/// The inertial reading whose six words start at byte `at`.
pub open spec fn imu_at(b: Seq<u8>, at: int) -> ImuState {
    ImuState { gyro: vec3_at(b, at), accel: vec3_at(b, at + 12) }
}

/// The quaternion whose four words start at byte `at`.
pub open spec fn quat_at(b: Seq<u8>, at: int) -> QuatBits {
    QuatBits { x: le_word(b, at), y: le_word(b, at + 4), z: le_word(b, at + 8), w: le_word(b, at + 12) }
}

/// The record that the bytes `b` encode, field after field in declaration order.
pub open spec fn drone_state_of(b: Seq<u8>) -> DroneState {
    DroneState {
        imu1: imu_at(b, 0),
        imu2: imu_at(b, 24),
        cal_imu1: imu_at(b, 48),
        cal_imu2: imu_at(b, 72),
        main_imu: imu_at(b, 96),
        orientation: quat_at(b, 120),
    }
}

/// Reads the little-endian word at `b[at..at + 4]`.
pub fn read_le_word(b: &[u8], at: usize) -> (r: u32)
    requires
        at + 4 <= b.len(),
    ensures
        r == le_word(b@, at as int),
{
    let b0 = b[at] as u32;
    let b1 = b[at + 1] as u32;
    let b2 = b[at + 2] as u32;
    let b3 = b[at + 3] as u32;
    b0 + 256 * b1 + 65536 * b2 + 16777216 * b3
}

pub fn read_vec3(b: &[u8], at: usize) -> (r: Vec3Bits)
    requires
        at + 12 <= b.len(),
    ensures
        r == vec3_at(b@, at as int),
{
    Vec3Bits { x: read_le_word(b, at), y: read_le_word(b, at + 4), z: read_le_word(b, at + 8) }
}

pub fn read_imu(b: &[u8], at: usize) -> (r: ImuState)
    requires
        at + IMU_BYTES <= b.len(),
    ensures
        r == imu_at(b@, at as int),
{
    ImuState { gyro: read_vec3(b, at), accel: read_vec3(b, at + 12) }
}

pub fn read_quat(b: &[u8], at: usize) -> (r: QuatBits)
    requires
        at + 16 <= b.len(),
    ensures
        r == quat_at(b@, at as int),
{
    QuatBits {
        x: read_le_word(b, at),
        y: read_le_word(b, at + 4),
        z: read_le_word(b, at + 8),
        w: read_le_word(b, at + 12),
    }
}

impl DroneState {
    /// Decodes one fixed-size record; `None` unless `bytes` has exactly its size.
    pub fn decode(bytes: &[u8]) -> (r: Option<DroneState>)
        ensures
            bytes@.len() == DRONE_STATE_BYTES ==> r == Some(drone_state_of(bytes@)),
            bytes@.len() != DRONE_STATE_BYTES ==> r is None,
    {
        if bytes.len() != DRONE_STATE_BYTES {
            return None;
        }
        Some(DroneState {
            imu1: read_imu(bytes, 0),
            imu2: read_imu(bytes, 24),
            cal_imu1: read_imu(bytes, 48),
            cal_imu2: read_imu(bytes, 72),
            main_imu: read_imu(bytes, 96),
            orientation: read_quat(bytes, 120),
        })
    }
}

/// A command for the device; at most one waits to be sent at a time.
#[derive(Clone, Copy, Debug, PartialEq, Eq, Structural)]
pub enum DroneCmd {
    CalibrateAccel,
    CalibrateGyro,
}

/// The opcode byte that asks the device to carry out `cmd`.
pub open spec fn opcode_of(cmd: DroneCmd) -> u8 {
    match cmd {
        DroneCmd::CalibrateAccel => 1,
        DroneCmd::CalibrateGyro => 2,
    }
}

/// The request that asks the device for its current [`DroneState`].
pub open spec fn get_state_request() -> Seq<u8> {
    seq![3u8, 2u8]
}

/// What the host writes in one poll cycle: the pending command's opcode, if
/// any, and then the state request.
pub open spec fn poll_bytes(pending: Option<DroneCmd>) -> Seq<u8> {
    match pending {
        Some(cmd) => seq![opcode_of(cmd)] + get_state_request(),
        None => get_state_request(),
    }
}

impl DroneCmd {
    pub fn opcode(&self) -> (r: u8)
        ensures
            r == opcode_of(*self),
    {
        match self {
            DroneCmd::CalibrateAccel => 1,
            DroneCmd::CalibrateGyro => 2,
        }
    }
}

/// The bytes to write at the top of a poll cycle.
pub fn poll_request(pending: Option<DroneCmd>) -> (r: Vec<u8>)
    ensures
        r@ == poll_bytes(pending),
{
    let mut out: Vec<u8> = Vec::new();
    if let Some(cmd) = pending {
        out.push(cmd.opcode());
    }
    out.push(3);
    out.push(2);
    proof {
        assert(out@ =~= poll_bytes(pending));
    }
    out
}

} // verus!
