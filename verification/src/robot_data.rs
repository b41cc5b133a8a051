//! The telemetry record: its layout on the wire, the decoder and the encoder.
//!
//! Every 32-bit floating-point quantity of the record is held as its IEEE 754
//! bit pattern, exactly as it travels; nothing here interprets it further.

use crate::wire::{
    le_u16_at, le_u32_at, le_u64_at, le_words, read_i64_le, read_u16_le, read_u32_le, read_words,
    signed_64,
};
use vstd::slice::slice_subrange;
use vstd::prelude::*;

verus! {

/// Bytes that one record occupies in a frame.
pub const RECORD_LEN: usize = 785;

/// Bytes before the first 32-bit word of the record.
pub const HEADER_LEN: usize = 32;

/// 32-bit words that follow the header.
pub const BODY_WORDS: usize = 188;

/// Elements of a per-joint series.
pub const JOINTS: usize = 7;

/// Elements of a per-axis series of the tool centre point or the force sensor.
pub const AXES: usize = 6;

/// Why a frame could not be decoded.
#[derive(Clone, Copy, Debug, PartialEq, Eq, Structural)]
pub enum DecodeError {
    /// The frame holds fewer bytes than a record needs.
    FrameTooShort { len: usize },
}

/// One decoded telemetry record.
#[derive(Clone, Copy, Debug)]
pub struct RobotDataPacket {
    /// Byte count, as the sender declared it.
    pub byte_count: u32,
    /// Time stamp in microseconds.
    pub timestamp: i64,
    /// Motion state and mode.
    pub motion_state_and_mode: u8,
    /// Number of cached instructions.
    pub instruction_cache_count: u16,
    /// Reserved for system information.
    pub reserved_system: [u8; 17],
    /// Target joint positions, rad.
    pub target_joint_positions: [u32; 7],
    /// Target joint velocities, rad/s.
    pub target_joint_velocities: [u32; 7],
    /// Target joint accelerations, rad/s².
    pub target_joint_accelerations: [u32; 7],
    /// Actual joint positions, rad.
    pub actual_joint_positions: [u32; 7],
    /// Actual joint velocities, rad/s.
    pub actual_joint_velocities: [u32; 7],
    /// Actual joint accelerations, rad/s².
    pub actual_joint_accelerations: [u32; 7],
    /// Actual joint currents, A.
    pub actual_joint_currents: [u32; 7],
    /// Estimated joint torques, N·m.
    pub estimated_joint_torque: [u32; 7],
    /// Reserved for joint information.
    pub reserved_joint: [u32; 42],
    /// Target pose of the tool centre point, mm and rad.
    pub target_tcp_pose: [u32; 6],
    /// Target velocity of the tool centre point, mm/s and rad/s.
    pub target_tcp_velocity: [u32; 6],
    /// Actual pose of the tool centre point, mm and rad.
    pub actual_tcp_pose: [u32; 6],
    /// Actual velocity of the tool centre point, mm/s and rad/s.
    pub actual_tcp_velocity: [u32; 6],
    /// Estimated force and torque at the tool centre point, N and N·m.
    pub estimated_tcp_torque: [u32; 6],
    /// Reserved for tool centre point information.
    pub reserved_tcp: [u32; 36],
    /// Raw readings of the six-axis force/torque sensor.
    pub data_torque_sensor: [u32; 6],
    /// Readings of the force/torque sensor after filtering and compensation.
    pub filtered_data_torque_sensor: [u32; 6],
    /// Reserved for external devices.
    pub reserved_external: [u32; 12],
}

/// The mathematical content of a record: every array as a sequence.
pub struct RecordView {
    pub byte_count: u32,
    pub timestamp: i64,
    pub motion_state_and_mode: u8,
    pub instruction_cache_count: u16,
    pub reserved_system: Seq<u8>,
    pub target_joint_positions: Seq<u32>,
    pub target_joint_velocities: Seq<u32>,
    pub target_joint_accelerations: Seq<u32>,
    pub actual_joint_positions: Seq<u32>,
    pub actual_joint_velocities: Seq<u32>,
    pub actual_joint_accelerations: Seq<u32>,
    pub actual_joint_currents: Seq<u32>,
    pub estimated_joint_torque: Seq<u32>,
    pub reserved_joint: Seq<u32>,
    pub target_tcp_pose: Seq<u32>,
    pub target_tcp_velocity: Seq<u32>,
    pub actual_tcp_pose: Seq<u32>,
    pub actual_tcp_velocity: Seq<u32>,
    pub estimated_tcp_torque: Seq<u32>,
    pub reserved_tcp: Seq<u32>,
    pub data_torque_sensor: Seq<u32>,
    pub filtered_data_torque_sensor: Seq<u32>,
    pub reserved_external: Seq<u32>,
}

impl View for RobotDataPacket {
    type V = RecordView;

    open spec fn view(&self) -> RecordView {
        RecordView {
            byte_count: self.byte_count,
            timestamp: self.timestamp,
            motion_state_and_mode: self.motion_state_and_mode,
            instruction_cache_count: self.instruction_cache_count,
            reserved_system: self.reserved_system@,
            target_joint_positions: self.target_joint_positions@,
            target_joint_velocities: self.target_joint_velocities@,
            target_joint_accelerations: self.target_joint_accelerations@,
            actual_joint_positions: self.actual_joint_positions@,
            actual_joint_velocities: self.actual_joint_velocities@,
            actual_joint_accelerations: self.actual_joint_accelerations@,
            actual_joint_currents: self.actual_joint_currents@,
            estimated_joint_torque: self.estimated_joint_torque@,
            reserved_joint: self.reserved_joint@,
            target_tcp_pose: self.target_tcp_pose@,
            target_tcp_velocity: self.target_tcp_velocity@,
            actual_tcp_pose: self.actual_tcp_pose@,
            actual_tcp_velocity: self.actual_tcp_velocity@,
            estimated_tcp_torque: self.estimated_tcp_torque@,
            reserved_tcp: self.reserved_tcp@,
            data_torque_sensor: self.data_torque_sensor@,
            filtered_data_torque_sensor: self.filtered_data_torque_sensor@,
            reserved_external: self.reserved_external@,
        }
    }
}

impl RecordView {
    /// Every array has the length that the layout gives it.
    pub open spec fn well_formed(self) -> bool {
        &&& self.reserved_system.len() == 17
        &&& self.target_joint_positions.len() == 7
        &&& self.target_joint_velocities.len() == 7
        &&& self.target_joint_accelerations.len() == 7
        &&& self.actual_joint_positions.len() == 7
        &&& self.actual_joint_velocities.len() == 7
        &&& self.actual_joint_accelerations.len() == 7
        &&& self.actual_joint_currents.len() == 7
        &&& self.estimated_joint_torque.len() == 7
        &&& self.reserved_joint.len() == 42
        &&& self.target_tcp_pose.len() == 6
        &&& self.target_tcp_velocity.len() == 6
        &&& self.actual_tcp_pose.len() == 6
        &&& self.actual_tcp_velocity.len() == 6
        &&& self.estimated_tcp_torque.len() == 6
        &&& self.reserved_tcp.len() == 36
        &&& self.data_torque_sensor.len() == 6
        &&& self.filtered_data_torque_sensor.len() == 6
        &&& self.reserved_external.len() == 12
    }
}

/// What a frame of at least `RECORD_LEN` bytes decodes to. The fields lie one
/// after the other from the first byte on, all little-endian: the byte count
/// in bytes 0..4, the time stamp in 4..12, the mode in 12, the cache count in
/// 13..15, seventeen reserved bytes, and from byte 32 on the 32-bit words.
pub open spec fn decode_record(frame: Seq<u8>) -> RecordView {
    RecordView {
        byte_count: le_u32_at(frame, 0) as u32,
        timestamp: signed_64(le_u64_at(frame, 4)) as i64,
        motion_state_and_mode: frame[12],
        instruction_cache_count: le_u16_at(frame, 13) as u16,
        reserved_system: frame.subrange(15, 32),
        target_joint_positions: le_words(frame, 32, 7),
        target_joint_velocities: le_words(frame, 60, 7),
        target_joint_accelerations: le_words(frame, 88, 7),
        actual_joint_positions: le_words(frame, 116, 7),
        actual_joint_velocities: le_words(frame, 144, 7),
        actual_joint_accelerations: le_words(frame, 172, 7),
        actual_joint_currents: le_words(frame, 200, 7),
        estimated_joint_torque: le_words(frame, 228, 7),
        reserved_joint: le_words(frame, 256, 42),
        target_tcp_pose: le_words(frame, 424, 6),
        target_tcp_velocity: le_words(frame, 448, 6),
        actual_tcp_pose: le_words(frame, 472, 6),
        actual_tcp_velocity: le_words(frame, 496, 6),
        estimated_tcp_torque: le_words(frame, 520, 6),
        reserved_tcp: le_words(frame, 544, 36),
        data_torque_sensor: le_words(frame, 688, 6),
        filtered_data_torque_sensor: le_words(frame, 712, 6),
        reserved_external: le_words(frame, 736, 12),
    }
}

/// Byte `k` of the little-endian form of `v`, for `k` from 0 to 3.
pub open spec fn byte_of(v: int, k: int) -> u8 {
    if k == 0 {
        (v % 256) as u8
    } else if k == 1 {
        (v / 256 % 256) as u8
    } else if k == 2 {
        (v / 65536 % 256) as u8
    } else {
        (v / 16777216 % 256) as u8
    }
}

/// The 64-bit pattern of a two's complement number.
pub open spec fn pattern_64(v: int) -> int {
    if v >= 0 {
        v
    } else {
        v + 18446744073709551616
    }
}

/// The four bytes of a word, least significant first.
pub open spec fn word_bytes(w: u32) -> Seq<u8> {
    seq![byte_of(w as int, 0), byte_of(w as int, 1), byte_of(w as int, 2), byte_of(w as int, 3)]
}

/// The bytes of a run of words, each least significant byte first.
pub open spec fn words_bytes(words: Seq<u32>) -> Seq<u8> {
    Seq::new(4 * words.len(), |i: int| byte_of(words[i / 4] as int, i % 4))
}

/// Word `j` of the 188 words that follow the header.
pub open spec fn body_word(p: RecordView, j: int) -> u32 {
    if j < 7 {
        p.target_joint_positions[j]
    } else if j < 14 {
        p.target_joint_velocities[j - 7]
    } else if j < 21 {
        p.target_joint_accelerations[j - 14]
    } else if j < 28 {
        p.actual_joint_positions[j - 21]
    } else if j < 35 {
        p.actual_joint_velocities[j - 28]
    } else if j < 42 {
        p.actual_joint_accelerations[j - 35]
    } else if j < 49 {
        p.actual_joint_currents[j - 42]
    } else if j < 56 {
        p.estimated_joint_torque[j - 49]
    } else if j < 98 {
        p.reserved_joint[j - 56]
    } else if j < 104 {
        p.target_tcp_pose[j - 98]
    } else if j < 110 {
        p.target_tcp_velocity[j - 104]
    } else if j < 116 {
        p.actual_tcp_pose[j - 110]
    } else if j < 122 {
        p.actual_tcp_velocity[j - 116]
    } else if j < 128 {
        p.estimated_tcp_torque[j - 122]
    } else if j < 164 {
        p.reserved_tcp[j - 128]
    } else if j < 170 {
        p.data_torque_sensor[j - 164]
    } else if j < 176 {
        p.filtered_data_torque_sensor[j - 170]
    } else {
        p.reserved_external[j - 176]
    }
}

/// Byte `i` of the record as it travels. The last byte carries no field and
/// is zero.
pub open spec fn record_byte(p: RecordView, i: int) -> u8 {
    if i < 4 {
        byte_of(p.byte_count as int, i)
    } else if i < 8 {
        byte_of(pattern_64(p.timestamp as int) % 4294967296, i - 4)
    } else if i < 12 {
        byte_of(pattern_64(p.timestamp as int) / 4294967296, i - 8)
    } else if i < 13 {
        p.motion_state_and_mode
    } else if i < 15 {
        byte_of(p.instruction_cache_count as int, i - 13)
    } else if i < 32 {
        p.reserved_system[i - 15]
    } else if i < 784 {
        byte_of(body_word(p, (i - 32) / 4) as int, (i - 32) % 4)
    } else {
        0
    }
}

/// The `RECORD_LEN` bytes that a record travels as.
pub open spec fn encode_record(p: RecordView) -> Seq<u8> {
    Seq::new(RECORD_LEN as nat, |i: int| record_byte(p, i))
}

/// The bytes of a 32-bit number, read back, give the number.
pub proof fn lemma_word_from_bytes(w: u32)
    ensures
        byte_of(w as int, 0) as int + 256 * (byte_of(w as int, 1) as int) + 65536 * (byte_of(
            w as int,
            2,
        ) as int) + 16777216 * (byte_of(w as int, 3) as int) == w,
        le_u32_at(word_bytes(w), 0) == w,
{
}

/// Words `a` to `a + n` of an encoded record, read back, are the words that
/// went in.
proof fn lemma_words_read_back(p: RecordView, a: int, n: nat)
    requires
        0 <= a,
        a + n <= BODY_WORDS,
    ensures
        le_words(encode_record(p), 32 + 4 * a, n) =~= Seq::new(n, |k: int| body_word(p, a + k)),
{
    let e = encode_record(p);
    let read = le_words(e, 32 + 4 * a, n);
    assert forall|k: int| 0 <= k < n implies #[trigger] read[k] == body_word(p, a + k) by {
        let at = 32 + 4 * a + 4 * k;
        let w = body_word(p, a + k);
        lemma_word_from_bytes(w);
        assert(e[at] == byte_of(w as int, 0));
        assert(e[at + 1] == byte_of(w as int, 1));
        assert(e[at + 2] == byte_of(w as int, 2));
        assert(e[at + 3] == byte_of(w as int, 3));
    }
}

/// Encoding a record and decoding the bytes gives the record back, field by
/// field, with every element of every array.
pub proof fn lemma_decode_inverts_encode(p: RecordView)
    requires
        p.well_formed(),
    ensures
        encode_record(p).len() == RECORD_LEN,
        decode_record(encode_record(p)) == p,
{
    let e = encode_record(p);
    let d = decode_record(e);
    assert(d.byte_count == p.byte_count) by {
        lemma_word_from_bytes(p.byte_count);
    }
    assert(d.timestamp == p.timestamp) by {
        let pattern = pattern_64(p.timestamp as int);
        let low = (pattern % 4294967296) as u32;
        let high = (pattern / 4294967296) as u32;
        lemma_word_from_bytes(low);
        lemma_word_from_bytes(high);
        assert(le_u32_at(e, 4) == low);
        assert(le_u32_at(e, 8) == high);
    }
    assert(d.motion_state_and_mode == p.motion_state_and_mode);
    assert(d.instruction_cache_count == p.instruction_cache_count);
    assert(d.reserved_system =~= p.reserved_system);
    lemma_words_read_back(p, 0, 7);
    assert(d.target_joint_positions =~= p.target_joint_positions);
    lemma_words_read_back(p, 7, 7);
    assert(d.target_joint_velocities =~= p.target_joint_velocities);
    lemma_words_read_back(p, 14, 7);
    assert(d.target_joint_accelerations =~= p.target_joint_accelerations);
    lemma_words_read_back(p, 21, 7);
    assert(d.actual_joint_positions =~= p.actual_joint_positions);
    lemma_words_read_back(p, 28, 7);
    assert(d.actual_joint_velocities =~= p.actual_joint_velocities);
    lemma_words_read_back(p, 35, 7);
    assert(d.actual_joint_accelerations =~= p.actual_joint_accelerations);
    lemma_words_read_back(p, 42, 7);
    assert(d.actual_joint_currents =~= p.actual_joint_currents);
    lemma_words_read_back(p, 49, 7);
    assert(d.estimated_joint_torque =~= p.estimated_joint_torque);
    lemma_words_read_back(p, 56, 42);
    assert(d.reserved_joint =~= p.reserved_joint);
    lemma_words_read_back(p, 98, 6);
    assert(d.target_tcp_pose =~= p.target_tcp_pose);
    lemma_words_read_back(p, 104, 6);
    assert(d.target_tcp_velocity =~= p.target_tcp_velocity);
    lemma_words_read_back(p, 110, 6);
    assert(d.actual_tcp_pose =~= p.actual_tcp_pose);
    lemma_words_read_back(p, 116, 6);
    assert(d.actual_tcp_velocity =~= p.actual_tcp_velocity);
    lemma_words_read_back(p, 122, 6);
    assert(d.estimated_tcp_torque =~= p.estimated_tcp_torque);
    lemma_words_read_back(p, 128, 36);
    assert(d.reserved_tcp =~= p.reserved_tcp);
    lemma_words_read_back(p, 164, 6);
    assert(d.data_torque_sensor =~= p.data_torque_sensor);
    lemma_words_read_back(p, 170, 6);
    assert(d.filtered_data_torque_sensor =~= p.filtered_data_torque_sensor);
    lemma_words_read_back(p, 176, 12);
    assert(d.reserved_external =~= p.reserved_external);
}

/// A record that is encoded and then decoded comes back unchanged.
pub proof fn lemma_round_trip(p: RobotDataPacket)
    ensures
        encode_record(p@).len() == RECORD_LEN,
        decode_record(encode_record(p@)) == p@,
{
    broadcast use vstd::array::array_len_matches_n;

    lemma_decode_inverts_encode(p@);
}

/// Appends the four bytes of `w`, least significant first.
fn put_word(out: &mut Vec<u8>, w: u32)
    ensures
        final(out)@ == old(out)@ + word_bytes(w),
{
    out.push((w % 256) as u8);
    out.push((w / 256 % 256) as u8);
    out.push((w / 65536 % 256) as u8);
    out.push((w / 16777216 % 256) as u8);
    assert(out@ =~= old(out)@ + word_bytes(w));
}

/// Appends the bytes of `N` words, each least significant byte first.
fn put_words<const N: usize>(out: &mut Vec<u8>, words: &[u32; N])
    ensures
        final(out)@ == old(out)@ + words_bytes(words@),
{
    let mut i: usize = 0;
    while i < N
        invariant
            i <= N,
            words@.len() == N,
            out@ == old(out)@ + words_bytes(words@.subrange(0, i as int)),
        decreases N - i,
    {
        let ghost before = out@;
        put_word(out, words[i]);
        assert(out@ =~= old(out)@ + words_bytes(words@.subrange(0, i + 1))) by {
            assert(before == old(out)@ + words_bytes(words@.subrange(0, i as int)));
            assert(out@ == before + word_bytes(words@[i as int]));
        }
        i = i + 1;
    }
    assert(words@.subrange(0, N as int) =~= words@);
}

/// Copies `N` bytes of `data`, the first at `offset`.
fn read_bytes<const N: usize>(data: &[u8], offset: usize) -> (bytes: [u8; N])
    requires
        offset + N <= data@.len(),
    ensures
        bytes@ == data@.subrange(offset as int, offset + N),
{
    let len = data.len();
    let mut bytes = [0u8; N];
    let mut i: usize = 0;
    while i < N
        invariant
            i <= N,
            len == data@.len(),
            offset + N <= len,
            forall|k: int| 0 <= k < i ==> bytes@[k] == data@[offset + k],
        decreases N - i,
    {
        bytes[i] = data[offset + i];
        i = i + 1;
    }
    bytes
}

impl RobotDataPacket {
    /// Decodes the record at the head of `data`, all or nothing: a frame of
    /// fewer than `RECORD_LEN` bytes is refused, any other is decoded strictly
    /// by offset.
    pub fn from_bytes(data: &[u8]) -> (r: Result<RobotDataPacket, DecodeError>)
        ensures
            data@.len() < RECORD_LEN ==> r == Err::<RobotDataPacket, DecodeError>(
                DecodeError::FrameTooShort { len: data@.len() as usize },
            ),
            data@.len() >= RECORD_LEN ==> r is Ok && r->Ok_0@ == decode_record(data@),
    {
        let len = data.len();
        if len < RECORD_LEN {
            return Err(DecodeError::FrameTooShort { len });
        }
        let byte_count = read_u32_le(slice_subrange(data, 0, 4));
        let timestamp = read_i64_le(slice_subrange(data, 4, 12));
        let motion_state_and_mode = data[12];
        let instruction_cache_count = read_u16_le(slice_subrange(data, 13, 15));
        let reserved_system = read_bytes::<17>(data, 15);
        let packet = RobotDataPacket {
            byte_count,
            timestamp,
            motion_state_and_mode,
            instruction_cache_count,
            reserved_system,
            target_joint_positions: read_words::<7>(data, 32),
            target_joint_velocities: read_words::<7>(data, 60),
            target_joint_accelerations: read_words::<7>(data, 88),
            actual_joint_positions: read_words::<7>(data, 116),
            actual_joint_velocities: read_words::<7>(data, 144),
            actual_joint_accelerations: read_words::<7>(data, 172),
            actual_joint_currents: read_words::<7>(data, 200),
            estimated_joint_torque: read_words::<7>(data, 228),
            reserved_joint: read_words::<42>(data, 256),
            target_tcp_pose: read_words::<6>(data, 424),
            target_tcp_velocity: read_words::<6>(data, 448),
            actual_tcp_pose: read_words::<6>(data, 472),
            actual_tcp_velocity: read_words::<6>(data, 496),
            estimated_tcp_torque: read_words::<6>(data, 520),
            reserved_tcp: read_words::<36>(data, 544),
            data_torque_sensor: read_words::<6>(data, 688),
            filtered_data_torque_sensor: read_words::<6>(data, 712),
            reserved_external: read_words::<12>(data, 736),
        };
        Ok(packet)
    }
    /// Encodes the record as the `RECORD_LEN` bytes that it travels as.
    pub fn to_bytes(&self) -> (bytes: Vec<u8>)
        ensures
            bytes@ == encode_record(self@),
    {
        let ghost target = encode_record(self@);
        let mut out: Vec<u8> = Vec::new();
        put_word(&mut out, self.byte_count);
        assert(out@ =~= target.subrange(0, 4));
        let pattern: u64 = if self.timestamp >= 0 {
            self.timestamp as u64
        } else {
            (self.timestamp + 9223372036854775807 + 1) as u64 + 9223372036854775808
        };
        assert(pattern == pattern_64(self.timestamp as int));
        put_word(&mut out, (pattern % 4294967296) as u32);
        put_word(&mut out, (pattern / 4294967296) as u32);
        assert(out@ =~= target.subrange(0, 12));
        out.push(self.motion_state_and_mode);
        out.push((self.instruction_cache_count % 256) as u8);
        out.push((self.instruction_cache_count / 256) as u8);
        assert(out@ =~= target.subrange(0, 15));
        let mut i: usize = 0;
        while i < 17
            invariant
                i <= 17,
                target == encode_record(self@),
                out@ == target.subrange(0, 15 + i),
            decreases 17 - i,
        {
            out.push(self.reserved_system[i]);
            assert(out@ =~= target.subrange(0, 15 + i + 1));
            i = i + 1;
        }
        put_words(&mut out, &self.target_joint_positions);
        assert(out@ =~= target.subrange(0, 60));
        put_words(&mut out, &self.target_joint_velocities);
        assert(out@ =~= target.subrange(0, 88));
        put_words(&mut out, &self.target_joint_accelerations);
        assert(out@ =~= target.subrange(0, 116));
        put_words(&mut out, &self.actual_joint_positions);
        assert(out@ =~= target.subrange(0, 144));
        put_words(&mut out, &self.actual_joint_velocities);
        assert(out@ =~= target.subrange(0, 172));
        put_words(&mut out, &self.actual_joint_accelerations);
        assert(out@ =~= target.subrange(0, 200));
        put_words(&mut out, &self.actual_joint_currents);
        assert(out@ =~= target.subrange(0, 228));
        put_words(&mut out, &self.estimated_joint_torque);
        assert(out@ =~= target.subrange(0, 256));
        put_words(&mut out, &self.reserved_joint);
        assert(out@ =~= target.subrange(0, 424));
        put_words(&mut out, &self.target_tcp_pose);
        assert(out@ =~= target.subrange(0, 448));
        put_words(&mut out, &self.target_tcp_velocity);
        assert(out@ =~= target.subrange(0, 472));
        put_words(&mut out, &self.actual_tcp_pose);
        assert(out@ =~= target.subrange(0, 496));
        put_words(&mut out, &self.actual_tcp_velocity);
        assert(out@ =~= target.subrange(0, 520));
        put_words(&mut out, &self.estimated_tcp_torque);
        assert(out@ =~= target.subrange(0, 544));
        put_words(&mut out, &self.reserved_tcp);
        assert(out@ =~= target.subrange(0, 688));
        put_words(&mut out, &self.data_torque_sensor);
        assert(out@ =~= target.subrange(0, 712));
        put_words(&mut out, &self.filtered_data_torque_sensor);
        assert(out@ =~= target.subrange(0, 736));
        put_words(&mut out, &self.reserved_external);
        assert(out@ =~= target.subrange(0, 784));
        out.push(0);
        assert(out@ =~= target);
        out
    }
}

} // verus!
