use arm_service::robot_data::{DecodeError, RobotDataPacket, RECORD_LEN};

fn bits(values: &[f32]) -> Vec<u32> {
    values.iter().map(|v| v.to_bits()).collect()
}

fn ramp<const N: usize>(start: f32) -> [u32; N] {
    let mut out = [0u32; N];
    for (i, slot) in out.iter_mut().enumerate() {
        *slot = (start + i as f32 * 0.25).to_bits();
    }
    out
}

fn sample_packet() -> RobotDataPacket {
    let mut reserved_system = [0u8; 17];
    for (i, slot) in reserved_system.iter_mut().enumerate() {
        *slot = 0xA0 + i as u8;
    }
    RobotDataPacket {
        byte_count: 785,
        timestamp: 1_736_251_200_123_456,
        motion_state_and_mode: 0x5A,
        instruction_cache_count: 0xBEEF,
        reserved_system,
        target_joint_positions: ramp::<7>(1.0),
        target_joint_velocities: ramp::<7>(-2.0),
        target_joint_accelerations: ramp::<7>(3.5),
        actual_joint_positions: ramp::<7>(1.125),
        actual_joint_velocities: ramp::<7>(-2.5),
        actual_joint_accelerations: ramp::<7>(4.0),
        actual_joint_currents: ramp::<7>(0.5),
        estimated_joint_torque: ramp::<7>(12.0),
        reserved_joint: ramp::<42>(100.0),
        target_tcp_pose: ramp::<6>(300.0),
        target_tcp_velocity: ramp::<6>(-7.0),
        actual_tcp_pose: ramp::<6>(301.0),
        actual_tcp_velocity: ramp::<6>(-7.5),
        estimated_tcp_torque: ramp::<6>(9.0),
        reserved_tcp: ramp::<36>(-50.0),
        data_torque_sensor: ramp::<6>(0.125),
        filtered_data_torque_sensor: ramp::<6>(0.0625),
        reserved_external: ramp::<12>(77.0),
    }
}

fn assert_same(a: &RobotDataPacket, b: &RobotDataPacket) {
    assert_eq!(a.byte_count, b.byte_count);
    assert_eq!(a.timestamp, b.timestamp);
    assert_eq!(a.motion_state_and_mode, b.motion_state_and_mode);
    assert_eq!(a.instruction_cache_count, b.instruction_cache_count);
    assert_eq!(a.reserved_system, b.reserved_system);
    assert_eq!(a.target_joint_positions, b.target_joint_positions);
    assert_eq!(a.target_joint_velocities, b.target_joint_velocities);
    assert_eq!(a.target_joint_accelerations, b.target_joint_accelerations);
    assert_eq!(a.actual_joint_positions, b.actual_joint_positions);
    assert_eq!(a.actual_joint_velocities, b.actual_joint_velocities);
    assert_eq!(a.actual_joint_accelerations, b.actual_joint_accelerations);
    assert_eq!(a.actual_joint_currents, b.actual_joint_currents);
    assert_eq!(a.estimated_joint_torque, b.estimated_joint_torque);
    assert_eq!(a.reserved_joint, b.reserved_joint);
    assert_eq!(a.target_tcp_pose, b.target_tcp_pose);
    assert_eq!(a.target_tcp_velocity, b.target_tcp_velocity);
    assert_eq!(a.actual_tcp_pose, b.actual_tcp_pose);
    assert_eq!(a.actual_tcp_velocity, b.actual_tcp_velocity);
    assert_eq!(a.estimated_tcp_torque, b.estimated_tcp_torque);
    assert_eq!(a.reserved_tcp, b.reserved_tcp);
    assert_eq!(a.data_torque_sensor, b.data_torque_sensor);
    assert_eq!(a.filtered_data_torque_sensor, b.filtered_data_torque_sensor);
    assert_eq!(a.reserved_external, b.reserved_external);
}

#[test]
fn test_round_trip_reproduces_every_field() {
    let packet = sample_packet();
    let bytes = packet.to_bytes();
    assert_eq!(bytes.len(), RECORD_LEN);
    let decoded = RobotDataPacket::from_bytes(&bytes).unwrap();
    assert_same(&decoded, &packet);
}

#[test]
fn test_round_trip_of_extreme_values() {
    let mut packet = sample_packet();
    packet.byte_count = u32::MAX;
    packet.timestamp = i64::MIN;
    packet.instruction_cache_count = u16::MAX;
    packet.target_joint_positions = [u32::MAX; 7];
    packet.reserved_external = [0x8000_0001; 12];
    let decoded = RobotDataPacket::from_bytes(&packet.to_bytes()).unwrap();
    assert_same(&decoded, &packet);

    packet.timestamp = -1;
    let bytes = packet.to_bytes();
    assert_eq!(&bytes[4..12], &[0xFF; 8]);
    assert_eq!(RobotDataPacket::from_bytes(&bytes).unwrap().timestamp, -1);

    packet.timestamp = i64::MAX;
    assert_eq!(
        RobotDataPacket::from_bytes(&packet.to_bytes()).unwrap().timestamp,
        i64::MAX
    );
}

#[test]
fn test_encoded_layout() {
    let packet = sample_packet();
    let bytes = packet.to_bytes();
    assert_eq!(&bytes[0..4], &785u32.to_le_bytes());
    assert_eq!(&bytes[4..12], &1_736_251_200_123_456i64.to_le_bytes());
    assert_eq!(bytes[12], 0x5A);
    assert_eq!(&bytes[13..15], &[0xEF, 0xBE]);
    assert_eq!(bytes[15], 0xA0);
    assert_eq!(bytes[31], 0xB0);
    assert_eq!(&bytes[32..36], &1.0f32.to_le_bytes());
    assert_eq!(&bytes[36..40], &1.25f32.to_le_bytes());
    assert_eq!(&bytes[424..428], &300.0f32.to_le_bytes());
    assert_eq!(&bytes[780..784], &(77.0f32 + 11.0 * 0.25).to_le_bytes());
    assert_eq!(bytes[784], 0);
}

#[test]
fn test_decode_reads_by_offset() {
    let mut frame = vec![0u8; RECORD_LEN];
    frame[0..4].copy_from_slice(&[0x11, 0x03, 0x00, 0x00]);
    frame[4..12].copy_from_slice(&[0x08, 0x07, 0x06, 0x05, 0x04, 0x03, 0x02, 0x01]);
    frame[12] = 7;
    frame[13] = 0x34;
    frame[14] = 0x12;
    frame[15] = 0xC1;
    frame[31] = 0xC2;
    frame[32..36].copy_from_slice(&1.5f32.to_le_bytes());
    frame[56..60].copy_from_slice(&(-0.75f32).to_le_bytes());
    frame[60..64].copy_from_slice(&2.5f32.to_le_bytes());
    frame[116..120].copy_from_slice(&3.0f32.to_le_bytes());
    frame[228..232].copy_from_slice(&4.0f32.to_le_bytes());
    frame[256..260].copy_from_slice(&5.0f32.to_le_bytes());
    frame[424..428].copy_from_slice(&6.0f32.to_le_bytes());
    frame[472..476].copy_from_slice(&7.0f32.to_le_bytes());
    frame[540..544].copy_from_slice(&8.0f32.to_le_bytes());
    frame[688..692].copy_from_slice(&9.0f32.to_le_bytes());
    frame[712..716].copy_from_slice(&10.0f32.to_le_bytes());
    frame[736..740].copy_from_slice(&11.0f32.to_le_bytes());
    frame[780..784].copy_from_slice(&12.0f32.to_le_bytes());
    frame[784] = 0xEE;

    let p = RobotDataPacket::from_bytes(&frame).unwrap();
    assert_eq!(p.byte_count, 0x0311);
    assert_eq!(p.byte_count, 785);
    assert_eq!(p.timestamp, 0x0102_0304_0506_0708);
    assert_eq!(p.motion_state_and_mode, 7);
    assert_eq!(p.instruction_cache_count, 0x1234);
    assert_eq!(p.reserved_system[0], 0xC1);
    assert_eq!(p.reserved_system[16], 0xC2);
    assert_eq!(f32::from_bits(p.target_joint_positions[0]), 1.5);
    assert_eq!(f32::from_bits(p.target_joint_positions[6]), -0.75);
    assert_eq!(f32::from_bits(p.target_joint_velocities[0]), 2.5);
    assert_eq!(f32::from_bits(p.actual_joint_positions[0]), 3.0);
    assert_eq!(f32::from_bits(p.estimated_joint_torque[0]), 4.0);
    assert_eq!(f32::from_bits(p.reserved_joint[0]), 5.0);
    assert_eq!(f32::from_bits(p.target_tcp_pose[0]), 6.0);
    assert_eq!(f32::from_bits(p.actual_tcp_pose[0]), 7.0);
    assert_eq!(f32::from_bits(p.estimated_tcp_torque[5]), 8.0);
    assert_eq!(f32::from_bits(p.data_torque_sensor[0]), 9.0);
    assert_eq!(f32::from_bits(p.filtered_data_torque_sensor[0]), 10.0);
    assert_eq!(f32::from_bits(p.reserved_external[0]), 11.0);
    assert_eq!(f32::from_bits(p.reserved_external[11]), 12.0);
    assert_eq!(p.target_joint_positions[1], 0);
}

#[test]
fn test_negative_timestamp() {
    let mut frame = vec![0u8; RECORD_LEN];
    frame[4..12].copy_from_slice(&(-1_000_000_000i64).to_le_bytes());
    let p = RobotDataPacket::from_bytes(&frame).unwrap();
    assert_eq!(p.timestamp, -1_000_000_000);
}

#[test]
fn test_short_frame_is_refused() {
    let bytes = sample_packet().to_bytes();
    assert_eq!(
        RobotDataPacket::from_bytes(&bytes[..784]).unwrap_err(),
        DecodeError::FrameTooShort { len: 784 }
    );
    assert_eq!(
        RobotDataPacket::from_bytes(&[]).unwrap_err(),
        DecodeError::FrameTooShort { len: 0 }
    );
    assert_eq!(
        RobotDataPacket::from_bytes(&bytes[..100]).unwrap_err(),
        DecodeError::FrameTooShort { len: 100 }
    );
}

#[test]
fn test_longer_frame_decodes_its_head() {
    let packet = sample_packet();
    let mut bytes = packet.to_bytes();
    bytes.extend_from_slice(&[0xFF; 300]);
    let decoded = RobotDataPacket::from_bytes(&bytes).unwrap();
    assert_same(&decoded, &packet);
}

#[test]
fn test_bits_helper_matches_arrays() {
    let packet = sample_packet();
    assert_eq!(
        packet.target_joint_positions.to_vec(),
        bits(&[1.0, 1.25, 1.5, 1.75, 2.0, 2.25, 2.5])
    );
}
