use pigeon::types::{deserialize, serialize, PubMessage, PubType, MSG_SIZE};

fn all_kinds() -> Vec<PubType> {
    vec![
        PubType::PressureSensorTemperature,
        PubType::PressureSensorPressure,
        PubType::LongDistanceSensor,
        PubType::AccelerometerZ,
        PubType::GyroscopeX,
        PubType::GyroscopeY,
        PubType::IsFalling,
        PubType::PowerButton,
    ]
}

#[test]
fn round_trip_every_kind() {
    let samples: Vec<(i16, u32)> = vec![
        (0, 0),
        (1, 0x3F80_0000),
        (-1, 0xBF80_0000),
        (12345, 0x4640_E400),
        (-32768, 0xC700_0000),
        (32767, 0x46FF_FE00),
        (-7, 0xFFFF_FFFF),
    ];
    for kind in all_kinds() {
        for &(integral, decimal) in &samples {
            let msg = PubMessage { pub_type: kind, integral, decimal };
            let frame = serialize(&msg).expect("encoding is always possible");
            assert_eq!(frame.len(), MSG_SIZE);
            assert_eq!(deserialize(&frame), Some(msg));
        }
    }
}

#[test]
fn frame_layout_is_little_endian() {
    let msg = PubMessage { pub_type: PubType::LongDistanceSensor, integral: -2, decimal: 0x0102_0304 };
    let frame = serialize(&msg).unwrap();
    assert_eq!(frame, vec![2, 0, 0, 0, 0xFE, 0xFF, 0x04, 0x03, 0x02, 0x01]);
}

#[test]
fn wrong_length_fails() {
    let msg = PubMessage { pub_type: PubType::IsFalling, integral: 1, decimal: 0 };
    let frame = serialize(&msg).unwrap();
    assert_eq!(deserialize(&frame[..MSG_SIZE - 1]), None);
    let mut long = frame.clone();
    long.push(0);
    assert_eq!(deserialize(&long), None);
    assert_eq!(deserialize(&[]), None);
}

#[test]
fn out_of_range_tag_fails() {
    for bad_tag in [8u8, 9, 100, 255] {
        let mut frame = vec![bad_tag, 0, 0, 0, 0, 0, 0, 0, 0, 0];
        assert_eq!(deserialize(&frame), None);
        // A tag whose upper bytes are set is out of range however small
        // its low byte looks.
        frame = vec![0, 1, 0, 0, 0, 0, 0, 0, 0, 0];
        assert_eq!(deserialize(&frame), None);
    }
}
