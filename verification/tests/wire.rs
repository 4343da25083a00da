use multisig::message::ChannelParams;
use multisig::message::Message;
use multisig::message::WaveShape;
use multisig::wire::decode;
use multisig::wire::encode;
use multisig::wire::DecodeError;

fn square() -> Message {
    Message::SetParams(
        5,
        ChannelParams {
            shape: WaveShape::Square(0.5f64.to_bits()),
            amplitude_db: (-6.0f64).to_bits(),
            frequency: 100.0f64.to_bits(),
            phase_degrees: 90.0f64.to_bits(),
        },
    )
}

fn with_shape(shape: WaveShape) -> Message {
    Message::SetParams(
        0x0102_0304,
        ChannelParams {
            shape,
            amplitude_db: 0x1112_1314_1516_1718,
            frequency: 0x2122_2324_2526_2728,
            phase_degrees: 0x3132_3334_3536_3738,
        },
    )
}

#[test]
fn reset_is_four_bytes() {
    assert_eq!(encode(&Message::Reset), vec![1, 0, 0, 0]);
}

#[test]
fn set_params_bytes_are_little_endian_fields_in_order() {
    let bytes = encode(&with_shape(WaveShape::Sawtooth));
    let expected: Vec<u8> = vec![
        0, 0, 0, 0, // message tag
        0x04, 0x03, 0x02, 0x01, 0, 0, 0, 0, // index
        3, 0, 0, 0, // shape tag
        0x18, 0x17, 0x16, 0x15, 0x14, 0x13, 0x12, 0x11, // amplitude
        0x28, 0x27, 0x26, 0x25, 0x24, 0x23, 0x22, 0x21, // frequency
        0x38, 0x37, 0x36, 0x35, 0x34, 0x33, 0x32, 0x31, // phase
    ];
    assert_eq!(bytes, expected);
}

#[test]
fn square_carries_its_duty_after_the_tag() {
    let bytes = encode(&with_shape(WaveShape::Square(0x4142_4344_4546_4748)));
    assert_eq!(bytes.len(), 48);
    assert_eq!(&bytes[12..16], &[2, 0, 0, 0]);
    assert_eq!(&bytes[16..24], &[0x48, 0x47, 0x46, 0x45, 0x44, 0x43, 0x42, 0x41]);
    assert_eq!(&bytes[24..32], &[0x18, 0x17, 0x16, 0x15, 0x14, 0x13, 0x12, 0x11]);
}

#[test]
fn shape_tags_are_zero_to_three() {
    assert_eq!(encode(&with_shape(WaveShape::Sine))[12..16], [0, 0, 0, 0]);
    assert_eq!(encode(&with_shape(WaveShape::Triangle))[12..16], [1, 0, 0, 0]);
    assert_eq!(encode(&with_shape(WaveShape::Square(0)))[12..16], [2, 0, 0, 0]);
    assert_eq!(encode(&with_shape(WaveShape::Sawtooth))[12..16], [3, 0, 0, 0]);
}

#[test]
fn every_shape_round_trips() {
    let shapes = [
        WaveShape::Sine,
        WaveShape::Triangle,
        WaveShape::Square(0.5f64.to_bits()),
        WaveShape::Square(0.125f64.to_bits()),
        WaveShape::Square(f64::NAN.to_bits()),
        WaveShape::Sawtooth,
    ];
    for shape in shapes {
        let message = with_shape(shape);
        assert_eq!(decode(&encode(&message)), Ok(message));
    }
    assert_eq!(decode(&encode(&Message::Reset)), Ok(Message::Reset));
    assert_eq!(decode(&encode(&square())), Ok(square()));
}

#[test]
fn largest_index_round_trips() {
    let message = Message::SetParams(usize::MAX, ChannelParams::default());
    assert_eq!(decode(&encode(&message)), Ok(message));
}

#[test]
fn bytes_after_the_message_are_ignored() {
    let mut bytes = encode(&square());
    bytes.extend_from_slice(&[0xAA, 0xBB, 0xCC]);
    assert_eq!(decode(&bytes), Ok(square()));
    assert_eq!(decode(&[1, 0, 0, 0, 9, 9]), Ok(Message::Reset));
}

#[test]
fn short_input_is_truncated() {
    assert_eq!(decode(&[]), Err(DecodeError::Truncated));
    assert_eq!(decode(&[1, 0, 0]), Err(DecodeError::Truncated));
    let bytes = encode(&square());
    for cut in 0..bytes.len() {
        assert_eq!(decode(&bytes[..cut]), Err(DecodeError::Truncated), "cut at {}", cut);
    }
    let bytes = encode(&with_shape(WaveShape::Sine));
    for cut in 0..bytes.len() {
        assert_eq!(decode(&bytes[..cut]), Err(DecodeError::Truncated), "cut at {}", cut);
    }
}

#[test]
fn unknown_message_tag_is_reported_with_the_tag() {
    assert_eq!(decode(&[2, 0, 0, 0]), Err(DecodeError::UnknownMessage(2)));
    assert_eq!(decode(&[0, 1, 0, 0, 7, 7, 7]), Err(DecodeError::UnknownMessage(256)));
    assert_eq!(
        decode(&[0xFF, 0xFF, 0xFF, 0xFF]),
        Err(DecodeError::UnknownMessage(u32::MAX))
    );
}

#[test]
fn unknown_shape_tag_is_reported_with_the_tag() {
    let mut bytes = encode(&with_shape(WaveShape::Sine));
    bytes[12] = 4;
    assert_eq!(decode(&bytes), Err(DecodeError::UnknownShape(4)));
    bytes[12] = 0;
    bytes[15] = 1;
    assert_eq!(decode(&bytes), Err(DecodeError::UnknownShape(0x0100_0000)));
    assert_eq!(decode(&bytes[..16]), Err(DecodeError::UnknownShape(0x0100_0000)));
}

#[test]
fn index_beyond_the_machine_is_reported() {
    if (usize::MAX as u64) < u64::MAX {
        let mut bytes = encode(&with_shape(WaveShape::Sine));
        bytes[11] = 0x80;
        assert_eq!(
            decode(&bytes),
            Err(DecodeError::IndexTooLarge(0x8000_0000_0102_0304))
        );
    } else {
        let mut bytes = encode(&with_shape(WaveShape::Sine));
        bytes[11] = 0x80;
        assert_eq!(
            decode(&bytes),
            Ok(Message::SetParams(
                0x8000_0000_0102_0304u64 as usize,
                ChannelParams {
                    shape: WaveShape::Sine,
                    amplitude_db: 0x1112_1314_1516_1718,
                    frequency: 0x2122_2324_2526_2728,
                    phase_degrees: 0x3132_3334_3536_3738,
                }
            ))
        );
    }
}

#[test]
fn errors_describe_themselves() {
    assert_eq!(
        DecodeError::Truncated.describe(),
        "malformed message received: unexpected end of input"
    );
    assert_eq!(
        DecodeError::UnknownMessage(7).describe(),
        "malformed message received: unknown message tag"
    );
    assert_eq!(
        DecodeError::UnknownShape(7).describe(),
        "malformed message received: unknown shape tag"
    );
    assert_eq!(
        DecodeError::IndexTooLarge(7).describe(),
        "malformed message received: channel index out of range"
    );
}

#[test]
fn layout_is_the_fixed_width_little_endian_one() {
    let fields = (0u32, 5u64, 2u32, 0.5f64, -6.0f64, 100.0f64, 90.0f64);
    assert_eq!(encode(&square()), bincode::serialize(&fields).unwrap());

    let fields = (0u32, 7u64, 1u32, 0.0f64, 1000.0f64, 0.0f64);
    let message = Message::SetParams(
        7,
        ChannelParams { shape: WaveShape::Triangle, ..ChannelParams::default() },
    );
    assert_eq!(encode(&message), bincode::serialize(&fields).unwrap());

    assert_eq!(encode(&Message::Reset), bincode::serialize(&1u32).unwrap());
}

#[test]
fn decoded_fields_are_what_a_field_reader_finds() {
    let bytes = encode(&square());
    let fields: (u32, u64, u32, f64, f64, f64, f64) = bincode::deserialize(&bytes).unwrap();
    assert_eq!(fields, (0, 5, 2, 0.5, -6.0, 100.0, 90.0));
    match decode(&bytes) {
        Ok(Message::SetParams(index, params)) => {
            assert_eq!(index as u64, fields.1);
            assert_eq!(params.shape, WaveShape::Square(fields.3.to_bits()));
            assert_eq!(f64::from_bits(params.amplitude_db), fields.4);
            assert_eq!(f64::from_bits(params.frequency), fields.5);
            assert_eq!(f64::from_bits(params.phase_degrees), fields.6);
        }
        other => panic!("unexpected {:?}", other),
    }
}
