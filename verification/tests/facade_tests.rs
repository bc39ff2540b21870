use blackmagic_camera_control::command::{Command, CommandModel};
use blackmagic_camera_control::data::Data;
use blackmagic_camera_control::rawcommand::{CommandError, Operation};
use blackmagic_camera_control::schema::{BlackmagicCameraProtocol, Group, Information, Parameter};
use blackmagic_camera_control::typemap::PayloadKind;

fn parameter(id: u8, name: &str, value_type: &str, sequence: bool) -> Parameter {
    Parameter {
        id,
        group: String::new(),
        group_id: 0,
        parameter: String::from(name),
        normalized_parameter: String::from(name),
        type_field: String::from(value_type),
        index: if sequence { vec![String::from("n")] } else { vec![] },
        interpretation: None,
    }
}

fn test_protocol() -> BlackmagicCameraProtocol {
    let info = Information {
        readme: String::new(),
        source: String::new(),
        git: String::new(),
    };
    let groups = vec![
        Group {
            name: String::from("Lens"),
            normalized_name: String::from("Lens"),
            id: 0,
            parameters: vec![
                parameter(0, "Focus", "fixed16", false),
                parameter(1, "InstantaneousAutofocus", "void", false),
                parameter(9, "SetAbsoluteZoomSpeed", "fixed16", true),
            ],
        },
        Group {
            name: String::from("Video"),
            normalized_name: String::from("Video"),
            id: 1,
            parameters: vec![
                parameter(5, "ExposureNanoSeconds", "int32", false),
                parameter(13, "GaindB", "int8", false),
                parameter(14, "GainISOValue", "int32", false),
                parameter(16, "NDFilter", "int16", true),
                parameter(42, "VendorReserved", "blob9", false),
            ],
        },
        Group {
            name: String::from("Metadata"),
            normalized_name: String::from("Metadata"),
            id: 12,
            parameters: vec![
                parameter(6, "CameraOperator", "string", false),
                parameter(3, "Take", "int64", true),
            ],
        },
    ];
    BlackmagicCameraProtocol::new(info, groups).unwrap()
}

fn test_model() -> CommandModel {
    CommandModel::generate(&test_protocol())
}

#[test]
fn generate_excludes_unrecognized_tokens() {
    let model = test_model();
    assert_eq!(model.categories.len(), 3);
    // The vendor-reserved token of category 1 is left out of the model.
    assert_eq!(model.categories[1].parameters.len(), 4);
    assert_eq!(model.categories[0].parameters[0].kind, PayloadKind::Fixed);
    assert_eq!(model.categories[0].parameters[1].kind, PayloadKind::Absent);
    assert_eq!(model.categories[0].parameters[2].kind, PayloadKind::FixedSeq);
    assert_eq!(model.categories[2].parameters[0].kind, PayloadKind::Text);
    assert_eq!(model.categories[2].parameters[1].kind, PayloadKind::Int64Seq);
}

#[test]
fn end_to_end_gain_iso_example() {
    // Assigning int32 640 to category 1 "Video", parameter 14 "GainISOValue"
    // must produce exactly this frame: length 4 + 4, type tag 3, operation 0,
    // and 640 little endian.
    let model = test_model();
    let cmd = Command { category: 1, parameter: 14, data: Data::Signed32(vec![640]) };
    let frame = model.encode(17, Operation::AssignValue, &cmd).unwrap();
    assert_eq!(frame, vec![17, 8, 0, 0, 1, 14, 3, 0, 0x80, 0x02, 0x00, 0x00]);
    let back = model.decode(&frame).unwrap();
    assert_eq!(back, cmd);
}

#[test]
fn round_trip_every_payload_kind() {
    let model = test_model();
    let cases = vec![
        Command { category: 0, parameter: 0, data: Data::FixedPoint(vec![2048]) },
        Command { category: 0, parameter: 1, data: Data::Void },
        Command { category: 0, parameter: 9, data: Data::FixedPoint(vec![-2048, 0, 7]) },
        Command { category: 1, parameter: 5, data: Data::Signed32(vec![-1]) },
        Command { category: 1, parameter: 13, data: Data::SignedByte(vec![-12]) },
        Command { category: 1, parameter: 16, data: Data::Signed16(vec![1, -2, 3]) },
        Command { category: 12, parameter: 6, data: Data::Text(String::from("Ada")) },
        Command { category: 12, parameter: 3, data: Data::Signed64(vec![1, -9]) },
    ];
    for cmd in cases {
        let frame = model.encode(255, Operation::OffsetValue, &cmd).unwrap();
        // Framing invariant: byte 1 is 4 + payload length, the whole frame
        // 8 + payload length.
        assert_eq!(frame[1] as usize, 4 + (frame.len() - 8));
        let back = model.decode(&frame).unwrap();
        assert_eq!(back, cmd);
    }
}

#[test]
fn void_encodes_to_single_zero_byte() {
    let model = test_model();
    let cmd = Command { category: 0, parameter: 1, data: Data::Void };
    let frame = model.encode(255, Operation::AssignValue, &cmd).unwrap();
    assert_eq!(frame, vec![255, 5, 0, 0, 0, 1, 0, 0, 0]);
}

#[test]
fn void_decodes_from_empty_and_zero_payloads() {
    let model = test_model();
    // Zero-byte payload: length byte 4.
    let empty = vec![255, 4, 0, 0, 0, 1, 0, 0];
    assert_eq!(
        model.decode(&empty).unwrap(),
        Command { category: 0, parameter: 1, data: Data::Void }
    );
    // One zero byte: length byte 5.
    let zero = vec![255, 5, 0, 0, 0, 1, 0, 0, 0];
    assert_eq!(
        model.decode(&zero).unwrap(),
        Command { category: 0, parameter: 1, data: Data::Void }
    );
    // A non-zero byte on a void parameter reads as a boolean.
    let one = vec![255, 5, 0, 0, 0, 1, 0, 0, 1];
    assert_eq!(
        model.decode(&one).unwrap(),
        Command { category: 0, parameter: 1, data: Data::Bool(true) }
    );
}

#[test]
fn three_byte_int16_sequence_fails() {
    let model = test_model();
    // Parameter (1, 16) is an int16 sequence; three payload bytes are not a
    // multiple of the element width.
    let frame = vec![255, 7, 0, 0, 1, 16, 2, 0, 1, 2, 3];
    assert_eq!(model.decode(&frame), Err(CommandError::LengthMismatch));
}

#[test]
fn unknown_category_and_parameter() {
    let model = test_model();
    let unknown_category = vec![255, 4, 0, 0, 77, 0, 0, 0];
    assert_eq!(model.decode(&unknown_category), Err(CommandError::CategoryNotDefined));
    let unknown_parameter = vec![255, 4, 0, 0, 1, 77, 0, 0];
    assert_eq!(model.decode(&unknown_parameter), Err(CommandError::ParameterNotDefined));
}

#[test]
fn type_tag_mismatch_is_rejected() {
    let model = test_model();
    // Parameter (1, 14) is int32 (tag 3); a frame claiming tag 2 does not
    // address a parameter the model defines.
    let frame = vec![255, 8, 0, 0, 1, 14, 2, 0, 0x80, 0x02, 0, 0];
    assert_eq!(model.decode(&frame), Err(CommandError::ParameterNotDefined));
}

#[test]
fn short_and_malformed_frames() {
    let model = test_model();
    assert_eq!(model.decode(&[]), Err(CommandError::MessageShort));
    assert_eq!(model.decode(&[1, 2, 3, 4, 5, 6, 7]), Err(CommandError::MessageShort));
    // Length byte under 4.
    assert_eq!(model.decode(&[0, 3, 0, 0, 1, 14, 3, 0]), Err(CommandError::LengthMismatch));
    // Length byte announcing more payload than present.
    assert_eq!(model.decode(&[0, 9, 0, 0, 1, 14, 3, 0, 1]), Err(CommandError::LengthMismatch));
}

#[test]
fn invalid_utf8_text_payload() {
    let model = test_model();
    let frame = vec![255, 6, 0, 0, 12, 6, 5, 0, 0xFF, 0xFE];
    assert_eq!(model.decode(&frame), Err(CommandError::TextDecodeError));
}

#[test]
fn encode_rejects_mismatched_payload() {
    let model = test_model();
    // Parameter (1, 14) takes one int32, not text.
    let cmd = Command { category: 1, parameter: 14, data: Data::Text(String::from("x")) };
    assert_eq!(
        model.encode(255, Operation::AssignValue, &cmd),
        Err(CommandError::ParameterNotDefined)
    );
    // A scalar parameter takes exactly one element.
    let cmd = Command { category: 1, parameter: 14, data: Data::Signed32(vec![1, 2]) };
    assert_eq!(
        model.encode(255, Operation::AssignValue, &cmd),
        Err(CommandError::ParameterNotDefined)
    );
    let unknown = Command { category: 99, parameter: 0, data: Data::Void };
    assert_eq!(
        model.encode(255, Operation::AssignValue, &unknown),
        Err(CommandError::CategoryNotDefined)
    );
}

#[test]
fn encode_rejects_oversized_payload() {
    let model = test_model();
    let cmd = Command { category: 1, parameter: 16, data: Data::Signed16(vec![0; 126]) };
    assert_eq!(
        model.encode(255, Operation::AssignValue, &cmd),
        Err(CommandError::LengthMismatch)
    );
    // 125 elements take 250 bytes and still fit.
    let cmd = Command { category: 1, parameter: 16, data: Data::Signed16(vec![0; 125]) };
    assert!(model.encode(255, Operation::AssignValue, &cmd).is_ok());
}

#[test]
fn command_names() {
    let model = test_model();
    let cmd = Command { category: 1, parameter: 14, data: Data::Signed32(vec![640]) };
    assert_eq!(model.name(&cmd).unwrap(), String::from("Video_GainISOValue"));
    let unknown = Command { category: 99, parameter: 0, data: Data::Void };
    assert!(model.name(&unknown).is_none());
}

#[test]
fn command_accessors() {
    let cmd = Command { category: 1, parameter: 14, data: Data::Signed32(vec![640]) };
    assert_eq!(cmd.id(), 1);
    assert_eq!(cmd.parameter_id(), 14);
    assert_eq!(cmd.raw_type(), 3);
    assert_eq!(cmd.to_bytes(), vec![0x80, 0x02, 0, 0]);
    let void = Command { category: 0, parameter: 1, data: Data::Void };
    assert_eq!(void.to_bytes(), vec![0]);
}
