use blackmagic_camera_control::command::Command;
use blackmagic_camera_control::data::{Category, Data, Lens, Metadata, Operation, Video};
use blackmagic_camera_control::error::CameraControlError;
use blackmagic_camera_control::message::Message;
use blackmagic_camera_control::rawcommand::{CommandError, RawCommand};
use blackmagic_camera_control::Operation as RawOperation;

#[test]
fn lookup_resolves_known_pairs() {
    assert_eq!(Category::lookup(0, 0), Category::Lens(Lens::Focus));
    assert_eq!(Category::lookup(1, 14), Category::Video(Video::GainISOValue));
    assert_eq!(Category::lookup(9, 0), Category::Internal);
    assert_eq!(Category::lookup(12, 12), Category::Metadata(Metadata::LensDistance));
    assert_eq!(Category::lookup(13, 0), Category::Unknown);
    assert_eq!(Category::lookup(1, 99), Category::Video(Video::Unknown));
}

#[test]
fn lookup_recovers_ids() {
    let c = Category::lookup(1, 14);
    assert_eq!(c.get_category_id(), 1);
    assert_eq!(c.get_parameter_id(), 14);
    assert_eq!(Category::Internal.get_category_id(), 9);
    assert_eq!(Category::Unknown.get_category_id(), 255);
}

#[test]
fn data_operation_bytes() {
    assert_eq!(Operation::from_u8(0), Some(Operation::AssignValue));
    assert_eq!(Operation::from_u8(1), Some(Operation::OffsetValue));
    assert_eq!(Operation::from_u8(2), Some(Operation::Unknown));
    assert_eq!(Operation::from_u8(3), None);
    assert_eq!(Operation::AssignValue.to_u8(), 0);
    assert_eq!(Operation::OffsetValue.to_u8(), 1);
    assert_eq!(Operation::Unknown.to_u8(), 2);
}

#[test]
fn raw_operation_bytes() {
    assert_eq!(RawOperation::from_u8(0), RawOperation::AssignValue);
    assert_eq!(RawOperation::from_u8(1), RawOperation::OffsetValue);
    assert_eq!(RawOperation::from_u8(9), RawOperation::Unknown);
    assert_eq!(RawOperation::AssignValue.id(), 0);
    assert_eq!(RawOperation::OffsetValue.id(), 1);
    assert_eq!(RawOperation::Unknown.id(), 2);
}

#[test]
fn create_then_parse_message() {
    let frame = Message::create_message(
        4,
        Category::Video(Video::GainISOValue),
        Operation::AssignValue,
        Data::Signed32(vec![640]),
    );
    assert_eq!(frame, vec![4, 8, 0, 0, 1, 14, 3, 0, 0x80, 0x02, 0x00, 0x00]);
    let message = Message::parse_message(frame).unwrap();
    assert_eq!(message.header.category, Category::Video(Video::GainISOValue));
    assert_eq!(message.header.operation, 0);
    assert_eq!(message.data, Data::Signed32(vec![640]));
}

#[test]
fn create_message_void_has_empty_payload() {
    // At the message layer a void value serializes to no payload bytes;
    // the single-zero-byte form belongs to the command facade.
    let frame =
        Message::create_message(4, Category::Lens(Lens::Focus), Operation::AssignValue, Data::Void);
    assert_eq!(frame, vec![4, 4, 0, 0, 0, 0, 0, 0]);
    let message = Message::parse_message(frame).unwrap();
    assert_eq!(message.data, Data::Void);
}

#[test]
fn parse_message_rejects_bad_frames() {
    assert!(matches!(Message::parse_message(vec![]), Err(CameraControlError::ParseError)));
    assert!(matches!(
        Message::parse_message(vec![0, 3, 0, 0, 0, 0, 0, 0]),
        Err(CameraControlError::ParseError)
    ));
    assert!(matches!(
        Message::parse_message(vec![0, 9, 0, 0, 0, 0, 2, 0, 1]),
        Err(CameraControlError::ParseError)
    ));
}

#[test]
fn raw_command_splits_frames() {
    let raw = RawCommand::from_raw(&[4, 8, 0, 0, 1, 14, 3, 0, 0x80, 0x02, 0x00, 0x00]).unwrap();
    assert_eq!(raw.destination_device, 4);
    assert_eq!(raw.command_id, 0);
    assert_eq!(raw.category, 1);
    assert_eq!(raw.parameter, 14);
    assert_eq!(raw.data_type, 3);
    assert_eq!(raw.operation, 0);
    assert_eq!(raw.data, vec![0x80, 0x02, 0x00, 0x00]);
}

#[test]
fn raw_command_ignores_trailing_bytes() {
    // The length byte is the sole delimiter: bytes past it are not payload.
    let raw = RawCommand::from_raw(&[4, 5, 0, 0, 0, 1, 0, 0, 9, 9, 9]).unwrap();
    assert_eq!(raw.data, vec![9]);
}

#[test]
fn raw_command_errors() {
    assert!(matches!(RawCommand::from_raw(&[1, 2, 3]), Err(CommandError::MessageShort)));
    assert!(matches!(
        RawCommand::from_raw(&[0, 2, 0, 0, 0, 0, 0, 0]),
        Err(CommandError::LengthMismatch)
    ));
    assert!(matches!(
        RawCommand::from_raw(&[0, 20, 0, 0, 0, 0, 0, 0, 1]),
        Err(CommandError::LengthMismatch)
    ));
}

#[test]
fn raw_command_builds_frames() {
    let cmd = Command { category: 1, parameter: 14, data: Data::Signed32(vec![640]) };
    let frame = RawCommand::to_raw(4, RawOperation::AssignValue, &cmd);
    assert_eq!(frame, vec![4, 8, 0, 0, 1, 14, 3, 0, 0x80, 0x02, 0x00, 0x00]);
    let void = Command { category: 0, parameter: 1, data: Data::Void };
    let frame = RawCommand::to_raw(4, RawOperation::OffsetValue, &void);
    assert_eq!(frame, vec![4, 5, 0, 0, 0, 1, 0, 1, 0]);
}
