//! Payload data model and the hand-written command vocabulary.
//!
//! `Data` holds one decoded payload: nothing (void), a boolean, signed
//! integers of one, two, four or eight bytes, UTF-8 text, or 16-bit signed
//! fixed-point values in raw 1/2048 units. Integer and fixed-point payloads
//! are kept as vectors; a scalar parameter simply carries one element.
use vstd::prelude::*;
use vstd::utf8::{decode_utf8, encode_utf8, valid_utf8};

use crate::paramcodec::{
    decode_i16s, decode_i32s, decode_i64s, decode_i8s, encode_i16s, encode_i32s, encode_i64s,
    encode_i8s, spec_i16_seq_from_le, spec_i16_seq_le, spec_i32_seq_from_le, spec_i32_seq_le,
    spec_i64_seq_from_le, spec_i64_seq_le, spec_i8_seq_from_le, spec_i8_seq_le, string_from_utf8,
    string_to_bytes,
};
use crate::rawcommand::CommandError;

verus! {

#[derive(Debug, PartialEq)]
pub enum Data {
    Void,
    Bool(bool),
    SignedByte(Vec<i8>),
    Signed16(Vec<i16>),
    Signed32(Vec<i32>),
    Signed64(Vec<i64>),
    Text(String),
    FixedPoint(Vec<i16>),
    Undefined,
}

/// The mathematical shape of a `Data` value: each vector as a sequence and
/// the text as its characters.
pub enum DataV {
    Void,
    Bool(bool),
    SignedByte(Seq<i8>),
    Signed16(Seq<i16>),
    Signed32(Seq<i32>),
    Signed64(Seq<i64>),
    Text(Seq<char>),
    FixedPoint(Seq<i16>),
    Undefined,
}

impl View for Data {
    type V = DataV;

    open spec fn view(&self) -> DataV {
        match self {
            Data::Void => DataV::Void,
            Data::Bool(b) => DataV::Bool(*b),
            Data::SignedByte(v) => DataV::SignedByte(v@),
            Data::Signed16(v) => DataV::Signed16(v@),
            Data::Signed32(v) => DataV::Signed32(v@),
            Data::Signed64(v) => DataV::Signed64(v@),
            Data::Text(s) => DataV::Text(s@),
            Data::FixedPoint(v) => DataV::FixedPoint(v@),
            Data::Undefined => DataV::Undefined,
        }
    }
}

/// The one-byte wire type tag of a payload: void and boolean share 0,
/// the integer widths take 1 to 4, text takes 5, fixed-point takes 128.
pub open spec fn spec_data_tag(d: DataV) -> u8 {
    match d {
        DataV::Void => 0,
        DataV::Bool(_) => 0,
        DataV::SignedByte(_) => 1,
        DataV::Signed16(_) => 2,
        DataV::Signed32(_) => 3,
        DataV::Signed64(_) => 4,
        DataV::Text(_) => 5,
        DataV::FixedPoint(_) => 128,
        DataV::Undefined => 255,
    }
}

/// The payload bytes of a value: little-endian element encodings in order,
/// UTF-8 for text, nothing for void.
pub open spec fn spec_data_bytes(d: DataV) -> Seq<u8> {
    match d {
        DataV::Void => Seq::empty(),
        DataV::Bool(b) => seq![if b { 1u8 } else { 0u8 }],
        DataV::SignedByte(v) => spec_i8_seq_le(v),
        DataV::Signed16(v) => spec_i16_seq_le(v),
        DataV::Signed32(v) => spec_i32_seq_le(v),
        DataV::Signed64(v) => spec_i64_seq_le(v),
        DataV::Text(s) => encode_utf8(s),
        DataV::FixedPoint(v) => spec_i16_seq_le(v),
        DataV::Undefined => Seq::empty(),
    }
}

/// What decoding a payload yields for a frame length byte, a wire type tag
/// and the bytes that follow the header: the typed value, or the error.
/// The length byte counts the four id bytes and the payload, so the payload
/// spans `length - 4` bytes; text must be valid UTF-8, and multi-byte
/// element payloads must be an exact multiple of the element width.
pub open spec fn spec_data_decode(length: u8, cmd_type: u8, data: Seq<u8>) -> Result<
    DataV,
    CommandError,
> {
    if length < 4 {
        Err(CommandError::LengthMismatch)
    } else {
        let n = length - 4;
        if data.len() < n {
            Err(CommandError::LengthMismatch)
        } else {
            let p = data.take(n as int);
            if cmd_type == 0 {
                if n == 0 {
                    Ok(DataV::Void)
                } else if p[0] > 0 {
                    Ok(DataV::Bool(true))
                } else {
                    Ok(DataV::Bool(false))
                }
            } else if cmd_type == 1 {
                Ok(DataV::SignedByte(spec_i8_seq_from_le(p)))
            } else if cmd_type == 2 {
                if n % 2 == 0 {
                    Ok(DataV::Signed16(spec_i16_seq_from_le(p)))
                } else {
                    Err(CommandError::LengthMismatch)
                }
            } else if cmd_type == 3 {
                if n % 4 == 0 {
                    Ok(DataV::Signed32(spec_i32_seq_from_le(p)))
                } else {
                    Err(CommandError::LengthMismatch)
                }
            } else if cmd_type == 4 {
                if n % 8 == 0 {
                    Ok(DataV::Signed64(spec_i64_seq_from_le(p)))
                } else {
                    Err(CommandError::LengthMismatch)
                }
            } else if cmd_type == 5 {
                if valid_utf8(p) {
                    Ok(DataV::Text(decode_utf8(p)))
                } else {
                    Err(CommandError::TextDecodeError)
                }
            } else if cmd_type == 128 {
                if n % 2 == 0 {
                    Ok(DataV::FixedPoint(spec_i16_seq_from_le(p)))
                } else {
                    Err(CommandError::LengthMismatch)
                }
            } else {
                Ok(DataV::Undefined)
            }
        }
    }
}

/// A decode result with the payload replaced by its mathematical shape.
pub open spec fn data_result_view(r: Result<Data, CommandError>) -> Result<DataV, CommandError> {
    match r {
        Ok(d) => Ok(d@),
        Err(e) => Err(e),
    }
}

impl Data {
    /// The one-byte wire type tag of this payload.
    pub fn get_type(&self) -> (r: u8)
        ensures
            r == spec_data_tag(self@),
    {
        match self {
            Data::Void => 0,
            Data::Bool(_) => 0,
            Data::SignedByte(_) => 1,
            Data::Signed16(_) => 2,
            Data::Signed32(_) => 3,
            Data::Signed64(_) => 4,
            Data::Text(_) => 5,
            Data::FixedPoint(_) => 128,
            Data::Undefined => 255,
        }
    }

    /// The payload bytes of this value.
    pub fn to_bytes(&self) -> (r: Vec<u8>)
        ensures
            r@ == spec_data_bytes(self@),
    {
        match self {
            Data::Void => Vec::new(),
            Data::Bool(b) => {
                let mut out: Vec<u8> = Vec::new();
                if *b {
                    out.push(1);
                } else {
                    out.push(0);
                }
                proof {
                    assert(out@ =~= spec_data_bytes(self@));
                }
                out
            },
            Data::SignedByte(v) => encode_i8s(v),
            Data::Signed16(v) => encode_i16s(v),
            Data::Signed32(v) => encode_i32s(v),
            Data::Signed64(v) => encode_i64s(v),
            Data::Text(s) => string_to_bytes(s),
            Data::FixedPoint(v) => encode_i16s(v),
            Data::Undefined => Vec::new(),
        }
    }

    /// Decode the payload of a frame whose length byte is `length` and whose
    /// wire type tag is `cmd_type`, from the bytes after the header.
    pub fn decode(length: u8, cmd_type: u8, data: Vec<u8>) -> (r: Result<Data, CommandError>)
        ensures
            data_result_view(r) == spec_data_decode(length, cmd_type, data@),
    {
        if length < 4 {
            return Err(CommandError::LengthMismatch);
        }
        let datalen: usize = (length - 4) as usize;
        if data.len() < datalen {
            return Err(CommandError::LengthMismatch);
        }
        let payload: &[u8] = vstd::slice::slice_subrange(data.as_slice(), 0, datalen);
        proof {
            assert(payload@ =~= data@.take(datalen as int));
        }
        if cmd_type == 0 {
            if datalen == 0 {
                Ok(Data::Void)
            } else if payload[0] > 0 {
                Ok(Data::Bool(true))
            } else {
                Ok(Data::Bool(false))
            }
        } else if cmd_type == 1 {
            Ok(Data::SignedByte(decode_i8s(payload)))
        } else if cmd_type == 2 {
            match decode_i16s(payload) {
                Ok(v) => Ok(Data::Signed16(v)),
                Err(e) => Err(e),
            }
        } else if cmd_type == 3 {
            match decode_i32s(payload) {
                Ok(v) => Ok(Data::Signed32(v)),
                Err(e) => Err(e),
            }
        } else if cmd_type == 4 {
            match decode_i64s(payload) {
                Ok(v) => Ok(Data::Signed64(v)),
                Err(e) => Err(e),
            }
        } else if cmd_type == 5 {
            match string_from_utf8(vstd::slice::slice_to_vec(payload)) {
                Some(s) => Ok(Data::Text(s)),
                None => Err(CommandError::TextDecodeError),
            }
        } else if cmd_type == 128 {
            match decode_i16s(payload) {
                Ok(v) => Ok(Data::FixedPoint(v)),
                Err(e) => Err(e),
            }
        } else {
            Ok(Data::Undefined)
        }
    }
}

/// Whether a frame assigns a new value or offsets the current one.
#[derive(Clone, Copy, Debug, PartialEq, Eq, Structural)]
pub enum Operation {
    AssignValue,
    OffsetValue,
    Unknown,
}

impl Operation {
    pub open spec fn spec_from_u8(id: u8) -> Option<Operation> {
        if id == 0 {
            Some(Operation::AssignValue)
        } else if id == 1 {
            Some(Operation::OffsetValue)
        } else if id == 2 {
            Some(Operation::Unknown)
        } else {
            None
        }
    }

    /// The operation with this wire byte, if the byte names one.
    pub fn from_u8(id: u8) -> (r: Option<Operation>)
        ensures
            r == Operation::spec_from_u8(id),
    {
        match id {
            0 => Some(Operation::AssignValue),
            1 => Some(Operation::OffsetValue),
            2 => Some(Operation::Unknown),
            _ => None,
        }
    }

    pub open spec fn spec_to_u8(&self) -> u8 {
        match self {
            Operation::AssignValue => 0,
            Operation::OffsetValue => 1,
            Operation::Unknown => 2,
        }
    }

    /// The wire byte of this operation.
    pub fn to_u8(&self) -> (r: u8)
        ensures
            r == self.spec_to_u8(),
    {
        match self {
            Operation::AssignValue => 0,
            Operation::OffsetValue => 1,
            Operation::Unknown => 2,
        }
    }
}


#[derive(Clone, Copy, Debug, PartialEq, Eq, Structural)]
pub enum Lens {
    Focus,
    InstantaneousAutofocus,
    ApertureFStop,
    ApertureNormalized,
    ApertureOrdinal,
    InstantaneousAutoAperture,
    OpticalImageStabilization,
    SetAbsoluteZoomMillimeter,
    SetAbsoluteZoomNormalized,
    SetAbsoluteZoomSpeed,
    Unknown,
}

impl Lens {
    pub open spec fn spec_from_u8(id: u8) -> Option<Lens> {
        if id == 0 {
            Some(Lens::Focus)
        } else if id == 1 {
            Some(Lens::InstantaneousAutofocus)
        } else if id == 2 {
            Some(Lens::ApertureFStop)
        } else if id == 3 {
            Some(Lens::ApertureNormalized)
        } else if id == 4 {
            Some(Lens::ApertureOrdinal)
        } else if id == 5 {
            Some(Lens::InstantaneousAutoAperture)
        } else if id == 6 {
            Some(Lens::OpticalImageStabilization)
        } else if id == 7 {
            Some(Lens::SetAbsoluteZoomMillimeter)
        } else if id == 8 {
            Some(Lens::SetAbsoluteZoomNormalized)
        } else if id == 9 {
            Some(Lens::SetAbsoluteZoomSpeed)
        } else if id == 10 {
            Some(Lens::Unknown)
        } else {
            None
        }
    }

    /// The parameter with this wire id, if the id names one.
    pub fn from_u8(id: u8) -> (r: Option<Lens>)
        ensures
            r == Lens::spec_from_u8(id),
    {
        match id {
            0 => Some(Lens::Focus),
            1 => Some(Lens::InstantaneousAutofocus),
            2 => Some(Lens::ApertureFStop),
            3 => Some(Lens::ApertureNormalized),
            4 => Some(Lens::ApertureOrdinal),
            5 => Some(Lens::InstantaneousAutoAperture),
            6 => Some(Lens::OpticalImageStabilization),
            7 => Some(Lens::SetAbsoluteZoomMillimeter),
            8 => Some(Lens::SetAbsoluteZoomNormalized),
            9 => Some(Lens::SetAbsoluteZoomSpeed),
            10 => Some(Lens::Unknown),
            _ => None,
        }
    }

    pub open spec fn spec_to_u8(&self) -> u8 {
        match self {
            Lens::Focus => 0,
            Lens::InstantaneousAutofocus => 1,
            Lens::ApertureFStop => 2,
            Lens::ApertureNormalized => 3,
            Lens::ApertureOrdinal => 4,
            Lens::InstantaneousAutoAperture => 5,
            Lens::OpticalImageStabilization => 6,
            Lens::SetAbsoluteZoomMillimeter => 7,
            Lens::SetAbsoluteZoomNormalized => 8,
            Lens::SetAbsoluteZoomSpeed => 9,
            Lens::Unknown => 10,
        }
    }

    /// The wire id of this parameter.
    pub fn to_u8(&self) -> (r: u8)
        ensures
            r == self.spec_to_u8(),
    {
        match self {
            Lens::Focus => 0,
            Lens::InstantaneousAutofocus => 1,
            Lens::ApertureFStop => 2,
            Lens::ApertureNormalized => 3,
            Lens::ApertureOrdinal => 4,
            Lens::InstantaneousAutoAperture => 5,
            Lens::OpticalImageStabilization => 6,
            Lens::SetAbsoluteZoomMillimeter => 7,
            Lens::SetAbsoluteZoomNormalized => 8,
            Lens::SetAbsoluteZoomSpeed => 9,
            Lens::Unknown => 10,
        }
    }
}

#[derive(Clone, Copy, Debug, PartialEq, Eq, Structural)]
pub enum Video {
    VideoMode,
    GainISO,
    ManualWhiteBalance,
    SetAutoWhiteBalance,
    RestoreAutoWhiteBalance,
    ExposureNanoSeconds,
    ExposureOrdinal,
    DynamicRangeMode,
    VideoSharpeningLevel,
    RecordingFormat,
    SetAutoExposureMode,
    ShutterAngle,
    ShutterSpeed,
    GaindB,
    GainISOValue,
    DisplayLUT,
    NDFilter,
    Unknown,
}

impl Video {
    pub open spec fn spec_from_u8(id: u8) -> Option<Video> {
        if id == 0 {
            Some(Video::VideoMode)
        } else if id == 1 {
            Some(Video::GainISO)
        } else if id == 2 {
            Some(Video::ManualWhiteBalance)
        } else if id == 3 {
            Some(Video::SetAutoWhiteBalance)
        } else if id == 4 {
            Some(Video::RestoreAutoWhiteBalance)
        } else if id == 5 {
            Some(Video::ExposureNanoSeconds)
        } else if id == 6 {
            Some(Video::ExposureOrdinal)
        } else if id == 7 {
            Some(Video::DynamicRangeMode)
        } else if id == 8 {
            Some(Video::VideoSharpeningLevel)
        } else if id == 9 {
            Some(Video::RecordingFormat)
        } else if id == 10 {
            Some(Video::SetAutoExposureMode)
        } else if id == 11 {
            Some(Video::ShutterAngle)
        } else if id == 12 {
            Some(Video::ShutterSpeed)
        } else if id == 13 {
            Some(Video::GaindB)
        } else if id == 14 {
            Some(Video::GainISOValue)
        } else if id == 15 {
            Some(Video::DisplayLUT)
        } else if id == 16 {
            Some(Video::NDFilter)
        } else if id == 17 {
            Some(Video::Unknown)
        } else {
            None
        }
    }

    /// The parameter with this wire id, if the id names one.
    pub fn from_u8(id: u8) -> (r: Option<Video>)
        ensures
            r == Video::spec_from_u8(id),
    {
        match id {
            0 => Some(Video::VideoMode),
            1 => Some(Video::GainISO),
            2 => Some(Video::ManualWhiteBalance),
            3 => Some(Video::SetAutoWhiteBalance),
            4 => Some(Video::RestoreAutoWhiteBalance),
            5 => Some(Video::ExposureNanoSeconds),
            6 => Some(Video::ExposureOrdinal),
            7 => Some(Video::DynamicRangeMode),
            8 => Some(Video::VideoSharpeningLevel),
            9 => Some(Video::RecordingFormat),
            10 => Some(Video::SetAutoExposureMode),
            11 => Some(Video::ShutterAngle),
            12 => Some(Video::ShutterSpeed),
            13 => Some(Video::GaindB),
            14 => Some(Video::GainISOValue),
            15 => Some(Video::DisplayLUT),
            16 => Some(Video::NDFilter),
            17 => Some(Video::Unknown),
            _ => None,
        }
    }

    pub open spec fn spec_to_u8(&self) -> u8 {
        match self {
            Video::VideoMode => 0,
            Video::GainISO => 1,
            Video::ManualWhiteBalance => 2,
            Video::SetAutoWhiteBalance => 3,
            Video::RestoreAutoWhiteBalance => 4,
            Video::ExposureNanoSeconds => 5,
            Video::ExposureOrdinal => 6,
            Video::DynamicRangeMode => 7,
            Video::VideoSharpeningLevel => 8,
            Video::RecordingFormat => 9,
            Video::SetAutoExposureMode => 10,
            Video::ShutterAngle => 11,
            Video::ShutterSpeed => 12,
            Video::GaindB => 13,
            Video::GainISOValue => 14,
            Video::DisplayLUT => 15,
            Video::NDFilter => 16,
            Video::Unknown => 17,
        }
    }

    /// The wire id of this parameter.
    pub fn to_u8(&self) -> (r: u8)
        ensures
            r == self.spec_to_u8(),
    {
        match self {
            Video::VideoMode => 0,
            Video::GainISO => 1,
            Video::ManualWhiteBalance => 2,
            Video::SetAutoWhiteBalance => 3,
            Video::RestoreAutoWhiteBalance => 4,
            Video::ExposureNanoSeconds => 5,
            Video::ExposureOrdinal => 6,
            Video::DynamicRangeMode => 7,
            Video::VideoSharpeningLevel => 8,
            Video::RecordingFormat => 9,
            Video::SetAutoExposureMode => 10,
            Video::ShutterAngle => 11,
            Video::ShutterSpeed => 12,
            Video::GaindB => 13,
            Video::GainISOValue => 14,
            Video::DisplayLUT => 15,
            Video::NDFilter => 16,
            Video::Unknown => 17,
        }
    }
}

#[derive(Clone, Copy, Debug, PartialEq, Eq, Structural)]
pub enum Audio {
    HeadphoneLevel,
    HeadphoneProgramMix,
    SpeakerLevel,
    InputType,
    InputLevels,
    PhantomPower,
    Unknown,
}

impl Audio {
    pub open spec fn spec_from_u8(id: u8) -> Option<Audio> {
        if id == 0 {
            Some(Audio::HeadphoneLevel)
        } else if id == 1 {
            Some(Audio::HeadphoneProgramMix)
        } else if id == 2 {
            Some(Audio::SpeakerLevel)
        } else if id == 3 {
            Some(Audio::InputType)
        } else if id == 4 {
            Some(Audio::InputLevels)
        } else if id == 5 {
            Some(Audio::PhantomPower)
        } else if id == 6 {
            Some(Audio::Unknown)
        } else {
            None
        }
    }

    /// The parameter with this wire id, if the id names one.
    pub fn from_u8(id: u8) -> (r: Option<Audio>)
        ensures
            r == Audio::spec_from_u8(id),
    {
        match id {
            0 => Some(Audio::HeadphoneLevel),
            1 => Some(Audio::HeadphoneProgramMix),
            2 => Some(Audio::SpeakerLevel),
            3 => Some(Audio::InputType),
            4 => Some(Audio::InputLevels),
            5 => Some(Audio::PhantomPower),
            6 => Some(Audio::Unknown),
            _ => None,
        }
    }

    pub open spec fn spec_to_u8(&self) -> u8 {
        match self {
            Audio::HeadphoneLevel => 0,
            Audio::HeadphoneProgramMix => 1,
            Audio::SpeakerLevel => 2,
            Audio::InputType => 3,
            Audio::InputLevels => 4,
            Audio::PhantomPower => 5,
            Audio::Unknown => 6,
        }
    }

    /// The wire id of this parameter.
    pub fn to_u8(&self) -> (r: u8)
        ensures
            r == self.spec_to_u8(),
    {
        match self {
            Audio::HeadphoneLevel => 0,
            Audio::HeadphoneProgramMix => 1,
            Audio::SpeakerLevel => 2,
            Audio::InputType => 3,
            Audio::InputLevels => 4,
            Audio::PhantomPower => 5,
            Audio::Unknown => 6,
        }
    }
}

#[derive(Clone, Copy, Debug, PartialEq, Eq, Structural)]
pub enum Output {
    OverlayEnables,
    FrameGuidesStyle,
    FrameGuidesOpacity,
    Overlays,
    Unknown,
}

impl Output {
    pub open spec fn spec_from_u8(id: u8) -> Option<Output> {
        if id == 0 {
            Some(Output::OverlayEnables)
        } else if id == 1 {
            Some(Output::FrameGuidesStyle)
        } else if id == 2 {
            Some(Output::FrameGuidesOpacity)
        } else if id == 3 {
            Some(Output::Overlays)
        } else if id == 4 {
            Some(Output::Unknown)
        } else {
            None
        }
    }

    /// The parameter with this wire id, if the id names one.
    pub fn from_u8(id: u8) -> (r: Option<Output>)
        ensures
            r == Output::spec_from_u8(id),
    {
        match id {
            0 => Some(Output::OverlayEnables),
            1 => Some(Output::FrameGuidesStyle),
            2 => Some(Output::FrameGuidesOpacity),
            3 => Some(Output::Overlays),
            4 => Some(Output::Unknown),
            _ => None,
        }
    }

    pub open spec fn spec_to_u8(&self) -> u8 {
        match self {
            Output::OverlayEnables => 0,
            Output::FrameGuidesStyle => 1,
            Output::FrameGuidesOpacity => 2,
            Output::Overlays => 3,
            Output::Unknown => 4,
        }
    }

    /// The wire id of this parameter.
    pub fn to_u8(&self) -> (r: u8)
        ensures
            r == self.spec_to_u8(),
    {
        match self {
            Output::OverlayEnables => 0,
            Output::FrameGuidesStyle => 1,
            Output::FrameGuidesOpacity => 2,
            Output::Overlays => 3,
            Output::Unknown => 4,
        }
    }
}

#[derive(Clone, Copy, Debug, PartialEq, Eq, Structural)]
pub enum Display {
    Brightness,
    ExposureAndFocus,
    ZebraLevel,
    PeakingLevel,
    ColorBarEnable,
    FocusAssist,
    ProgramReturnFeedEnable,
    Unknown,
}

impl Display {
    pub open spec fn spec_from_u8(id: u8) -> Option<Display> {
        if id == 0 {
            Some(Display::Brightness)
        } else if id == 1 {
            Some(Display::ExposureAndFocus)
        } else if id == 2 {
            Some(Display::ZebraLevel)
        } else if id == 3 {
            Some(Display::PeakingLevel)
        } else if id == 4 {
            Some(Display::ColorBarEnable)
        } else if id == 5 {
            Some(Display::FocusAssist)
        } else if id == 6 {
            Some(Display::ProgramReturnFeedEnable)
        } else if id == 7 {
            Some(Display::Unknown)
        } else {
            None
        }
    }

    /// The parameter with this wire id, if the id names one.
    pub fn from_u8(id: u8) -> (r: Option<Display>)
        ensures
            r == Display::spec_from_u8(id),
    {
        match id {
            0 => Some(Display::Brightness),
            1 => Some(Display::ExposureAndFocus),
            2 => Some(Display::ZebraLevel),
            3 => Some(Display::PeakingLevel),
            4 => Some(Display::ColorBarEnable),
            5 => Some(Display::FocusAssist),
            6 => Some(Display::ProgramReturnFeedEnable),
            7 => Some(Display::Unknown),
            _ => None,
        }
    }

    pub open spec fn spec_to_u8(&self) -> u8 {
        match self {
            Display::Brightness => 0,
            Display::ExposureAndFocus => 1,
            Display::ZebraLevel => 2,
            Display::PeakingLevel => 3,
            Display::ColorBarEnable => 4,
            Display::FocusAssist => 5,
            Display::ProgramReturnFeedEnable => 6,
            Display::Unknown => 7,
        }
    }

    /// The wire id of this parameter.
    pub fn to_u8(&self) -> (r: u8)
        ensures
            r == self.spec_to_u8(),
    {
        match self {
            Display::Brightness => 0,
            Display::ExposureAndFocus => 1,
            Display::ZebraLevel => 2,
            Display::PeakingLevel => 3,
            Display::ColorBarEnable => 4,
            Display::FocusAssist => 5,
            Display::ProgramReturnFeedEnable => 6,
            Display::Unknown => 7,
        }
    }
}

#[derive(Clone, Copy, Debug, PartialEq, Eq, Structural)]
pub enum Tally {
    TallyBrightness,
    FrontTallyBrightness,
    RearTallyBrightness,
    Unknown,
}

impl Tally {
    pub open spec fn spec_from_u8(id: u8) -> Option<Tally> {
        if id == 0 {
            Some(Tally::TallyBrightness)
        } else if id == 1 {
            Some(Tally::FrontTallyBrightness)
        } else if id == 2 {
            Some(Tally::RearTallyBrightness)
        } else if id == 8 {
            Some(Tally::Unknown)
        } else {
            None
        }
    }

    /// The parameter with this wire id, if the id names one.
    pub fn from_u8(id: u8) -> (r: Option<Tally>)
        ensures
            r == Tally::spec_from_u8(id),
    {
        match id {
            0 => Some(Tally::TallyBrightness),
            1 => Some(Tally::FrontTallyBrightness),
            2 => Some(Tally::RearTallyBrightness),
            8 => Some(Tally::Unknown),
            _ => None,
        }
    }

    pub open spec fn spec_to_u8(&self) -> u8 {
        match self {
            Tally::TallyBrightness => 0,
            Tally::FrontTallyBrightness => 1,
            Tally::RearTallyBrightness => 2,
            Tally::Unknown => 8,
        }
    }

    /// The wire id of this parameter.
    pub fn to_u8(&self) -> (r: u8)
        ensures
            r == self.spec_to_u8(),
    {
        match self {
            Tally::TallyBrightness => 0,
            Tally::FrontTallyBrightness => 1,
            Tally::RearTallyBrightness => 2,
            Tally::Unknown => 8,
        }
    }
}

#[derive(Clone, Copy, Debug, PartialEq, Eq, Structural)]
pub enum Reference {
    Source,
    Offset,
    Unknown,
}

impl Reference {
    pub open spec fn spec_from_u8(id: u8) -> Option<Reference> {
        if id == 0 {
            Some(Reference::Source)
        } else if id == 1 {
            Some(Reference::Offset)
        } else if id == 2 {
            Some(Reference::Unknown)
        } else {
            None
        }
    }

    /// The parameter with this wire id, if the id names one.
    pub fn from_u8(id: u8) -> (r: Option<Reference>)
        ensures
            r == Reference::spec_from_u8(id),
    {
        match id {
            0 => Some(Reference::Source),
            1 => Some(Reference::Offset),
            2 => Some(Reference::Unknown),
            _ => None,
        }
    }

    pub open spec fn spec_to_u8(&self) -> u8 {
        match self {
            Reference::Source => 0,
            Reference::Offset => 1,
            Reference::Unknown => 2,
        }
    }

    /// The wire id of this parameter.
    pub fn to_u8(&self) -> (r: u8)
        ensures
            r == self.spec_to_u8(),
    {
        match self {
            Reference::Source => 0,
            Reference::Offset => 1,
            Reference::Unknown => 2,
        }
    }
}

#[derive(Clone, Copy, Debug, PartialEq, Eq, Structural)]
pub enum Configuration {
    RealTimeClock,
    SystemLanguage,
    Timezone,
    Location,
    Unknown,
}

impl Configuration {
    pub open spec fn spec_from_u8(id: u8) -> Option<Configuration> {
        if id == 0 {
            Some(Configuration::RealTimeClock)
        } else if id == 1 {
            Some(Configuration::SystemLanguage)
        } else if id == 2 {
            Some(Configuration::Timezone)
        } else if id == 3 {
            Some(Configuration::Location)
        } else if id == 4 {
            Some(Configuration::Unknown)
        } else {
            None
        }
    }

    /// The parameter with this wire id, if the id names one.
    pub fn from_u8(id: u8) -> (r: Option<Configuration>)
        ensures
            r == Configuration::spec_from_u8(id),
    {
        match id {
            0 => Some(Configuration::RealTimeClock),
            1 => Some(Configuration::SystemLanguage),
            2 => Some(Configuration::Timezone),
            3 => Some(Configuration::Location),
            4 => Some(Configuration::Unknown),
            _ => None,
        }
    }

    pub open spec fn spec_to_u8(&self) -> u8 {
        match self {
            Configuration::RealTimeClock => 0,
            Configuration::SystemLanguage => 1,
            Configuration::Timezone => 2,
            Configuration::Location => 3,
            Configuration::Unknown => 4,
        }
    }

    /// The wire id of this parameter.
    pub fn to_u8(&self) -> (r: u8)
        ensures
            r == self.spec_to_u8(),
    {
        match self {
            Configuration::RealTimeClock => 0,
            Configuration::SystemLanguage => 1,
            Configuration::Timezone => 2,
            Configuration::Location => 3,
            Configuration::Unknown => 4,
        }
    }
}

#[derive(Clone, Copy, Debug, PartialEq, Eq, Structural)]
pub enum ColorCorrection {
    LiftAdjust,
    GammaAdjust,
    GainAdjust,
    OffsetAdjust,
    ContrastAdjust,
    LumaMix,
    ColorAdjust,
    CorrectionResetDefault,
    Unknown,
}

impl ColorCorrection {
    pub open spec fn spec_from_u8(id: u8) -> Option<ColorCorrection> {
        if id == 0 {
            Some(ColorCorrection::LiftAdjust)
        } else if id == 1 {
            Some(ColorCorrection::GammaAdjust)
        } else if id == 2 {
            Some(ColorCorrection::GainAdjust)
        } else if id == 3 {
            Some(ColorCorrection::OffsetAdjust)
        } else if id == 4 {
            Some(ColorCorrection::ContrastAdjust)
        } else if id == 5 {
            Some(ColorCorrection::LumaMix)
        } else if id == 6 {
            Some(ColorCorrection::ColorAdjust)
        } else if id == 7 {
            Some(ColorCorrection::CorrectionResetDefault)
        } else if id == 8 {
            Some(ColorCorrection::Unknown)
        } else {
            None
        }
    }

    /// The parameter with this wire id, if the id names one.
    pub fn from_u8(id: u8) -> (r: Option<ColorCorrection>)
        ensures
            r == ColorCorrection::spec_from_u8(id),
    {
        match id {
            0 => Some(ColorCorrection::LiftAdjust),
            1 => Some(ColorCorrection::GammaAdjust),
            2 => Some(ColorCorrection::GainAdjust),
            3 => Some(ColorCorrection::OffsetAdjust),
            4 => Some(ColorCorrection::ContrastAdjust),
            5 => Some(ColorCorrection::LumaMix),
            6 => Some(ColorCorrection::ColorAdjust),
            7 => Some(ColorCorrection::CorrectionResetDefault),
            8 => Some(ColorCorrection::Unknown),
            _ => None,
        }
    }

    pub open spec fn spec_to_u8(&self) -> u8 {
        match self {
            ColorCorrection::LiftAdjust => 0,
            ColorCorrection::GammaAdjust => 1,
            ColorCorrection::GainAdjust => 2,
            ColorCorrection::OffsetAdjust => 3,
            ColorCorrection::ContrastAdjust => 4,
            ColorCorrection::LumaMix => 5,
            ColorCorrection::ColorAdjust => 6,
            ColorCorrection::CorrectionResetDefault => 7,
            ColorCorrection::Unknown => 8,
        }
    }

    /// The wire id of this parameter.
    pub fn to_u8(&self) -> (r: u8)
        ensures
            r == self.spec_to_u8(),
    {
        match self {
            ColorCorrection::LiftAdjust => 0,
            ColorCorrection::GammaAdjust => 1,
            ColorCorrection::GainAdjust => 2,
            ColorCorrection::OffsetAdjust => 3,
            ColorCorrection::ContrastAdjust => 4,
            ColorCorrection::LumaMix => 5,
            ColorCorrection::ColorAdjust => 6,
            ColorCorrection::CorrectionResetDefault => 7,
            ColorCorrection::Unknown => 8,
        }
    }
}

#[derive(Clone, Copy, Debug, PartialEq, Eq, Structural)]
pub enum Media {
    Codec,
    TransportMode,
    PlaybackControl,
    StillCapture,
    Unknown,
}

impl Media {
    pub open spec fn spec_from_u8(id: u8) -> Option<Media> {
        if id == 0 {
            Some(Media::Codec)
        } else if id == 1 {
            Some(Media::TransportMode)
        } else if id == 2 {
            Some(Media::PlaybackControl)
        } else if id == 3 {
            Some(Media::StillCapture)
        } else if id == 4 {
            Some(Media::Unknown)
        } else {
            None
        }
    }

    /// The parameter with this wire id, if the id names one.
    pub fn from_u8(id: u8) -> (r: Option<Media>)
        ensures
            r == Media::spec_from_u8(id),
    {
        match id {
            0 => Some(Media::Codec),
            1 => Some(Media::TransportMode),
            2 => Some(Media::PlaybackControl),
            3 => Some(Media::StillCapture),
            4 => Some(Media::Unknown),
            _ => None,
        }
    }

    pub open spec fn spec_to_u8(&self) -> u8 {
        match self {
            Media::Codec => 0,
            Media::TransportMode => 1,
            Media::PlaybackControl => 2,
            Media::StillCapture => 3,
            Media::Unknown => 4,
        }
    }

    /// The wire id of this parameter.
    pub fn to_u8(&self) -> (r: u8)
        ensures
            r == self.spec_to_u8(),
    {
        match self {
            Media::Codec => 0,
            Media::TransportMode => 1,
            Media::PlaybackControl => 2,
            Media::StillCapture => 3,
            Media::Unknown => 4,
        }
    }
}

#[derive(Clone, Copy, Debug, PartialEq, Eq, Structural)]
pub enum PTZ {
    PanTiltVelocity,
    MemoryPreset,
    Unknown,
}

impl PTZ {
    pub open spec fn spec_from_u8(id: u8) -> Option<PTZ> {
        if id == 0 {
            Some(PTZ::PanTiltVelocity)
        } else if id == 1 {
            Some(PTZ::MemoryPreset)
        } else if id == 2 {
            Some(PTZ::Unknown)
        } else {
            None
        }
    }

    /// The parameter with this wire id, if the id names one.
    pub fn from_u8(id: u8) -> (r: Option<PTZ>)
        ensures
            r == PTZ::spec_from_u8(id),
    {
        match id {
            0 => Some(PTZ::PanTiltVelocity),
            1 => Some(PTZ::MemoryPreset),
            2 => Some(PTZ::Unknown),
            _ => None,
        }
    }

    pub open spec fn spec_to_u8(&self) -> u8 {
        match self {
            PTZ::PanTiltVelocity => 0,
            PTZ::MemoryPreset => 1,
            PTZ::Unknown => 2,
        }
    }

    /// The wire id of this parameter.
    pub fn to_u8(&self) -> (r: u8)
        ensures
            r == self.spec_to_u8(),
    {
        match self {
            PTZ::PanTiltVelocity => 0,
            PTZ::MemoryPreset => 1,
            PTZ::Unknown => 2,
        }
    }
}

#[derive(Clone, Copy, Debug, PartialEq, Eq, Structural)]
pub enum Metadata {
    Reel,
    SceneTags,
    Scene,
    Take,
    GoodTake,
    CameraID,
    CameraOperator,
    Director,
    ProjectName,
    LensType,
    LensIris,
    LensFocalLength,
    LensDistance,
    LensFilter,
    SlateMode,
    SlateTarget,
    Unknown,
}

impl Metadata {
    pub open spec fn spec_from_u8(id: u8) -> Option<Metadata> {
        if id == 0 {
            Some(Metadata::Reel)
        } else if id == 1 {
            Some(Metadata::SceneTags)
        } else if id == 2 {
            Some(Metadata::Scene)
        } else if id == 3 {
            Some(Metadata::Take)
        } else if id == 4 {
            Some(Metadata::GoodTake)
        } else if id == 5 {
            Some(Metadata::CameraID)
        } else if id == 6 {
            Some(Metadata::CameraOperator)
        } else if id == 7 {
            Some(Metadata::Director)
        } else if id == 8 {
            Some(Metadata::ProjectName)
        } else if id == 9 {
            Some(Metadata::LensType)
        } else if id == 10 {
            Some(Metadata::LensIris)
        } else if id == 11 {
            Some(Metadata::LensFocalLength)
        } else if id == 12 {
            Some(Metadata::LensDistance)
        } else if id == 13 {
            Some(Metadata::LensFilter)
        } else if id == 14 {
            Some(Metadata::SlateMode)
        } else if id == 15 {
            Some(Metadata::SlateTarget)
        } else if id == 16 {
            Some(Metadata::Unknown)
        } else {
            None
        }
    }

    /// The parameter with this wire id, if the id names one.
    pub fn from_u8(id: u8) -> (r: Option<Metadata>)
        ensures
            r == Metadata::spec_from_u8(id),
    {
        match id {
            0 => Some(Metadata::Reel),
            1 => Some(Metadata::SceneTags),
            2 => Some(Metadata::Scene),
            3 => Some(Metadata::Take),
            4 => Some(Metadata::GoodTake),
            5 => Some(Metadata::CameraID),
            6 => Some(Metadata::CameraOperator),
            7 => Some(Metadata::Director),
            8 => Some(Metadata::ProjectName),
            9 => Some(Metadata::LensType),
            10 => Some(Metadata::LensIris),
            11 => Some(Metadata::LensFocalLength),
            12 => Some(Metadata::LensDistance),
            13 => Some(Metadata::LensFilter),
            14 => Some(Metadata::SlateMode),
            15 => Some(Metadata::SlateTarget),
            16 => Some(Metadata::Unknown),
            _ => None,
        }
    }

    pub open spec fn spec_to_u8(&self) -> u8 {
        match self {
            Metadata::Reel => 0,
            Metadata::SceneTags => 1,
            Metadata::Scene => 2,
            Metadata::Take => 3,
            Metadata::GoodTake => 4,
            Metadata::CameraID => 5,
            Metadata::CameraOperator => 6,
            Metadata::Director => 7,
            Metadata::ProjectName => 8,
            Metadata::LensType => 9,
            Metadata::LensIris => 10,
            Metadata::LensFocalLength => 11,
            Metadata::LensDistance => 12,
            Metadata::LensFilter => 13,
            Metadata::SlateMode => 14,
            Metadata::SlateTarget => 15,
            Metadata::Unknown => 16,
        }
    }

    /// The wire id of this parameter.
    pub fn to_u8(&self) -> (r: u8)
        ensures
            r == self.spec_to_u8(),
    {
        match self {
            Metadata::Reel => 0,
            Metadata::SceneTags => 1,
            Metadata::Scene => 2,
            Metadata::Take => 3,
            Metadata::GoodTake => 4,
            Metadata::CameraID => 5,
            Metadata::CameraOperator => 6,
            Metadata::Director => 7,
            Metadata::ProjectName => 8,
            Metadata::LensType => 9,
            Metadata::LensIris => 10,
            Metadata::LensFocalLength => 11,
            Metadata::LensDistance => 12,
            Metadata::LensFilter => 13,
            Metadata::SlateMode => 14,
            Metadata::SlateTarget => 15,
            Metadata::Unknown => 16,
        }
    }
}

/// The command vocabulary: one case per category, each wrapping the
/// parameter it addresses.
#[derive(Clone, Copy, Debug, PartialEq, Eq, Structural)]
pub enum Category {
    Lens(Lens),
    Video(Video),
    Audio(Audio),
    Output(Output),
    Display(Display),
    Tally(Tally),
    Reference(Reference),
    Configuration(Configuration),
    ColorCorrection(ColorCorrection),
    Internal,
    Media(Media),
    PTZ(PTZ),
    Metadata(Metadata),
    Unknown,
}

impl Category {
    pub open spec fn spec_lookup(category: u8, parameter: u8) -> Category {
        if category == 0 {
            Category::Lens(match Lens::spec_from_u8(parameter) {
                Some(v) => v,
                None => Lens::Unknown,
            })
        } else if category == 1 {
            Category::Video(match Video::spec_from_u8(parameter) {
                Some(v) => v,
                None => Video::Unknown,
            })
        } else if category == 2 {
            Category::Audio(match Audio::spec_from_u8(parameter) {
                Some(v) => v,
                None => Audio::Unknown,
            })
        } else if category == 3 {
            Category::Output(match Output::spec_from_u8(parameter) {
                Some(v) => v,
                None => Output::Unknown,
            })
        } else if category == 4 {
            Category::Display(match Display::spec_from_u8(parameter) {
                Some(v) => v,
                None => Display::Unknown,
            })
        } else if category == 5 {
            Category::Tally(match Tally::spec_from_u8(parameter) {
                Some(v) => v,
                None => Tally::Unknown,
            })
        } else if category == 6 {
            Category::Reference(match Reference::spec_from_u8(parameter) {
                Some(v) => v,
                None => Reference::Unknown,
            })
        } else if category == 7 {
            Category::Configuration(match Configuration::spec_from_u8(parameter) {
                Some(v) => v,
                None => Configuration::Unknown,
            })
        } else if category == 8 {
            Category::ColorCorrection(match ColorCorrection::spec_from_u8(parameter) {
                Some(v) => v,
                None => ColorCorrection::Unknown,
            })
        } else if category == 9 {
            Category::Internal
        } else if category == 10 {
            Category::Media(match Media::spec_from_u8(parameter) {
                Some(v) => v,
                None => Media::Unknown,
            })
        } else if category == 11 {
            Category::PTZ(match PTZ::spec_from_u8(parameter) {
                Some(v) => v,
                None => PTZ::Unknown,
            })
        } else if category == 12 {
            Category::Metadata(match Metadata::spec_from_u8(parameter) {
                Some(v) => v,
                None => Metadata::Unknown,
            })
        } else {
            Category::Unknown
        }
    }

    /// The category and parameter a pair of wire ids addresses; ids the
    /// vocabulary does not cover fall back to the unknown cases.
    pub fn lookup(category: u8, parameter: u8) -> (r: Category)
        ensures
            r == Category::spec_lookup(category, parameter),
    {
        match category {
            0 => Category::Lens(match Lens::from_u8(parameter) {
                Some(v) => v,
                None => Lens::Unknown,
            }),
            1 => Category::Video(match Video::from_u8(parameter) {
                Some(v) => v,
                None => Video::Unknown,
            }),
            2 => Category::Audio(match Audio::from_u8(parameter) {
                Some(v) => v,
                None => Audio::Unknown,
            }),
            3 => Category::Output(match Output::from_u8(parameter) {
                Some(v) => v,
                None => Output::Unknown,
            }),
            4 => Category::Display(match Display::from_u8(parameter) {
                Some(v) => v,
                None => Display::Unknown,
            }),
            5 => Category::Tally(match Tally::from_u8(parameter) {
                Some(v) => v,
                None => Tally::Unknown,
            }),
            6 => Category::Reference(match Reference::from_u8(parameter) {
                Some(v) => v,
                None => Reference::Unknown,
            }),
            7 => Category::Configuration(match Configuration::from_u8(parameter) {
                Some(v) => v,
                None => Configuration::Unknown,
            }),
            8 => Category::ColorCorrection(match ColorCorrection::from_u8(parameter) {
                Some(v) => v,
                None => ColorCorrection::Unknown,
            }),
            9 => Category::Internal,
            10 => Category::Media(match Media::from_u8(parameter) {
                Some(v) => v,
                None => Media::Unknown,
            }),
            11 => Category::PTZ(match PTZ::from_u8(parameter) {
                Some(v) => v,
                None => PTZ::Unknown,
            }),
            12 => Category::Metadata(match Metadata::from_u8(parameter) {
                Some(v) => v,
                None => Metadata::Unknown,
            }),
            _ => Category::Unknown,
        }
    }

    pub open spec fn spec_category_id(&self) -> u8 {
        match self {
            Category::Lens(_) => 0,
            Category::Video(_) => 1,
            Category::Audio(_) => 2,
            Category::Output(_) => 3,
            Category::Display(_) => 4,
            Category::Tally(_) => 5,
            Category::Reference(_) => 6,
            Category::Configuration(_) => 7,
            Category::ColorCorrection(_) => 8,
            Category::Internal => 9,
            Category::Media(_) => 10,
            Category::PTZ(_) => 11,
            Category::Metadata(_) => 12,
            Category::Unknown => 255,
        }
    }

    /// The wire category id of this value.
    pub fn get_category_id(&self) -> (r: u8)
        ensures
            r == self.spec_category_id(),
    {
        match self {
            Category::Lens(_) => 0,
            Category::Video(_) => 1,
            Category::Audio(_) => 2,
            Category::Output(_) => 3,
            Category::Display(_) => 4,
            Category::Tally(_) => 5,
            Category::Reference(_) => 6,
            Category::Configuration(_) => 7,
            Category::ColorCorrection(_) => 8,
            Category::Internal => 9,
            Category::Media(_) => 10,
            Category::PTZ(_) => 11,
            Category::Metadata(_) => 12,
            Category::Unknown => 255,
        }
    }

    pub open spec fn spec_parameter_id(&self) -> u8 {
        match self {
            Category::Lens(v) => v.spec_to_u8(),
            Category::Video(v) => v.spec_to_u8(),
            Category::Audio(v) => v.spec_to_u8(),
            Category::Output(v) => v.spec_to_u8(),
            Category::Display(v) => v.spec_to_u8(),
            Category::Tally(v) => v.spec_to_u8(),
            Category::Reference(v) => v.spec_to_u8(),
            Category::Configuration(v) => v.spec_to_u8(),
            Category::ColorCorrection(v) => v.spec_to_u8(),
            Category::Internal => 255,
            Category::Media(v) => v.spec_to_u8(),
            Category::PTZ(v) => v.spec_to_u8(),
            Category::Metadata(v) => v.spec_to_u8(),
            Category::Unknown => 255,
        }
    }

    /// The wire parameter id of this value.
    pub fn get_parameter_id(&self) -> (r: u8)
        ensures
            r == self.spec_parameter_id(),
    {
        match self {
            Category::Lens(v) => v.to_u8(),
            Category::Video(v) => v.to_u8(),
            Category::Audio(v) => v.to_u8(),
            Category::Output(v) => v.to_u8(),
            Category::Display(v) => v.to_u8(),
            Category::Tally(v) => v.to_u8(),
            Category::Reference(v) => v.to_u8(),
            Category::Configuration(v) => v.to_u8(),
            Category::ColorCorrection(v) => v.to_u8(),
            Category::Internal => 255,
            Category::Media(v) => v.to_u8(),
            Category::PTZ(v) => v.to_u8(),
            Category::Metadata(v) => v.to_u8(),
            Category::Unknown => 255,
        }
    }
}

/// The pair of wire ids is a collision-free key: looking a pair up
/// recovers the category id whenever the category is covered, and the
/// parameter id whenever that category defines the parameter.
pub proof fn lemma_lookup_recovers_ids(category: u8, parameter: u8)
    ensures
        category <= 12 ==> Category::spec_lookup(category, parameter).spec_category_id()
            == category,
        category > 12 ==> Category::spec_lookup(category, parameter).spec_category_id() == 255,
{
}

} // verus!