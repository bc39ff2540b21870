//! Wire codec: the fixed eight-byte frame header and its payload slice.
use vstd::prelude::*;

use crate::command::{spec_command_bytes, Command};
use crate::data::spec_data_tag;
use crate::paramcodec::{
    decode_i16s, decode_i32s, decode_i64s, decode_i8s, encode_i16s, encode_i32s, encode_i64s,
    encode_i8s, i16_from_le, i16_le, i32_from_le, i32_le, i64_from_le, i64_le, i8_of_u8, i8_to_u8,
    spec_i16_from_le, spec_i16_le, spec_i16_seq_from_le, spec_i16_seq_le, spec_i32_from_le,
    spec_i32_le, spec_i32_seq_from_le, spec_i32_seq_le, spec_i64_from_le, spec_i64_le,
    spec_i64_seq_from_le, spec_i64_seq_le, spec_i8_le, spec_i8_seq_from_le, spec_i8_seq_le,
    string_from_utf8, string_to_bytes, u8_of_i8, u8_to_i8,
};
use vstd::utf8::{decode_utf8, encode_utf8, valid_utf8};

verus! {

/// Errors of the command codec. Every decode failure is local to one frame.
#[derive(Clone, Copy, Debug, PartialEq, Eq, Structural)]
pub enum CommandError {
    /// The frame holds fewer than the eight header bytes.
    MessageShort,
    /// The frame's category id is absent from the command model.
    CategoryNotDefined,
    /// The parameter id (or its declared type tag) is absent from the category.
    ParameterNotDefined,
    /// A payload length that does not fit the declared element width,
    /// or a frame whose length byte points past the bytes present.
    LengthMismatch,
    /// A text payload that is not valid UTF-8.
    TextDecodeError,
    /// A fixed-point value that cannot be represented on encode.
    RangeError,
}

/// Whether a frame's payload replaces or offsets the targeted parameter.
#[derive(Clone, Copy, Debug, PartialEq, Eq, Structural)]
pub enum Operation {
    AssignValue,
    OffsetValue,
    Unknown,
}

impl Operation {
    /// The operation a wire byte denotes: 0 assigns, 1 offsets, all else is unknown.
    pub fn from_u8(id: u8) -> (r: Self)
        ensures
            r == Operation::spec_from_u8(id),
    {
        match id {
            0 => Operation::AssignValue,
            1 => Operation::OffsetValue,
            _ => Operation::Unknown,
        }
    }

    pub open spec fn spec_from_u8(id: u8) -> Operation {
        if id == 0 {
            Operation::AssignValue
        } else if id == 1 {
            Operation::OffsetValue
        } else {
            Operation::Unknown
        }
    }

    /// The wire byte of this operation.
    pub fn id(&self) -> (r: u8)
        ensures
            r == self.spec_id(),
    {
        match self {
            Operation::AssignValue => 0,
            Operation::OffsetValue => 1,
            Operation::Unknown => 2,
        }
    }

    pub open spec fn spec_id(&self) -> u8 {
        match self {
            Operation::AssignValue => 0,
            Operation::OffsetValue => 1,
            Operation::Unknown => 2,
        }
    }
}

// ---------------------------------------------------------------------------
// Frame layout. A frame is eight header bytes followed by the payload:
// destination, length, command id, a reserved zero, category id, parameter
// id, type tag, operation. The length byte counts the four id bytes and the
// payload but not the four-byte preamble, so it equals 4 + payload length
// and the whole frame spans 8 + payload length bytes.
// ---------------------------------------------------------------------------
/// Whether the bytes hold a full header and as many payload bytes as the
/// length byte announces.
pub open spec fn frame_header_wf(f: Seq<u8>) -> bool {
    &&& f.len() >= 8
    &&& f[1] >= 4
    &&& 8 + (f[1] - 4) <= f.len()
}

/// The payload bytes the length byte delimits.
pub open spec fn spec_frame_payload(f: Seq<u8>) -> Seq<u8>
    recommends
        frame_header_wf(f),
{
    f.subrange(8, 8 + (f[1] - 4) as int)
}

/// The frame for a header and a payload of at most 251 bytes.
pub open spec fn spec_frame(
    destination: u8,
    category: u8,
    parameter: u8,
    tag: u8,
    operation: u8,
    payload: Seq<u8>,
) -> Seq<u8>
    recommends
        payload.len() <= 251,
{
    seq![
        destination,
        (4 + payload.len()) as u8,
        0u8,
        0u8,
        category,
        parameter,
        tag,
        operation,
    ] + payload
}

/// A built frame is well formed and gives back every field, the framing
/// equalities among them: its length byte is 4 + the payload length and its
/// total size is 8 + the payload length.
pub proof fn lemma_frame_round(
    destination: u8,
    category: u8,
    parameter: u8,
    tag: u8,
    operation: u8,
    payload: Seq<u8>,
)
    requires
        payload.len() <= 251,
    ensures
        ({
            let f = spec_frame(destination, category, parameter, tag, operation, payload);
            &&& frame_header_wf(f)
            &&& f.len() == 8 + payload.len()
            &&& f[0] == destination
            &&& f[1] == 4 + payload.len()
            &&& f[2] == 0
            &&& f[3] == 0
            &&& f[4] == category
            &&& f[5] == parameter
            &&& f[6] == tag
            &&& f[7] == operation
            &&& spec_frame_payload(f) == payload
        }),
{
    let f = spec_frame(destination, category, parameter, tag, operation, payload);
    assert(spec_frame_payload(f) =~= payload);
}

/// One complete frame, split into its header fields and payload bytes.
#[derive(Debug)]
pub struct RawCommand {
    pub destination_device: u8,
    pub command_id: u8,
    pub category: u8,
    pub parameter: u8,
    pub data_type: u8,
    pub operation: u8,
    pub data: Vec<u8>,
}

impl RawCommand {
    /// Split a frame into header fields and payload. Fewer than eight bytes
    /// is `MessageShort`; a length byte under 4 or announcing more payload
    /// than is present is `LengthMismatch`.
    pub fn from_raw(data: &[u8]) -> (r: Result<Self, CommandError>)
        ensures
            match r {
                Ok(c) => {
                    &&& frame_header_wf(data@)
                    &&& c.destination_device == data@[0]
                    &&& c.command_id == data@[2]
                    &&& c.category == data@[4]
                    &&& c.parameter == data@[5]
                    &&& c.data_type == data@[6]
                    &&& c.operation == data@[7]
                    &&& c.data@ == spec_frame_payload(data@)
                },
                Err(e) => {
                    &&& !frame_header_wf(data@)
                    &&& (e == CommandError::MessageShort <==> data@.len() < 8)
                    &&& (e == CommandError::LengthMismatch <==> data@.len() >= 8)
                },
            },
    {
        if data.len() < 8 {
            return Err(CommandError::MessageShort);
        }
        let length = data[1];
        if length < 4 {
            return Err(CommandError::LengthMismatch);
        }
        let datalen: usize = (length - 4) as usize;
        if data.len() - 8 < datalen {
            return Err(CommandError::LengthMismatch);
        }
        let payload = vstd::slice::slice_to_vec(vstd::slice::slice_subrange(data, 8, 8 + datalen));
        proof {
            assert(payload@ =~= spec_frame_payload(data@));
        }
        Ok(
            RawCommand {
                destination_device: data[0],
                command_id: data[2],
                category: data[4],
                parameter: data[5],
                data_type: data[6],
                operation: data[7],
                data: payload,
            },
        )
    }

    /// Assemble the frame that sends a command: the command's ids, the
    /// payload's type tag, the operation byte, and the payload bytes, with
    /// the command id and reserved bytes zero. The length byte only has
    /// room for a payload of up to 251 bytes.
    pub fn to_raw(destination: u8, operation: Operation, cmd: &Command) -> (r: Vec<u8>)
        requires
            spec_command_bytes(cmd@.data).len() <= 251,
        ensures
            r@ == spec_frame(
                destination,
                cmd@.category,
                cmd@.parameter,
                spec_data_tag(cmd@.data),
                operation.spec_id(),
                spec_command_bytes(cmd@.data),
            ),
            r@.len() == 8 + spec_command_bytes(cmd@.data).len(),
            r@[1] == 4 + spec_command_bytes(cmd@.data).len(),
    {
        let data = cmd.to_bytes();
        build_frame(
            destination,
            cmd.id(),
            cmd.parameter_id(),
            cmd.raw_type(),
            operation.id(),
            &data,
        )
    }
}

/// Assemble the frame for a destination, the ids, a type tag, an operation
/// byte and payload bytes. The length byte only has room for a payload of
/// up to 251 bytes.
pub fn build_frame(
    destination: u8,
    category: u8,
    parameter: u8,
    tag: u8,
    operation: u8,
    payload: &Vec<u8>,
) -> (r: Vec<u8>)
    requires
        payload@.len() <= 251,
    ensures
        r@ == spec_frame(destination, category, parameter, tag, operation, payload@),
        r@.len() == 8 + payload@.len(),
        r@[1] == 4 + payload@.len(),
{
    let mut out: Vec<u8> = Vec::new();
    out.push(destination);
    out.push(4 + payload.len() as u8);
    out.push(0);
    out.push(0);
    out.push(category);
    out.push(parameter);
    out.push(tag);
    out.push(operation);
    let mut rest = payload.clone();
    out.append(&mut rest);
    proof {
        assert(out@ =~= spec_frame(destination, category, parameter, tag, operation, payload@));
    }
    out
}


// ---------------------------------------------------------------------------
// Payload element types: each knows its wire bytes and how to read itself
// from the front of a payload.
// ---------------------------------------------------------------------------
/// A type that travels in a payload. `to_bytes` yields exactly the type's
/// wire bytes; `from_bytes` reads a value from a payload, each
/// implementation saying on which inputs it succeeds.
pub trait ParamType: Sized {
    /// The wire bytes of this value.
    spec fn wire_bytes(&self) -> Seq<u8>;

    fn to_bytes(&self) -> (r: Vec<u8>)
        ensures
            r@ == self.wire_bytes(),
    ;

    fn from_bytes(data: &[u8]) -> (r: Result<Self, CommandError>);
}

impl ParamType for u8 {
    open spec fn wire_bytes(&self) -> Seq<u8> {
        seq![*self]
    }

    fn to_bytes(&self) -> (r: Vec<u8>) {
        let mut out: Vec<u8> = Vec::new();
        out.push(*self);
        proof {
            assert(out@ =~= seq![*self]);
        }
        out
    }

    /// The first byte; too short a payload is `LengthMismatch`.
    fn from_bytes(data: &[u8]) -> (r: Result<u8, CommandError>)
        ensures
            match r {
                Ok(v) => data@.len() >= 1 && v == data@[0],
                Err(e) => e == CommandError::LengthMismatch && data@.len() < 1,
            },
    {
        if data.len() < 1 {
            Err(CommandError::LengthMismatch)
        } else {
            Ok(data[0])
        }
    }
}

impl ParamType for i8 {
    open spec fn wire_bytes(&self) -> Seq<u8> {
        spec_i8_le(*self)
    }

    fn to_bytes(&self) -> (r: Vec<u8>) {
        let mut out: Vec<u8> = Vec::new();
        out.push(i8_to_u8(*self));
        proof {
            assert(out@ =~= spec_i8_le(*self));
        }
        out
    }

    /// The first byte as a signed value; too short is `LengthMismatch`.
    fn from_bytes(data: &[u8]) -> (r: Result<i8, CommandError>)
        ensures
            match r {
                Ok(v) => data@.len() >= 1 && v == i8_of_u8(data@[0]),
                Err(e) => e == CommandError::LengthMismatch && data@.len() < 1,
            },
    {
        if data.len() < 1 {
            Err(CommandError::LengthMismatch)
        } else {
            Ok(u8_to_i8(data[0]))
        }
    }
}

impl ParamType for i16 {
    open spec fn wire_bytes(&self) -> Seq<u8> {
        spec_i16_le(*self)
    }

    fn to_bytes(&self) -> (r: Vec<u8>) {
        i16_le(*self)
    }

    /// The first two bytes, little endian; too short is `LengthMismatch`.
    fn from_bytes(data: &[u8]) -> (r: Result<i16, CommandError>)
        ensures
            match r {
                Ok(v) => data@.len() >= 2 && v == spec_i16_from_le(data@.take(2)),
                Err(e) => e == CommandError::LengthMismatch && data@.len() < 2,
            },
    {
        if data.len() < 2 {
            Err(CommandError::LengthMismatch)
        } else {
            let chunk = vstd::slice::slice_subrange(data, 0, 2);
            proof {
                assert(chunk@ =~= data@.take(2));
            }
            Ok(i16_from_le(chunk))
        }
    }
}

impl ParamType for i32 {
    open spec fn wire_bytes(&self) -> Seq<u8> {
        spec_i32_le(*self)
    }

    fn to_bytes(&self) -> (r: Vec<u8>) {
        i32_le(*self)
    }

    /// The first four bytes, little endian; too short is `LengthMismatch`.
    fn from_bytes(data: &[u8]) -> (r: Result<i32, CommandError>)
        ensures
            match r {
                Ok(v) => data@.len() >= 4 && v == spec_i32_from_le(data@.take(4)),
                Err(e) => e == CommandError::LengthMismatch && data@.len() < 4,
            },
    {
        if data.len() < 4 {
            Err(CommandError::LengthMismatch)
        } else {
            let chunk = vstd::slice::slice_subrange(data, 0, 4);
            proof {
                assert(chunk@ =~= data@.take(4));
            }
            Ok(i32_from_le(chunk))
        }
    }
}

impl ParamType for i64 {
    open spec fn wire_bytes(&self) -> Seq<u8> {
        spec_i64_le(*self)
    }

    fn to_bytes(&self) -> (r: Vec<u8>) {
        i64_le(*self)
    }

    /// The first eight bytes, little endian; too short is `LengthMismatch`.
    fn from_bytes(data: &[u8]) -> (r: Result<i64, CommandError>)
        ensures
            match r {
                Ok(v) => data@.len() >= 8 && v == spec_i64_from_le(data@.take(8)),
                Err(e) => e == CommandError::LengthMismatch && data@.len() < 8,
            },
    {
        if data.len() < 8 {
            Err(CommandError::LengthMismatch)
        } else {
            let chunk = vstd::slice::slice_subrange(data, 0, 8);
            proof {
                assert(chunk@ =~= data@.take(8));
            }
            Ok(i64_from_le(chunk))
        }
    }
}

impl ParamType for String {
    open spec fn wire_bytes(&self) -> Seq<u8> {
        encode_utf8(self@)
    }

    fn to_bytes(&self) -> (r: Vec<u8>) {
        string_to_bytes(self)
    }

    /// The whole payload as UTF-8 text; invalid UTF-8 is `TextDecodeError`.
    fn from_bytes(data: &[u8]) -> (r: Result<String, CommandError>)
        ensures
            match r {
                Ok(s) => valid_utf8(data@) && s@ == decode_utf8(data@),
                Err(e) => e == CommandError::TextDecodeError && !valid_utf8(data@),
            },
    {
        match string_from_utf8(vstd::slice::slice_to_vec(data)) {
            Some(s) => Ok(s),
            None => Err(CommandError::TextDecodeError),
        }
    }
}

impl ParamType for Vec<i8> {
    open spec fn wire_bytes(&self) -> Seq<u8> {
        spec_i8_seq_le(self@)
    }

    fn to_bytes(&self) -> (r: Vec<u8>) {
        encode_i8s(self)
    }

    /// Every byte as one signed element.
    fn from_bytes(data: &[u8]) -> (r: Result<Vec<i8>, CommandError>)
        ensures
            match r {
                Ok(v) => v@ == spec_i8_seq_from_le(data@),
                Err(_) => false,
            },
    {
        Ok(decode_i8s(data))
    }
}

impl ParamType for Vec<i16> {
    open spec fn wire_bytes(&self) -> Seq<u8> {
        spec_i16_seq_le(self@)
    }

    fn to_bytes(&self) -> (r: Vec<u8>) {
        encode_i16s(self)
    }

    /// Two bytes per element; a payload that is not an exact multiple of the
    /// width is `LengthMismatch`.
    fn from_bytes(data: &[u8]) -> (r: Result<Vec<i16>, CommandError>)
        ensures
            match r {
                Ok(v) => data@.len() % 2 == 0 && v@ == spec_i16_seq_from_le(data@),
                Err(e) => e == CommandError::LengthMismatch && data@.len() % 2 != 0,
            },
    {
        decode_i16s(data)
    }
}

impl ParamType for Vec<i32> {
    open spec fn wire_bytes(&self) -> Seq<u8> {
        spec_i32_seq_le(self@)
    }

    fn to_bytes(&self) -> (r: Vec<u8>) {
        encode_i32s(self)
    }

    /// Four bytes per element; a payload that is not an exact multiple of
    /// the width is `LengthMismatch`.
    fn from_bytes(data: &[u8]) -> (r: Result<Vec<i32>, CommandError>)
        ensures
            match r {
                Ok(v) => data@.len() % 4 == 0 && v@ == spec_i32_seq_from_le(data@),
                Err(e) => e == CommandError::LengthMismatch && data@.len() % 4 != 0,
            },
    {
        decode_i32s(data)
    }
}

impl ParamType for Vec<i64> {
    open spec fn wire_bytes(&self) -> Seq<u8> {
        spec_i64_seq_le(self@)
    }

    fn to_bytes(&self) -> (r: Vec<u8>) {
        encode_i64s(self)
    }

    /// Eight bytes per element; a payload that is not an exact multiple of
    /// the width is `LengthMismatch`.
    fn from_bytes(data: &[u8]) -> (r: Result<Vec<i64>, CommandError>)
        ensures
            match r {
                Ok(v) => data@.len() % 8 == 0 && v@ == spec_i64_seq_from_le(data@),
                Err(e) => e == CommandError::LengthMismatch && data@.len() % 8 != 0,
            },
    {
        decode_i64s(data)
    }
}

} // verus!
