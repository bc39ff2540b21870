//! Message layer: whole frames against the hand-written command vocabulary.
use vstd::prelude::*;

use crate::data::{
    spec_data_bytes, spec_data_decode, spec_data_tag, Category, Data, DataV, Operation,
};
use crate::error::CameraControlError;
use crate::paramcodec::{
    lemma_i16_seq_round, lemma_i32_seq_round, lemma_i64_seq_round, lemma_i8_seq_round,
    lemma_text_round,
};
use crate::rawcommand::{build_frame, spec_frame};

verus! {

/// The identifying bytes of a frame, with the category and parameter ids
/// resolved against the vocabulary.
#[derive(Clone, Copy, Debug, PartialEq, Eq, Structural)]
pub struct CommandHeader {
    pub category: Category,
    pub parameter: u8,
    pub cmd_type: u8,
    pub operation: u8,
}

/// One parsed frame: addressing bytes, resolved header and typed payload.
#[derive(Debug)]
pub struct Message {
    destination_device: u8,
    length: u8,
    id: u8,
    pub header: CommandHeader,
    pub data: Data,
}

/// The mathematical shape of a parsed frame.
pub struct MessageV {
    pub destination_device: u8,
    pub length: u8,
    pub id: u8,
    pub header: CommandHeader,
    pub data: DataV,
}

impl View for Message {
    type V = MessageV;

    closed spec fn view(&self) -> MessageV {
        MessageV {
            destination_device: self.destination_device,
            length: self.length,
            id: self.id,
            header: self.header,
            data: self.data@,
        }
    }
}

/// What parsing a frame yields: the message, or `ParseError` for anything
/// shorter than a header, a length byte under 4, or a payload that does not
/// decode under the frame's type tag.
pub open spec fn spec_parse_message(f: Seq<u8>) -> Result<MessageV, CameraControlError> {
    if f.len() < 8 {
        Err(CameraControlError::ParseError)
    } else if f[1] < 4 {
        Err(CameraControlError::ParseError)
    } else {
        match spec_data_decode(f[1], f[6], f.skip(8)) {
            Ok(d) => Ok(
                MessageV {
                    destination_device: f[0],
                    length: f[1],
                    id: f[2],
                    header: CommandHeader {
                        category: Category::spec_lookup(f[4], f[5]),
                        parameter: f[5],
                        cmd_type: f[6],
                        operation: f[7],
                    },
                    data: d,
                },
            ),
            Err(_) => Err(CameraControlError::ParseError),
        }
    }
}

/// A parse result with the payload replaced by its mathematical shape.
pub open spec fn message_result_view(r: Result<Message, CameraControlError>) -> Result<
    MessageV,
    CameraControlError,
> {
    match r {
        Ok(m) => Ok(m@),
        Err(e) => Err(e),
    }
}

/// The frame for a destination, a vocabulary entry, an operation and a
/// payload value.
pub open spec fn spec_create_message(
    destination: u8,
    category: Category,
    operation: Operation,
    d: DataV,
) -> Seq<u8>
    recommends
        spec_data_bytes(d).len() <= 251,
{
    spec_frame(
        destination,
        category.spec_category_id(),
        category.spec_parameter_id(),
        spec_data_tag(d),
        operation.spec_to_u8(),
        spec_data_bytes(d),
    )
}

impl Message {
    /// Parse one frame against the vocabulary.
    pub fn parse_message(message: Vec<u8>) -> (r: Result<Message, CameraControlError>)
        ensures
            message_result_view(r) == spec_parse_message(message@),
    {
        if message.len() < 8 {
            return Err(CameraControlError::ParseError);
        }
        let length = message[1];
        if length < 4 {
            return Err(CameraControlError::ParseError);
        }
        let rest = vstd::slice::slice_to_vec(
            vstd::slice::slice_subrange(message.as_slice(), 8, message.len()),
        );
        proof {
            assert(rest@ =~= message@.skip(8));
        }
        match Data::decode(length, message[6], rest) {
            Ok(d) => Ok(
                Message {
                    destination_device: message[0],
                    length,
                    id: message[2],
                    header: CommandHeader {
                        category: Category::lookup(message[4], message[5]),
                        parameter: message[5],
                        cmd_type: message[6],
                        operation: message[7],
                    },
                    data: d,
                },
            ),
            Err(_) => Err(CameraControlError::ParseError),
        }
    }

    /// Assemble the frame that addresses a vocabulary entry with a payload.
    /// The length byte only has room for a payload of up to 251 bytes.
    pub fn create_message(
        destination: u8,
        category: Category,
        operation: Operation,
        data: Data,
    ) -> (r: Vec<u8>)
        requires
            spec_data_bytes(data@).len() <= 251,
        ensures
            r@ == spec_create_message(destination, category, operation, data@),
            r@.len() == 8 + spec_data_bytes(data@).len(),
            r@[1] == 4 + spec_data_bytes(data@).len(),
    {
        let payload = data.to_bytes();
        build_frame(
            destination,
            category.get_category_id(),
            category.get_parameter_id(),
            data.get_type(),
            operation.to_u8(),
            &payload,
        )
    }
}

/// Every vocabulary value is canonical: looking up its own pair of wire ids
/// gives the value back.
pub proof fn lemma_lookup_canonical(category: Category)
    ensures
        Category::spec_lookup(category.spec_category_id(), category.spec_parameter_id())
            == category,
{
}

/// A payload decodes from its own encoding, under its own type tag and a
/// length byte computed from its size, back to the same value.
pub proof fn lemma_data_round_trip(d: DataV)
    requires
        spec_data_bytes(d).len() <= 251,
    ensures
        spec_data_decode(
            (4 + spec_data_bytes(d).len()) as u8,
            spec_data_tag(d),
            spec_data_bytes(d),
        ) == Ok::<DataV, crate::rawcommand::CommandError>(d),
{
    let b = spec_data_bytes(d);
    assert(b.take(b.len() as int) =~= b);
    match d {
        DataV::Void => {},
        DataV::Bool(v) => {},
        DataV::SignedByte(v) => {
            lemma_i8_seq_round(v);
        },
        DataV::Signed16(v) => {
            lemma_i16_seq_round(v);
        },
        DataV::Signed32(v) => {
            lemma_i32_seq_round(v);
        },
        DataV::Signed64(v) => {
            lemma_i64_seq_round(v);
        },
        DataV::Text(s) => {
            lemma_text_round(s);
        },
        DataV::FixedPoint(v) => {
            lemma_i16_seq_round(v);
        },
        DataV::Undefined => {},
    }
}

/// Round trip of the message layer: a created frame parses back to a message
/// that carries the same addressing bytes, the vocabulary entry it was
/// created for, and the same payload value.
pub proof fn lemma_message_round_trip(
    destination: u8,
    category: Category,
    operation: Operation,
    d: DataV,
)
    requires
        spec_data_bytes(d).len() <= 251,
    ensures
        spec_parse_message(spec_create_message(destination, category, operation, d)) == Ok::<
            MessageV,
            CameraControlError,
        >(
            MessageV {
                destination_device: destination,
                length: (4 + spec_data_bytes(d).len()) as u8,
                id: 0,
                header: CommandHeader {
                    category,
                    parameter: category.spec_parameter_id(),
                    cmd_type: spec_data_tag(d),
                    operation: operation.spec_to_u8(),
                },
                data: d,
            },
        ),
{
    let b = spec_data_bytes(d);
    let f = spec_create_message(destination, category, operation, d);
    crate::rawcommand::lemma_frame_round(
        destination,
        category.spec_category_id(),
        category.spec_parameter_id(),
        spec_data_tag(d),
        operation.spec_to_u8(),
        b,
    );
    assert(f.skip(8) =~= b);
    lemma_data_round_trip(d);
    lemma_lookup_canonical(category);
}

} // verus!
