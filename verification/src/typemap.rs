//! Type mapper: from a schema value-type token and the sequence flag to the
//! payload representation, and from a token to its one-byte wire type tag.
use vstd::prelude::*;
use vstd::string::StringExecFns;

verus! {

/// The payload representation of a parameter: nothing, one scalar of an
/// element type, or an ordered sequence of that type. Text is always one
/// UTF-8 blob, never a list.
#[derive(Clone, Copy, Debug, PartialEq, Eq, Structural)]
pub enum PayloadKind {
    Absent,
    Int8,
    Int16,
    Int32,
    Int64,
    Text,
    Fixed,
    Int8Seq,
    Int16Seq,
    Int32Seq,
    Int64Seq,
    FixedSeq,
}

/// Whether the token names one of the supported value types. The document
/// may also carry vendor-reserved tokens; those are left out of the
/// generated model.
pub open spec fn spec_recognized(t: Seq<char>) -> bool {
    ||| t == "void"@
    ||| t == "int8"@
    ||| t == "int16"@
    ||| t == "int32"@
    ||| t == "int64"@
    ||| t == "string"@
    ||| t == "fixed16"@
}

/// The payload representation for a value-type token: void has no payload,
/// the integer and fixed-point types take their scalar or sequence form as
/// the flag says, text ignores the flag, and an unrecognized token maps to
/// no payload.
pub open spec fn spec_payload_kind(t: Seq<char>, is_sequence: bool) -> PayloadKind {
    if t == "void"@ {
        PayloadKind::Absent
    } else if t == "int8"@ {
        if is_sequence {
            PayloadKind::Int8Seq
        } else {
            PayloadKind::Int8
        }
    } else if t == "int16"@ {
        if is_sequence {
            PayloadKind::Int16Seq
        } else {
            PayloadKind::Int16
        }
    } else if t == "int32"@ {
        if is_sequence {
            PayloadKind::Int32Seq
        } else {
            PayloadKind::Int32
        }
    } else if t == "int64"@ {
        if is_sequence {
            PayloadKind::Int64Seq
        } else {
            PayloadKind::Int64
        }
    } else if t == "string"@ {
        PayloadKind::Text
    } else if t == "fixed16"@ {
        if is_sequence {
            PayloadKind::FixedSeq
        } else {
            PayloadKind::Fixed
        }
    } else {
        PayloadKind::Absent
    }
}

/// The wire type tag of a value-type token. This exact byte travels in the
/// frame and must match on decode.
pub open spec fn spec_type_tag(t: Seq<char>) -> u8 {
    if t == "void"@ {
        0
    } else if t == "int8"@ {
        1
    } else if t == "int16"@ {
        2
    } else if t == "int32"@ {
        3
    } else if t == "int64"@ {
        4
    } else if t == "string"@ {
        5
    } else if t == "fixed16"@ {
        128
    } else {
        0
    }
}

/// The wire type tag of a payload representation.
pub open spec fn spec_kind_tag(k: PayloadKind) -> u8 {
    match k {
        PayloadKind::Absent => 0,
        PayloadKind::Int8 => 1,
        PayloadKind::Int16 => 2,
        PayloadKind::Int32 => 3,
        PayloadKind::Int64 => 4,
        PayloadKind::Text => 5,
        PayloadKind::Fixed => 128,
        PayloadKind::Int8Seq => 1,
        PayloadKind::Int16Seq => 2,
        PayloadKind::Int32Seq => 3,
        PayloadKind::Int64Seq => 4,
        PayloadKind::FixedSeq => 128,
    }
}

/// The wire type tag of a payload representation.
pub fn kind_tag(k: PayloadKind) -> (r: u8)
    ensures
        r == spec_kind_tag(k),
{
    match k {
        PayloadKind::Absent => 0,
        PayloadKind::Int8 => 1,
        PayloadKind::Int16 => 2,
        PayloadKind::Int32 => 3,
        PayloadKind::Int64 => 4,
        PayloadKind::Text => 5,
        PayloadKind::Fixed => 128,
        PayloadKind::Int8Seq => 1,
        PayloadKind::Int16Seq => 2,
        PayloadKind::Int32Seq => 3,
        PayloadKind::Int64Seq => 4,
        PayloadKind::FixedSeq => 128,
    }
}

/// The mapper and the tag table agree: the representation a token maps to
/// carries the token's own wire type tag, for either value of the flag.
pub proof fn lemma_kind_tag_consistent(t: Seq<char>, is_sequence: bool)
    ensures
        spec_kind_tag(spec_payload_kind(t, is_sequence)) == spec_type_tag(t),
{
}

fn token_is(token: &String, lit: &str) -> (r: bool)
    ensures
        r == (token@ == lit@),
{
    let other = String::from_str(lit);
    *token == other
}

/// Whether the token names one of the supported value types.
pub fn recognized(token: &String) -> (r: bool)
    ensures
        r == spec_recognized(token@),
{
    token_is(token, "void") || token_is(token, "int8") || token_is(token, "int16") || token_is(
        token,
        "int32",
    ) || token_is(token, "int64") || token_is(token, "string") || token_is(token, "fixed16")
}

/// The payload representation for a value-type token.
pub fn payload_kind(token: &String, is_sequence: bool) -> (r: PayloadKind)
    ensures
        r == spec_payload_kind(token@, is_sequence),
{
    if token_is(token, "void") {
        PayloadKind::Absent
    } else if token_is(token, "int8") {
        if is_sequence {
            PayloadKind::Int8Seq
        } else {
            PayloadKind::Int8
        }
    } else if token_is(token, "int16") {
        if is_sequence {
            PayloadKind::Int16Seq
        } else {
            PayloadKind::Int16
        }
    } else if token_is(token, "int32") {
        if is_sequence {
            PayloadKind::Int32Seq
        } else {
            PayloadKind::Int32
        }
    } else if token_is(token, "int64") {
        if is_sequence {
            PayloadKind::Int64Seq
        } else {
            PayloadKind::Int64
        }
    } else if token_is(token, "string") {
        PayloadKind::Text
    } else if token_is(token, "fixed16") {
        if is_sequence {
            PayloadKind::FixedSeq
        } else {
            PayloadKind::Fixed
        }
    } else {
        PayloadKind::Absent
    }
}

/// The wire type tag of a value-type token.
pub fn type_tag(token: &String) -> (r: u8)
    ensures
        r == spec_type_tag(token@),
{
    if token_is(token, "void") {
        0
    } else if token_is(token, "int8") {
        1
    } else if token_is(token, "int16") {
        2
    } else if token_is(token, "int32") {
        3
    } else if token_is(token, "int64") {
        4
    } else if token_is(token, "string") {
        5
    } else if token_is(token, "fixed16") {
        128
    } else {
        0
    }
}

} // verus!
