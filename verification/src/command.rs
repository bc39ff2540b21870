//! Command facade: the dispatch model generated from the protocol schema,
//! and the codec between whole frames and typed command values.
//!
//! The model is a table built once, ahead of normal operation: one entry per
//! category, each with one entry per parameter whose value-type token is
//! supported, carrying the parameter's payload representation. Encode and
//! decode dispatch over the table by the (category id, parameter id) pair.
use vstd::prelude::*;
use vstd::string::StringExecFns;
use vstd::utf8::{decode_utf8, valid_utf8};

use crate::data::{data_result_view, spec_data_bytes, Data, DataV};
use crate::paramcodec::{
    decode_i16s, decode_i32s, decode_i64s, decode_i8s, lemma_i16_seq_round, lemma_i32_seq_round,
    lemma_i64_seq_round, lemma_i8_seq_round, lemma_text_round, spec_i16_seq_from_le,
    spec_i32_seq_from_le, spec_i64_seq_from_le, spec_i8_seq_from_le, string_from_utf8,
};
use crate::rawcommand::{
    build_frame, frame_header_wf, lemma_frame_round, spec_frame, spec_frame_payload, CommandError,
    Operation, RawCommand,
};
use crate::schema::{BlackmagicCameraProtocol, GroupV, ParameterV};
use crate::typemap::{payload_kind, recognized, spec_kind_tag, spec_payload_kind, spec_recognized, PayloadKind};

verus! {

/// One parameter entry of the model: wire id, symbolic name and payload
/// representation.
#[derive(Debug)]
pub struct ModelParameter {
    pub id: u8,
    pub name: String,
    pub kind: PayloadKind,
}

pub struct ModelParameterV {
    pub id: u8,
    pub name: Seq<char>,
    pub kind: PayloadKind,
}

impl View for ModelParameter {
    type V = ModelParameterV;

    open spec fn view(&self) -> ModelParameterV {
        ModelParameterV { id: self.id, name: self.name@, kind: self.kind }
    }
}

/// One category entry of the model: wire id, symbolic name and its
/// parameter entries in document order.
#[derive(Debug)]
pub struct ModelCategory {
    pub id: u8,
    pub name: String,
    pub parameters: Vec<ModelParameter>,
}

pub struct ModelCategoryV {
    pub id: u8,
    pub name: Seq<char>,
    pub parameters: Seq<ModelParameterV>,
}

impl View for ModelCategory {
    type V = ModelCategoryV;

    open spec fn view(&self) -> ModelCategoryV {
        ModelCategoryV {
            id: self.id,
            name: self.name@,
            parameters: Seq::new(self.parameters@.len(), |i: int| self.parameters@[i]@),
        }
    }
}

/// The dispatch model: category entries in document order.
#[derive(Debug)]
pub struct CommandModel {
    pub categories: Vec<ModelCategory>,
}

impl View for CommandModel {
    type V = Seq<ModelCategoryV>;

    open spec fn view(&self) -> Seq<ModelCategoryV> {
        Seq::new(self.categories@.len(), |i: int| self.categories@[i]@)
    }
}

/// The model entry for one schema parameter.
pub open spec fn spec_model_parameter(p: ParameterV) -> ModelParameterV {
    ModelParameterV {
        id: p.id,
        name: p.normalized_parameter,
        kind: spec_payload_kind(p.type_field, p.index.len() > 0),
    }
}

/// The model entries for a category's parameters: one per parameter whose
/// value-type token is supported, in document order.
pub open spec fn spec_gen_parameters(ps: Seq<ParameterV>) -> Seq<ModelParameterV>
    decreases ps.len(),
{
    if ps.len() == 0 {
        Seq::empty()
    } else {
        let rest = spec_gen_parameters(ps.drop_first());
        if spec_recognized(ps[0].type_field) {
            seq![spec_model_parameter(ps[0])] + rest
        } else {
            rest
        }
    }
}

/// The model generated from the schema's categories.
pub open spec fn spec_gen_model(gs: Seq<GroupV>) -> Seq<ModelCategoryV> {
    Seq::new(
        gs.len(),
        |i: int|
            ModelCategoryV {
                id: gs[i].id,
                name: gs[i].normalized_name,
                parameters: spec_gen_parameters(gs[i].parameters),
            },
    )
}

proof fn lemma_gen_parameters_push(ps: Seq<ParameterV>, p: ParameterV)
    ensures
        spec_gen_parameters(ps.push(p)) == spec_gen_parameters(ps) + (if spec_recognized(
            p.type_field,
        ) {
            seq![spec_model_parameter(p)]
        } else {
            Seq::<ModelParameterV>::empty()
        }),
    decreases ps.len(),
{
    let tail = if spec_recognized(p.type_field) {
        seq![spec_model_parameter(p)]
    } else {
        Seq::<ModelParameterV>::empty()
    };
    if ps.len() == 0 {
        assert(ps.push(p)[0] == p);
        assert(ps.push(p).drop_first() =~= Seq::<ParameterV>::empty());
        assert(spec_gen_parameters(Seq::<ParameterV>::empty()) == Seq::<
            ModelParameterV,
        >::empty());
        assert(spec_gen_parameters(ps) == Seq::<ModelParameterV>::empty());
        assert(spec_gen_parameters(ps.push(p)) =~= spec_gen_parameters(ps) + tail);
    } else {
        assert(ps.push(p)[0] == ps[0]);
        assert(ps.push(p).drop_first() =~= ps.drop_first().push(p));
        lemma_gen_parameters_push(ps.drop_first(), p);
        assert(spec_gen_parameters(ps.push(p)) =~= spec_gen_parameters(ps) + tail);
    }
}

fn gen_parameters(params: &Vec<crate::schema::Parameter>) -> (r: Vec<ModelParameter>)
    ensures
        Seq::new(r@.len(), |i: int| r@[i]@) == spec_gen_parameters(
            Seq::new(params@.len(), |i: int| params@[i]@),
        ),
{
    let ghost ps = Seq::new(params@.len(), |i: int| params@[i]@);
    let mut out: Vec<ModelParameter> = Vec::new();
    let mut i: usize = 0;
    while i < params.len()
        invariant
            ps == Seq::new(params@.len(), |t: int| params@[t]@),
            i <= params@.len(),
            Seq::new(out@.len(), |t: int| out@[t]@) == spec_gen_parameters(ps.take(i as int)),
        decreases params@.len() - i,
    {
        let ghost before = Seq::new(out@.len(), |t: int| out@[t]@);
        let p = &params[i];
        if recognized(&p.type_field) {
            let entry = ModelParameter {
                id: p.id,
                name: p.normalized_parameter.clone(),
                kind: payload_kind(&p.type_field, p.index.len() > 0),
            };
            proof {
                assert(entry@ == spec_model_parameter(ps[i as int]));
            }
            out.push(entry);
        }
        proof {
            lemma_gen_parameters_push(ps.take(i as int), ps[i as int]);
            assert(ps.take(i as int).push(ps[i as int]) =~= ps.take(i as int + 1));
            assert(Seq::new(out@.len(), |t: int| out@[t]@) =~= spec_gen_parameters(
                ps.take(i as int + 1),
            ));
        }
        i = i + 1;
    }
    proof {
        assert(ps.take(ps.len() as int) =~= ps);
    }
    out
}

impl CommandModel {
    /// Build the dispatch model from a schema: one entry per category, one
    /// per supported parameter, in document order. Runs once, ahead of
    /// normal operation.
    pub fn generate(protocol: &BlackmagicCameraProtocol) -> (m: CommandModel)
        ensures
            m@ == spec_gen_model(protocol@.groups),
    {
        let mut categories: Vec<ModelCategory> = Vec::new();
        let mut i: usize = 0;
        while i < protocol.groups.len()
            invariant
                i <= protocol.groups@.len(),
                categories@.len() == i,
                forall|t: int|
                    0 <= t < i ==> #[trigger] categories@[t]@ == spec_gen_model(protocol@.groups)[t],
            decreases protocol.groups@.len() - i,
        {
            let g = &protocol.groups[i];
            let entry = ModelCategory {
                id: g.id,
                name: g.normalized_name.clone(),
                parameters: gen_parameters(&g.parameters),
            };
            proof {
                assert(entry@.parameters =~= spec_gen_model(protocol@.groups)[i as int].parameters);
                assert(entry@ == spec_gen_model(protocol@.groups)[i as int]);
            }
            categories.push(entry);
            i = i + 1;
        }
        let m = CommandModel { categories };
        proof {
            assert(m@ =~= spec_gen_model(protocol@.groups));
        }
        m
    }
}

/// The first category entry with a wire id, searched in model order.
pub open spec fn spec_find_category(m: Seq<ModelCategoryV>, id: u8) -> Option<ModelCategoryV>
    decreases m.len(),
{
    if m.len() == 0 {
        None
    } else if m[0].id == id {
        Some(m[0])
    } else {
        spec_find_category(m.drop_first(), id)
    }
}

/// The first parameter entry with a wire id, searched in category order.
pub open spec fn spec_find_parameter(ps: Seq<ModelParameterV>, id: u8) -> Option<ModelParameterV>
    decreases ps.len(),
{
    if ps.len() == 0 {
        None
    } else if ps[0].id == id {
        Some(ps[0])
    } else {
        spec_find_parameter(ps.drop_first(), id)
    }
}

proof fn lemma_find_category_at(m: Seq<ModelCategoryV>, id: u8, i: int)
    requires
        0 <= i < m.len(),
        m[i].id == id,
        forall|j: int| 0 <= j < i ==> m[j].id != id,
    ensures
        spec_find_category(m, id) == Some(m[i]),
    decreases i,
{
    if i > 0 {
        lemma_find_category_at(m.drop_first(), id, i - 1);
    }
}

proof fn lemma_find_category_none(m: Seq<ModelCategoryV>, id: u8)
    requires
        forall|j: int| 0 <= j < m.len() ==> m[j].id != id,
    ensures
        spec_find_category(m, id) is None,
    decreases m.len(),
{
    if m.len() > 0 {
        lemma_find_category_none(m.drop_first(), id);
    }
}

proof fn lemma_find_parameter_at(ps: Seq<ModelParameterV>, id: u8, i: int)
    requires
        0 <= i < ps.len(),
        ps[i].id == id,
        forall|j: int| 0 <= j < i ==> ps[j].id != id,
    ensures
        spec_find_parameter(ps, id) == Some(ps[i]),
    decreases i,
{
    if i > 0 {
        lemma_find_parameter_at(ps.drop_first(), id, i - 1);
    }
}

proof fn lemma_find_parameter_none(ps: Seq<ModelParameterV>, id: u8)
    requires
        forall|j: int| 0 <= j < ps.len() ==> ps[j].id != id,
    ensures
        spec_find_parameter(ps, id) is None,
    decreases ps.len(),
{
    if ps.len() > 0 {
        lemma_find_parameter_none(ps.drop_first(), id);
    }
}

fn find_category_index(categories: &Vec<ModelCategory>, id: u8) -> (r: Option<usize>)
    ensures
        ({
            let m = Seq::new(categories@.len(), |i: int| categories@[i]@);
            match r {
                Some(i) => i < categories@.len() && spec_find_category(m, id) == Some(m[i as int]),
                None => spec_find_category(m, id) is None,
            }
        }),
{
    let ghost m = Seq::new(categories@.len(), |i: int| categories@[i]@);
    let mut i: usize = 0;
    while i < categories.len()
        invariant
            m == Seq::new(categories@.len(), |t: int| categories@[t]@),
            i <= categories@.len(),
            forall|j: int| 0 <= j < i ==> m[j].id != id,
        decreases categories@.len() - i,
    {
        if categories[i].id == id {
            proof {
                lemma_find_category_at(m, id, i as int);
            }
            return Some(i);
        }
        i = i + 1;
    }
    proof {
        lemma_find_category_none(m, id);
    }
    None
}

fn find_parameter_index(params: &Vec<ModelParameter>, id: u8) -> (r: Option<usize>)
    ensures
        ({
            let ps = Seq::new(params@.len(), |i: int| params@[i]@);
            match r {
                Some(i) => i < params@.len() && spec_find_parameter(ps, id) == Some(ps[i as int]),
                None => spec_find_parameter(ps, id) is None,
            }
        }),
{
    let ghost ps = Seq::new(params@.len(), |i: int| params@[i]@);
    let mut i: usize = 0;
    while i < params.len()
        invariant
            ps == Seq::new(params@.len(), |t: int| params@[t]@),
            i <= params@.len(),
            forall|j: int| 0 <= j < i ==> ps[j].id != id,
        decreases params@.len() - i,
    {
        if params[i].id == id {
            proof {
                lemma_find_parameter_at(ps, id, i as int);
            }
            return Some(i);
        }
        i = i + 1;
    }
    proof {
        lemma_find_parameter_none(ps, id);
    }
    None
}

// ---------------------------------------------------------------------------
// Payload codec, dispatched over the payload representation.
// ---------------------------------------------------------------------------
/// Whether a payload value fits a representation: void parameters carry
/// exactly the void value, scalar parameters one element of their type,
/// sequence parameters any number of elements, text a string.
pub open spec fn data_matches(kind: PayloadKind, d: DataV) -> bool {
    match (kind, d) {
        (PayloadKind::Absent, DataV::Void) => true,
        (PayloadKind::Int8, DataV::SignedByte(v)) => v.len() == 1,
        (PayloadKind::Int8Seq, DataV::SignedByte(v)) => true,
        (PayloadKind::Int16, DataV::Signed16(v)) => v.len() == 1,
        (PayloadKind::Int16Seq, DataV::Signed16(v)) => true,
        (PayloadKind::Int32, DataV::Signed32(v)) => v.len() == 1,
        (PayloadKind::Int32Seq, DataV::Signed32(v)) => true,
        (PayloadKind::Int64, DataV::Signed64(v)) => v.len() == 1,
        (PayloadKind::Int64Seq, DataV::Signed64(v)) => true,
        (PayloadKind::Text, DataV::Text(s)) => true,
        (PayloadKind::Fixed, DataV::FixedPoint(v)) => v.len() == 1,
        (PayloadKind::FixedSeq, DataV::FixedPoint(v)) => true,
        _ => false,
    }
}

/// The payload bytes for a value under a representation. A void parameter
/// canonically serializes to one zero byte; everything else serializes to
/// the value's own bytes.
pub open spec fn spec_encode_payload(kind: PayloadKind, d: DataV) -> Seq<u8> {
    if kind is Absent {
        seq![0u8]
    } else {
        spec_data_bytes(d)
    }
}

/// What decoding payload bytes under a representation yields. Void accepts
/// an empty payload or one zero byte (a single non-zero byte reads as a
/// boolean); a scalar takes exactly its element width; a sequence takes any
/// exact multiple of it; text must be valid UTF-8.
pub open spec fn spec_decode_payload(kind: PayloadKind, b: Seq<u8>) -> Result<DataV, CommandError> {
    match kind {
        PayloadKind::Absent => {
            if b.len() == 0 {
                Ok(DataV::Void)
            } else if b.len() == 1 {
                if b[0] == 0 {
                    Ok(DataV::Void)
                } else {
                    Ok(DataV::Bool(true))
                }
            } else {
                Err(CommandError::LengthMismatch)
            }
        },
        PayloadKind::Int8 => {
            if b.len() == 1 {
                Ok(DataV::SignedByte(spec_i8_seq_from_le(b)))
            } else {
                Err(CommandError::LengthMismatch)
            }
        },
        PayloadKind::Int8Seq => Ok(DataV::SignedByte(spec_i8_seq_from_le(b))),
        PayloadKind::Int16 => {
            if b.len() == 2 {
                Ok(DataV::Signed16(spec_i16_seq_from_le(b)))
            } else {
                Err(CommandError::LengthMismatch)
            }
        },
        PayloadKind::Int16Seq => {
            if b.len() % 2 == 0 {
                Ok(DataV::Signed16(spec_i16_seq_from_le(b)))
            } else {
                Err(CommandError::LengthMismatch)
            }
        },
        PayloadKind::Int32 => {
            if b.len() == 4 {
                Ok(DataV::Signed32(spec_i32_seq_from_le(b)))
            } else {
                Err(CommandError::LengthMismatch)
            }
        },
        PayloadKind::Int32Seq => {
            if b.len() % 4 == 0 {
                Ok(DataV::Signed32(spec_i32_seq_from_le(b)))
            } else {
                Err(CommandError::LengthMismatch)
            }
        },
        PayloadKind::Int64 => {
            if b.len() == 8 {
                Ok(DataV::Signed64(spec_i64_seq_from_le(b)))
            } else {
                Err(CommandError::LengthMismatch)
            }
        },
        PayloadKind::Int64Seq => {
            if b.len() % 8 == 0 {
                Ok(DataV::Signed64(spec_i64_seq_from_le(b)))
            } else {
                Err(CommandError::LengthMismatch)
            }
        },
        PayloadKind::Text => {
            if valid_utf8(b) {
                Ok(DataV::Text(decode_utf8(b)))
            } else {
                Err(CommandError::TextDecodeError)
            }
        },
        PayloadKind::Fixed => {
            if b.len() == 2 {
                Ok(DataV::FixedPoint(spec_i16_seq_from_le(b)))
            } else {
                Err(CommandError::LengthMismatch)
            }
        },
        PayloadKind::FixedSeq => {
            if b.len() % 2 == 0 {
                Ok(DataV::FixedPoint(spec_i16_seq_from_le(b)))
            } else {
                Err(CommandError::LengthMismatch)
            }
        },
    }
}

/// Whether a payload value fits a representation.
pub fn kind_matches(kind: PayloadKind, data: &Data) -> (r: bool)
    ensures
        r == data_matches(kind, data@),
{
    match (kind, data) {
        (PayloadKind::Absent, Data::Void) => true,
        (PayloadKind::Int8, Data::SignedByte(v)) => v.len() == 1,
        (PayloadKind::Int8Seq, Data::SignedByte(v)) => true,
        (PayloadKind::Int16, Data::Signed16(v)) => v.len() == 1,
        (PayloadKind::Int16Seq, Data::Signed16(v)) => true,
        (PayloadKind::Int32, Data::Signed32(v)) => v.len() == 1,
        (PayloadKind::Int32Seq, Data::Signed32(v)) => true,
        (PayloadKind::Int64, Data::Signed64(v)) => v.len() == 1,
        (PayloadKind::Int64Seq, Data::Signed64(v)) => true,
        (PayloadKind::Text, Data::Text(s)) => true,
        (PayloadKind::Fixed, Data::FixedPoint(v)) => v.len() == 1,
        (PayloadKind::FixedSeq, Data::FixedPoint(v)) => true,
        _ => false,
    }
}

/// Decode payload bytes under a representation.
pub fn decode_payload(kind: PayloadKind, b: &[u8]) -> (r: Result<Data, CommandError>)
    ensures
        data_result_view(r) == spec_decode_payload(kind, b@),
{
    match kind {
        PayloadKind::Absent => {
            if b.len() == 0 {
                Ok(Data::Void)
            } else if b.len() == 1 {
                if b[0] == 0 {
                    Ok(Data::Void)
                } else {
                    Ok(Data::Bool(true))
                }
            } else {
                Err(CommandError::LengthMismatch)
            }
        },
        PayloadKind::Int8 => {
            if b.len() == 1 {
                Ok(Data::SignedByte(decode_i8s(b)))
            } else {
                Err(CommandError::LengthMismatch)
            }
        },
        PayloadKind::Int8Seq => Ok(Data::SignedByte(decode_i8s(b))),
        PayloadKind::Int16 => {
            if b.len() == 2 {
                match decode_i16s(b) {
                    Ok(v) => Ok(Data::Signed16(v)),
                    Err(e) => Err(e),
                }
            } else {
                Err(CommandError::LengthMismatch)
            }
        },
        PayloadKind::Int16Seq => {
            match decode_i16s(b) {
                Ok(v) => Ok(Data::Signed16(v)),
                Err(e) => Err(e),
            }
        },
        PayloadKind::Int32 => {
            if b.len() == 4 {
                match decode_i32s(b) {
                    Ok(v) => Ok(Data::Signed32(v)),
                    Err(e) => Err(e),
                }
            } else {
                Err(CommandError::LengthMismatch)
            }
        },
        PayloadKind::Int32Seq => {
            match decode_i32s(b) {
                Ok(v) => Ok(Data::Signed32(v)),
                Err(e) => Err(e),
            }
        },
        PayloadKind::Int64 => {
            if b.len() == 8 {
                match decode_i64s(b) {
                    Ok(v) => Ok(Data::Signed64(v)),
                    Err(e) => Err(e),
                }
            } else {
                Err(CommandError::LengthMismatch)
            }
        },
        PayloadKind::Int64Seq => {
            match decode_i64s(b) {
                Ok(v) => Ok(Data::Signed64(v)),
                Err(e) => Err(e),
            }
        },
        PayloadKind::Text => {
            match string_from_utf8(vstd::slice::slice_to_vec(b)) {
                Some(s) => Ok(Data::Text(s)),
                None => Err(CommandError::TextDecodeError),
            }
        },
        PayloadKind::Fixed => {
            if b.len() == 2 {
                match decode_i16s(b) {
                    Ok(v) => Ok(Data::FixedPoint(v)),
                    Err(e) => Err(e),
                }
            } else {
                Err(CommandError::LengthMismatch)
            }
        },
        PayloadKind::FixedSeq => {
            match decode_i16s(b) {
                Ok(v) => Ok(Data::FixedPoint(v)),
                Err(e) => Err(e),
            }
        },
    }
}

// ---------------------------------------------------------------------------
// Typed command values and the facade codec.
// ---------------------------------------------------------------------------
/// One typed command: which category and parameter it addresses, and the
/// payload value.
#[derive(Debug, PartialEq)]
pub struct Command {
    pub category: u8,
    pub parameter: u8,
    pub data: Data,
}

pub struct CommandV {
    pub category: u8,
    pub parameter: u8,
    pub data: DataV,
}

impl View for Command {
    type V = CommandV;

    open spec fn view(&self) -> CommandV {
        CommandV { category: self.category, parameter: self.parameter, data: self.data@ }
    }
}

/// The payload bytes a command value serializes to on its own: one zero
/// byte for void, else the value's bytes.
pub open spec fn spec_command_bytes(d: DataV) -> Seq<u8> {
    if d is Void {
        seq![0u8]
    } else {
        spec_data_bytes(d)
    }
}

impl Command {
    /// The wire category id this command addresses.
    pub fn id(&self) -> (r: u8)
        ensures
            r == self.category,
    {
        self.category
    }

    /// The wire parameter id this command addresses.
    pub fn parameter_id(&self) -> (r: u8)
        ensures
            r == self.parameter,
    {
        self.parameter
    }

    /// The wire type tag of the carried payload.
    pub fn raw_type(&self) -> (r: u8)
        ensures
            r == crate::data::spec_data_tag(self@.data),
    {
        self.data.get_type()
    }

    /// The payload bytes of this command: one zero byte for void, else the
    /// value's own bytes.
    pub fn to_bytes(&self) -> (r: Vec<u8>)
        ensures
            r@ == spec_command_bytes(self@.data),
    {
        match self.data {
            Data::Void => {
                let mut out: Vec<u8> = Vec::new();
                out.push(0);
                proof {
                    assert(out@ =~= seq![0u8]);
                }
                out
            },
            _ => self.data.to_bytes(),
        }
    }
}

/// A decode result with the payload replaced by its mathematical shape.
pub open spec fn command_result_view(r: Result<Command, CommandError>) -> Result<
    CommandV,
    CommandError,
> {
    match r {
        Ok(c) => Ok(c@),
        Err(e) => Err(e),
    }
}

/// What decoding a frame against a model yields: under eight bytes is
/// `MessageShort`; a bad length byte is `LengthMismatch`; a category id the
/// model lacks is `CategoryNotDefined`; a parameter id the category lacks,
/// or a type tag other than the parameter's, is `ParameterNotDefined`; and
/// the payload decodes under the parameter's representation.
pub open spec fn spec_decode(m: Seq<ModelCategoryV>, f: Seq<u8>) -> Result<CommandV, CommandError> {
    if f.len() < 8 {
        Err(CommandError::MessageShort)
    } else if !frame_header_wf(f) {
        Err(CommandError::LengthMismatch)
    } else {
        match spec_find_category(m, f[4]) {
            None => Err(CommandError::CategoryNotDefined),
            Some(cat) => match spec_find_parameter(cat.parameters, f[5]) {
                None => Err(CommandError::ParameterNotDefined),
                Some(p) => {
                    if f[6] != spec_kind_tag(p.kind) {
                        Err(CommandError::ParameterNotDefined)
                    } else {
                        match spec_decode_payload(p.kind, spec_frame_payload(f)) {
                            Ok(d) => Ok(CommandV { category: f[4], parameter: f[5], data: d }),
                            Err(e) => Err(e),
                        }
                    }
                },
            },
        }
    }
}

/// What encoding a command against a model yields: the frame, or
/// `CategoryNotDefined` / `ParameterNotDefined` when the model lacks the
/// addressed pair or the payload does not fit the parameter's
/// representation, or `LengthMismatch` when the payload cannot fit the
/// one-byte length field.
pub open spec fn spec_encode(
    m: Seq<ModelCategoryV>,
    destination: u8,
    operation: Operation,
    c: CommandV,
) -> Result<Seq<u8>, CommandError> {
    match spec_find_category(m, c.category) {
        None => Err(CommandError::CategoryNotDefined),
        Some(cat) => match spec_find_parameter(cat.parameters, c.parameter) {
            None => Err(CommandError::ParameterNotDefined),
            Some(p) => {
                if !data_matches(p.kind, c.data) {
                    Err(CommandError::ParameterNotDefined)
                } else if spec_encode_payload(p.kind, c.data).len() > 251 {
                    Err(CommandError::LengthMismatch)
                } else {
                    Ok(
                        spec_frame(
                            destination,
                            c.category,
                            c.parameter,
                            spec_kind_tag(p.kind),
                            operation.spec_id(),
                            spec_encode_payload(p.kind, c.data),
                        ),
                    )
                }
            },
        },
    }
}

/// The human name of a command under a model: the category's symbolic name,
/// an underscore, and the parameter's symbolic name.
pub open spec fn spec_name(m: Seq<ModelCategoryV>, c: CommandV) -> Option<Seq<char>> {
    match spec_find_category(m, c.category) {
        None => None,
        Some(cat) => match spec_find_parameter(cat.parameters, c.parameter) {
            None => None,
            Some(p) => Some(cat.name + "_"@ + p.name),
        },
    }
}

impl CommandModel {
    /// Decode one frame into the typed command it addresses.
    pub fn decode(&self, data: &[u8]) -> (r: Result<Command, CommandError>)
        ensures
            command_result_view(r) == spec_decode(self@, data@),
    {
        let raw = match RawCommand::from_raw(data) {
            Ok(raw) => raw,
            Err(e) => {
                return Err(e);
            },
        };
        let ci = match find_category_index(&self.categories, raw.category) {
            Some(ci) => ci,
            None => {
                return Err(CommandError::CategoryNotDefined);
            },
        };
        let cat = &self.categories[ci];
        let pi = match find_parameter_index(&cat.parameters, raw.parameter) {
            Some(pi) => pi,
            None => {
                return Err(CommandError::ParameterNotDefined);
            },
        };
        let kind = cat.parameters[pi].kind;
        if raw.data_type != crate::typemap::kind_tag(kind) {
            return Err(CommandError::ParameterNotDefined);
        }
        match decode_payload(kind, raw.data.as_slice()) {
            Ok(d) => Ok(Command { category: raw.category, parameter: raw.parameter, data: d }),
            Err(e) => Err(e),
        }
    }

    /// Encode a typed command into the frame that carries it.
    pub fn encode(&self, destination: u8, operation: Operation, cmd: &Command) -> (r: Result<
        Vec<u8>,
        CommandError,
    >)
        ensures
            match (r, spec_encode(self@, destination, operation, cmd@)) {
                (Ok(v), Ok(f)) => v@ == f,
                (Err(e1), Err(e2)) => e1 == e2,
                _ => false,
            },
    {
        let ci = match find_category_index(&self.categories, cmd.category) {
            Some(ci) => ci,
            None => {
                return Err(CommandError::CategoryNotDefined);
            },
        };
        let cat = &self.categories[ci];
        let pi = match find_parameter_index(&cat.parameters, cmd.parameter) {
            Some(pi) => pi,
            None => {
                return Err(CommandError::ParameterNotDefined);
            },
        };
        let kind = cat.parameters[pi].kind;
        if !kind_matches(kind, &cmd.data) {
            return Err(CommandError::ParameterNotDefined);
        }
        let payload = if matches!(kind, PayloadKind::Absent) {
            let mut out: Vec<u8> = Vec::new();
            out.push(0);
            proof {
                assert(out@ =~= spec_encode_payload(kind, cmd@.data));
            }
            out
        } else {
            cmd.data.to_bytes()
        };
        if payload.len() > 251 {
            return Err(CommandError::LengthMismatch);
        }
        Ok(
            build_frame(
                destination,
                cmd.category,
                cmd.parameter,
                crate::typemap::kind_tag(kind),
                operation.id(),
                &payload,
            ),
        )
    }

    /// The human name of a command under this model, where the model covers
    /// the addressed pair of ids.
    pub fn name(&self, cmd: &Command) -> (r: Option<String>)
        ensures
            match r {
                Some(s) => spec_name(self@, cmd@) == Some(s@),
                None => spec_name(self@, cmd@) is None,
            },
    {
        let ci = match find_category_index(&self.categories, cmd.category) {
            Some(ci) => ci,
            None => {
                return None;
            },
        };
        let cat = &self.categories[ci];
        let pi = match find_parameter_index(&cat.parameters, cmd.parameter) {
            Some(pi) => pi,
            None => {
                return None;
            },
        };
        let mut s = cat.name.clone();
        s.append("_");
        s.append(cat.parameters[pi].name.as_str());
        Some(s)
    }
}


// ---------------------------------------------------------------------------
// Laws of the facade codec.
// ---------------------------------------------------------------------------
/// A matching payload value decodes, under its representation, from its own
/// encoding back to the same value.
pub proof fn lemma_payload_round_trip(kind: PayloadKind, d: DataV)
    requires
        data_matches(kind, d),
    ensures
        spec_decode_payload(kind, spec_encode_payload(kind, d)) == Ok::<DataV, CommandError>(d),
{
    let b = spec_encode_payload(kind, d);
    match kind {
        PayloadKind::Absent => {
            assert(b.len() == 1 && b[0] == 0);
        },
        PayloadKind::Int8 | PayloadKind::Int8Seq => {
            let v = d->SignedByte_0;
            lemma_i8_seq_round(v);
        },
        PayloadKind::Int16 | PayloadKind::Int16Seq => {
            let v = d->Signed16_0;
            lemma_i16_seq_round(v);
        },
        PayloadKind::Int32 | PayloadKind::Int32Seq => {
            let v = d->Signed32_0;
            lemma_i32_seq_round(v);
        },
        PayloadKind::Int64 | PayloadKind::Int64Seq => {
            let v = d->Signed64_0;
            lemma_i64_seq_round(v);
        },
        PayloadKind::Text => {
            let s = d->Text_0;
            lemma_text_round(s);
        },
        PayloadKind::Fixed | PayloadKind::FixedSeq => {
            let v = d->FixedPoint_0;
            lemma_i16_seq_round(v);
        },
    }
}

/// Round trip: a command a model encodes decodes, under the same model,
/// back to the same command, whatever the destination and operation.
pub proof fn lemma_command_round_trip(
    m: Seq<ModelCategoryV>,
    destination: u8,
    operation: Operation,
    c: CommandV,
)
    ensures
        match spec_encode(m, destination, operation, c) {
            Ok(f) => spec_decode(m, f) == Ok::<CommandV, CommandError>(c),
            Err(_) => true,
        },
{
    match spec_find_category(m, c.category) {
        None => {},
        Some(cat) => match spec_find_parameter(cat.parameters, c.parameter) {
            None => {},
            Some(p) => {
                if data_matches(p.kind, c.data) && spec_encode_payload(p.kind, c.data).len()
                    <= 251 {
                    let payload = spec_encode_payload(p.kind, c.data);
                    lemma_frame_round(
                        destination,
                        c.category,
                        c.parameter,
                        spec_kind_tag(p.kind),
                        operation.spec_id(),
                        payload,
                    );
                    lemma_payload_round_trip(p.kind, c.data);
                }
            },
        },
    }
}

/// Framing invariant: in every encoded frame, the length byte is 4 plus the
/// payload length, and the whole frame spans 8 plus the payload length.
pub proof fn lemma_encode_framing(
    m: Seq<ModelCategoryV>,
    destination: u8,
    operation: Operation,
    c: CommandV,
)
    ensures
        match spec_encode(m, destination, operation, c) {
            Ok(f) => {
                &&& frame_header_wf(f)
                &&& f[1] == 4 + spec_frame_payload(f).len()
                &&& f.len() == 8 + spec_frame_payload(f).len()
            },
            Err(_) => true,
        },
{
    match spec_find_category(m, c.category) {
        None => {},
        Some(cat) => match spec_find_parameter(cat.parameters, c.parameter) {
            None => {},
            Some(p) => {
                if data_matches(p.kind, c.data) && spec_encode_payload(p.kind, c.data).len()
                    <= 251 {
                    lemma_frame_round(
                        destination,
                        c.category,
                        c.parameter,
                        spec_kind_tag(p.kind),
                        operation.spec_id(),
                        spec_encode_payload(p.kind, c.data),
                    );
                }
            },
        },
    }
}

/// The type tag byte of every encoded frame is the tag of the addressed
/// parameter's payload representation. For a model generated from a schema,
/// that representation comes from the parameter's value-type token, whose
/// tag it carries (`lemma_kind_tag_consistent`).
pub proof fn lemma_encode_tag(
    m: Seq<ModelCategoryV>,
    destination: u8,
    operation: Operation,
    c: CommandV,
)
    ensures
        match spec_encode(m, destination, operation, c) {
            Ok(f) => match spec_find_category(m, c.category) {
                Some(cat) => match spec_find_parameter(cat.parameters, c.parameter) {
                    Some(p) => f.len() >= 8 && f[6] == spec_kind_tag(p.kind),
                    None => false,
                },
                None => false,
            },
            Err(_) => true,
        },
{
    match spec_find_category(m, c.category) {
        None => {},
        Some(cat) => match spec_find_parameter(cat.parameters, c.parameter) {
            None => {},
            Some(p) => {
                if data_matches(p.kind, c.data) && spec_encode_payload(p.kind, c.data).len()
                    <= 251 {
                    lemma_frame_round(
                        destination,
                        c.category,
                        c.parameter,
                        spec_kind_tag(p.kind),
                        operation.spec_id(),
                        spec_encode_payload(p.kind, c.data),
                    );
                }
            },
        },
    }
}

/// Totality of decode over the frame length: fewer than eight bytes is
/// exactly the `MessageShort` case; every longer input yields a command or
/// one of the other defined errors.
pub proof fn lemma_decode_total(m: Seq<ModelCategoryV>, f: Seq<u8>)
    ensures
        spec_decode(m, f) == Err::<CommandV, CommandError>(CommandError::MessageShort) <==> f.len()
            < 8,
{
}

/// Void canonicalization: a void parameter encodes to the single zero byte,
/// and an empty payload or a single zero byte decodes to the void value.
pub proof fn lemma_void_canonical(b: Seq<u8>)
    ensures
        spec_encode_payload(PayloadKind::Absent, DataV::Void) == seq![0u8],
        b.len() == 0 ==> spec_decode_payload(PayloadKind::Absent, b) == Ok::<
            DataV,
            CommandError,
        >(DataV::Void),
        b == seq![0u8] ==> spec_decode_payload(PayloadKind::Absent, b) == Ok::<
            DataV,
            CommandError,
        >(DataV::Void),
{
}


/// Every parameter entry a generated model can find comes from a schema
/// parameter with that id whose value-type token is supported, and it
/// carries that token's payload representation.
pub proof fn lemma_generated_parameter_source(ps: Seq<ParameterV>, id: u8)
    ensures
        match spec_find_parameter(spec_gen_parameters(ps), id) {
            Some(mp) => exists|i: int|
                0 <= i < ps.len() && (#[trigger] ps[i]).id == id && spec_recognized(
                    ps[i].type_field,
                ) && mp == spec_model_parameter(ps[i]),
            None => true,
        },
    decreases ps.len(),
{
    if ps.len() > 0 {
        let t = ps.drop_first();
        lemma_generated_parameter_source(t, id);
        let m = spec_gen_parameters(ps);
        if spec_recognized(ps[0].type_field) {
            assert(m == seq![spec_model_parameter(ps[0])] + spec_gen_parameters(t));
            assert(m[0] == spec_model_parameter(ps[0]));
            assert(m.drop_first() =~= spec_gen_parameters(t));
            if m[0].id == id {
                assert(ps[0].id == id && spec_recognized(ps[0].type_field)
                    && spec_find_parameter(m, id) == Some(spec_model_parameter(ps[0])));
            } else {
                match spec_find_parameter(spec_gen_parameters(t), id) {
                    Some(mp) => {
                        let i = choose|i: int|
                            0 <= i < t.len() && (#[trigger] t[i]).id == id && spec_recognized(
                                t[i].type_field,
                            ) && mp == spec_model_parameter(t[i]);
                        assert(ps[i + 1] == t[i]);
                    },
                    None => {},
                }
            }
        } else {
            assert(m =~= spec_gen_parameters(t));
            match spec_find_parameter(spec_gen_parameters(t), id) {
                Some(mp) => {
                    let i = choose|i: int|
                        0 <= i < t.len() && (#[trigger] t[i]).id == id && spec_recognized(
                            t[i].type_field,
                        ) && mp == spec_model_parameter(t[i]);
                    assert(ps[i + 1] == t[i]);
                },
                None => {},
            }
        }
    }
}

/// Every category entry a generated model can find comes from the schema
/// category with that id, and holds that category's generated parameters.
pub proof fn lemma_generated_category_source(gs: Seq<GroupV>, id: u8)
    ensures
        match spec_find_category(spec_gen_model(gs), id) {
            Some(cat) => exists|i: int|
                0 <= i < gs.len() && (#[trigger] gs[i]).id == id && cat.parameters
                    == spec_gen_parameters(gs[i].parameters),
            None => true,
        },
    decreases gs.len(),
{
    if gs.len() > 0 {
        let m = spec_gen_model(gs);
        let t = gs.drop_first();
        lemma_generated_category_source(t, id);
        assert(m.drop_first() =~= spec_gen_model(t));
        if m[0].id == id {
            assert(gs[0].id == id && m[0].parameters == spec_gen_parameters(gs[0].parameters));
        } else {
            match spec_find_category(spec_gen_model(t), id) {
                Some(cat) => {
                    let i = choose|i: int|
                        0 <= i < t.len() && (#[trigger] t[i]).id == id && cat.parameters
                            == spec_gen_parameters(t[i].parameters);
                    assert(gs[i + 1] == t[i]);
                },
                None => {},
            }
        }
    }
}

/// In a model generated from a schema, the type tag byte of every encoded
/// frame is the wire type tag of the addressed parameter's value-type token,
/// exactly as the type mapper assigns it.
pub proof fn lemma_generated_encode_tag(
    gs: Seq<GroupV>,
    destination: u8,
    operation: Operation,
    c: CommandV,
)
    ensures
        match spec_encode(spec_gen_model(gs), destination, operation, c) {
            Ok(f) => exists|i: int|
                0 <= i < gs.len() && (#[trigger] gs[i]).id == c.category && exists|j: int|
                    0 <= j < gs[i].parameters.len() && (#[trigger] gs[i].parameters[j]).id
                        == c.parameter && f.len() >= 8 && f[6] == crate::typemap::spec_type_tag(
                        gs[i].parameters[j].type_field,
                    ),
            Err(_) => true,
        },
{
    let m = spec_gen_model(gs);
    lemma_encode_tag(m, destination, operation, c);
    match spec_encode(m, destination, operation, c) {
        Ok(f) => {
            lemma_generated_category_source(gs, c.category);
            let cat = match spec_find_category(m, c.category) {
                Some(cat) => cat,
                None => arbitrary(),
            };
            let i = choose|i: int|
                0 <= i < gs.len() && (#[trigger] gs[i]).id == c.category && cat.parameters
                    == spec_gen_parameters(gs[i].parameters);
            lemma_generated_parameter_source(gs[i].parameters, c.parameter);
            let j = choose|j: int|
                0 <= j < gs[i].parameters.len() && (#[trigger] gs[i].parameters[j]).id
                    == c.parameter && spec_recognized(gs[i].parameters[j].type_field) && (match
                spec_find_parameter(cat.parameters, c.parameter) {
                    Some(mp) => mp,
                    None => arbitrary(),
                }) == spec_model_parameter(gs[i].parameters[j]);
            crate::typemap::lemma_kind_tag_consistent(
                gs[i].parameters[j].type_field,
                gs[i].parameters[j].index.len() > 0,
            );
        },
        Err(_) => {},
    }
}

} // verus!
