//! Protocol schema: the immutable in-memory form of the specification
//! document. Loaded once and validated; the command model is generated
//! from it.
use vstd::prelude::*;

verus! {

/// Errors of schema validation. Ids must be collision-free keys: category
/// ids across the document, parameter ids within their category.
#[derive(Clone, Copy, Debug, PartialEq, Eq, Structural)]
pub enum SchemaError {
    DuplicateCategoryId,
    DuplicateParameterId,
}

/// Provenance notes of the specification document.
#[derive(Debug)]
pub struct Information {
    pub readme: String,
    pub source: String,
    pub git: String,
}

pub struct InformationV {
    pub readme: Seq<char>,
    pub source: Seq<char>,
    pub git: Seq<char>,
}

impl View for Information {
    type V = InformationV;

    open spec fn view(&self) -> InformationV {
        InformationV { readme: self.readme@, source: self.source@, git: self.git@ }
    }
}

/// One parameter of the document: its wire id, names, value-type token,
/// index labels (a non-empty list marks a sequence payload) and optional
/// interpretation text. The optional advisory bounds of the document are
/// not part of the model the codec reads.
#[derive(Debug)]
pub struct Parameter {
    pub id: u8,
    pub group: String,
    pub group_id: u8,
    pub parameter: String,
    pub normalized_parameter: String,
    pub type_field: String,
    pub index: Vec<String>,
    pub interpretation: Option<String>,
}

pub struct ParameterV {
    pub id: u8,
    pub group: Seq<char>,
    pub group_id: u8,
    pub parameter: Seq<char>,
    pub normalized_parameter: Seq<char>,
    pub type_field: Seq<char>,
    pub index: Seq<Seq<char>>,
    pub interpretation: Option<Seq<char>>,
}

impl View for Parameter {
    type V = ParameterV;

    open spec fn view(&self) -> ParameterV {
        ParameterV {
            id: self.id,
            group: self.group@,
            group_id: self.group_id,
            parameter: self.parameter@,
            normalized_parameter: self.normalized_parameter@,
            type_field: self.type_field@,
            index: Seq::new(self.index@.len(), |i: int| self.index@[i]@),
            interpretation: match self.interpretation {
                Some(ref s) => Some(s@),
                None => None,
            },
        }
    }
}

/// One category of the document and its parameters, in document order.
#[derive(Debug)]
pub struct Group {
    pub name: String,
    pub normalized_name: String,
    pub id: u8,
    pub parameters: Vec<Parameter>,
}

pub struct GroupV {
    pub name: Seq<char>,
    pub normalized_name: Seq<char>,
    pub id: u8,
    pub parameters: Seq<ParameterV>,
}

impl View for Group {
    type V = GroupV;

    open spec fn view(&self) -> GroupV {
        GroupV {
            name: self.name@,
            normalized_name: self.normalized_name@,
            id: self.id,
            parameters: Seq::new(self.parameters@.len(), |i: int| self.parameters@[i]@),
        }
    }
}

/// The whole validated document: provenance and the ordered categories.
#[derive(Debug)]
pub struct BlackmagicCameraProtocol {
    pub information: Information,
    pub groups: Vec<Group>,
}

pub struct ProtocolV {
    pub information: InformationV,
    pub groups: Seq<GroupV>,
}

impl View for BlackmagicCameraProtocol {
    type V = ProtocolV;

    open spec fn view(&self) -> ProtocolV {
        ProtocolV {
            information: self.information@,
            groups: Seq::new(self.groups@.len(), |i: int| self.groups@[i]@),
        }
    }
}

/// No two categories share a wire id.
pub open spec fn group_ids_unique(gs: Seq<GroupV>) -> bool {
    forall|a: int, b: int| 0 <= a < b < gs.len() ==> gs[a].id != gs[b].id
}

/// No two parameters of one category share a wire id.
pub open spec fn param_ids_unique(ps: Seq<ParameterV>) -> bool {
    forall|a: int, b: int| 0 <= a < b < ps.len() ==> ps[a].id != ps[b].id
}

/// A validated document: category ids unique, parameter ids unique within
/// each category.
pub open spec fn protocol_wf(p: ProtocolV) -> bool {
    &&& group_ids_unique(p.groups)
    &&& forall|i: int| 0 <= i < p.groups.len() ==> param_ids_unique(#[trigger] p.groups[i].parameters)
}

fn groups_have_duplicate_id(groups: &Vec<Group>) -> (r: bool)
    ensures
        r == !group_ids_unique(Seq::new(groups@.len(), |i: int| groups@[i]@)),
{
    let ghost gs = Seq::new(groups@.len(), |i: int| groups@[i]@);
    let mut i: usize = 0;
    while i < groups.len()
        invariant
            gs == Seq::new(groups@.len(), |t: int| groups@[t]@),
            i <= groups@.len(),
            forall|a: int, b: int| 0 <= a < b < i ==> gs[a].id != gs[b].id,
        decreases groups@.len() - i,
    {
        let mut j: usize = 0;
        while j < i
            invariant
                gs == Seq::new(groups@.len(), |t: int| groups@[t]@),
                j <= i < groups@.len(),
                forall|a: int| 0 <= a < j ==> gs[a].id != gs[i as int].id,
            decreases i - j,
        {
            if groups[j].id == groups[i].id {
                proof {
                    assert(gs[j as int].id == gs[i as int].id);
                    assert(!group_ids_unique(gs));
                }
                return true;
            }
            j = j + 1;
        }
        i = i + 1;
    }
    false
}

fn params_have_duplicate_id(params: &Vec<Parameter>) -> (r: bool)
    ensures
        r == !param_ids_unique(Seq::new(params@.len(), |i: int| params@[i]@)),
{
    let ghost ps = Seq::new(params@.len(), |i: int| params@[i]@);
    let mut i: usize = 0;
    while i < params.len()
        invariant
            ps == Seq::new(params@.len(), |t: int| params@[t]@),
            i <= params@.len(),
            forall|a: int, b: int| 0 <= a < b < i ==> ps[a].id != ps[b].id,
        decreases params@.len() - i,
    {
        let mut j: usize = 0;
        while j < i
            invariant
                ps == Seq::new(params@.len(), |t: int| params@[t]@),
                j <= i < params@.len(),
                forall|a: int| 0 <= a < j ==> ps[a].id != ps[i as int].id,
            decreases i - j,
        {
            if params[j].id == params[i].id {
                proof {
                    assert(ps[j as int].id == ps[i as int].id);
                    assert(!param_ids_unique(ps));
                }
                return true;
            }
            j = j + 1;
        }
        i = i + 1;
    }
    false
}

impl BlackmagicCameraProtocol {
    /// Validate a loaded document. Duplicate category ids, then duplicate
    /// parameter ids within a category, are rejected; everything else is
    /// kept as given, in document order.
    pub fn new(information: Information, groups: Vec<Group>) -> (r: Result<
        BlackmagicCameraProtocol,
        SchemaError,
    >)
        ensures
            match r {
                Ok(p) => {
                    &&& p@.information == information@
                    &&& p@.groups == Seq::new(groups@.len(), |i: int| groups@[i]@)
                    &&& protocol_wf(p@)
                },
                Err(e) => {
                    let gs = Seq::new(groups@.len(), |i: int| groups@[i]@);
                    &&& (e == SchemaError::DuplicateCategoryId <==> !group_ids_unique(gs))
                    &&& (e == SchemaError::DuplicateParameterId <==> group_ids_unique(gs) && exists|
                        i: int,
                    |
                        0 <= i < gs.len() && !param_ids_unique(#[trigger] gs[i].parameters))
                },
            },
    {
        let ghost gs = Seq::new(groups@.len(), |i: int| groups@[i]@);
        if groups_have_duplicate_id(&groups) {
            return Err(SchemaError::DuplicateCategoryId);
        }
        let mut i: usize = 0;
        while i < groups.len()
            invariant
                gs == Seq::new(groups@.len(), |t: int| groups@[t]@),
                i <= groups@.len(),
                forall|t: int| 0 <= t < i ==> param_ids_unique(#[trigger] gs[t].parameters),
                group_ids_unique(gs),
            decreases groups@.len() - i,
        {
            if params_have_duplicate_id(&groups[i].parameters) {
                proof {
                    assert(gs[i as int].parameters =~= Seq::new(
                        groups@[i as int].parameters@.len(),
                        |t: int| groups@[i as int].parameters@[t]@,
                    ));
                    assert(!param_ids_unique(gs[i as int].parameters));
                }
                return Err(SchemaError::DuplicateParameterId);
            }
            proof {
                assert(gs[i as int].parameters =~= Seq::new(
                    groups@[i as int].parameters@.len(),
                    |t: int| groups@[i as int].parameters@[t]@,
                ));
            }
            i = i + 1;
        }
        let p = BlackmagicCameraProtocol { information, groups };
        proof {
            assert(p@.groups =~= gs);
        }
        Ok(p)
    }
}

} // verus!
