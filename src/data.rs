use vstd::prelude::*;
use vstd::string::*;

use crate::text::str_eq;
use crate::values::{clone_value, Operation, ResolvedValue};

verus! {

/// Maps a state field name to the collected-data field that holds its value.
#[derive(Debug, Clone)]
pub struct FieldMapping {
    pub state_field: String,
    pub data_field: String,
}

/// A behavior that callers may ask for at evaluation time: a flag, with the names of the
/// parameters that may go with it.
#[derive(Debug, Clone)]
pub struct SupportedBehavior {
    pub name: String,
    pub parameters: Vec<String>,
}

/// Semantic type of a field.
#[derive(Debug, Clone, Copy, PartialEq, Eq, Structural)]
pub enum DataType {
    String,
    Int,
    Boolean,
    RecordData,
}

/// A state field a criterion may check: its name, its type, and the operators allowed
/// on it.
#[derive(Debug, Clone)]
pub struct StateFieldSpec {
    pub name: String,
    pub data_type: DataType,
    pub allowed_operations: Vec<Operation>,
}

/// Whether a collector reads metadata or content.
#[derive(Debug, Clone, Copy, PartialEq, Eq, Structural)]
pub enum CollectionMode {
    Metadata,
    Content,
}

/// Which collector serves a criterion type, how, and with which capabilities.
#[derive(Debug, Clone)]
pub struct CollectionStrategy {
    pub collector_type: String,
    pub collection_mode: CollectionMode,
    pub required_capabilities: Vec<String>,
}

/// Static description of one criterion type.
#[derive(Debug, Clone)]
pub struct CtnContract {
    pub ctn_type: String,
    pub required_object_fields: Vec<String>,
    pub optional_object_fields: Vec<String>,
    pub state_requirements: Vec<StateFieldSpec>,
    pub state_to_data: Vec<FieldMapping>,
    pub required_data_fields: Vec<String>,
    pub optional_data_fields: Vec<String>,
    pub collection_strategy: CollectionStrategy,
    pub supported_behaviors: Vec<SupportedBehavior>,
}

/// A named parameter handed with a criterion.
#[derive(Debug, Clone)]
pub struct HintParameter {
    pub name: String,
    pub value: ResolvedValue,
}

/// Behavior flags and parameters attached to a criterion.
#[derive(Debug, Clone)]
pub struct BehaviorHints {
    pub flags: Vec<String>,
    pub parameters: Vec<HintParameter>,
}

pub open spec fn has_flag_spec(hints: BehaviorHints, name: Seq<char>) -> bool {
    exists|i: int| 0 <= i < hints.flags.len() && (#[trigger] hints.flags@[i])@ == name
}

/// The integer value of the first parameter named `name`, if it is an integer.
pub open spec fn int_parameter(params: Seq<HintParameter>, name: Seq<char>) -> Option<i64>
    decreases params.len(),
{
    if params.len() == 0 {
        None
    } else if params[0].name@ == name {
        match params[0].value {
            ResolvedValue::Integer(i) => Some(i),
            _ => None,
        }
    } else {
        int_parameter(params.drop_first(), name)
    }
}

impl BehaviorHints {
    /// Whether the flag `name` was given.
    pub fn has_flag(&self, name: &str) -> (r: bool)
        ensures
            r == has_flag_spec(*self, name@),
    {
        let mut i: usize = 0;
        while i < self.flags.len()
            invariant
                i <= self.flags.len(),
                forall|k: int| 0 <= k < i ==> self.flags@[k]@ != name@,
            decreases self.flags.len() - i,
        {
            if str_eq(self.flags[i].as_str(), name) {
                return true;
            }
            i = i + 1;
        }
        false
    }

    /// The value of the first parameter named `name`, when it is an integer.
    pub fn get_parameter_as_int(&self, name: &str) -> (r: Option<i64>)
        ensures
            r == int_parameter(self.parameters@, name@),
    {
        let mut i: usize = 0;
        assert(self.parameters@.skip(0) =~= self.parameters@);
        while i < self.parameters.len()
            invariant
                i <= self.parameters.len(),
                int_parameter(self.parameters@, name@) == int_parameter(self.parameters@.skip(i as int), name@),
            decreases self.parameters.len() - i,
        {
            assert(self.parameters@.skip(i as int).drop_first() =~= self.parameters@.skip(i + 1));
            if str_eq(self.parameters[i].name.as_str(), name) {
                return match &self.parameters[i].value {
                    ResolvedValue::Integer(v) => Some(*v),
                    _ => None,
                };
            }
            i = i + 1;
        }
        None
    }
}

/// Data field that a state field reads: the first explicit mapping, else the field name.
pub open spec fn mapped_name(maps: Seq<FieldMapping>, name: Seq<char>) -> Seq<char>
    decreases maps.len(),
{
    if maps.len() == 0 {
        name
    } else if maps[0].state_field@ == name {
        maps[0].data_field@
    } else {
        mapped_name(maps.drop_first(), name)
    }
}


impl CtnContract {
    /// The collected-data field that holds the value of state field `name`.
    pub fn map_state_field(&self, name: &str) -> (r: String)
        ensures
            r@ == mapped_name(self.state_to_data@, name@),
    {
        let mut i: usize = 0;
        assert(self.state_to_data@.skip(0) =~= self.state_to_data@);
        while i < self.state_to_data.len()
            invariant
                i <= self.state_to_data.len(),
                mapped_name(self.state_to_data@, name@) == mapped_name(
                    self.state_to_data@.skip(i as int),
                    name@,
                ),
            decreases self.state_to_data.len() - i,
        {
            assert(self.state_to_data@.skip(i as int).drop_first() =~= self.state_to_data@.skip(
                i + 1,
            ));
            if str_eq(self.state_to_data[i].state_field.as_str(), name) {
                return self.state_to_data[i].data_field.clone();
            }
            i = i + 1;
        }
        String::from_str(name)
    }
}

/// A field name with no explicit mapping reads the data field of the same name.
pub proof fn lemma_unmapped_field_uses_own_name(maps: Seq<FieldMapping>, name: Seq<char>)
    requires
        forall|i: int| 0 <= i < maps.len() ==> (#[trigger] maps[i]).state_field@ != name,
    ensures
        mapped_name(maps, name) == name,
    decreases maps.len(),
{
    if maps.len() > 0 {
        assert(maps[0].state_field@ != name);
        assert forall|i: int| 0 <= i < maps.drop_first().len() implies (
        #[trigger] maps.drop_first()[i]).state_field@ != name by {
            assert(maps.drop_first()[i] == maps[i + 1]);
        }
        lemma_unmapped_field_uses_own_name(maps.drop_first(), name);
    }
}

pub open spec fn names_of(v: Seq<String>) -> Seq<Seq<char>> {
    v.map_values(|s: String| s@)
}

/// A hint name that the contract declares: a behavior's name, or one of its parameters.
pub open spec fn declared(behaviors: Seq<SupportedBehavior>, name: Seq<char>) -> bool {
    exists|i: int|
        0 <= i < behaviors.len() && (#[trigger] behaviors[i].name@ == name || names_of(
            behaviors[i].parameters@,
        ).contains(name))
}

pub open spec fn hints_valid(behaviors: Seq<SupportedBehavior>, hints: BehaviorHints) -> bool {
    &&& forall|i: int| 0 <= i < hints.flags.len() ==> declared(behaviors, #[trigger] hints.flags@[i]@)
    &&& forall|i: int|
        0 <= i < hints.parameters.len() ==> declared(behaviors, #[trigger] hints.parameters@[i].name@)
}

/// Reasons that a collector could not produce data for an object.
#[derive(Debug, Clone)]
pub enum CollectionError {
    ObjectNotFound { object_id: String },
    AccessDenied { object_id: String, reason: String },
    InvalidObjectConfiguration { object_id: String, reason: String },
    CollectionFailed { object_id: String, reason: String },
    UnsupportedCtnType { ctn_type: String, collector_id: String },
    UnsupportedCollectionMode { collector_id: String, mode: String },
    CtnContractValidation { reason: String },
}

fn names_contain(v: &Vec<String>, name: &str) -> (r: bool)
    ensures
        r == names_of(v@).contains(name@),
{
    let mut i: usize = 0;
    while i < v.len()
        invariant
            i <= v.len(),
            forall|k: int| 0 <= k < i ==> v@[k]@ != name@,
        decreases v.len() - i,
    {
        if str_eq(v[i].as_str(), name) {
            assert(names_of(v@)[i as int] == name@);
            return true;
        }
        i = i + 1;
    }
    assert forall|k: int| 0 <= k < names_of(v@).len() implies names_of(v@)[k] != name@ by {
        assert(names_of(v@)[k] == v@[k]@);
    }
    false
}

fn behavior_declared(behaviors: &Vec<SupportedBehavior>, name: &str) -> (r: bool)
    ensures
        r == declared(behaviors@, name@),
{
    let mut i: usize = 0;
    while i < behaviors.len()
        invariant
            i <= behaviors.len(),
            forall|k: int|
                0 <= k < i ==> !(behaviors@[k].name@ == name@ || names_of(
                    behaviors@[k].parameters@,
                ).contains(name@)),
        decreases behaviors.len() - i,
    {
        if str_eq(behaviors[i].name.as_str(), name) || names_contain(&behaviors[i].parameters, name) {
            return true;
        }
        i = i + 1;
    }
    false
}

impl CtnContract {
    /// Checks that every hint names a behavior, or a behavior's parameter, that this
    /// contract declares.
    pub fn validate_behavior_hints(&self, hints: &BehaviorHints) -> (r: Result<(), CollectionError>)
        ensures
            r is Ok <==> hints_valid(self.supported_behaviors@, *hints),
            r matches Err(e) ==> e is CtnContractValidation,
    {
        let mut i: usize = 0;
        while i < hints.flags.len()
            invariant
                i <= hints.flags.len(),
                forall|k: int|
                    0 <= k < i ==> declared(self.supported_behaviors@, #[trigger] hints.flags@[k]@),
            decreases hints.flags.len() - i,
        {
            if !behavior_declared(&self.supported_behaviors, hints.flags[i].as_str()) {
                let mut reason = String::from_str("Unsupported behavior flag: ");
                reason.append(hints.flags[i].as_str());
                return Err(CollectionError::CtnContractValidation { reason });
            }
            i = i + 1;
        }
        let mut j: usize = 0;
        while j < hints.parameters.len()
            invariant
                j <= hints.parameters.len(),
                forall|k: int|
                    0 <= k < hints.flags.len() ==> declared(
                        self.supported_behaviors@,
                        #[trigger] hints.flags@[k]@,
                    ),
                forall|k: int|
                    0 <= k < j ==> declared(
                        self.supported_behaviors@,
                        #[trigger] hints.parameters@[k].name@,
                    ),
            decreases hints.parameters.len() - j,
        {
            if !behavior_declared(&self.supported_behaviors, hints.parameters[j].name.as_str()) {
                let mut reason = String::from_str("Unsupported behavior parameter: ");
                reason.append(hints.parameters[j].name.as_str());
                return Err(CollectionError::CtnContractValidation { reason });
            }
            j = j + 1;
        }
        Ok(())
    }
}

/// One resolved field of an object.
#[derive(Debug, Clone)]
pub struct ObjectField {
    pub name: String,
    pub value: ResolvedValue,
}

/// One object instance drawn from a policy: an identifier and its resolved fields.
#[derive(Debug, Clone)]
pub struct ExecutableObject {
    pub identifier: String,
    pub fields: Vec<ObjectField>,
}

/// Value of the first object field named `name`.
pub open spec fn object_lookup(fields: Seq<ObjectField>, name: Seq<char>) -> Option<ResolvedValue>
    decreases fields.len(),
{
    if fields.len() == 0 {
        None
    } else if fields[0].name@ == name {
        Some(fields[0].value)
    } else {
        object_lookup(fields.drop_first(), name)
    }
}

impl ExecutableObject {
    /// The value of the first field named `name`.
    pub fn get_field(&self, name: &str) -> (r: Option<ResolvedValue>)
        ensures
            r == object_lookup(self.fields@, name@),
    {
        let mut i: usize = 0;
        assert(self.fields@.skip(0) =~= self.fields@);
        while i < self.fields.len()
            invariant
                i <= self.fields.len(),
                object_lookup(self.fields@, name@) == object_lookup(self.fields@.skip(i as int), name@),
            decreases self.fields.len() - i,
        {
            assert(self.fields@.skip(i as int).drop_first() =~= self.fields@.skip(i + 1));
            if str_eq(self.fields[i].name.as_str(), name) {
                return Some(clone_value(&self.fields[i].value));
            }
            i = i + 1;
        }
        None
    }
}

/// Kind of operation a collector performed.
#[derive(Debug, Clone, Copy, PartialEq, Eq, Structural)]
pub enum CollectionMethodType {
    FileStat,
    FileRead,
    Command,
    SocketInspection,
    ApiCall,
    Computed,
}

/// A named input of a collection method.
#[derive(Debug, Clone)]
pub struct MethodInput {
    pub name: String,
    pub value: String,
}

/// What a collector did, kept for audit and reproduction.
#[derive(Debug, Clone)]
pub struct CollectionMethod {
    pub method_type: CollectionMethodType,
    pub description: String,
    pub target: String,
    pub command: Option<String>,
    pub inputs: Vec<MethodInput>,
}

/// One named, typed field of collected data.
#[derive(Debug, Clone)]
pub struct DataField {
    pub name: String,
    pub value: ResolvedValue,
}

/// What a collector gathered for one object.
#[derive(Debug, Clone)]
pub struct CollectedData {
    pub object_id: String,
    pub ctn_type: String,
    pub collector_id: String,
    pub fields: Vec<DataField>,
    pub method: Option<CollectionMethod>,
}

/// Value of the first field named `name`.
pub open spec fn lookup(fields: Seq<DataField>, name: Seq<char>) -> Option<ResolvedValue>
    decreases fields.len(),
{
    if fields.len() == 0 {
        None
    } else if fields[0].name@ == name {
        Some(fields[0].value)
    } else {
        lookup(fields.drop_first(), name)
    }
}

proof fn lemma_lookup_push(fields: Seq<DataField>, f: DataField, name: Seq<char>)
    ensures
        lookup(fields.push(f), name) == (if lookup(fields, name) is Some {
            lookup(fields, name)
        } else if f.name@ == name {
            Some(f.value)
        } else {
            None
        }),
    decreases fields.len(),
{
    if fields.len() > 0 {
        assert(fields.push(f).drop_first() =~= fields.drop_first().push(f));
        assert(fields.push(f)[0] == fields[0]);
        lemma_lookup_push(fields.drop_first(), f, name);
    } else {
        assert(fields.push(f).drop_first() =~= Seq::<DataField>::empty());
        assert(fields.push(f)[0] == f);
        assert(lookup(Seq::<DataField>::empty(), name) is None);
    }
}

proof fn lemma_lookup_update(fields: Seq<DataField>, k: int, f: DataField, name: Seq<char>)
    requires
        0 <= k < fields.len(),
        fields[k].name@ == f.name@,
        forall|j: int| 0 <= j < k ==> (#[trigger] fields[j]).name@ != f.name@,
    ensures
        lookup(fields.update(k, f), name) == (if f.name@ == name {
            Some(f.value)
        } else {
            lookup(fields, name)
        }),
    decreases fields.len(),
{
    if k > 0 {
        assert(fields.update(k, f).drop_first() =~= fields.drop_first().update(k - 1, f));
        assert forall|j: int| 0 <= j < k - 1 implies (#[trigger] fields.drop_first()[j]).name@
            != f.name@ by {
            assert(fields.drop_first()[j] == fields[j + 1]);
        }
        assert(fields[0].name@ != f.name@);
        lemma_lookup_update(fields.drop_first(), k - 1, f, name);
    } else {
        assert(fields.update(k, f).drop_first() =~= fields.drop_first());
    }
}

impl CollectedData {
    /// Empty data for an object, with no method recorded yet.
    pub fn new(object_id: String, ctn_type: String, collector_id: String) -> (r: Self)
        ensures
            r.object_id == object_id,
            r.ctn_type == ctn_type,
            r.collector_id == collector_id,
            r.fields@.len() == 0,
            r.method is None,
    {
        CollectedData { object_id, ctn_type, collector_id, fields: Vec::new(), method: None }
    }

    /// Records how the data was collected.
    pub fn set_method(&mut self, method: CollectionMethod)
        ensures
            final(self).method == Some(method),
            final(self).fields == old(self).fields,
            final(self).object_id == old(self).object_id,
            final(self).ctn_type == old(self).ctn_type,
            final(self).collector_id == old(self).collector_id,
    {
        self.method = Some(method);
    }

    /// The value of field `name`, if collected.
    pub fn get_field(&self, name: &str) -> (r: Option<ResolvedValue>)
        ensures
            r == lookup(self.fields@, name@),
    {
        let mut i: usize = 0;
        assert(self.fields@.skip(0) =~= self.fields@);
        while i < self.fields.len()
            invariant
                i <= self.fields.len(),
                lookup(self.fields@, name@) == lookup(self.fields@.skip(i as int), name@),
            decreases self.fields.len() - i,
        {
            assert(self.fields@.skip(i as int).drop_first() =~= self.fields@.skip(i + 1));
            if str_eq(self.fields[i].name.as_str(), name) {
                return Some(clone_value(&self.fields[i].value));
            }
            i = i + 1;
        }
        None
    }

    /// Whether field `name` was collected.
    pub fn has_field(&self, name: &str) -> (r: bool)
        ensures
            r == lookup(self.fields@, name@) is Some,
    {
        self.get_field(name).is_some()
    }

    /// Sets field `name` to `value`, replacing any earlier value.
    pub fn add_field(&mut self, name: String, value: ResolvedValue)
        ensures
            forall|n: Seq<char>|
                lookup(final(self).fields@, n) == (if n == name@ {
                    Some(value)
                } else {
                    lookup(old(self).fields@, n)
                }),
            final(self).object_id == old(self).object_id,
            final(self).ctn_type == old(self).ctn_type,
            final(self).collector_id == old(self).collector_id,
            final(self).method == old(self).method,
    {
        let mut i: usize = 0;
        while i < self.fields.len()
            invariant
                i <= self.fields.len(),
                *self == *old(self),
                forall|j: int| 0 <= j < i ==> (#[trigger] self.fields@[j]).name@ != name@,
            decreases self.fields.len() - i,
        {
            if str_eq(self.fields[i].name.as_str(), name.as_str()) {
                let ghost old_fields = self.fields@;
                let f = DataField { name, value };
                proof {
                    assert forall|n: Seq<char>|
                        lookup(old_fields.update(i as int, f), n) == (if n == f.name@ {
                            Some(f.value)
                        } else {
                            lookup(old_fields, n)
                        }) by {
                        lemma_lookup_update(old_fields, i as int, f, n);
                    }
                }
                self.fields.set(i, f);
                return ;
            }
            i = i + 1;
        }
        let ghost old_fields = self.fields@;
        proof {
            assert forall|n: Seq<char>| n == name@ implies lookup(old_fields, n) is None by {
                lemma_lookup_absent(old_fields, n);
            }
        }
        let f = DataField { name, value };
        proof {
            assert forall|n: Seq<char>|
                lookup(old_fields.push(f), n) == (if n == f.name@ {
                    Some(f.value)
                } else {
                    lookup(old_fields, n)
                }) by {
                lemma_lookup_push(old_fields, f, n);
            }
        }
        self.fields.push(f);
    }
}

proof fn lemma_lookup_absent(fields: Seq<DataField>, name: Seq<char>)
    requires
        forall|j: int| 0 <= j < fields.len() ==> (#[trigger] fields[j]).name@ != name,
    ensures
        lookup(fields, name) is None,
    decreases fields.len(),
{
    if fields.len() > 0 {
        assert forall|j: int| 0 <= j < fields.drop_first().len() implies (
        #[trigger] fields.drop_first()[j]).name@ != name by {
            assert(fields.drop_first()[j] == fields[j + 1]);
        }
        lemma_lookup_absent(fields.drop_first(), name);
    }
}

} // verus!
