use vstd::prelude::*;
use vstd::string::*;

use crate::data::{
    CollectionMode, CollectionStrategy, CtnContract, DataType, FieldMapping, StateFieldSpec,
    SupportedBehavior,
};
use crate::values::Operation;

verus! {

pub open spec fn mappings_view(m: Seq<FieldMapping>) -> Seq<(Seq<char>, Seq<char>)> {
    m.map_values(|f: FieldMapping| (f.state_field@, f.data_field@))
}

pub open spec fn strings_view(v: Seq<String>) -> Seq<Seq<char>> {
    v.map_values(|s: String| s@)
}

fn add_mapping(maps: &mut Vec<FieldMapping>, state_field: &str, data_field: &str)
    ensures
        mappings_view(final(maps)@) == mappings_view(old(maps)@).push((state_field@, data_field@)),
{
    maps.push(FieldMapping { state_field: String::from_str(state_field), data_field: String::from_str(data_field) });
    assert(mappings_view(maps@) =~= mappings_view(old(maps)@).push((state_field@, data_field@)));
}

fn add_name(v: &mut Vec<String>, name: &str)
    ensures
        strings_view(final(v)@) == strings_view(old(v)@).push(name@),
{
    v.push(String::from_str(name));
    assert(strings_view(v@) =~= strings_view(old(v)@).push(name@));
}

fn flag(name: &str) -> (r: SupportedBehavior)
    ensures
        r.name@ == name@,
        r.parameters@.len() == 0,
{
    SupportedBehavior { name: String::from_str(name), parameters: Vec::new() }
}

pub open spec fn specs_view(v: Seq<StateFieldSpec>) -> Seq<(Seq<char>, DataType, Seq<Operation>)> {
    v.map_values(|f: StateFieldSpec| (f.name@, f.data_type, f.allowed_operations@))
}

pub open spec fn eq_ops() -> Seq<Operation> {
    seq![Operation::Equals, Operation::NotEqual]
}

pub open spec fn ordered_ops() -> Seq<Operation> {
    seq![
        Operation::Equals,
        Operation::NotEqual,
        Operation::GreaterThan,
        Operation::LessThan,
        Operation::GreaterThanOrEqual,
        Operation::LessThanOrEqual,
    ]
}

pub open spec fn text_ops() -> Seq<Operation> {
    seq![
        Operation::Equals,
        Operation::NotEqual,
        Operation::Contains,
        Operation::NotContains,
        Operation::StartsWith,
        Operation::EndsWith,
    ]
}

fn eq_op_list() -> (r: Vec<Operation>)
    ensures
        r@ == eq_ops(),
{
    let mut v: Vec<Operation> = Vec::new();
    v.push(Operation::Equals);
    v.push(Operation::NotEqual);
    assert(v@ =~= eq_ops());
    v
}

fn ordered_op_list() -> (r: Vec<Operation>)
    ensures
        r@ == ordered_ops(),
{
    let mut v = eq_op_list();
    v.push(Operation::GreaterThan);
    v.push(Operation::LessThan);
    v.push(Operation::GreaterThanOrEqual);
    v.push(Operation::LessThanOrEqual);
    assert(v@ =~= ordered_ops());
    v
}

fn text_op_list() -> (r: Vec<Operation>)
    ensures
        r@ == text_ops(),
{
    let mut v = eq_op_list();
    v.push(Operation::Contains);
    v.push(Operation::NotContains);
    v.push(Operation::StartsWith);
    v.push(Operation::EndsWith);
    assert(v@ =~= text_ops());
    v
}

fn add_state(v: &mut Vec<StateFieldSpec>, name: &str, data_type: DataType, ops: Vec<Operation>)
    ensures
        specs_view(final(v)@) == specs_view(old(v)@).push((name@, data_type, ops@)),
{
    v.push(StateFieldSpec { name: String::from_str(name), data_type, allowed_operations: ops });
    assert(specs_view(v@) =~= specs_view(old(v)@).push((name@, data_type, ops@)));
}

fn empty_contract(ctn_type: &str, collector_type: &str, mode: CollectionMode, capabilities: Vec<String>) -> (r: CtnContract)
    ensures
        r.ctn_type@ == ctn_type@,
        r.collection_strategy.collector_type@ == collector_type@,
        r.collection_strategy.collection_mode == mode,
        r.collection_strategy.required_capabilities == capabilities,
        r.state_requirements@.len() == 0,
        r.state_to_data@.len() == 0,
        r.required_data_fields@.len() == 0,
        r.supported_behaviors@.len() == 0,
{
    CtnContract {
        ctn_type: String::from_str(ctn_type),
        required_object_fields: Vec::new(),
        optional_object_fields: Vec::new(),
        state_requirements: Vec::new(),
        state_to_data: Vec::new(),
        required_data_fields: Vec::new(),
        optional_data_fields: Vec::new(),
        collection_strategy: CollectionStrategy {
            collector_type: String::from_str(collector_type),
            collection_mode: mode,
            required_capabilities: capabilities,
        },
        supported_behaviors: Vec::new(),
    }
}

fn one_name(name: &str) -> (r: Vec<String>)
    ensures
        strings_view(r@) == seq![name@],
{
    let mut v: Vec<String> = Vec::new();
    add_name(&mut v, name);
    assert(strings_view(v@) =~= seq![name@]);
    v
}

pub open spec fn metadata_required_fields() -> Seq<Seq<char>> {
    seq![
        "exists"@,
        "readable"@,
        "writable"@,
        "file_size"@,
        "is_directory"@,
        "file_owner"@,
        "file_group"@,
        "file_mode"@,
        "is_readonly"@,
        "is_hidden"@,
        "is_system"@,
    ]
}

pub open spec fn file_metadata_states() -> Seq<(Seq<char>, DataType, Seq<Operation>)> {
    seq![
        ("exists"@, DataType::Boolean, eq_ops()),
        ("readable"@, DataType::Boolean, eq_ops()),
        ("writable"@, DataType::Boolean, eq_ops()),
        ("size"@, DataType::Int, ordered_ops()),
        ("is_directory"@, DataType::Boolean, eq_ops()),
        ("owner_id"@, DataType::String, eq_ops()),
        ("group_id"@, DataType::String, eq_ops()),
        ("permissions"@, DataType::String, eq_ops()),
        ("is_readonly"@, DataType::Boolean, eq_ops()),
        ("is_hidden"@, DataType::Boolean, eq_ops()),
        ("is_system"@, DataType::Boolean, eq_ops()),
    ]
}

pub open spec fn file_metadata_mappings() -> Seq<(Seq<char>, Seq<char>)> {
    seq![
        ("exists"@, "exists"@),
        ("readable"@, "readable"@),
        ("writable"@, "writable"@),
        ("size"@, "file_size"@),
        ("is_directory"@, "is_directory"@),
        ("owner_id"@, "file_owner"@),
        ("group_id"@, "file_group"@),
        ("permissions"@, "file_mode"@),
        ("is_readonly"@, "is_readonly"@),
        ("is_hidden"@, "is_hidden"@),
        ("is_system"@, "is_system"@),
    ]
}

/// Contract of file metadata checks: a `path` object, and state fields read from the
/// metadata that the filesystem collector always sets.
pub fn create_file_metadata_contract() -> (r: CtnContract)
    ensures
        r.ctn_type@ == "file_metadata"@,
        mappings_view(r.state_to_data@) == file_metadata_mappings(),
        strings_view(r.required_data_fields@) == metadata_required_fields(),
        specs_view(r.state_requirements@) == file_metadata_states(),
        r.collection_strategy.collector_type@ == "filesystem"@,
        r.collection_strategy.collection_mode == CollectionMode::Metadata,
{
    let mut c = empty_contract("file_metadata", "filesystem", CollectionMode::Metadata, one_name("file_access"));
    let mut states: Vec<StateFieldSpec> = Vec::new();
    add_state(&mut states, "exists", DataType::Boolean, eq_op_list());
    add_state(&mut states, "readable", DataType::Boolean, eq_op_list());
    add_state(&mut states, "writable", DataType::Boolean, eq_op_list());
    add_state(&mut states, "size", DataType::Int, ordered_op_list());
    add_state(&mut states, "is_directory", DataType::Boolean, eq_op_list());
    add_state(&mut states, "owner_id", DataType::String, eq_op_list());
    add_state(&mut states, "group_id", DataType::String, eq_op_list());
    add_state(&mut states, "permissions", DataType::String, eq_op_list());
    add_state(&mut states, "is_readonly", DataType::Boolean, eq_op_list());
    add_state(&mut states, "is_hidden", DataType::Boolean, eq_op_list());
    add_state(&mut states, "is_system", DataType::Boolean, eq_op_list());
    assert(specs_view(states@) =~= file_metadata_states());
    c.state_requirements = states;
    add_name(&mut c.required_object_fields, "path");
    add_name(&mut c.optional_object_fields, "type");
    let mut maps: Vec<FieldMapping> = Vec::new();
    add_mapping(&mut maps, "exists", "exists");
    add_mapping(&mut maps, "readable", "readable");
    add_mapping(&mut maps, "writable", "writable");
    add_mapping(&mut maps, "size", "file_size");
    add_mapping(&mut maps, "is_directory", "is_directory");
    add_mapping(&mut maps, "owner_id", "file_owner");
    add_mapping(&mut maps, "group_id", "file_group");
    add_mapping(&mut maps, "permissions", "file_mode");
    add_mapping(&mut maps, "is_readonly", "is_readonly");
    add_mapping(&mut maps, "is_hidden", "is_hidden");
    add_mapping(&mut maps, "is_system", "is_system");
    assert(mappings_view(maps@) =~= file_metadata_mappings());
    c.state_to_data = maps;
    let mut req: Vec<String> = Vec::new();
    add_name(&mut req, "exists");
    add_name(&mut req, "readable");
    add_name(&mut req, "writable");
    add_name(&mut req, "file_size");
    add_name(&mut req, "is_directory");
    add_name(&mut req, "file_owner");
    add_name(&mut req, "file_group");
    add_name(&mut req, "file_mode");
    add_name(&mut req, "is_readonly");
    add_name(&mut req, "is_hidden");
    add_name(&mut req, "is_system");
    assert(strings_view(req@) =~= metadata_required_fields());
    c.required_data_fields = req;
    c
}

/// Contract of file content checks: a `path` object and a `content` state field read
/// from `file_content`, with the recursive-scan behaviors.
pub fn create_file_content_contract() -> (r: CtnContract)
    ensures
        r.ctn_type@ == "file_content"@,
        mappings_view(r.state_to_data@) == seq![("content"@, "file_content"@)],
        strings_view(r.required_data_fields@) == seq!["file_content"@],
        specs_view(r.state_requirements@) == seq![("content"@, DataType::String, text_ops())],
        r.collection_strategy.collector_type@ == "filesystem"@,
        r.collection_strategy.collection_mode == CollectionMode::Content,
{
    let mut c = empty_contract("file_content", "filesystem", CollectionMode::Content, one_name("file_access"));
    let mut states: Vec<StateFieldSpec> = Vec::new();
    add_state(&mut states, "content", DataType::String, text_op_list());
    assert(specs_view(states@) =~= seq![("content"@, DataType::String, text_ops())]);
    c.state_requirements = states;
    add_name(&mut c.required_object_fields, "path");
    add_name(&mut c.optional_object_fields, "type");
    let mut maps: Vec<FieldMapping> = Vec::new();
    add_mapping(&mut maps, "content", "file_content");
    assert(mappings_view(maps@) =~= seq![("content"@, "file_content"@)]);
    c.state_to_data = maps;
    let mut req: Vec<String> = Vec::new();
    add_name(&mut req, "file_content");
    assert(strings_view(req@) =~= seq!["file_content"@]);
    c.required_data_fields = req;
    let mut recursive = flag("recursive_scan");
    recursive.parameters.push(String::from_str("max_depth"));
    c.supported_behaviors.push(recursive);
    c.supported_behaviors.push(flag("include_hidden"));
    c.supported_behaviors.push(flag("binary_mode"));
    c.supported_behaviors.push(flag("follow_symlinks"));
    c
}

/// Contract of JSON record checks: a `path` object and a `record` state read from
/// `json_data`.
pub fn create_json_record_contract() -> (r: CtnContract)
    ensures
        r.ctn_type@ == "json_record"@,
        mappings_view(r.state_to_data@) == seq![("record"@, "json_data"@)],
        strings_view(r.required_data_fields@) == seq!["json_data"@],
        specs_view(r.state_requirements@) == seq![("record"@, DataType::RecordData, seq![Operation::Equals])],
        r.collection_strategy.collector_type@ == "filesystem"@,
        r.collection_strategy.collection_mode == CollectionMode::Content,
{
    let mut caps = one_name("file_access");
    add_name(&mut caps, "json_parsing");
    let mut c = empty_contract("json_record", "filesystem", CollectionMode::Content, caps);
    let mut states: Vec<StateFieldSpec> = Vec::new();
    let mut record_ops: Vec<Operation> = Vec::new();
    record_ops.push(Operation::Equals);
    add_state(&mut states, "record", DataType::RecordData, record_ops);
    assert(specs_view(states@) =~= seq![("record"@, DataType::RecordData, seq![Operation::Equals])]);
    c.state_requirements = states;
    add_name(&mut c.required_object_fields, "path");
    let mut maps: Vec<FieldMapping> = Vec::new();
    add_mapping(&mut maps, "record", "json_data");
    assert(mappings_view(maps@) =~= seq![("record"@, "json_data"@)]);
    c.state_to_data = maps;
    let mut req: Vec<String> = Vec::new();
    add_name(&mut req, "json_data");
    assert(strings_view(req@) =~= seq!["json_data"@]);
    c.required_data_fields = req;
    c
}

/// Contract of TCP listener checks: a `port` object with an optional `host`, and the
/// `listening` and `local_address` states.
pub fn create_tcp_listener_contract() -> (r: CtnContract)
    ensures
        r.ctn_type@ == "tcp_listener"@,
        mappings_view(r.state_to_data@) == seq![
            ("listening"@, "listening"@),
            ("local_address"@, "local_address"@),
        ],
        strings_view(r.required_data_fields@) == seq!["listening"@],
        specs_view(r.state_requirements@) == seq![("listening"@, DataType::Boolean, eq_ops())],
        r.collection_strategy.collector_type@ == "tcp_listener"@,
        r.collection_strategy.collection_mode == CollectionMode::Metadata,
{
    let mut c = empty_contract("tcp_listener", "tcp_listener", CollectionMode::Metadata, one_name("procfs_access"));
    let mut states: Vec<StateFieldSpec> = Vec::new();
    add_state(&mut states, "listening", DataType::Boolean, eq_op_list());
    assert(specs_view(states@) =~= seq![("listening"@, DataType::Boolean, eq_ops())]);
    c.state_requirements = states;
    add_name(&mut c.required_object_fields, "port");
    add_name(&mut c.optional_object_fields, "host");
    let mut maps: Vec<FieldMapping> = Vec::new();
    add_mapping(&mut maps, "listening", "listening");
    add_mapping(&mut maps, "local_address", "local_address");
    assert(mappings_view(maps@) =~= seq![
        ("listening"@, "listening"@),
        ("local_address"@, "local_address"@),
    ]);
    c.state_to_data = maps;
    let mut req: Vec<String> = Vec::new();
    add_name(&mut req, "listening");
    assert(strings_view(req@) =~= seq!["listening"@]);
    c.required_data_fields = req;
    add_name(&mut c.optional_data_fields, "local_address");
    c
}

/// Contract of Kubernetes resource checks: a `kind` object with optional namespace,
/// name, name prefix and label selector, and the `found`, `count` and `record` states.
pub fn create_k8s_resource_contract() -> (r: CtnContract)
    ensures
        r.ctn_type@ == "k8s_resource"@,
        mappings_view(r.state_to_data@) == seq![
            ("found"@, "found"@),
            ("count"@, "count"@),
            ("record"@, "resource"@),
        ],
        strings_view(r.required_data_fields@) == seq!["found"@],
        specs_view(r.state_requirements@) == seq![
            ("record"@, DataType::RecordData, seq![Operation::Equals]),
            ("found"@, DataType::Boolean, eq_ops()),
            ("count"@, DataType::Int, ordered_ops()),
        ],
        r.collection_strategy.collector_type@ == "k8s_resource"@,
        r.collection_strategy.collection_mode == CollectionMode::Content,
{
    let mut c = empty_contract("k8s_resource", "k8s_resource", CollectionMode::Content, one_name("kubectl_access"));
    let mut states: Vec<StateFieldSpec> = Vec::new();
    let mut record_ops: Vec<Operation> = Vec::new();
    record_ops.push(Operation::Equals);
    add_state(&mut states, "record", DataType::RecordData, record_ops);
    add_state(&mut states, "found", DataType::Boolean, eq_op_list());
    add_state(&mut states, "count", DataType::Int, ordered_op_list());
    assert(specs_view(states@) =~= seq![
        ("record"@, DataType::RecordData, seq![Operation::Equals]),
        ("found"@, DataType::Boolean, eq_ops()),
        ("count"@, DataType::Int, ordered_ops()),
    ]);
    c.state_requirements = states;
    add_name(&mut c.required_object_fields, "kind");
    add_name(&mut c.optional_object_fields, "namespace");
    add_name(&mut c.optional_object_fields, "name");
    add_name(&mut c.optional_object_fields, "name_prefix");
    add_name(&mut c.optional_object_fields, "label_selector");
    let mut maps: Vec<FieldMapping> = Vec::new();
    add_mapping(&mut maps, "found", "found");
    add_mapping(&mut maps, "count", "count");
    add_mapping(&mut maps, "record", "resource");
    assert(mappings_view(maps@) =~= seq![
        ("found"@, "found"@),
        ("count"@, "count"@),
        ("record"@, "resource"@),
    ]);
    c.state_to_data = maps;
    let req = one_name("found");
    c.required_data_fields = req;
    let mut timeout = flag("timeout");
    timeout.parameters.push(String::from_str("timeout"));
    c.supported_behaviors.push(timeout);
    c
}

/// Contract of computed-value checks: no object fields are read and a marker field is
/// the only required data.
pub fn create_computed_values_contract() -> (r: CtnContract)
    ensures
        r.ctn_type@ == "computed_values"@,
        r.state_to_data@.len() == 0,
        strings_view(r.required_data_fields@) == seq!["_validation_marker"@],
        specs_view(r.state_requirements@) == seq![
            ("*"@, DataType::String, text_ops()),
            ("*_int"@, DataType::Int, ordered_ops()),
            ("*_bool"@, DataType::Boolean, eq_ops()),
        ],
        r.collection_strategy.collector_type@ == "computed_values"@,
        r.collection_strategy.collection_mode == CollectionMode::Metadata,
{
    let mut c = empty_contract("computed_values", "computed_values", CollectionMode::Metadata, Vec::new());
    let mut states: Vec<StateFieldSpec> = Vec::new();
    add_state(&mut states, "*", DataType::String, text_op_list());
    add_state(&mut states, "*_int", DataType::Int, ordered_op_list());
    add_state(&mut states, "*_bool", DataType::Boolean, eq_op_list());
    assert(specs_view(states@) =~= seq![
        ("*"@, DataType::String, text_ops()),
        ("*_int"@, DataType::Int, ordered_ops()),
        ("*_bool"@, DataType::Boolean, eq_ops()),
    ]);
    c.state_requirements = states;
    add_name(&mut c.optional_object_fields, "type");
    add_name(&mut c.optional_object_fields, "description");
    let mut req: Vec<String> = Vec::new();
    add_name(&mut req, "_validation_marker");
    assert(strings_view(req@) =~= seq!["_validation_marker"@]);
    c.required_data_fields = req;
    c
}

} // verus!
