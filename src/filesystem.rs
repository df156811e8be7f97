use vstd::prelude::*;
use vstd::string::*;

use crate::data::{
    lookup, object_lookup, CollectedData, CollectionError, CollectionMethod,
    CollectionMethodType, CtnContract, ExecutableObject,
};
use crate::data::{has_flag_spec, int_parameter, BehaviorHints};
use crate::text::{decimal_of, has_prefix, str_eq, u64_to_decimal};
use crate::values::ResolvedValue;

verus! {

/// File metadata as the platform reports it. Fields that a platform lacks are empty or
/// false: `file_mode` off POSIX, the attribute flags off Windows.
#[derive(Debug, Clone)]
pub struct FileMetadata {
    pub exists: bool,
    pub readable: bool,
    pub writable: bool,
    pub file_size: u64,
    pub is_directory: bool,
    pub file_owner: String,
    pub file_group: String,
    pub file_mode: String,
    pub is_readonly: bool,
    pub is_hidden: bool,
    pub is_system: bool,
}

impl FileMetadata {
    /// The metadata of a path that does not exist.
    pub fn missing() -> (r: Self)
        ensures
            !r.exists && !r.readable && !r.writable && r.file_size == 0 && !r.is_directory,
            r.file_owner@.len() == 0 && r.file_group@.len() == 0 && r.file_mode@.len() == 0,
            !r.is_readonly && !r.is_hidden && !r.is_system,
    {
        FileMetadata {
            exists: false,
            readable: false,
            writable: false,
            file_size: 0,
            is_directory: false,
            file_owner: String::new(),
            file_group: String::new(),
            file_mode: String::new(),
            is_readonly: false,
            is_hidden: false,
            is_system: false,
        }
    }
}

/// Errors of the file-system probes.
#[derive(Debug, Clone)]
pub enum FileSystemError {
    NotFound(String),
    AccessDenied(String),
    WindowsError(String, u32),
    InvalidPath(String),
}

impl FileSystemError {
    /// The message of this error.
    pub fn to_string(&self) -> (r: String)
        ensures
            r@ == match self {
                FileSystemError::NotFound(p) => "File not found: "@ + p@,
                FileSystemError::AccessDenied(p) => "Access denied: "@ + p@,
                FileSystemError::WindowsError(m, _) => "Windows error: "@ + m@,
                FileSystemError::InvalidPath(p) => "Invalid path: "@ + p@,
            },
    {
        let (head, detail) = match self {
            FileSystemError::NotFound(p) => ("File not found: ", p),
            FileSystemError::AccessDenied(p) => ("Access denied: ", p),
            FileSystemError::WindowsError(m, _) => ("Windows error: ", m),
            FileSystemError::InvalidPath(p) => ("Invalid path: ", p),
        };
        let mut r = String::from_str(head);
        r.append(detail.as_str());
        r
    }
}

pub open spec fn bool_field(d: CollectedData, name: Seq<char>, b: bool) -> bool {
    lookup(d.fields@, name) == Some(ResolvedValue::Boolean(b))
}

pub open spec fn int_field(d: CollectedData, name: Seq<char>, i: int) -> bool {
    lookup(d.fields@, name) matches Some(ResolvedValue::Integer(x)) && x as int == i
}

pub open spec fn str_field(d: CollectedData, name: Seq<char>, s: Seq<char>) -> bool {
    lookup(d.fields@, name) matches Some(ResolvedValue::String(x)) && x@ == s
}

/// The fields that file-metadata collection always sets.
pub open spec fn metadata_field_names() -> Seq<Seq<char>> {
    seq![
        "exists"@,
        "readable"@,
        "writable"@,
        "file_size"@,
        "is_directory"@,
        "file_owner"@,
        "file_group"@,
        "file_mode"@,
        "is_readonly"@,
        "is_hidden"@,
        "is_system"@,
    ]
}

/// Collected metadata fields: those of the metadata when the path exists, else false,
/// zero and empty.
pub open spec fn metadata_fields_match(d: CollectedData, m: FileMetadata) -> bool {
    &&& bool_field(d, "exists"@, m.exists)
    &&& bool_field(d, "readable"@, m.exists && m.readable)
    &&& bool_field(d, "writable"@, m.exists && m.writable)
    &&& int_field(
        d,
        "file_size"@,
        if m.exists {
            m.file_size as i64 as int
        } else {
            0
        },
    )
    &&& bool_field(d, "is_directory"@, m.exists && m.is_directory)
    &&& str_field(
        d,
        "file_owner"@,
        if m.exists {
            m.file_owner@
        } else {
            Seq::empty()
        },
    )
    &&& str_field(
        d,
        "file_group"@,
        if m.exists {
            m.file_group@
        } else {
            Seq::empty()
        },
    )
    &&& str_field(
        d,
        "file_mode"@,
        if m.exists {
            m.file_mode@
        } else {
            Seq::empty()
        },
    )
    &&& bool_field(d, "is_readonly"@, m.exists && m.is_readonly)
    &&& bool_field(d, "is_hidden"@, m.exists && m.is_hidden)
    &&& bool_field(d, "is_system"@, m.exists && m.is_system)
}

/// Collector for file metadata and content.
pub struct FileSystemCollector {
    pub id: String,
}

pub open spec fn path_of(fields: Seq<crate::data::ObjectField>) -> Option<Seq<char>> {
    match object_lookup(fields, "path"@) {
        Some(ResolvedValue::String(s)) => Some(s@),
        _ => None,
    }
}

/// The failure of a collection that read a path.
pub open spec fn read_failure(e: FileSystemError, c: CollectionError, object_id: Seq<char>) -> bool {
    match e {
        FileSystemError::NotFound(_) => c matches CollectionError::ObjectNotFound { object_id: id }
            && id@ == object_id,
        FileSystemError::AccessDenied(_) => c matches CollectionError::AccessDenied { object_id: id, .. }
            && id@ == object_id,
        _ => c matches CollectionError::CollectionFailed { object_id: id, .. } && id@ == object_id,
    }
}

impl FileSystemCollector {
    pub fn new() -> (r: Self)
        ensures
            r.id@ == "filesystem_collector"@,
    {
        FileSystemCollector { id: String::from_str("filesystem_collector") }
    }

    pub fn collector_id(&self) -> (r: &str)
        ensures
            r@ == self.id@,
    {
        self.id.as_str()
    }

    pub fn supports_batch_collection(&self) -> (r: bool)
        ensures
            !r,
    {
        false
    }

    pub fn supported_ctn_types(&self) -> (r: Vec<String>)
        ensures
            r@.len() == 3,
            r@[0]@ == "file_metadata"@,
            r@[1]@ == "file_content"@,
            r@[2]@ == "json_record"@,
    {
        let mut v: Vec<String> = Vec::new();
        v.push(String::from_str("file_metadata"));
        v.push(String::from_str("file_content"));
        v.push(String::from_str("json_record"));
        v
    }

    /// Refuses a contract of a criterion type this collector does not serve.
    pub fn validate_ctn_compatibility(&self, contract: &CtnContract) -> (r: Result<(), CollectionError>)
        ensures
            r is Ok <==> (contract.ctn_type@ == "file_metadata"@ || contract.ctn_type@
                == "file_content"@ || contract.ctn_type@ == "json_record"@),
            r matches Err(e) ==> e is CtnContractValidation,
    {
        let t = contract.ctn_type.as_str();
        if str_eq(t, "file_metadata") || str_eq(t, "file_content") || str_eq(t, "json_record") {
            Ok(())
        } else {
            let mut reason = String::from_str("CTN type '");
            reason.append(t);
            reason.append("' not supported");
            Err(CollectionError::CtnContractValidation { reason })
        }
    }

    /// The path an object names.
    pub fn extract_path(&self, object: &ExecutableObject) -> (r: Result<String, CollectionError>)
        ensures
            r matches Ok(p) ==> path_of(object.fields@) == Some(p@),
            r is Err ==> path_of(object.fields@) is None,
            r matches Err(e) ==> e is InvalidObjectConfiguration,
    {
        match object.get_field("path") {
            Some(ResolvedValue::String(s)) => Ok(s),
            Some(_) => Err(
                CollectionError::InvalidObjectConfiguration {
                    object_id: object.identifier.clone(),
                    reason: String::from_str("'path' field must be a string"),
                },
            ),
            None => Err(
                CollectionError::InvalidObjectConfiguration {
                    object_id: object.identifier.clone(),
                    reason: String::from_str("Missing required 'path' field"),
                },
            ),
        }
    }

    /// Turns the metadata probe's answer for a path into collected data. A path that does
    /// not exist is no error: its data says `exists = false`. Every metadata field is set
    /// on every platform.
    pub fn collect_metadata(
        &self,
        path: &str,
        object_id: &str,
        probe: Result<FileMetadata, FileSystemError>,
    ) -> (r: Result<CollectedData, CollectionError>)
        ensures
            probe is Ok <==> r is Ok,
            probe matches Err(e) ==> (r matches Err(c) && read_failure(e, c, object_id@)),
            probe matches Ok(m) ==> (r matches Ok(d) && metadata_fields_match(d, m)
                && d.object_id@ == object_id@ && d.ctn_type@ == "file_metadata"@),
    {
        let m = match probe {
            Ok(m) => m,
            Err(e) => {
                return Err(map_read_error(e, object_id));
            },
        };
        let mut data = CollectedData::new(
            String::from_str(object_id),
            String::from_str("file_metadata"),
            self.id.clone(),
        );
        data.set_method(
            CollectionMethod {
                method_type: CollectionMethodType::FileStat,
                description: String::from_str("Query file metadata"),
                target: String::from_str(path),
                command: None,
                inputs: Vec::new(),
            },
        );
        let e = m.exists;
        let shown = if e {
            m
        } else {
            FileMetadata::missing()
        };
        let ghost data0 = data;
        proof {
            assert(data.fields@ =~= Seq::<crate::data::DataField>::empty());
        }
        let ghost sh = shown;
        fill_metadata_fields(&mut data, e, shown);
        proof {
            if !e {
                assert(sh.file_owner@ =~= Seq::<char>::empty());
                assert(sh.file_group@ =~= Seq::<char>::empty());
                assert(sh.file_mode@ =~= Seq::<char>::empty());
            }
        }
        Ok(data)
    }

    /// Turns the content read of a path into collected data, or into the matching
    /// collection error: a missing path is `ObjectNotFound`, a permission failure
    /// `AccessDenied`, anything else `CollectionFailed`.
    pub fn collect_content(
        &self,
        path: &str,
        object_id: &str,
        read: Result<String, FileSystemError>,
    ) -> (r: Result<CollectedData, CollectionError>)
        ensures
            read is Ok <==> r is Ok,
            read matches Err(e) ==> (r matches Err(c) && read_failure(e, c, object_id@)),
            read matches Ok(text) ==> (r matches Ok(d) && str_field(d, "file_content"@, text@)
                && d.object_id@ == object_id@ && d.ctn_type@ == "file_content"@),
    {
        let text = match read {
            Ok(t) => t,
            Err(e) => {
                return Err(map_read_error(e, object_id));
            },
        };
        let mut data = CollectedData::new(
            String::from_str(object_id),
            String::from_str("file_content"),
            self.id.clone(),
        );
        data.set_method(
            CollectionMethod {
                method_type: CollectionMethodType::FileRead,
                description: String::from_str("Read file contents"),
                target: String::from_str(path),
                command: None,
                inputs: Vec::new(),
            },
        );
        data.add_field(String::from_str("file_content"), ResolvedValue::String(text));
        Ok(data)
    }
}

fn map_read_error(e: FileSystemError, object_id: &str) -> (r: CollectionError)
    ensures
        read_failure(e, r, object_id@),
{
    match e {
        FileSystemError::NotFound(_) => CollectionError::ObjectNotFound { object_id: String::from_str(object_id) },
        FileSystemError::AccessDenied(p) => {
            let mut reason = String::from_str("Permission denied: ");
            reason.append(p.as_str());
            CollectionError::AccessDenied { object_id: String::from_str(object_id), reason }
        },
        other => CollectionError::CollectionFailed {
            object_id: String::from_str(object_id),
            reason: other.to_string(),
        },
    }
}

#[verifier::rlimit(100)]
fn fill_metadata_fields(data: &mut CollectedData, exists: bool, m: FileMetadata)
    requires
        old(data).fields@.len() == 0,
        !exists ==> (!m.readable && !m.writable && m.file_size == 0 && !m.is_directory
            && m.file_owner@.len() == 0 && m.file_group@.len() == 0 && m.file_mode@.len() == 0
            && !m.is_readonly && !m.is_hidden && !m.is_system),
    ensures
        final(data).object_id == old(data).object_id,
        final(data).ctn_type == old(data).ctn_type,
        bool_field(*final(data), "exists"@, exists),
        bool_field(*final(data), "readable"@, m.readable),
        bool_field(*final(data), "writable"@, m.writable),
        int_field(*final(data), "file_size"@, m.file_size as i64 as int),
        bool_field(*final(data), "is_directory"@, m.is_directory),
        str_field(*final(data), "file_owner"@, m.file_owner@),
        str_field(*final(data), "file_group"@, m.file_group@),
        str_field(*final(data), "file_mode"@, m.file_mode@),
        bool_field(*final(data), "is_readonly"@, m.is_readonly),
        bool_field(*final(data), "is_hidden"@, m.is_hidden),
        bool_field(*final(data), "is_system"@, m.is_system),
{
    proof {
        reveal_strlit("exists");
        reveal_strlit("readable");
        reveal_strlit("writable");
        reveal_strlit("file_size");
        reveal_strlit("is_directory");
        reveal_strlit("file_owner");
        reveal_strlit("file_group");
        reveal_strlit("file_mode");
        reveal_strlit("is_readonly");
        reveal_strlit("is_hidden");
        reveal_strlit("is_system");
    }
    let ghost owner = m.file_owner@;
    let ghost group = m.file_group@;
    let ghost mode = m.file_mode@;
    proof {
        assert("exists"@.len() == 6);
        assert("readable"@.len() == 8);
        assert("writable"@.len() == 8);
        assert("file_size"@.len() == 9);
        assert("is_directory"@.len() == 12);
        assert("file_owner"@.len() == 10);
        assert("file_group"@.len() == 10);
        assert("file_mode"@.len() == 9);
        assert("is_readonly"@.len() == 11);
        assert("is_hidden"@.len() == 9);
        assert("is_system"@.len() == 9);
        assert("readable"@[0] == 'r' && "writable"@[0] == 'w');
        assert("file_size"@[5] == 's' && "file_mode"@[5] == 'm');
        assert("file_size"@[0] == 'f' && "is_hidden"@[0] == 'i');
        assert("file_size"@[0] == 'f' && "is_system"@[0] == 'i');
        assert("file_owner"@[5] == 'o' && "file_group"@[5] == 'g');
        assert("file_mode"@[0] == 'f' && "is_hidden"@[0] == 'i');
        assert("file_mode"@[0] == 'f' && "is_system"@[0] == 'i');
        assert("is_hidden"@[3] == 'h' && "is_system"@[3] == 's');
        assert("exists"@ != "readable"@);
        assert("exists"@ != "writable"@);
        assert("exists"@ != "file_size"@);
        assert("exists"@ != "is_directory"@);
        assert("exists"@ != "file_owner"@);
        assert("exists"@ != "file_group"@);
        assert("exists"@ != "file_mode"@);
        assert("exists"@ != "is_readonly"@);
        assert("exists"@ != "is_hidden"@);
        assert("exists"@ != "is_system"@);
        assert("readable"@ != "writable"@);
        assert("readable"@ != "file_size"@);
        assert("readable"@ != "is_directory"@);
        assert("readable"@ != "file_owner"@);
        assert("readable"@ != "file_group"@);
        assert("readable"@ != "file_mode"@);
        assert("readable"@ != "is_readonly"@);
        assert("readable"@ != "is_hidden"@);
        assert("readable"@ != "is_system"@);
        assert("writable"@ != "file_size"@);
        assert("writable"@ != "is_directory"@);
        assert("writable"@ != "file_owner"@);
        assert("writable"@ != "file_group"@);
        assert("writable"@ != "file_mode"@);
        assert("writable"@ != "is_readonly"@);
        assert("writable"@ != "is_hidden"@);
        assert("writable"@ != "is_system"@);
        assert("file_size"@ != "is_directory"@);
        assert("file_size"@ != "file_owner"@);
        assert("file_size"@ != "file_group"@);
        assert("file_size"@ != "file_mode"@);
        assert("file_size"@ != "is_readonly"@);
        assert("file_size"@ != "is_hidden"@);
        assert("file_size"@ != "is_system"@);
        assert("is_directory"@ != "file_owner"@);
        assert("is_directory"@ != "file_group"@);
        assert("is_directory"@ != "file_mode"@);
        assert("is_directory"@ != "is_readonly"@);
        assert("is_directory"@ != "is_hidden"@);
        assert("is_directory"@ != "is_system"@);
        assert("file_owner"@ != "file_group"@);
        assert("file_owner"@ != "file_mode"@);
        assert("file_owner"@ != "is_readonly"@);
        assert("file_owner"@ != "is_hidden"@);
        assert("file_owner"@ != "is_system"@);
        assert("file_group"@ != "file_mode"@);
        assert("file_group"@ != "is_readonly"@);
        assert("file_group"@ != "is_hidden"@);
        assert("file_group"@ != "is_system"@);
        assert("file_mode"@ != "is_readonly"@);
        assert("file_mode"@ != "is_hidden"@);
        assert("file_mode"@ != "is_system"@);
        assert("is_readonly"@ != "is_hidden"@);
        assert("is_readonly"@ != "is_system"@);
        assert("is_hidden"@ != "is_system"@);
    }
    data.add_field(String::from_str("exists"), ResolvedValue::Boolean(exists));
    assert(bool_field(*data, "exists"@, exists));
    data.add_field(String::from_str("readable"), ResolvedValue::Boolean(m.readable));
    assert(bool_field(*data, "exists"@, exists));
    assert(bool_field(*data, "readable"@, m.readable));
    data.add_field(String::from_str("writable"), ResolvedValue::Boolean(m.writable));
    assert(bool_field(*data, "exists"@, exists));
    assert(bool_field(*data, "readable"@, m.readable));
    assert(bool_field(*data, "writable"@, m.writable));
    data.add_field(String::from_str("file_size"), ResolvedValue::Integer(m.file_size as i64));
    assert(bool_field(*data, "exists"@, exists));
    assert(bool_field(*data, "readable"@, m.readable));
    assert(bool_field(*data, "writable"@, m.writable));
    assert(int_field(*data, "file_size"@, m.file_size as i64 as int));
    data.add_field(String::from_str("is_directory"), ResolvedValue::Boolean(m.is_directory));
    assert(bool_field(*data, "exists"@, exists));
    assert(bool_field(*data, "readable"@, m.readable));
    assert(bool_field(*data, "writable"@, m.writable));
    assert(int_field(*data, "file_size"@, m.file_size as i64 as int));
    assert(bool_field(*data, "is_directory"@, m.is_directory));
    data.add_field(String::from_str("file_owner"), ResolvedValue::String(m.file_owner));
    assert(bool_field(*data, "exists"@, exists));
    assert(bool_field(*data, "readable"@, m.readable));
    assert(bool_field(*data, "writable"@, m.writable));
    assert(int_field(*data, "file_size"@, m.file_size as i64 as int));
    assert(bool_field(*data, "is_directory"@, m.is_directory));
    assert(str_field(*data, "file_owner"@, owner));
    data.add_field(String::from_str("file_group"), ResolvedValue::String(m.file_group));
    assert(bool_field(*data, "exists"@, exists));
    assert(bool_field(*data, "readable"@, m.readable));
    assert(bool_field(*data, "writable"@, m.writable));
    assert(int_field(*data, "file_size"@, m.file_size as i64 as int));
    assert(bool_field(*data, "is_directory"@, m.is_directory));
    assert(str_field(*data, "file_owner"@, owner));
    assert(str_field(*data, "file_group"@, group));
    data.add_field(String::from_str("file_mode"), ResolvedValue::String(m.file_mode));
    assert(bool_field(*data, "exists"@, exists));
    assert(bool_field(*data, "readable"@, m.readable));
    assert(bool_field(*data, "writable"@, m.writable));
    assert(int_field(*data, "file_size"@, m.file_size as i64 as int));
    assert(bool_field(*data, "is_directory"@, m.is_directory));
    assert(str_field(*data, "file_owner"@, owner));
    assert(str_field(*data, "file_group"@, group));
    assert(str_field(*data, "file_mode"@, mode));
    data.add_field(String::from_str("is_readonly"), ResolvedValue::Boolean(m.is_readonly));
    assert(bool_field(*data, "exists"@, exists));
    assert(bool_field(*data, "readable"@, m.readable));
    assert(bool_field(*data, "writable"@, m.writable));
    assert(int_field(*data, "file_size"@, m.file_size as i64 as int));
    assert(bool_field(*data, "is_directory"@, m.is_directory));
    assert(str_field(*data, "file_owner"@, owner));
    assert(str_field(*data, "file_group"@, group));
    assert(str_field(*data, "file_mode"@, mode));
    assert(bool_field(*data, "is_readonly"@, m.is_readonly));
    data.add_field(String::from_str("is_hidden"), ResolvedValue::Boolean(m.is_hidden));
    assert(bool_field(*data, "exists"@, exists));
    assert(bool_field(*data, "readable"@, m.readable));
    assert(bool_field(*data, "writable"@, m.writable));
    assert(int_field(*data, "file_size"@, m.file_size as i64 as int));
    assert(bool_field(*data, "is_directory"@, m.is_directory));
    assert(str_field(*data, "file_owner"@, owner));
    assert(str_field(*data, "file_group"@, group));
    assert(str_field(*data, "file_mode"@, mode));
    assert(bool_field(*data, "is_readonly"@, m.is_readonly));
    assert(bool_field(*data, "is_hidden"@, m.is_hidden));
    data.add_field(String::from_str("is_system"), ResolvedValue::Boolean(m.is_system));
    assert(bool_field(*data, "exists"@, exists));
    assert(bool_field(*data, "readable"@, m.readable));
    assert(bool_field(*data, "writable"@, m.writable));
    assert(int_field(*data, "file_size"@, m.file_size as i64 as int));
    assert(bool_field(*data, "is_directory"@, m.is_directory));
    assert(str_field(*data, "file_owner"@, owner));
    assert(str_field(*data, "file_group"@, group));
    assert(str_field(*data, "file_mode"@, mode));
    assert(bool_field(*data, "is_readonly"@, m.is_readonly));
    assert(bool_field(*data, "is_hidden"@, m.is_hidden));
    assert(bool_field(*data, "is_system"@, m.is_system));
}

/// Metadata collection always sets every metadata field, whether or not the path exists.
pub proof fn lemma_metadata_fields_complete(d: CollectedData, m: FileMetadata)
    requires
        metadata_fields_match(d, m),
    ensures
        forall|k: int|
            0 <= k < metadata_field_names().len() ==> lookup(
                d.fields@,
                #[trigger] metadata_field_names()[k],
            ) is Some,
{
    assert forall|k: int|
        0 <= k < metadata_field_names().len() implies lookup(
        d.fields@,
        #[trigger] metadata_field_names()[k],
    ) is Some by {
        if k == 0 {
        } else if k == 1 {
        } else if k == 2 {
        } else if k == 3 {
        } else if k == 4 {
        } else if k == 5 {
        } else if k == 6 {
        } else if k == 7 {
        } else if k == 8 {
        } else if k == 9 {
        } else {
        }
    }
}

/// Options of a recursive content scan.
#[derive(Debug, Clone, Copy, PartialEq, Eq, Structural)]
pub struct RecursiveScan {
    pub max_depth: i64,
    pub include_hidden: bool,
    pub follow_symlinks: bool,
}

/// What a file-system collection reads for a criterion type and its hints.
#[derive(Debug, Clone, Copy, PartialEq, Eq, Structural)]
pub enum FileRequest {
    Metadata,
    Content,
    JsonRecord,
    Recursive(RecursiveScan),
}

pub open spec fn file_request_spec(ctn_type: Seq<char>, hints: BehaviorHints) -> Option<FileRequest> {
    if ctn_type == "file_metadata"@ {
        Some(FileRequest::Metadata)
    } else if ctn_type == "json_record"@ {
        Some(FileRequest::JsonRecord)
    } else if ctn_type == "file_content"@ {
        if has_flag_spec(hints, "recursive_scan"@) {
            Some(
                FileRequest::Recursive(
                    RecursiveScan {
                        max_depth: match int_parameter(hints.parameters@, "max_depth"@) {
                            Some(d) => d,
                            None => 3,
                        },
                        include_hidden: has_flag_spec(hints, "include_hidden"@),
                        follow_symlinks: has_flag_spec(hints, "follow_symlinks"@),
                    },
                ),
            )
        } else {
            Some(FileRequest::Content)
        }
    } else {
        None
    }
}

/// A name the recursive walk passes over: a hidden name, unless hidden names are asked
/// for.
pub open spec fn skipped_name(name: Seq<char>, include_hidden: bool) -> bool {
    !include_hidden && has_prefix(name, "."@)
}

/// One file met by a recursive scan, with its text when it could be read.
#[derive(Debug, Clone)]
pub struct ScannedFile {
    pub path: String,
    pub content: Option<String>,
}

/// The texts of the readable files, each under a banner naming it.
pub open spec fn scan_text(files: Seq<ScannedFile>) -> Seq<char>
    decreases files.len(),
{
    if files.len() == 0 {
        Seq::empty()
    } else {
        scan_text(files.drop_last()) + match files.last().content {
            Some(c) => "=== "@ + files.last().path@ + " ===\n"@ + c@ + "\n\n"@,
            None => Seq::empty(),
        }
    }
}

/// Number of readable files.
pub open spec fn readable_count(files: Seq<ScannedFile>) -> nat
    decreases files.len(),
{
    if files.len() == 0 {
        0
    } else {
        readable_count(files.drop_last()) + if files.last().content is Some {
            1nat
        } else {
            0nat
        }
    }
}

proof fn lemma_readable_count_le(files: Seq<ScannedFile>)
    ensures
        readable_count(files) <= files.len(),
    decreases files.len(),
{
    if files.len() > 0 {
        lemma_readable_count_le(files.drop_last());
    }
}

impl FileSystemCollector {
    /// What to read for a criterion type and its hints; `None` for a type this collector
    /// does not serve.
    pub fn file_request(&self, ctn_type: &str, hints: &BehaviorHints) -> (r: Option<FileRequest>)
        ensures
            r == file_request_spec(ctn_type@, *hints),
    {
        if str_eq(ctn_type, "file_metadata") {
            Some(FileRequest::Metadata)
        } else if str_eq(ctn_type, "json_record") {
            Some(FileRequest::JsonRecord)
        } else if str_eq(ctn_type, "file_content") {
            if hints.has_flag("recursive_scan") {
                let max_depth = match hints.get_parameter_as_int("max_depth") {
                    Some(d) => d,
                    None => 3,
                };
                Some(
                    FileRequest::Recursive(
                        RecursiveScan {
                            max_depth,
                            include_hidden: hints.has_flag("include_hidden"),
                            follow_symlinks: hints.has_flag("follow_symlinks"),
                        },
                    ),
                )
            } else {
                Some(FileRequest::Content)
            }
        } else {
            None
        }
    }

    /// Whether the recursive walk passes over an entry named `name`.
    pub fn skips_name(&self, name: &str, include_hidden: bool) -> (r: bool)
        ensures
            r == skipped_name(name@, include_hidden),
    {
        !include_hidden && crate::text::starts_with_exec(&crate::text::chars_of(name), &crate::text::chars_of("."))
    }

    /// Whether the recursive walk reads the entries of a directory at `depth`.
    pub fn descends(&self, depth: i64, max_depth: i64) -> (r: bool)
        ensures
            r == (depth < max_depth),
    {
        depth < max_depth
    }

    /// Data of a recursive scan: the readable files' texts under banners, and how many
    /// there were. Unreadable files are passed over.
    pub fn collect_recursive(
        &self,
        base_path: &str,
        object_id: &str,
        options: RecursiveScan,
        files: &Vec<ScannedFile>,
    ) -> (r: CollectedData)
        requires
            files.len() <= i64::MAX,
        ensures
            r.object_id@ == object_id@,
            r.ctn_type@ == "file_content"@,
            str_field(r, "file_content"@, scan_text(files@)),
            int_field(r, "file_count"@, readable_count(files@) as int),
    {
        let mut text = String::new();
        let mut count: u64 = 0;
        let mut i: usize = 0;
        assert(files@.subrange(0, 0) =~= Seq::<ScannedFile>::empty());
        while i < files.len()
            invariant
                i <= files.len(),
                text@ == scan_text(files@.subrange(0, i as int)),
                count as nat == readable_count(files@.subrange(0, i as int)),
                count <= i,
            decreases files.len() - i,
        {
            assert(files@.subrange(0, i + 1).drop_last() =~= files@.subrange(0, i as int));
            proof {
                lemma_readable_count_le(files@.subrange(0, i as int));
            }
            match &files[i].content {
                Some(c) => {
                    text.append("=== ");
                    text.append(files[i].path.as_str());
                    text.append(" ===\n");
                    text.append(c.as_str());
                    text.append("\n\n");
                    count = count + 1;
                },
                None => {},
            }
            i = i + 1;
        }
        assert(files@.subrange(0, files.len() as int) =~= files@);
        let mut data = CollectedData::new(
            String::from_str(object_id),
            String::from_str("file_content"),
            self.id.clone(),
        );
        let mut inputs: Vec<crate::data::MethodInput> = Vec::new();
        inputs.push(crate::data::MethodInput { name: String::from_str("max_depth"), value: crate::text::i64_to_decimal(options.max_depth) });
        inputs.push(crate::data::MethodInput {
            name: String::from_str("include_hidden"),
            value: String::from_str(if options.include_hidden { "true" } else { "false" }),
        });
        inputs.push(crate::data::MethodInput {
            name: String::from_str("follow_symlinks"),
            value: String::from_str(if options.follow_symlinks { "true" } else { "false" }),
        });
        data.set_method(
            CollectionMethod {
                method_type: CollectionMethodType::FileRead,
                description: String::from_str("Recursive directory scan"),
                target: String::from_str(base_path),
                command: None,
                inputs,
            },
        );
        proof {
            reveal_strlit("file_content");
            reveal_strlit("file_count");
            assert("file_content"@[5] == 'c' && "file_count"@[5] == 'c');
            assert("file_content"@.len() == 12 && "file_count"@.len() == 10);
        }
        assert(data.fields@ =~= Seq::<crate::data::DataField>::empty());
        data.add_field(String::from_str("file_content"), ResolvedValue::String(text));
        data.add_field(String::from_str("file_count"), ResolvedValue::Integer(count as i64));
        data
    }
}

/// Whether a path exists.
///
/// Relies on std::path::Path::exists: it answers from the file system at the time of the
/// call.
#[verifier::external_body]
pub fn file_exists(path: &str) -> (r: bool) {
    std::path::Path::new(path).exists()
}

} // verus!
