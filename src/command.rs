use vstd::prelude::*;
use vstd::string::*;

use crate::data::{
    lookup, object_lookup, CollectedData, CollectionError, CollectionMethod,
    CollectionMethodType, CtnContract, ExecutableObject, MethodInput, ObjectField,
};
use crate::filesystem::{bool_field, int_field, str_field};
use crate::tcp::{all_digits, digit_of, number_of};
use crate::text::{chars_of, contains_exec, has_substring, str_eq, string_of};
use crate::values::ResolvedValue;

verus! {

/// A text with leading and trailing whitespace removed.
pub uninterp spec fn trimmed(s: Seq<char>) -> Seq<char>;

/// Relies on str::trim: the result depends on the text alone.
#[verifier::external_body]
pub(crate) fn trim(s: &str) -> (r: String)
    ensures
        r@ == trimmed(s@),
{
    s.trim().to_string()
}

/// Position of the last `c` in `s`.
pub open spec fn last_index_of(s: Seq<char>, c: char) -> Option<int>
    decreases s.len(),
{
    if s.len() == 0 {
        None
    } else if s.last() == c {
        Some(s.len() - 1)
    } else {
        last_index_of(s.drop_last(), c)
    }
}

proof fn lemma_last_index_in_range(s: Seq<char>, c: char)
    ensures
        last_index_of(s, c) matches Some(i) ==> 0 <= i < s.len() && s[i] == c,
    decreases s.len(),
{
    if s.len() > 0 && s.last() != c {
        lemma_last_index_in_range(s.drop_last(), c);
    }
}

fn find_last(s: &Vec<char>, end: usize, c: char) -> (r: Option<usize>)
    requires
        end <= s.len(),
    ensures
        r matches Some(i) ==> last_index_of(s@.subrange(0, end as int), c) == Some(i as int),
        r is None ==> last_index_of(s@.subrange(0, end as int), c) is None,
{
    let mut i: usize = end;
    while i > 0
        invariant
            i <= end <= s.len(),
            last_index_of(s@.subrange(0, end as int), c) == last_index_of(s@.subrange(0, i as int), c),
        decreases i,
    {
        assert(s@.subrange(0, i as int).drop_last() =~= s@.subrange(0, i - 1));
        if s[i - 1] == c {
            return Some(i - 1);
        }
        i = i - 1;
    }
    None
}

pub open spec fn not_installed() -> Seq<char> {
    "not installed"@
}

/// Name and version of one line of package-query output. The line splits at its
/// second-to-last `-`: the name before it, the version and release after it. A line with
/// fewer than two `-` is all name.
pub open spec fn rpm_split(line: Seq<char>) -> Option<(Seq<char>, Seq<char>)> {
    if line.len() == 0 || has_substring(line, not_installed()) {
        None
    } else {
        match last_index_of(line, '-') {
            None => Some((line, Seq::empty())),
            Some(i) => match last_index_of(line.subrange(0, i), '-') {
                None => Some((line, Seq::empty())),
                Some(j) => Some((line.subrange(0, j), line.subrange(j + 1, line.len() as int))),
            },
        }
    }
}

/// The version part of a package line, empty when it has none.
pub open spec fn rpm_version_of(line: Seq<char>) -> Seq<char> {
    match rpm_split(line) {
        Some((_, v)) => v,
        None => Seq::empty(),
    }
}

fn sub_string(cs: &Vec<char>, from: usize, to: usize) -> (r: String)
    requires
        from <= to <= cs.len(),
    ensures
        r@ == cs@.subrange(from as int, to as int),
{
    let mut v: Vec<char> = Vec::new();
    let mut i: usize = from;
    while i < to
        invariant
            from <= i <= to <= cs.len(),
            v@ == cs@.subrange(from as int, i as int),
        decreases to - i,
    {
        v.push(cs[i]);
        i = i + 1;
        assert(v@ =~= cs@.subrange(from as int, i as int));
    }
    string_of(&v)
}

/// Splits a trimmed package line into name and version.
pub fn parse_rpm_line(line: &str) -> (r: Option<(String, String)>)
    ensures
        r matches Some(p) ==> rpm_split(line@) == Some((p.0@, p.1@)),
        r is None ==> rpm_split(line@) is None,
{
    let cs = chars_of(line);
    let marker = chars_of("not installed");
    if cs.len() == 0 || contains_exec(&cs, &marker) {
        return None;
    }
    assert(cs@.subrange(0, cs.len() as int) =~= cs@);
    match find_last(&cs, cs.len(), '-') {
        None => Some((String::from_str(line), String::new())),
        Some(i) => {
            proof {
                lemma_last_index_in_range(cs@, '-');
            }
            match find_last(&cs, i, '-') {
                None => Some((String::from_str(line), String::new())),
                Some(j) => {
                    proof {
                        lemma_last_index_in_range(cs@.subrange(0, i as int), '-');
                    }
                    Some((sub_string(&cs, 0, j), sub_string(&cs, j + 1, cs.len())))
                },
            }
        },
    }
}

/// Name and version of a package from the output of a package query.
pub fn parse_rpm_output(stdout: &str) -> (r: Option<(String, String)>)
    ensures
        r matches Some(p) ==> rpm_split(trimmed(stdout@)) == Some((p.0@, p.1@)),
        r is None ==> rpm_split(trimmed(stdout@)) is None,
{
    let line = trim(stdout);
    parse_rpm_line(line.as_str())
}

/// Version of `package` in a full package listing: the version on the last line whose
/// name is `package`.
pub open spec fn listing_version(lines: Seq<Seq<char>>, package: Seq<char>) -> Option<Seq<char>>
    decreases lines.len(),
{
    if lines.len() == 0 {
        None
    } else {
        match rpm_split(trimmed(lines.last())) {
            Some((n, v)) => if n == package {
                Some(v)
            } else {
                listing_version(lines.drop_last(), package)
            },
            None => listing_version(lines.drop_last(), package),
        }
    }
}

/// Looks a package up in the lines of a full package listing.
pub fn find_in_listing(lines: &Vec<String>, package: &str) -> (r: Option<String>)
    ensures
        r matches Some(v) ==> listing_version(lines@.map_values(|l: String| l@), package@)
            == Some(v@),
        r is None ==> listing_version(lines@.map_values(|l: String| l@), package@) is None,
{
    let ghost lv = lines@.map_values(|l: String| l@);
    let mut i: usize = lines.len();
    assert(lv.subrange(0, lines.len() as int) =~= lv);
    while i > 0
        invariant
            i <= lines.len(),
            lv == lines@.map_values(|l: String| l@),
            listing_version(lv, package@) == listing_version(lv.subrange(0, i as int), package@),
        decreases i,
    {
        let ghost sub = lv.subrange(0, i as int);
        assert(sub.drop_last() =~= lv.subrange(0, i - 1));
        assert(sub.last() == lines@[i - 1]@);
        match parse_rpm_output(lines[i - 1].as_str()) {
            Some((name, version)) => {
                if str_eq(name.as_str(), package) {
                    return Some(version);
                }
            },
            None => {},
        }
        i = i - 1;
    }
    None
}

/// A service query passes when the command succeeded and printed exactly `expected`,
/// surrounding whitespace aside.
pub open spec fn service_flag_spec(exit_code: i32, stdout: Seq<char>, expected: Seq<char>) -> bool {
    exit_code == 0 && trimmed(stdout) == expected
}

pub fn service_flag(exit_code: i32, stdout: &str, expected: &str) -> (r: bool)
    ensures
        r == service_flag_spec(exit_code, stdout@, expected@),
{
    if exit_code != 0 {
        return false;
    }
    let t = trim(stdout);
    str_eq(t.as_str(), expected)
}

/// Service state from the two queries: active, enabled, and loaded when either holds.
#[derive(Debug, Clone, Copy, PartialEq, Eq, Structural)]
pub struct ServiceState {
    pub active: bool,
    pub enabled: bool,
    pub loaded: bool,
}

pub fn service_state(
    active_exit: i32,
    active_stdout: &str,
    enabled_exit: i32,
    enabled_stdout: &str,
) -> (r: ServiceState)
    ensures
        r.active == service_flag_spec(active_exit, active_stdout@, "active"@),
        r.enabled == service_flag_spec(enabled_exit, enabled_stdout@, "enabled"@),
        r.loaded == (r.active || r.enabled),
{
    let active = service_flag(active_exit, active_stdout, "active");
    let enabled = service_flag(enabled_exit, enabled_stdout, "enabled");
    ServiceState { active, enabled, loaded: active || enabled }
}

/// SELinux mode and whether it is enforcing, from a successful mode query.
pub fn selinux_mode(exit_code: i32, stdout: &str) -> (r: Option<(String, bool)>)
    ensures
        exit_code != 0 <==> r is None,
        r matches Some(p) ==> p.0@ == trimmed(stdout@) && p.1 == (trimmed(stdout@) == "Enforcing"@),
{
    if exit_code != 0 {
        return None;
    }
    let mode = trim(stdout);
    let enforcing = str_eq(mode.as_str(), "Enforcing");
    Some((mode, enforcing))
}

/// A signed 64-bit number as std's integer parsing reads it: an optional sign, then at
/// least one decimal digit, with a value in range.
pub open spec fn parse_i64_spec(s: Seq<char>) -> Option<int> {
    let negative = s.len() > 0 && s[0] == '-';
    let ds = if s.len() > 0 && (s[0] == '+' || s[0] == '-') {
        s.drop_first()
    } else {
        s
    };
    let magnitude = number_of(ds, 10) as int;
    let value = if negative {
        -magnitude
    } else {
        magnitude
    };
    if ds.len() > 0 && all_digits(ds, 10) && i64::MIN <= value <= i64::MAX {
        Some(value)
    } else {
        None
    }
}

/// Parses a signed 64-bit decimal number.
pub fn parse_i64(s: &str) -> (r: Option<i64>)
    ensures
        r matches Some(v) ==> parse_i64_spec(s@) == Some(v as int),
        r is None ==> parse_i64_spec(s@) is None,
{
    let cs = chars_of(s);
    let negative = cs.len() > 0 && cs[0] == '-';
    let start: usize = if cs.len() > 0 && (cs[0] == '+' || cs[0] == '-') {
        1
    } else {
        0
    };
    let ghost ds = if cs@.len() > 0 && (cs@[0] == '+' || cs@[0] == '-') {
        cs@.drop_first()
    } else {
        cs@
    };
    assert(ds =~= cs@.skip(start as int));
    if start >= cs.len() {
        return None;
    }
    let limit: u64 = if negative {
        9223372036854775808u64
    } else {
        9223372036854775807u64
    };
    let mut value: u64 = 0;
    let mut big = false;
    let mut i: usize = start;
    assert(ds.subrange(0, 0) =~= Seq::<char>::empty());
    while i < cs.len()
        invariant
            start <= i <= cs.len(),
            cs@ == s@,
            ds == cs@.skip(start as int),
            ds == (if s@.len() > 0 && (s@[0] == '+' || s@[0] == '-') {
                s@.drop_first()
            } else {
                s@
            }),
            negative == (s@.len() > 0 && s@[0] == '-'),
            limit == (if negative {
                9223372036854775808u64
            } else {
                9223372036854775807u64
            }),
            all_digits(ds.subrange(0, i - start), 10),
            !big ==> value as nat == number_of(ds.subrange(0, i - start), 10) && value <= limit,
            big ==> number_of(ds.subrange(0, i - start), 10) > limit,
        decreases cs.len() - i,
    {
        let ghost prefix = ds.subrange(0, i - start);
        assert(ds.subrange(0, i + 1 - start).drop_last() =~= prefix);
        assert(ds.subrange(0, i + 1 - start).last() == cs@[i as int]);
        let c = cs[i];
        let d: u64 = match crate::tcp::hex_digit_value(c) {
            Some(v) if v < 10 => v as u64,
            _ => {
                assert(ds[i - start] == cs@[i as int]);
                assert(digit_of(ds[i - start], 10) is None);
                assert(!all_digits(ds, 10));
                return None;
            },
        };
        assert(digit_of(cs@[i as int], 10) == Some(d as nat));
        if !big {
            if value > (limit - d) / 10 {
                big = true;
                assert(number_of(ds.subrange(0, i + 1 - start), 10) > limit) by (nonlinear_arith)
                    requires
                        number_of(ds.subrange(0, i + 1 - start), 10) == 10 * value + d,
                        value > (limit - d) / 10,
                        d <= 9,
                        d <= limit,
                ;
            } else {
                value = value * 10 + d;
            }
        } else {
            assert(number_of(ds.subrange(0, i + 1 - start), 10) >= number_of(prefix, 10))
                by (nonlinear_arith)
                requires
                    number_of(ds.subrange(0, i + 1 - start), 10) >= 10 * number_of(prefix, 10),
            ;
        }
        assert forall|k: int| 0 <= k < i + 1 - start implies (#[trigger] digit_of(
            ds.subrange(0, i + 1 - start)[k],
            10,
        )) is Some by {
            if k < i - start {
                assert(ds.subrange(0, i + 1 - start)[k] == prefix[k]);
            }
        }
        i = i + 1;
    }
    assert(ds.subrange(0, cs.len() - start) =~= ds);
    if big {
        None
    } else if negative {
        if value == 9223372036854775808u64 {
            Some(i64::MIN)
        } else {
            Some(-(value as i64))
        }
    } else {
        Some(value as i64)
    }
}

/// Collector that reads the state of packages, services, kernel parameters and SELinux
/// from the output of whitelisted commands.
pub struct CommandCollector {
    pub id: String,
}

pub open spec fn command_ctn_types() -> Seq<Seq<char>> {
    seq!["rpm_package"@, "systemd_service"@, "sysctl_parameter"@, "selinux_status"@]
}

/// The string field `name` of an object.
pub open spec fn string_field_of(fields: Seq<ObjectField>, name: Seq<char>) -> Option<Seq<char>> {
    match object_lookup(fields, name) {
        Some(ResolvedValue::String(s)) => Some(s@),
        _ => None,
    }
}

fn method(description: &str, target: &str, command: String, inputs: Vec<MethodInput>) -> (r: CollectionMethod) {
    CollectionMethod {
        method_type: CollectionMethodType::Command,
        description: String::from_str(description),
        target: String::from_str(target),
        command: Some(command),
        inputs,
    }
}

fn one_input(name: &str, value: &str) -> (r: Vec<MethodInput>) {
    let mut v: Vec<MethodInput> = Vec::new();
    v.push(MethodInput { name: String::from_str(name), value: String::from_str(value) });
    v
}

impl CommandCollector {
    pub fn new(id: &str) -> (r: Self)
        ensures
            r.id@ == id@,
    {
        CommandCollector { id: String::from_str(id) }
    }

    pub fn collector_id(&self) -> (r: &str)
        ensures
            r@ == self.id@,
    {
        self.id.as_str()
    }

    pub fn supports_batch_collection(&self) -> (r: bool)
        ensures
            r,
    {
        true
    }

    /// Refuses a contract of a criterion type this collector does not serve.
    pub fn validate_ctn_compatibility(&self, contract: &CtnContract) -> (r: Result<(), CollectionError>)
        ensures
            r is Ok <==> command_ctn_types().contains(contract.ctn_type@),
            r matches Err(e) ==> e is CtnContractValidation,
    {
        let t = contract.ctn_type.as_str();
        let ok = str_eq(t, "rpm_package") || str_eq(t, "systemd_service") || str_eq(t, "sysctl_parameter")
            || str_eq(t, "selinux_status");
        proof {
            let ts = command_ctn_types();
            if ok {
                if t@ == ts[0] {
                } else if t@ == ts[1] {
                } else if t@ == ts[2] {
                } else {
                    assert(t@ == ts[3]);
                }
            }
        }
        if ok {
            Ok(())
        } else {
            let mut reason = String::from_str("CTN type '");
            reason.append(t);
            reason.append("' not supported");
            Err(CollectionError::CtnContractValidation { reason })
        }
    }

    /// The required string field `name` of an object.
    pub fn extract_field(&self, object: &ExecutableObject, name: &str) -> (r: Result<String, CollectionError>)
        ensures
            r matches Ok(v) ==> string_field_of(object.fields@, name@) == Some(v@),
            r is Err ==> string_field_of(object.fields@, name@) is None,
            r matches Err(e) ==> e is InvalidObjectConfiguration,
    {
        match object.get_field(name) {
            Some(ResolvedValue::String(s)) => Ok(s),
            Some(_) => {
                let mut reason = String::from_str("Field '");
                reason.append(name);
                reason.append("' must be a string");
                Err(CollectionError::InvalidObjectConfiguration { object_id: object.identifier.clone(), reason })
            },
            None => {
                let mut reason = String::from_str("Missing required field '");
                reason.append(name);
                reason.append("'");
                Err(CollectionError::InvalidObjectConfiguration { object_id: object.identifier.clone(), reason })
            },
        }
    }

    /// Package data from a package query: its name, whether it is installed, and its
    /// version when the output names one.
    pub fn rpm_data(&self, object_id: &str, package: &str, exit_code: i32, stdout: &str) -> (r: CollectedData)
        ensures
            r.object_id@ == object_id@,
            str_field(r, "package_name"@, package@),
            bool_field(r, "installed"@, exit_code == 0),
            (exit_code == 0 && rpm_split(trimmed(stdout@)) is Some) ==> str_field(
                r,
                "version"@,
                rpm_version_of(trimmed(stdout@)),
            ),
            !(exit_code == 0 && rpm_split(trimmed(stdout@)) is Some) ==> lookup(
                r.fields@,
                "version"@,
            ) is None,
    {
        proof {
            reveal_strlit("package_name");
            reveal_strlit("installed");
            reveal_strlit("version");
            assert("package_name"@.len() == 12 && "installed"@.len() == 9 && "version"@.len() == 7);
        }
        let mut data = CollectedData::new(String::from_str(object_id), String::from_str("rpm_package"), self.id.clone());
        assert(data.fields@ =~= Seq::<crate::data::DataField>::empty());
        let mut command = String::from_str("rpm -q ");
        command.append(package);
        data.set_method(method("Query RPM package information", package, command, one_input("package_name", package)));
        data.add_field(String::from_str("package_name"), ResolvedValue::String(String::from_str(package)));
        let installed = exit_code == 0;
        data.add_field(String::from_str("installed"), ResolvedValue::Boolean(installed));
        assert(str_field(data, "package_name"@, package@));
        if installed {
            match parse_rpm_output(stdout) {
                Some((_name, version)) => {
                    data.add_field(String::from_str("version"), ResolvedValue::String(version));
                },
                None => {},
            }
        }
        data
    }

    /// Service data from the two service queries.
    pub fn systemd_data(
        &self,
        object_id: &str,
        service: &str,
        active_exit: i32,
        active_stdout: &str,
        enabled_exit: i32,
        enabled_stdout: &str,
    ) -> (r: CollectedData)
        ensures
            r.object_id@ == object_id@,
            str_field(r, "service_name"@, service@),
            bool_field(r, "active"@, service_flag_spec(active_exit, active_stdout@, "active"@)),
            bool_field(r, "enabled"@, service_flag_spec(enabled_exit, enabled_stdout@, "enabled"@)),
            bool_field(
                r,
                "loaded"@,
                service_flag_spec(active_exit, active_stdout@, "active"@) || service_flag_spec(
                    enabled_exit,
                    enabled_stdout@,
                    "enabled"@,
                ),
            ),
    {
        proof {
            reveal_strlit("service_name");
            reveal_strlit("active");
            reveal_strlit("enabled");
            reveal_strlit("loaded");
            assert("service_name"@.len() == 12 && "active"@.len() == 6 && "enabled"@.len() == 7);
            assert("loaded"@[0] == 'l' && "active"@[0] == 'a');
        }
        let mut data = CollectedData::new(String::from_str(object_id), String::from_str("systemd_service"), self.id.clone());
        assert(data.fields@ =~= Seq::<crate::data::DataField>::empty());
        let mut command = String::from_str("systemctl is-active ");
        command.append(service);
        command.append("; systemctl is-enabled ");
        command.append(service);
        data.set_method(method("Query systemd service status", service, command, one_input("service_name", service)));
        let st = service_state(active_exit, active_stdout, enabled_exit, enabled_stdout);
        data.add_field(String::from_str("service_name"), ResolvedValue::String(String::from_str(service)));
        data.add_field(String::from_str("active"), ResolvedValue::Boolean(st.active));
        data.add_field(String::from_str("enabled"), ResolvedValue::Boolean(st.enabled));
        assert(str_field(data, "service_name"@, service@));
        data.add_field(String::from_str("loaded"), ResolvedValue::Boolean(st.loaded));
        data
    }

    /// Kernel parameter data from a parameter query: its value as text, and as an integer
    /// when it reads as one.
    pub fn sysctl_data(&self, object_id: &str, parameter: &str, exit_code: i32, stdout: &str) -> (r: CollectedData)
        ensures
            r.object_id@ == object_id@,
            str_field(r, "parameter_name"@, parameter@),
            exit_code == 0 ==> str_field(r, "value"@, trimmed(stdout@)),
            exit_code != 0 ==> lookup(r.fields@, "value"@) is None,
            (exit_code == 0 && parse_i64_spec(trimmed(stdout@)) is Some) ==> int_field(
                r,
                "value_int"@,
                parse_i64_spec(trimmed(stdout@))->0,
            ),
            !(exit_code == 0 && parse_i64_spec(trimmed(stdout@)) is Some) ==> lookup(
                r.fields@,
                "value_int"@,
            ) is None,
    {
        proof {
            reveal_strlit("parameter_name");
            reveal_strlit("value");
            reveal_strlit("value_int");
            assert("parameter_name"@.len() == 14 && "value"@.len() == 5 && "value_int"@.len() == 9);
        }
        let mut data = CollectedData::new(String::from_str(object_id), String::from_str("sysctl_parameter"), self.id.clone());
        assert(data.fields@ =~= Seq::<crate::data::DataField>::empty());
        let mut command = String::from_str("sysctl -n ");
        command.append(parameter);
        data.set_method(method("Query kernel sysctl parameter", parameter, command, one_input("parameter_name", parameter)));
        data.add_field(String::from_str("parameter_name"), ResolvedValue::String(String::from_str(parameter)));
        if exit_code == 0 {
            let value = trim(stdout);
            let parsed = parse_i64(value.as_str());
            data.add_field(String::from_str("value"), ResolvedValue::String(value));
            assert(str_field(data, "parameter_name"@, parameter@));
            match parsed {
                Some(n) => {
                    data.add_field(String::from_str("value_int"), ResolvedValue::Integer(n));
                },
                None => {},
            }
        }
        data
    }

    /// SELinux data from a mode query: the mode and whether it is enforcing.
    pub fn selinux_data(&self, object_id: &str, exit_code: i32, stdout: &str) -> (r: CollectedData)
        ensures
            r.object_id@ == object_id@,
            exit_code == 0 ==> str_field(r, "mode"@, trimmed(stdout@)) && bool_field(
                r,
                "enforcing"@,
                trimmed(stdout@) == "Enforcing"@,
            ),
            exit_code != 0 ==> r.fields@.len() == 0,
    {
        proof {
            reveal_strlit("mode");
            reveal_strlit("enforcing");
            assert("mode"@.len() == 4 && "enforcing"@.len() == 9);
        }
        let mut data = CollectedData::new(String::from_str(object_id), String::from_str("selinux_status"), self.id.clone());
        assert(data.fields@ =~= Seq::<crate::data::DataField>::empty());
        data.set_method(method("Query SELinux enforcement status", "selinux", String::from_str("getenforce"), Vec::new()));
        match selinux_mode(exit_code, stdout) {
            Some((mode, enforcing)) => {
                data.add_field(String::from_str("mode"), ResolvedValue::String(mode));
                data.add_field(String::from_str("enforcing"), ResolvedValue::Boolean(enforcing));
            },
            None => {},
        }
        data
    }

    /// Package data for several objects from one full package listing: each object's
    /// package is installed when the listing names it, with the version listed last.
    pub fn batch_rpm_data(&self, objects: &Vec<ExecutableObject>, listing: &Vec<String>) -> (r: Result<Vec<CollectedData>, CollectionError>)
        ensures
            r matches Ok(v) ==> v@.len() == objects.len() && forall|i: int|
                0 <= i < objects.len() ==> {
                    let p = string_field_of(objects@[i].fields@, "package_name"@);
                    &&& p is Some
                    &&& (#[trigger] v@[i]).object_id == objects@[i].identifier
                    &&& str_field(v@[i], "package_name"@, p->0)
                    &&& bool_field(
                        v@[i],
                        "installed"@,
                        listing_version(listing@.map_values(|l: String| l@), p->0) is Some,
                    )
                    &&& match listing_version(listing@.map_values(|l: String| l@), p->0) {
                        Some(ver) => str_field(v@[i], "version"@, ver),
                        None => lookup(v@[i].fields@, "version"@) is None,
                    }
                },
            r is Err ==> exists|i: int|
                0 <= i < objects.len() && string_field_of(objects@[i].fields@, "package_name"@) is None,
    {
        proof {
            reveal_strlit("package_name");
            reveal_strlit("installed");
            reveal_strlit("version");
            assert("package_name"@.len() == 12 && "installed"@.len() == 9 && "version"@.len() == 7);
        }
        let mut out: Vec<CollectedData> = Vec::new();
        let mut i: usize = 0;
        while i < objects.len()
            invariant
                i <= objects.len(),
                out@.len() == i,
                "package_name"@.len() == 12 && "installed"@.len() == 9 && "version"@.len() == 7,
                forall|k: int|
                    0 <= k < i ==> {
                        let p = string_field_of(objects@[k].fields@, "package_name"@);
                        &&& p is Some
                        &&& (#[trigger] out@[k]).object_id == objects@[k].identifier
                        &&& str_field(out@[k], "package_name"@, p->0)
                        &&& bool_field(
                            out@[k],
                            "installed"@,
                            listing_version(listing@.map_values(|l: String| l@), p->0) is Some,
                        )
                        &&& match listing_version(listing@.map_values(|l: String| l@), p->0) {
                            Some(ver) => str_field(out@[k], "version"@, ver),
                            None => lookup(out@[k].fields@, "version"@) is None,
                        }
                    },
            decreases objects.len() - i,
        {
            let package = self.extract_field(&objects[i], "package_name")?;
            let mut data = CollectedData::new(objects[i].identifier.clone(), String::from_str("rpm_package"), self.id.clone());
            assert(data.fields@ =~= Seq::<crate::data::DataField>::empty());
            let mut inputs = one_input("package_name", package.as_str());
            inputs.push(MethodInput { name: String::from_str("batch_mode"), value: String::from_str("true") });
            data.set_method(method("Batch query RPM packages", package.as_str(), String::from_str("rpm -qa"), inputs));
            let found = find_in_listing(listing, package.as_str());
            data.add_field(String::from_str("package_name"), ResolvedValue::String(package.clone()));
            match found {
                Some(version) => {
                    data.add_field(String::from_str("installed"), ResolvedValue::Boolean(true));
                    assert(str_field(data, "package_name"@, package@));
                    data.add_field(String::from_str("version"), ResolvedValue::String(version));
                },
                None => {
                    data.add_field(String::from_str("installed"), ResolvedValue::Boolean(false));
                    assert(lookup(Seq::<crate::data::DataField>::empty(), "version"@) is None);
                },
            }
            out.push(data);
            i = i + 1;
        }
        Ok(out)
    }
}

} // verus!
