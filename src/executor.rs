use vstd::prelude::*;
use vstd::string::*;

use crate::data::{lookup, mapped_name, CollectedData, CtnContract, DataField, FieldMapping};
use crate::scan::Outcome;
use crate::text::{decimal_of, u64_to_decimal};
use crate::values::{
    clone_value, compare_spec, compare_values, format_value, format_value_spec, op_name,
    op_name_spec, Operation, ResolvedValue,
};

verus! {

/// How many of the expected objects must have been found.
#[derive(Debug, Clone, Copy, PartialEq, Eq, Structural)]
pub enum ExistenceCheck {
    AnyExist,
    AllExist,
    AtLeastOneExists,
    NoneExist,
    OnlyOneExists,
}

/// How many of the evaluated objects must satisfy their states.
#[derive(Debug, Clone, Copy, PartialEq, Eq, Structural)]
pub enum ItemCheck {
    All,
    AtLeastOne,
    OnlyOne,
    NoneSatisfy,
}

/// How the field results of one object combine into one verdict.
#[derive(Debug, Clone, Copy, PartialEq, Eq, Structural)]
pub enum StateOperator {
    And,
    Or,
    One,
}

pub open spec fn existence_spec(check: ExistenceCheck, found: nat, expected: nat) -> bool {
    match check {
        ExistenceCheck::AnyExist => true,
        ExistenceCheck::AllExist => found == expected,
        ExistenceCheck::AtLeastOneExists => found >= 1,
        ExistenceCheck::NoneExist => found == 0,
        ExistenceCheck::OnlyOneExists => found == 1,
    }
}

pub fn evaluate_existence_check(check: ExistenceCheck, found: usize, expected: usize) -> (r: bool)
    ensures
        r == existence_spec(check, found as nat, expected as nat),
{
    match check {
        ExistenceCheck::AnyExist => true,
        ExistenceCheck::AllExist => found == expected,
        ExistenceCheck::AtLeastOneExists => found >= 1,
        ExistenceCheck::NoneExist => found == 0,
        ExistenceCheck::OnlyOneExists => found == 1,
    }
}

pub open spec fn item_spec(check: ItemCheck, passing: nat, total: nat) -> bool {
    match check {
        ItemCheck::All => passing == total,
        ItemCheck::AtLeastOne => passing >= 1,
        ItemCheck::OnlyOne => passing == 1,
        ItemCheck::NoneSatisfy => passing == 0,
    }
}

pub fn evaluate_item_check(check: ItemCheck, passing: usize, total: usize) -> (r: bool)
    ensures
        r == item_spec(check, passing as nat, total as nat),
{
    match check {
        ItemCheck::All => passing == total,
        ItemCheck::AtLeastOne => passing >= 1,
        ItemCheck::OnlyOne => passing == 1,
        ItemCheck::NoneSatisfy => passing == 0,
    }
}

/// Number of `true` entries.
pub open spec fn count_true(bs: Seq<bool>) -> nat
    decreases bs.len(),
{
    if bs.len() == 0 {
        0
    } else {
        count_true(bs.drop_last()) + if bs.last() {
            1nat
        } else {
            0nat
        }
    }
}

pub open spec fn state_operator_spec(op: StateOperator, bs: Seq<bool>) -> bool {
    match op {
        StateOperator::And => count_true(bs) == bs.len(),
        StateOperator::Or => count_true(bs) >= 1,
        StateOperator::One => count_true(bs) == 1,
    }
}

pub fn evaluate_state_operator(op: StateOperator, bs: &Vec<bool>) -> (r: bool)
    ensures
        r == state_operator_spec(op, bs@),
{
    let mut n: usize = 0;
    let mut i: usize = 0;
    while i < bs.len()
        invariant
            i <= bs.len(),
            n == count_true(bs@.subrange(0, i as int)),
            n <= i,
        decreases bs.len() - i,
    {
        assert(bs@.subrange(0, i + 1).drop_last() =~= bs@.subrange(0, i as int));
        if bs[i] {
            n = n + 1;
        }
        i = i + 1;
    }
    assert(bs@.subrange(0, bs.len() as int) =~= bs@);
    match op {
        StateOperator::And => n == bs.len(),
        StateOperator::Or => n >= 1,
        StateOperator::One => n == 1,
    }
}

/// One expected field of a state.
#[derive(Debug, Clone)]
pub struct StateField {
    pub name: String,
    pub value: ResolvedValue,
    pub operation: Operation,
}

/// The expected fields of one state.
#[derive(Debug, Clone)]
pub struct State {
    pub fields: Vec<StateField>,
}

/// The test of a criterion.
#[derive(Debug, Clone, Copy, PartialEq, Eq, Structural)]
pub struct TestSpecification {
    pub existence_check: ExistenceCheck,
    pub item_check: ItemCheck,
    pub state_operator: StateOperator,
}

/// One compiled check: its test, its target objects and its states.
#[derive(Debug, Clone)]
pub struct ExecutableCriterion {
    pub criterion_type: String,
    pub test: TestSpecification,
    pub objects: Vec<String>,
    pub states: Vec<State>,
}

/// The comparison of one field of one object.
#[derive(Debug, Clone)]
pub struct FieldValidationResult {
    pub field_name: String,
    pub expected_value: ResolvedValue,
    pub actual_value: ResolvedValue,
    pub operation: Operation,
    pub passed: bool,
    pub message: String,
}

/// The field results of one object and their combination.
#[derive(Debug, Clone)]
pub struct StateValidationResult {
    pub object_id: String,
    pub field_results: Vec<FieldValidationResult>,
    pub combined_result: bool,
    pub state_operator: StateOperator,
}

/// Outcome of executing one criterion.
#[derive(Debug, Clone)]
pub struct CtnExecutionResult {
    pub ctn_type: String,
    pub status: Outcome,
    pub state_results: Vec<StateValidationResult>,
    pub message: String,
    pub failures: Vec<String>,
    pub objects_expected: usize,
    pub objects_found: usize,
    pub objects_passing: usize,
    pub collected_data: Vec<CollectedData>,
}

/// Errors that stop a criterion as a whole.
#[derive(Debug, Clone)]
pub enum CtnExecutionError {
    MissingDataField { field: String },
    DataValidationFailed { reason: String },
    ExecutionFailed { reason: String },
}

/// The fields of all states, in order.
pub open spec fn flat_fields(states: Seq<State>) -> Seq<StateField>
    decreases states.len(),
{
    if states.len() == 0 {
        Seq::empty()
    } else {
        flat_fields(states.drop_last()) + states.last().fields@
    }
}

/// Whether one expected field holds of an object's collected fields.
pub open spec fn field_passed(maps: Seq<FieldMapping>, data: Seq<DataField>, f: StateField) -> bool {
    match lookup(data, mapped_name(maps, f.name@)) {
        Some(v) => compare_spec(f.value, v, f.operation),
        None => false,
    }
}

pub open spec fn passed_message(name: Seq<char>, expected: ResolvedValue, actual: ResolvedValue, op: Operation) -> Seq<char> {
    "Field '"@ + name + "' passed: "@ + format_value_spec(actual) + " "@ + op_name_spec(op) + " "@
        + format_value_spec(expected)
}

pub open spec fn failed_message(name: Seq<char>, expected: ResolvedValue, actual: ResolvedValue, op: Operation) -> Seq<char> {
    "Field '"@ + name + "' failed: expected "@ + op_name_spec(op) + " "@ + format_value_spec(
        expected,
    ) + ", got "@ + format_value_spec(actual)
}

pub open spec fn missing_message(name: Seq<char>, mapped: Seq<char>) -> Seq<char> {
    "Field '"@ + name + "' (mapped to '"@ + mapped + "') not collected"@
}

/// The message recorded for one field of one object.
pub open spec fn field_message(maps: Seq<FieldMapping>, data: Seq<DataField>, f: StateField) -> Seq<char> {
    let mapped = mapped_name(maps, f.name@);
    match lookup(data, mapped) {
        Some(v) => if compare_spec(f.value, v, f.operation) {
            passed_message(f.name@, f.value, v, f.operation)
        } else {
            failed_message(f.name@, f.value, v, f.operation)
        },
        None => missing_message(f.name@, mapped),
    }
}

pub open spec fn existence_message(expected: nat, found: nat) -> Seq<char> {
    "Existence check failed: expected "@ + decimal_of(expected) + " objects, found "@ + decimal_of(
        found,
    )
}

pub open spec fn summary_message(passed: bool, passing: nat, total: nat) -> Seq<char> {
    (if passed {
        "Validation passed: "@
    } else {
        "Validation failed: "@
    }) + decimal_of(passing) + " of "@ + decimal_of(total) + " objects compliant"@
}

pub open spec fn field_flags(rs: Seq<FieldValidationResult>) -> Seq<bool> {
    rs.map_values(|r: FieldValidationResult| r.passed)
}

pub open spec fn combined_flags(rs: Seq<StateValidationResult>) -> Seq<bool> {
    rs.map_values(|r: StateValidationResult| r.combined_result)
}

pub open spec fn lines_view(v: Seq<String>) -> Seq<Seq<char>> {
    v.map_values(|s: String| s@)
}

/// The failure lines of one object: each failed field's message, naming the object.
pub open spec fn object_failures(object_id: Seq<char>, rs: Seq<FieldValidationResult>) -> Seq<Seq<char>>
    decreases rs.len(),
{
    if rs.len() == 0 {
        Seq::empty()
    } else {
        object_failures(object_id, rs.drop_last()) + if rs.last().passed {
            Seq::empty()
        } else {
            seq!["Object '"@ + object_id + "': "@ + rs.last().message@]
        }
    }
}

/// The failure lines of all objects, in order: recorded fields alone determine them.
pub open spec fn failure_lines(rs: Seq<StateValidationResult>) -> Seq<Seq<char>>
    decreases rs.len(),
{
    if rs.len() == 0 {
        Seq::empty()
    } else {
        failure_lines(rs.drop_last()) + object_failures(rs.last().object_id@, rs.last().field_results@)
    }
}

/// Every object id occurs once.
pub open spec fn distinct_object_ids(data: Seq<CollectedData>) -> bool {
    forall|i: int, j: int| 0 <= i < j < data.len() ==> (#[trigger] data[i]).object_id@ != (#[trigger] data[j]).object_id@
}

/// Whether every object id of the collected data occurs once.
pub fn has_distinct_object_ids(data: &Vec<CollectedData>) -> (r: bool)
    ensures
        r == distinct_object_ids(data@),
{
    let mut i: usize = 0;
    while i < data.len()
        invariant
            i <= data.len(),
            forall|a: int, b: int| 0 <= a < b < data.len() && a < i ==> (#[trigger] data@[a]).object_id@ != (#[trigger] data@[b]).object_id@,
        decreases data.len() - i,
    {
        let mut j: usize = i + 1;
        while j < data.len()
            invariant
                i < data.len(),
                i + 1 <= j <= data.len(),
                forall|a: int, b: int| 0 <= a < b < data.len() && a < i ==> (#[trigger] data@[a]).object_id@ != (#[trigger] data@[b]).object_id@,
                forall|b: int| i < b < j ==> data@[i as int].object_id@ != (#[trigger] data@[b]).object_id@,
            decreases data.len() - j,
        {
            if crate::text::str_eq(data[i].object_id.as_str(), data[j].object_id.as_str()) {
                return false;
            }
            j = j + 1;
        }
        i = i + 1;
    }
    true
}

/// A field result records exactly the comparison of expected field `f` against an
/// object's collected fields.
pub open spec fn field_result_matches(
    maps: Seq<FieldMapping>,
    data: Seq<DataField>,
    f: StateField,
    r: FieldValidationResult,
) -> bool {
    &&& r.field_name@ == f.name@
    &&& r.expected_value == f.value
    &&& r.operation == f.operation
    &&& r.passed == field_passed(maps, data, f)
    &&& r.message@ == field_message(maps, data, f)
    &&& match lookup(data, mapped_name(maps, f.name@)) {
        Some(v) => r.actual_value == v,
        None => r.actual_value matches ResolvedValue::String(s) && s@.len() == 0,
    }
}

/// A state result records one object's field results, combined by the state operator.
pub open spec fn state_result_matches(
    maps: Seq<FieldMapping>,
    fields: Seq<StateField>,
    op: StateOperator,
    d: CollectedData,
    r: StateValidationResult,
) -> bool {
    &&& r.object_id@ == d.object_id@
    &&& r.state_operator == op
    &&& r.field_results@.len() == fields.len()
    &&& forall|j: int|
        0 <= j < fields.len() ==> field_result_matches(
            maps,
            d.fields@,
            fields[j],
            #[trigger] r.field_results@[j],
        )
    &&& r.combined_result == state_operator_spec(op, field_flags(r.field_results@))
}

fn flatten_states(states: &Vec<State>) -> (r: Vec<StateField>)
    ensures
        r@ == flat_fields(states@),
{
    let mut out: Vec<StateField> = Vec::new();
    let mut i: usize = 0;
    assert(states@.subrange(0, 0) =~= Seq::<State>::empty());
    while i < states.len()
        invariant
            i <= states.len(),
            out@ == flat_fields(states@.subrange(0, i as int)),
        decreases states.len() - i,
    {
        let ghost before = out@;
        let st = &states[i];
        let mut j: usize = 0;
        while j < st.fields.len()
            invariant
                i < states.len(),
                st == &states@[i as int],
                j <= st.fields.len(),
                out@ == before + states[i as int].fields@.subrange(0, j as int),
            decreases st.fields.len() - j,
        {
            let f = &st.fields[j];
            out.push(StateField { name: f.name.clone(), value: clone_value(&f.value), operation: f.operation });
            j = j + 1;
            assert(out@ =~= before + states[i as int].fields@.subrange(0, j as int));
        }
        assert(states[i as int].fields@.subrange(0, j as int) =~= states[i as int].fields@);
        assert(states@.subrange(0, i + 1).drop_last() =~= states@.subrange(0, i as int));
        i = i + 1;
    }
    assert(states@.subrange(0, states.len() as int) =~= states@);
    out
}

/// Compares one expected field against an object's collected data.
pub fn validate_field(contract: &CtnContract, data: &CollectedData, f: &StateField) -> (r: FieldValidationResult)
    ensures
        field_result_matches(contract.state_to_data@, data.fields@, *f, r),
{
    let mapped = contract.map_state_field(f.name.as_str());
    match data.get_field(mapped.as_str()) {
        Some(actual) => {
            let passed = compare_values(&f.value, &actual, f.operation);
            let mut msg = String::from_str("Field '");
            msg.append(f.name.as_str());
            if passed {
                msg.append("' passed: ");
                msg.append(format_value(&actual).as_str());
                msg.append(" ");
                msg.append(op_name(f.operation).as_str());
                msg.append(" ");
                msg.append(format_value(&f.value).as_str());
            } else {
                msg.append("' failed: expected ");
                msg.append(op_name(f.operation).as_str());
                msg.append(" ");
                msg.append(format_value(&f.value).as_str());
                msg.append(", got ");
                msg.append(format_value(&actual).as_str());
            }
            FieldValidationResult {
                field_name: f.name.clone(),
                expected_value: clone_value(&f.value),
                actual_value: actual,
                operation: f.operation,
                passed,
                message: msg,
            }
        },
        None => {
            let mut msg = String::from_str("Field '");
            msg.append(f.name.as_str());
            msg.append("' (mapped to '");
            msg.append(mapped.as_str());
            msg.append("') not collected");
            FieldValidationResult {
                field_name: f.name.clone(),
                expected_value: clone_value(&f.value),
                actual_value: ResolvedValue::String(String::new()),
                operation: f.operation,
                passed: false,
                message: msg,
            }
        },
    }
}

/// Validates every expected field against one object's data.
pub fn validate_object(
    contract: &CtnContract,
    fields: &Vec<StateField>,
    op: StateOperator,
    data: &CollectedData,
) -> (r: StateValidationResult)
    ensures
        state_result_matches(contract.state_to_data@, fields@, op, *data, r),
{
    let mut results: Vec<FieldValidationResult> = Vec::new();
    let mut flags: Vec<bool> = Vec::new();
    let mut j: usize = 0;
    while j < fields.len()
        invariant
            j <= fields.len(),
            results@.len() == j,
            flags@ == field_flags(results@),
            forall|k: int|
                0 <= k < j ==> field_result_matches(
                    contract.state_to_data@,
                    data.fields@,
                    fields@[k],
                    #[trigger] results@[k],
                ),
        decreases fields.len() - j,
    {
        let fr = validate_field(contract, data, &fields[j]);
        flags.push(fr.passed);
        results.push(fr);
        j = j + 1;
        assert(flags@ =~= field_flags(results@));
    }
    let combined = evaluate_state_operator(op, &flags);
    StateValidationResult {
        object_id: data.object_id.clone(),
        field_results: results,
        combined_result: combined,
        state_operator: op,
    }
}

fn existence_failure_message(expected: usize, found: usize) -> (r: String)
    ensures
        r@ == existence_message(expected as nat, found as nat),
{
    let mut msg = String::from_str("Existence check failed: expected ");
    msg.append(u64_to_decimal(expected as u64).as_str());
    msg.append(" objects, found ");
    msg.append(u64_to_decimal(found as u64).as_str());
    msg
}

fn summary_text(passed: bool, passing: usize, total: usize) -> (r: String)
    ensures
        r@ == summary_message(passed, passing as nat, total as nat),
{
    let mut msg = if passed {
        String::from_str("Validation passed: ")
    } else {
        String::from_str("Validation failed: ")
    };
    msg.append(u64_to_decimal(passing as u64).as_str());
    msg.append(" of ");
    msg.append(u64_to_decimal(total as u64).as_str());
    msg.append(" objects compliant");
    msg
}

/// The result of the three-phase evaluation of a criterion over collected data.
pub open spec fn generic_outcome(contract: CtnContract, criterion: ExecutableCriterion, collected_data: Seq<CollectedData>, r: CtnExecutionResult) -> bool {
    &&& (r.ctn_type@ == criterion.criterion_type@)
    &&& (r.objects_expected == criterion.objects.len())
    &&& (r.objects_found == collected_data.len())
    &&& (r.collected_data@ == collected_data)
    &&& (!existence_spec(
            criterion.test.existence_check,
            collected_data.len() as nat,
            criterion.objects.len() as nat,
        ) ==> {
            &&& r.status == Outcome::Fail
            &&& r.state_results@.len() == 0
            &&& r.objects_passing == 0
            &&& r.message@ == existence_message(
                criterion.objects.len() as nat,
                collected_data.len() as nat,
            )
        })
    &&& (existence_spec(
            criterion.test.existence_check,
            collected_data.len() as nat,
            criterion.objects.len() as nat,
        ) ==> {
            &&& r.state_results@.len() == collected_data.len()
            &&& forall|i: int|
                0 <= i < collected_data.len() ==> state_result_matches(
                    contract.state_to_data@,
                    flat_fields(criterion.states@),
                    criterion.test.state_operator,
                    collected_data[i],
                    #[trigger] r.state_results@[i],
                )
            &&& r.objects_passing == count_true(combined_flags(r.state_results@))
            &&& lines_view(r.failures@) == failure_lines(r.state_results@)
            &&& r.status == (if item_spec(
                criterion.test.item_check,
                r.objects_passing as nat,
                collected_data.len() as nat,
            ) {
                Outcome::Pass
            } else {
                Outcome::Fail
            })
            &&& r.message@ == summary_message(
                r.status == Outcome::Pass,
                r.objects_passing as nat,
                collected_data.len() as nat,
            )
        })
}

/// Runs a criterion's test over the data collected for its objects: existence check,
/// then state validation per object, then item check.
pub fn execute_with_contract(
    contract: &CtnContract,
    criterion: &ExecutableCriterion,
    collected_data: Vec<CollectedData>,
) -> (r: CtnExecutionResult)
    requires
        distinct_object_ids(collected_data@),
    ensures
        generic_outcome(*contract, *criterion, collected_data@, r),
{
    let test = criterion.test;
    let expected = criterion.objects.len();
    let found = collected_data.len();
    if !evaluate_existence_check(test.existence_check, found, expected) {
        return CtnExecutionResult {
            ctn_type: criterion.criterion_type.clone(),
            status: Outcome::Fail,
            state_results: Vec::new(),
            message: existence_failure_message(expected, found),
            failures: Vec::new(),
            objects_expected: expected,
            objects_found: found,
            objects_passing: 0,
            collected_data,
        };
    }
    let fields = flatten_states(&criterion.states);
    let mut state_results: Vec<StateValidationResult> = Vec::new();
    let mut failures: Vec<String> = Vec::new();
    let mut passing: usize = 0;
    let mut i: usize = 0;
    while i < collected_data.len()
        invariant
            i <= collected_data.len(),
            fields@ == flat_fields(criterion.states@),
            state_results@.len() == i,
            passing == count_true(combined_flags(state_results@)),
            passing <= i,
            lines_view(failures@) == failure_lines(state_results@),
            forall|k: int|
                0 <= k < i ==> state_result_matches(
                    contract.state_to_data@,
                    fields@,
                    test.state_operator,
                    collected_data@[k],
                    #[trigger] state_results@[k],
                ),
        decreases collected_data.len() - i,
    {
        let sr = validate_object(contract, &fields, test.state_operator, &collected_data[i]);
        let ghost start = lines_view(failures@);
        let mut j: usize = 0;
        assert(sr.field_results@.subrange(0, 0) =~= Seq::<FieldValidationResult>::empty());
        while j < sr.field_results.len()
            invariant
                i < collected_data.len(),
                j <= sr.field_results.len(),
                sr.object_id@ == collected_data@[i as int].object_id@,
                lines_view(failures@) == start + object_failures(
                    sr.object_id@,
                    sr.field_results@.subrange(0, j as int),
                ),
            decreases sr.field_results.len() - j,
        {
            assert(sr.field_results@.subrange(0, j + 1).drop_last() =~= sr.field_results@.subrange(
                0,
                j as int,
            ));
            assert(sr.field_results@.subrange(0, j + 1).last() == sr.field_results@[j as int]);
            let ghost prev = lines_view(failures@);
            if !sr.field_results[j].passed {
                let mut line = String::from_str("Object '");
                line.append(collected_data[i].object_id.as_str());
                line.append("': ");
                line.append(sr.field_results[j].message.as_str());
                let ghost lv = line@;
                failures.push(line);
                assert(lines_view(failures@) =~= prev.push(lv));
            }
            assert(lines_view(failures@) =~= start + object_failures(
                sr.object_id@,
                sr.field_results@.subrange(0, j + 1),
            ));
            j = j + 1;
        }
        assert(sr.field_results@.subrange(0, sr.field_results@.len() as int) =~= sr.field_results@);
        let ghost before = state_results@;
        if sr.combined_result {
            passing = passing + 1;
        }
        state_results.push(sr);
        assert(combined_flags(state_results@).drop_last() =~= combined_flags(before));
        assert(state_results@.drop_last() =~= before);
        i = i + 1;
    }
    let item_passed = evaluate_item_check(test.item_check, passing, state_results.len());
    let status = if item_passed {
        Outcome::Pass
    } else {
        Outcome::Fail
    };
    CtnExecutionResult {
        ctn_type: criterion.criterion_type.clone(),
        status,
        state_results,
        message: summary_text(item_passed, passing, found),
        failures,
        objects_expected: expected,
        objects_found: found,
        objects_passing: passing,
        collected_data,
    }
}

/// Whether every object's data holds every field that the contract requires.
pub open spec fn has_required_fields(contract: CtnContract, data: Seq<CollectedData>) -> bool {
    forall|i: int, j: int|
        0 <= i < data.len() && 0 <= j < contract.required_data_fields.len() ==> lookup(
            #[trigger] data[i].fields@,
            #[trigger] contract.required_data_fields@[j]@,
        ) is Some
}

/// Pre-flight check: every object's data holds every field that the contract requires.
pub fn validate_collected_data(contract: &CtnContract, data: &Vec<CollectedData>) -> (r: Result<(), CtnExecutionError>)
    ensures
        r is Ok <==> has_required_fields(*contract, data@),
        r matches Err(e) ==> (e matches CtnExecutionError::MissingDataField { field } && exists|
            i: int,
            j: int,
        |
            0 <= i < data.len() && 0 <= j < contract.required_data_fields.len()
                && contract.required_data_fields@[j]@ == field@ && lookup(
                #[trigger] data@[i].fields@,
                #[trigger] contract.required_data_fields@[j]@,
            ) is None),
{
    let mut i: usize = 0;
    while i < data.len()
        invariant
            i <= data.len(),
            forall|a: int, b: int|
                0 <= a < i && 0 <= b < contract.required_data_fields.len() ==> lookup(
                    #[trigger] data@[a].fields@,
                    #[trigger] contract.required_data_fields@[b]@,
                ) is Some,
        decreases data.len() - i,
    {
        let mut j: usize = 0;
        while j < contract.required_data_fields.len()
            invariant
                i < data.len(),
                j <= contract.required_data_fields.len(),
                forall|a: int, b: int|
                    0 <= a < i && 0 <= b < contract.required_data_fields.len() ==> lookup(
                        #[trigger] data@[a].fields@,
                        #[trigger] contract.required_data_fields@[b]@,
                    ) is Some,
                forall|b: int|
                    0 <= b < j ==> lookup(
                        data@[i as int].fields@,
                        #[trigger] contract.required_data_fields@[b]@,
                    ) is Some,
            decreases contract.required_data_fields.len() - j,
        {
            if !data[i].has_field(contract.required_data_fields[j].as_str()) {
                return Err(
                    CtnExecutionError::MissingDataField {
                        field: contract.required_data_fields[j].clone(),
                    },
                );
            }
            j = j + 1;
        }
        i = i + 1;
    }
    Ok(())
}

/// The expected fields named `content`, in order.
pub open spec fn content_fields(fields: Seq<StateField>) -> Seq<StateField>
    decreases fields.len(),
{
    if fields.len() == 0 {
        Seq::empty()
    } else {
        content_fields(fields.drop_last()) + if fields.last().name@ == "content"@ {
            seq![fields.last()]
        } else {
            Seq::empty()
        }
    }
}

/// The first object whose file content is missing (`true`) or is not a string (`false`).
pub open spec fn content_problem(data: Seq<CollectedData>) -> Option<bool>
    decreases data.len(),
{
    if data.len() == 0 {
        None
    } else {
        match lookup(data[0].fields@, "file_content"@) {
            None => Some(true),
            Some(ResolvedValue::String(_)) => content_problem(data.drop_first()),
            Some(_) => Some(false),
        }
    }
}

fn find_content_problem(data: &Vec<CollectedData>) -> (r: Option<bool>)
    ensures
        r == content_problem(data@),
{
    let mut i: usize = 0;
    assert(data@.skip(0) =~= data@);
    while i < data.len()
        invariant
            i <= data.len(),
            content_problem(data@) == content_problem(data@.skip(i as int)),
        decreases data.len() - i,
    {
        assert(data@.skip(i as int).drop_first() =~= data@.skip(i + 1));
        assert(data@.skip(i as int)[0] == data@[i as int]);
        match data[i].get_field("file_content") {
            None => {
                return Some(true);
            },
            Some(ResolvedValue::String(_)) => {},
            Some(_) => {
                return Some(false);
            },
        }
        i = i + 1;
    }
    None
}

fn content_state(states: &Vec<State>) -> (r: State)
    ensures
        r.fields@ == content_fields(flat_fields(states@)),
{
    let all = flatten_states(states);
    let mut kept: Vec<StateField> = Vec::new();
    let mut i: usize = 0;
    assert(all@.subrange(0, 0) =~= Seq::<StateField>::empty());
    while i < all.len()
        invariant
            i <= all.len(),
            all@ == flat_fields(states@),
            kept@ == content_fields(all@.subrange(0, i as int)),
        decreases all.len() - i,
    {
        assert(all@.subrange(0, i + 1).drop_last() =~= all@.subrange(0, i as int));
        let f = &all[i];
        if crate::text::str_eq(f.name.as_str(), "content") {
            kept.push(StateField { name: f.name.clone(), value: clone_value(&f.value), operation: f.operation });
        }
        assert(kept@ =~= content_fields(all@.subrange(0, i + 1)));
        i = i + 1;
    }
    assert(all@.subrange(0, all.len() as int) =~= all@);
    State { fields: kept }
}

proof fn lemma_flat_single(st: State)
    ensures
        flat_fields(seq![st]) == st.fields@,
{
    assert(seq![st].drop_last() =~= Seq::<State>::empty());
    assert(seq![st].last() == st);
    assert(flat_fields(Seq::<State>::empty()) == Seq::<StateField>::empty());
    assert(flat_fields(seq![st]) == flat_fields(Seq::<State>::empty()) + st.fields@);
    assert(flat_fields(seq![st]) =~= st.fields@);
}

/// The result of a file-content criterion over collected data.
pub open spec fn content_outcome(contract: CtnContract, criterion: ExecutableCriterion, collected_data: Seq<CollectedData>, r: Result<CtnExecutionResult, CtnExecutionError>) -> bool {
    &&& (!existence_spec(
            criterion.test.existence_check,
            collected_data.len() as nat,
            criterion.objects.len() as nat,
        ) ==> (r matches Ok(res) && res.status == Outcome::Fail && res.state_results@.len() == 0
            && res.collected_data@ == collected_data && res.message@ == existence_message(
            criterion.objects.len() as nat,
            collected_data.len() as nat,
        )))
    &&& (existence_spec(
            criterion.test.existence_check,
            collected_data.len() as nat,
            criterion.objects.len() as nat,
        ) ==> {
            &&& content_problem(collected_data) == Some(true) ==> (r matches Err(e)
                && e is MissingDataField)
            &&& content_problem(collected_data) == Some(false) ==> (r matches Err(e)
                && e is DataValidationFailed)
            &&& content_problem(collected_data) is None ==> (r matches Ok(res) && {
                &&& res.state_results@.len() == collected_data.len()
                &&& forall|i: int|
                    0 <= i < collected_data.len() ==> state_result_matches(
                        contract.state_to_data@,
                        content_fields(flat_fields(criterion.states@)),
                        criterion.test.state_operator,
                        collected_data[i],
                        #[trigger] res.state_results@[i],
                    )
                &&& res.objects_passing == count_true(combined_flags(res.state_results@))
                &&& res.status == (if item_spec(
                    criterion.test.item_check,
                    res.objects_passing as nat,
                    collected_data.len() as nat,
                ) {
                    Outcome::Pass
                } else {
                    Outcome::Fail
                })
            })
        })
}

/// Runs a file-content criterion: the existence check first; then every object's data
/// must hold its content as a string (else `MissingDataField` or `DataValidationFailed`
/// for the first object without); then the `content` fields are validated against it.
pub fn execute_file_content(
    contract: &CtnContract,
    criterion: &ExecutableCriterion,
    collected_data: Vec<CollectedData>,
) -> (r: Result<CtnExecutionResult, CtnExecutionError>)
    requires
        distinct_object_ids(collected_data@),
    ensures
        content_outcome(*contract, *criterion, collected_data@, r),
{
    let test = criterion.test;
    if !evaluate_existence_check(test.existence_check, collected_data.len(), criterion.objects.len()) {
        return Ok(execute_with_contract(contract, criterion, collected_data));
    }
    match find_content_problem(&collected_data) {
        Some(true) => {
            return Err(CtnExecutionError::MissingDataField { field: String::from_str("file_content") });
        },
        Some(false) => {
            return Err(
                CtnExecutionError::DataValidationFailed {
                    reason: String::from_str("file_content field is not a string"),
                },
            );
        },
        None => {},
    }
    let st = content_state(&criterion.states);
    let mut objects: Vec<String> = Vec::new();
    let mut i: usize = 0;
    while i < criterion.objects.len()
        invariant
            i <= criterion.objects.len(),
            objects.len() == i,
        decreases criterion.objects.len() - i,
    {
        objects.push(criterion.objects[i].clone());
        i = i + 1;
    }
    let ghost st_view = st;
    let mut states: Vec<State> = Vec::new();
    states.push(st);
    proof {
        lemma_flat_single(st_view);
        assert(states@ =~= seq![st_view]);
    }
    let narrowed = ExecutableCriterion {
        criterion_type: criterion.criterion_type.clone(),
        test,
        objects,
        states,
    };
    Ok(execute_with_contract(contract, &narrowed, collected_data))
}

/// The result of the stand-in evaluation of a computed-values criterion.
pub open spec fn computed_outcome(criterion: ExecutableCriterion, collected_data: Seq<CollectedData>, r: CtnExecutionResult) -> bool {
    &&& (r.objects_expected == criterion.objects.len())
    &&& (r.objects_found == collected_data.len())
    &&& (r.collected_data@ == collected_data)
    &&& (!existence_spec(
            criterion.test.existence_check,
            collected_data.len() as nat,
            criterion.objects.len() as nat,
        ) ==> {
            &&& r.status == Outcome::Fail
            &&& r.state_results@.len() == 0
            &&& r.message@ == existence_message(
                criterion.objects.len() as nat,
                collected_data.len() as nat,
            )
        })
    &&& (existence_spec(
            criterion.test.existence_check,
            collected_data.len() as nat,
            criterion.objects.len() as nat,
        ) ==> {
            &&& r.state_results@.len() == collected_data.len()
            &&& forall|i: int|
                0 <= i < collected_data.len() ==> {
                    &&& (#[trigger] r.state_results@[i]).object_id@ == collected_data[i].object_id@
                    &&& r.state_results@[i].field_results@.len() == flat_fields(criterion.states@).len()
                    &&& forall|j: int|
                        0 <= j < r.state_results@[i].field_results@.len()
                            ==> (#[trigger] r.state_results@[i].field_results@[j]).passed
                    &&& r.state_results@[i].combined_result == state_operator_spec(
                        criterion.test.state_operator,
                        field_flags(r.state_results@[i].field_results@),
                    )
                }
            &&& r.objects_passing == count_true(combined_flags(r.state_results@))
            &&& r.status == (if item_spec(
                criterion.test.item_check,
                r.objects_passing as nat,
                collected_data.len() as nat,
            ) {
                Outcome::Pass
            } else {
                Outcome::Fail
            })
        })
}

/// Runs a computed-values criterion. The resolved variables these checks compare
/// against do not reach the executor, so every expected field is recorded as passing:
/// this executor is a stand-in, and its verdict says nothing about the values. Objects
/// found are the collected-data entries, as for every other criterion type.
pub fn execute_computed_values(
    criterion: &ExecutableCriterion,
    collected_data: Vec<CollectedData>,
) -> (r: CtnExecutionResult)
    requires
        distinct_object_ids(collected_data@),
    ensures
        computed_outcome(*criterion, collected_data@, r),
{
    let test = criterion.test;
    let expected = criterion.objects.len();
    let n = collected_data.len();
    if !evaluate_existence_check(test.existence_check, n, expected) {
        return CtnExecutionResult {
            ctn_type: criterion.criterion_type.clone(),
            status: Outcome::Fail,
            state_results: Vec::new(),
            message: existence_failure_message(expected, n),
            failures: Vec::new(),
            objects_expected: expected,
            objects_found: n,
            objects_passing: 0,
            collected_data,
        };
    }
    let fields = flatten_states(&criterion.states);
    let mut state_results: Vec<StateValidationResult> = Vec::new();
    let mut passing: usize = 0;
    let mut i: usize = 0;
    while i < n
        invariant
            n == collected_data.len(),
            i <= n,
            fields@ == flat_fields(criterion.states@),
            state_results@.len() == i,
            passing == count_true(combined_flags(state_results@)),
            passing <= i,
            forall|k: int|
                0 <= k < i ==> {
                    &&& (#[trigger] state_results@[k]).object_id@ == collected_data@[k].object_id@
                    &&& state_results@[k].field_results@.len() == fields@.len()
                    &&& forall|j: int|
                        0 <= j < state_results@[k].field_results@.len()
                            ==> (#[trigger] state_results@[k].field_results@[j]).passed
                    &&& state_results@[k].combined_result == state_operator_spec(
                        test.state_operator,
                        field_flags(state_results@[k].field_results@),
                    )
                },
        decreases n - i,
    {
        let mut results: Vec<FieldValidationResult> = Vec::new();
        let mut flags: Vec<bool> = Vec::new();
        let mut j: usize = 0;
        while j < fields.len()
            invariant
                j <= fields.len(),
                results@.len() == j,
                flags@ == field_flags(results@),
                forall|k: int| 0 <= k < j ==> (#[trigger] results@[k]).passed,
            decreases fields.len() - j,
        {
            let f = &fields[j];
            let mut msg = String::from_str("Variable '");
            msg.append(f.name.as_str());
            msg.append("' not validated: resolved variables are not available");
            results.push(
                FieldValidationResult {
                    field_name: f.name.clone(),
                    expected_value: clone_value(&f.value),
                    actual_value: ResolvedValue::String(String::new()),
                    operation: f.operation,
                    passed: true,
                    message: msg,
                },
            );
            flags.push(true);
            j = j + 1;
            assert(flags@ =~= field_flags(results@));
        }
        let combined = evaluate_state_operator(test.state_operator, &flags);
        let ghost before = state_results@;
        if combined {
            passing = passing + 1;
        }
        state_results.push(
            StateValidationResult {
                object_id: collected_data[i].object_id.clone(),
                field_results: results,
                combined_result: combined,
                state_operator: test.state_operator,
            },
        );
        assert(combined_flags(state_results@).drop_last() =~= combined_flags(before));
        i = i + 1;
    }
    let item_passed = evaluate_item_check(test.item_check, passing, n);
    CtnExecutionResult {
        ctn_type: criterion.criterion_type.clone(),
        status: if item_passed {
            Outcome::Pass
        } else {
            Outcome::Fail
        },
        state_results,
        message: summary_text(item_passed, passing, n),
        failures: Vec::new(),
        objects_expected: expected,
        objects_found: n,
        objects_passing: passing,
        collected_data,
    }
}

/// A state field that no mapping names is compared against the collected field of its
/// own name.
pub proof fn lemma_unmapped_field_reads_own_name(
    maps: Seq<FieldMapping>,
    data: Seq<DataField>,
    f: StateField,
)
    requires
        forall|i: int| 0 <= i < maps.len() ==> (#[trigger] maps[i]).state_field@ != f.name@,
    ensures
        field_passed(maps, data, f) == match lookup(data, f.name@) {
            Some(v) => compare_spec(f.value, v, f.operation),
            None => false,
        },
{
    crate::data::lemma_unmapped_field_uses_own_name(maps, f.name@);
}

} // verus!
