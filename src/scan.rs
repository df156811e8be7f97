use vstd::prelude::*;
use vstd::string::*;

use crate::hashing::OutputError;
use crate::registry::StrategyError;

verus! {

/// Severity of a policy, as declared in its metadata.
#[derive(Debug, Clone, Copy, PartialEq, Eq, Structural)]
pub enum Criticality {
    Critical,
    High,
    Medium,
    Low,
    Info,
}

/// Overall outcome of a policy or of one criterion.
#[derive(Debug, Clone, Copy, PartialEq, Eq, Structural)]
pub enum Outcome {
    Pass,
    Fail,
    Error,
}

/// Tally of criteria evaluated for one policy.
#[derive(Debug, Clone, Copy, PartialEq, Eq, Structural)]
pub struct CriteriaCounts {
    pub total: usize,
    pub passed: usize,
    pub failed: usize,
    pub error: usize,
}

/// One scanned policy's result, with the hashes computed by the engine.
#[derive(Debug, Clone)]
pub struct ScanResult {
    pub policy_id: String,
    pub platform: String,
    pub criticality: Criticality,
    pub outcome: Outcome,
    pub tree_passed: bool,
    pub criteria_counts: CriteriaCounts,
    pub findings: Vec<String>,
    pub content_hash: String,
    pub evidence_hash: String,
}

/// Output format for scan results.
#[derive(Debug, Clone, Copy, PartialEq, Eq, Structural)]
pub enum OutputFormat {
    Summary,
    Full,
    Attestation,
    Assessor,
}

pub open spec fn default_filename_spec(f: OutputFormat) -> Seq<char> {
    match f {
        OutputFormat::Summary => "summary.json"@,
        OutputFormat::Full => "results.json"@,
        OutputFormat::Attestation => "attestation.json"@,
        OutputFormat::Assessor => "assessor_package.json"@,
    }
}

pub open spec fn format_name_spec(f: OutputFormat) -> Seq<char> {
    match f {
        OutputFormat::Summary => "summary"@,
        OutputFormat::Full => "full"@,
        OutputFormat::Attestation => "attestation"@,
        OutputFormat::Assessor => "assessor"@,
    }
}

impl OutputFormat {
    /// The default output filename for this format.
    pub fn default_filename(&self) -> (r: &'static str)
        ensures
            r@ == default_filename_spec(*self),
    {
        match self {
            OutputFormat::Summary => "summary.json",
            OutputFormat::Full => "results.json",
            OutputFormat::Attestation => "attestation.json",
            OutputFormat::Assessor => "assessor_package.json",
        }
    }

    /// The lower-case name of this format, as written on the command line.
    pub fn to_string(&self) -> (r: String)
        ensures
            r@ == format_name_spec(*self),
    {
        match self {
            OutputFormat::Summary => String::from_str("summary"),
            OutputFormat::Full => String::from_str("full"),
            OutputFormat::Attestation => String::from_str("attestation"),
            OutputFormat::Assessor => String::from_str("assessor"),
        }
    }
}

/// Tallies of a whole scan run.
#[derive(Debug)]
pub struct ScanSummary {
    pub total_files: usize,
    pub passed: usize,
    pub failed: usize,
    pub errors: usize,
}

pub open spec fn exit_code_spec(errors: nat, failed: nat) -> i32 {
    if errors > 0 {
        2
    } else if failed > 0 {
        1
    } else {
        0
    }
}

impl ScanSummary {
    /// A summary for a run over `total_files` files, with nothing tallied yet.
    pub fn new(total_files: usize) -> (r: Self)
        ensures
            r.total_files == total_files,
            r.passed == 0,
            r.failed == 0,
            r.errors == 0,
    {
        ScanSummary { total_files, passed: 0, failed: 0, errors: 0 }
    }

    /// Process exit code: errors outrank failures.
    pub fn exit_code(&self) -> (r: i32)
        ensures
            r == exit_code_spec(self.errors as nat, self.failed as nat),
    {
        if self.errors > 0 {
            2
        } else if self.failed > 0 {
            1
        } else {
            0
        }
    }
}

/// Number of results whose policy tree passed.
pub open spec fn count_passed(rs: Seq<ScanResult>) -> nat
    decreases rs.len(),
{
    if rs.len() == 0 {
        0
    } else {
        count_passed(rs.drop_last()) + if rs.last().tree_passed {
            1nat
        } else {
            0nat
        }
    }
}

/// Pass/fail tallies of the summary output.
#[derive(Debug, Clone, Copy, PartialEq, Eq, Structural)]
pub struct SummaryCounts {
    pub total_policies: usize,
    pub passed: usize,
    pub failed: usize,
}

/// Counts the policies that passed and those that failed.
pub fn summary_counts(results: &Vec<ScanResult>) -> (r: SummaryCounts)
    ensures
        r.total_policies == results.len(),
        r.passed == count_passed(results@),
        r.failed == results.len() - count_passed(results@),
{
    let mut passed: usize = 0;
    let mut failed: usize = 0;
    let mut i: usize = 0;
    while i < results.len()
        invariant
            i <= results.len(),
            passed == count_passed(results@.subrange(0, i as int)),
            passed + failed == i,
        decreases results.len() - i,
    {
        assert(results@.subrange(0, i + 1).drop_last() =~= results@.subrange(0, i as int));
        if results[i].tree_passed {
            passed = passed + 1;
        } else {
            failed = failed + 1;
        }
        i = i + 1;
    }
    assert(results@.subrange(0, results.len() as int) =~= results@);
    SummaryCounts { total_policies: results.len(), passed, failed }
}

/// Folds per-policy results into the run's summary.
pub fn summarize_results(results: &Vec<ScanResult>, errors: usize) -> (r: ScanSummary)
    requires
        results.len() + errors <= usize::MAX,
    ensures
        r.total_files == results.len() + errors,
        r.passed == count_passed(results@),
        r.failed == results.len() - count_passed(results@),
        r.errors == errors,
{
    let counts = summary_counts(results);
    let mut s = ScanSummary::new(results.len() + errors);
    s.passed = counts.passed;
    s.failed = counts.failed;
    s.errors = errors;
    s
}

/// Whether a scan result is compliant.
pub fn is_compliant(result: &ScanResult) -> (r: bool)
    ensures
        r == result.tree_passed,
{
    result.tree_passed
}

/// The results of the files that were scanned, in order.
pub open spec fn scanned(outcomes: Seq<Result<ScanResult, String>>) -> Seq<ScanResult>
    decreases outcomes.len(),
{
    if outcomes.len() == 0 {
        Seq::empty()
    } else {
        scanned(outcomes.drop_last()) + match outcomes.last() {
            Ok(r) => seq![r],
            Err(_) => Seq::empty(),
        }
    }
}

/// Number of files whose scan failed.
pub open spec fn error_count(outcomes: Seq<Result<ScanResult, String>>) -> nat
    decreases outcomes.len(),
{
    if outcomes.len() == 0 {
        0
    } else {
        error_count(outcomes.drop_last()) + if outcomes.last() is Err {
            1nat
        } else {
            0nat
        }
    }
}

proof fn lemma_tally_bounds(outcomes: Seq<Result<ScanResult, String>>)
    ensures
        scanned(outcomes).len() + error_count(outcomes) == outcomes.len(),
        count_passed(scanned(outcomes)) <= scanned(outcomes).len(),
    decreases outcomes.len(),
{
    if outcomes.len() > 0 {
        lemma_tally_bounds(outcomes.drop_last());
        let prev = scanned(outcomes.drop_last());
        match outcomes.last() {
            Ok(r) => {
                assert(scanned(outcomes) =~= prev.push(r));
                assert(scanned(outcomes).drop_last() =~= prev);
            },
            Err(_) => {
                assert(scanned(outcomes) =~= prev);
            },
        }
    }
}

/// Folds the outcome of each file's scan into the results and the run's tallies: a
/// scanned policy counts as passed or failed, a file that could not be scanned as an
/// error.
pub fn tally_scans(outcomes: Vec<Result<ScanResult, String>>) -> (r: (Vec<ScanResult>, ScanSummary))
    ensures
        r.0@ == scanned(outcomes@),
        r.1.total_files == outcomes.len(),
        r.1.passed == count_passed(scanned(outcomes@)),
        r.1.failed == scanned(outcomes@).len() - count_passed(scanned(outcomes@)),
        r.1.errors == error_count(outcomes@),
{
    let total = outcomes.len();
    let ghost all = outcomes@;
    let mut results: Vec<ScanResult> = Vec::new();
    let mut summary = ScanSummary::new(total);
    let mut rest = outcomes;
    let mut taken: usize = 0;
    proof {
        assert(all.subrange(0, 0) =~= Seq::<Result<ScanResult, String>>::empty());
        assert(all.skip(0) =~= all);
    }
    while rest.len() > 0
        invariant
            all.len() == total,
            taken + rest.len() == total,
            rest@ == all.skip(taken as int),
            results@ == scanned(all.subrange(0, taken as int)),
            summary.total_files == total,
            summary.passed == count_passed(scanned(all.subrange(0, taken as int))),
            summary.failed == scanned(all.subrange(0, taken as int)).len() - count_passed(
                scanned(all.subrange(0, taken as int)),
            ),
            summary.errors == error_count(all.subrange(0, taken as int)),
            scanned(all.subrange(0, taken as int)).len() + error_count(all.subrange(0, taken as int))
                == taken,
            count_passed(scanned(all.subrange(0, taken as int))) <= scanned(
                all.subrange(0, taken as int),
            ).len(),
        decreases rest.len(),
    {
        let ghost prefix = all.subrange(0, taken as int);
        let ghost next = all.subrange(0, taken + 1);
        assert(next.drop_last() =~= prefix);
        assert(next.last() == rest@[0]);
        proof {
            lemma_tally_bounds(next);
        }
        let o = rest.remove(0);
        assert(rest@ =~= all.skip(taken + 1));
        match o {
            Ok(r) => {
                let ghost before = results@;
                if r.tree_passed {
                    summary.passed = summary.passed + 1;
                } else {
                    summary.failed = summary.failed + 1;
                }
                results.push(r);
                assert(scanned(next) =~= before.push(r));
                assert(scanned(next).drop_last() =~= before);
            },
            Err(_) => {
                summary.errors = summary.errors + 1;
                assert(scanned(next) =~= scanned(prefix));
            },
        }
        taken = taken + 1;
    }
    assert(all.subrange(0, total as int) =~= all);
    (results, summary)
}

/// Errors of a scan run.
#[derive(Debug)]
pub enum ScanError {
    Registry(StrategyError),
    Output(OutputError),
    WriteFile(String, String),
}

} // verus!
