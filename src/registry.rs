use vstd::prelude::*;
use vstd::string::*;

use crate::contracts::{
    create_computed_values_contract, create_file_content_contract, create_file_metadata_contract,
    create_json_record_contract, create_k8s_resource_contract, create_tcp_listener_contract,
};
use crate::data::{
    CollectedData, CollectionError, CollectionMethod, CollectionMethodType, CtnContract,
    ExecutableObject,
};
use crate::executor::{
    computed_outcome, content_outcome, distinct_object_ids, execute_computed_values,
    execute_file_content, execute_with_contract, generic_outcome, CtnExecutionError,
    CtnExecutionResult, ExecutableCriterion,
};
use crate::filesystem::FileSystemCollector;
use crate::k8s::K8sResourceCollector;
use crate::tcp::TcpListenerCollector;
use crate::text::str_eq;

verus! {

/// Collector of computed values: it gathers nothing, since the values come from resolved
/// variables rather than from the host.
pub struct ComputedValuesCollector {
    pub id: String,
}

impl ComputedValuesCollector {
    pub fn new() -> (r: Self)
        ensures
            r.id@ == "computed_values_collector"@,
    {
        ComputedValuesCollector { id: String::from_str("computed_values_collector") }
    }

    pub fn collector_id(&self) -> (r: &str)
        ensures
            r@ == self.id@,
    {
        self.id.as_str()
    }

    pub fn supports_batch_collection(&self) -> (r: bool)
        ensures
            !r,
    {
        false
    }

    /// Refuses a contract of another criterion type.
    pub fn validate_ctn_compatibility(&self, contract: &CtnContract) -> (r: Result<(), CollectionError>)
        ensures
            r is Ok <==> contract.ctn_type@ == "computed_values"@,
            r matches Err(e) ==> e is CtnContractValidation,
    {
        if !str_eq(contract.ctn_type.as_str(), "computed_values") {
            let mut reason = String::from_str("Incompatible CTN type: expected 'computed_values', got '");
            reason.append(contract.ctn_type.as_str());
            reason.append("'");
            return Err(CollectionError::CtnContractValidation { reason });
        }
        Ok(())
    }

    /// Empty data for an object, marked as computed.
    pub fn collect_for_ctn_with_hints(&self, object: &ExecutableObject) -> (r: Result<CollectedData, CollectionError>)
        ensures
            r matches Ok(d) && d.object_id == object.identifier && d.fields@.len() == 0
                && d.ctn_type@ == "computed_values"@,
    {
        let mut data = CollectedData::new(
            object.identifier.clone(),
            String::from_str("computed_values"),
            self.id.clone(),
        );
        data.set_method(
            CollectionMethod {
                method_type: CollectionMethodType::Computed,
                description: String::from_str(
                    "Computed value - no actual system collection performed",
                ),
                target: String::new(),
                command: None,
                inputs: Vec::new(),
            },
        );
        Ok(data)
    }
}

/// The collectors that a registry can pair with executors.
pub enum Collector {
    FileSystem(FileSystemCollector),
    TcpListener(TcpListenerCollector),
    ComputedValues(ComputedValuesCollector),
    K8sResource(K8sResourceCollector),
}

/// Criterion types that a collector serves.
pub open spec fn collector_types(c: &Collector) -> Seq<Seq<char>> {
    match c {
        Collector::FileSystem(_) => seq!["file_metadata"@, "file_content"@, "json_record"@],
        Collector::TcpListener(_) => seq!["tcp_listener"@],
        Collector::ComputedValues(_) => seq!["computed_values"@],
        Collector::K8sResource(_) => seq!["k8s_resource"@],
    }
}

impl Collector {
    /// Whether this collector serves `ctn_type`.
    pub fn supports(&self, ctn_type: &str) -> (r: bool)
        ensures
            r == collector_types(self).contains(ctn_type@),
    {
        let r = match self {
            Collector::FileSystem(_) => str_eq(ctn_type, "file_metadata") || str_eq(ctn_type, "file_content")
                || str_eq(ctn_type, "json_record"),
            Collector::TcpListener(_) => str_eq(ctn_type, "tcp_listener"),
            Collector::ComputedValues(_) => str_eq(ctn_type, "computed_values"),
            Collector::K8sResource(_) => str_eq(ctn_type, "k8s_resource"),
        };
        proof {
            let ts = collector_types(self);
            if r {
                if ts.len() == 3 {
                    if ctn_type@ == ts[0] {
                    } else if ctn_type@ == ts[1] {
                    } else {
                        assert(ctn_type@ == ts[2]);
                    }
                } else {
                    assert(ctn_type@ == ts[0]);
                }
            }
        }
        r
    }

    pub fn collector_id(&self) -> (r: &str) {
        match self {
            Collector::FileSystem(c) => c.collector_id(),
            Collector::TcpListener(c) => c.collector_id(),
            Collector::ComputedValues(c) => c.collector_id(),
            Collector::K8sResource(c) => c.collector_id(),
        }
    }
}

/// Executor of one criterion type, bound to its contract.
pub struct CtnExecutor {
    pub contract: CtnContract,
}

impl CtnExecutor {
    pub fn new(contract: CtnContract) -> (r: Self)
        ensures
            r.contract == contract,
    {
        CtnExecutor { contract }
    }

    pub fn ctn_type(&self) -> (r: &str)
        ensures
            r@ == self.contract.ctn_type@,
    {
        self.contract.ctn_type.as_str()
    }

    /// Runs a criterion over its collected data with the evaluation of this executor's
    /// criterion type: file content and computed values have their own, every other type
    /// the common three-phase evaluation.
    pub fn execute(&self, criterion: &ExecutableCriterion, collected_data: Vec<CollectedData>) -> (r: Result<
        CtnExecutionResult,
        CtnExecutionError,
    >)
        requires
            distinct_object_ids(collected_data@),
        ensures
            self.contract.ctn_type@ == "file_content"@ ==> content_outcome(
                self.contract,
                *criterion,
                collected_data@,
                r,
            ),
            self.contract.ctn_type@ == "computed_values"@ ==> (r matches Ok(res) && computed_outcome(
                *criterion,
                collected_data@,
                res,
            )),
            (self.contract.ctn_type@ != "file_content"@ && self.contract.ctn_type@
                != "computed_values"@) ==> (r matches Ok(res) && generic_outcome(
                self.contract,
                *criterion,
                collected_data@,
                res,
            )),
    {
        proof {
            reveal_strlit("file_content");
            reveal_strlit("computed_values");
            assert("file_content"@.len() != "computed_values"@.len());
        }
        if str_eq(self.contract.ctn_type.as_str(), "file_content") {
            execute_file_content(&self.contract, criterion, collected_data)
        } else if str_eq(self.contract.ctn_type.as_str(), "computed_values") {
            Ok(execute_computed_values(criterion, collected_data))
        } else {
            Ok(execute_with_contract(&self.contract, criterion, collected_data))
        }
    }
}

/// A registered (collector, executor) pair.
pub struct CtnStrategy {
    pub collector: Collector,
    pub executor: CtnExecutor,
}

/// Errors of strategy registration.
#[derive(Debug, Clone)]
pub enum StrategyError {
    IncompatibleCollector { ctn_type: String, collector_id: String },
    DuplicateRegistration { ctn_type: String },
}

pub open spec fn strategy_error_text(e: StrategyError) -> Seq<char> {
    match e {
        StrategyError::IncompatibleCollector { ctn_type, collector_id } => "Collector '"@
            + collector_id@ + "' does not support CTN type '"@ + ctn_type@ + "'"@,
        StrategyError::DuplicateRegistration { ctn_type } => "CTN type '"@ + ctn_type@
            + "' is already registered"@,
    }
}

impl StrategyError {
    /// The message of this error.
    pub fn to_string(&self) -> (r: String)
        ensures
            r@ == strategy_error_text(*self),
    {
        match self {
            StrategyError::IncompatibleCollector { ctn_type, collector_id } => {
                let mut r = String::from_str("Collector '");
                r.append(collector_id.as_str());
                r.append("' does not support CTN type '");
                r.append(ctn_type.as_str());
                r.append("'");
                r
            },
            StrategyError::DuplicateRegistration { ctn_type } => {
                let mut r = String::from_str("CTN type '");
                r.append(ctn_type.as_str());
                r.append("' is already registered");
                r
            },
        }
    }
}

/// Summary of a registry.
#[derive(Debug, Clone, Copy, PartialEq, Eq, Structural)]
pub struct RegistryStatistics {
    pub total_ctn_types: usize,
    pub registry_healthy: bool,
}

/// Lookup table from criterion type to its collector and executor; each type at most
/// once, each collector serving its executor's type.
pub struct CtnStrategyRegistry {
    strategies: Vec<CtnStrategy>,
}

pub open spec fn strategy_type(s: CtnStrategy) -> Seq<char> {
    s.executor.contract.ctn_type@
}

impl CtnStrategyRegistry {
    /// The registered criterion types, in order of registration.
    pub closed spec fn types(&self) -> Seq<Seq<char>> {
        self.strategies@.map_values(|s: CtnStrategy| strategy_type(s))
    }

    /// Types are unique, and every collector serves its executor's type.
    pub closed spec fn wf(&self) -> bool {
        &&& self.types().no_duplicates()
        &&& forall|i: int|
            0 <= i < self.strategies@.len() ==> collector_types(&(#[trigger] self.strategies@[i]).collector).contains(
                strategy_type(self.strategies@[i]),
            )
    }

    pub fn new() -> (r: Self)
        ensures
            r.wf(),
            r.types().len() == 0,
    {
        let r = CtnStrategyRegistry { strategies: Vec::new() };
        assert(r.types() =~= Seq::<Seq<char>>::empty());
        r
    }

    fn position(&self, ctn_type: &str) -> (r: Option<usize>)
        ensures
            r matches Some(i) ==> i < self.types().len() && self.types()[i as int] == ctn_type@,
            r is None ==> !self.types().contains(ctn_type@),
    {
        let mut i: usize = 0;
        while i < self.strategies.len()
            invariant
                i <= self.strategies.len(),
                forall|k: int| 0 <= k < i ==> self.types()[k] != ctn_type@,
            decreases self.strategies.len() - i,
        {
            if str_eq(self.strategies[i].executor.contract.ctn_type.as_str(), ctn_type) {
                return Some(i);
            }
            i = i + 1;
        }
        None
    }

    /// Registers a collector and an executor for the executor's criterion type. Fails
    /// when the collector does not serve that type, or when the type is registered
    /// already; the registry is then unchanged.
    pub fn register_ctn_strategy(&mut self, collector: Collector, executor: CtnExecutor) -> (r: Result<(), StrategyError>)
        requires
            old(self).wf(),
        ensures
            final(self).wf(),
            r is Ok <==> (collector_types(&collector).contains(executor.contract.ctn_type@)
                && !old(self).types().contains(executor.contract.ctn_type@)),
            r is Ok ==> final(self).types() == old(self).types().push(executor.contract.ctn_type@),
            r is Err ==> final(self).types() == old(self).types(),
    {
        if !collector.supports(executor.contract.ctn_type.as_str()) {
            return Err(
                StrategyError::IncompatibleCollector {
                    ctn_type: executor.contract.ctn_type.clone(),
                    collector_id: String::from_str(collector.collector_id()),
                },
            );
        }
        match self.position(executor.contract.ctn_type.as_str()) {
            Some(_) => {
                return Err(StrategyError::DuplicateRegistration { ctn_type: executor.contract.ctn_type.clone() });
            },
            None => {},
        }
        let ghost old_types = self.types();
        let s = CtnStrategy { collector, executor };
        self.strategies.push(s);
        assert(self.types() =~= old_types.push(strategy_type(s)));
        proof {
            assert forall|i: int, j: int|
                0 <= i < j < self.types().len() implies self.types()[i] != self.types()[j] by {
                if j == self.types().len() - 1 {
                    assert(!old_types.contains(strategy_type(s)));
                    assert(old_types[i] == self.types()[i]);
                } else {
                    assert(old_types[i] == self.types()[i]);
                    assert(old_types[j] == self.types()[j]);
                }
            }
        }
        Ok(())
    }

    /// The strategy registered for `ctn_type`.
    pub fn get_strategy(&self, ctn_type: &str) -> (r: Option<&CtnStrategy>)
        ensures
            r is Some <==> self.types().contains(ctn_type@),
            r matches Some(s) ==> strategy_type(*s) == ctn_type@,
    {
        match self.position(ctn_type) {
            Some(i) => {
                assert(self.types()[i as int] == strategy_type(self.strategies@[i as int]));
                Some(&self.strategies[i])
            },
            None => None,
        }
    }

    /// Number of registered types, and health: at least one, every pair consistent.
    pub fn get_statistics(&self) -> (r: RegistryStatistics)
        requires
            self.wf(),
        ensures
            r.total_ctn_types == self.types().len(),
            r.registry_healthy == (self.types().len() > 0),
    {
        RegistryStatistics {
            total_ctn_types: self.strategies.len(),
            registry_healthy: self.strategies.len() > 0,
        }
    }
}

pub open spec fn scanner_types() -> Seq<Seq<char>> {
    seq![
        "file_metadata"@,
        "file_content"@,
        "computed_values"@,
        "json_record"@,
        "tcp_listener"@,
        "k8s_resource"@,
    ]
}

/// The registry of the agent: file metadata, file content, computed values, JSON
/// records, TCP listeners and Kubernetes resources.
pub fn create_scanner_registry() -> (r: Result<CtnStrategyRegistry, StrategyError>)
    ensures
        r matches Ok(reg) && reg.wf() && reg.types() == scanner_types(),
{
    proof {
        reveal_strlit("file_metadata");
        reveal_strlit("file_content");
        reveal_strlit("computed_values");
        reveal_strlit("json_record");
        reveal_strlit("tcp_listener");
        reveal_strlit("k8s_resource");
        assert(seq!["computed_values"@][0] == "computed_values"@);
        assert(seq!["computed_values"@].contains("computed_values"@));
        assert(seq!["tcp_listener"@][0] == "tcp_listener"@);
        assert(seq!["tcp_listener"@].contains("tcp_listener"@));
        assert(seq!["k8s_resource"@][0] == "k8s_resource"@);
        assert(seq!["k8s_resource"@].contains("k8s_resource"@));
        assert("file_metadata"@.len() == 13);
        assert("file_content"@.len() == 12);
        assert("computed_values"@.len() == 15);
        assert("json_record"@.len() == 11);
        assert("tcp_listener"@.len() == 12);
        assert("k8s_resource"@.len() == 12);
        assert("file_metadata"@ != "file_content"@);
        assert("file_metadata"@ != "computed_values"@);
        assert("file_metadata"@ != "json_record"@);
        assert("file_metadata"@ != "tcp_listener"@);
        assert("file_metadata"@ != "k8s_resource"@);
        assert("file_content"@ != "computed_values"@);
        assert("file_content"@ != "json_record"@);
        assert("file_content"@[0] == 'f' && "tcp_listener"@[0] == 't');
        assert("file_content"@ != "tcp_listener"@);
        assert("file_content"@[0] == 'f' && "k8s_resource"@[0] == 'k');
        assert("file_content"@ != "k8s_resource"@);
        assert("computed_values"@ != "json_record"@);
        assert("computed_values"@ != "tcp_listener"@);
        assert("computed_values"@ != "k8s_resource"@);
        assert("json_record"@ != "tcp_listener"@);
        assert("json_record"@ != "k8s_resource"@);
        assert("tcp_listener"@[0] == 't' && "k8s_resource"@[0] == 'k');
        assert("tcp_listener"@ != "k8s_resource"@);
    }
    let mut registry = CtnStrategyRegistry::new();
    registry.register_ctn_strategy(
        Collector::FileSystem(FileSystemCollector::new()),
        CtnExecutor::new(create_file_metadata_contract()),
    )?;
    assert(registry.types() =~= seq!["file_metadata"@]);
    registry.register_ctn_strategy(
        Collector::FileSystem(FileSystemCollector::new()),
        CtnExecutor::new(create_file_content_contract()),
    )?;
    assert(registry.types() =~= seq!["file_metadata"@, "file_content"@]);
    registry.register_ctn_strategy(
        Collector::ComputedValues(ComputedValuesCollector::new()),
        CtnExecutor::new(create_computed_values_contract()),
    )?;
    assert(registry.types() =~= seq!["file_metadata"@, "file_content"@, "computed_values"@]);
    registry.register_ctn_strategy(
        Collector::FileSystem(FileSystemCollector::new()),
        CtnExecutor::new(create_json_record_contract()),
    )?;
    assert(registry.types() =~= seq!["file_metadata"@, "file_content"@, "computed_values"@, "json_record"@]);
    registry.register_ctn_strategy(
        Collector::TcpListener(TcpListenerCollector::new()),
        CtnExecutor::new(create_tcp_listener_contract()),
    )?;
    assert(registry.types() =~= seq!["file_metadata"@, "file_content"@, "computed_values"@, "json_record"@, "tcp_listener"@]);
    registry.register_ctn_strategy(
        Collector::K8sResource(K8sResourceCollector::new("k8s-resource-collector")),
        CtnExecutor::new(create_k8s_resource_contract()),
    )?;
    assert(registry.types() =~= seq!["file_metadata"@, "file_content"@, "computed_values"@, "json_record"@, "tcp_listener"@, "k8s_resource"@]);
    assert(registry.types() =~= scanner_types());
    Ok(registry)
}

} // verus!
