use vstd::prelude::*;
use vstd::string::*;

use crate::registry::StrategyError;

verus! {

/// Errors of compiling and executing one policy file.
#[derive(Debug, Clone)]
pub enum ScanError {
    IoError(String),
    CompilationFailed(String),
    ConversionFailed(String),
    ResolutionFailed(String),
    ExecutionFailed(String),
    RegistryError(String),
}

pub open spec fn scan_error_text(e: ScanError) -> Seq<char> {
    match e {
        ScanError::IoError(m) => "I/O error: "@ + m@,
        ScanError::CompilationFailed(m) => "Compilation failed: "@ + m@,
        ScanError::ConversionFailed(m) => "AST conversion failed: "@ + m@,
        ScanError::ResolutionFailed(m) => "Resolution failed: "@ + m@,
        ScanError::ExecutionFailed(m) => "Execution failed: "@ + m@,
        ScanError::RegistryError(m) => "Registry error: "@ + m@,
    }
}

impl ScanError {
    /// The message of this error.
    pub fn to_string(&self) -> (r: String)
        ensures
            r@ == scan_error_text(*self),
    {
        let (head, m) = match self {
            ScanError::IoError(m) => ("I/O error: ", m),
            ScanError::CompilationFailed(m) => ("Compilation failed: ", m),
            ScanError::ConversionFailed(m) => ("AST conversion failed: ", m),
            ScanError::ResolutionFailed(m) => ("Resolution failed: ", m),
            ScanError::ExecutionFailed(m) => ("Execution failed: ", m),
            ScanError::RegistryError(m) => ("Registry error: ", m),
        };
        let mut r = String::from_str(head);
        r.append(m.as_str());
        r
    }

    /// A registry failure as a scan error.
    pub fn from_strategy_error(e: &StrategyError) -> (r: Self)
        ensures
            r matches ScanError::RegistryError(m) && m@ == crate::registry::strategy_error_text(*e),
    {
        ScanError::RegistryError(e.to_string())
    }
}

} // verus!
