//! The harness's error kinds and their diagnostic lines. A missing dataset
//! file is fatal to the whole run; a missing query file or an engine
//! failure is fatal only for an explicitly requested single query; a failed
//! artifact write counts like an engine failure for that query, except for
//! the final report, whose failure is always fatal.

use vstd::prelude::*;

verus! {

/// What went wrong, with enough context for the diagnostic line.
#[derive(Debug)]
pub enum BenchError {
    /// A required dataset file is absent: the table's name and the path
    /// that was probed.
    DatasetMissing { table: String, path: String },
    /// The query file could not be read.
    QueryFileMissing { path: String },
    /// The engine failed to execute a statement.
    EngineExecution { message: String },
    /// A plan, sample, or report file could not be written.
    ArtifactWrite { path: String },
}

/// The diagnostic line for each error kind.
pub open spec fn message_spec(e: BenchError) -> Seq<char> {
    match e {
        BenchError::DatasetMissing { table: _, path } => "Path does not exist: "@ + path@,
        BenchError::QueryFileMissing { path } => "Query file does not exist: "@ + path@,
        BenchError::EngineExecution { message } => "Query execution failed: "@ + message@,
        BenchError::ArtifactWrite { path } => "Failed to write artifact: "@ + path@,
    }
}

impl BenchError {
    /// Renders the diagnostic line.
    pub fn message(&self) -> (r: String)
        ensures
            r@ == message_spec(*self),
    {
        match self {
            BenchError::DatasetMissing { table: _, path } => {
                let mut s = String::from_str("Path does not exist: ");
                s.append(path.as_str());
                s
            },
            BenchError::QueryFileMissing { path } => {
                let mut s = String::from_str("Query file does not exist: ");
                s.append(path.as_str());
                s
            },
            BenchError::EngineExecution { message } => {
                let mut s = String::from_str("Query execution failed: ");
                s.append(message.as_str());
                s
            },
            BenchError::ArtifactWrite { path } => {
                let mut s = String::from_str("Failed to write artifact: ");
                s.append(path.as_str());
                s
            },
        }
    }
}

} // verus!
