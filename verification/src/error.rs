//! The failures that a call across the boundary can report.

use vstd::prelude::*;
use polars::prelude::PolarsError;

verus! {

/// A compression algorithm that takes a numeric level.
#[derive(Clone, Copy, Debug, PartialEq, Eq, Structural)]
pub enum LevelledAlgorithm {
    Brotli,
    Gzip,
    Zstd,
}

impl LevelledAlgorithm {
    /// The name under which the algorithm is reported.
    pub open spec fn spec_name(self) -> Seq<char> {
        match self {
            LevelledAlgorithm::Brotli => "Brotli"@,
            LevelledAlgorithm::Gzip => "Gzip"@,
            LevelledAlgorithm::Zstd => "Zstd"@,
        }
    }

    /// The name under which the algorithm is reported.
    pub fn name(&self) -> (name: &'static str)
        ensures
            name@ == self.spec_name(),
    {
        match self {
            LevelledAlgorithm::Brotli => "Brotli",
            LevelledAlgorithm::Gzip => "Gzip",
            LevelledAlgorithm::Zstd => "Zstd",
        }
    }
}

/// A failure of one call. Every variant is recoverable by the caller.
#[derive(Clone, Debug, PartialEq, Eq)]
pub enum ExplorerError {
    /// The calendar fields do not name a day that exists.
    InvalidDate { year: i32, month: u32, day: u32 },
    /// The clock fields do not name a time of day.
    InvalidTime { hour: u32, minute: u32, second: u32, microsecond: u32 },
    /// A count of days that lies outside the calendar.
    DateOutOfRange { days: i64 },
    /// A count of microseconds that lies outside the calendar.
    TimestampOutOfRange { microseconds: i64 },
    /// A compression level that the engine does not accept for the algorithm.
    CompressionLevel { algorithm: LevelledAlgorithm, level: i64 },
    /// A column of a logical type for which no encoding is defined.
    UnsupportedType { dtype: String },
    /// A failure that the engine reported, in its own words.
    Polars { message: String },
    /// Any other failure, described in words.
    Other(String),
}

/// The failure that the engine reports from its own operations.
#[verifier::external_type_specification]
#[verifier::external_body]
pub struct ExEngineFailure(PolarsError);

/// The words in which the engine prints a failure.
pub uninterp spec fn failure_text(failure: PolarsError) -> Seq<char>;

/// Calls `to_string` on a failure of polars.
#[verifier::external_body]
fn failure_message(failure: &PolarsError) -> (message: String)
    ensures
        message@ == failure_text(*failure),
{
    failure.to_string()
}

/// What an operation of the engine yielded, as this library reports it: the
/// value as it is, a failure in the engine's words.
pub fn engine_result<T>(outcome: Result<T, PolarsError>) -> (result: Result<T, ExplorerError>)
    ensures
        match outcome {
            Ok(value) => result == Ok::<T, ExplorerError>(value),
            Err(failure) => result matches Err(ExplorerError::Polars { message }) && message@
                == failure_text(failure),
        },
{
    match outcome {
        Ok(value) => Ok(value),
        Err(failure) => Err(ExplorerError::Polars { message: failure_message(&failure) }),
    }
}

} // verus!
