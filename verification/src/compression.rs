//! Compression choices for Parquet output, checked against the engine's own limits.

use vstd::prelude::*;
use polars::polars_utils::compression::{BrotliLevel, GzipLevel, ZstdLevel};
use crate::error::{ExplorerError, LevelledAlgorithm};

verus! {

/// Lowest and highest level that the engine takes for Brotli.
pub const BROTLI_MIN_LEVEL: u32 = 0;
pub const BROTLI_MAX_LEVEL: u32 = 11;

/// Lowest and highest level that the engine takes for Gzip.
pub const GZIP_MIN_LEVEL: u8 = 0;
pub const GZIP_MAX_LEVEL: u8 = 9;

/// Lowest and highest level that the engine takes for Zstd.
pub const ZSTD_MIN_LEVEL: i32 = 1;
pub const ZSTD_MAX_LEVEL: i32 = 22;

/// A compression choice as the host hands it over: an algorithm and, for the
/// algorithms that take one, an optional level that nobody has checked yet.
#[derive(Clone, Copy, Debug, PartialEq, Eq, Structural)]
pub enum ExParquetCompression {
    Brotli(Option<u32>),
    Gzip(Option<u8>),
    Lz4raw,
    Snappy,
    Uncompressed,
    Zstd(Option<i32>),
}

/// A compression choice whose level, where it has one, the engine has accepted.
#[derive(Clone, Copy, Debug, PartialEq, Eq, Structural)]
pub enum ParquetCompressionChoice {
    Uncompressed,
    Snappy,
    Gzip(Option<u8>),
    Brotli(Option<u32>),
    Zstd(Option<i32>),
    Lz4Raw,
}

pub open spec fn brotli_level_valid(level: u32) -> bool {
    BROTLI_MIN_LEVEL <= level <= BROTLI_MAX_LEVEL
}

pub open spec fn gzip_level_valid(level: u8) -> bool {
    GZIP_MIN_LEVEL <= level <= GZIP_MAX_LEVEL
}

pub open spec fn zstd_level_valid(level: i32) -> bool {
    ZSTD_MIN_LEVEL <= level <= ZSTD_MAX_LEVEL
}

impl ParquetCompressionChoice {
    /// Every level that the choice carries lies in the range of its algorithm.
    pub open spec fn wf(self) -> bool {
        match self {
            ParquetCompressionChoice::Gzip(Some(level)) => gzip_level_valid(level),
            ParquetCompressionChoice::Brotli(Some(level)) => brotli_level_valid(level),
            ParquetCompressionChoice::Zstd(Some(level)) => zstd_level_valid(level),
            _ => true,
        }
    }
}

/// What the validation of a host choice yields: the same algorithm and level
/// where the level is absent or in range, and otherwise a failure that carries
/// the algorithm and the level that was turned down.
pub open spec fn validation_of(value: ExParquetCompression) -> Result<
    ParquetCompressionChoice,
    ExplorerError,
> {
    match value {
        ExParquetCompression::Brotli(Some(level)) => if brotli_level_valid(level) {
            Ok(ParquetCompressionChoice::Brotli(Some(level)))
        } else {
            Err(
                ExplorerError::CompressionLevel {
                    algorithm: LevelledAlgorithm::Brotli,
                    level: level as i64,
                },
            )
        },
        ExParquetCompression::Brotli(None) => Ok(ParquetCompressionChoice::Brotli(None)),
        ExParquetCompression::Gzip(Some(level)) => if gzip_level_valid(level) {
            Ok(ParquetCompressionChoice::Gzip(Some(level)))
        } else {
            Err(
                ExplorerError::CompressionLevel {
                    algorithm: LevelledAlgorithm::Gzip,
                    level: level as i64,
                },
            )
        },
        ExParquetCompression::Gzip(None) => Ok(ParquetCompressionChoice::Gzip(None)),
        ExParquetCompression::Lz4raw => Ok(ParquetCompressionChoice::Lz4Raw),
        ExParquetCompression::Snappy => Ok(ParquetCompressionChoice::Snappy),
        ExParquetCompression::Uncompressed => Ok(ParquetCompressionChoice::Uncompressed),
        ExParquetCompression::Zstd(Some(level)) => if zstd_level_valid(level) {
            Ok(ParquetCompressionChoice::Zstd(Some(level)))
        } else {
            Err(
                ExplorerError::CompressionLevel {
                    algorithm: LevelledAlgorithm::Zstd,
                    level: level as i64,
                },
            )
        },
        ExParquetCompression::Zstd(None) => Ok(ParquetCompressionChoice::Zstd(None)),
    }
}

/// Calls `BrotliLevel::try_new` of polars and reads the level back with
/// `compression_level`. Trusted: the engine accepts the levels 0 to 11 and
/// keeps the level it was given; any other level is turned down.
#[verifier::external_body]
fn engine_brotli_level(level: u32) -> (accepted: Option<u32>)
    ensures
        accepted == if brotli_level_valid(level) { Some(level) } else { None },
{
    BrotliLevel::try_new(level).ok().map(|l| l.compression_level())
}

/// Calls `GzipLevel::try_new` of polars and reads the level back with
/// `compression_level`. Trusted: the engine accepts the levels 0 to 9 and
/// keeps the level it was given; any other level is turned down.
#[verifier::external_body]
fn engine_gzip_level(level: u8) -> (accepted: Option<u8>)
    ensures
        accepted == if gzip_level_valid(level) { Some(level) } else { None },
{
    GzipLevel::try_new(level).ok().map(|l| l.compression_level())
}

/// Calls `ZstdLevel::try_new` of polars and reads the level back with
/// `compression_level`. Trusted: the engine accepts the levels 1 to 22 and
/// keeps the level it was given; any other level is turned down.
#[verifier::external_body]
fn engine_zstd_level(level: i32) -> (accepted: Option<i32>)
    ensures
        accepted == if zstd_level_valid(level) { Some(level) } else { None },
{
    ZstdLevel::try_new(level).ok().map(|l| l.compression_level())
}

impl ExParquetCompression {
    /// Checks the choice against the engine. A level is never clamped: one
    /// that the engine turns down ends the call with the algorithm and the
    /// level. The algorithms without a level cannot fail.
    pub fn validate(self) -> (result: Result<ParquetCompressionChoice, ExplorerError>)
        ensures
            result == validation_of(self),
            result matches Ok(choice) ==> choice.wf(),
    {
        match self {
            ExParquetCompression::Brotli(level) => {
                match level {
                    Some(requested) => match engine_brotli_level(requested) {
                        Some(accepted) => Ok(ParquetCompressionChoice::Brotli(Some(accepted))),
                        None => Err(
                            ExplorerError::CompressionLevel {
                                algorithm: LevelledAlgorithm::Brotli,
                                level: requested as i64,
                            },
                        ),
                    },
                    None => Ok(ParquetCompressionChoice::Brotli(None)),
                }
            },
            ExParquetCompression::Gzip(level) => {
                match level {
                    Some(requested) => match engine_gzip_level(requested) {
                        Some(accepted) => Ok(ParquetCompressionChoice::Gzip(Some(accepted))),
                        None => Err(
                            ExplorerError::CompressionLevel {
                                algorithm: LevelledAlgorithm::Gzip,
                                level: requested as i64,
                            },
                        ),
                    },
                    None => Ok(ParquetCompressionChoice::Gzip(None)),
                }
            },
            ExParquetCompression::Lz4raw => Ok(ParquetCompressionChoice::Lz4Raw),
            ExParquetCompression::Snappy => Ok(ParquetCompressionChoice::Snappy),
            ExParquetCompression::Uncompressed => Ok(ParquetCompressionChoice::Uncompressed),
            ExParquetCompression::Zstd(level) => {
                match level {
                    Some(requested) => match engine_zstd_level(requested) {
                        Some(accepted) => Ok(ParquetCompressionChoice::Zstd(Some(accepted))),
                        None => Err(
                            ExplorerError::CompressionLevel {
                                algorithm: LevelledAlgorithm::Zstd,
                                level: requested as i64,
                            },
                        ),
                    },
                    None => Ok(ParquetCompressionChoice::Zstd(None)),
                }
            },
        }
    }
}

} // verus!
