use explorer::compression::{ExParquetCompression, ParquetCompressionChoice};
use explorer::error::{ExplorerError, LevelledAlgorithm};
use polars::polars_utils::compression::{BrotliLevel, GzipLevel, ZstdLevel};

fn turned_down(algorithm: LevelledAlgorithm, level: i64) -> Result<ParquetCompressionChoice, ExplorerError> {
    Err(ExplorerError::CompressionLevel { algorithm, level })
}

#[test]
fn gzip_level_ten_is_turned_down() {
    let result = ExParquetCompression::Gzip(Some(10)).validate();
    assert_eq!(result, turned_down(LevelledAlgorithm::Gzip, 10));
    match result {
        Err(ExplorerError::CompressionLevel { algorithm, level }) => {
            assert_eq!(algorithm.name(), "Gzip");
            assert_eq!(level.to_string(), "10");
        }
        _ => panic!("the level was not turned down"),
    }
}

#[test]
fn gzip_levels() {
    for level in 0..=9u8 {
        assert_eq!(
            ExParquetCompression::Gzip(Some(level)).validate(),
            Ok(ParquetCompressionChoice::Gzip(Some(level)))
        );
    }
    assert_eq!(ExParquetCompression::Gzip(Some(255)).validate(), turned_down(LevelledAlgorithm::Gzip, 255));
    assert_eq!(ExParquetCompression::Gzip(None).validate(), Ok(ParquetCompressionChoice::Gzip(None)));
}

#[test]
fn brotli_levels() {
    for level in 0..=11u32 {
        assert_eq!(
            ExParquetCompression::Brotli(Some(level)).validate(),
            Ok(ParquetCompressionChoice::Brotli(Some(level)))
        );
    }
    assert_eq!(ExParquetCompression::Brotli(Some(12)).validate(), turned_down(LevelledAlgorithm::Brotli, 12));
    assert_eq!(
        ExParquetCompression::Brotli(Some(u32::MAX)).validate(),
        turned_down(LevelledAlgorithm::Brotli, 4_294_967_295)
    );
    assert_eq!(ExParquetCompression::Brotli(None).validate(), Ok(ParquetCompressionChoice::Brotli(None)));
}

#[test]
fn zstd_levels() {
    for level in 1..=22i32 {
        assert_eq!(
            ExParquetCompression::Zstd(Some(level)).validate(),
            Ok(ParquetCompressionChoice::Zstd(Some(level)))
        );
    }
    assert_eq!(ExParquetCompression::Zstd(Some(0)).validate(), turned_down(LevelledAlgorithm::Zstd, 0));
    assert_eq!(ExParquetCompression::Zstd(Some(23)).validate(), turned_down(LevelledAlgorithm::Zstd, 23));
    assert_eq!(ExParquetCompression::Zstd(Some(-1)).validate(), turned_down(LevelledAlgorithm::Zstd, -1));
    assert_eq!(
        ExParquetCompression::Zstd(Some(i32::MIN)).validate(),
        turned_down(LevelledAlgorithm::Zstd, -2_147_483_648)
    );
    assert_eq!(ExParquetCompression::Zstd(None).validate(), Ok(ParquetCompressionChoice::Zstd(None)));
}

#[test]
fn algorithms_without_a_level_always_pass() {
    assert_eq!(ExParquetCompression::Lz4raw.validate(), Ok(ParquetCompressionChoice::Lz4Raw));
    assert_eq!(ExParquetCompression::Snappy.validate(), Ok(ParquetCompressionChoice::Snappy));
    assert_eq!(
        ExParquetCompression::Uncompressed.validate(),
        Ok(ParquetCompressionChoice::Uncompressed)
    );
}

#[test]
fn algorithm_names() {
    assert_eq!(LevelledAlgorithm::Brotli.name(), "Brotli");
    assert_eq!(LevelledAlgorithm::Gzip.name(), "Gzip");
    assert_eq!(LevelledAlgorithm::Zstd.name(), "Zstd");
}

#[test]
fn limits_are_those_of_the_engine() {
    for level in 0..=255u8 {
        assert_eq!(
            ExParquetCompression::Gzip(Some(level)).validate().is_ok(),
            GzipLevel::try_new(level).is_ok()
        );
    }
    for level in 0..=40u32 {
        assert_eq!(
            ExParquetCompression::Brotli(Some(level)).validate().is_ok(),
            BrotliLevel::try_new(level).is_ok()
        );
    }
    for level in -5..=40i32 {
        assert_eq!(
            ExParquetCompression::Zstd(Some(level)).validate().is_ok(),
            ZstdLevel::try_new(level).is_ok()
        );
    }
}
