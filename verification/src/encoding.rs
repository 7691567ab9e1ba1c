//! Turning a column of the engine into values that the host can hold.
//!
//! A column is a `Series` of polars: a sequence of entries of one logical
//! type, each entry present or null. The host receives one value for each
//! entry, in order, with the nulls kept as explicit gaps.

use vstd::prelude::*;
use polars::prelude::{DataType, Series, TimeUnit};
use crate::calendar::{
    timestamp_to_datetime,
    ExDate,
    ExDateTime,
    MAX_TIMESTAMP_MICROS,
    MIN_TIMESTAMP_MICROS,
};
use crate::error::ExplorerError;
use crate::gregorian::{MAX_DAYS, MIN_DAYS};

verus! {

/// A column of the engine. Its entries are reached through the functions of
/// this module only.
#[verifier::external_type_specification]
#[verifier::external_body]
pub struct ExSeriesColumn(Series);

/// The logical type of a column, as far as this module tells types apart.
pub ghost enum LogicalType {
    Boolean,
    Int8,
    Int16,
    Int32,
    Int64,
    UInt8,
    UInt16,
    UInt32,
    UInt64,
    Float32,
    Float64,
    String,
    /// Days since 1970-01-01.
    Date,
    /// Microseconds since 1970-01-01T00:00:00, without a time zone.
    Datetime,
    /// Lists whose entries have the given type.
    List(Box<LogicalType>),
    /// Any other type, by the name that the engine prints for it.
    Other(Seq<char>),
}

/// One entry of a column as the engine stores it.
pub ghost enum Cell {
    Boolean(bool),
    Integer(int),
    /// The bits of a floating-point number.
    Float(int),
    Text(Seq<char>),
    List(Seq<Option<Cell>>),
}

/// The logical type of the column.
pub uninterp spec fn series_dtype(series: Series) -> LogicalType;

/// The entries of the column, in order; a null entry is `None`.
pub uninterp spec fn series_cells(series: Series) -> Seq<Option<Cell>>;

/// A type of the engine. Which type it is, is read through the functions of
/// this module only.
#[verifier::external_type_specification]
#[verifier::external_body]
pub struct ExEngineDataType(DataType);

/// The logical type that a type of the engine stands for.
pub uninterp spec fn dtype_model(dtype: DataType) -> LogicalType;

/// The type is one of the eight types of integers.
pub open spec fn is_integer_type(dtype: LogicalType) -> bool {
    ||| dtype is Int8
    ||| dtype is Int16
    ||| dtype is Int32
    ||| dtype is Int64
    ||| dtype is UInt8
    ||| dtype is UInt16
    ||| dtype is UInt32
    ||| dtype is UInt64
}

/// The type is one of the types that are neither integers nor lists and that
/// this module tells apart.
pub open spec fn is_plain_type(dtype: LogicalType) -> bool {
    ||| dtype is Boolean
    ||| dtype is Float32
    ||| dtype is Float64
    ||| dtype is String
    ||| dtype is Date
    ||| dtype is Datetime
}

/// The logical type of a column, as a value that can be looked at: the types
/// that this module tells apart, lists of a type, and any other type by the
/// name that the engine prints for it.
#[derive(Debug, PartialEq, Eq)]
pub enum ColumnType {
    Boolean,
    Int8,
    Int16,
    Int32,
    Int64,
    UInt8,
    UInt16,
    UInt32,
    UInt64,
    Float32,
    Float64,
    String,
    Date,
    Datetime,
    List(Box<ColumnType>),
    Other(String),
}

impl ColumnType {
    /// The logical type that the value stands for.
    pub open spec fn model(self) -> LogicalType
        decreases self,
    {
        match self {
            ColumnType::Boolean => LogicalType::Boolean,
            ColumnType::Int8 => LogicalType::Int8,
            ColumnType::Int16 => LogicalType::Int16,
            ColumnType::Int32 => LogicalType::Int32,
            ColumnType::Int64 => LogicalType::Int64,
            ColumnType::UInt8 => LogicalType::UInt8,
            ColumnType::UInt16 => LogicalType::UInt16,
            ColumnType::UInt32 => LogicalType::UInt32,
            ColumnType::UInt64 => LogicalType::UInt64,
            ColumnType::Float32 => LogicalType::Float32,
            ColumnType::Float64 => LogicalType::Float64,
            ColumnType::String => LogicalType::String,
            ColumnType::Date => LogicalType::Date,
            ColumnType::Datetime => LogicalType::Datetime,
            ColumnType::List(inner) => LogicalType::List(Box::new(inner.model())),
            ColumnType::Other(name) => LogicalType::Other(name@),
        }
    }

    /// Whether the type has an encoding.
    pub fn is_supported(&self) -> (flag: bool)
        ensures
            flag == supported(self.model()),
        decreases self,
    {
        match self {
            ColumnType::Other(_) => false,
            ColumnType::List(inner) => inner.is_supported(),
            _ => true,
        }
    }

    /// The name of the type for want of which the type has no encoding; no
    /// name where it has one.
    pub fn unsupported_name(&self) -> (name: String)
        ensures
            name@ == unsupported_name(self.model()),
        decreases self,
    {
        match self {
            ColumnType::Other(name) => name.clone(),
            ColumnType::List(inner) => inner.unsupported_name(),
            _ => String::new(),
        }
    }
}

/// The unit in which a column of moments counts.
#[derive(Clone, Copy, Debug, PartialEq, Eq, Structural)]
pub enum DatetimeUnit {
    Nanoseconds,
    Microseconds,
    Milliseconds,
}

/// The cells of a run of optional booleans.
pub open spec fn boolean_cells(values: Seq<Option<bool>>) -> Seq<Option<Cell>> {
    Seq::new(
        values.len(),
        |i: int|
            match values[i] {
                Some(value) => Some(Cell::Boolean(value)),
                None => None,
            },
    )
}

/// The cells of a run of optional integers.
pub open spec fn integer_cells<T: Integer>(values: Seq<Option<T>>) -> Seq<Option<Cell>> {
    Seq::new(
        values.len(),
        |i: int|
            match values[i] {
                Some(value) => Some(Cell::Integer(value as int)),
                None => None,
            },
    )
}

/// The cells of a run of optional floating-point numbers, given by their bits.
pub open spec fn float_cells<T: Integer>(values: Seq<Option<T>>) -> Seq<Option<Cell>> {
    Seq::new(
        values.len(),
        |i: int|
            match values[i] {
                Some(bits) => Some(Cell::Float(bits as int)),
                None => None,
            },
    )
}

/// The cells of a run of optional texts.
pub open spec fn text_cells(values: Seq<Option<String>>) -> Seq<Option<Cell>> {
    Seq::new(
        values.len(),
        |i: int|
            match values[i] {
                Some(text) => Some(Cell::Text(text@)),
                None => None,
            },
    )
}

/// The cells of a run of optional columns, each the list of one entry.
pub open spec fn list_cells(values: Seq<Option<Series>>) -> Seq<Option<Cell>> {
    Seq::new(
        values.len(),
        |i: int|
            match values[i] {
                Some(inner) => Some(Cell::List(series_cells(inner))),
                None => None,
            },
    )
}

/// Calls `Series::try_bool` of polars and hands out the entries of the column
/// it gives. Trusted: the column is given exactly for a series of booleans,
/// and its entries are those of the series.
#[verifier::external_body]
fn series_bool_values(series: &Series) -> (values: Option<Vec<Option<bool>>>)
    ensures
        values is Some <==> series_dtype(*series) == LogicalType::Boolean,
        values matches Some(entries) ==> series_cells(*series) == boolean_cells(entries@),
{
    series.try_bool().map(|column| column.iter().collect())
}

/// Calls `Series::try_str` of polars and hands out the entries of the column
/// it gives, each as an owned string. Trusted: the column is given exactly
/// for a series of strings, and its entries are those of the series.
#[verifier::external_body]
fn series_str_values(series: &Series) -> (values: Option<Vec<Option<String>>>)
    ensures
        values is Some <==> series_dtype(*series) == LogicalType::String,
        values matches Some(entries) ==> series_cells(*series) == text_cells(entries@),
{
    series.try_str().map(|column| column.iter().map(|entry| entry.map(String::from)).collect())
}

/// Calls `Series::try_i8` of polars and hands out the entries of the column
/// it gives. Trusted: the column is given exactly for a series of 8-bit
/// signed integers, and its entries are those of the series.
#[verifier::external_body]
fn series_i8_values(series: &Series) -> (values: Option<Vec<Option<i128>>>)
    ensures
        values is Some <==> series_dtype(*series) == LogicalType::Int8,
        values matches Some(entries) ==> series_cells(*series) == integer_cells(entries@),
{
    series.try_i8().map(|column| column.iter().map(|entry| entry.map(i128::from)).collect())
}

/// Calls `Series::try_i16` of polars and hands out the entries of the column
/// it gives. Trusted: the column is given exactly for a series of 16-bit
/// signed integers, and its entries are those of the series.
#[verifier::external_body]
fn series_i16_values(series: &Series) -> (values: Option<Vec<Option<i128>>>)
    ensures
        values is Some <==> series_dtype(*series) == LogicalType::Int16,
        values matches Some(entries) ==> series_cells(*series) == integer_cells(entries@),
{
    series.try_i16().map(|column| column.iter().map(|entry| entry.map(i128::from)).collect())
}

/// Calls `Series::try_i32` of polars and hands out the entries of the column
/// it gives. Trusted: the column is given exactly for a series of 32-bit
/// signed integers, and its entries are those of the series.
#[verifier::external_body]
fn series_i32_values(series: &Series) -> (values: Option<Vec<Option<i128>>>)
    ensures
        values is Some <==> series_dtype(*series) == LogicalType::Int32,
        values matches Some(entries) ==> series_cells(*series) == integer_cells(entries@),
{
    series.try_i32().map(|column| column.iter().map(|entry| entry.map(i128::from)).collect())
}

/// Calls `Series::try_i64` of polars and hands out the entries of the column
/// it gives. Trusted: the column is given exactly for a series of 64-bit
/// signed integers, and its entries are those of the series.
#[verifier::external_body]
fn series_i64_values(series: &Series) -> (values: Option<Vec<Option<i128>>>)
    ensures
        values is Some <==> series_dtype(*series) == LogicalType::Int64,
        values matches Some(entries) ==> series_cells(*series) == integer_cells(entries@),
{
    series.try_i64().map(|column| column.iter().map(|entry| entry.map(i128::from)).collect())
}

/// Calls `Series::try_u8` of polars and hands out the entries of the column
/// it gives. Trusted: the column is given exactly for a series of 8-bit
/// unsigned integers, and its entries are those of the series.
#[verifier::external_body]
fn series_u8_values(series: &Series) -> (values: Option<Vec<Option<i128>>>)
    ensures
        values is Some <==> series_dtype(*series) == LogicalType::UInt8,
        values matches Some(entries) ==> series_cells(*series) == integer_cells(entries@),
{
    series.try_u8().map(|column| column.iter().map(|entry| entry.map(i128::from)).collect())
}

/// Calls `Series::try_u16` of polars and hands out the entries of the column
/// it gives. Trusted: the column is given exactly for a series of 16-bit
/// unsigned integers, and its entries are those of the series.
#[verifier::external_body]
fn series_u16_values(series: &Series) -> (values: Option<Vec<Option<i128>>>)
    ensures
        values is Some <==> series_dtype(*series) == LogicalType::UInt16,
        values matches Some(entries) ==> series_cells(*series) == integer_cells(entries@),
{
    series.try_u16().map(|column| column.iter().map(|entry| entry.map(i128::from)).collect())
}

/// Calls `Series::try_u32` of polars and hands out the entries of the column
/// it gives. Trusted: the column is given exactly for a series of 32-bit
/// unsigned integers, and its entries are those of the series.
#[verifier::external_body]
fn series_u32_values(series: &Series) -> (values: Option<Vec<Option<i128>>>)
    ensures
        values is Some <==> series_dtype(*series) == LogicalType::UInt32,
        values matches Some(entries) ==> series_cells(*series) == integer_cells(entries@),
{
    series.try_u32().map(|column| column.iter().map(|entry| entry.map(i128::from)).collect())
}

/// Calls `Series::try_u64` of polars and hands out the entries of the column
/// it gives. Trusted: the column is given exactly for a series of 64-bit
/// unsigned integers, and its entries are those of the series.
#[verifier::external_body]
fn series_u64_values(series: &Series) -> (values: Option<Vec<Option<i128>>>)
    ensures
        values is Some <==> series_dtype(*series) == LogicalType::UInt64,
        values matches Some(entries) ==> series_cells(*series) == integer_cells(entries@),
{
    series.try_u64().map(|column| column.iter().map(|entry| entry.map(i128::from)).collect())
}

/// Calls `Series::try_f32` of polars and hands out the entries of the column
/// it gives, each by its bits. Trusted: the column is given exactly for a
/// series of 32-bit floating-point numbers, and its entries are those of the
/// series.
#[verifier::external_body]
fn series_f32_bits(series: &Series) -> (values: Option<Vec<Option<u32>>>)
    ensures
        values is Some <==> series_dtype(*series) == LogicalType::Float32,
        values matches Some(entries) ==> series_cells(*series) == float_cells(entries@),
{
    series.try_f32().map(|column| column.iter().map(|entry| entry.map(|x| x.to_bits())).collect())
}

/// Calls `Series::try_f64` of polars and hands out the entries of the column
/// it gives, each by its bits. Trusted: the column is given exactly for a
/// series of 64-bit floating-point numbers, and its entries are those of the
/// series.
#[verifier::external_body]
fn series_f64_bits(series: &Series) -> (values: Option<Vec<Option<u64>>>)
    ensures
        values is Some <==> series_dtype(*series) == LogicalType::Float64,
        values matches Some(entries) ==> series_cells(*series) == float_cells(entries@),
{
    series.try_f64().map(|column| column.iter().map(|entry| entry.map(|x| x.to_bits())).collect())
}

/// Calls `Series::try_date` of polars and hands out the counts of days that
/// the column it gives stores, read through `physical`. Trusted: the column
/// is given exactly for a series of dates, and the counts are the entries of
/// the series.
#[verifier::external_body]
fn series_date_values(series: &Series) -> (values: Option<Vec<Option<i32>>>)
    ensures
        values is Some <==> series_dtype(*series) == LogicalType::Date,
        values matches Some(entries) ==> series_cells(*series) == integer_cells(entries@),
{
    series.try_date().map(|column| column.physical().iter().collect())
}

/// Calls `Series::try_datetime` of polars and hands out the unit of the
/// column it gives (`time_unit`), whether it has a time zone (`time_zone`),
/// and the counts that it stores, read through `physical`. Trusted: a column
/// is given for every series of moments; the series has the logical type
/// `Datetime` of this module exactly when it counts in microseconds and has
/// no time zone, and any other series of moments has a type that this module
/// does not tell apart; the counts are the entries of the series.
#[verifier::external_body]
fn series_datetime_values(series: &Series) -> (values: Option<
    (DatetimeUnit, bool, Vec<Option<i64>>),
>)
    ensures
        match values {
            Some((unit, zoned, entries)) => {
                &&& series_cells(*series) == integer_cells(entries@)
                &&& if unit == DatetimeUnit::Microseconds && !zoned {
                    series_dtype(*series) == LogicalType::Datetime
                } else {
                    series_dtype(*series) is Other
                }
            },
            None => series_dtype(*series) != LogicalType::Datetime,
        },
{
    series.try_datetime().map(
        |column|
            {
                let unit = match column.time_unit() {
                    TimeUnit::Nanoseconds => DatetimeUnit::Nanoseconds,
                    TimeUnit::Microseconds => DatetimeUnit::Microseconds,
                    TimeUnit::Milliseconds => DatetimeUnit::Milliseconds,
                };
                (unit, column.time_zone().is_some(), column.physical().iter().collect())
            },
    )
}

/// Calls `Series::list` of polars and hands out the entries of the column it
/// gives, each as a series of its own (`series_iter`). Trusted: for a series
/// of lists of a type that has an encoding, the column is given; each entry
/// that is present is a series of the type of the list's entries, and it
/// holds the entries of that list.
#[verifier::external_body]
fn series_list_values(series: &Series) -> (entries: Vec<Option<Series>>)
    requires
        series_dtype(*series) is List,
        supported(series_dtype(*series)),
    ensures
        series_cells(*series) == list_cells(entries@),
        forall|i: int|
            0 <= i < entries@.len() ==> (#[trigger] entries@[i] matches Some(inner)
                ==> series_dtype(*series) == LogicalType::List(Box::new(series_dtype(inner)))),
{
    series.list().unwrap().series_iter().collect()
}

/// Calls `Series::dtype` of polars. Trusted: the type that it lends out
/// stands for the logical type of the series.
#[verifier::external_body]
fn series_data_type(series: &Series) -> (dtype: &DataType)
    ensures
        dtype_model(*dtype) == series_dtype(*series),
{
    series.dtype()
}

/// Tells the eight types of integers of polars apart. Trusted: a type is
/// found exactly for these, and it stands for the same logical type.
#[verifier::external_body]
fn integer_type(dtype: &DataType) -> (kind: Option<ColumnType>)
    ensures
        match kind {
            Some(found) => is_integer_type(found.model()) && found.model() == dtype_model(*dtype),
            None => !is_integer_type(dtype_model(*dtype)),
        },
{
    match dtype {
        DataType::Int8 => Some(ColumnType::Int8),
        DataType::Int16 => Some(ColumnType::Int16),
        DataType::Int32 => Some(ColumnType::Int32),
        DataType::Int64 => Some(ColumnType::Int64),
        DataType::UInt8 => Some(ColumnType::UInt8),
        DataType::UInt16 => Some(ColumnType::UInt16),
        DataType::UInt32 => Some(ColumnType::UInt32),
        DataType::UInt64 => Some(ColumnType::UInt64),
        _ => None,
    }
}

/// Tells the other types of polars apart that this module knows and that are
/// no lists; of the types of moments only the one that counts in
/// microseconds and has no time zone. Trusted: a type is found exactly for
/// these, and it stands for the same logical type.
#[verifier::external_body]
fn plain_type(dtype: &DataType) -> (kind: Option<ColumnType>)
    ensures
        match kind {
            Some(found) => is_plain_type(found.model()) && found.model() == dtype_model(*dtype),
            None => !is_plain_type(dtype_model(*dtype)),
        },
{
    match dtype {
        DataType::Boolean => Some(ColumnType::Boolean),
        DataType::Float32 => Some(ColumnType::Float32),
        DataType::Float64 => Some(ColumnType::Float64),
        DataType::String => Some(ColumnType::String),
        DataType::Date => Some(ColumnType::Date),
        DataType::Datetime(TimeUnit::Microseconds, None) => Some(ColumnType::Datetime),
        _ => None,
    }
}

/// Reads the type of the entries of a type of lists of polars. Trusted: a
/// type is lent out exactly for a type of lists, and it stands for the
/// logical type of the entries.
#[verifier::external_body]
fn list_entry_type(dtype: &DataType) -> (entry: Option<&DataType>)
    ensures
        match entry {
            Some(inner) => dtype_model(*dtype) == LogicalType::List(Box::new(dtype_model(*inner))),
            None => !(dtype_model(*dtype) is List),
        },
{
    match dtype {
        DataType::List(inner) => Some(inner.as_ref()),
        _ => None,
    }
}

/// Prints a type of polars with `to_string`. Trusted: for a type that this
/// module does not tell apart, the text is the name that stands for it in
/// `LogicalType::Other`.
#[verifier::external_body]
fn data_type_name(dtype: &DataType) -> (name: String)
    ensures
        dtype_model(*dtype) matches LogicalType::Other(text) ==> name@ == text,
{
    dtype.to_string()
}

/// The logical type for which a type of the engine stands, as a value that
/// can be looked at: an integer type, another type that this module knows, a
/// list of the type of its entries, or any other type by its printed name.
pub fn column_type(dtype: &DataType) -> (kind: ColumnType)
    ensures
        kind.model() == dtype_model(*dtype),
    decreases dtype_model(*dtype),
{
    if let Some(found) = integer_type(dtype) {
        return found;
    }
    if let Some(found) = plain_type(dtype) {
        return found;
    }
    match list_entry_type(dtype) {
        Some(inner) => {
            assert(decreases_to!(dtype_model(*dtype) => dtype_model(*dtype)->List_0));
            ColumnType::List(Box::new(column_type(inner)))
        },
        None => ColumnType::Other(data_type_name(dtype)),
    }
}

/// The logical type of a column, as a value that can be looked at.
pub fn series_column_type(series: &Series) -> (kind: ColumnType)
    ensures
        kind.model() == series_dtype(*series),
{
    column_type(series_data_type(series))
}

/// A value that the host can hold. An integer of any width is an integer to
/// the host; a floating-point number is carried by its bits.
#[derive(Debug, PartialEq)]
pub enum HostValue {
    Boolean(bool),
    Integer(i128),
    Float32(u32),
    Float64(u64),
    Text(String),
    Date(ExDate),
    DateTime(ExDateTime),
    List(Vec<Option<HostValue>>),
}

/// What a host value stands for.
pub ghost enum HostTerm {
    Boolean(bool),
    Integer(int),
    Float32(u32),
    Float64(u64),
    Text(Seq<char>),
    Date(ExDate),
    DateTime(ExDateTime),
    List(Seq<Option<HostTerm>>),
}

impl HostValue {
    /// What the value stands for.
    pub open spec fn term(self) -> HostTerm
        decreases self,
    {
        match self {
            HostValue::Boolean(value) => HostTerm::Boolean(value),
            HostValue::Integer(value) => HostTerm::Integer(value as int),
            HostValue::Float32(bits) => HostTerm::Float32(bits),
            HostValue::Float64(bits) => HostTerm::Float64(bits),
            HostValue::Text(text) => HostTerm::Text(text@),
            HostValue::Date(date) => HostTerm::Date(date),
            HostValue::DateTime(moment) => HostTerm::DateTime(moment),
            HostValue::List(items) => HostTerm::List(
                Seq::new(
                    items@.len(),
                    |i: int|
                        if 0 <= i < items@.len() {
                            match items@[i] {
                                Some(item) => Some(item.term()),
                                None => None,
                            }
                        } else {
                            None
                        },
                ),
            ),
        }
    }
}

/// What a run of optional host values stands for.
pub open spec fn terms(values: Seq<Option<HostValue>>) -> Seq<Option<HostTerm>> {
    Seq::new(
        values.len(),
        |i: int|
            match values[i] {
                Some(value) => Some(value.term()),
                None => None,
            },
    )
}

/// The type has an encoding: it is one of the types that this module tells
/// apart, or a list of such a type.
pub open spec fn supported(dtype: LogicalType) -> bool
    decreases dtype,
{
    match dtype {
        LogicalType::Other(_) => false,
        LogicalType::List(inner) => supported(*inner),
        _ => true,
    }
}

/// The name of the type for want of which a type has no encoding.
pub open spec fn unsupported_name(dtype: LogicalType) -> Seq<char>
    decreases dtype,
{
    match dtype {
        LogicalType::Other(name) => name,
        LogicalType::List(inner) => unsupported_name(*inner),
        _ => Seq::empty(),
    }
}

/// The host value for one entry of a column of the given type. A count of
/// days or of microseconds that lies outside the calendar has none.
pub open spec fn encode_cell(dtype: LogicalType, cell: Cell) -> Result<HostTerm, ExplorerError>
    decreases dtype, 0nat,
{
    match cell {
        Cell::Boolean(value) => Ok(HostTerm::Boolean(value)),
        Cell::Integer(value) => match dtype {
            LogicalType::Date => if MIN_DAYS <= value <= MAX_DAYS {
                Ok(HostTerm::Date(ExDate::spec_from_days(value)))
            } else {
                Err(ExplorerError::DateOutOfRange { days: value as i64 })
            },
            LogicalType::Datetime => if MIN_TIMESTAMP_MICROS <= value <= MAX_TIMESTAMP_MICROS {
                Ok(HostTerm::DateTime(ExDateTime::spec_from_micros(value)))
            } else {
                Err(ExplorerError::TimestampOutOfRange { microseconds: value as i64 })
            },
            _ => Ok(HostTerm::Integer(value)),
        },
        Cell::Float(bits) => match dtype {
            LogicalType::Float32 => Ok(HostTerm::Float32(bits as u32)),
            _ => Ok(HostTerm::Float64(bits as u64)),
        },
        Cell::Text(text) => Ok(HostTerm::Text(text)),
        Cell::List(items) => match dtype {
            LogicalType::List(inner) => match encode_cells(*inner, items) {
                Ok(values) => Ok(HostTerm::List(values)),
                Err(failure) => Err(failure),
            },
            _ => Ok(HostTerm::List(Seq::empty())),
        },
    }
}

/// The host values for the entries of a column of the given type, in order:
/// one for each entry, a null entry staying a gap. The first entry that has
/// no host value, if there is one, decides the failure.
pub open spec fn encode_cells(dtype: LogicalType, cells: Seq<Option<Cell>>) -> Result<
    Seq<Option<HostTerm>>,
    ExplorerError,
>
    decreases dtype, cells.len() + 1,
{
    if cells.len() == 0 {
        Ok(Seq::empty())
    } else {
        match encode_cells(dtype, cells.drop_last()) {
            Err(failure) => Err(failure),
            Ok(before) => match cells.last() {
                None => Ok(before.push(None)),
                Some(cell) => match encode_cell(dtype, cell) {
                    Ok(value) => Ok(before.push(Some(value))),
                    Err(failure) => Err(failure),
                },
            },
        }
    }
}

/// What `encode` owes for a column of the given type and entries: for a type
/// without an encoding the failure that names the type, whatever the entries
/// are; otherwise the host values of the entries, or the failure of the first
/// entry that has none.
pub open spec fn encoding_of(
    dtype: LogicalType,
    cells: Seq<Option<Cell>>,
    result: Result<Vec<Option<HostValue>>, ExplorerError>,
) -> bool {
    if !supported(dtype) {
        result matches Err(ExplorerError::UnsupportedType { dtype: name }) && name@
            == unsupported_name(dtype)
    } else {
        match encode_cells(dtype, cells) {
            Ok(values) => result matches Ok(encoded) && terms(encoded@) == values,
            Err(failure) => result matches Err(reported) && reported == failure,
        }
    }
}

/// The host values of the first entries and of one more are those of the
/// first entries with that of the next put behind them.
pub proof fn lemma_encode_cells_step(dtype: LogicalType, cells: Seq<Option<Cell>>, i: int)
    requires
        0 <= i < cells.len(),
    ensures
        encode_cells(dtype, cells.take(i + 1)) == match encode_cells(dtype, cells.take(i)) {
            Err(failure) => Err(failure),
            Ok(before) => match cells[i] {
                None => Ok(before.push(None)),
                Some(cell) => match encode_cell(dtype, cell) {
                    Ok(value) => Ok(before.push(Some(value))),
                    Err(failure) => Err(failure),
                },
            },
        },
{
    assert(cells.take(i + 1).drop_last() =~= cells.take(i));
    assert(cells.take(i + 1).last() == cells[i]);
}

/// Null preservation: where a column has host values, there is one for each
/// entry, and the gaps among them are the null entries of the column.
pub proof fn lemma_encode_cells_keeps_gaps(dtype: LogicalType, cells: Seq<Option<Cell>>)
    ensures
        encode_cells(dtype, cells) matches Ok(values) ==> {
            &&& values.len() == cells.len()
            &&& forall|i: int|
                0 <= i < cells.len() ==> ((#[trigger] values[i]) is None <==> cells[i] is None)
        },
    decreases cells.len(),
{
    if cells.len() > 0 {
        lemma_encode_cells_keeps_gaps(dtype, cells.drop_last());
    }
}

/// The host values of the entries of a column of booleans.
pub fn encode_booleans(entries: &Vec<Option<bool>>) -> (values: Vec<Option<HostValue>>)
    ensures
        encode_cells(LogicalType::Boolean, boolean_cells(entries@)) == Ok::<
            Seq<Option<HostTerm>>,
            ExplorerError,
        >(terms(values@)),
{
    let ghost dtype = LogicalType::Boolean;
    let ghost cells = boolean_cells(entries@);
    let mut values: Vec<Option<HostValue>> = Vec::new();
    let mut i: usize = 0;
    assert(terms(values@) =~= Seq::empty());
    assert(cells.take(0) =~= Seq::empty());
    while i < entries.len()
        invariant
            0 <= i <= entries.len(),
            dtype == LogicalType::Boolean,
            cells == boolean_cells(entries@),
            encode_cells(dtype, cells.take(i as int)) == Ok::<
                Seq<Option<HostTerm>>,
                ExplorerError,
            >(terms(values@)),
        decreases entries.len() - i,
    {
        let ghost before = terms(values@);
        proof {
            lemma_encode_cells_step(dtype, cells, i as int);
        }
        match entries[i] {
            Some(value) => {
                values.push(Some(HostValue::Boolean(value)));
                assert(terms(values@) =~= before.push(Some(HostTerm::Boolean(value))));
            },
            None => {
                values.push(None);
                assert(terms(values@) =~= before.push(None));
            },
        }
        i += 1;
    }
    assert(cells.take(i as int) =~= cells);
    values
}

/// The host values of the entries of a column of integers, of any width.
pub fn encode_integers(entries: &Vec<Option<i128>>) -> (values: Vec<Option<HostValue>>)
    ensures
        encode_cells(LogicalType::Int64, integer_cells(entries@)) == Ok::<
            Seq<Option<HostTerm>>,
            ExplorerError,
        >(terms(values@)),
{
    let ghost dtype = LogicalType::Int64;
    let ghost cells = integer_cells(entries@);
    let mut values: Vec<Option<HostValue>> = Vec::new();
    let mut i: usize = 0;
    assert(terms(values@) =~= Seq::empty());
    assert(cells.take(0) =~= Seq::empty());
    while i < entries.len()
        invariant
            0 <= i <= entries.len(),
            dtype == LogicalType::Int64,
            cells == integer_cells(entries@),
            encode_cells(dtype, cells.take(i as int)) == Ok::<
                Seq<Option<HostTerm>>,
                ExplorerError,
            >(terms(values@)),
        decreases entries.len() - i,
    {
        let ghost before = terms(values@);
        proof {
            lemma_encode_cells_step(dtype, cells, i as int);
        }
        match entries[i] {
            Some(value) => {
                values.push(Some(HostValue::Integer(value)));
                assert(terms(values@) =~= before.push(Some(HostTerm::Integer(value as int))));
            },
            None => {
                values.push(None);
                assert(terms(values@) =~= before.push(None));
            },
        }
        i += 1;
    }
    assert(cells.take(i as int) =~= cells);
    values
}

/// The host values of the entries of a column of 32-bit floating-point
/// numbers, each given by its bits.
pub fn encode_float32s(entries: &Vec<Option<u32>>) -> (values: Vec<Option<HostValue>>)
    ensures
        encode_cells(LogicalType::Float32, float_cells(entries@)) == Ok::<
            Seq<Option<HostTerm>>,
            ExplorerError,
        >(terms(values@)),
{
    let ghost dtype = LogicalType::Float32;
    let ghost cells = float_cells(entries@);
    let mut values: Vec<Option<HostValue>> = Vec::new();
    let mut i: usize = 0;
    assert(terms(values@) =~= Seq::empty());
    assert(cells.take(0) =~= Seq::empty());
    while i < entries.len()
        invariant
            0 <= i <= entries.len(),
            dtype == LogicalType::Float32,
            cells == float_cells(entries@),
            encode_cells(dtype, cells.take(i as int)) == Ok::<
                Seq<Option<HostTerm>>,
                ExplorerError,
            >(terms(values@)),
        decreases entries.len() - i,
    {
        let ghost before = terms(values@);
        proof {
            lemma_encode_cells_step(dtype, cells, i as int);
        }
        match entries[i] {
            Some(bits) => {
                values.push(Some(HostValue::Float32(bits)));
                assert(terms(values@) =~= before.push(Some(HostTerm::Float32(bits))));
            },
            None => {
                values.push(None);
                assert(terms(values@) =~= before.push(None));
            },
        }
        i += 1;
    }
    assert(cells.take(i as int) =~= cells);
    values
}

/// The host values of the entries of a column of 64-bit floating-point
/// numbers, each given by its bits.
pub fn encode_float64s(entries: &Vec<Option<u64>>) -> (values: Vec<Option<HostValue>>)
    ensures
        encode_cells(LogicalType::Float64, float_cells(entries@)) == Ok::<
            Seq<Option<HostTerm>>,
            ExplorerError,
        >(terms(values@)),
{
    let ghost dtype = LogicalType::Float64;
    let ghost cells = float_cells(entries@);
    let mut values: Vec<Option<HostValue>> = Vec::new();
    let mut i: usize = 0;
    assert(terms(values@) =~= Seq::empty());
    assert(cells.take(0) =~= Seq::empty());
    while i < entries.len()
        invariant
            0 <= i <= entries.len(),
            dtype == LogicalType::Float64,
            cells == float_cells(entries@),
            encode_cells(dtype, cells.take(i as int)) == Ok::<
                Seq<Option<HostTerm>>,
                ExplorerError,
            >(terms(values@)),
        decreases entries.len() - i,
    {
        let ghost before = terms(values@);
        proof {
            lemma_encode_cells_step(dtype, cells, i as int);
        }
        match entries[i] {
            Some(bits) => {
                values.push(Some(HostValue::Float64(bits)));
                assert(terms(values@) =~= before.push(Some(HostTerm::Float64(bits))));
            },
            None => {
                values.push(None);
                assert(terms(values@) =~= before.push(None));
            },
        }
        i += 1;
    }
    assert(cells.take(i as int) =~= cells);
    values
}

/// The host values of the entries of a column of strings.
pub fn encode_texts(entries: &Vec<Option<String>>) -> (values: Vec<Option<HostValue>>)
    ensures
        encode_cells(LogicalType::String, text_cells(entries@)) == Ok::<
            Seq<Option<HostTerm>>,
            ExplorerError,
        >(terms(values@)),
{
    let ghost dtype = LogicalType::String;
    let ghost cells = text_cells(entries@);
    let mut values: Vec<Option<HostValue>> = Vec::new();
    let mut i: usize = 0;
    assert(terms(values@) =~= Seq::empty());
    assert(cells.take(0) =~= Seq::empty());
    while i < entries.len()
        invariant
            0 <= i <= entries.len(),
            dtype == LogicalType::String,
            cells == text_cells(entries@),
            encode_cells(dtype, cells.take(i as int)) == Ok::<
                Seq<Option<HostTerm>>,
                ExplorerError,
            >(terms(values@)),
        decreases entries.len() - i,
    {
        let ghost before = terms(values@);
        proof {
            lemma_encode_cells_step(dtype, cells, i as int);
        }
        match &entries[i] {
            Some(text) => {
                values.push(Some(HostValue::Text(text.clone())));
                assert(terms(values@) =~= before.push(Some(HostTerm::Text(text@))));
            },
            None => {
                values.push(None);
                assert(terms(values@) =~= before.push(None));
            },
        }
        i += 1;
    }
    assert(cells.take(i as int) =~= cells);
    values
}

/// The host values of the entries of a column of dates, each given as a
/// count of days since 1970-01-01. The first count that lies outside the
/// calendar ends the encoding with that count.
pub fn encode_dates(entries: &Vec<Option<i32>>) -> (result: Result<
    Vec<Option<HostValue>>,
    ExplorerError,
>)
    ensures
        encoding_of(LogicalType::Date, integer_cells(entries@), result),
{
    let ghost dtype = LogicalType::Date;
    let ghost cells = integer_cells(entries@);
    let mut values: Vec<Option<HostValue>> = Vec::new();
    let mut i: usize = 0;
    assert(terms(values@) =~= Seq::empty());
    assert(cells.take(0) =~= Seq::empty());
    while i < entries.len()
        invariant
            0 <= i <= entries.len(),
            dtype == LogicalType::Date,
            cells == integer_cells(entries@),
            encode_cells(dtype, cells.take(i as int)) == Ok::<
                Seq<Option<HostTerm>>,
                ExplorerError,
            >(terms(values@)),
        decreases entries.len() - i,
    {
        let ghost before = terms(values@);
        proof {
            lemma_encode_cells_step(dtype, cells, i as int);
        }
        match entries[i] {
            Some(days) => {
                if days < MIN_DAYS || days > MAX_DAYS {
                    proof {
                        lemma_encode_cells_fails_on(dtype, cells, i as int + 1);
                    }
                    return Err(ExplorerError::DateOutOfRange { days: days as i64 });
                }
                let date = ExDate::from_days(days);
                values.push(Some(HostValue::Date(date)));
                assert(terms(values@) =~= before.push(Some(HostTerm::Date(date))));
            },
            None => {
                values.push(None);
                assert(terms(values@) =~= before.push(None));
            },
        }
        i += 1;
    }
    assert(cells.take(i as int) =~= cells);
    Ok(values)
}

/// The host values of the entries of a column of moments, each given as a
/// count of microseconds since 1970-01-01T00:00:00. The first count that
/// lies outside the calendar ends the encoding with that count.
pub fn encode_datetimes(entries: &Vec<Option<i64>>) -> (result: Result<
    Vec<Option<HostValue>>,
    ExplorerError,
>)
    ensures
        encoding_of(LogicalType::Datetime, integer_cells(entries@), result),
{
    let ghost dtype = LogicalType::Datetime;
    let ghost cells = integer_cells(entries@);
    let mut values: Vec<Option<HostValue>> = Vec::new();
    let mut i: usize = 0;
    assert(terms(values@) =~= Seq::empty());
    assert(cells.take(0) =~= Seq::empty());
    while i < entries.len()
        invariant
            0 <= i <= entries.len(),
            dtype == LogicalType::Datetime,
            cells == integer_cells(entries@),
            encode_cells(dtype, cells.take(i as int)) == Ok::<
                Seq<Option<HostTerm>>,
                ExplorerError,
            >(terms(values@)),
        decreases entries.len() - i,
    {
        let ghost before = terms(values@);
        proof {
            lemma_encode_cells_step(dtype, cells, i as int);
        }
        match entries[i] {
            Some(microseconds) => {
                if microseconds < MIN_TIMESTAMP_MICROS || microseconds > MAX_TIMESTAMP_MICROS {
                    proof {
                        lemma_encode_cells_fails_on(dtype, cells, i as int + 1);
                    }
                    return Err(ExplorerError::TimestampOutOfRange { microseconds });
                }
                let moment = timestamp_to_datetime(microseconds);
                values.push(Some(HostValue::DateTime(moment)));
                assert(terms(values@) =~= before.push(Some(HostTerm::DateTime(moment))));
            },
            None => {
                values.push(None);
                assert(terms(values@) =~= before.push(None));
            },
        }
        i += 1;
    }
    assert(cells.take(i as int) =~= cells);
    Ok(values)
}

/// Integers of every width are encoded alike.
pub proof fn lemma_integers_encode_alike(dtype: LogicalType, entries: Seq<Option<i128>>)
    requires
        dtype != LogicalType::Date,
        dtype != LogicalType::Datetime,
    ensures
        encode_cells(dtype, integer_cells(entries)) == encode_cells(
            LogicalType::Int64,
            integer_cells(entries),
        ),
    decreases entries.len(),
{
    let cells = integer_cells(entries);
    if entries.len() > 0 {
        lemma_integers_encode_alike(dtype, entries.drop_last());
        assert(cells.drop_last() =~= integer_cells(entries.drop_last()));
        match entries.last() {
            Some(value) => {
                assert(cells.last() == Some(Cell::Integer(value as int)));
                assert(encode_cell(dtype, Cell::Integer(value as int)) == encode_cell(
                    LogicalType::Int64,
                    Cell::Integer(value as int),
                ));
            },
            None => {
                assert(cells.last() is None);
            },
        }
    }
}

/// A failure among the first entries is the failure of all of them.
pub proof fn lemma_encode_cells_fails_on(dtype: LogicalType, cells: Seq<Option<Cell>>, n: int)
    requires
        0 <= n <= cells.len(),
        encode_cells(dtype, cells.take(n)) is Err,
    ensures
        encode_cells(dtype, cells) == encode_cells(dtype, cells.take(n)),
    decreases cells.len() - n,
{
    if n < cells.len() {
        lemma_encode_cells_step(dtype, cells, n);
        lemma_encode_cells_fails_on(dtype, cells, n + 1);
    } else {
        assert(cells.take(n) =~= cells);
    }
}

/// A list of host values stands for the list of what they stand for.
pub proof fn lemma_list_term(items: Vec<Option<HostValue>>)
    ensures
        HostValue::List(items).term() == HostTerm::List(terms(items@)),
{
    let listed = HostValue::List(items).term();
    assert(listed matches HostTerm::List(inner) && inner =~= terms(items@));
}

/// Null preservation, of a result: where `encode` returns host values, there
/// is one for each entry of the column, and the gaps among them are the null
/// entries of the column.
pub proof fn lemma_encoding_keeps_gaps(
    dtype: LogicalType,
    cells: Seq<Option<Cell>>,
    result: Result<Vec<Option<HostValue>>, ExplorerError>,
)
    requires
        encoding_of(dtype, cells, result),
    ensures
        result matches Ok(values) ==> {
            &&& values@.len() == cells.len()
            &&& forall|i: int|
                0 <= i < values@.len() ==> ((#[trigger] values@[i]) is None <==> cells[i] is None)
        },
{
    lemma_encode_cells_keeps_gaps(dtype, cells);
    if let Ok(values) = result {
        let encoded = terms(values@);
        assert(forall|i: int|
            0 <= i < values@.len() ==> ((#[trigger] values@[i]) is None <==> encoded[i] is None));
    }
}

/// Turns a column of the engine into host values: one for each entry, in
/// order, a null entry becoming `None`. The column is not changed.
///
/// The logical type of the column decides the encoding. Booleans, strings and
/// the integers of every width go over as they are, floating-point numbers by
/// their bits, a count of days as a date and a count of microseconds as a
/// date with a time. A column of lists becomes a sequence of sequences, each
/// list encoded as a column of its own. A column of any other type, or of
/// lists of one, is turned down with the name of that type, whatever it
/// holds; so is a count that lies outside the calendar.
pub fn encode(series: &Series) -> (result: Result<Vec<Option<HostValue>>, ExplorerError>)
    ensures
        encoding_of(series_dtype(*series), series_cells(*series), result),
        result matches Ok(values) ==> {
            &&& values@.len() == series_cells(*series).len()
            &&& forall|i: int|
                0 <= i < values@.len() ==> ((#[trigger] values@[i]) is None <==> series_cells(
                    *series,
                )[i] is None)
        },
    decreases series_dtype(*series), 1nat,
{
    let ghost dtype = series_dtype(*series);
    let kind = series_column_type(series);
    if !kind.is_supported() {
        return Err(ExplorerError::UnsupportedType { dtype: kind.unsupported_name() });
    }
    let result = if let Some(entries) = series_bool_values(series) {
        Ok(encode_booleans(&entries))
    } else if let Some(entries) = series_str_values(series) {
        Ok(encode_texts(&entries))
    } else if let Some(entries) = series_i8_values(series) {
        proof {
            lemma_integers_encode_alike(dtype, entries@);
        }
        Ok(encode_integers(&entries))
    } else if let Some(entries) = series_i16_values(series) {
        proof {
            lemma_integers_encode_alike(dtype, entries@);
        }
        Ok(encode_integers(&entries))
    } else if let Some(entries) = series_i32_values(series) {
        proof {
            lemma_integers_encode_alike(dtype, entries@);
        }
        Ok(encode_integers(&entries))
    } else if let Some(entries) = series_i64_values(series) {
        proof {
            lemma_integers_encode_alike(dtype, entries@);
        }
        Ok(encode_integers(&entries))
    } else if let Some(entries) = series_u8_values(series) {
        proof {
            lemma_integers_encode_alike(dtype, entries@);
        }
        Ok(encode_integers(&entries))
    } else if let Some(entries) = series_u16_values(series) {
        proof {
            lemma_integers_encode_alike(dtype, entries@);
        }
        Ok(encode_integers(&entries))
    } else if let Some(entries) = series_u32_values(series) {
        proof {
            lemma_integers_encode_alike(dtype, entries@);
        }
        Ok(encode_integers(&entries))
    } else if let Some(entries) = series_u64_values(series) {
        proof {
            lemma_integers_encode_alike(dtype, entries@);
        }
        Ok(encode_integers(&entries))
    } else if let Some(entries) = series_f32_bits(series) {
        Ok(encode_float32s(&entries))
    } else if let Some(entries) = series_f64_bits(series) {
        Ok(encode_float64s(&entries))
    } else if let Some(entries) = series_date_values(series) {
        encode_dates(&entries)
    } else {
        match series_datetime_values(series) {
            Some((DatetimeUnit::Microseconds, false, entries)) => encode_datetimes(&entries),
            _ => encode_lists(series),
        }
    };
    proof {
        lemma_encoding_keeps_gaps(dtype, series_cells(*series), result);
    }
    result
}

/// The encoding of a column of lists of a type that has an encoding: each
/// list that is present is encoded as a column of its own.
fn encode_lists(series: &Series) -> (result: Result<Vec<Option<HostValue>>, ExplorerError>)
    requires
        series_dtype(*series) is List,
        supported(series_dtype(*series)),
    ensures
        encoding_of(series_dtype(*series), series_cells(*series), result),
    decreases series_dtype(*series), 0nat,
{
    let ghost dtype = series_dtype(*series);
    let ghost cells = series_cells(*series);
    let entries = series_list_values(series);
    let mut values: Vec<Option<HostValue>> = Vec::new();
    let mut i: usize = 0;
    assert(terms(values@) =~= Seq::empty());
    assert(cells.take(0) =~= Seq::empty());
    while i < entries.len()
        invariant
            0 <= i <= entries.len(),
            dtype == series_dtype(*series),
            dtype is List,
            supported(dtype),
            cells == series_cells(*series),
            cells == list_cells(entries@),
            forall|k: int|
                0 <= k < entries@.len() ==> (#[trigger] entries@[k] matches Some(inner)
                    ==> series_dtype(*series) == LogicalType::List(Box::new(series_dtype(inner)))),
            encode_cells(dtype, cells.take(i as int)) == Ok::<
                Seq<Option<HostTerm>>,
                ExplorerError,
            >(terms(values@)),
        decreases entries.len() - i,
    {
        let ghost before = terms(values@);
        proof {
            lemma_encode_cells_step(dtype, cells, i as int);
        }
        match &entries[i] {
            Some(inner) => {
                assert(entries@[i as int] == Some(*inner));
                assert(decreases_to!(dtype => dtype->List_0));
                match encode(inner) {
                    Ok(items) => {
                        proof {
                            lemma_list_term(items);
                        }
                        let ghost listed = HostTerm::List(terms(items@));
                        values.push(Some(HostValue::List(items)));
                        assert(terms(values@) =~= before.push(Some(listed)));
                    },
                    Err(failure) => {
                        proof {
                            lemma_encode_cells_fails_on(dtype, cells, i as int + 1);
                        }
                        return Err(failure);
                    },
                }
            },
            None => {
                values.push(None);
                assert(terms(values@) =~= before.push(None));
            },
        }
        i += 1;
    }
    assert(cells.take(i as int) =~= cells);
    Ok(values)
}

} // verus!
