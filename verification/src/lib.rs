//! Marshalling core between a columnar dataframe engine and a host runtime.

pub mod calendar;
pub mod compression;
pub mod encoding;
pub mod error;
pub mod gregorian;
pub mod handles;
pub mod lazyframe;
