//! Conversion of ISO 20022 bank statements from `camt.053.001.10` to
//! `camt.053.001.08`.
//!
//! A source document is read into a [`Statement`] in two passes over its
//! markup events, and the statement is laid out and written as a document of
//! the older schema. Tokenising and rendering XML, reading timestamps and
//! hashing are left to `quick_xml`, `chrono` and the standard library; what is
//! done with their results is verified against contracts over the views of the
//! model types.

pub mod amounts;
pub mod convert;
pub mod datetime;
pub mod document;
pub mod error;
pub mod model;
pub mod parser;
pub mod paths;
pub mod reference;
pub mod scanner;
pub mod source;
pub mod target;
pub mod text;

pub use convert::convert;
pub use datetime::{convert_datetime, convert_datetime_to_date};
pub use document::write_camt_08;
pub use error::{ConvertError, ParseError, WriteError};
pub use model::{Balance, Statement, Transaction};
pub use parser::parse_camt_10;
pub use paths::create_output_path;
pub use reference::generate_transaction_reference;
