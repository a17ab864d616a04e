//! Synthetic Japanese postal addresses.
//!
//! A table is an ordered list of place names, each written in kanji and in
//! kana. An address picks one row from each of three tables (states, cities,
//! towns) and adds a street number of the form `a-b-c`. The crate loads
//! tables from comma-separated text, generates addresses from a random
//! source, and formats them as lines of quoted text.

pub mod address;
pub mod generator;
pub mod loader;
pub mod random;
pub mod record;
pub mod street;

pub use address::Address;
pub use generator::{AddressHandler, Draw, GenerateError};
pub use loader::{import_csv, record_from_fields, ParseError};
pub use record::Record;
