//! Read-only client for the label-printer host service: URL construction,
//! the capitalised-boolean decoding rule for printer records, and the
//! classification of failures into transport and decoding errors.

mod client;
mod error;
mod outside;
mod printer;

pub use client::{Client, BASE_PATH, DEFAULT_PORT, PRINTERS_ENDPOINT, STATUS_ENDPOINT};
pub use error::{connected_outcome, printers_outcome, ClientError};
pub use printer::{decode_printers, deserialize_bool_from_str, PrinterResponse, RawPrinter};
