use vstd::prelude::*;

use crate::printer::{decode_printers, printer_of, PrinterResponse, RawPrinter};

verus! {

/// Why an operation against the printer host failed.
#[derive(Debug)]
pub enum ClientError {
    /// The request did not produce a usable response.
    Request(reqwest::Error),
    /// The printer listing could not be decoded.
    Deserialization(serde_xml_rs::Error),
}

/// The outcome of the status operation, given what the transport produced.
pub open spec fn status_outcome(fetched: Result<bool, reqwest::Error>) -> Result<bool, ClientError> {
    match fetched {
        Ok(b) => Ok(b),
        Err(e) => Err(ClientError::Request(e)),
    }
}

/// The error of the listing operation, given what the transport produced
/// and what the decoder made of the body; `None` when both succeeded.
pub open spec fn listing_error(
    fetched: Result<Result<Vec<RawPrinter>, serde_xml_rs::Error>, reqwest::Error>,
) -> Option<ClientError> {
    match fetched {
        Err(e) => Some(ClientError::Request(e)),
        Ok(Err(x)) => Some(ClientError::Deserialization(x)),
        Ok(Ok(_)) => None,
    }
}

/// Result of the connection-status operation, from the transport's answer:
/// the decoded flag on success, a `Request` error on any transport or body
/// failure.
pub fn connected_outcome(fetched: Result<bool, reqwest::Error>) -> (r: Result<bool, ClientError>)
    ensures
        r == status_outcome(fetched),
{
    match fetched {
        Ok(b) => Ok(b),
        Err(e) => Err(ClientError::Request(e)),
    }
}

/// Result of the printer-listing operation. `fetched` is the transport's
/// answer; inside it, the decoder's answer on the response body. Transport
/// failures become `Request`, decoding failures `Deserialization`, and a
/// decoded listing becomes its records in document order.
pub fn printers_outcome(
    fetched: Result<Result<Vec<RawPrinter>, serde_xml_rs::Error>, reqwest::Error>,
) -> (r: Result<Vec<PrinterResponse>, ClientError>)
    ensures
        match fetched {
            Ok(Ok(raw)) => match r {
                Ok(list) => list@.len() == raw@.len() && forall|i: int|
                    0 <= i < raw@.len() ==> (#[trigger] list@[i])@ == printer_of(raw@[i]),
                Err(_) => false,
            },
            _ => r matches Err(e) && listing_error(fetched) == Some(e),
        },
{
    match fetched {
        Err(e) => Err(ClientError::Request(e)),
        Ok(Err(x)) => Err(ClientError::Deserialization(x)),
        Ok(Ok(raw)) => Ok(decode_printers(raw)),
    }
}

/// A transport failure is reported as a `Request` error on both endpoints,
/// and a decoding failure of the listing as a `Deserialization` error; never
/// the other way round.
pub proof fn failures_keep_their_kind(e: reqwest::Error, x: serde_xml_rs::Error)
    ensures
        status_outcome(Err(e)) matches Err(ClientError::Request(_)),
        listing_error(Err(e)) matches Some(ClientError::Request(_)),
        listing_error(Ok(Err(x))) matches Some(ClientError::Deserialization(_)),
{
}

} // verus!
