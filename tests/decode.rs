use labybel::{
    connected_outcome, decode_printers, deserialize_bool_from_str, printers_outcome, ClientError,
    PrinterResponse, RawPrinter,
};

fn raw(name: &str, model: &str, connected: &str, local: &str, twin: &str) -> RawPrinter {
    RawPrinter {
        name: name.to_string(),
        model_name: model.to_string(),
        is_connected: connected.to_string(),
        is_local: local.to_string(),
        is_twin_turbo: twin.to_string(),
    }
}

fn transport_error() -> reqwest::Error {
    reqwest::Client::new().get("not a url").build().unwrap_err()
}

fn xml_error() -> serde_xml_rs::Error {
    serde_xml_rs::Error::Custom { field: "missing field `Name`".to_string() }
}

#[test]
fn test_deserialize_bool_from_str() {
    assert_eq!(deserialize_bool_from_str("True"), true);
    assert_eq!(deserialize_bool_from_str("False"), false);
}

#[test]
fn only_exact_true_is_true() {
    for s in ["false", "FALSE", "true", "TRUE", "", "1", "True ", " True", "Truee", "Tru"] {
        assert!(!deserialize_bool_from_str(s), "{:?} must decode to false", s);
    }
    assert!(deserialize_bool_from_str("True"));
}

#[test]
fn record_fields_follow_source_text() {
    let p = PrinterResponse::from_raw(raw("LabelWriter 450", "450", "True", "False", "True"));
    assert_eq!(p.name(), "LabelWriter 450");
    assert_eq!(p.model_name(), "450");
    assert!(p.is_connected());
    assert!(!p.is_local());
    assert!(p.is_twin_turbo());
}

#[test]
fn empty_listing_is_empty_not_error() {
    let r = printers_outcome(Ok(Ok(vec![])));
    assert!(r.unwrap().is_empty());
    assert!(decode_printers(vec![]).is_empty());
}

#[test]
fn two_records_in_document_order() {
    let listing = vec![
        raw("LabelWriter 450", "450", "True", "False", "False"),
        raw("LabelWriter 450 Twin Turbo", "450 Twin Turbo", "false", "True", "True"),
    ];
    let printers = printers_outcome(Ok(Ok(listing))).unwrap();
    assert_eq!(printers.len(), 2);
    assert_eq!(printers[0].name(), "LabelWriter 450");
    assert_eq!(printers[0].model_name(), "450");
    assert!(printers[0].is_connected());
    assert!(!printers[0].is_local());
    assert!(!printers[0].is_twin_turbo());
    assert_eq!(printers[1].name(), "LabelWriter 450 Twin Turbo");
    assert_eq!(printers[1].model_name(), "450 Twin Turbo");
    assert!(!printers[1].is_connected());
    assert!(printers[1].is_local());
    assert!(printers[1].is_twin_turbo());
}

#[test]
fn status_passes_flag_through() {
    assert!(matches!(connected_outcome(Ok(true)), Ok(true)));
    assert!(matches!(connected_outcome(Ok(false)), Ok(false)));
}

#[test]
fn status_transport_failure_is_request_error() {
    assert!(matches!(connected_outcome(Err(transport_error())), Err(ClientError::Request(_))));
}

#[test]
fn listing_transport_failure_is_request_error() {
    assert!(matches!(printers_outcome(Err(transport_error())), Err(ClientError::Request(_))));
}

#[test]
fn listing_decode_failure_is_deserialization_error() {
    assert!(matches!(
        printers_outcome(Ok(Err(xml_error()))),
        Err(ClientError::Deserialization(_))
    ));
}
