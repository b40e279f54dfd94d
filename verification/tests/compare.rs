use ica_metadata::metadata::{IcaMetadata, TxEncoding};

fn sample() -> IcaMetadata {
    IcaMetadata::new(
        "ics27-1".to_string(),
        "connection-0".to_string(),
        "connection-1".to_string(),
        String::new(),
        TxEncoding::Proto3Json,
        "sdk_multi_msg".to_string(),
    )
}

#[test]
fn same_terms_leave_the_address_out() {
    let m = sample();
    let mut other = sample();
    assert!(m.has_same_terms(&other));
    other.address = "cosmos1abc".to_string();
    assert!(m.has_same_terms(&other));
    assert!(other.has_same_terms(&m));
    other.host_connection_id = "connection-9".to_string();
    assert!(!m.has_same_terms(&other));
    let mut encoded = sample();
    encoded.encoding = TxEncoding::Protobuf;
    assert!(!m.has_same_terms(&encoded));
}

#[test]
fn equal_to_its_own_wire_form() {
    let m = sample();
    assert!(m.is_previous_version_equal(&m.to_string()));
}

#[test]
fn address_is_not_compared() {
    let m = sample();
    let mut with_address = sample();
    with_address.address = "cosmos1abc".to_string();
    assert!(m.is_previous_version_equal(&with_address.to_string()));
    assert!(with_address.is_previous_version_equal(&m.to_string()));
    let mut other_address = sample();
    other_address.address = "cosmos1xyz".to_string();
    assert!(with_address.is_previous_version_equal(&other_address.to_string()));
}

#[test]
fn version_is_compared() {
    let m = sample();
    let mut other = sample();
    other.version = "ics27-2".to_string();
    assert!(!m.is_previous_version_equal(&other.to_string()));
    assert!(!other.is_previous_version_equal(&m.to_string()));
}

#[test]
fn controller_connection_is_compared() {
    let m = sample();
    let mut other = sample();
    other.controller_connection_id = "connection-9".to_string();
    assert!(!m.is_previous_version_equal(&other.to_string()));
}

#[test]
fn host_connection_is_compared() {
    let m = sample();
    let mut other = sample();
    other.host_connection_id = "connection-9".to_string();
    assert!(!m.is_previous_version_equal(&other.to_string()));
}

#[test]
fn encoding_is_compared() {
    let m = sample();
    let mut other = sample();
    other.encoding = TxEncoding::Protobuf;
    assert!(!m.is_previous_version_equal(&other.to_string()));
}

#[test]
fn tx_type_is_compared() {
    let m = sample();
    let mut other = sample();
    other.tx_type = "sdk_single_msg".to_string();
    assert!(!m.is_previous_version_equal(&other.to_string()));
}

#[test]
fn unreadable_previous_version_is_never_equal() {
    let m = sample();
    assert!(!m.is_previous_version_equal(""));
    assert!(!m.is_previous_version_equal("ics27-1"));
    assert!(!m.is_previous_version_equal("{}"));
    assert!(!m.is_previous_version_equal("not json"));
    let wrapped = format!("{{\"fee_version\":\"ics29-1\",\"app_version\":{}}}", m.to_string());
    assert!(!m.is_previous_version_equal(&wrapped));
    let truncated = m.to_string();
    assert!(!m.is_previous_version_equal(&truncated[..truncated.len() - 1]));
    let extra = m.to_string().replace("}", ",\"extra\":\"\"}");
    assert!(!m.is_previous_version_equal(&extra));
}

#[test]
fn previous_version_may_be_spaced_and_reordered() {
    let m = sample();
    let previous = "{ \"tx_type\": \"sdk_multi_msg\", \"encoding\": \"proto3json\", \
                    \"address\": \"cosmos1abc\", \"host_connection_id\": \"connection-1\", \
                    \"controller_connection_id\": \"connection-0\", \"version\": \"ics27-1\" }";
    assert!(m.is_previous_version_equal(previous));
}
