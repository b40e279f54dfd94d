use ica_metadata::metadata::{Channel, IcaMetadata, TxEncoding};

fn channel(connection_id: &str) -> Channel {
    Channel { connection_id: connection_id.to_string() }
}

fn stored() -> IcaMetadata {
    IcaMetadata::new(
        "ics27-1".to_string(),
        "connection-3".to_string(),
        "connection-8".to_string(),
        "cosmos1abc".to_string(),
        TxEncoding::Protobuf,
        "sdk_multi_msg".to_string(),
    )
}

#[test]
fn stored_metadata_wins() {
    let version = stored().to_string();
    let m = IcaMetadata::from_channel(
        Some(version.as_str()),
        &channel("connection-7"),
        Some("connection-42".to_string()),
    );
    assert_eq!(m, stored());
    let without_lookup = IcaMetadata::from_channel(Some(version.as_str()), &channel("connection-7"), None);
    assert_eq!(without_lookup, stored());
    assert_eq!(IcaMetadata::from_stored_version(Some(version.as_str())), Some(stored()));
}

#[test]
fn stored_metadata_is_returned_even_if_it_would_not_validate() {
    let odd = IcaMetadata::new(
        "other".to_string(),
        "x".to_string(),
        "y".to_string(),
        "not an address!".to_string(),
        TxEncoding::Proto3Json,
        "z".to_string(),
    );
    let version = odd.to_string();
    let m = IcaMetadata::from_channel(Some(version.as_str()), &channel("connection-7"), None);
    assert_eq!(m, odd);
}

#[test]
fn default_without_store_and_without_lookup() {
    let m = IcaMetadata::from_channel(None, &channel("connection-7"), None);
    assert_eq!(m.version, "ics27-1");
    assert_eq!(m.controller_connection_id, "connection-7");
    assert_eq!(m.host_connection_id, "");
    assert_eq!(m.address, "");
    assert_eq!(m.encoding, TxEncoding::Proto3Json);
    assert_eq!(m.tx_type, "sdk_multi_msg");
    assert_eq!(IcaMetadata::from_stored_version(None), None);
}

#[test]
fn default_where_the_stored_version_cannot_be_read() {
    let wrapped = format!(
        "{{\"fee_version\":\"ics29-1\",\"app_version\":{}}}",
        stored().to_string()
    );
    for unreadable in ["", "ics27-1", "{}", wrapped.as_str()] {
        assert_eq!(IcaMetadata::from_stored_version(Some(unreadable)), None);
        let m = IcaMetadata::from_channel(
            Some(unreadable),
            &channel("connection-7"),
            Some("connection-42".to_string()),
        );
        assert_eq!(
            m,
            IcaMetadata::new(
                "ics27-1".to_string(),
                "connection-7".to_string(),
                "connection-42".to_string(),
                String::new(),
                TxEncoding::Proto3Json,
                "sdk_multi_msg".to_string(),
            )
        );
    }
}

#[test]
fn with_defaults_takes_the_lookup_answer() {
    let m = IcaMetadata::with_defaults(&channel("connection-7"), Some("connection-42".to_string()));
    assert_eq!(m.host_connection_id, "connection-42");
    assert_eq!(m.controller_connection_id, "connection-7");
    let n = IcaMetadata::with_defaults(&channel("connection-7"), None);
    assert_eq!(n.host_connection_id, "");
}

#[test]
fn end_to_end_without_stored_state() {
    let presented = channel("connection-7");
    let m = IcaMetadata::from_channel(None, &presented, Some("connection-42".to_string()));
    assert_eq!(
        m,
        IcaMetadata::new(
            "ics27-1".to_string(),
            "connection-7".to_string(),
            "connection-42".to_string(),
            String::new(),
            TxEncoding::Proto3Json,
            "sdk_multi_msg".to_string(),
        )
    );
    assert_eq!(m.validate(&presented), Ok(()));
    assert_eq!(
        m.to_string(),
        "{\"version\":\"ics27-1\",\"controller_connection_id\":\"connection-7\",\
         \"host_connection_id\":\"connection-42\",\"address\":\"\",\
         \"encoding\":\"proto3json\",\"tx_type\":\"sdk_multi_msg\"}"
    );
    assert!(m.is_previous_version_equal(&m.to_string()));
}

#[test]
fn default_is_accepted_whatever_the_lookup_answered() {
    for answer in [None, Some(String::new()), Some("connection-42".to_string()), Some("?!".to_string())] {
        let presented = channel("connection-7");
        let m = IcaMetadata::with_defaults(&presented, answer);
        assert_eq!(m.validate(&presented), Ok(()));
    }
}
