use ica_metadata::address::{check_address_shape, is_all_alphanumeric, validate_ica_address};
use ica_metadata::error::ContractError;
use ica_metadata::keys::{ICA_VERSION, MAX_ADDRESS_LENGTH, TX_TYPE};
use ica_metadata::metadata::{Channel, IcaMetadata, TxEncoding};

fn channel(connection_id: &str) -> Channel {
    Channel { connection_id: connection_id.to_string() }
}

fn minimal(encoding: TxEncoding) -> IcaMetadata {
    IcaMetadata::new(
        ICA_VERSION.to_string(),
        "connection-0".to_string(),
        "connection-1".to_string(),
        String::new(),
        encoding,
        TX_TYPE.to_string(),
    )
}

#[test]
fn fixed_values() {
    assert_eq!(ICA_VERSION, "ics27-1");
    assert_eq!(TX_TYPE, "sdk_multi_msg");
    assert_eq!(MAX_ADDRESS_LENGTH, 128);
}

#[test]
fn minimal_metadata_is_accepted() {
    assert_eq!(minimal(TxEncoding::Proto3Json).validate(&channel("connection-0")), Ok(()));
    assert_eq!(minimal(TxEncoding::Protobuf).validate(&channel("connection-0")), Ok(()));
}

#[test]
fn host_connection_is_not_checked() {
    let mut m = minimal(TxEncoding::Proto3Json);
    m.host_connection_id = "anything at all".to_string();
    assert_eq!(m.validate(&channel("connection-0")), Ok(()));
    m.host_connection_id = String::new();
    assert_eq!(m.validate(&channel("connection-0")), Ok(()));
}

#[test]
fn wrong_version_is_named() {
    let mut m = minimal(TxEncoding::Proto3Json);
    m.version = "ics27-2".to_string();
    assert_eq!(
        m.validate(&channel("connection-0")),
        Err(ContractError::InvalidVersion {
            expected: "ics27-1".to_string(),
            actual: "ics27-2".to_string(),
        })
    );
    m.version = String::new();
    assert_eq!(
        m.validate(&channel("connection-0")),
        Err(ContractError::InvalidVersion { expected: "ics27-1".to_string(), actual: String::new() })
    );
}

#[test]
fn wrong_connection_is_named() {
    let m = minimal(TxEncoding::Proto3Json);
    assert_eq!(m.validate(&channel("connection-1")), Err(ContractError::InvalidConnection));
    assert_eq!(m.validate(&channel("")), Err(ContractError::InvalidConnection));
    assert_eq!(m.validate(&channel("connection-00")), Err(ContractError::InvalidConnection));
}

#[test]
fn wrong_address_is_named() {
    let mut m = minimal(TxEncoding::Proto3Json);
    m.address = "cosmos1-abc".to_string();
    assert_eq!(m.validate(&channel("connection-0")), Err(ContractError::InvalidAddress));
    m.address = "a".repeat(129);
    assert_eq!(m.validate(&channel("connection-0")), Err(ContractError::InvalidAddress));
    m.address = " ".to_string();
    assert_eq!(m.validate(&channel("connection-0")), Err(ContractError::InvalidAddress));
}

#[test]
fn well_shaped_address_is_accepted() {
    let mut m = minimal(TxEncoding::Proto3Json);
    m.address = "cosmos1qyqszqgpqyqszqgpqyqszqgpqyqszqgpjnp7du".to_string();
    assert_eq!(m.validate(&channel("connection-0")), Ok(()));
    m.address = "a".repeat(128);
    assert_eq!(m.validate(&channel("connection-0")), Ok(()));
}

#[test]
fn wrong_tx_type_is_named() {
    let mut m = minimal(TxEncoding::Proto3Json);
    m.tx_type = "sdk_single_msg".to_string();
    assert_eq!(
        m.validate(&channel("connection-0")),
        Err(ContractError::UnsupportedTxType("sdk_single_msg".to_string()))
    );
    m.tx_type = String::new();
    assert_eq!(
        m.validate(&channel("connection-0")),
        Err(ContractError::UnsupportedTxType(String::new()))
    );
}

#[test]
fn first_failing_check_is_reported() {
    let mut m = minimal(TxEncoding::Protobuf);
    m.version = "v".to_string();
    m.address = "not valid!".to_string();
    m.tx_type = "t".to_string();
    assert_eq!(
        m.validate(&channel("other")),
        Err(ContractError::InvalidVersion { expected: "ics27-1".to_string(), actual: "v".to_string() })
    );
    m.version = ICA_VERSION.to_string();
    assert_eq!(m.validate(&channel("other")), Err(ContractError::InvalidConnection));
    assert_eq!(m.validate(&channel("connection-0")), Err(ContractError::InvalidAddress));
    m.address = "valid".to_string();
    assert_eq!(
        m.validate(&channel("connection-0")),
        Err(ContractError::UnsupportedTxType("t".to_string()))
    );
    m.tx_type = TX_TYPE.to_string();
    assert_eq!(m.validate(&channel("connection-0")), Ok(()));
}

#[test]
fn address_of_128_alphanumeric_characters_passes() {
    assert_eq!(validate_ica_address(&"a".repeat(128)), Ok(()));
    assert_eq!(validate_ica_address(&"Z9".repeat(64)), Ok(()));
    assert_eq!(validate_ica_address("a"), Ok(()));
    assert_eq!(validate_ica_address("0123456789abcXYZ"), Ok(()));
}

#[test]
fn address_of_129_characters_fails() {
    assert_eq!(validate_ica_address(&"a".repeat(129)), Err(ContractError::InvalidAddress));
    assert_eq!(validate_ica_address(&"a".repeat(1000)), Err(ContractError::InvalidAddress));
}

#[test]
fn address_with_other_characters_fails() {
    for address in ["cosmos1-abc", "a b", "a_b", "a.b", "\"", "abc\n", "-", "a/b", "a\u{0}b"] {
        assert_eq!(validate_ica_address(address), Err(ContractError::InvalidAddress), "{}", address);
    }
    let mut long = "a".repeat(127);
    long.push('!');
    assert_eq!(validate_ica_address(&long), Err(ContractError::InvalidAddress));
}

#[test]
fn address_length_counts_bytes() {
    assert_eq!(validate_ica_address("é"), Ok(()));
    assert_eq!(validate_ica_address(&"é".repeat(64)), Ok(()));
    assert_eq!(validate_ica_address(&"é".repeat(65)), Err(ContractError::InvalidAddress));
    assert_eq!(validate_ica_address(&"é".repeat(128)), Err(ContractError::InvalidAddress));
}

#[test]
fn shape_depends_on_length_and_characters() {
    assert_eq!(check_address_shape(0, true), Ok(()));
    assert_eq!(check_address_shape(128, true), Ok(()));
    assert_eq!(check_address_shape(129, true), Err(ContractError::InvalidAddress));
    assert_eq!(check_address_shape(128, false), Err(ContractError::InvalidAddress));
    assert_eq!(check_address_shape(0, false), Err(ContractError::InvalidAddress));
    assert_eq!(check_address_shape(usize::MAX, true), Err(ContractError::InvalidAddress));
}

#[test]
fn alphanumeric_follows_unicode() {
    assert!(is_all_alphanumeric(""));
    assert!(is_all_alphanumeric("abcXYZ019"));
    assert!(is_all_alphanumeric("é藏٣"));
    assert!(!is_all_alphanumeric("abc-"));
    assert!(!is_all_alphanumeric(" abc"));
    assert!(!is_all_alphanumeric("a\u{1F44F}"));
}

#[test]
fn empty_address_has_the_shape_but_is_never_asked() {
    assert_eq!(validate_ica_address(""), Ok(()));
}
