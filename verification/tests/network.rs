use sweepr::errors::InputError;
use sweepr::network::{create_network, Network};

#[test]
fn test_network() {
    assert_eq!(create_network("mainnet").unwrap(), Network::Mainnet);
    assert_eq!(create_network("testnet").unwrap(), Network::Testnet);
    assert_eq!(create_network("regtest").unwrap(), Network::Regtest);
    assert_eq!(create_network("Mainnet").unwrap(), Network::Mainnet);
}

#[test]
#[should_panic]
fn test_invalid_network() {
    create_network("invalid").unwrap();
}

#[test]
fn test_invalid_network_error() {
    // a bad selector is an input error; no wallet is constructed from it
    assert_eq!(create_network("invalid").unwrap_err(), InputError::InvalidNetwork);
    assert_eq!(create_network("").unwrap_err(), InputError::InvalidNetwork);
    assert_eq!(create_network("mainnet ").unwrap_err(), InputError::InvalidNetwork);
}

#[test]
fn test_network_case_insensitive() {
    assert_eq!(create_network("REGTEST").unwrap(), Network::Regtest);
    assert_eq!(create_network("TestNet").unwrap(), Network::Testnet);
}
