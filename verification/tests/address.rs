use grid_daemon::address::{
    compute_contract_address, compute_contract_registry_address,
    compute_namespace_registry_address, ADDRESS_LENGTH, CONTRACT_PREFIX,
    CONTRACT_REGISTRY_PREFIX, NAMESPACE_REGISTRY_PREFIX,
};
use grid_daemon::error::AppAuthHandlerError;
use grid_daemon::hex::bytes_to_hex_str;

#[test]
fn hex_of_bytes_is_lower_case_and_padded() {
    assert_eq!(bytes_to_hex_str(&[]), "");
    assert_eq!(bytes_to_hex_str(&[0]), "00");
    assert_eq!(bytes_to_hex_str(&[0x0a, 0xb0, 0xff, 0x10, 0x01]), "0ab0ff1001");
    assert_eq!(
        bytes_to_hex_str(&[0x01, 0x23, 0x45, 0x67, 0x89, 0xab, 0xcd, 0xef]),
        "0123456789abcdef"
    );
}

#[test]
fn namespace_registry_address_of_pike() {
    let address = compute_namespace_registry_address("cad11d").unwrap();
    assert_eq!(
        address,
        "00ec00d4eb478d386d0d216048a54575feda3450f2fcc42b3d15f80e258c16010da412"
    );
}

#[test]
fn namespace_registry_address_of_product() {
    let address = compute_namespace_registry_address("621dee").unwrap();
    assert_eq!(
        address,
        "00ec00ebfd680ea8abffc272049e01409cda9efec943f4ddca0263897e715913a04705"
    );
}

#[test]
fn namespace_registry_address_uses_first_six_characters_only() {
    let short = compute_namespace_registry_address("cad11d").unwrap();
    let long = compute_namespace_registry_address("cad11dXYZ").unwrap();
    assert_eq!(short, long);
}

#[test]
fn namespace_registry_address_counts_characters() {
    let address = compute_namespace_registry_address("éééééé").unwrap();
    assert_eq!(
        address,
        "00ec0013478a4c67a06f07a17bf92168a16863c4f890da358cc76906b60cbe31ae5986"
    );
    assert!(compute_namespace_registry_address("ééééé").is_err());
}

#[test]
fn namespace_registry_address_has_length_and_prefix() {
    for namespace in ["cad11d", "621dee", "abcdefgh", "      ", "000000000000"] {
        let address = compute_namespace_registry_address(namespace).unwrap();
        assert_eq!(address.len(), ADDRESS_LENGTH);
        assert_eq!(address.len(), 70);
        assert!(address.starts_with(NAMESPACE_REGISTRY_PREFIX));
        assert!(address.starts_with("00ec00"));
        assert_eq!(address, compute_namespace_registry_address(namespace).unwrap());
    }
}

#[test]
fn short_namespace_is_refused() {
    for namespace in ["", "c", "cad11"] {
        match compute_namespace_registry_address(namespace) {
            Err(AppAuthHandlerError::AddressError(message)) => assert_eq!(
                message,
                format!("Namespace must be at least 6 characters long: {}", namespace)
            ),
            other => panic!("expected an address error, got {:?}", other),
        }
    }
}

#[test]
fn contract_registry_addresses() {
    assert_eq!(
        compute_contract_registry_address("pike"),
        "00ec01ed02b3db4bf892dd24bdbc8e5be81737fc9ca9e8ccac199a2bd2fa66adaec0fc"
    );
    assert_eq!(
        compute_contract_registry_address("grid_product"),
        "00ec01d391987f1d0b5e8e2c7dde388fa110c9d1c6f14a6a7c03d2e85fb3a6379c79ae"
    );
}

#[test]
fn contract_addresses() {
    assert_eq!(
        compute_contract_address("pike", "0.1"),
        "00ec02af224e1969e37fcee311973ffca63f0bc9bfee3fef74d006ebe459501a100662"
    );
    assert_eq!(
        compute_contract_address("grid_product", "1.0"),
        "00ec02d15330c9f52aa67a4fee0efdc00f7f55b5116f0365d294af7ffcc951e8974de7"
    );
}

#[test]
fn contract_addresses_are_deterministic_and_told_apart() {
    let registry = compute_contract_registry_address("pike");
    let contract = compute_contract_address("pike", "0.1");
    assert_eq!(registry, compute_contract_registry_address("pike"));
    assert_eq!(contract, compute_contract_address("pike", "0.1"));
    assert_eq!(registry.len(), 70);
    assert_eq!(contract.len(), 70);
    assert!(registry.starts_with(CONTRACT_REGISTRY_PREFIX));
    assert!(contract.starts_with(CONTRACT_PREFIX));
    assert_ne!(registry[..6], contract[..6]);
    assert_ne!(registry, contract);
}
