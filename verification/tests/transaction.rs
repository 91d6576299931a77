use grid_daemon::error::AppAuthHandlerError;
use grid_daemon::transaction::{
    create_txn, make_contract_registry_txn, make_namespace_permissions_txn,
    make_namespace_registry_txn, make_upload_contract_txn, Action, ADMINISTRATORS_SETTING_ADDRESS,
};

const KEY: &str = "02f5d3a0cafe";
const PIKE_REGISTRY: &str =
    "00ec01ed02b3db4bf892dd24bdbc8e5be81737fc9ca9e8ccac199a2bd2fa66adaec0fc";
const PIKE_CONTRACT: &str =
    "00ec02af224e1969e37fcee311973ffca63f0bc9bfee3fef74d006ebe459501a100662";
const PIKE_NAMESPACE: &str =
    "00ec00d4eb478d386d0d216048a54575feda3450f2fcc42b3d15f80e258c16010da412";
const PRODUCT_NAMESPACE: &str =
    "00ec00ebfd680ea8abffc272049e01409cda9efec943f4ddca0263897e715913a04705";
const SETTING: &str = "000000a87cb5eafdcca6a814e4add97c4b517d3c530c2f44b31d18e3b0c44298fc1c14";

#[test]
fn administrators_setting_address() {
    assert_eq!(ADMINISTRATORS_SETTING_ADDRESS, SETTING);
    assert_eq!(ADMINISTRATORS_SETTING_ADDRESS.len(), 70);
}

#[test]
fn contract_registry_transaction() {
    let request = make_contract_registry_txn(KEY, "pike");
    assert_eq!(
        request.action,
        Action::CreateContractRegistry {
            name: "pike".to_string(),
            owners: vec![KEY.to_string()],
        }
    );
    assert_eq!(request.addresses, vec![PIKE_REGISTRY.to_string(), SETTING.to_string()]);
}

#[test]
fn upload_contract_transaction() {
    let request = make_upload_contract_txn("pike", "0.1", vec![0, 97, 115, 109], "cad11d");
    let namespaces = vec!["00ec03".to_string(), "cad11d".to_string(), "cad11d".to_string()];
    assert_eq!(
        request.action,
        Action::CreateContract {
            name: "pike".to_string(),
            version: "0.1".to_string(),
            inputs: namespaces.clone(),
            outputs: namespaces,
            contract: vec![0, 97, 115, 109],
        }
    );
    assert_eq!(request.addresses, vec!["00ec03", "cad11d", PIKE_REGISTRY, PIKE_CONTRACT]);
}

#[test]
fn upload_contract_transaction_names_own_namespace() {
    let request = make_upload_contract_txn("grid_product", "1.0", vec![], "621dee");
    match request.action.clone() {
        Action::CreateContract { inputs, outputs, .. } => {
            assert_eq!(inputs, vec!["00ec03", "cad11d", "621dee"]);
            assert_eq!(outputs, vec!["00ec03", "cad11d", "621dee"]);
        }
        other => panic!("unexpected action {:?}", other),
    }
    assert_eq!(
        request.addresses,
        vec![
            "00ec03",
            "cad11d",
            "621dee",
            "00ec01d391987f1d0b5e8e2c7dde388fa110c9d1c6f14a6a7c03d2e85fb3a6379c79ae",
            "00ec02d15330c9f52aa67a4fee0efdc00f7f55b5116f0365d294af7ffcc951e8974de7",
        ]
    );
}

#[test]
fn namespace_registry_transaction() {
    let request = make_namespace_registry_txn(KEY, "621dee").unwrap();
    assert_eq!(
        request.action,
        Action::CreateNamespaceRegistry {
            namespace: "621dee".to_string(),
            owners: vec![KEY.to_string()],
        }
    );
    assert_eq!(request.addresses, vec![PRODUCT_NAMESPACE.to_string(), SETTING.to_string()]);
}

#[test]
fn namespace_registry_transaction_needs_six_characters() {
    assert_eq!(
        make_namespace_registry_txn(KEY, "621de"),
        Err(AppAuthHandlerError::AddressError(
            "Namespace must be at least 6 characters long: 621de".to_string()
        ))
    );
}

#[test]
fn namespace_permissions_transaction() {
    let request = make_namespace_permissions_txn("grid_product", "621dee").unwrap();
    assert_eq!(
        request.action,
        Action::CreateNamespaceRegistryPermission {
            namespace: "621dee".to_string(),
            contract_name: "grid_product".to_string(),
            read: true,
            write: false,
        }
    );
    assert_eq!(
        request.addresses,
        vec![PIKE_NAMESPACE.to_string(), PRODUCT_NAMESPACE.to_string(), SETTING.to_string()]
    );
}

#[test]
fn namespace_permissions_transaction_needs_six_characters() {
    assert_eq!(
        make_namespace_permissions_txn("grid_product", ""),
        Err(AppAuthHandlerError::AddressError(
            "Namespace must be at least 6 characters long: ".to_string()
        ))
    );
}

#[test]
fn transaction_header_binds_payload_and_signer() {
    let addresses = vec![PIKE_REGISTRY.to_string(), SETTING.to_string()];
    let header = create_txn(KEY, addresses.clone(), &b"payload".to_vec(), "042".to_string());
    assert_eq!(header.family_name, "sabre");
    assert_eq!(header.family_version, "0.4");
    assert_eq!(header.nonce, "042");
    assert_eq!(header.signer_public_key, KEY);
    assert_eq!(header.batcher_public_key, KEY);
    assert_eq!(header.inputs, addresses);
    assert_eq!(header.outputs, addresses);
    assert_eq!(
        header.payload_sha512,
        "70b33ce9c9047e30f917e7ea13e42f7767008c3f4f9c9baf49e4390fc625549e9625eee39b94545074e8a1\
         824cf3f238463b11bc03d97348e0fc2999ca1fff7f"
    );
}

#[test]
fn transaction_header_of_empty_payload() {
    let header = create_txn(KEY, vec![], &vec![], "0".to_string());
    assert!(header.inputs.is_empty());
    assert!(header.outputs.is_empty());
    assert_eq!(
        header.payload_sha512,
        "cf83e1357eefb8bdf1542850d66d8007d620e4050b5715dc83f4a921d36ce9ce47d0d13c5d85f2b0ff8318\
         d2877eec2f63b931bd47417a81a538327af927da3e"
    );
    assert_eq!(header.duplicate(), header);
}

#[test]
fn namespace_permissions_transaction_of_pike_names_each_address_once() {
    let request = make_namespace_permissions_txn("pike", "cad11d").unwrap();
    assert_eq!(request.addresses, vec![PIKE_NAMESPACE.to_string(), SETTING.to_string()]);
}
