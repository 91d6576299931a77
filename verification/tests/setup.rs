use crypto::digest::Digest;
use grid_daemon::batch::Signed;
use grid_daemon::error::AppAuthHandlerError;
use grid_daemon::key::Keys;
use grid_daemon::setup::{
    plan_request, setup_grid, setup_with, ContractSpec, GridSetup, Reply, Request, Stage,
};
use grid_daemon::submit::SubmitBatches;
use grid_daemon::transaction::Action;

const PUBLIC_KEY: &str = "02f5d3a0cafe";
const PRIVATE_KEY: &str = "11aa22bb";
const URL: &str = "http://localhost:8085";
const SETTING: &str = "000000a87cb5eafdcca6a814e4add97c4b517d3c530c2f44b31d18e3b0c44298fc1c14";
const PIKE_REGISTRY: &str =
    "00ec01ed02b3db4bf892dd24bdbc8e5be81737fc9ca9e8ccac199a2bd2fa66adaec0fc";
const PIKE_CONTRACT: &str =
    "00ec02af224e1969e37fcee311973ffca63f0bc9bfee3fef74d006ebe459501a100662";
const PIKE_NAMESPACE: &str =
    "00ec00d4eb478d386d0d216048a54575feda3450f2fcc42b3d15f80e258c16010da412";
const PRODUCT_REGISTRY: &str =
    "00ec01d391987f1d0b5e8e2c7dde388fa110c9d1c6f14a6a7c03d2e85fb3a6379c79ae";
const PRODUCT_CONTRACT: &str =
    "00ec02d15330c9f52aa67a4fee0efdc00f7f55b5116f0365d294af7ffcc951e8974de7";
const PRODUCT_NAMESPACE: &str =
    "00ec00ebfd680ea8abffc272049e01409cda9efec943f4ddca0263897e715913a04705";

fn keys() -> Keys {
    Keys::new(PUBLIC_KEY.to_string(), PRIVATE_KEY.to_string())
}

/// A stand-in for the encoder: the name of the action and of its subject.
fn encode(action: &Action) -> Vec<u8> {
    match action {
        Action::CreateContractRegistry { name, .. } => format!("registry:{}", name),
        Action::CreateContract { name, contract, .. } => {
            format!("contract:{}:{}", name, contract.len())
        }
        Action::CreateNamespaceRegistry { namespace, .. } => format!("namespace:{}", namespace),
        Action::CreateNamespaceRegistryPermission { namespace, contract_name, .. } => {
            format!("permission:{}:{}", contract_name, namespace)
        }
    }
    .into_bytes()
}

/// A stand-in for the signer: a counter tells the signatures apart.
fn sign(count: &mut usize) -> Signed {
    *count += 1;
    Signed { bytes: vec![*count as u8], signature: format!("signature-{}", count) }
}

/// Answers every request with success.
fn succeed(request: &Request, count: &mut usize) -> Reply {
    match request {
        Request::CreateSigner { .. } => Reply::SignerCreated { public_key: PUBLIC_KEY.to_string() },
        Request::ReadContract { path } => Reply::ContractRead { contract: path.clone().into_bytes() },
        Request::EncodePayload { action } => Reply::PayloadEncoded { payload: encode(action) },
        Request::SignTransaction { .. } => Reply::HeaderSigned { signed: sign(count) },
        Request::SignBatch { .. } => Reply::HeaderSigned { signed: sign(count) },
        Request::Submit { .. } => Reply::Submitted,
        Request::Done { .. } => panic!("no reply to the end of a run"),
    }
}

/// Runs to the end, with success everywhere but where `fail` gives a reply.
fn drive(
    start: (GridSetup, Request),
    fail: &dyn Fn(&Request) -> Option<Reply>,
) -> (Vec<String>, Vec<SubmitBatches>, Result<(), AppAuthHandlerError>, GridSetup) {
    let (mut run, mut request) = start;
    let mut kinds = Vec::new();
    let mut submissions = Vec::new();
    let mut count = 0;
    let mut nonce = 0;
    loop {
        let kind = match &request {
            Request::CreateSigner { .. } => "signer".to_string(),
            Request::ReadContract { path } => format!("read {}", path),
            Request::EncodePayload { action } => {
                format!("encode {}", String::from_utf8(encode(action)).unwrap())
            }
            Request::SignTransaction { .. } => "sign transaction".to_string(),
            Request::SignBatch { .. } => "sign batch".to_string(),
            Request::Submit { .. } => "submit".to_string(),
            Request::Done { .. } => "done".to_string(),
        };
        kinds.push(kind);
        if let Request::Done { result } = request {
            return (kinds, submissions, result, run);
        }
        let reply = fail(&request).unwrap_or_else(|| succeed(&request, &mut count));
        if let Request::Submit { batches } = request {
            submissions.push(batches);
        }
        nonce += 1;
        let next = run.advance_with_nonce(reply, format!("nonce-{}", nonce));
        run = next.0;
        request = next.1;
    }
}

fn never(_: &Request) -> Option<Reply> {
    None
}

#[test]
fn run_starts_with_the_signer() {
    let (run, request) = setup_grid(&keys(), URL, "gsAA");
    assert_eq!(request, Request::CreateSigner { private_key: PRIVATE_KEY.to_string() });
    assert_eq!(run.stage, Stage::Signer);
    assert_eq!(run.service_id, "gsAA");
    assert_eq!(run.splinterd_url, URL);
    assert_eq!(run.specs, vec![ContractSpec::pike(), ContractSpec::product()]);
    assert!(run.transactions.is_empty());
}

#[test]
fn contract_specs_of_pike_and_product() {
    let pike = ContractSpec::pike();
    assert_eq!(pike.name, "pike");
    assert_eq!(pike.version, "0.1");
    assert_eq!(pike.prefix, "cad11d");
    assert_eq!(pike.filename, "grid-pike_0.1.0-dev.scar");
    let product = ContractSpec::product();
    assert_eq!(product.name, "grid_product");
    assert_eq!(product.version, "1.0");
    assert_eq!(product.prefix, "621dee");
    assert_eq!(product.filename, "grid-product_0.1.0-dev.scar");
}

#[test]
fn successful_run_asks_in_fixed_order() {
    let (kinds, _, result, run) = drive(setup_grid(&keys(), URL, "gsAA"), &never);
    assert_eq!(result, Ok(()));
    assert_eq!(run.stage, Stage::Finished);
    assert_eq!(
        kinds,
        vec![
            "signer",
            "encode registry:pike",
            "sign transaction",
            "read /usr/share/scar/grid-pike_0.1.0-dev.scar",
            "encode contract:pike:40",
            "sign transaction",
            "encode namespace:cad11d",
            "sign transaction",
            "encode permission:pike:cad11d",
            "sign transaction",
            "encode registry:grid_product",
            "sign transaction",
            "read /usr/share/scar/grid-product_0.1.0-dev.scar",
            "encode contract:grid_product:43",
            "sign transaction",
            "encode namespace:621dee",
            "sign transaction",
            "encode permission:grid_product:621dee",
            "sign transaction",
            "sign batch",
            "submit",
            "done",
        ]
    );
}

#[test]
fn successful_run_submits_one_batch_of_eight_transactions() {
    let (_, submissions, result, _) = drive(setup_grid(&keys(), URL, "gsAA"), &never);
    assert_eq!(result, Ok(()));
    assert_eq!(submissions.len(), 1);
    let submission = &submissions[0];
    assert_eq!(submission.service_id, Some("gsAA".to_string()));
    assert_eq!(submission.response_url, "http://localhost:8085/");
    assert_eq!(submission.batch_list.batches.len(), 1);
    let batch = &submission.batch_list.batches[0];
    assert_eq!(batch.transactions.len(), 8);
    assert_eq!(batch.header.signer_public_key, PUBLIC_KEY);
    assert_eq!(batch.header_signature, "signature-9");
    assert_eq!(batch.header_bytes, vec![9]);
    let ids: Vec<String> = (1..=8).map(|i| format!("signature-{}", i)).collect();
    assert_eq!(batch.header.transaction_ids, ids);
    let signatures: Vec<String> =
        batch.transactions.iter().map(|t| t.header_signature.clone()).collect();
    assert_eq!(signatures, ids);
}

#[test]
fn successful_run_builds_the_planned_transactions() {
    let (_, submissions, _, _) = drive(setup_grid(&keys(), URL, "gsAA"), &never);
    let transactions = &submissions[0].batch_list.batches[0].transactions;
    let payloads: Vec<String> =
        transactions.iter().map(|t| String::from_utf8(t.payload.clone()).unwrap()).collect();
    assert_eq!(
        payloads,
        vec![
            "registry:pike",
            "contract:pike:40",
            "namespace:cad11d",
            "permission:pike:cad11d",
            "registry:grid_product",
            "contract:grid_product:43",
            "namespace:621dee",
            "permission:grid_product:621dee",
        ]
    );
    let addresses: Vec<Vec<&str>> = vec![
        vec![PIKE_REGISTRY, SETTING],
        vec!["00ec03", "cad11d", PIKE_REGISTRY, PIKE_CONTRACT],
        vec![PIKE_NAMESPACE, SETTING],
        vec![PIKE_NAMESPACE, SETTING],
        vec![PRODUCT_REGISTRY, SETTING],
        vec!["00ec03", "cad11d", "621dee", PRODUCT_REGISTRY, PRODUCT_CONTRACT],
        vec![PRODUCT_NAMESPACE, SETTING],
        vec![PIKE_NAMESPACE, PRODUCT_NAMESPACE, SETTING],
    ];
    for (i, transaction) in transactions.iter().enumerate() {
        let header = &transaction.header;
        assert_eq!(header.inputs, addresses[i]);
        assert_eq!(header.outputs, addresses[i]);
        assert_eq!(header.family_name, "sabre");
        assert_eq!(header.family_version, "0.4");
        assert_eq!(header.signer_public_key, PUBLIC_KEY);
        assert_eq!(header.batcher_public_key, PUBLIC_KEY);
        assert_eq!(header.payload_sha512.len(), 128);
        assert_eq!(transaction.header_bytes, vec![i as u8 + 1]);
    }
    assert_eq!(
        transactions[0].header.payload_sha512,
        grid_daemon::hex::bytes_to_hex_str(&sha512(b"registry:pike"))
    );
    let nonces: Vec<&str> = transactions.iter().map(|t| t.header.nonce.as_str()).collect();
    assert_eq!(
        nonces,
        vec![
            "nonce-2", "nonce-5", "nonce-7", "nonce-9", "nonce-11", "nonce-14", "nonce-16",
            "nonce-18"
        ]
    );
}

fn sha512(data: &[u8]) -> Vec<u8> {
    let mut hasher = crypto::sha2::Sha512::new();
    hasher.input(data);
    let mut out = vec![0u8; 64];
    hasher.result(&mut out);
    out
}

#[test]
fn upload_carries_the_contract_file() {
    let (mut run, mut request) = setup_grid(&keys(), URL, "gsAA");
    let mut count = 0;
    loop {
        if let Request::ReadContract { .. } = request {
            break;
        }
        let reply = succeed(&request, &mut count);
        let next = run.advance_with_nonce(reply, "0".to_string());
        run = next.0;
        request = next.1;
    }
    let (_, request) =
        run.advance_with_nonce(Reply::ContractRead { contract: vec![0, 97, 115, 109] }, "0".to_string());
    match request {
        Request::EncodePayload {
            action: Action::CreateContract { name, version, inputs, outputs, contract },
        } => {
            assert_eq!(name, "pike");
            assert_eq!(version, "0.1");
            assert_eq!(inputs, vec!["00ec03", "cad11d", "cad11d"]);
            assert_eq!(outputs, vec!["00ec03", "cad11d", "cad11d"]);
            assert_eq!(contract, vec![0, 97, 115, 109]);
        }
        other => panic!("unexpected request {:?}", other),
    }
}

#[test]
fn advance_takes_a_nonce_from_the_clock() {
    let (run, request) = setup_grid(&keys(), URL, "gsAA");
    let mut count = 0;
    let (run, request) = run.advance(succeed(&request, &mut count));
    let (_, request) = run.advance(succeed(&request, &mut count));
    match request {
        Request::SignTransaction { header } => {
            assert!(header.nonce.len() >= 2);
            assert!(header.nonce.chars().all(|c| c.is_ascii_digit()));
        }
        other => panic!("unexpected request {:?}", other),
    }
}

fn failure_of(fail: &dyn Fn(&Request) -> Option<Reply>) -> (AppAuthHandlerError, usize, usize) {
    let (kinds, submissions, result, run) = drive(setup_grid(&keys(), URL, "gsAA"), fail);
    assert_eq!(run.stage, Stage::Finished);
    assert_eq!(kinds.last().unwrap(), "done");
    (result.unwrap_err(), kinds.len(), submissions.len())
}

#[test]
fn malformed_key_is_a_signing_error() {
    let (error, asked, submitted) = failure_of(&|request| match request {
        Request::CreateSigner { .. } => {
            Some(Reply::SignerFailed { reason: "ParseError: invalid character".to_string() })
        }
        _ => None,
    });
    assert_eq!(
        error,
        AppAuthHandlerError::SigningError("ParseError: invalid character".to_string())
    );
    assert_eq!(asked, 2);
    assert_eq!(submitted, 0);
}

#[test]
fn unreadable_contract_is_a_contract_load_error() {
    let (error, _, submitted) = failure_of(&|request| match request {
        Request::ReadContract { .. } => {
            Some(Reply::ContractNotOpened { reason: "No such file".to_string() })
        }
        _ => None,
    });
    assert_eq!(
        error,
        AppAuthHandlerError::ContractLoadError("Failed to load contract: No such file".to_string())
    );
    assert_eq!(submitted, 0);
    let (error, _, submitted) = failure_of(&|request| match request {
        Request::ReadContract { path } if path.contains("product") => {
            Some(Reply::ContractNotRead { reason: "interrupted".to_string() })
        }
        _ => None,
    });
    assert_eq!(
        error,
        AppAuthHandlerError::ContractLoadError(
            "IoError while reading contract: interrupted".to_string()
        )
    );
    assert_eq!(submitted, 0);
}

#[test]
fn payload_failure_is_a_sabre_error() {
    let (error, asked, submitted) = failure_of(&|request| match request {
        Request::EncodePayload { action: Action::CreateNamespaceRegistry { .. } } => {
            Some(Reply::PayloadFailed { reason: "'owners' field is required".to_string() })
        }
        _ => None,
    });
    assert_eq!(error, AppAuthHandlerError::SabreError("'owners' field is required".to_string()));
    assert_eq!(asked, 8);
    assert_eq!(submitted, 0);
}

#[test]
fn transaction_signing_failure_is_a_signing_error() {
    let (error, _, submitted) = failure_of(&|request| match request {
        Request::SignTransaction { .. } => {
            Some(Reply::HeaderNotSigned { reason: "SigningError: bad key".to_string() })
        }
        _ => None,
    });
    assert_eq!(error, AppAuthHandlerError::SigningError("SigningError: bad key".to_string()));
    assert_eq!(submitted, 0);
    let (error, _, _) = failure_of(&|request| match request {
        Request::SignTransaction { .. } => {
            Some(Reply::HeaderNotEncoded { reason: "too large".to_string() })
        }
        _ => None,
    });
    assert_eq!(
        error,
        AppAuthHandlerError::SigningError(
            "failed to serialize transaction header to bytes: too large".to_string()
        )
    );
}

#[test]
fn batch_signing_failure_is_an_assembly_error() {
    let (error, asked, submitted) = failure_of(&|request| match request {
        Request::SignBatch { .. } => {
            Some(Reply::HeaderNotSigned { reason: "SigningError: bad key".to_string() })
        }
        _ => None,
    });
    assert_eq!(error, AppAuthHandlerError::AssemblyError("SigningError: bad key".to_string()));
    assert_eq!(asked, 21);
    assert_eq!(submitted, 0);
    let (error, _, _) = failure_of(&|request| match request {
        Request::SignBatch { .. } => {
            Some(Reply::HeaderNotEncoded { reason: "too large".to_string() })
        }
        _ => None,
    });
    assert_eq!(
        error,
        AppAuthHandlerError::AssemblyError(
            "failed to serialize batch header to bytes: too large".to_string()
        )
    );
}

#[test]
fn refused_submission_is_a_submission_error() {
    let (error, asked, submitted) = failure_of(&|request| match request {
        Request::Submit { .. } => {
            Some(Reply::SubmissionFailed { reason: "503 Service Unavailable".to_string() })
        }
        _ => None,
    });
    assert_eq!(error, AppAuthHandlerError::SubmissionError("503 Service Unavailable".to_string()));
    assert_eq!(asked, 22);
    assert_eq!(submitted, 1);
}

#[test]
fn ledger_address_that_is_no_url_is_a_submission_error() {
    let (kinds, submissions, result, _) = drive(setup_grid(&keys(), "not a url", "gsAA"), &never);
    assert_eq!(
        result,
        Err(AppAuthHandlerError::SubmissionError("Invalid ledger URL: not a url".to_string()))
    );
    assert_eq!(kinds.len(), 21);
    assert!(submissions.is_empty());
}

#[test]
fn short_namespace_is_an_address_error() {
    let spec = ContractSpec {
        name: "tiny".to_string(),
        version: "1".to_string(),
        prefix: "abc".to_string(),
        filename: "tiny.scar".to_string(),
    };
    let (kinds, submissions, result, _) =
        drive(setup_with(vec![spec], &keys(), URL, "gsAA"), &never);
    assert_eq!(
        result,
        Err(AppAuthHandlerError::AddressError(
            "Namespace must be at least 6 characters long: abc".to_string()
        ))
    );
    assert_eq!(
        kinds,
        vec![
            "signer",
            "encode registry:tiny",
            "sign transaction",
            "read /usr/share/scar/tiny.scar",
            "encode contract:tiny:25",
            "sign transaction",
            "done",
        ]
    );
    assert!(submissions.is_empty());
}

#[test]
fn run_without_contracts_has_nothing_to_batch() {
    let (kinds, submissions, result, _) = drive(setup_with(vec![], &keys(), URL, "gsAA"), &never);
    assert_eq!(
        result,
        Err(AppAuthHandlerError::AssemblyError(
            "A batch needs at least one transaction".to_string()
        ))
    );
    assert_eq!(kinds, vec!["signer", "done"]);
    assert!(submissions.is_empty());
}

#[test]
fn reply_to_another_request_ends_the_run() {
    let (run, _) = setup_grid(&keys(), URL, "gsAA");
    let (run, request) = run.advance(Reply::Submitted);
    assert_eq!(
        request,
        Request::Done {
            result: Err(AppAuthHandlerError::AssemblyError(
                "The reply does not answer the request".to_string()
            ))
        }
    );
    assert_eq!(run.stage, Stage::Finished);
    let (run, request) =
        run.advance(Reply::SignerCreated { public_key: PUBLIC_KEY.to_string() });
    assert!(matches!(request, Request::Done { result: Err(_) }));
    assert_eq!(run.stage, Stage::Finished);
}

#[test]
fn plan_of_one_contract() {
    let spec = ContractSpec::product();
    let registry = plan_request(&spec, 0, PUBLIC_KEY, vec![]).unwrap();
    assert_eq!(registry.addresses, vec![PRODUCT_REGISTRY, SETTING]);
    let upload = plan_request(&spec, 1, PUBLIC_KEY, vec![7]).unwrap();
    assert_eq!(
        upload.addresses,
        vec!["00ec03", "cad11d", "621dee", PRODUCT_REGISTRY, PRODUCT_CONTRACT]
    );
    let namespace = plan_request(&spec, 2, PUBLIC_KEY, vec![]).unwrap();
    assert_eq!(namespace.addresses, vec![PRODUCT_NAMESPACE, SETTING]);
    let permission = plan_request(&spec, 3, PUBLIC_KEY, vec![]).unwrap();
    assert_eq!(permission.addresses, vec![PIKE_NAMESPACE, PRODUCT_NAMESPACE, SETTING]);
}
