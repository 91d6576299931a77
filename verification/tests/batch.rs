use grid_daemon::batch::{
    create_batch, create_batch_header, create_batch_list_from_one, Batch, Signed,
};
use grid_daemon::error::AppAuthHandlerError;
use grid_daemon::submit::submit_batches;
use grid_daemon::transaction::{create_txn, Transaction};

const KEY: &str = "02f5d3a0cafe";

fn transaction(signature: &str) -> Transaction {
    let payload = signature.as_bytes().to_vec();
    Transaction {
        header: create_txn(KEY, vec!["00ec01".to_string()], &payload, "01".to_string()),
        header_bytes: vec![1, 2, 3],
        header_signature: signature.to_string(),
        payload,
    }
}

fn signed() -> Signed {
    Signed { bytes: vec![9, 8, 7], signature: "batch-signature".to_string() }
}

fn batch_of(signatures: &[&str]) -> Batch {
    let transactions: Vec<Transaction> = signatures.iter().map(|s| transaction(s)).collect();
    create_batch(transactions, KEY, signed()).unwrap()
}

#[test]
fn batch_header_lists_header_signatures_in_order() {
    let transactions = vec![transaction("t1"), transaction("t2"), transaction("t3")];
    let header = create_batch_header(&transactions, KEY).unwrap();
    assert_eq!(header.signer_public_key, KEY);
    assert_eq!(header.transaction_ids, vec!["t1", "t2", "t3"]);
}

#[test]
fn batch_header_keeps_duplicates_and_order() {
    let transactions = vec![transaction("b"), transaction("a"), transaction("b")];
    let header = create_batch_header(&transactions, KEY).unwrap();
    assert_eq!(header.transaction_ids, vec!["b", "a", "b"]);
}

#[test]
fn batch_holds_transactions_and_signature() {
    let transactions = vec![transaction("t1"), transaction("t2")];
    let batch = create_batch(transactions.clone(), KEY, signed()).unwrap();
    assert_eq!(batch.transactions, transactions);
    assert_eq!(batch.header, create_batch_header(&transactions, KEY).unwrap());
    assert_eq!(batch.header.transaction_ids, vec!["t1", "t2"]);
    assert_eq!(batch.header_bytes, vec![9, 8, 7]);
    assert_eq!(batch.header_signature, "batch-signature");
}

#[test]
fn batch_of_one_transaction() {
    let batch = batch_of(&["only"]);
    assert_eq!(batch.transactions.len(), 1);
    assert_eq!(batch.header.transaction_ids, vec!["only"]);
}

#[test]
fn empty_batch_is_refused() {
    let expected = AppAuthHandlerError::AssemblyError(
        "A batch needs at least one transaction".to_string(),
    );
    assert_eq!(create_batch_header(&vec![], KEY), Err(expected.clone()));
    assert_eq!(create_batch(vec![], KEY, signed()), Err(expected));
}

#[test]
fn batch_list_from_one_holds_that_batch() {
    let batch = batch_of(&["t1", "t2"]);
    let list = create_batch_list_from_one(batch.clone());
    assert_eq!(list.batches.len(), 1);
    assert_eq!(list.batches[0], batch);
}

#[test]
fn submission_is_scoped_to_the_service() {
    let list = create_batch_list_from_one(batch_of(&["t1"]));
    let submission = submit_batches(list.clone(), "http://localhost:8080/", "gsAA").unwrap();
    assert_eq!(submission.batch_list, list);
    assert_eq!(submission.response_url, "http://localhost:8080/");
    assert_eq!(submission.service_id, Some("gsAA".to_string()));
}

#[test]
fn submission_url_is_parsed() {
    let list = create_batch_list_from_one(batch_of(&["t1"]));
    let submission = submit_batches(list, "HTTP://Example.COM:80/a/../b", "gsAA").unwrap();
    assert_eq!(submission.response_url, "http://example.com/b");
}

#[test]
fn submission_to_no_url_is_refused() {
    for endpoint in ["", "not a url", "/only/a/path", "http://"] {
        let list = create_batch_list_from_one(batch_of(&["t1"]));
        assert_eq!(submit_batches(list, endpoint, "gsAA"), None, "{}", endpoint);
    }
}
