//! Batches of signed transactions.
//!
//! A batch is applied as a whole or not at all. Its header lists the
//! identifiers of its transactions, which are their header signatures, in
//! the order of the transactions.

use crate::error::AppAuthHandlerError;
use crate::text::texts;
use crate::transaction::{transaction_views, Transaction, TransactionView};
use vstd::prelude::*;
use vstd::string::*;

verus! {

/// Message of the error for a batch without transactions.
pub const EMPTY_BATCH: &'static str = "A batch needs at least one transaction";

/// A header as the signer returned it: encoded, and signed.
#[derive(Debug, Clone, PartialEq, Eq)]
pub struct Signed {
    /// The encoded header.
    pub bytes: Vec<u8>,
    /// The signature over `bytes`, as hexadecimal text.
    pub signature: String,
}

/// The header of a batch: what is signed.
#[derive(Debug, Clone, PartialEq, Eq)]
pub struct BatchHeader {
    pub signer_public_key: String,
    pub transaction_ids: Vec<String>,
}

/// A batch header as a mathematical value.
pub struct BatchHeaderView {
    pub signer_public_key: Seq<char>,
    pub transaction_ids: Seq<Seq<char>>,
}

impl View for BatchHeader {
    type V = BatchHeaderView;

    open spec fn view(&self) -> BatchHeaderView {
        BatchHeaderView {
            signer_public_key: self.signer_public_key@,
            transaction_ids: texts(self.transaction_ids@),
        }
    }
}

/// A signed batch.
#[derive(Debug, Clone, PartialEq, Eq)]
pub struct Batch {
    /// The header that was signed.
    pub header: BatchHeader,
    /// The header as the bytes that were signed.
    pub header_bytes: Vec<u8>,
    /// The signature over `header_bytes`.
    pub header_signature: String,
    /// The transactions, in the order in which they are applied.
    pub transactions: Vec<Transaction>,
}

/// A batch as a mathematical value.
pub struct BatchView {
    pub header: BatchHeaderView,
    pub header_bytes: Seq<u8>,
    pub header_signature: Seq<char>,
    pub transactions: Seq<TransactionView>,
}

impl View for Batch {
    type V = BatchView;

    open spec fn view(&self) -> BatchView {
        BatchView {
            header: self.header@,
            header_bytes: self.header_bytes@,
            header_signature: self.header_signature@,
            transactions: transaction_views(self.transactions@),
        }
    }
}

impl BatchView {
    /// Whether the batch is well formed: it has transactions, and its
    /// header lists their header signatures in their order.
    pub open spec fn well_formed(self) -> bool {
        &&& self.transactions.len() > 0
        &&& self.header.transaction_ids == transaction_ids(self.transactions)
    }
}

/// Batches that are submitted together.
#[derive(Debug, Clone, PartialEq, Eq)]
pub struct BatchList {
    pub batches: Vec<Batch>,
}

/// The batches of a list, each as a mathematical value.
pub open spec fn batch_views(list: Seq<Batch>) -> Seq<BatchView> {
    Seq::new(list.len(), |i: int| list[i]@)
}

impl View for BatchList {
    type V = Seq<BatchView>;

    open spec fn view(&self) -> Seq<BatchView> {
        batch_views(self.batches@)
    }
}

/// The identifiers of `transactions`: their header signatures, in order.
pub open spec fn transaction_ids(transactions: Seq<TransactionView>) -> Seq<Seq<char>> {
    Seq::new(transactions.len(), |i: int| transactions[i].header_signature)
}

/// The header of the batch of `transactions` that the holder of
/// `public_key` signs.
pub open spec fn batch_header(transactions: Seq<TransactionView>, public_key: Seq<char>)
    -> BatchHeaderView {
    BatchHeaderView {
        signer_public_key: public_key,
        transaction_ids: transaction_ids(transactions),
    }
}

/// Builds the header of the batch of `txns` that the holder of
/// `public_key` signs. A batch without transactions is refused.
pub fn create_batch_header(txns: &Vec<Transaction>, public_key: &str) -> (result: Result<
    BatchHeader,
    AppAuthHandlerError,
>)
    ensures
        txns@.len() > 0 ==> (result matches Ok(header) && header@ == batch_header(
            transaction_views(txns@),
            public_key@,
        )),
        txns@.len() == 0 ==> (result matches Err(AppAuthHandlerError::AssemblyError(message))
            && message@ == EMPTY_BATCH@),
{
    if txns.len() == 0 {
        return Err(AppAuthHandlerError::AssemblyError(String::from_str(EMPTY_BATCH)));
    }
    let mut ids: Vec<String> = Vec::new();
    let mut i: usize = 0;
    while i < txns.len()
        invariant
            i <= txns@.len(),
            ids@.len() == i,
            forall|k: int| 0 <= k < i ==> ids@[k]@ == txns@[k].header_signature@,
        decreases txns@.len() - i,
    {
        ids.push(txns[i].header_signature.clone());
        i += 1;
    }
    assert(texts(ids@) =~= transaction_ids(transaction_views(txns@)));
    Ok(BatchHeader { signer_public_key: String::from_str(public_key), transaction_ids: ids })
}

/// Returns the batch of `txns` that the holder of `public_key` signed:
/// `signed` is what signing the header of `create_batch_header` gave. A
/// batch without transactions is refused.
pub fn create_batch(txns: Vec<Transaction>, public_key: &str, signed: Signed) -> (result: Result<
    Batch,
    AppAuthHandlerError,
>)
    ensures
        txns@.len() > 0 ==> (result matches Ok(batch) && batch@.well_formed() && batch@
            == (BatchView {
            header: batch_header(transaction_views(txns@), public_key@),
            header_bytes: signed.bytes@,
            header_signature: signed.signature@,
            transactions: transaction_views(txns@),
        })),
        txns@.len() == 0 ==> (result matches Err(AppAuthHandlerError::AssemblyError(message))
            && message@ == EMPTY_BATCH@),
{
    let header = match create_batch_header(&txns, public_key) {
        Ok(header) => header,
        Err(error) => {
            return Err(error);
        },
    };
    Ok(
        Batch {
            header,
            header_bytes: signed.bytes,
            header_signature: signed.signature,
            transactions: txns,
        },
    )
}

/// Returns a batch list that holds the given batch and no other.
pub fn create_batch_list_from_one(batch: Batch) -> (batch_list: BatchList)
    ensures
        batch_list@ == seq![batch@],
{
    let mut batches: Vec<Batch> = Vec::new();
    batches.push(batch);
    assert(batch_views(batches@) =~= seq![batch@]);
    BatchList { batches }
}

/// In every batch that `create_batch` returns, the header lists the header
/// signatures of the transactions, one for each and in their order.
pub proof fn lemma_batch_header_lists_transactions(
    transactions: Seq<TransactionView>,
    public_key: Seq<char>,
)
    ensures
        batch_header(transactions, public_key).transaction_ids.len() == transactions.len(),
        forall|i: int|
            0 <= i < transactions.len() ==> #[trigger] batch_header(
                transactions,
                public_key,
            ).transaction_ids[i] == transactions[i].header_signature,
{
}

} // verus!
