//! What is handed to the ledger: a batch list and where it goes.

use crate::batch::{BatchList, BatchView};
use url::Url;
use vstd::prelude::*;
use vstd::string::*;

verus! {

/// The serialization of the URL that `url::Url::parse` reads in `text`, or
/// `None` where it refuses the text.
pub uninterp spec fn parsed_url(text: Seq<char>) -> Option<Seq<char>>;

/// Parses `text` with `url::Url::parse` and gives the URL back as text, in
/// the serialization that the parser settled on.
///
/// Trusted: the body is not verified. The contract only names the result;
/// the error that the parser gives for a text it refuses is dropped.
#[verifier::external_body]
pub(crate) fn parse_url(text: &str) -> (url: Option<String>)
    ensures
        url matches Some(serialization) ==> parsed_url(text@) == Some(serialization@),
        url is None ==> parsed_url(text@) is None,
{
    match Url::parse(text) {
        Ok(url) => Some(String::from(url)),
        Err(_) => None,
    }
}

/// A batch list on its way to the ledger.
#[derive(Debug, Clone, PartialEq, Eq)]
pub struct SubmitBatches {
    /// What is submitted.
    pub batch_list: BatchList,
    /// Where the ledger is reached, as a parsed and serialized URL.
    pub response_url: String,
    /// The service of the circuit that the submission is meant for.
    pub service_id: Option<String>,
}

/// A submission as a mathematical value.
pub struct SubmitBatchesView {
    pub batch_list: Seq<BatchView>,
    pub response_url: Seq<char>,
    pub service_id: Option<Seq<char>>,
}

impl View for SubmitBatches {
    type V = SubmitBatchesView;

    open spec fn view(&self) -> SubmitBatchesView {
        SubmitBatchesView {
            batch_list: self.batch_list@,
            response_url: self.response_url@,
            service_id: match self.service_id {
                Some(id) => Some(id@),
                None => None,
            },
        }
    }
}

/// The submission of `batch_list` to the ledger at `endpoint`, for the
/// service `service_id`; `None` where `endpoint` is no URL.
pub fn submit_batches(batch_list: BatchList, endpoint: &str, service_id: &str) -> (submission: Option<
    SubmitBatches,
>)
    ensures
        match parsed_url(endpoint@) {
            Some(url) => submission matches Some(batches) && batches@ == (SubmitBatchesView {
                batch_list: batch_list@,
                response_url: url,
                service_id: Some(service_id@),
            }),
            None => submission is None,
        },
{
    match parse_url(endpoint) {
        Some(response_url) => Some(
            SubmitBatches {
                batch_list,
                response_url,
                service_id: Some(String::from_str(service_id)),
            },
        ),
        None => None,
    }
}

} // verus!
