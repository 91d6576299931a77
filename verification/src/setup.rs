//! Provisioning of a circuit with the Pike and Product smart contracts.
//!
//! A run builds four transactions for each contract, in the order of the
//! contracts, puts them in one batch and submits the batch to the ledger for
//! one service of the circuit. The run is a conversation: `setup_grid`
//! starts it, and each call of `advance` takes the caller's reply to the
//! last request and gives the next request, until the request is `Done`.
//! The first failure ends the run, so that nothing incomplete is ever
//! submitted.

use crate::address::{NAMESPACE_TOO_SHORT, PREFIX_LENGTH};
use crate::batch::{
    batch_header, create_batch, create_batch_header, create_batch_list_from_one, BatchHeader,
    BatchHeaderView, BatchView, Signed, EMPTY_BATCH,
};
use crate::consistency::{consistent, lemma_started_consistent, lemma_step_consistent};
use crate::error::{AppAuthHandlerError, ErrorKind, ErrorView};
use crate::key::Keys;
use crate::nonce::{create_nonce, is_nonce};
use crate::submit::{parsed_url, submit_batches, SubmitBatches, SubmitBatchesView};
use crate::text::texts;
use crate::transaction::{
    contract_registry_request, create_txn, make_contract_registry_txn,
    make_namespace_permissions_txn, make_namespace_registry_txn, make_upload_contract_txn,
    namespace_permissions_request, namespace_registry_request, transaction_header,
    transaction_views, upload_contract_request, Action, ActionView, Transaction,
    TransactionHeader, TransactionHeaderView, TransactionRequest, TransactionRequestView,
    TransactionView, PIKE_CONTRACT_FILENAME, PIKE_FAMILY_NAME, PIKE_FAMILY_VERSION, PIKE_PREFIX,
    PRODUCT_CONTRACT_FILENAME, PRODUCT_FAMILY_NAME, PRODUCT_FAMILY_VERSION, PRODUCT_PREFIX,
};
use vstd::prelude::*;
use vstd::string::*;

verus! {

/// Directory that holds the contract files, with the separator that ends
/// it.
pub const CONTRACT_DIRECTORY: &'static str = "/usr/share/scar/";

/// Number of transactions that install one contract.
pub const TRANSACTIONS_PER_CONTRACT: usize = 4;

/// Start of the message for a contract file that could not be opened.
pub const CONTRACT_NOT_OPENED: &'static str = "Failed to load contract: ";

/// Start of the message for a contract file that could not be read.
pub const CONTRACT_NOT_READ: &'static str = "IoError while reading contract: ";

/// Start of the message for a transaction header that could not be encoded.
pub const TRANSACTION_HEADER_NOT_ENCODED: &'static str =
    "failed to serialize transaction header to bytes: ";

/// Start of the message for a batch header that could not be encoded.
pub const BATCH_HEADER_NOT_ENCODED: &'static str = "failed to serialize batch header to bytes: ";

/// Start of the message for a ledger address that is no URL.
pub const INVALID_ENDPOINT: &'static str = "Invalid ledger URL: ";

/// Message for a reply that does not answer the last request.
pub const UNEXPECTED_REPLY: &'static str = "The reply does not answer the request";

/// A smart contract to install.
#[derive(Debug, Clone, PartialEq, Eq)]
pub struct ContractSpec {
    /// Name of the contract.
    pub name: String,
    /// Version of the contract.
    pub version: String,
    /// The namespace of the contract: six hexadecimal digits.
    pub prefix: String,
    /// Name of the file that holds the contract, in `CONTRACT_DIRECTORY`.
    pub filename: String,
}

/// A contract to install, as a mathematical value.
pub struct ContractSpecView {
    pub name: Seq<char>,
    pub version: Seq<char>,
    pub prefix: Seq<char>,
    pub filename: Seq<char>,
}

impl View for ContractSpec {
    type V = ContractSpecView;

    open spec fn view(&self) -> ContractSpecView {
        ContractSpecView {
            name: self.name@,
            version: self.version@,
            prefix: self.prefix@,
            filename: self.filename@,
        }
    }
}

/// The Pike contract.
pub open spec fn pike_spec() -> ContractSpecView {
    ContractSpecView {
        name: PIKE_FAMILY_NAME@,
        version: PIKE_FAMILY_VERSION@,
        prefix: PIKE_PREFIX@,
        filename: PIKE_CONTRACT_FILENAME@,
    }
}

/// The Product contract.
pub open spec fn product_spec() -> ContractSpecView {
    ContractSpecView {
        name: PRODUCT_FAMILY_NAME@,
        version: PRODUCT_FAMILY_VERSION@,
        prefix: PRODUCT_PREFIX@,
        filename: PRODUCT_CONTRACT_FILENAME@,
    }
}

/// The contracts that a run installs: Pike, then Product.
pub open spec fn grid_specs() -> Seq<ContractSpecView> {
    seq![pike_spec(), product_spec()]
}

impl ContractSpec {
    /// The Pike contract.
    pub fn pike() -> (spec: ContractSpec)
        ensures
            spec@ == pike_spec(),
    {
        ContractSpec {
            name: String::from_str(PIKE_FAMILY_NAME),
            version: String::from_str(PIKE_FAMILY_VERSION),
            prefix: String::from_str(PIKE_PREFIX),
            filename: String::from_str(PIKE_CONTRACT_FILENAME),
        }
    }

    /// The Product contract.
    pub fn product() -> (spec: ContractSpec)
        ensures
            spec@ == product_spec(),
    {
        ContractSpec {
            name: String::from_str(PRODUCT_FAMILY_NAME),
            version: String::from_str(PRODUCT_FAMILY_VERSION),
            prefix: String::from_str(PRODUCT_PREFIX),
            filename: String::from_str(PRODUCT_CONTRACT_FILENAME),
        }
    }
}

/// The contracts of a list, each as a mathematical value.
pub open spec fn spec_views(list: Seq<ContractSpec>) -> Seq<ContractSpecView> {
    Seq::new(list.len(), |i: int| list[i]@)
}

/// The request for the transaction of the given kind among the four that
/// install `spec`: 0 creates the contract registry, 1 uploads `contract`,
/// 2 creates the namespace registry, and any other kind permits the
/// contract to read its namespace. Where the namespace is too short for an
/// address, the result is the message of the error.
pub open spec fn planned_request(
    spec: ContractSpecView,
    kind: int,
    public_key: Seq<char>,
    contract: Seq<u8>,
) -> Result<TransactionRequestView, Seq<char>> {
    if kind == 0 {
        Ok(contract_registry_request(public_key, spec.name))
    } else if kind == 1 {
        Ok(upload_contract_request(spec.name, spec.version, contract, spec.prefix))
    } else if spec.prefix.len() < PREFIX_LENGTH {
        Err(NAMESPACE_TOO_SHORT@ + spec.prefix)
    } else if kind == 2 {
        Ok(namespace_registry_request(public_key, spec.prefix))
    } else {
        Ok(namespace_permissions_request(spec.name, spec.prefix))
    }
}

/// Builds the request for one of the four transactions that install
/// `spec`: see `planned_request`.
pub fn plan_request(spec: &ContractSpec, kind: usize, public_key: &str, contract: Vec<u8>) -> (result:
    Result<TransactionRequest, AppAuthHandlerError>)
    ensures
        match result {
            Ok(request) => planned_request(spec@, kind as int, public_key@, contract@) == Ok::<
                TransactionRequestView,
                Seq<char>,
            >(request@),
            Err(error) => planned_request(spec@, kind as int, public_key@, contract@) == Err::<
                TransactionRequestView,
                Seq<char>,
            >(error@.message) && error@.kind == ErrorKind::Address,
        },
{
    if kind == 0 {
        Ok(make_contract_registry_txn(public_key, spec.name.as_str()))
    } else if kind == 1 {
        Ok(
            make_upload_contract_txn(
                spec.name.as_str(),
                spec.version.as_str(),
                contract,
                spec.prefix.as_str(),
            ),
        )
    } else if kind == 2 {
        make_namespace_registry_txn(public_key, spec.prefix.as_str())
    } else {
        make_namespace_permissions_txn(spec.name.as_str(), spec.prefix.as_str())
    }
}

/// What the caller is asked to do next.
#[derive(Debug, PartialEq, Eq)]
pub enum Request {
    /// Make a signer from the private key and report its public key.
    CreateSigner { private_key: String },
    /// Read the contract file at `path`.
    ReadContract { path: String },
    /// Encode `action` as a Sabre payload.
    EncodePayload { action: Action },
    /// Encode the transaction header, and sign the encoding.
    SignTransaction { header: TransactionHeader },
    /// Encode the batch header, and sign the encoding.
    SignBatch { batch_header: BatchHeader },
    /// Submit the batch list.
    Submit { batches: SubmitBatches },
    /// Nothing: the run is over, with this result.
    Done { result: Result<(), AppAuthHandlerError> },
}

/// A request as a mathematical value.
pub enum RequestView {
    CreateSigner { private_key: Seq<char> },
    ReadContract { path: Seq<char> },
    EncodePayload { action: ActionView },
    SignTransaction { header: TransactionHeaderView },
    SignBatch { batch_header: BatchHeaderView },
    Submit { batches: SubmitBatchesView },
    Done { result: Result<(), ErrorView> },
}

impl View for Request {
    type V = RequestView;

    open spec fn view(&self) -> RequestView {
        match self {
            Request::CreateSigner { private_key } => RequestView::CreateSigner {
                private_key: private_key@,
            },
            Request::ReadContract { path } => RequestView::ReadContract { path: path@ },
            Request::EncodePayload { action } => RequestView::EncodePayload { action: action@ },
            Request::SignTransaction { header } => RequestView::SignTransaction {
                header: header@,
            },
            Request::SignBatch { batch_header } => RequestView::SignBatch {
                batch_header: batch_header@,
            },
            Request::Submit { batches } => RequestView::Submit { batches: batches@ },
            Request::Done { result } => RequestView::Done {
                result: match result {
                    Ok(_) => Ok(()),
                    Err(error) => Err(error@),
                },
            },
        }
    }
}

/// How the caller fared with the last request.
#[derive(Debug, Clone, PartialEq, Eq)]
pub enum Reply {
    /// The signer was made; this is its public key, as hexadecimal text.
    SignerCreated { public_key: String },
    /// The private key is malformed, or has no public key.
    SignerFailed { reason: String },
    /// The contract file holds these bytes.
    ContractRead { contract: Vec<u8> },
    /// The contract file could not be opened.
    ContractNotOpened { reason: String },
    /// The contract file was opened, but reading it failed.
    ContractNotRead { reason: String },
    /// The action was encoded as these bytes.
    PayloadEncoded { payload: Vec<u8> },
    /// The action could not be encoded.
    PayloadFailed { reason: String },
    /// The header was encoded and signed.
    HeaderSigned { signed: Signed },
    /// The header could not be encoded.
    HeaderNotEncoded { reason: String },
    /// The header was encoded, but signing failed.
    HeaderNotSigned { reason: String },
    /// The ledger accepted the batch list.
    Submitted,
    /// The ledger refused the batch list, or was not reached.
    SubmissionFailed { reason: String },
}

/// A reply as a mathematical value.
pub enum ReplyView {
    SignerCreated { public_key: Seq<char> },
    SignerFailed { reason: Seq<char> },
    ContractRead { contract: Seq<u8> },
    ContractNotOpened { reason: Seq<char> },
    ContractNotRead { reason: Seq<char> },
    PayloadEncoded { payload: Seq<u8> },
    PayloadFailed { reason: Seq<char> },
    HeaderSigned { bytes: Seq<u8>, signature: Seq<char> },
    HeaderNotEncoded { reason: Seq<char> },
    HeaderNotSigned { reason: Seq<char> },
    Submitted,
    SubmissionFailed { reason: Seq<char> },
}

impl View for Reply {
    type V = ReplyView;

    open spec fn view(&self) -> ReplyView {
        match self {
            Reply::SignerCreated { public_key } => ReplyView::SignerCreated {
                public_key: public_key@,
            },
            Reply::SignerFailed { reason } => ReplyView::SignerFailed { reason: reason@ },
            Reply::ContractRead { contract } => ReplyView::ContractRead { contract: contract@ },
            Reply::ContractNotOpened { reason } => ReplyView::ContractNotOpened {
                reason: reason@,
            },
            Reply::ContractNotRead { reason } => ReplyView::ContractNotRead { reason: reason@ },
            Reply::PayloadEncoded { payload } => ReplyView::PayloadEncoded { payload: payload@ },
            Reply::PayloadFailed { reason } => ReplyView::PayloadFailed { reason: reason@ },
            Reply::HeaderSigned { signed } => ReplyView::HeaderSigned {
                bytes: signed.bytes@,
                signature: signed.signature@,
            },
            Reply::HeaderNotEncoded { reason } => ReplyView::HeaderNotEncoded { reason: reason@ },
            Reply::HeaderNotSigned { reason } => ReplyView::HeaderNotSigned { reason: reason@ },
            Reply::Submitted => ReplyView::Submitted,
            Reply::SubmissionFailed { reason } => ReplyView::SubmissionFailed { reason: reason@ },
        }
    }
}

/// Which reply a run waits for.
#[derive(Debug, Clone, PartialEq, Eq)]
pub enum Stage {
    /// For the signer's public key.
    Signer,
    /// For the contract file of the transaction that is being built.
    Contract,
    /// For the payload of the transaction that is being built, which will
    /// touch `addresses`.
    Payload { addresses: Vec<String> },
    /// For the signature of the transaction that is being built.
    TransactionSignature { header: TransactionHeader, payload: Vec<u8> },
    /// For the signature of the batch.
    BatchSignature,
    /// For the ledger's answer.
    Submission,
    /// For nothing: the run is over.
    Finished,
}

/// A stage as a mathematical value.
pub enum StageView {
    Signer,
    Contract,
    Payload { addresses: Seq<Seq<char>> },
    TransactionSignature { header: TransactionHeaderView, payload: Seq<u8> },
    BatchSignature,
    Submission,
    Finished,
}

impl View for Stage {
    type V = StageView;

    open spec fn view(&self) -> StageView {
        match self {
            Stage::Signer => StageView::Signer,
            Stage::Contract => StageView::Contract,
            Stage::Payload { addresses } => StageView::Payload { addresses: texts(addresses@) },
            Stage::TransactionSignature { header, payload } => StageView::TransactionSignature {
                header: header@,
                payload: payload@,
            },
            Stage::BatchSignature => StageView::BatchSignature,
            Stage::Submission => StageView::Submission,
            Stage::Finished => StageView::Finished,
        }
    }
}

/// A provisioning run.
#[derive(Debug, Clone, PartialEq, Eq)]
pub struct GridSetup {
    /// The contracts to install, in this order.
    pub specs: Vec<ContractSpec>,
    /// Where the ledger is reached.
    pub splinterd_url: String,
    /// The service of the circuit that is provisioned.
    pub service_id: String,
    /// The signer's public key; empty until the signer is made.
    pub public_key: String,
    /// The transactions signed so far.
    pub transactions: Vec<Transaction>,
    /// What the run waits for.
    pub stage: Stage,
}

/// A provisioning run as a mathematical value.
pub struct GridSetupView {
    pub specs: Seq<ContractSpecView>,
    pub splinterd_url: Seq<char>,
    pub service_id: Seq<char>,
    pub public_key: Seq<char>,
    pub transactions: Seq<TransactionView>,
    pub stage: StageView,
}

impl View for GridSetup {
    type V = GridSetupView;

    open spec fn view(&self) -> GridSetupView {
        GridSetupView {
            specs: spec_views(self.specs@),
            splinterd_url: self.splinterd_url@,
            service_id: self.service_id@,
            public_key: self.public_key@,
            transactions: transaction_views(self.transactions@),
            stage: self.stage@,
        }
    }
}

/// The run `state` at another stage.
pub open spec fn at_stage(state: GridSetupView, stage: StageView) -> GridSetupView {
    GridSetupView { stage, ..state }
}

/// The end of a run with an error.
pub open spec fn failed(state: GridSetupView, kind: ErrorKind, message: Seq<char>) -> (
    GridSetupView,
    RequestView,
) {
    (
        at_stage(state, StageView::Finished),
        RequestView::Done { result: Err(ErrorView { kind, message }) },
    )
}

/// The contract that the next transaction of `state` helps to install.
pub open spec fn current_spec(state: GridSetupView) -> ContractSpecView {
    state.specs[state.transactions.len() as int / TRANSACTIONS_PER_CONTRACT as int]
}

/// Which of the four transactions of its contract the next transaction of
/// `state` is.
pub open spec fn current_kind(state: GridSetupView) -> int {
    state.transactions.len() as int % TRANSACTIONS_PER_CONTRACT as int
}

/// What a run does once the next transaction's contract file, if it needs
/// one, is known: it asks for the payload of the planned action.
pub open spec fn payload_wanted(state: GridSetupView, contract: Seq<u8>) -> (
    GridSetupView,
    RequestView,
) {
    match planned_request(current_spec(state), current_kind(state), state.public_key, contract) {
        Ok(request) => (
            at_stage(state, StageView::Payload { addresses: request.addresses }),
            RequestView::EncodePayload { action: request.action },
        ),
        Err(message) => failed(state, ErrorKind::Address, message),
    }
}

/// What a run does when it turns to its next transaction. Where every
/// contract has its four transactions, it asks for the signature of the
/// batch. Otherwise it asks for the contract file, if the next transaction
/// uploads one, and else for the payload.
pub open spec fn transaction_wanted(state: GridSetupView) -> (GridSetupView, RequestView) {
    if state.transactions.len() >= TRANSACTIONS_PER_CONTRACT * state.specs.len() {
        if state.transactions.len() == 0 {
            failed(state, ErrorKind::Assembly, EMPTY_BATCH@)
        } else {
            (
                at_stage(state, StageView::BatchSignature),
                RequestView::SignBatch {
                    batch_header: batch_header(state.transactions, state.public_key),
                },
            )
        }
    } else if current_kind(state) == 1 {
        (
            at_stage(state, StageView::Contract),
            RequestView::ReadContract { path: CONTRACT_DIRECTORY@ + current_spec(state).filename },
        )
    } else {
        payload_wanted(state, Seq::empty())
    }
}

/// What a run does with a signed batch header: it hands its transactions
/// over in one batch, to be submitted for its service.
pub open spec fn submission_wanted(state: GridSetupView, bytes: Seq<u8>, signature: Seq<char>) -> (
    GridSetupView,
    RequestView,
) {
    let emptied = GridSetupView { transactions: Seq::empty(), ..state };
    if state.transactions.len() == 0 {
        failed(emptied, ErrorKind::Assembly, EMPTY_BATCH@)
    } else {
        match parsed_url(state.splinterd_url) {
            Some(url) => (
                at_stage(emptied, StageView::Submission),
                RequestView::Submit {
                    batches: SubmitBatchesView {
                        batch_list: seq![
                            BatchView {
                                header: batch_header(state.transactions, state.public_key),
                                header_bytes: bytes,
                                header_signature: signature,
                                transactions: state.transactions,
                            },
                        ],
                        response_url: url,
                        service_id: Some(state.service_id),
                    },
                },
            ),
            None => failed(emptied, ErrorKind::Submission, INVALID_ENDPOINT@ + state.splinterd_url),
        }
    }
}

/// The step of a run: the run after `reply` and the request that follows.
/// `nonce` goes into the header of the next transaction, where the reply is
/// its payload.
pub open spec fn step(state: GridSetupView, reply: ReplyView, nonce: Seq<char>) -> (
    GridSetupView,
    RequestView,
) {
    match (state.stage, reply) {
        (StageView::Signer, ReplyView::SignerCreated { public_key }) => transaction_wanted(
            GridSetupView { public_key, ..state },
        ),
        (StageView::Signer, ReplyView::SignerFailed { reason }) => failed(
            state,
            ErrorKind::Signing,
            reason,
        ),
        (StageView::Contract, ReplyView::ContractRead { contract }) => {
            if state.transactions.len() < TRANSACTIONS_PER_CONTRACT * state.specs.len() {
                payload_wanted(state, contract)
            } else {
                failed(state, ErrorKind::Assembly, UNEXPECTED_REPLY@)
            }
        },
        (StageView::Contract, ReplyView::ContractNotOpened { reason }) => failed(
            state,
            ErrorKind::ContractLoad,
            CONTRACT_NOT_OPENED@ + reason,
        ),
        (StageView::Contract, ReplyView::ContractNotRead { reason }) => failed(
            state,
            ErrorKind::ContractLoad,
            CONTRACT_NOT_READ@ + reason,
        ),
        (StageView::Payload { addresses }, ReplyView::PayloadEncoded { payload }) => {
            let header = transaction_header(state.public_key, addresses, payload, nonce);
            (
                at_stage(state, StageView::TransactionSignature { header, payload }),
                RequestView::SignTransaction { header },
            )
        },
        (StageView::Payload { addresses }, ReplyView::PayloadFailed { reason }) => failed(
            state,
            ErrorKind::Sabre,
            reason,
        ),
        (
            StageView::TransactionSignature { header, payload },
            ReplyView::HeaderSigned { bytes, signature },
        ) => transaction_wanted(
            GridSetupView {
                transactions: state.transactions.push(
                    TransactionView {
                        header,
                        header_bytes: bytes,
                        header_signature: signature,
                        payload,
                    },
                ),
                ..state
            },
        ),
        (
            StageView::TransactionSignature { header, payload },
            ReplyView::HeaderNotEncoded { reason },
        ) => failed(state, ErrorKind::Signing, TRANSACTION_HEADER_NOT_ENCODED@ + reason),
        (
            StageView::TransactionSignature { header, payload },
            ReplyView::HeaderNotSigned { reason },
        ) => failed(state, ErrorKind::Signing, reason),
        (StageView::BatchSignature, ReplyView::HeaderSigned { bytes, signature }) => {
            submission_wanted(state, bytes, signature)
        },
        (StageView::BatchSignature, ReplyView::HeaderNotEncoded { reason }) => failed(
            state,
            ErrorKind::Assembly,
            BATCH_HEADER_NOT_ENCODED@ + reason,
        ),
        (StageView::BatchSignature, ReplyView::HeaderNotSigned { reason }) => failed(
            state,
            ErrorKind::Assembly,
            reason,
        ),
        (StageView::Submission, ReplyView::Submitted) => (
            at_stage(state, StageView::Finished),
            RequestView::Done { result: Ok(()) },
        ),
        (StageView::Submission, ReplyView::SubmissionFailed { reason }) => failed(
            state,
            ErrorKind::Submission,
            reason,
        ),
        _ => failed(state, ErrorKind::Assembly, UNEXPECTED_REPLY@),
    }
}

/// The run that `setup_grid` starts, with the contracts `specs`.
pub open spec fn started(
    specs: Seq<ContractSpecView>,
    splinterd_url: Seq<char>,
    service_id: Seq<char>,
) -> GridSetupView {
    GridSetupView {
        specs,
        splinterd_url,
        service_id,
        public_key: Seq::empty(),
        transactions: Seq::empty(),
        stage: StageView::Signer,
    }
}

impl GridSetup {
    /// The run at another stage.
    fn at(self, stage: Stage) -> (moved: GridSetup)
        ensures
            moved@ == at_stage(self@, stage@),
    {
        let mut moved = self;
        moved.stage = stage;
        moved
    }

    /// Ends the run with `error`.
    fn fail(self, error: AppAuthHandlerError) -> (next: (GridSetup, Request))
        ensures
            (next.0@, next.1@) == failed(self@, error@.kind, error@.message),
    {
        (self.at(Stage::Finished), Request::Done { result: Err(error) })
    }

    /// Ends the run because `reply` does not answer its last request.
    fn refuse(self) -> (next: (GridSetup, Request))
        ensures
            (next.0@, next.1@) == failed(self@, ErrorKind::Assembly, UNEXPECTED_REPLY@),
    {
        self.fail(AppAuthHandlerError::AssemblyError(String::from_str(UNEXPECTED_REPLY)))
    }

    /// Asks for the payload of the next transaction, whose contract file,
    /// if it needs one, holds `contract`.
    fn want_payload(self, contract: Vec<u8>) -> (next: (GridSetup, Request))
        requires
            self.transactions@.len() < TRANSACTIONS_PER_CONTRACT * self.specs@.len(),
        ensures
            (next.0@, next.1@) == payload_wanted(self@, contract@),
    {
        let slot = self.transactions.len();
        let planned = plan_request(
            &self.specs[slot / TRANSACTIONS_PER_CONTRACT],
            slot % TRANSACTIONS_PER_CONTRACT,
            self.public_key.as_str(),
            contract,
        );
        match planned {
            Ok(request) => (
                self.at(Stage::Payload { addresses: request.addresses }),
                Request::EncodePayload { action: request.action },
            ),
            Err(error) => self.fail(error),
        }
    }

    /// Turns to the next transaction, or to the batch where all are signed.
    fn want_transaction(self) -> (next: (GridSetup, Request))
        ensures
            (next.0@, next.1@) == transaction_wanted(self@),
    {
        let slot = self.transactions.len();
        if slot / TRANSACTIONS_PER_CONTRACT >= self.specs.len() {
            match create_batch_header(&self.transactions, self.public_key.as_str()) {
                Ok(batch_header) => (
                    self.at(Stage::BatchSignature),
                    Request::SignBatch { batch_header },
                ),
                Err(error) => self.fail(error),
            }
        } else if slot % TRANSACTIONS_PER_CONTRACT == 1 {
            let path = String::from_str(CONTRACT_DIRECTORY).concat(
                self.specs[slot / TRANSACTIONS_PER_CONTRACT].filename.as_str(),
            );
            (self.at(Stage::Contract), Request::ReadContract { path })
        } else {
            self.want_payload(Vec::new())
        }
    }

    /// Hands the signed transactions over in one batch, to be submitted.
    fn want_submission(self, signed: Signed) -> (next: (GridSetup, Request))
        ensures
            (next.0@, next.1@) == submission_wanted(self@, signed.bytes@, signed.signature@),
    {
        let mut emptied = self;
        let mut transactions: Vec<Transaction> = Vec::new();
        core::mem::swap(&mut emptied.transactions, &mut transactions);
        assert(transaction_views(emptied.transactions@) =~= Seq::empty());
        let batch = match create_batch(transactions, emptied.public_key.as_str(), signed) {
            Ok(batch) => batch,
            Err(error) => {
                return emptied.fail(error);
            },
        };
        let submission = submit_batches(
            create_batch_list_from_one(batch),
            emptied.splinterd_url.as_str(),
            emptied.service_id.as_str(),
        );
        match submission {
            Some(batches) => (emptied.at(Stage::Submission), Request::Submit { batches }),
            None => {
                let message = String::from_str(INVALID_ENDPOINT).concat(
                    emptied.splinterd_url.as_str(),
                );
                emptied.fail(AppAuthHandlerError::SubmissionError(message))
            },
        }
    }

    /// Adds a signed transaction and turns to the next.
    fn add_transaction(self, header: TransactionHeader, payload: Vec<u8>, signed: Signed) -> (next: (
        GridSetup,
        Request,
    ))
        ensures
            (next.0@, next.1@) == transaction_wanted(
                GridSetupView {
                    transactions: self@.transactions.push(
                        TransactionView {
                            header: header@,
                            header_bytes: signed.bytes@,
                            header_signature: signed.signature@,
                            payload: payload@,
                        },
                    ),
                    ..self@
                },
            ),
    {
        let mut grown = self;
        let transaction = Transaction {
            header,
            header_bytes: signed.bytes,
            header_signature: signed.signature,
            payload,
        };
        grown.transactions.push(transaction);
        assert(transaction_views(grown.transactions@) =~= self@.transactions.push(transaction@));
        grown.want_transaction()
    }

    /// Takes the reply to the last request and gives the next request, as
    /// `step` says. `nonce` goes into the header of the next transaction,
    /// where the reply is its payload. A consistent run stays consistent.
    pub fn advance_with_nonce(self, reply: Reply, nonce: String) -> (next: (GridSetup, Request))
        ensures
            (next.0@, next.1@) == step(self@, reply@, nonce@),
            consistent(self@) ==> consistent(next.0@),
    {
        proof {
            if consistent(self@) {
                lemma_step_consistent(self@, reply@, nonce@);
            }
        }
        let mut run = self;
        let mut stage = Stage::Finished;
        core::mem::swap(&mut run.stage, &mut stage);
        match (stage, reply) {
            (Stage::Signer, Reply::SignerCreated { public_key }) => {
                run.public_key = public_key;
                run.want_transaction()
            },
            (Stage::Signer, Reply::SignerFailed { reason }) => run.fail(
                AppAuthHandlerError::SigningError(reason),
            ),
            (Stage::Contract, Reply::ContractRead { contract }) => {
                if run.transactions.len() / TRANSACTIONS_PER_CONTRACT < run.specs.len() {
                    run.want_payload(contract)
                } else {
                    run.refuse()
                }
            },
            (Stage::Contract, Reply::ContractNotOpened { reason }) => {
                let message = String::from_str(CONTRACT_NOT_OPENED).concat(reason.as_str());
                run.fail(AppAuthHandlerError::ContractLoadError(message))
            },
            (Stage::Contract, Reply::ContractNotRead { reason }) => {
                let message = String::from_str(CONTRACT_NOT_READ).concat(reason.as_str());
                run.fail(AppAuthHandlerError::ContractLoadError(message))
            },
            (Stage::Payload { addresses }, Reply::PayloadEncoded { payload }) => {
                let header = create_txn(run.public_key.as_str(), addresses, &payload, nonce);
                let request = Request::SignTransaction { header: header.duplicate() };
                (run.at(Stage::TransactionSignature { header, payload }), request)
            },
            (Stage::Payload { addresses }, Reply::PayloadFailed { reason }) => run.fail(
                AppAuthHandlerError::SabreError(reason),
            ),
            (Stage::TransactionSignature { header, payload }, Reply::HeaderSigned { signed }) => {
                run.add_transaction(header, payload, signed)
            },
            (
                Stage::TransactionSignature { header, payload },
                Reply::HeaderNotEncoded { reason },
            ) => {
                let message = String::from_str(TRANSACTION_HEADER_NOT_ENCODED).concat(
                    reason.as_str(),
                );
                run.fail(AppAuthHandlerError::SigningError(message))
            },
            (
                Stage::TransactionSignature { header, payload },
                Reply::HeaderNotSigned { reason },
            ) => run.fail(AppAuthHandlerError::SigningError(reason)),
            (Stage::BatchSignature, Reply::HeaderSigned { signed }) => run.want_submission(signed),
            (Stage::BatchSignature, Reply::HeaderNotEncoded { reason }) => {
                let message = String::from_str(BATCH_HEADER_NOT_ENCODED).concat(reason.as_str());
                run.fail(AppAuthHandlerError::AssemblyError(message))
            },
            (Stage::BatchSignature, Reply::HeaderNotSigned { reason }) => run.fail(
                AppAuthHandlerError::AssemblyError(reason),
            ),
            (Stage::Submission, Reply::Submitted) => (run, Request::Done { result: Ok(()) }),
            (Stage::Submission, Reply::SubmissionFailed { reason }) => run.fail(
                AppAuthHandlerError::SubmissionError(reason),
            ),
            _ => run.refuse(),
        }
    }

    /// Takes the reply to the last request and gives the next request, as
    /// `step` says, with a nonce from the clock. A consistent run stays
    /// consistent.
    pub fn advance(self, reply: Reply) -> (next: (GridSetup, Request))
        ensures
            exists|nonce: Seq<char>|
                is_nonce(nonce) && (next.0@, next.1@) == #[trigger] step(self@, reply@, nonce),
            consistent(self@) ==> consistent(next.0@),
    {
        let nonce = create_nonce();
        let ghost used = nonce@;
        let next = self.advance_with_nonce(reply, nonce);
        assert((next.0@, next.1@) == step(self@, reply@, used));
        next
    }
}

/// Starts the provisioning of the service `service_id` with the contracts
/// `specs`, through the ledger at `splinterd_url`, signed with the private
/// half of `scabbard_admin_keys`. The first request is for the signer.
pub fn setup_with(
    specs: Vec<ContractSpec>,
    scabbard_admin_keys: &Keys,
    splinterd_url: &str,
    service_id: &str,
) -> (next: (GridSetup, Request))
    ensures
        next.0@ == started(spec_views(specs@), splinterd_url@, service_id@),
        next.1@ == (RequestView::CreateSigner {
            private_key: scabbard_admin_keys.private_key@,
        }),
        consistent(next.0@),
{
    proof {
        lemma_started_consistent(spec_views(specs@), splinterd_url@, service_id@);
    }
    let run = GridSetup {
        specs,
        splinterd_url: String::from_str(splinterd_url),
        service_id: String::from_str(service_id),
        public_key: String::new(),
        transactions: Vec::new(),
        stage: Stage::Signer,
    };
    assert(transaction_views(run.transactions@) =~= Seq::empty());
    (run, Request::CreateSigner { private_key: scabbard_admin_keys.private_key.clone() })
}

/// Starts the provisioning of the service `service_id` with Pike and
/// Product, through the ledger at `splinterd_url`, signed with the private
/// half of `scabbard_admin_keys`. The first request is for the signer.
pub fn setup_grid(scabbard_admin_keys: &Keys, splinterd_url: &str, service_id: &str) -> (next: (
    GridSetup,
    Request,
))
    ensures
        next.0@ == started(grid_specs(), splinterd_url@, service_id@),
        next.1@ == (RequestView::CreateSigner {
            private_key: scabbard_admin_keys.private_key@,
        }),
        consistent(next.0@),
{
    let mut specs: Vec<ContractSpec> = Vec::new();
    specs.push(ContractSpec::pike());
    specs.push(ContractSpec::product());
    assert(spec_views(specs@) =~= grid_specs());
    setup_with(specs, scabbard_admin_keys, splinterd_url, service_id)
}

} // verus!
