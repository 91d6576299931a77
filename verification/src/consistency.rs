//! What holds of every provisioning run.
//!
//! A run is consistent when the transactions it has signed are the planned
//! ones, in the planned order, and its stage fits their number. Every run
//! starts consistent and stays so, whatever the replies are. It follows that
//! what is submitted is one batch of four transactions for each contract,
//! and that a run submits at most once.

use crate::setup::{
    at_stage, current_kind, current_spec, grid_specs, payload_wanted, planned_request, started,
    step, transaction_wanted, ContractSpecView, GridSetupView, ReplyView, RequestView, StageView,
    TRANSACTIONS_PER_CONTRACT,
};
use crate::submit::parsed_url;
use crate::text::lemma_distinct;
use crate::address::{contract_address, contract_registry_address, namespace_registry_address};
use crate::transaction::{
    contract_namespaces, contract_registry_request, namespace_permissions_request,
    namespace_registry_request, transaction_header, upload_contract_request,
    TransactionRequestView, TransactionView, ADMINISTRATORS_SETTING_ADDRESS, PIKE_FAMILY_NAME,
    PIKE_FAMILY_VERSION, PIKE_PREFIX, PRODUCT_FAMILY_NAME, PRODUCT_FAMILY_VERSION,
    PRODUCT_PREFIX,
};
use vstd::prelude::*;

verus! {

/// The request planned for position `slot` of a run that installs `specs`:
/// the four transactions of the first contract come first, then those of
/// the second, and so on. `contract` stands for the bytes of the contract
/// file, which only an upload carries.
pub open spec fn planned(
    specs: Seq<ContractSpecView>,
    slot: int,
    public_key: Seq<char>,
    contract: Seq<u8>,
) -> Result<TransactionRequestView, Seq<char>> {
    planned_request(
        specs[slot / TRANSACTIONS_PER_CONTRACT as int],
        slot % TRANSACTIONS_PER_CONTRACT as int,
        public_key,
        contract,
    )
}

/// The state addresses of the transaction at position `slot` of a run that
/// installs `specs`: those of the request planned for it. A namespace that
/// is too short for an address leaves the list empty.
pub open spec fn planned_addresses(specs: Seq<ContractSpecView>, slot: int, public_key: Seq<char>)
    -> Seq<Seq<char>> {
    match planned(specs, slot, public_key, Seq::empty()) {
        Ok(request) => request.addresses,
        Err(_) => Seq::empty(),
    }
}

/// Whether `transaction` is one for position `slot` of the run `state`: its
/// header is the one that the run's signer gives to its payload, over the
/// addresses planned for that position.
pub open spec fn fits(state: GridSetupView, slot: int, transaction: TransactionView) -> bool {
    transaction.header == transaction_header(
        state.public_key,
        planned_addresses(state.specs, slot, state.public_key),
        transaction.payload,
        transaction.header.nonce,
    )
}

/// Whether the run `state` is consistent.
pub open spec fn consistent(state: GridSetupView) -> bool {
    let built = state.transactions.len();
    let planned = TRANSACTIONS_PER_CONTRACT * state.specs.len();
    &&& built <= planned
    &&& forall|i: int| 0 <= i < built ==> fits(state, i, #[trigger] state.transactions[i])
    &&& match state.stage {
        StageView::Signer => built == 0,
        StageView::Contract => built < planned && current_kind(state) == 1,
        StageView::Payload { addresses } => built < planned && addresses == planned_addresses(
            state.specs,
            built as int,
            state.public_key,
        ),
        StageView::TransactionSignature { header, payload } => built < planned && fits(
            state,
            built as int,
            TransactionView {
                header,
                header_bytes: Seq::empty(),
                header_signature: Seq::empty(),
                payload,
            },
        ),
        StageView::BatchSignature => built == planned && built > 0,
        StageView::Submission => true,
        StageView::Finished => true,
    }
}

/// The addresses of a planned request do not depend on the contract's
/// bytes.
pub proof fn lemma_planned_addresses(
    spec: ContractSpecView,
    kind: int,
    public_key: Seq<char>,
    contract: Seq<u8>,
)
    ensures
        match planned_request(spec, kind, public_key, contract) {
            Ok(request) => planned_request(spec, kind, public_key, Seq::empty()) matches Ok(plain)
                && plain.addresses == request.addresses,
            Err(message) => planned_request(spec, kind, public_key, Seq::empty()) == Err::<
                TransactionRequestView,
                Seq<char>,
            >(message),
        },
{
}

/// No address occurs twice in a planned request.
pub proof fn lemma_planned_addresses_distinct(
    spec: ContractSpecView,
    kind: int,
    public_key: Seq<char>,
    contract: Seq<u8>,
)
    ensures
        planned_request(spec, kind, public_key, contract) matches Ok(request)
            ==> request.addresses.no_duplicates(),
{
    match planned_request(spec, kind, public_key, contract) {
        Ok(request) => {
            if kind == 0 {
                lemma_distinct(
                    seq![contract_registry_address(spec.name), ADMINISTRATORS_SETTING_ADDRESS@],
                );
            } else if kind == 1 {
                lemma_distinct(
                    contract_namespaces(spec.prefix) + seq![
                        contract_registry_address(spec.name),
                        contract_address(spec.name, spec.version),
                    ],
                );
            } else if kind == 2 {
                lemma_distinct(
                    seq![namespace_registry_address(spec.prefix), ADMINISTRATORS_SETTING_ADDRESS@],
                );
            } else {
                lemma_distinct(
                    seq![
                        namespace_registry_address(PIKE_PREFIX@),
                        namespace_registry_address(spec.prefix),
                        ADMINISTRATORS_SETTING_ADDRESS@,
                    ],
                );
            }
        },
        Err(_) => {},
    }
}

/// A run ends well only when the ledger has accepted its submission.
pub proof fn lemma_success_means_accepted(
    state: GridSetupView,
    reply: ReplyView,
    nonce: Seq<char>,
)
    requires
        step(state, reply, nonce).1 == (RequestView::Done { result: Ok(()) }),
    ensures
        state.stage is Submission,
        reply is Submitted,
{
}

/// A transaction that fits a position of a run is well formed.
pub proof fn lemma_fitting_is_well_formed(
    state: GridSetupView,
    slot: int,
    transaction: TransactionView,
)
    requires
        fits(state, slot, transaction),
    ensures
        transaction.well_formed(),
{
    lemma_planned_addresses_distinct(
        state.specs[slot / TRANSACTIONS_PER_CONTRACT as int],
        slot % TRANSACTIONS_PER_CONTRACT as int,
        state.public_key,
        Seq::empty(),
    );
}

/// A run is consistent when it starts.
pub proof fn lemma_started_consistent(
    specs: Seq<ContractSpecView>,
    splinterd_url: Seq<char>,
    service_id: Seq<char>,
)
    ensures
        consistent(started(specs, splinterd_url, service_id)),
{
}

/// Asking for a payload keeps a run consistent.
proof fn lemma_payload_wanted_consistent(state: GridSetupView, contract: Seq<u8>)
    requires
        consistent(at_stage(state, StageView::Finished)),
        state.transactions.len() < TRANSACTIONS_PER_CONTRACT * state.specs.len(),
    ensures
        consistent(payload_wanted(state, contract).0),
{
    lemma_planned_addresses(current_spec(state), current_kind(state), state.public_key, contract);
    let next = payload_wanted(state, contract).0;
    assert forall|i: int| 0 <= i < next.transactions.len() implies fits(
        next,
        i,
        #[trigger] next.transactions[i],
    ) by {
        assert(fits(at_stage(state, StageView::Finished), i, state.transactions[i]));
    }
}

/// Turning to the next transaction keeps a run consistent.
proof fn lemma_transaction_wanted_consistent(state: GridSetupView)
    requires
        consistent(at_stage(state, StageView::Finished)),
    ensures
        consistent(transaction_wanted(state).0),
{
    let next = transaction_wanted(state).0;
    if state.transactions.len() < TRANSACTIONS_PER_CONTRACT * state.specs.len() && current_kind(
        state,
    ) != 1 {
        lemma_payload_wanted_consistent(state, Seq::empty());
    } else {
        assert forall|i: int| 0 <= i < next.transactions.len() implies fits(
            next,
            i,
            #[trigger] next.transactions[i],
        ) by {
            assert(fits(at_stage(state, StageView::Finished), i, state.transactions[i]));
        }
    }
}

/// A consistent run stays consistent, whatever the reply and the nonce.
pub proof fn lemma_step_consistent(state: GridSetupView, reply: ReplyView, nonce: Seq<char>)
    requires
        consistent(state),
    ensures
        consistent(step(state, reply, nonce).0),
{
    let next = step(state, reply, nonce).0;
    let ended = at_stage(state, StageView::Finished);
    assert(consistent(ended)) by {
        assert forall|i: int| 0 <= i < ended.transactions.len() implies fits(
            ended,
            i,
            #[trigger] ended.transactions[i],
        ) by {
            assert(fits(state, i, state.transactions[i]));
        }
    }
    match (state.stage, reply) {
        (StageView::Signer, ReplyView::SignerCreated { public_key }) => {
            lemma_transaction_wanted_consistent(GridSetupView { public_key, ..state });
        },
        (StageView::Contract, ReplyView::ContractRead { contract }) => {
            lemma_payload_wanted_consistent(state, contract);
        },
        (StageView::Payload { addresses }, ReplyView::PayloadEncoded { payload }) => {
            assert forall|i: int| 0 <= i < next.transactions.len() implies fits(
                next,
                i,
                #[trigger] next.transactions[i],
            ) by {
                assert(fits(state, i, state.transactions[i]));
            }
        },
        (
            StageView::TransactionSignature { header, payload },
            ReplyView::HeaderSigned { bytes, signature },
        ) => {
            let signed = TransactionView {
                header,
                header_bytes: bytes,
                header_signature: signature,
                payload,
            };
            let grown = GridSetupView { transactions: state.transactions.push(signed), ..state };
            assert forall|i: int| 0 <= i < grown.transactions.len() implies fits(
                at_stage(grown, StageView::Finished),
                i,
                #[trigger] grown.transactions[i],
            ) by {
                if i < state.transactions.len() {
                    assert(fits(state, i, state.transactions[i]));
                }
            }
            lemma_transaction_wanted_consistent(grown);
        },
        (StageView::BatchSignature, ReplyView::HeaderSigned { bytes, signature }) => {},
        _ => {
            assert forall|i: int| 0 <= i < next.transactions.len() implies fits(
                next,
                i,
                #[trigger] next.transactions[i],
            ) by {
                assert(fits(state, i, state.transactions[i]));
            }
        },
    }
}

/// What a consistent run submits: one batch list of one batch, which holds
/// four transactions for each contract. The transaction at each position
/// is bound by its header to the signer, to its payload and to the
/// addresses planned for that position; the batch header lists the header
/// signatures in the order of the transactions; and the submission is for
/// the run's service, at the run's ledger. A run submits only in answer to
/// the signature of the batch, and then waits for the ledger.
pub proof fn lemma_submission(state: GridSetupView, reply: ReplyView, nonce: Seq<char>)
    requires
        consistent(state),
        step(state, reply, nonce).1 is Submit,
    ensures
        state.stage is BatchSignature,
        step(state, reply, nonce).0.stage is Submission,
        ({
            let batches = step(state, reply, nonce).1->batches;
            let planned = TRANSACTIONS_PER_CONTRACT * state.specs.len();
            &&& batches.service_id == Some(state.service_id)
            &&& parsed_url(state.splinterd_url) == Some(batches.response_url)
            &&& batches.batch_list.len() == 1
            &&& batches.batch_list[0].transactions == state.transactions
            &&& batches.batch_list[0].transactions.len() == planned
            &&& batches.batch_list[0].header.signer_public_key == state.public_key
            &&& batches.batch_list[0].header.transaction_ids.len() == planned
            &&& batches.batch_list[0].well_formed()
            &&& forall|i: int|
                0 <= i < planned ==> fits(state, i, #[trigger] batches.batch_list[0].transactions[i])
            &&& forall|i: int|
                0 <= i < planned ==> (#[trigger] batches.batch_list[0].transactions[i]).well_formed()
            &&& forall|i: int|
                0 <= i < planned ==> #[trigger] batches.batch_list[0].header.transaction_ids[i]
                    == batches.batch_list[0].transactions[i].header_signature
        }),
{
    assert forall|i: int| 0 <= i < state.transactions.len() implies (
    #[trigger] state.transactions[i]).well_formed() by {
        lemma_fitting_is_well_formed(state, i, state.transactions[i]);
    }
}

/// A run that waits for the ledger, or is over, asks for no submission,
/// and is over after the next reply.
pub proof fn lemma_no_second_submission(state: GridSetupView, reply: ReplyView, nonce: Seq<char>)
    requires
        state.stage is Submission || state.stage is Finished,
    ensures
        !(step(state, reply, nonce).1 is Submit),
        step(state, reply, nonce).1 is Done,
        step(state, reply, nonce).0.stage is Finished,
{
}

/// The run after a series of replies: `replies[i]` answers the request that
/// followed `replies[i - 1]`, and `nonces[i]` goes with it.
pub open spec fn after(state: GridSetupView, replies: Seq<ReplyView>, nonces: Seq<Seq<char>>)
    -> GridSetupView
    decreases replies.len(),
{
    if replies.len() == 0 {
        state
    } else {
        step(after(state, replies.drop_last(), nonces), replies.last(), nonces[replies.len() - 1]).0
    }
}

/// How many of the requests that followed `replies` were for a submission.
pub open spec fn submissions(state: GridSetupView, replies: Seq<ReplyView>, nonces: Seq<Seq<char>>)
    -> nat
    decreases replies.len(),
{
    if replies.len() == 0 {
        0
    } else {
        let before = after(state, replies.drop_last(), nonces);
        let asked: nat = if step(before, replies.last(), nonces[replies.len() - 1]).1 is Submit {
            1
        } else {
            0
        };
        submissions(state, replies.drop_last(), nonces) + asked
    }
}

/// A run that started consistent is consistent after any series of
/// replies.
pub proof fn lemma_run_consistent(
    state: GridSetupView,
    replies: Seq<ReplyView>,
    nonces: Seq<Seq<char>>,
)
    requires
        consistent(state),
    ensures
        consistent(after(state, replies, nonces)),
    decreases replies.len(),
{
    if replies.len() > 0 {
        lemma_run_consistent(state, replies.drop_last(), nonces);
        lemma_step_consistent(
            after(state, replies.drop_last(), nonces),
            replies.last(),
            nonces[replies.len() - 1],
        );
    }
}

/// A run asks for at most one submission, whatever the replies are; and
/// once it has asked, it waits for the ledger or is over.
pub proof fn lemma_at_most_one_submission(
    state: GridSetupView,
    replies: Seq<ReplyView>,
    nonces: Seq<Seq<char>>,
)
    ensures
        submissions(state, replies, nonces) <= 1,
        submissions(state, replies, nonces) == 1 ==> (after(state, replies, nonces).stage
            is Submission || after(state, replies, nonces).stage is Finished),
    decreases replies.len(),
{
    if replies.len() > 0 {
        let earlier = replies.drop_last();
        lemma_at_most_one_submission(state, earlier, nonces);
        let before = after(state, earlier, nonces);
        if submissions(state, earlier, nonces) == 1 {
            lemma_no_second_submission(before, replies.last(), nonces[replies.len() - 1]);
        }
    }
}

/// The plan of a run that installs Pike and Product: eight transactions.
/// The first four create the contract registry of Pike, upload Pike,
/// create the registry of its namespace and permit Pike to read it; the
/// other four do the same for Product, in the same order.
pub proof fn lemma_grid_plan(public_key: Seq<char>, contract: Seq<u8>)
    ensures
        TRANSACTIONS_PER_CONTRACT * grid_specs().len() == 8,
        planned(grid_specs(), 0, public_key, contract) == Ok::<TransactionRequestView, Seq<char>>(
            contract_registry_request(public_key, PIKE_FAMILY_NAME@),
        ),
        planned(grid_specs(), 1, public_key, contract) == Ok::<TransactionRequestView, Seq<char>>(
            upload_contract_request(PIKE_FAMILY_NAME@, PIKE_FAMILY_VERSION@, contract, PIKE_PREFIX@),
        ),
        planned(grid_specs(), 2, public_key, contract) == Ok::<TransactionRequestView, Seq<char>>(
            namespace_registry_request(public_key, PIKE_PREFIX@),
        ),
        planned(grid_specs(), 3, public_key, contract) == Ok::<TransactionRequestView, Seq<char>>(
            namespace_permissions_request(PIKE_FAMILY_NAME@, PIKE_PREFIX@),
        ),
        planned(grid_specs(), 4, public_key, contract) == Ok::<TransactionRequestView, Seq<char>>(
            contract_registry_request(public_key, PRODUCT_FAMILY_NAME@),
        ),
        planned(grid_specs(), 5, public_key, contract) == Ok::<TransactionRequestView, Seq<char>>(
            upload_contract_request(
                PRODUCT_FAMILY_NAME@,
                PRODUCT_FAMILY_VERSION@,
                contract,
                PRODUCT_PREFIX@,
            ),
        ),
        planned(grid_specs(), 6, public_key, contract) == Ok::<TransactionRequestView, Seq<char>>(
            namespace_registry_request(public_key, PRODUCT_PREFIX@),
        ),
        planned(grid_specs(), 7, public_key, contract) == Ok::<TransactionRequestView, Seq<char>>(
            namespace_permissions_request(PRODUCT_FAMILY_NAME@, PRODUCT_PREFIX@),
        ),
{
    reveal_strlit("cad11d");
    reveal_strlit("621dee");
}

/// Whatever the replies are, a run that `setup_grid` started submits, if at
/// all, one batch list of one batch of eight well-formed transactions, the
/// four of Pike before the four of Product, each over the addresses planned
/// for its position, listed in the batch header by their header signatures
/// and in their order; and it submits for the service it was started for.
pub proof fn lemma_grid_run_submission(
    splinterd_url: Seq<char>,
    service_id: Seq<char>,
    replies: Seq<ReplyView>,
    nonces: Seq<Seq<char>>,
    reply: ReplyView,
    nonce: Seq<char>,
)
    requires
        step(
            after(started(grid_specs(), splinterd_url, service_id), replies, nonces),
            reply,
            nonce,
        ).1 is Submit,
    ensures
        ({
            let state = after(started(grid_specs(), splinterd_url, service_id), replies, nonces);
            let batches = step(state, reply, nonce).1->batches;
            &&& batches.service_id == Some(service_id)
            &&& parsed_url(splinterd_url) == Some(batches.response_url)
            &&& batches.batch_list.len() == 1
            &&& batches.batch_list[0].well_formed()
            &&& batches.batch_list[0].transactions.len() == 8
            &&& batches.batch_list[0].header.transaction_ids.len() == 8
            &&& forall|i: int|
                0 <= i < 8 ==> {
                    let transaction = #[trigger] batches.batch_list[0].transactions[i];
                    &&& transaction.well_formed()
                    &&& transaction.header.signer_public_key == state.public_key
                    &&& transaction.header.inputs == planned_addresses(
                        grid_specs(),
                        i,
                        state.public_key,
                    )
                    &&& batches.batch_list[0].header.transaction_ids[i]
                        == transaction.header_signature
                }
        }),
{
    let start = started(grid_specs(), splinterd_url, service_id);
    lemma_started_consistent(grid_specs(), splinterd_url, service_id);
    lemma_run_consistent(start, replies, nonces);
    lemma_run_unchanged(start, replies, nonces);
    let state = after(start, replies, nonces);
    lemma_submission(state, reply, nonce);
    let batches = step(state, reply, nonce).1->batches;
    assert forall|i: int| 0 <= i < 8 implies {
        let transaction = #[trigger] batches.batch_list[0].transactions[i];
        &&& transaction.well_formed()
        &&& transaction.header.signer_public_key == state.public_key
        &&& transaction.header.inputs == planned_addresses(grid_specs(), i, state.public_key)
        &&& batches.batch_list[0].header.transaction_ids[i] == transaction.header_signature
    } by {
        let transaction = batches.batch_list[0].transactions[i];
        assert(fits(state, i, transaction));
        assert(transaction.well_formed());
    }
}

/// A run never changes what it installs, where it submits, or for which
/// service.
pub proof fn lemma_run_unchanged(
    state: GridSetupView,
    replies: Seq<ReplyView>,
    nonces: Seq<Seq<char>>,
)
    ensures
        after(state, replies, nonces).specs == state.specs,
        after(state, replies, nonces).splinterd_url == state.splinterd_url,
        after(state, replies, nonces).service_id == state.service_id,
    decreases replies.len(),
{
    if replies.len() > 0 {
        lemma_run_unchanged(state, replies.drop_last(), nonces);
    }
}

} // verus!
