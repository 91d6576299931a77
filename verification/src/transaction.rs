//! Sabre transactions that install a smart contract.
//!
//! Four transactions install one contract: one creates its contract
//! registry, one uploads the contract, one creates the registry of its
//! namespace and one lets the contract read that namespace. For each of them
//! this module says which action the payload carries and which state
//! addresses the transaction touches, each address once, and builds the
//! header that binds the payload to the signer. Encoding and signing are
//! the caller's part.

use crate::address::{
    compute_contract_address, compute_contract_registry_address,
    compute_namespace_registry_address, contract_address, contract_registry_address,
    namespace_registry_address, NAMESPACE_TOO_SHORT, PREFIX_LENGTH, SMART_PERMISSION_PREFIX,
};
use crate::error::AppAuthHandlerError;
use crate::hash::{sha512, sha512_digest};
use crate::hex::{bytes_to_hex_str, hex_string};
use crate::text::{clone_texts, distinct, distinct_texts, texts};
use vstd::prelude::*;
use vstd::string::*;

verus! {

/// Name of the transaction family that executes the transactions.
pub const SABRE_FAMILY_NAME: &'static str = "sabre";

/// Version of the transaction family that executes the transactions.
pub const SABRE_FAMILY_VERSION: &'static str = "0.4";

/// Name of the Pike contract.
pub const PIKE_FAMILY_NAME: &'static str = "pike";

/// Version of the Pike contract.
pub const PIKE_FAMILY_VERSION: &'static str = "0.1";

/// Namespace of the Pike contract.
pub const PIKE_PREFIX: &'static str = "cad11d";

/// File that holds the Pike contract.
pub const PIKE_CONTRACT_FILENAME: &'static str = "grid-pike_0.1.0-dev.scar";

/// Name of the Product contract.
pub const PRODUCT_FAMILY_NAME: &'static str = "grid_product";

/// Version of the Product contract.
pub const PRODUCT_FAMILY_VERSION: &'static str = "1.0";

/// Namespace of the Product contract.
pub const PRODUCT_PREFIX: &'static str = "621dee";

/// File that holds the Product contract.
pub const PRODUCT_CONTRACT_FILENAME: &'static str = "grid-product_0.1.0-dev.scar";

/// State address of the setting that lists the Sabre administrators.
pub const ADMINISTRATORS_SETTING_ADDRESS: &'static str =
    "000000a87cb5eafdcca6a814e4add97c4b517d3c530c2f44b31d18e3b0c44298fc1c14";

/// What a Sabre payload asks for.
#[derive(Debug, Clone, PartialEq, Eq)]
pub enum Action {
    /// Create the registry of the contracts called `name`.
    CreateContractRegistry { name: String, owners: Vec<String> },
    /// Store a version of a contract, with the namespaces it may touch.
    CreateContract {
        name: String,
        version: String,
        inputs: Vec<String>,
        outputs: Vec<String>,
        contract: Vec<u8>,
    },
    /// Create the registry of a namespace.
    CreateNamespaceRegistry { namespace: String, owners: Vec<String> },
    /// Say what a contract may do in a namespace.
    CreateNamespaceRegistryPermission {
        namespace: String,
        contract_name: String,
        read: bool,
        write: bool,
    },
}

/// An action as a mathematical value.
pub enum ActionView {
    CreateContractRegistry { name: Seq<char>, owners: Seq<Seq<char>> },
    CreateContract {
        name: Seq<char>,
        version: Seq<char>,
        inputs: Seq<Seq<char>>,
        outputs: Seq<Seq<char>>,
        contract: Seq<u8>,
    },
    CreateNamespaceRegistry { namespace: Seq<char>, owners: Seq<Seq<char>> },
    CreateNamespaceRegistryPermission {
        namespace: Seq<char>,
        contract_name: Seq<char>,
        read: bool,
        write: bool,
    },
}

impl View for Action {
    type V = ActionView;

    open spec fn view(&self) -> ActionView {
        match self {
            Action::CreateContractRegistry { name, owners } => ActionView::CreateContractRegistry {
                name: name@,
                owners: texts(owners@),
            },
            Action::CreateContract { name, version, inputs, outputs, contract } => {
                ActionView::CreateContract {
                    name: name@,
                    version: version@,
                    inputs: texts(inputs@),
                    outputs: texts(outputs@),
                    contract: contract@,
                }
            },
            Action::CreateNamespaceRegistry { namespace, owners } => {
                ActionView::CreateNamespaceRegistry { namespace: namespace@, owners: texts(owners@) }
            },
            Action::CreateNamespaceRegistryPermission { namespace, contract_name, read, write } => {
                ActionView::CreateNamespaceRegistryPermission {
                    namespace: namespace@,
                    contract_name: contract_name@,
                    read: *read,
                    write: *write,
                }
            },
        }
    }
}

/// What it takes to build one transaction: the action of its payload and
/// the state addresses that it reads and writes, each of them once.
#[derive(Debug, Clone, PartialEq, Eq)]
pub struct TransactionRequest {
    pub action: Action,
    pub addresses: Vec<String>,
}

/// A transaction request as a mathematical value.
pub struct TransactionRequestView {
    pub action: ActionView,
    pub addresses: Seq<Seq<char>>,
}

impl View for TransactionRequest {
    type V = TransactionRequestView;

    open spec fn view(&self) -> TransactionRequestView {
        TransactionRequestView { action: self.action@, addresses: texts(self.addresses@) }
    }
}

/// The request that creates the contract registry `name`, owned by the
/// signer.
pub open spec fn contract_registry_request(public_key: Seq<char>, name: Seq<char>)
    -> TransactionRequestView {
    TransactionRequestView {
        action: ActionView::CreateContractRegistry { name, owners: seq![public_key] },
        addresses: distinct(
            seq![contract_registry_address(name), ADMINISTRATORS_SETTING_ADDRESS@],
        ),
    }
}

/// The namespaces that an uploaded contract may read and write: those of
/// smart permissions, of Pike and its own.
pub open spec fn contract_namespaces(contract_prefix: Seq<char>) -> Seq<Seq<char>> {
    seq![SMART_PERMISSION_PREFIX@, PIKE_PREFIX@, contract_prefix]
}

/// The request that uploads version `version` of the contract `name`. The
/// transaction touches the namespaces that the contract may read and write,
/// the contract registry and the contract itself.
pub open spec fn upload_contract_request(
    name: Seq<char>,
    version: Seq<char>,
    contract: Seq<u8>,
    contract_prefix: Seq<char>,
) -> TransactionRequestView {
    TransactionRequestView {
        action: ActionView::CreateContract {
            name,
            version,
            inputs: contract_namespaces(contract_prefix),
            outputs: contract_namespaces(contract_prefix),
            contract,
        },
        addresses: distinct(
            contract_namespaces(contract_prefix) + seq![
                contract_registry_address(name),
                contract_address(name, version),
            ],
        ),
    }
}

/// The request that creates the registry of the namespace
/// `contract_prefix`, owned by the signer.
pub open spec fn namespace_registry_request(public_key: Seq<char>, contract_prefix: Seq<char>)
    -> TransactionRequestView {
    TransactionRequestView {
        action: ActionView::CreateNamespaceRegistry {
            namespace: contract_prefix,
            owners: seq![public_key],
        },
        addresses: distinct(
            seq![namespace_registry_address(contract_prefix), ADMINISTRATORS_SETTING_ADDRESS@],
        ),
    }
}

/// The request that lets the contract `name` read, and not write, the
/// namespace `contract_prefix`.
pub open spec fn namespace_permissions_request(name: Seq<char>, contract_prefix: Seq<char>)
    -> TransactionRequestView {
    TransactionRequestView {
        action: ActionView::CreateNamespaceRegistryPermission {
            namespace: contract_prefix,
            contract_name: name,
            read: true,
            write: false,
        },
        addresses: distinct(
            seq![
                namespace_registry_address(PIKE_PREFIX@),
                namespace_registry_address(contract_prefix),
                ADMINISTRATORS_SETTING_ADDRESS@,
            ],
        ),
    }
}

/// A list that holds `text` and nothing else.
fn one_text(text: &str) -> (list: Vec<String>)
    ensures
        texts(list@) == seq![text@],
{
    let mut list: Vec<String> = Vec::new();
    list.push(String::from_str(text));
    assert(texts(list@) =~= seq![text@]);
    list
}

/// Requests the creation of the contract registry `name`, owned by the
/// holder of `public_key`.
pub fn make_contract_registry_txn(public_key: &str, name: &str) -> (request: TransactionRequest)
    ensures
        request@ == contract_registry_request(public_key@, name@),
{
    let action = Action::CreateContractRegistry {
        name: String::from_str(name),
        owners: one_text(public_key),
    };
    let mut addresses: Vec<String> = Vec::new();
    addresses.push(compute_contract_registry_address(name));
    addresses.push(String::from_str(ADMINISTRATORS_SETTING_ADDRESS));
    assert(texts(addresses@) =~= seq![
        contract_registry_address(name@),
        ADMINISTRATORS_SETTING_ADDRESS@,
    ]);
    TransactionRequest { action, addresses: distinct_texts(addresses) }
}

/// The three namespaces that an uploaded contract may touch.
fn make_contract_namespaces(contract_prefix: &str) -> (namespaces: Vec<String>)
    ensures
        texts(namespaces@) == contract_namespaces(contract_prefix@),
{
    let mut namespaces: Vec<String> = Vec::new();
    namespaces.push(String::from_str(SMART_PERMISSION_PREFIX));
    namespaces.push(String::from_str(PIKE_PREFIX));
    namespaces.push(String::from_str(contract_prefix));
    assert(texts(namespaces@) =~= contract_namespaces(contract_prefix@));
    namespaces
}

/// Requests the upload of the contract whose bytes are `contract`, as
/// version `version` of `name`, with access to its own namespace
/// `contract_prefix`, to Pike's and to that of smart permissions.
pub fn make_upload_contract_txn(
    name: &str,
    version: &str,
    contract: Vec<u8>,
    contract_prefix: &str,
) -> (request: TransactionRequest)
    ensures
        request@ == upload_contract_request(name@, version@, contract@, contract_prefix@),
{
    let action = Action::CreateContract {
        name: String::from_str(name),
        version: String::from_str(version),
        inputs: make_contract_namespaces(contract_prefix),
        outputs: make_contract_namespaces(contract_prefix),
        contract,
    };
    let mut addresses = make_contract_namespaces(contract_prefix);
    let ghost namespaces = texts(addresses@);
    addresses.push(compute_contract_registry_address(name));
    addresses.push(compute_contract_address(name, version));
    assert(texts(addresses@) =~= namespaces + seq![
        contract_registry_address(name@),
        contract_address(name@, version@),
    ]);
    TransactionRequest { action, addresses: distinct_texts(addresses) }
}

/// Requests the creation of the registry of the namespace
/// `contract_prefix`, owned by the holder of `public_key`. A namespace of
/// fewer than six characters has no registry address and is refused.
pub fn make_namespace_registry_txn(public_key: &str, contract_prefix: &str) -> (result: Result<
    TransactionRequest,
    AppAuthHandlerError,
>)
    ensures
        contract_prefix@.len() >= PREFIX_LENGTH ==> (result matches Ok(request) && request@
            == namespace_registry_request(public_key@, contract_prefix@)),
        contract_prefix@.len() < PREFIX_LENGTH ==> (result matches Err(
            AppAuthHandlerError::AddressError(message),
        ) && message@ == NAMESPACE_TOO_SHORT@ + contract_prefix@),
{
    let action = Action::CreateNamespaceRegistry {
        namespace: String::from_str(contract_prefix),
        owners: one_text(public_key),
    };
    let registry = match compute_namespace_registry_address(contract_prefix) {
        Ok(address) => address,
        Err(error) => {
            return Err(error);
        },
    };
    let mut addresses: Vec<String> = Vec::new();
    addresses.push(registry);
    addresses.push(String::from_str(ADMINISTRATORS_SETTING_ADDRESS));
    assert(texts(addresses@) =~= seq![
        namespace_registry_address(contract_prefix@),
        ADMINISTRATORS_SETTING_ADDRESS@,
    ]);
    Ok(TransactionRequest { action, addresses: distinct_texts(addresses) })
}

/// Requests that the contract `name` may read, and not write, the namespace
/// `contract_prefix`. A namespace of fewer than six characters has no
/// registry address and is refused.
pub fn make_namespace_permissions_txn(name: &str, contract_prefix: &str) -> (result: Result<
    TransactionRequest,
    AppAuthHandlerError,
>)
    ensures
        contract_prefix@.len() >= PREFIX_LENGTH ==> (result matches Ok(request) && request@
            == namespace_permissions_request(name@, contract_prefix@)),
        contract_prefix@.len() < PREFIX_LENGTH ==> (result matches Err(
            AppAuthHandlerError::AddressError(message),
        ) && message@ == NAMESPACE_TOO_SHORT@ + contract_prefix@),
{
    let action = Action::CreateNamespaceRegistryPermission {
        namespace: String::from_str(contract_prefix),
        contract_name: String::from_str(name),
        read: true,
        write: false,
    };
    proof {
        reveal_strlit("cad11d");
    }
    let pike_registry = match compute_namespace_registry_address(PIKE_PREFIX) {
        Ok(address) => address,
        Err(error) => {
            return Err(error);
        },
    };
    let registry = match compute_namespace_registry_address(contract_prefix) {
        Ok(address) => address,
        Err(error) => {
            return Err(error);
        },
    };
    let mut addresses: Vec<String> = Vec::new();
    addresses.push(pike_registry);
    addresses.push(registry);
    addresses.push(String::from_str(ADMINISTRATORS_SETTING_ADDRESS));
    assert(texts(addresses@) =~= seq![
        namespace_registry_address(PIKE_PREFIX@),
        namespace_registry_address(contract_prefix@),
        ADMINISTRATORS_SETTING_ADDRESS@,
    ]);
    Ok(TransactionRequest { action, addresses: distinct_texts(addresses) })
}

/// The header of a transaction: what is signed.
#[derive(Debug, Clone, PartialEq, Eq)]
pub struct TransactionHeader {
    pub family_name: String,
    pub family_version: String,
    pub nonce: String,
    pub signer_public_key: String,
    pub batcher_public_key: String,
    pub inputs: Vec<String>,
    pub outputs: Vec<String>,
    pub payload_sha512: String,
}

/// A transaction header as a mathematical value.
pub struct TransactionHeaderView {
    pub family_name: Seq<char>,
    pub family_version: Seq<char>,
    pub nonce: Seq<char>,
    pub signer_public_key: Seq<char>,
    pub batcher_public_key: Seq<char>,
    pub inputs: Seq<Seq<char>>,
    pub outputs: Seq<Seq<char>>,
    pub payload_sha512: Seq<char>,
}

impl View for TransactionHeader {
    type V = TransactionHeaderView;

    open spec fn view(&self) -> TransactionHeaderView {
        TransactionHeaderView {
            family_name: self.family_name@,
            family_version: self.family_version@,
            nonce: self.nonce@,
            signer_public_key: self.signer_public_key@,
            batcher_public_key: self.batcher_public_key@,
            inputs: texts(self.inputs@),
            outputs: texts(self.outputs@),
            payload_sha512: self.payload_sha512@,
        }
    }
}

impl TransactionHeader {
    /// A copy of the header.
    pub fn duplicate(&self) -> (copy: TransactionHeader)
        ensures
            copy@ == self@,
    {
        TransactionHeader {
            family_name: self.family_name.clone(),
            family_version: self.family_version.clone(),
            nonce: self.nonce.clone(),
            signer_public_key: self.signer_public_key.clone(),
            batcher_public_key: self.batcher_public_key.clone(),
            inputs: clone_texts(&self.inputs),
            outputs: clone_texts(&self.outputs),
            payload_sha512: self.payload_sha512.clone(),
        }
    }
}

/// The header of the Sabre transaction that the holder of `public_key`
/// signs and batches, that reads and writes `addresses`, carries `payload`
/// and is made unique by `nonce`. It names the digest of the payload: all
/// 128 hexadecimal digits of its SHA-512.
pub open spec fn transaction_header(
    public_key: Seq<char>,
    addresses: Seq<Seq<char>>,
    payload: Seq<u8>,
    nonce: Seq<char>,
) -> TransactionHeaderView {
    TransactionHeaderView {
        family_name: SABRE_FAMILY_NAME@,
        family_version: SABRE_FAMILY_VERSION@,
        nonce,
        signer_public_key: public_key,
        batcher_public_key: public_key,
        inputs: addresses,
        outputs: addresses,
        payload_sha512: hex_string(sha512_digest(payload)),
    }
}

/// Builds the header of the transaction that carries `payload`: see
/// `transaction_header`.
pub fn create_txn(public_key: &str, addresses: Vec<String>, payload: &Vec<u8>, nonce: String) -> (header:
    TransactionHeader)
    ensures
        header@ == transaction_header(public_key@, texts(addresses@), payload@, nonce@),
{
    let hash = sha512(payload.as_slice());
    TransactionHeader {
        family_name: String::from_str(SABRE_FAMILY_NAME),
        family_version: String::from_str(SABRE_FAMILY_VERSION),
        nonce,
        signer_public_key: String::from_str(public_key),
        batcher_public_key: String::from_str(public_key),
        inputs: clone_texts(&addresses),
        outputs: addresses,
        payload_sha512: bytes_to_hex_str(hash.as_slice()),
    }
}

/// A signed transaction.
#[derive(Debug, Clone, PartialEq, Eq)]
pub struct Transaction {
    /// The header that was signed.
    pub header: TransactionHeader,
    /// The header as the bytes that were signed.
    pub header_bytes: Vec<u8>,
    /// The signature over `header_bytes`, which is also the transaction's
    /// identifier.
    pub header_signature: String,
    /// The encoded action.
    pub payload: Vec<u8>,
}

/// A transaction as a mathematical value.
pub struct TransactionView {
    pub header: TransactionHeaderView,
    pub header_bytes: Seq<u8>,
    pub header_signature: Seq<char>,
    pub payload: Seq<u8>,
}

impl View for Transaction {
    type V = TransactionView;

    open spec fn view(&self) -> TransactionView {
        TransactionView {
            header: self.header@,
            header_bytes: self.header_bytes@,
            header_signature: self.header_signature@,
            payload: self.payload@,
        }
    }
}

impl TransactionView {
    /// Whether the transaction is well formed: it is a Sabre transaction
    /// that its signer batches himself, it reads the addresses that it
    /// writes, each named once, and its header names the SHA-512 digest of
    /// its payload.
    pub open spec fn well_formed(self) -> bool {
        &&& self.header.family_name == SABRE_FAMILY_NAME@
        &&& self.header.family_version == SABRE_FAMILY_VERSION@
        &&& self.header.batcher_public_key == self.header.signer_public_key
        &&& self.header.outputs == self.header.inputs
        &&& self.header.inputs.no_duplicates()
        &&& self.header.payload_sha512 == hex_string(sha512_digest(self.payload))
    }
}

/// The transactions of a list, each as a mathematical value.
pub open spec fn transaction_views(list: Seq<Transaction>) -> Seq<TransactionView> {
    Seq::new(list.len(), |i: int| list[i]@)
}

} // verus!
