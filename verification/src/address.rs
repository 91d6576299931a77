//! Sabre state addresses.
//!
//! Every address is seventy hexadecimal digits: a fixed prefix of six digits
//! that tells the kind of record, followed by the first sixty-four digits of
//! the SHA-512 digest of the record's name.

use crate::error::AppAuthHandlerError;
use crate::hash::{sha512, sha512_digest};
use crate::hex::{bytes_to_hex_str, hex_string};
use vstd::prelude::*;
use vstd::string::*;
use vstd::utf8::encode_utf8;

verus! {

/// The namespace registry prefix for global state.
pub const NAMESPACE_REGISTRY_PREFIX: &'static str = "00ec00";

/// The contract registry prefix for global state.
pub const CONTRACT_REGISTRY_PREFIX: &'static str = "00ec01";

/// The contract prefix for global state.
pub const CONTRACT_PREFIX: &'static str = "00ec02";

/// The smart permission prefix for global state.
pub const SMART_PERMISSION_PREFIX: &'static str = "00ec03";

/// Number of leading characters of a namespace that its registry address is
/// derived from, and the length of every address prefix.
pub const PREFIX_LENGTH: usize = 6;

/// Number of digest digits in an address.
pub const DIGEST_DIGITS: usize = 64;

/// Length of a state address.
pub const ADDRESS_LENGTH: usize = 70;

/// Start of the message of the error for a namespace that is too short.
pub const NAMESPACE_TOO_SHORT: &'static str = "Namespace must be at least 6 characters long: ";

/// The first sixty-four hexadecimal digits of the SHA-512 digest of the
/// UTF-8 encoding of `text`.
pub open spec fn digest_digits(text: Seq<char>) -> Seq<char> {
    hex_string(sha512_digest(encode_utf8(text))).take(DIGEST_DIGITS as int)
}

/// The state address of the registry of `namespace`: derived from its first
/// six characters. Meant for namespaces of at least six characters.
pub open spec fn namespace_registry_address(namespace: Seq<char>) -> Seq<char> {
    NAMESPACE_REGISTRY_PREFIX@ + digest_digits(namespace.take(PREFIX_LENGTH as int))
}

/// The state address of the contract registry called `name`.
pub open spec fn contract_registry_address(name: Seq<char>) -> Seq<char> {
    CONTRACT_REGISTRY_PREFIX@ + digest_digits(name)
}

/// The state address of version `version` of the contract called `name`.
pub open spec fn contract_address(name: Seq<char>, version: Seq<char>) -> Seq<char> {
    CONTRACT_PREFIX@ + digest_digits(name + ","@ + version)
}

/// The first sixty-four hexadecimal digits of the SHA-512 digest of `text`.
fn hash_digits(text: &str) -> (digits: String)
    ensures
        digits@ == digest_digits(text@),
        digits@.len() == DIGEST_DIGITS,
{
    let digest = sha512(text.as_bytes());
    let all = bytes_to_hex_str(digest.as_slice());
    let digits = all.as_str().substring_char(0, DIGEST_DIGITS);
    String::from_str(digits)
}

/// Puts the six-digit prefix of a kind of record before the digest digits.
fn prefixed(prefix: &'static str, digits: String) -> (address: String)
    requires
        prefix@.len() == PREFIX_LENGTH,
        digits@.len() == DIGEST_DIGITS,
    ensures
        address@ == prefix@ + digits@,
        address@.len() == ADDRESS_LENGTH,
        address@.take(PREFIX_LENGTH as int) == prefix@,
{
    let address = String::from_str(prefix).concat(digits.as_str());
    assert(address@.take(PREFIX_LENGTH as int) =~= prefix@);
    address
}

/// Returns a state address for a given namespace registry.
///
/// `namespace` is the address prefix for this namespace; only its first six
/// characters count. A shorter namespace is refused, and the error names it.
pub fn compute_namespace_registry_address(namespace: &str) -> (result: Result<
    String,
    AppAuthHandlerError,
>)
    ensures
        namespace@.len() >= PREFIX_LENGTH ==> (result matches Ok(address)
            && address@ == namespace_registry_address(namespace@)
            && address@.len() == ADDRESS_LENGTH
            && address@.take(PREFIX_LENGTH as int) == NAMESPACE_REGISTRY_PREFIX@),
        namespace@.len() < PREFIX_LENGTH ==> (result matches Err(
            AppAuthHandlerError::AddressError(message),
        ) && message@ == NAMESPACE_TOO_SHORT@ + namespace@),
{
    if namespace.unicode_len() < PREFIX_LENGTH {
        return Err(
            AppAuthHandlerError::AddressError(
                String::from_str(NAMESPACE_TOO_SHORT).concat(namespace),
            ),
        );
    }
    let prefix = namespace.substring_char(0, PREFIX_LENGTH);
    proof {
        reveal_strlit("00ec00");
        assert(prefix@ =~= namespace@.take(PREFIX_LENGTH as int));
    }
    Ok(prefixed(NAMESPACE_REGISTRY_PREFIX, hash_digits(prefix)))
}

/// Returns a state address for a given contract registry.
///
/// `name` is the name of the contract registry.
pub fn compute_contract_registry_address(name: &str) -> (address: String)
    ensures
        address@ == contract_registry_address(name@),
        address@.len() == ADDRESS_LENGTH,
        address@.take(PREFIX_LENGTH as int) == CONTRACT_REGISTRY_PREFIX@,
{
    proof {
        reveal_strlit("00ec01");
    }
    prefixed(CONTRACT_REGISTRY_PREFIX, hash_digits(name))
}

/// Returns a state address for a given contract.
///
/// `name` is the name of the contract and `version` its version.
pub fn compute_contract_address(name: &str, version: &str) -> (address: String)
    ensures
        address@ == contract_address(name@, version@),
        address@.len() == ADDRESS_LENGTH,
        address@.take(PREFIX_LENGTH as int) == CONTRACT_PREFIX@,
{
    proof {
        reveal_strlit("00ec02");
    }
    let key = String::from_str(name).concat(",").concat(version);
    prefixed(CONTRACT_PREFIX, hash_digits(key.as_str()))
}

/// Addresses of different kinds never coincide: a namespace registry, a
/// contract registry and a contract are told apart by the first six digits
/// of their addresses, whatever their names are.
pub proof fn lemma_address_kinds_differ(
    namespace: Seq<char>,
    registry: Seq<char>,
    contract: Seq<char>,
    version: Seq<char>,
)
    ensures
        namespace_registry_address(namespace).take(PREFIX_LENGTH as int)
            == NAMESPACE_REGISTRY_PREFIX@,
        contract_registry_address(registry).take(PREFIX_LENGTH as int) == CONTRACT_REGISTRY_PREFIX@,
        contract_address(contract, version).take(PREFIX_LENGTH as int) == CONTRACT_PREFIX@,
        NAMESPACE_REGISTRY_PREFIX@ != CONTRACT_REGISTRY_PREFIX@,
        NAMESPACE_REGISTRY_PREFIX@ != CONTRACT_PREFIX@,
        CONTRACT_REGISTRY_PREFIX@ != CONTRACT_PREFIX@,
        namespace_registry_address(namespace) != contract_registry_address(registry),
        namespace_registry_address(namespace) != contract_address(contract, version),
        contract_registry_address(registry) != contract_address(contract, version),
{
    reveal_strlit("00ec00");
    reveal_strlit("00ec01");
    reveal_strlit("00ec02");
    let a = namespace_registry_address(namespace);
    let b = contract_registry_address(registry);
    let c = contract_address(contract, version);
    assert(a.take(PREFIX_LENGTH as int) =~= NAMESPACE_REGISTRY_PREFIX@);
    assert(b.take(PREFIX_LENGTH as int) =~= CONTRACT_REGISTRY_PREFIX@);
    assert(c.take(PREFIX_LENGTH as int) =~= CONTRACT_PREFIX@);
    assert(a[5] == '0' && b[5] == '1' && c[5] == '2');
    assert(NAMESPACE_REGISTRY_PREFIX@[5] == '0');
    assert(CONTRACT_REGISTRY_PREFIX@[5] == '1');
    assert(CONTRACT_PREFIX@[5] == '2');
}

/// An address depends on nothing but the name it is computed from: equal
/// names give equal addresses, for each kind of record.
pub proof fn lemma_addresses_deterministic(
    first: Seq<char>,
    second: Seq<char>,
    first_version: Seq<char>,
    second_version: Seq<char>,
)
    requires
        first == second,
        first_version == second_version,
    ensures
        namespace_registry_address(first) == namespace_registry_address(second),
        contract_registry_address(first) == contract_registry_address(second),
        contract_address(first, first_version) == contract_address(second, second_version),
{
}

} // verus!
