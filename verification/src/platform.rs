//! The hash functions, signature schemes, serialisation and addressing that the
//! contracts rely on. The host may stop an invocation that exceeds its resource
//! budget inside any of them; nothing is said of one that it stops.

use vstd::prelude::*;

use crate::host::{Address, Deployment, NetworkAddress};
use soroban_sdk::address_payload::AddressPayload;
use soroban_sdk::xdr::ToXdr;
use soroban_sdk::{Bytes, BytesN, Env, IntoVal, Map as HostMap, Symbol, Val};

verus! {

/// A handle to the Soroban host. Nothing in this crate depends on what is
/// behind it: it only gives access to the host's pure functions.
#[verifier::external_type_specification]
#[verifier::external_body]
pub struct ExEnv(soroban_sdk::Env);

/// The SHA-256 hash of `data`.
pub uninterp spec fn sha256_digest(data: Seq<u8>) -> Seq<u8>;

/// The Keccak-256 hash of `data`.
pub uninterp spec fn keccak256_digest(data: Seq<u8>) -> Seq<u8>;

/// Whether `signature` is an ed25519 signature of `message` under
/// `public_key`.
pub uninterp spec fn ed25519_valid(
    public_key: Seq<u8>,
    message: Seq<u8>,
    signature: Seq<u8>,
) -> bool;

/// The uncompressed public key that an ECDSA signature over secp256k1 of
/// `digest` determines together with `recovery_id`, if there is one.
pub uninterp spec fn secp256k1_recovered(
    digest: Seq<u8>,
    signature: Seq<u8>,
    recovery_id: u8,
) -> Option<Seq<u8>>;

/// The XDR of a map value with four entries, each a key, which is a symbol, and
/// its value: a number, an address, a symbol and a byte string.
pub uninterp spec fn map_xdr(
    number: (Seq<char>, i128),
    address: (Seq<char>, Address),
    symbol: (Seq<char>, Seq<char>),
    bytes: (Seq<char>, Seq<u8>),
) -> Seq<u8>;

/// The XDR of a vector value that holds a symbol and a byte string.
pub uninterp spec fn symbol_bytes_xdr(symbol: Seq<char>, bytes: Seq<u8>) -> Seq<u8>;

/// The XDR of a vector value that holds an address and a byte string.
pub uninterp spec fn address_bytes_xdr(address: Address, bytes: Seq<u8>) -> Seq<u8>;

/// The address on a network of the contract that `deployer` deploys under `salt`.
pub uninterp spec fn contract_address(
    network_id: Seq<u8>,
    deployer: Address,
    salt: Seq<u8>,
) -> Address;

/// Whether a symbol can hold `c`.
pub open spec fn is_symbol_char(c: char) -> bool {
    ||| 'a' <= c <= 'z'
    ||| 'A' <= c <= 'Z'
    ||| '0' <= c <= '9'
    ||| c == '_'
}

/// Whether `s` can be a symbol: at most 32 characters out of `a-zA-Z0-9_`.
pub open spec fn is_symbol(s: Seq<char>) -> bool {
    &&& s.len() <= 32
    &&& forall|i: int| 0 <= i < s.len() ==> is_symbol_char(#[trigger] s[i])
}

/// Whether there is a map with the four entries: the keys and the symbol among
/// the values are symbols, the keys differ, and the byte string has 32 bytes.
pub open spec fn is_map(
    number: (Seq<char>, i128),
    address: (Seq<char>, Address),
    symbol: (Seq<char>, Seq<char>),
    bytes: (Seq<char>, Seq<u8>),
) -> bool {
    &&& is_symbol(number.0) && is_symbol(address.0) && is_symbol(symbol.0) && is_symbol(bytes.0)
    &&& number.0 != address.0 && number.0 != symbol.0 && number.0 != bytes.0
    &&& address.0 != symbol.0 && address.0 != bytes.0 && symbol.0 != bytes.0
    &&& is_symbol(symbol.1)
    &&& bytes.1.len() == 32
}

/// Calls `soroban_sdk::crypto::Crypto::sha256`, and claims that its result is
/// the digest of the data alone.
#[verifier::external_body]
pub(crate) fn sha256(env: &Env, data: &[u8]) -> (digest: [u8; 32])
    requires
        data@.len() <= u32::MAX,
    ensures
        digest@ == sha256_digest(data@),
{
    env.crypto().sha256(&Bytes::from_slice(env, data)).to_array()
}

/// Calls `soroban_sdk::crypto::Crypto::keccak256`, and claims that its result
/// is the digest of the data alone.
#[verifier::external_body]
pub(crate) fn keccak256(env: &Env, data: &[u8]) -> (digest: [u8; 32])
    requires
        data@.len() <= u32::MAX,
    ensures
        digest@ == keccak256_digest(data@),
{
    env.crypto().keccak256(&Bytes::from_slice(env, data)).to_array()
}

/// Calls `ed25519_dalek::VerifyingKey::verify_strict`, the check behind the
/// host's `ed25519_verify`, which halts the invocation in place of an answer.
/// Claims that the answer depends on the key, the message and the signature
/// alone. Bytes that are no public key verify nothing.
#[verifier::external_body]
pub(crate) fn ed25519_verify(
    public_key: &[u8; 32],
    message: &[u8],
    signature: &[u8; 64],
) -> (valid: bool)
    ensures
        valid == ed25519_valid(public_key@, message@, signature@),
{
    match ed25519_dalek::VerifyingKey::from_bytes(public_key) {
        Ok(key) => {
            let signature = ed25519_dalek::Signature::from_bytes(signature);
            key.verify_strict(message, &signature).is_ok()
        },
        Err(_) => false,
    }
}

/// Calls `k256::ecdsa::VerifyingKey::recover_from_prehash`, the recovery behind
/// the host's `secp256k1_recover`, which halts the invocation where there is no
/// key. Claims that the key, in its uncompressed encoding, depends on the
/// digest, the signature and the recovery identifier alone.
#[verifier::external_body]
pub(crate) fn secp256k1_recover(
    digest: &[u8; 32],
    signature: &[u8; 64],
    recovery_id: u8,
) -> (public_key: Option<[u8; 65]>)
    ensures
        match public_key {
            Some(key) => secp256k1_recovered(digest@, signature@, recovery_id) == Some(key@),
            None => secp256k1_recovered(digest@, signature@, recovery_id) is None,
        },
{
    let signature = k256::ecdsa::Signature::from_slice(signature).ok()?;
    let id = k256::ecdsa::RecoveryId::from_byte(recovery_id)?;
    let key = k256::ecdsa::VerifyingKey::recover_from_prehash(digest, &signature, id).ok()?;
    key.to_encoded_point(false).as_bytes().try_into().ok()
}

/// Calls `soroban_sdk::xdr::ToXdr::to_xdr` on a map of the four entries. Claims
/// that the bytes depend on the entries alone, and that the entries can be read
/// back from them: no map with other keys or values has the same bytes.
#[verifier::external_body]
pub(crate) fn map_to_xdr(
    env: &Env,
    number: (&str, i128),
    address: (&str, &Address),
    symbol: (&str, &str),
    bytes: (&str, &[u8; 32]),
) -> (xdr: Vec<u8>)
    requires
        is_map(
            (number.0@, number.1),
            (address.0@, *address.1),
            (symbol.0@, symbol.1@),
            (bytes.0@, bytes.1@),
        ),
    ensures
        xdr@ == map_xdr(
            (number.0@, number.1),
            (address.0@, *address.1),
            (symbol.0@, symbol.1@),
            (bytes.0@, bytes.1@),
        ),
        xdr@.len() <= u32::MAX,
        forall|
            n: (Seq<char>, i128),
            a: (Seq<char>, Address),
            s: (Seq<char>, Seq<char>),
            b: (Seq<char>, Seq<u8>),
        |
            is_map(n, a, s, b) && #[trigger] map_xdr(n, a, s, b) == xdr@ ==> {
                &&& n == (number.0@, number.1)
                &&& a == (address.0@, *address.1)
                &&& s == (symbol.0@, symbol.1@)
                &&& b == (bytes.0@, bytes.1@)
            },
{
    let payload = match address.1 {
        Address::Account(key) => AddressPayload::AccountIdPublicKeyEd25519(BytesN::from_array(env, key)),
        Address::Contract(id) => AddressPayload::ContractIdHash(BytesN::from_array(env, id)),
    };
    let entries: HostMap<Symbol, Val> = HostMap::from_array(env, [
        (Symbol::new(env, number.0), number.1.into_val(env)),
        (Symbol::new(env, address.0), payload.to_address(env).to_val()),
        (Symbol::new(env, symbol.0), Symbol::new(env, symbol.1).to_val()),
        (Symbol::new(env, bytes.0), BytesN::from_array(env, bytes.1).to_val()),
    ]);
    entries.to_xdr(env).iter().collect()
}

/// Calls `soroban_sdk::xdr::ToXdr::to_xdr` on a symbol and a byte string.
/// Claims that the bytes depend on the two alone, and that the two can be read
/// back from them: no other two have the same bytes.
#[verifier::external_body]
pub(crate) fn symbol_bytes_to_xdr(env: &Env, symbol: &str, bytes: &[u8; 20]) -> (xdr: Vec<u8>)
    requires
        is_symbol(symbol@),
    ensures
        xdr@ == symbol_bytes_xdr(symbol@, bytes@),
        xdr@.len() <= u32::MAX,
        forall|s: Seq<char>, b: Seq<u8>|
            is_symbol(s) && b.len() == 20 && #[trigger] symbol_bytes_xdr(s, b) == xdr@ ==> s
                == symbol@ && b == bytes@,
{
    (Symbol::new(env, symbol), BytesN::from_array(env, bytes)).to_xdr(env).iter().collect()
}

/// Calls `soroban_sdk::xdr::ToXdr::to_xdr` on an address and a byte string.
/// Claims that the bytes depend on the two alone, and that the two can be read
/// back from them: no other two have the same bytes.
#[verifier::external_body]
pub(crate) fn address_bytes_to_xdr(env: &Env, address: &Address, bytes: &[u8; 32]) -> (xdr: Vec<u8>)
    ensures
        xdr@ == address_bytes_xdr(*address, bytes@),
        xdr@.len() <= u32::MAX,
        forall|a: Address, b: Seq<u8>|
            b.len() == 32 && #[trigger] address_bytes_xdr(a, b) == xdr@ ==> a == *address && b
                == bytes@,
{
    let address = match address {
        Address::Account(key) => AddressPayload::AccountIdPublicKeyEd25519(BytesN::from_array(env, key)),
        Address::Contract(id) => AddressPayload::ContractIdHash(BytesN::from_array(env, id)),
    };
    (address.to_address(env), BytesN::from_array(env, bytes)).to_xdr(env).iter().collect()
}

/// Calls `soroban_sdk::deploy::DeployerWithAddress::deployed_address` and
/// `soroban_sdk::ledger::Ledger::network_id`. Claims that the address depends on
/// the deployer, the salt and the network of `env` alone, whether or not
/// anything is deployed there.
#[verifier::external_body]
pub(crate) fn deployed_address(env: &Env, deployment: &Deployment) -> (found: NetworkAddress)
    ensures
        found.address == contract_address(
            found.network_id@,
            deployment.deployer,
            deployment.salt@,
        ),
{
    let deployer = match &deployment.deployer {
        Address::Account(key) => AddressPayload::AccountIdPublicKeyEd25519(BytesN::from_array(env, key)),
        Address::Contract(id) => AddressPayload::ContractIdHash(BytesN::from_array(env, id)),
    };
    let salt = BytesN::from_array(env, &deployment.salt);
    let deployed = env.deployer().with_address(deployer.to_address(env), salt).deployed_address();
    let address = match deployed.to_payload().unwrap() {
        AddressPayload::AccountIdPublicKeyEd25519(key) => Address::Account(key.to_array()),
        AddressPayload::ContractIdHash(id) => Address::Contract(id.to_array()),
    };
    NetworkAddress { network_id: env.ledger().network_id().to_array(), address }
}

} // verus!
