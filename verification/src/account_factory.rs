//! # Account Factory
//!
//! A factory contract for deploying account contracts on Soroban (Stellar).
//!
//! The factory deploys account contracts at deterministic addresses derived
//! from the controlling Ethereum address, so that an account's Soroban
//! address is computable before it is deployed, and so that the deployed
//! address is bound to its signer by construction.
//!
//! There is intentionally no caller-supplied salt and no admin function to
//! change the stored account wasm hash: either would allow an attacker to
//! front-run a deployment and bind a user's computed address to a different
//! signer or different code. A new account wasm version requires deploying a
//! new factory, which derives distinct account addresses.
//!
//! ## Functions
//!
//! | Function | Description |
//! |---|---|
//! | `__constructor` | Initialize the factory with an account contract wasm hash. Immutable thereafter. |
//! | `open_account` | Deploy the account contract for the given Ethereum address. |
//! | `account_address` | Returns the deterministic account address for the given Ethereum address. |
//! | `wasm_hash` | Returns the stored account wasm hash. |
//! | `extend` | Extend the lifetime (TTL) of the factory's storage. |
//!
//! ## Storage lifetime
//!
//! `open_account` and `extend` extend the factory's instance TTL. A factory
//! left idle for a long period can still be archived; it must then be
//! restored before use. Deployed accounts do not depend on the factory, but
//! an account deployed ahead of first use has its own TTL to maintain (see
//! the account contract's `extend`).

use vstd::prelude::*;

use crate::platform;
use crate::host::{Address, Context, Deployment, NetworkAddress, TTL_EXTEND_TO, TTL_THRESHOLD};
use soroban_sdk::Env;

verus! {

/// Domain separator for the deployment salt derivation, versioned with the
/// account wasm: a future account contract version must use a new domain so
/// its address derivations cannot collide with v1 addresses.
pub const SALT_DOMAIN: &'static str = "owcacctv1";

/// The keys of the instance storage.
#[derive(Clone, Copy, Debug, PartialEq, Eq)]
pub enum DataKey {
    WasmHash,
}

/// The instance storage of an account factory.
#[derive(Clone, Copy, Debug, PartialEq, Eq)]
pub struct Instance {
    pub wasm_hash: [u8; 32],
}

/// Something that the contract has the host do.
#[derive(Clone, Copy, Debug, PartialEq, Eq)]
pub enum Action {
    /// Store a byte string in the instance storage.
    Store(DataKey, [u8; 32]),
    /// Extend the TTL of the instance storage to `extend_to`, once it is below
    /// `threshold`.
    ExtendTtl { threshold: u32, extend_to: u32 },
    /// Deploy the account contract with the wasm `wasm_hash` from the running
    /// contract under `salt`, to be controlled by `eth_address`. Fail if
    /// something is deployed there.
    Deploy { salt: [u8; 32], wasm_hash: [u8; 32], eth_address: [u8; 20] },
}

/// One invocation of the contract: where it runs, what its storage holds and
/// what it has had the host do, in that order.
pub struct Invocation {
    pub context: Context,
    pub storage: Instance,
    pub actions: Vec<Action>,
}

impl Invocation {
    /// Whether `next` is this invocation later on: with the same storage, and
    /// having had the host do `actions` since.
    pub open spec fn leads_to(self, next: Invocation, actions: Seq<Action>) -> bool {
        &&& next.context == self.context
        &&& next.storage == self.storage
        &&& next.actions@ =~= self.actions@ + actions
    }
}

/// The extension of the storage's lifetime that the contract has the host do.
pub open spec fn extend_ttl() -> Action {
    Action::ExtendTtl { threshold: TTL_THRESHOLD, extend_to: TTL_EXTEND_TO }
}

/// What the deployment salt of the account of an Ethereum address is hashed
/// from.
pub open spec fn salt_preimage(eth_address: Seq<u8>) -> Seq<u8> {
    platform::symbol_bytes_xdr(SALT_DOMAIN@, eth_address)
}

/// The deployment salt of the account of an Ethereum address.
pub open spec fn salt_of(eth_address: Seq<u8>) -> Seq<u8> {
    platform::sha256_digest(salt_preimage(eth_address))
}

/// The address of the account of an Ethereum address: where the given factory
/// deploys, or would deploy, it.
pub open spec fn account_address_on(
    network_id: Seq<u8>,
    factory: Address,
    eth_address: Seq<u8>,
) -> Address {
    platform::contract_address(network_id, factory, salt_of(eth_address))
}

/// Whether nothing else has the salt preimage of an Ethereum address: neither
/// another Ethereum address nor one under another domain.
pub open spec fn has_own_preimage(eth_address: Seq<u8>) -> bool {
    forall|domain: Seq<char>, other: Seq<u8>|
        platform::is_symbol(domain) && other.len() == 20 && #[trigger] platform::symbol_bytes_xdr(
            domain,
            other,
        ) == salt_preimage(eth_address) ==> domain == SALT_DOMAIN@ && other == eth_address
}

proof fn lemma_domain_is_symbol()
    ensures
        platform::is_symbol(SALT_DOMAIN@),
{
    reveal_strlit("owcacctv1");
}

/// The account factory contract.
pub struct FactoryContract;

impl FactoryContract {
    /// Initialize the factory with an account contract wasm hash. Immutable
    /// thereafter.
    ///
    /// Callable by the deployer.
    ///
    /// # Auth
    /// None.
    pub fn __constructor(context: Context, wasm_hash: [u8; 32]) -> (call: Invocation)
        ensures
            call.context == context,
            call.storage == (Instance { wasm_hash }),
            call.actions@ == seq![Action::Store(DataKey::WasmHash, wasm_hash)],
    {
        let mut actions: Vec<Action> = Vec::new();
        actions.push(Action::Store(DataKey::WasmHash, wasm_hash));
        Invocation { context, storage: Instance { wasm_hash }, actions }
    }

    /// Returns the stored account contract wasm hash.
    ///
    /// Callable by anyone.
    ///
    /// # Auth
    /// None.
    pub fn wasm_hash(call: &Invocation) -> (wasm_hash: [u8; 32])
        ensures
            wasm_hash == call.storage.wasm_hash,
    {
        call.storage.wasm_hash
    }

    /// Returns the deterministic address at which the account contract for
    /// the given Ethereum address is (or will be) deployed by this factory.
    ///
    /// Callable by anyone.
    ///
    /// # Auth
    /// None.
    pub fn account_address(env: &Env, call: &Invocation, eth_address: [u8; 20]) -> (account:
        NetworkAddress)
        ensures
            account.address == account_address_on(
                account.network_id@,
                call.context.contract,
                eth_address@,
            ),
            account.address == platform::contract_address(
                account.network_id@,
                call.context.contract,
                platform::sha256_digest(
                    platform::symbol_bytes_xdr("owcacctv1"@, eth_address@),
                ),
            ),
            has_own_preimage(eth_address@),
    {
        let salt: [u8; 32] = Self::deployment_salt(env, &eth_address);
        platform::deployed_address(env, &Deployment { deployer: call.context.contract, salt })
    }

    /// Deploy the account contract for the given Ethereum address, at the
    /// deterministic address returned by `account_address`. Fails if the
    /// account is already deployed.
    ///
    /// Callable by anyone: the deployed account is controlled solely by the
    /// given Ethereum address, so deploying it on someone else's behalf is
    /// harmless.
    ///
    /// # Auth
    /// None.
    pub fn open_account(env: &Env, call: &mut Invocation, eth_address: [u8; 20]) -> (account:
        Deployment)
        ensures
            account.deployer == old(call).context.contract,
            account.salt@ == salt_of(eth_address@),
            account.salt@ == platform::sha256_digest(
                platform::symbol_bytes_xdr("owcacctv1"@, eth_address@),
            ),
            has_own_preimage(eth_address@),
            old(call).leads_to(
                *final(call),
                seq![
                    extend_ttl(),
                    Action::Deploy {
                        salt: account.salt,
                        wasm_hash: old(call).storage.wasm_hash,
                        eth_address,
                    },
                ],
            ),
    {
        Self::extend_instance_ttl(call);
        let wasm_hash: [u8; 32] = Self::wasm_hash(call);
        let salt: [u8; 32] = Self::deployment_salt(env, &eth_address);
        call.actions.push(Action::Deploy { salt, wasm_hash, eth_address });
        Deployment { deployer: call.context.contract, salt }
    }

    /// Extend the lifetime (TTL) of the factory's instance storage.
    ///
    /// Callable by anyone.
    ///
    /// # Auth
    /// None.
    pub fn extend(call: &mut Invocation)
        ensures
            old(call).leads_to(*final(call), seq![extend_ttl()]),
    {
        Self::extend_instance_ttl(call);
    }

    fn extend_instance_ttl(call: &mut Invocation)
        ensures
            old(call).leads_to(*final(call), seq![extend_ttl()]),
    {
        call.actions.push(Action::ExtendTtl { threshold: TTL_THRESHOLD, extend_to: TTL_EXTEND_TO });
    }

    /// Derive the deployment salt from the controlling Ethereum address, so
    /// that the binding of address and signer is enforced by construction.
    fn deployment_salt(env: &Env, eth_address: &[u8; 20]) -> (salt: [u8; 32])
        ensures
            salt@ == salt_of(eth_address@),
            has_own_preimage(eth_address@),
    {
        proof {
            lemma_domain_is_symbol();
        }
        let preimage: Vec<u8> = platform::symbol_bytes_to_xdr(env, SALT_DOMAIN, eth_address);
        platform::sha256(env, preimage.as_slice())
    }
}

/// The account of an Ethereum address is deployed at the address that is
/// computed for it, whenever that is.
pub proof fn law_account_address_is_deterministic(
    network_id: Seq<u8>,
    factory: Address,
    eth_address: Seq<u8>,
    account: Deployment,
)
    requires
        account.deployer == factory,
        account.salt@ == salt_of(eth_address),
    ensures
        platform::contract_address(network_id, account.deployer, account.salt@)
            == account_address_on(network_id, factory, eth_address),
{
}

/// The address that is computed for an Ethereum address depends on nothing but
/// the network, the factory and the Ethereum address: two answers on one network
/// agree, whoever asks, whatever the factory deploys, and whether or not the
/// account is there.
pub proof fn law_account_addresses_agree(
    factory: Address,
    eth_address: Seq<u8>,
    first: NetworkAddress,
    second: NetworkAddress,
)
    requires
        first.network_id == second.network_id,
        first.address == account_address_on(first.network_id@, factory, eth_address),
        second.address == account_address_on(second.network_id@, factory, eth_address),
    ensures
        first == second,
{
}

/// The deployment salts of different Ethereum addresses are hashed from
/// different bytes: two signers share an account address only where the hash
/// collides.
pub proof fn law_signers_have_distinct_preimages(eth_address: Seq<u8>, other: Seq<u8>)
    requires
        has_own_preimage(eth_address),
        other.len() == 20,
        other != eth_address,
    ensures
        salt_preimage(eth_address) != salt_preimage(other),
{
    lemma_domain_is_symbol();
}

/// The accounts of two Ethereum addresses have the same address if and only if
/// the two are the same, where neither the salt nor the address is a hash
/// collision.
pub proof fn law_signers_have_distinct_accounts(
    network_id: Seq<u8>,
    factory: Address,
    eth_address: Seq<u8>,
    other: Seq<u8>,
)
    requires
        has_own_preimage(eth_address),
        other.len() == 20,
        ({
            let one = platform::symbol_bytes_xdr("owcacctv1"@, eth_address);
            let two = platform::symbol_bytes_xdr("owcacctv1"@, other);
            let one_salt = platform::sha256_digest(one);
            let two_salt = platform::sha256_digest(two);
            &&& one_salt == two_salt ==> one == two
            &&& platform::contract_address(network_id, factory, one_salt)
                == platform::contract_address(network_id, factory, two_salt) ==> one_salt
                == two_salt
        }),
    ensures
        account_address_on(network_id, factory, eth_address) == account_address_on(
            network_id,
            factory,
            other,
        ) <==> eth_address == other,
{
    if other != eth_address {
        law_signers_have_distinct_preimages(eth_address, other);
    }
}

/// Two Ethereum addresses have the same deployment salt if and only if they are
/// the same, or the XDR of the one and the XDR of the other, each with the domain
/// `owcacctv1`, are different bytes with the same SHA-256 hash.
pub proof fn law_equal_salts_are_hash_collisions(eth_address: Seq<u8>, other: Seq<u8>)
    requires
        has_own_preimage(eth_address),
        other.len() == 20,
    ensures
        ({
            let one = platform::symbol_bytes_xdr("owcacctv1"@, eth_address);
            let two = platform::symbol_bytes_xdr("owcacctv1"@, other);
            salt_of(eth_address) == salt_of(other) <==> eth_address == other || (one != two
                && platform::sha256_digest(one) == platform::sha256_digest(two))
        }),
{
    if other != eth_address {
        law_signers_have_distinct_preimages(eth_address, other);
    }
}

/// An account is where the network puts what the factory deploys under the SHA-256
/// hash of the XDR of the domain `owcacctv1` and the whole Ethereum address.
pub proof fn law_where_an_account_is(network_id: Seq<u8>, factory: Address, eth_address: Seq<u8>)
    ensures
        account_address_on(network_id, factory, eth_address) == platform::contract_address(
            network_id,
            factory,
            platform::sha256_digest(platform::symbol_bytes_xdr("owcacctv1"@, eth_address)),
        ),
{
}

/// Where an Ethereum address has a salt preimage of its own, no other symbol and
/// Ethereum address have the same XDR as the domain and it.
pub proof fn law_own_preimages(eth_address: Seq<u8>, domain: Seq<char>, other: Seq<u8>)
    requires
        has_own_preimage(eth_address),
        platform::is_symbol(domain),
        other.len() == 20,
    ensures
        platform::symbol_bytes_xdr(domain, other) == platform::symbol_bytes_xdr(
            "owcacctv1"@,
            eth_address,
        ) ==> domain == "owcacctv1"@ && other == eth_address,
{
}

/// An invocation goes on with the same storage in the same surroundings, and its
/// actions so far, in their order, are followed by the new ones and by no others.
pub proof fn law_invocation_goes_on(call: Invocation, next: Invocation, actions: Seq<Action>)
    requires
        call.leads_to(next, actions),
    ensures
        next.context == call.context,
        next.storage == call.storage,
        next.actions@ == call.actions@ + actions,
{
}

/// The lifetime of the storage is extended to sixty days of 17280 ledgers, once it
/// is below thirty.
pub proof fn law_lifetime_is_sixty_days()
    ensures
        extend_ttl() == (Action::ExtendTtl { threshold: 518_400, extend_to: 1_036_800 }),
{
}

} // verus!
