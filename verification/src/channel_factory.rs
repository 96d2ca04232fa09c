//! # Channel Factory
//!
//! A factory contract for opening channel contracts on Soroban (Stellar).
//!
//! The factory stores a channel contract wasm hash and opens new channel
//! instances using it. An admin can update the wasm hash to open newer
//! versions of the channel contract.
//!
//! ## Functions
//!
//! | Function | Description |
//! |---|---|
//! | `__constructor` | Initialize the factory with an admin and channel wasm hash. |
//! | `set_wasm` | Update the stored channel wasm hash. Admin only. |
//! | `open` | Deploy a new channel contract with the given parameters. The caller passes the expected channel wasm hash, which must match the stored one. |
//! | `admin` | Returns the admin address. |
//! | `wasm_hash` | Returns the stored channel wasm hash. |
//! | `extend` | Extend the lifetime (TTL) of the factory's storage. |
//!
//! ## Storage lifetime
//!
//! `open`, `set_wasm`, and `extend` extend the factory's instance TTL. A
//! factory left idle for a long period can still be archived; it must then
//! be restored before use. Deployed channels do not depend on the factory.

use vstd::prelude::*;

use crate::platform;
use crate::host::{bytes_equal, Address, Context, Deployment, TTL_EXTEND_TO, TTL_THRESHOLD};
use soroban_sdk::Env;

verus! {

/// Emitted when the admin changes the channel wasm hash used for future
/// deployments. Existing channels are unaffected.
#[derive(Clone, Copy, Debug, PartialEq, Eq)]
pub struct WasmSet {
    /// The new channel wasm hash.
    pub wasm_hash: [u8; 32],
}

/// Why the contract refuses an operation.
#[derive(Clone, Copy, Debug, PartialEq, Eq)]
pub enum Error {
    WasmHashMismatch,
}

impl Error {
    /// The number by which a caller of the contract sees the error.
    pub fn code(&self) -> (code: u32)
        ensures
            code == 1,
    {
        match *self {
            Error::WasmHashMismatch => 1,
        }
    }
}

/// The keys of the instance storage.
#[derive(Clone, Copy, Debug, PartialEq, Eq)]
pub enum DataKey {
    Admin,
    WasmHash,
}

/// A value of the instance storage.
#[derive(Clone, Copy, Debug, PartialEq, Eq)]
pub enum Value {
    Address(Address),
    Bytes([u8; 32]),
}

/// The instance storage of a channel factory.
#[derive(Clone, Copy, Debug, PartialEq, Eq)]
pub struct Instance {
    pub admin: Address,
    pub wasm_hash: [u8; 32],
}

/// What a channel is opened with.
#[derive(Clone, Copy, Debug, PartialEq, Eq)]
pub struct ChannelArgs {
    pub token: Address,
    pub from: Address,
    pub commitment_key: [u8; 32],
    pub to: Address,
    pub amount: i128,
    pub refund_waiting_period: u32,
}

/// Something that the contract has the host do.
#[derive(Clone, Copy, Debug, PartialEq, Eq)]
pub enum Action {
    /// Fail unless the address authorized the invocation.
    RequireAuth(Address),
    /// Extend the TTL of the instance storage to `extend_to`, once it is below
    /// `threshold`.
    ExtendTtl { threshold: u32, extend_to: u32 },
    /// Write an entry of the instance storage.
    Store(DataKey, Value),
    /// Deploy the channel contract with the wasm `wasm_hash` from the running
    /// contract under `salt`, and open it with `args`. Fail if something is
    /// deployed there.
    Deploy { salt: [u8; 32], wasm_hash: [u8; 32], args: ChannelArgs },
    /// Publish an event.
    Publish(WasmSet),
}

/// One invocation of the contract: where it runs, what its storage holds and
/// what it has had the host do, in that order. Where an operation fails, the
/// actions are those before the failure, and the host undoes them.
pub struct Invocation {
    pub context: Context,
    pub storage: Instance,
    pub actions: Vec<Action>,
}

impl Invocation {
    /// Whether `next` is this invocation later on: with the given storage, and
    /// having had the host do `actions` since.
    pub open spec fn leads_to(
        self,
        next: Invocation,
        storage: Instance,
        actions: Seq<Action>,
    ) -> bool {
        &&& next.context == self.context
        &&& next.storage == storage
        &&& next.actions@ =~= self.actions@ + actions
    }
}

/// The extension of the storage's lifetime that the contract has the host do.
pub open spec fn extend_ttl() -> Action {
    Action::ExtendTtl { threshold: TTL_THRESHOLD, extend_to: TTL_EXTEND_TO }
}

/// The storage after the admin set the channel wasm hash.
pub open spec fn wasm_set(s: Instance, wasm_hash: [u8; 32]) -> Instance {
    Instance { wasm_hash, ..s }
}

/// Whether a channel may be opened with the expectation that its wasm hash is
/// `wasm_hash`.
pub open spec fn open_result(s: Instance, wasm_hash: [u8; 32]) -> Result<(), Error> {
    if wasm_hash == s.wasm_hash {
        Ok(())
    } else {
        Err(Error::WasmHashMismatch)
    }
}

/// What the deployment salt of a channel is hashed from: who funds it and the
/// salt that the caller chose.
pub open spec fn salt_preimage(from: Address, salt: Seq<u8>) -> Seq<u8> {
    platform::address_bytes_xdr(from, salt)
}

/// The deployment salt of a channel.
pub open spec fn salt_of(from: Address, salt: Seq<u8>) -> Seq<u8> {
    platform::sha256_digest(salt_preimage(from, salt))
}

/// Whether no other funder and salt have the same salt preimage.
pub open spec fn has_own_preimage(from: Address, salt: Seq<u8>) -> bool {
    forall|other: Address, other_salt: Seq<u8>|
        other_salt.len() == 32 && #[trigger] salt_preimage(other, other_salt) == salt_preimage(
            from,
            salt,
        ) ==> other == from && other_salt == salt
}

/// The channel factory contract.
pub struct FactoryContract;

impl FactoryContract {
    /// Initialize the factory with an admin and a channel contract wasm hash.
    ///
    /// Callable by the opener.
    ///
    /// # Auth
    /// None.
    pub fn __constructor(context: Context, admin: Address, wasm_hash: [u8; 32]) -> (call:
        Invocation)
        ensures
            call.context == context,
            call.storage == (Instance { admin, wasm_hash }),
            call.actions@ == seq![
                Action::Store(DataKey::Admin, Value::Address(admin)),
                Action::Store(DataKey::WasmHash, Value::Bytes(wasm_hash)),
            ],
    {
        let mut actions: Vec<Action> = Vec::new();
        actions.push(Action::Store(DataKey::Admin, Value::Address(admin)));
        actions.push(Action::Store(DataKey::WasmHash, Value::Bytes(wasm_hash)));
        Invocation { context, storage: Instance { admin, wasm_hash }, actions }
    }

    /// Returns the admin address.
    ///
    /// Callable by anyone.
    ///
    /// # Auth
    /// None.
    pub fn admin(call: &Invocation) -> (admin: Address)
        ensures
            admin == call.storage.admin,
    {
        call.storage.admin
    }

    /// Returns the stored channel contract wasm hash.
    ///
    /// Callable by anyone.
    ///
    /// # Auth
    /// None.
    pub fn wasm_hash(call: &Invocation) -> (wasm_hash: [u8; 32])
        ensures
            wasm_hash == call.storage.wasm_hash,
    {
        call.storage.wasm_hash
    }

    /// Update the stored channel contract wasm hash.
    ///
    /// Callable by the admin.
    ///
    /// # Auth
    /// - `admin`: required.
    pub fn set_wasm(call: &mut Invocation, wasm_hash: [u8; 32])
        ensures
            old(call).leads_to(
                *final(call),
                wasm_set(old(call).storage, wasm_hash),
                seq![
                    Action::RequireAuth(old(call).storage.admin),
                    extend_ttl(),
                    Action::Store(DataKey::WasmHash, Value::Bytes(wasm_hash)),
                    Action::Publish(WasmSet { wasm_hash }),
                ],
            ),
    {
        // Verify the admin.
        let admin: Address = Self::admin(call);
        call.actions.push(Action::RequireAuth(admin));
        Self::extend_instance_ttl(call);
        call.storage.wasm_hash = wasm_hash;
        call.actions.push(Action::Store(DataKey::WasmHash, Value::Bytes(wasm_hash)));
        call.actions.push(Action::Publish(WasmSet { wasm_hash }));
    }

    /// Extend the lifetime (TTL) of the factory's instance storage.
    ///
    /// Callable by anyone.
    ///
    /// # Auth
    /// None.
    pub fn extend(call: &mut Invocation)
        ensures
            old(call).leads_to(*final(call), old(call).storage, seq![extend_ttl()]),
    {
        Self::extend_instance_ttl(call);
    }

    /// Deploy a new channel.
    ///
    /// `wasm_hash` must equal the factory's stored channel wasm hash. Because
    /// it is part of the invocation the funder authorizes, the funder's
    /// signature pins the exact channel implementation that gets deployed;
    /// an admin `set_wasm` between signing and submission makes the call fail
    /// instead of silently deploying different code.
    ///
    /// Callable by anyone, authorized by the funder (from).
    ///
    /// # Auth
    /// - `from`: required.
    pub fn open(
        env: &Env,
        call: &mut Invocation,
        salt: [u8; 32],
        wasm_hash: [u8; 32],
        token: Address,
        from: Address,
        commitment_key: [u8; 32],
        to: Address,
        amount: i128,
        refund_waiting_period: u32,
    ) -> (result: Result<Deployment, Error>)
        ensures
            match open_result(old(call).storage, wasm_hash) {
                Err(error) => {
                    &&& result == Err::<Deployment, Error>(error)
                    &&& old(call).leads_to(
                        *final(call),
                        old(call).storage,
                        seq![Action::RequireAuth(from)],
                    )
                },
                Ok(()) => {
                    &&& result matches Ok(channel)
                    &&& channel.deployer == old(call).context.contract
                    &&& channel.salt@ == salt_of(from, salt@)
                    &&& channel.salt@ == platform::sha256_digest(
                        platform::address_bytes_xdr(from, salt@),
                    )
                    &&& has_own_preimage(from, salt@)
                    &&& old(call).leads_to(
                        *final(call),
                        old(call).storage,
                        seq![
                            Action::RequireAuth(from),
                            extend_ttl(),
                            Action::Deploy {
                                salt: channel.salt,
                                wasm_hash,
                                args: ChannelArgs {
                                    token,
                                    from,
                                    commitment_key,
                                    to,
                                    amount,
                                    refund_waiting_period,
                                },
                            },
                        ],
                    )
                },
            },
    {
        // Authorize the funder at the factory level so that the channel
        // constructor's top_up does not require non-root authorization.
        call.actions.push(Action::RequireAuth(from));
        // The funder's authorization must name the implementation deployed.
        if !bytes_equal(&wasm_hash, &call.storage.wasm_hash) {
            return Err(Error::WasmHashMismatch);
        }
        Self::extend_instance_ttl(call);
        let preimage: Vec<u8> = platform::address_bytes_to_xdr(env, &from, &salt);
        let deployment_salt: [u8; 32] = platform::sha256(env, preimage.as_slice());
        let args = ChannelArgs { token, from, commitment_key, to, amount, refund_waiting_period };
        call.actions.push(Action::Deploy { salt: deployment_salt, wasm_hash, args });
        Ok(Deployment { deployer: call.context.contract, salt: deployment_salt })
    }

    fn extend_instance_ttl(call: &mut Invocation)
        ensures
            old(call).leads_to(*final(call), old(call).storage, seq![extend_ttl()]),
    {
        call.actions.push(Action::ExtendTtl { threshold: TTL_THRESHOLD, extend_to: TTL_EXTEND_TO });
    }
}

/// An admin who changes the wasm hash after a funder signed for the old one
/// makes the opening fail, in place of deploying different code.
pub proof fn law_changed_wasm_is_not_deployed(s: Instance, signed: [u8; 32], changed: [u8; 32])
    requires
        open_result(s, signed) is Ok,
        changed != signed,
    ensures
        open_result(wasm_set(s, changed), signed) == Err::<(), Error>(Error::WasmHashMismatch),
        open_result(wasm_set(s, changed), changed) is Ok,
{
}

/// The deployment salts of channels of different funders, or under different
/// salts, are hashed from different bytes: nobody can take the address of a
/// channel that another will fund, unless the hash collides.
pub proof fn law_funders_have_distinct_preimages(
    from: Address,
    salt: Seq<u8>,
    other: Address,
    other_salt: Seq<u8>,
)
    requires
        has_own_preimage(from, salt),
        other_salt.len() == 32,
        other != from || other_salt != salt,
    ensures
        salt_preimage(from, salt) != salt_preimage(other, other_salt),
{
}

/// Two openings have the same deployment salt if and only if the funder and the
/// whole salt are the same, or the XDR of the one pair and the XDR of the other are
/// different bytes with the same SHA-256 hash.
pub proof fn law_equal_salts_are_hash_collisions(
    from: Address,
    salt: Seq<u8>,
    other: Address,
    other_salt: Seq<u8>,
)
    requires
        has_own_preimage(from, salt),
        other_salt.len() == 32,
    ensures
        ({
            let one = platform::address_bytes_xdr(from, salt);
            let two = platform::address_bytes_xdr(other, other_salt);
            salt_of(from, salt) == salt_of(other, other_salt) <==> (from == other && salt
                == other_salt) || (one != two && platform::sha256_digest(one)
                == platform::sha256_digest(two))
        }),
{
    if other != from || other_salt != salt {
        law_funders_have_distinct_preimages(from, salt, other, other_salt);
    }
}

/// Where a funder and a salt have a preimage of their own, no other funder and salt
/// have the same XDR.
pub proof fn law_own_preimages(
    from: Address,
    salt: Seq<u8>,
    other: Address,
    other_salt: Seq<u8>,
)
    requires
        has_own_preimage(from, salt),
        other_salt.len() == 32,
    ensures
        platform::address_bytes_xdr(other, other_salt) == platform::address_bytes_xdr(from, salt)
            ==> other == from && other_salt == salt,
{
    assert(salt_preimage(other, other_salt) == platform::address_bytes_xdr(other, other_salt));
}

/// A channel may be opened if and only if the expected wasm hash is, byte for byte,
/// the stored one.
pub proof fn law_when_a_channel_may_be_opened(s: Instance, wasm_hash: [u8; 32])
    ensures
        open_result(s, wasm_hash) is Ok <==> wasm_hash == s.wasm_hash,
        open_result(s, wasm_hash) is Err ==> open_result(s, wasm_hash)->Err_0
            == Error::WasmHashMismatch,
{
}

/// To set the wasm hash leaves the admin.
pub proof fn law_setting_the_wasm_changes_nothing_else(s: Instance, wasm_hash: [u8; 32])
    ensures
        wasm_set(s, wasm_hash).wasm_hash == wasm_hash,
        wasm_set(s, wasm_hash).admin == s.admin,
{
}

/// An invocation goes on with the given storage in the same surroundings, and its
/// actions so far, in their order, are followed by the new ones and by no others.
pub proof fn law_invocation_goes_on(
    call: Invocation,
    next: Invocation,
    storage: Instance,
    actions: Seq<Action>,
)
    requires
        call.leads_to(next, storage, actions),
    ensures
        next.context == call.context,
        next.storage == storage,
        next.actions@ == call.actions@ + actions,
{
}

/// The lifetime of the storage is extended to sixty days of 17280 ledgers, once it
/// is below thirty.
pub proof fn law_lifetime_is_sixty_days()
    ensures
        extend_ttl() == (Action::ExtendTtl { threshold: 518_400, extend_to: 1_036_800 }),
{
}

} // verus!
