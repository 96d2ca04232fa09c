//! # Channel
//!
//! A unidirectional payment channel contract for Soroban (Stellar).
//!
//! A payment channel allows a funder to make many small payments to a recipient
//! off-chain, with only two on-chain transactions: opening the channel and
//! closing it. This avoids per-payment transaction fees and latency.
//!
//! ## Participants
//!
//! - **Funder (`from`)**: Deposits tokens into the channel and signs
//!   commitments authorizing the recipient to settle or close the channel
//!   and receive a given amount.
//! - **Recipient (`to`)**: Receives commitments off-chain and can settle or
//!   close the channel on-chain at any time using a signed commitment.
//!
//! ## Expectations
//!
//! Participants have the following responsibilities to receive the funds owing
//! to them.
//!
//! ### Funder
//!
//! - Keeping the private key corresponding to `commitment_key` (the commitment
//!   signing key) secret.
//!
//! ### Recipient
//!
//! - Verifies the `refund_waiting_period` at channel creation is long
//!   enough to allow them to react to a close_start event.
//! - Verifies, against the chain, that the channel was deployed by the
//!   expected factory with the expected token, `to`, and `commitment_key`,
//!   and that no close has started, before accepting any commitment.
//! - Verifies the `amount` in each commitment does not exceed the channel's
//!   `deposited` total, and that `balance` still covers `amount - withdrawn`.
//!   The contract rejects commitments beyond `deposited`, and a transfer
//!   that the balance cannot cover fails, so such a commitment is worthless.
//! - Keeps the commitment with the highest `amount`. Older commitments stay
//!   valid signatures but are useless: settlement pays the cumulative
//!   `amount` minus what was already withdrawn.
//! - Monitors the channel for [`event::Close`] events.
//! - Calls `settle` with a commitment promptly after seeing a close_start
//!   event, before the funder calls `refund`.
//!
//! ## Phases
//!
//! ```text
//! Open    -- close         --> Refunded
//! Open    -- close_start   --> Closing
//! Closing -- close         --> Refunded
//! Closing -- (wait is over) -> Closed
//! Closed  -- close, refund --> Refunded
//! ```
//!
//! `settle` can be called in any phase before Refunded. `close` can be
//! called while Open, Closing, or Closed. `top_up` can only be called while
//! Open. `refund` can be called in Closed and Refunded. The proofs in [`laws`]
//! state this of [`laws::Phase`].
//!
//! ## How an invocation runs
//!
//! An operation takes an [`Invocation`], which holds what the storage of the
//! channel contains, and lists in it the [`Action`]s that the host is to
//! perform, in order. Where an operation fails, the host performs the actions
//! listed so far, so that a missing authorization shows before the failure,
//! and then undoes them all.
//!
//! `close` and `refund` need to know what the channel holds once the tokens
//! were moved. They run in steps: each step says what to ask the host, and the
//! next one takes the answer.
//!
//! ## Lifecycle
//!
//! ### 1. Open
//!
//! The channel is deployed with a SEP-41 token, funder address, recipient
//! address, an ed25519 `commitment_key` (public key), an initial deposit
//! amount, and a `refund_waiting_period` (in ledgers).
//!
//! The funder's tokens are transferred into the channel contract on deployment.
//! The funder can also top up the channel later using [`Contract::top_up`].
//! Only these two paths count towards `deposited`, the ceiling for
//! commitments; tokens sent directly to the channel address are not deposits
//! and can only be reclaimed by the funder via `refund`.
//!
//! ### 2. Off-chain payments
//!
//! The funder makes payments by signing commitments off-chain and sending them
//! to the recipient. A commitment authorizes the recipient to settle or
//! close the channel and receive a **cumulative total** amount. A newer
//! commitment supersedes an older one only in the sense that its amount is
//! higher; the older signature remains valid but pays nothing extra.
//!
//! For example:
//! - Commitment for 100: recipient can settle or close and receive 100.
//! - Commitment for 140: recipient can settle or close and receive 140
//!   (40 more if 100 was already settled).
//!
//! The funder signs the XDR of a [`Commitment`] with the ed25519 key
//! corresponding to the `commitment_key`. Use [`Contract::prepare_commitment`]
//! as a convenience to generate the bytes to sign. They are those of an XDR
//! `ScVal::Map` with four entries (sorted alphabetically by key):
//!
//! ```text
//! ScVal::Map({
//!     Symbol("amount"):  I128(amount),
//!     Symbol("channel"): Address(channel_contract_address),
//!     Symbol("domain"):  Symbol("chancmmt"),
//!     Symbol("network"): BytesN<32>(network_id),
//! })
//! ```
//!
//! ### 3. Settle
//!
//! The recipient calls [`Contract::settle`] at any time with a commitment
//! amount and its signature. The contract verifies the signature, then
//! transfers the difference between the commitment amount and what has
//! already been withdrawn. If the commitment amount is less than or equal
//! to what has already been withdrawn, no transfer occurs.
//!
//! A commitment whose amount exceeds the channel's `deposited` total is
//! rejected outright. Nothing is transferred and nothing stays claimable:
//! the recipient must never accept a commitment beyond `deposited`.
//!
//! Settlement is all-or-nothing: if the channel's token balance ever drops
//! below what a commitment needs (for example through an issuer clawback on
//! a token with `AUTH_CLAWBACK_ENABLED`, or a fee-on-transfer token), that
//! commitment can no longer be settled. The recipient should therefore only
//! accept channels denominated in a token whose issuer it trusts and whose
//! transfers move the exact amount.
//!
//! Settlement is optional: [`Contract::close`] will also settle any unsettled
//! amount. The recipient may choose to settle periodically to receive funds
//! without closing the channel.
//!
//! ### 4. Close
//!
//! The recipient calls [`Contract::close`] with a commitment amount and its
//! signature. Like `settle`, only the difference between the commitment
//! amount and what has already been withdrawn is transferred.
//!
//! After that the remaining balance is refunded to the funder, if it can be.
//! Whether or not it can, the withdrawal stands and the channel is final: a
//! second `close` or a later `settle` is rejected. If the automatic refund
//! failed, the funder recovers the balance with [`Contract::refund`].
//!
//! ### 5. Close Start
//!
//! The funder calls [`Contract::close_start`] to begin closing the channel.
//! The close does not take effect immediately: there is a waiting period of
//! `refund_waiting_period` ledgers.
//!
//! The recipient can still call [`Contract::settle`] or [`Contract::close`]
//! during and after the waiting period. Once the waiting period has elapsed,
//! the funder can call `refund` to reclaim the remaining balance.
//!
//! ### 6. Refund
//!
//! After the refund waiting period has elapsed, the funder calls
//! [`Contract::refund`] to reclaim whatever balance remains in the channel.
//! This transfers the **entire** remaining token balance to the funder,
//! including any amount the recipient was entitled to but did not settle or
//! close for. The contract does not reserve funds for the recipient.
//!
//! Refund makes the channel final. The recipient can no longer settle or
//! close, and the funder can no longer top up, so tokens that arrive
//! afterwards belong to the funder alone and are reclaimed with a further
//! `refund`. A closing channel likewise cannot be topped up, and tokens sent
//! directly to the address never raise `deposited`, so a channel is never
//! reused after a close has started.
//!
//! ## Storage lifetime
//!
//! All channel state is stored in instance storage. State-changing functions
//! (`top_up`, `settle`, `close`, `close_start`) extend the storage TTL as a
//! side effect, and anyone can call [`Contract::extend`] to extend it
//! explicitly. A channel left idle for a long period can still have its
//! storage archived; it must then be restored before use.
//!
//! ## Security
//!
//! - Commitments are signed with an ed25519 key, not a Stellar account. The
//!   `commitment_key` is set at deployment and cannot be changed.
//! - The commitment includes a domain separator, the network ID, and the
//!   channel contract address, preventing signatures from being reused across
//!   networks, channels, or confused with other signed payloads.
//! - The refund waiting period protects the recipient: it gives them time to
//!   settle or close using their latest commitment before the funder can
//!   reclaim funds.

use vstd::prelude::*;

pub mod effects;
pub mod event;
pub mod laws;

use self::event::{Close, Deposit, Event, Open, Refund, Withdraw};
use crate::platform;
use crate::host::{Address, Context, TTL_EXTEND_TO, TTL_THRESHOLD};
use soroban_sdk::Env;

verus! {

/// The longest refund waiting period that a channel can be opened with: the
/// longest one that ends at a ledger a `u32` can count to, as ledgers are
/// counted from one.
pub const MAX_REFUND_WAITING_PERIOD: u32 = 0xffff_fffe;

/// Domain separator of the commitments.
pub const COMMITMENT_DOMAIN: &'static str = "chancmmt";

/// Why the contract refuses an operation.
#[derive(Clone, Copy, Debug, PartialEq, Eq)]
pub enum Error {
    NegativeAmount,
    NotClosed,
    RefundWaitingPeriodNotElapsed,
    AlreadyClosed,
    InsufficientDeposit,
    Refunded,
    Overflow,
    RefundWaitingPeriodTooLong,
}

impl Error {
    /// The number by which a caller of the contract sees the error.
    pub fn code(&self) -> (code: u32)
        ensures
            code == match *self {
                Error::NegativeAmount => 1u32,
                Error::NotClosed => 2u32,
                Error::RefundWaitingPeriodNotElapsed => 3u32,
                Error::AlreadyClosed => 4u32,
                Error::InsufficientDeposit => 5u32,
                Error::Refunded => 6u32,
                Error::Overflow => 7u32,
                Error::RefundWaitingPeriodTooLong => 8u32,
            },
    {
        match *self {
            Error::NegativeAmount => 1,
            Error::NotClosed => 2,
            Error::RefundWaitingPeriodNotElapsed => 3,
            Error::AlreadyClosed => 4,
            Error::InsufficientDeposit => 5,
            Error::Refunded => 6,
            Error::Overflow => 7,
            Error::RefundWaitingPeriodTooLong => 8,
        }
    }
}

/// Why a commitment is not honoured.
#[derive(Clone, Copy, Debug, PartialEq, Eq)]
pub enum Failure {
    /// The contract refuses it.
    Contract(Error),
    /// The signature is not one of the commitment under the commitment key.
    Signature,
}

/// The keys of the instance storage.
#[derive(Clone, Copy, Debug, PartialEq, Eq)]
pub enum DataKey {
    Token,
    From,
    CommitmentKey,
    To,
    RefundWaitingPeriod,
    WithdrawnAmount,
    CloseEffectiveAtLedger,
    Refunded,
    DepositedAmount,
}

/// A value of the instance storage.
#[derive(Clone, Copy, Debug, PartialEq, Eq)]
pub enum Value {
    Address(Address),
    Bytes([u8; 32]),
    I128(i128),
    U32(u32),
    Bool(bool),
}

/// The instance storage of an opened channel. The entries that the channel is
/// opened with are always there; the others are absent until first written.
#[derive(Clone, Copy, Debug, PartialEq, Eq)]
pub struct Instance {
    pub token: Address,
    pub from: Address,
    pub commitment_key: [u8; 32],
    pub to: Address,
    pub refund_waiting_period: u32,
    pub withdrawn_amount: Option<i128>,
    pub close_effective_at_ledger: Option<u32>,
    pub refunded: Option<bool>,
    pub deposited_amount: Option<i128>,
}

/// Something that the contract has the host do.
#[derive(Clone, Copy, Debug, PartialEq, Eq)]
pub enum Action {
    /// Fail unless the address authorized the invocation.
    RequireAuth(Address),
    /// Extend the TTL of the instance storage to `extend_to`, once it is below
    /// `threshold`.
    ExtendTtl { threshold: u32, extend_to: u32 },
    /// Write an entry of the instance storage.
    Store(DataKey, Value),
    /// Move tokens, and fail if they cannot be moved.
    Transfer { token: Address, from: Address, to: Address, amount: i128 },
    /// Move tokens, and carry on if they cannot be moved.
    TryTransfer { token: Address, from: Address, to: Address, amount: i128 },
    /// Publish an event.
    Publish(Event),
}

/// A question to the host: how many tokens `holder` has of `token`.
#[derive(Clone, Copy, Debug, PartialEq, Eq)]
pub struct BalanceQuery {
    pub token: Address,
    pub holder: Address,
}

/// One invocation of the contract: where it runs, what its storage holds and
/// what it has had the host do, in that order. Where an operation fails, the
/// actions are those before the failure, and the host undoes them.
pub struct Invocation {
    pub context: Context,
    pub storage: Instance,
    pub actions: Vec<Action>,
}

impl Instance {
    /// The total amount deposited into the channel.
    pub open spec fn deposited(self) -> i128 {
        match self.deposited_amount {
            Some(amount) => amount,
            None => 0,
        }
    }

    /// The total amount withdrawn by the recipient.
    pub open spec fn withdrawn(self) -> i128 {
        match self.withdrawn_amount {
            Some(amount) => amount,
            None => 0,
        }
    }

    /// Whether the channel is final.
    pub open spec fn is_refunded(self) -> bool {
        self.refunded == Some(true)
    }

    /// What holds of the storage of every channel: no more is withdrawn than
    /// was deposited, and only a closed channel is final.
    pub open spec fn wf(self) -> bool {
        &&& 0 <= self.withdrawn() <= self.deposited()
        &&& self.is_refunded() ==> self.close_effective_at_ledger is Some
        &&& self.refund_waiting_period <= MAX_REFUND_WAITING_PERIOD
    }

    /// Whether the storage is one that a channel can have.
    pub fn is_valid(&self) -> (valid: bool)
        ensures
            valid == self.wf(),
    {
        let deposited: i128 = self.deposited_amount.unwrap_or(0);
        let withdrawn: i128 = self.withdrawn_amount.unwrap_or(0);
        let refunded: bool = self.refunded.unwrap_or(false);
        0 <= withdrawn && withdrawn <= deposited && (!refunded
            || self.close_effective_at_ledger.is_some()) && self.refund_waiting_period
            <= MAX_REFUND_WAITING_PERIOD
    }

    /// What a commitment to the cumulative `amount` still pays.
    pub open spec fn payout(self, amount: i128) -> i128 {
        if amount > self.withdrawn() {
            (amount - self.withdrawn()) as i128
        } else {
            0
        }
    }
}

impl Invocation {
    /// Whether `next` is this invocation later on: with the given storage, and
    /// having had the host do `actions` since.
    pub open spec fn leads_to(
        self,
        next: Invocation,
        storage: Instance,
        actions: Seq<Action>,
    ) -> bool {
        &&& next.context == self.context
        &&& next.storage == storage
        &&& next.actions@ =~= self.actions@ + actions
    }
}

/// The extension of the storage's lifetime that the contract has the host do.
pub open spec fn extend_ttl() -> Action {
    Action::ExtendTtl { threshold: TTL_THRESHOLD, extend_to: TTL_EXTEND_TO }
}

/// Whether a deposit is accepted.
pub open spec fn top_up_result(s: Instance, amount: i128) -> Result<(), Error> {
    if amount < 0 {
        Err(Error::NegativeAmount)
    } else if s.close_effective_at_ledger is Some {
        Err(Error::AlreadyClosed)
    } else if amount > 0 && s.deposited() + amount > i128::MAX {
        Err(Error::Overflow)
    } else {
        Ok(())
    }
}

/// The storage after an accepted deposit.
pub open spec fn topped_up(s: Instance, amount: i128) -> Instance {
    if amount > 0 {
        Instance { deposited_amount: Some((s.deposited() + amount) as i128), ..s }
    } else {
        s
    }
}

/// What a deposit has the host do.
pub open spec fn top_up_actions(s: Instance, contract: Address, amount: i128) -> Seq<Action> {
    match top_up_result(s, amount) {
        Err(Error::Overflow) => seq![Action::RequireAuth(s.from), extend_ttl()],
        Err(_) => seq![],
        Ok(()) => if amount > 0 {
            seq![
                Action::RequireAuth(s.from),
                extend_ttl(),
                Action::Store(
                    DataKey::DepositedAmount,
                    Value::I128((s.deposited() + amount) as i128),
                ),
                Action::Transfer { token: s.token, from: s.from, to: contract, amount },
                Action::Publish(Event::Deposit(Deposit { from: s.from, amount })),
            ]
        } else {
            seq![Action::RequireAuth(s.from), extend_ttl()]
        },
    }
}

/// Whether the recipient may present a commitment at all.
pub open spec fn admission(s: Instance, amount: i128) -> Result<(), Error> {
    if amount < 0 {
        Err(Error::NegativeAmount)
    } else if s.is_refunded() {
        Err(Error::Refunded)
    } else {
        Ok(())
    }
}

/// Whether a commitment that may be presented is honoured, `valid` saying
/// whether its signature is.
pub open spec fn commitment_result(s: Instance, amount: i128, valid: bool) -> Result<(), Failure> {
    if !valid {
        Err(Failure::Signature)
    } else if amount > s.deposited() {
        Err(Failure::Contract(Error::InsufficientDeposit))
    } else {
        Ok(())
    }
}

/// Whether a presented commitment is honoured, `valid` saying whether its
/// signature is.
pub open spec fn settle_result(s: Instance, amount: i128, valid: bool) -> Result<(), Failure> {
    match admission(s, amount) {
        Err(error) => Err(Failure::Contract(error)),
        Ok(()) => commitment_result(s, amount, valid),
    }
}

/// The storage after a commitment to `amount` was paid out.
pub open spec fn settled(s: Instance, amount: i128) -> Instance {
    if amount > s.withdrawn() {
        Instance { withdrawn_amount: Some(amount), ..s }
    } else {
        s
    }
}

/// What paying out a commitment has the host do.
pub open spec fn payout_actions(s: Instance, contract: Address, amount: i128) -> Seq<Action> {
    if amount > s.withdrawn() {
        seq![
            Action::Store(DataKey::WithdrawnAmount, Value::I128(amount)),
            Action::Transfer { token: s.token, from: contract, to: s.to, amount: s.payout(amount) },
            Action::Publish(Event::Withdraw(Withdraw { to: s.to, amount: s.payout(amount) })),
        ]
    } else {
        seq![]
    }
}

/// What honouring or refusing a commitment has the host do, once the recipient
/// is known.
pub open spec fn commitment_actions(
    s: Instance,
    contract: Address,
    amount: i128,
    valid: bool,
) -> Seq<Action> {
    match commitment_result(s, amount, valid) {
        Err(Failure::Signature) => seq![],
        Err(Failure::Contract(_)) => seq![extend_ttl()],
        Ok(()) => seq![extend_ttl()] + payout_actions(s, contract, amount),
    }
}

/// What a settlement has the host do.
pub open spec fn settle_actions(
    s: Instance,
    contract: Address,
    amount: i128,
    valid: bool,
) -> Seq<Action> {
    match admission(s, amount) {
        Err(_) => seq![],
        Ok(()) => seq![Action::RequireAuth(s.to)] + commitment_actions(s, contract, amount, valid),
    }
}

/// Whether the channel is closed in the ledger `sequence`.
pub open spec fn is_closed_at(s: Instance, sequence: u32) -> bool {
    s.close_effective_at_ledger matches Some(effective) && effective <= sequence
}

/// The storage after the channel was closed in the ledger `sequence`.
pub open spec fn closed(s: Instance, sequence: u32) -> Instance {
    if is_closed_at(s, sequence) {
        s
    } else {
        Instance { close_effective_at_ledger: Some(sequence), ..s }
    }
}

/// What closing the channel in the ledger `sequence` has the host do.
pub open spec fn closing_actions(s: Instance, sequence: u32) -> Seq<Action> {
    if is_closed_at(s, sequence) {
        seq![]
    } else {
        seq![
            Action::Store(DataKey::CloseEffectiveAtLedger, Value::U32(sequence)),
            Action::Publish(Event::Close(Close { effective_at_ledger: sequence })),
        ]
    }
}

/// Whether the channel is closed by a commitment, `valid` saying whether its
/// signature is, and what the host is then asked.
pub open spec fn close_result(s: Instance, contract: Address, amount: i128, valid: bool) -> Result<
    BalanceQuery,
    Failure,
> {
    match settle_result(s, amount, valid) {
        Ok(()) => Ok(balance_query(s, contract)),
        Err(failure) => Err(failure),
    }
}

/// What the first step of a close has the host do.
pub open spec fn close_actions(
    s: Instance,
    contract: Address,
    sequence: u32,
    amount: i128,
    valid: bool,
) -> Seq<Action> {
    settle_actions(s, contract, amount, valid) + if settle_result(s, amount, valid) is Ok {
        closing_actions(settled(s, amount), sequence)
    } else {
        seq![]
    }
}

/// The storage once the channel is final.
pub open spec fn finalized(s: Instance) -> Instance {
    Instance { refunded: Some(true), ..s }
}

/// What the second step of a close has the host do, `balance` being what is
/// left in the channel.
pub open spec fn close_balance_actions(
    s: Instance,
    contract: Address,
    balance: i128,
) -> Seq<Action> {
    let store = Action::Store(DataKey::Refunded, Value::Bool(true));
    if balance > 0 {
        seq![
            store,
            Action::TryTransfer { token: s.token, from: contract, to: s.from, amount: balance },
        ]
    } else {
        seq![store]
    }
}

/// The ledger in which a close that starts in the ledger `sequence` takes
/// effect.
pub open spec fn effective_ledger(sequence: u32, refund_waiting_period: u32) -> u32 {
    if sequence + refund_waiting_period > u32::MAX {
        u32::MAX
    } else {
        (sequence + refund_waiting_period) as u32
    }
}

/// Whether a close may start in the ledger `sequence`.
pub open spec fn close_start_result(s: Instance, sequence: u32) -> Result<(), Error> {
    if is_closed_at(s, sequence) {
        Err(Error::AlreadyClosed)
    } else {
        Ok(())
    }
}

/// The storage after a close started in the ledger `sequence`.
pub open spec fn close_started(s: Instance, sequence: u32) -> Instance {
    Instance {
        close_effective_at_ledger: Some(effective_ledger(sequence, s.refund_waiting_period)),
        ..s
    }
}

/// What starting a close has the host do.
pub open spec fn close_start_actions(s: Instance, sequence: u32) -> Seq<Action> {
    let effective_at_ledger = effective_ledger(sequence, s.refund_waiting_period);
    if is_closed_at(s, sequence) {
        seq![]
    } else {
        seq![
            Action::RequireAuth(s.from),
            extend_ttl(),
            Action::Store(DataKey::CloseEffectiveAtLedger, Value::U32(effective_at_ledger)),
            Action::Publish(Event::Close(Close { effective_at_ledger })),
        ]
    }
}

/// Whether the funder may be refunded in the ledger `sequence`.
pub open spec fn refund_result(s: Instance, sequence: u32) -> Result<(), Error> {
    if s.close_effective_at_ledger is None {
        Err(Error::NotClosed)
    } else if !is_closed_at(s, sequence) {
        Err(Error::RefundWaitingPeriodNotElapsed)
    } else {
        Ok(())
    }
}

/// What the first step of a refund has the host do.
pub open spec fn refund_actions(s: Instance, sequence: u32) -> Seq<Action> {
    if refund_result(s, sequence) is Ok {
        seq![
            Action::RequireAuth(s.from),
            Action::Store(DataKey::Refunded, Value::Bool(true)),
        ]
    } else {
        seq![]
    }
}

/// What the second step of a refund has the host do, `balance` being what is
/// left in the channel.
pub open spec fn refund_balance_actions(
    s: Instance,
    contract: Address,
    balance: i128,
) -> Seq<Action> {
    if balance > 0 {
        seq![
            Action::Transfer { token: s.token, from: contract, to: s.from, amount: balance },
            Action::Publish(Event::Refund(Refund { from: s.from, amount: balance })),
        ]
    } else {
        seq![]
    }
}

/// A promise of the funder: the recipient may withdraw the cumulative total
/// `amount` from the channel.
#[derive(Clone, Copy, Debug, PartialEq, Eq)]
pub struct Commitment {
    domain: &'static str,
    network: [u8; 32],
    channel: Address,
    amount: i128,
}

/// What a commitment says: which total may be withdrawn, from which channel, on
/// which network.
pub struct CommitmentView {
    pub network: Seq<u8>,
    pub channel: Address,
    pub amount: i128,
}

impl View for Commitment {
    type V = CommitmentView;

    closed spec fn view(&self) -> CommitmentView {
        CommitmentView { network: self.network@, channel: self.channel, amount: self.amount }
    }
}

/// The bytes that a commitment of the given channel is signed over: the XDR of a
/// map with the entries `amount`, `channel`, `domain` and `network`.
pub open spec fn commitment_bytes(network: Seq<u8>, channel: Address, amount: i128) -> Seq<u8> {
    platform::map_xdr(
        ("amount"@, amount),
        ("channel"@, channel),
        ("domain"@, COMMITMENT_DOMAIN@),
        ("network"@, network),
    )
}

/// Whether `bytes` are those of the given commitment and of nothing else: not of
/// one to another amount, of another channel or on another network, nor of a
/// payload like it under another domain or with other keys.
pub open spec fn identifies(
    bytes: Seq<u8>,
    network: Seq<u8>,
    channel: Address,
    amount: i128,
) -> bool {
    &&& bytes == commitment_bytes(network, channel, amount)
    &&& forall|
        number: (Seq<char>, i128),
        address: (Seq<char>, Address),
        symbol: (Seq<char>, Seq<char>),
        data: (Seq<char>, Seq<u8>),
    |
        platform::is_map(number, address, symbol, data) && #[trigger] platform::map_xdr(
            number,
            address,
            symbol,
            data,
        ) == bytes ==> {
            &&& number == ("amount"@, amount)
            &&& address == ("channel"@, channel)
            &&& symbol == ("domain"@, COMMITMENT_DOMAIN@)
            &&& data == ("network"@, network)
        }
}

/// Whether `signature` is one of the commitment to `amount` of the channel that
/// runs in `context`.
pub open spec fn is_signed(s: Instance, context: Context, amount: i128, signature: Seq<u8>) -> bool {
    platform::ed25519_valid(
        s.commitment_key@,
        commitment_bytes(context.network_id@, context.contract, amount),
        signature,
    )
}

pub(crate) proof fn lemma_commitment_is_map(network: Seq<u8>, channel: Address, amount: i128)
    requires
        network.len() == 32,
    ensures
        platform::is_map(
            ("amount"@, amount),
            ("channel"@, channel),
            ("domain"@, COMMITMENT_DOMAIN@),
            ("network"@, network),
        ),
{
    reveal_strlit("amount");
    reveal_strlit("channel");
    reveal_strlit("domain");
    reveal_strlit("network");
    reveal_strlit("chancmmt");
    assert("amount"@[0] != "domain"@[0]);
    assert("channel"@[0] != "network"@[0]);
}

impl Commitment {
    #[verifier::type_invariant]
    spec fn has_domain(self) -> bool {
        self.domain@ == COMMITMENT_DOMAIN@
    }

    /// The commitment to the cumulative total `amount` of a channel on a
    /// network.
    pub fn new(network: [u8; 32], channel: Address, amount: i128) -> (commitment: Self)
        ensures
            commitment@ == (CommitmentView { network: network@, channel, amount }),
    {
        Commitment { domain: COMMITMENT_DOMAIN, network, channel, amount }
    }

    /// The bytes that the commitment is signed over.
    pub fn into_bytes(&self, env: &Env) -> (bytes: Vec<u8>)
        ensures
            identifies(bytes@, self@.network, self@.channel, self@.amount),
    {
        proof {
            use_type_invariant(self);
            lemma_commitment_is_map(self.network@, self.channel, self.amount);
        }
        platform::map_to_xdr(
            env,
            ("amount", self.amount),
            ("channel", &self.channel),
            ("domain", self.domain),
            ("network", &self.network),
        )
    }

    /// Whether `sig` is a signature of the commitment under `commitment_key`.
    pub fn verify(self, env: &Env, commitment_key: &[u8; 32], sig: &[u8; 64]) -> (valid: bool)
        ensures
            valid == platform::ed25519_valid(
                commitment_key@,
                commitment_bytes(self@.network, self@.channel, self@.amount),
                sig@,
            ),
    {
        let payload: Vec<u8> = self.into_bytes(env);
        platform::ed25519_verify(commitment_key, payload.as_slice(), sig)
    }
}

/// The channel contract.
pub struct Contract;

impl Contract {
    /// Open a channel by depositing tokens from the funder to the contract.
    ///
    /// - `token`: The SEP-41 token used for payments.
    /// - `from`: The funder who deposits tokens into the channel.
    /// - `commitment_key`: The ed25519 public key used to verify commitment
    ///   signatures. See `prepare_commitment` for details on
    ///   commitments.
    /// - `to`: The recipient who can settle or close the channel using
    ///   signed commitments.
    /// - `amount`: The initial deposit amount.
    /// - `refund_waiting_period`: The number of ledgers the recipient has to
    ///   close after `close_start` is called, before `refund`
    ///   becomes available. This value should be large enough to give the
    ///   recipient time to observe a close event and submit a close,
    ///   otherwise the recipient may not accept the channel. However, it
    ///   should not be so large that the funder cannot reclaim funds in a
    ///   timely manner, and is at most [`MAX_REFUND_WAITING_PERIOD`]. Setting
    ///   zero or a very low number results in near-immediate refunds, which is
    ///   almost certainly not useful for either participant.
    ///
    /// Callable by the deployer.
    ///
    /// # Auth
    /// - `from`: required.
    pub fn __constructor(
        context: Context,
        token: Address,
        from: Address,
        commitment_key: [u8; 32],
        to: Address,
        amount: i128,
        refund_waiting_period: u32,
    ) -> (result: Result<Invocation, Error>)
        ensures
            match result {
                Err(Error::NegativeAmount) => amount < 0,
                Err(Error::RefundWaitingPeriodTooLong) => {
                    &&& amount >= 0
                    &&& refund_waiting_period > MAX_REFUND_WAITING_PERIOD
                },
                Err(_) => false,
                Ok(call) => {
                    let blank = blank(token, from, commitment_key, to, refund_waiting_period);
                    &&& amount >= 0
                    &&& refund_waiting_period <= MAX_REFUND_WAITING_PERIOD
                    &&& call.context == context
                    &&& call.storage == topped_up(blank, amount)
                    &&& call.actions@ == seq![
                        Action::Store(DataKey::Token, Value::Address(token)),
                        Action::Store(DataKey::From, Value::Address(from)),
                        Action::Store(DataKey::CommitmentKey, Value::Bytes(commitment_key)),
                        Action::Store(DataKey::To, Value::Address(to)),
                        Action::Store(
                            DataKey::RefundWaitingPeriod,
                            Value::U32(refund_waiting_period),
                        ),
                    ] + top_up_actions(blank, context.contract, amount) + seq![
                        Action::Publish(
                            Event::Open(
                                Open {
                                    from,
                                    commitment_key,
                                    to,
                                    token,
                                    amount,
                                    refund_waiting_period,
                                },
                            ),
                        ),
                    ]
                    &&& call.storage.wf()
                },
            },
    {
        if amount < 0 {
            return Err(Error::NegativeAmount);
        }
        if refund_waiting_period > MAX_REFUND_WAITING_PERIOD {
            return Err(Error::RefundWaitingPeriodTooLong);
        }
        // Store channel configuration.
        let mut actions: Vec<Action> = Vec::new();
        actions.push(Action::Store(DataKey::Token, Value::Address(token)));
        actions.push(Action::Store(DataKey::From, Value::Address(from)));
        actions.push(Action::Store(DataKey::CommitmentKey, Value::Bytes(commitment_key)));
        actions.push(Action::Store(DataKey::To, Value::Address(to)));
        actions.push(
            Action::Store(DataKey::RefundWaitingPeriod, Value::U32(refund_waiting_period)),
        );
        let storage = Instance {
            token,
            from,
            commitment_key,
            to,
            refund_waiting_period,
            withdrawn_amount: None,
            close_effective_at_ledger: None,
            refunded: None,
            deposited_amount: None,
        };
        let mut call = Invocation { context, storage, actions };
        // Deposit initial funds.
        if let Err(error) = Self::top_up(&mut call, amount) {
            return Err(error);
        }
        call.actions.push(
            Action::Publish(
                Event::Open(
                    Open { from, commitment_key, to, token, amount, refund_waiting_period },
                ),
            ),
        );
        Ok(call)
    }

    /// Top up the channel by transferring the amount of the channels token from the funder (from
    /// address).
    ///
    /// Only deposits made through this function (and the constructor) count
    /// towards `deposited`, the ceiling for commitments. Tokens transferred
    /// directly to the channel address are not deposits: the recipient can
    /// never claim them and the funder reclaims them via `refund`.
    ///
    /// Fails once `close` or `close_start` has been called: a closing or
    /// closed channel cannot be reused, because the recipient would have no
    /// challenge window against a refund.
    ///
    /// Callable by funder (from).
    ///
    /// # Auth
    /// - `from`: required.
    pub fn top_up(call: &mut Invocation, amount: i128) -> (result: Result<(), Error>)
        ensures
            result == top_up_result(old(call).storage, amount),
            old(call).leads_to(
                *final(call),
                if result is Ok {
                    topped_up(old(call).storage, amount)
                } else {
                    old(call).storage
                },
                top_up_actions(old(call).storage, old(call).context.contract, amount),
            ),
            old(call).storage.wf() ==> final(call).storage.wf(),
    {
        if amount < 0 {
            return Err(Error::NegativeAmount);
        }
        if Self::close_effective_at_ledger(call).is_some() {
            return Err(Error::AlreadyClosed);
        }
        let from: Address = Self::from(call);
        call.actions.push(Action::RequireAuth(from));
        Self::extend_instance_ttl(call);
        if amount > 0 {
            // Record the deposit, then transfer tokens from the funder to the channel.
            let deposited: i128 = match Self::deposited(call).checked_add(amount) {
                Some(deposited) => deposited,
                None => return Err(Error::Overflow),
            };
            call.storage.deposited_amount = Some(deposited);
            call.actions.push(Action::Store(DataKey::DepositedAmount, Value::I128(deposited)));
            call.actions.push(
                Action::Transfer {
                    token: Self::token(call),
                    from,
                    to: call.context.contract,
                    amount,
                },
            );
            call.actions.push(Action::Publish(Event::Deposit(Deposit { from, amount })));
        }
        Ok(())
    }

    /// Extend the lifetime (TTL) of the channel's instance storage, so that
    /// a long-lived channel is not archived while in use. Extension also
    /// happens as a side effect of `top_up`, `settle`, `close`, and
    /// `close_start`.
    ///
    /// Callable by anyone.
    ///
    /// # Auth
    /// None.
    pub fn extend(call: &mut Invocation)
        ensures
            old(call).leads_to(*final(call), old(call).storage, seq![extend_ttl()]),
    {
        Self::extend_instance_ttl(call);
    }

    /// Returns the token address.
    ///
    /// Callable by anyone.
    ///
    /// # Auth
    /// None.
    pub fn token(call: &Invocation) -> (token: Address)
        ensures
            token == call.storage.token,
    {
        call.storage.token
    }

    /// Returns the funder address.
    ///
    /// Callable by anyone.
    ///
    /// # Auth
    /// None.
    pub fn from(call: &Invocation) -> (from: Address)
        ensures
            from == call.storage.from,
    {
        call.storage.from
    }

    /// Returns the recipient address.
    ///
    /// Callable by anyone.
    ///
    /// # Auth
    /// None.
    pub fn to(call: &Invocation) -> (to: Address)
        ensures
            to == call.storage.to,
    {
        call.storage.to
    }

    /// Returns the ed25519 public key that commitments are verified with.
    ///
    /// Callable by anyone.
    ///
    /// # Auth
    /// None.
    pub fn commitment_key(call: &Invocation) -> (commitment_key: [u8; 32])
        ensures
            commitment_key == call.storage.commitment_key,
    {
        call.storage.commitment_key
    }

    /// Returns the refund waiting period in ledgers.
    ///
    /// Callable by anyone.
    ///
    /// # Auth
    /// None.
    pub fn refund_waiting_period(call: &Invocation) -> (refund_waiting_period: u32)
        ensures
            refund_waiting_period == call.storage.refund_waiting_period,
    {
        call.storage.refund_waiting_period
    }

    /// Returns the ledger from which on the channel is closed, once a close
    /// has started.
    ///
    /// Callable by anyone.
    ///
    /// # Auth
    /// None.
    pub fn close_effective_at_ledger(call: &Invocation) -> (effective_at_ledger: Option<u32>)
        ensures
            effective_at_ledger == call.storage.close_effective_at_ledger,
    {
        call.storage.close_effective_at_ledger
    }

    /// Returns what to ask the host for the token balance held by the channel
    /// contract.
    ///
    /// Callable by anyone.
    ///
    /// # Auth
    /// None.
    pub fn balance(call: &Invocation) -> (query: BalanceQuery)
        ensures
            query == balance_query(call.storage, call.context.contract),
    {
        BalanceQuery { token: Self::token(call), holder: call.context.contract }
    }

    /// Returns the total amount deposited into the channel through the
    /// constructor and `top_up`. This is the ceiling for commitments.
    ///
    /// Tokens transferred directly to the channel address do not count: they
    /// cannot be claimed by the recipient and are only reclaimable by the
    /// funder via `refund`.
    ///
    /// Callable by anyone.
    ///
    /// # Auth
    /// None.
    pub fn deposited(call: &Invocation) -> (deposited: i128)
        ensures
            deposited == call.storage.deposited(),
    {
        call.storage.deposited_amount.unwrap_or(0)
    }

    /// Returns the total amount already withdrawn by the recipient via
    /// `settle` or `close`.
    ///
    /// Callable by anyone.
    ///
    /// # Auth
    /// None.
    pub fn withdrawn(call: &Invocation) -> (withdrawn: i128)
        ensures
            withdrawn == call.storage.withdrawn(),
    {
        call.storage.withdrawn_amount.unwrap_or(0)
    }

    /// Returns the XDR serialized bytes of a commitment for the given amount.
    ///
    /// The returned bytes must be signed by the ed25519 key corresponding to
    /// the `commitment_key` stored in the channel. The resulting signature,
    /// along with the amount, can be passed to `settle` or `close` by the
    /// recipient.
    ///
    /// Commitments are typically prepared off-chain. This function is provided
    /// as a convenience.
    ///
    /// Callable by anyone.
    ///
    /// # Auth
    /// None.
    pub fn prepare_commitment(env: &Env, call: &Invocation, amount: i128) -> (result: Result<
        Vec<u8>,
        Error,
    >)
        ensures
            match result {
                Ok(bytes) => {
                    &&& amount >= 0
                    &&& identifies(
                        bytes@,
                        call.context.network_id@,
                        call.context.contract,
                        amount,
                    )
                },
                Err(error) => amount < 0 && error == Error::NegativeAmount,
            },
    {
        if amount < 0 {
            return Err(Error::NegativeAmount);
        }
        let commitment = Commitment::new(call.context.network_id, call.context.contract, amount);
        Ok(commitment.into_bytes(env))
    }

    /// Settle funds to the recipient using a signed commitment without closing
    /// the channel. The amount is the cumulative total the recipient is
    /// entitled to. Only the difference between the amount and what has already
    /// been withdrawn is transferred.
    ///
    /// The recipient does not need to settle after every commitment. They can
    /// accumulate multiple commitments and settle using only the latest
    /// (highest amount) commitment.
    ///
    /// If an older commitment with a lower amount is used after a higher amount
    /// has already been withdrawn, no funds are transferred.
    ///
    /// Fails if the amount exceeds the total deposited into the channel
    /// (`deposited`): a commitment is only valid up to what is on chain.
    ///
    /// Can be called after `close_start`, up until the funder calls
    /// [`Contract::refund`]; after a refund or a `close` the channel is final
    /// and settle fails.
    ///
    /// Callable by the recipient (to).
    ///
    /// # Auth
    /// - `to`: required.
    /// - Commitment signature serves as commitment_key authorization.
    pub fn settle(env: &Env, call: &mut Invocation, amount: i128, sig: &[u8; 64]) -> (result:
        Result<(), Failure>)
        requires
            old(call).storage.withdrawn() >= 0,
        ensures
            ({
                let s = old(call).storage;
                let valid = is_signed(s, old(call).context, amount, sig@);
                &&& result == settle_result(s, amount, valid)
                &&& old(call).leads_to(
                    *final(call),
                    if result is Ok {
                        settled(s, amount)
                    } else {
                        s
                    },
                    settle_actions(s, old(call).context.contract, amount, valid),
                )
            }),
            old(call).storage.wf() ==> final(call).storage.wf(),
    {
        if let Err(error) = Self::receive(call, amount) {
            return Err(Failure::Contract(error));
        }
        // Verify the commitment signature.
        let commitment = Commitment::new(call.context.network_id, call.context.contract, amount);
        let valid: bool = commitment.verify(env, &call.storage.commitment_key, sig);
        Self::settle_committed(call, amount, valid)
    }

    /// Settle a commitment that the recipient presented to a channel that is not
    /// final, `valid` saying whether its signature is.
    pub fn settle_committed(call: &mut Invocation, amount: i128, valid: bool) -> (result: Result<
        (),
        Failure,
    >)
        requires
            old(call).storage.withdrawn() >= 0,
            !old(call).storage.is_refunded(),
            amount >= 0,
        ensures
            result == commitment_result(old(call).storage, amount, valid),
            old(call).leads_to(
                *final(call),
                if result is Ok {
                    settled(old(call).storage, amount)
                } else {
                    old(call).storage
                },
                commitment_actions(
                    old(call).storage,
                    old(call).context.contract,
                    amount,
                    valid,
                ),
            ),
            old(call).storage.wf() ==> final(call).storage.wf(),
    {
        if !valid {
            return Err(Failure::Signature);
        }
        Self::extend_instance_ttl(call);
        // Transfer only the difference from what has already been withdrawn.
        let to: Address = Self::to(call);
        match Self::withdraw(call, to, amount) {
            Ok(()) => Ok(()),
            Err(error) => Err(Failure::Contract(error)),
        }
    }

    /// Close the channel using a signed commitment, withdrawing funds to the
    /// recipient. The amount is the cumulative total the recipient is entitled
    /// to. Only the difference between the amount and what has already been
    /// withdrawn is transferred. Fails if the amount exceeds the total
    /// deposited into the channel (`deposited`).
    ///
    /// After transferring, the remaining balance is refunded to the funder as
    /// far as that is possible: the host answers the returned query, once it
    /// has done the actions, and the close goes on with
    /// [`Contract::close_balance`]. This refund attempt will silently succeed
    /// or fail without affecting the withdrawal. If the automatic refund fails,
    /// the funder can call [`Contract::refund`] to reclaim the remaining
    /// balance. Either way the channel is final after `close`, exactly as after
    /// [`Contract::refund`].
    ///
    /// Can be called while the channel is open or closing, but only once:
    /// after `close` or `refund` the channel is final and close fails.
    ///
    /// Callable by the recipient (to).
    ///
    /// # Auth
    /// - `to`: required.
    /// - Commitment signature serves as commitment_key authorization.
    pub fn close(env: &Env, call: &mut Invocation, amount: i128, sig: &[u8; 64]) -> (result: Result<
        BalanceQuery,
        Failure,
    >)
        requires
            old(call).storage.withdrawn() >= 0,
        ensures
            ({
                let s = old(call).storage;
                let context = old(call).context;
                let valid = is_signed(s, context, amount, sig@);
                &&& result == close_result(s, context.contract, amount, valid)
                &&& old(call).leads_to(
                    *final(call),
                    if result is Ok {
                        closed(settled(s, amount), context.sequence)
                    } else {
                        s
                    },
                    close_actions(s, context.contract, context.sequence, amount, valid),
                )
            }),
            old(call).storage.wf() ==> final(call).storage.wf(),
    {
        if let Err(error) = Self::receive(call, amount) {
            return Err(Failure::Contract(error));
        }
        // Verify the commitment signature.
        let commitment = Commitment::new(call.context.network_id, call.context.contract, amount);
        let valid: bool = commitment.verify(env, &call.storage.commitment_key, sig);
        Self::close_committed(call, amount, valid)
    }

    /// Close a channel that is not final with a commitment that the recipient
    /// presented, `valid` saying whether its signature is.
    pub fn close_committed(call: &mut Invocation, amount: i128, valid: bool) -> (result: Result<
        BalanceQuery,
        Failure,
    >)
        requires
            old(call).storage.withdrawn() >= 0,
            !old(call).storage.is_refunded(),
            amount >= 0,
        ensures
            ({
                let s = old(call).storage;
                let context = old(call).context;
                &&& match commitment_result(s, amount, valid) {
                    Ok(()) => result == Ok::<BalanceQuery, Failure>(
                        balance_query(s, context.contract),
                    ),
                    Err(failure) => result == Err::<BalanceQuery, Failure>(failure),
                }
                &&& old(call).leads_to(
                    *final(call),
                    if result is Ok {
                        closed(settled(s, amount), context.sequence)
                    } else {
                        s
                    },
                    commitment_actions(s, context.contract, amount, valid) + if result is Ok {
                        closing_actions(settled(s, amount), context.sequence)
                    } else {
                        seq![]
                    },
                )
            }),
            old(call).storage.wf() ==> final(call).storage.wf(),
    {
        if let Err(failure) = Self::settle_committed(call, amount, valid) {
            return Err(failure);
        }
        // Mark the channel as closed immediately if not already closed, or
        // resolve a pending close_start by setting the effective ledger to now.
        // If already effective, don't change it, the channel is already
        // effectively closed, and this close is just withdrawing and
        // refunding.
        let effective_at_ledger: u32 = call.context.sequence;
        let already_effective: bool = match Self::close_effective_at_ledger(call) {
            Some(l) => l <= effective_at_ledger,
            None => false,
        };
        if !already_effective {
            call.storage.close_effective_at_ledger = Some(effective_at_ledger);
            call.actions.push(
                Action::Store(DataKey::CloseEffectiveAtLedger, Value::U32(effective_at_ledger)),
            );
            call.actions.push(Action::Publish(Event::Close(Close { effective_at_ledger })));
        }
        Ok(Self::balance(call))
    }

    /// Go on with a close: `balance` is what is left in the channel after the
    /// withdrawal. Makes the channel final and attempts to refund the balance
    /// to the funder.
    ///
    /// Returns the amount whose refund is attempted, if there is anything to
    /// refund: the close then ends with [`Contract::close_refunded`].
    pub fn close_balance(call: &mut Invocation, balance: i128) -> (attempt: Option<i128>)
        ensures
            attempt == if balance > 0 {
                Some(balance)
            } else {
                None
            },
            old(call).leads_to(
                *final(call),
                finalized(old(call).storage),
                close_balance_actions(
                    old(call).storage,
                    old(call).context.contract,
                    balance,
                ),
            ),
            old(call).storage.wf() && old(call).storage.close_effective_at_ledger is Some
                ==> final(call).storage.wf(),
    {
        let from: Address = Self::from(call);
        // The channel is final from here on. If the automatic refund fails
        // the funder recovers the balance with `refund`.
        call.storage.refunded = Some(true);
        call.actions.push(Action::Store(DataKey::Refunded, Value::Bool(true)));
        if balance > 0 {
            call.actions.push(
                Action::TryTransfer {
                    token: Self::token(call),
                    from: call.context.contract,
                    to: from,
                    amount: balance,
                },
            );
            return Some(balance);
        }
        None
    }

    /// End a close: `transferred` says whether the attempt to refund `balance`
    /// succeeded.
    pub fn close_refunded(call: &mut Invocation, balance: i128, transferred: bool)
        ensures
            old(call).leads_to(
                *final(call),
                old(call).storage,
                if transferred {
                    seq![
                        Action::Publish(
                            Event::Refund(
                                Refund { from: old(call).storage.from, amount: balance },
                            ),
                        ),
                    ]
                } else {
                    seq![]
                },
            ),
    {
        if transferred {
            let from: Address = Self::from(call);
            call.actions.push(Action::Publish(Event::Refund(Refund { from, amount: balance })));
        }
    }

    /// Begin closing the channel, effective after a waiting period. The
    /// recipient can still settle or close during and after the waiting
    /// period. After the close is effective, the funder can call refund to
    /// reclaim the remaining balance.
    ///
    /// **Important:** The recipient should settle or close whenever they see
    /// a [`event::Close`], before the funder calls `refund`.
    ///
    /// Callable by the funder (from).
    ///
    /// # Auth
    /// - `from`: required.
    pub fn close_start(call: &mut Invocation) -> (result: Result<(), Error>)
        ensures
            result == close_start_result(old(call).storage, old(call).context.sequence),
            result is Ok ==> {
                let end = old(call).context.sequence + old(call).storage.refund_waiting_period;
                final(call).storage.close_effective_at_ledger == Some(
                    if end > u32::MAX {
                        u32::MAX
                    } else {
                        end as u32
                    },
                )
            },
            old(call).leads_to(
                *final(call),
                if result is Ok {
                    close_started(old(call).storage, old(call).context.sequence)
                } else {
                    old(call).storage
                },
                close_start_actions(old(call).storage, old(call).context.sequence),
            ),
            old(call).storage.wf() ==> final(call).storage.wf(),
    {
        // Reject if the close effective ledger has already been reached.
        if let Some(effective_at_ledger) = Self::close_effective_at_ledger(call) {
            if call.context.sequence >= effective_at_ledger {
                return Err(Error::AlreadyClosed);
            }
        }
        // Verify the funder.
        let from: Address = Self::from(call);
        call.actions.push(Action::RequireAuth(from));
        Self::extend_instance_ttl(call);
        // Set the close effective ledger.
        let refund_waiting_period: u32 = Self::refund_waiting_period(call);
        let effective_at_ledger: u32 = call.context.sequence.saturating_add(refund_waiting_period);
        call.storage.close_effective_at_ledger = Some(effective_at_ledger);
        call.actions.push(
            Action::Store(DataKey::CloseEffectiveAtLedger, Value::U32(effective_at_ledger)),
        );
        call.actions.push(Action::Publish(Event::Close(Close { effective_at_ledger })));
        Ok(())
    }

    /// Refund the remaining balance to the funder after the close is effective.
    /// The host answers the returned query, once it has done the actions, and
    /// the refund goes on with [`Contract::refund_balance`].
    ///
    /// Makes the channel final: the recipient can no longer settle or close,
    /// so any tokens that arrive afterwards belong to the funder alone.
    ///
    /// Can be called multiple times. This is useful if the funder accidentally
    /// transfers additional tokens to the channel after closing — they can
    /// call refund again to reclaim the additional balance.
    ///
    /// Callable by the funder (from), after the close effective_at_ledger has
    /// been reached.
    ///
    /// # Auth
    /// - `from`: required.
    pub fn refund(call: &mut Invocation) -> (result: Result<BalanceQuery, Error>)
        ensures
            match refund_result(old(call).storage, old(call).context.sequence) {
                Ok(()) => result == Ok::<BalanceQuery, Error>(
                    balance_query(old(call).storage, old(call).context.contract),
                ),
                Err(error) => result == Err::<BalanceQuery, Error>(error),
            },
            old(call).leads_to(
                *final(call),
                if result is Ok {
                    finalized(old(call).storage)
                } else {
                    old(call).storage
                },
                refund_actions(old(call).storage, old(call).context.sequence),
            ),
            old(call).storage.wf() ==> final(call).storage.wf(),
    {
        // Verify the close is effective.
        let effective_at_ledger: u32 = match Self::close_effective_at_ledger(call) {
            Some(effective_at_ledger) => effective_at_ledger,
            None => return Err(Error::NotClosed),
        };
        if call.context.sequence < effective_at_ledger {
            return Err(Error::RefundWaitingPeriodNotElapsed);
        }
        // Verify the funder.
        let from: Address = Self::from(call);
        call.actions.push(Action::RequireAuth(from));
        // The channel is final from here on, whether or not there is a
        // balance to transfer.
        call.storage.refunded = Some(true);
        call.actions.push(Action::Store(DataKey::Refunded, Value::Bool(true)));
        Ok(Self::balance(call))
    }

    /// End a refund: transfer what is left in the channel, `balance`, to the
    /// funder.
    pub fn refund_balance(call: &mut Invocation, balance: i128)
        ensures
            old(call).leads_to(
                *final(call),
                old(call).storage,
                refund_balance_actions(
                    old(call).storage,
                    old(call).context.contract,
                    balance,
                ),
            ),
    {
        if balance > 0 {
            let from: Address = Self::from(call);
            call.actions.push(
                Action::Transfer {
                    token: Self::token(call),
                    from: call.context.contract,
                    to: from,
                    amount: balance,
                },
            );
            call.actions.push(Action::Publish(Event::Refund(Refund { from, amount: balance })));
        }
    }

    /// Let the recipient present a commitment to the given amount, unless the
    /// amount is negative or the channel final.
    fn receive(call: &mut Invocation, amount: i128) -> (result: Result<(), Error>)
        ensures
            result == admission(old(call).storage, amount),
            old(call).leads_to(
                *final(call),
                old(call).storage,
                if result is Ok {
                    seq![Action::RequireAuth(old(call).storage.to)]
                } else {
                    seq![]
                },
            ),
    {
        if amount < 0 {
            return Err(Error::NegativeAmount);
        }
        if Self::refunded(call) {
            return Err(Error::Refunded);
        }
        // Verify the recipient.
        let to: Address = Self::to(call);
        call.actions.push(Action::RequireAuth(to));
        Ok(())
    }

    /// Transfer to the recipient the difference between the cumulative
    /// committed amount and what has already been withdrawn. Fails if the
    /// committed amount exceeds the total deposited, so a commitment that
    /// settles is always one that was fully backed on chain.
    fn withdraw(call: &mut Invocation, to: Address, amount: i128) -> (result: Result<(), Error>)
        requires
            old(call).storage.withdrawn() >= 0,
            amount >= 0,
            to == old(call).storage.to,
        ensures
            result == if amount > old(call).storage.deposited() {
                Err(Error::InsufficientDeposit)
            } else {
                Ok(())
            },
            old(call).leads_to(
                *final(call),
                if result is Ok {
                    settled(old(call).storage, amount)
                } else {
                    old(call).storage
                },
                if result is Ok {
                    payout_actions(old(call).storage, old(call).context.contract, amount)
                } else {
                    seq![]
                },
            ),
            old(call).storage.wf() ==> final(call).storage.wf(),
    {
        if amount > Self::deposited(call) {
            return Err(Error::InsufficientDeposit);
        }
        let payout: i128 = amount - Self::withdrawn(call);
        if payout > 0 {
            call.storage.withdrawn_amount = Some(amount);
            call.actions.push(Action::Store(DataKey::WithdrawnAmount, Value::I128(amount)));
            call.actions.push(
                Action::Transfer {
                    token: Self::token(call),
                    from: call.context.contract,
                    to,
                    amount: payout,
                },
            );
            call.actions.push(Action::Publish(Event::Withdraw(Withdraw { to, amount: payout })));
        }
        Ok(())
    }

    fn extend_instance_ttl(call: &mut Invocation)
        ensures
            old(call).leads_to(*final(call), old(call).storage, seq![extend_ttl()]),
    {
        call.actions.push(Action::ExtendTtl { threshold: TTL_THRESHOLD, extend_to: TTL_EXTEND_TO });
    }

    /// Returns whether the channel is final: whether a `close` or a `refund` has
    /// succeeded.
    pub fn refunded(call: &Invocation) -> (refunded: bool)
        ensures
            refunded == call.storage.is_refunded(),
    {
        call.storage.refunded.unwrap_or(false)
    }
}

/// The storage of a channel before its first deposit.
pub open spec fn blank(
    token: Address,
    from: Address,
    commitment_key: [u8; 32],
    to: Address,
    refund_waiting_period: u32,
) -> Instance {
    Instance {
        token,
        from,
        commitment_key,
        to,
        refund_waiting_period,
        withdrawn_amount: None,
        close_effective_at_ledger: None,
        refunded: None,
        deposited_amount: None,
    }
}

/// The question for the token balance held by the channel contract.
pub open spec fn balance_query(s: Instance, contract: Address) -> BalanceQuery {
    BalanceQuery { token: s.token, holder: contract }
}

} // verus!
