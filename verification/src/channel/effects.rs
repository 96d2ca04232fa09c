//! What each operation of a channel comes to, told from the entries of its
//! storage and plain numbers: when it is accepted, what it changes and leaves,
//! whom it asks, and what it has the host do and not do.

use vstd::prelude::*;

use super::event::{Close, Deposit, Event, Refund, Withdraw};
use super::{Action, BalanceQuery, DataKey, Error, Failure, Instance, Invocation, Value};
use crate::host::{Address, Context};
use crate::platform;

verus! {

/// The totals are the stored entries, and nothing where none is stored; a channel
/// is final only where that is stored. It is well formed where no more was
/// withdrawn than deposited, a final channel has an effective ledger, and the
/// waiting period is short enough.
pub proof fn law_totals_are_what_is_stored(s: Instance)
    ensures
        s.deposited_amount is Some ==> s.deposited() == s.deposited_amount->0,
        s.deposited_amount is None ==> s.deposited() == 0,
        s.withdrawn_amount is Some ==> s.withdrawn() == s.withdrawn_amount->0,
        s.withdrawn_amount is None ==> s.withdrawn() == 0,
        s.is_refunded() <==> s.refunded == Some(true),
        s.wf() <==> {
            &&& 0 <= s.withdrawn()
            &&& s.withdrawn() <= s.deposited()
            &&& s.refunded == Some(true) ==> s.close_effective_at_ledger is Some
            &&& s.refund_waiting_period < u32::MAX
        },
{
}

/// A channel is closed in a ledger if and only if an effective ledger is stored
/// that is not after it.
pub proof fn law_closed_from_the_effective_ledger_on(s: Instance, sequence: u32)
    ensures
        s.close_effective_at_ledger is None ==> !super::is_closed_at(s, sequence),
        s.close_effective_at_ledger is Some ==> (super::is_closed_at(s, sequence)
            <==> s.close_effective_at_ledger->0 <= sequence),
{
}

/// An invocation goes on with the given storage in the same surroundings, and its
/// actions so far, in their order, are followed by the new ones and by no others.
pub proof fn law_invocation_goes_on(
    call: Invocation,
    next: Invocation,
    storage: Instance,
    actions: Seq<Action>,
)
    requires
        call.leads_to(next, storage, actions),
    ensures
        next.context == call.context,
        next.storage == storage,
        next.actions@.len() == call.actions@.len() + actions.len(),
        forall|i: int| 0 <= i < call.actions@.len() ==> next.actions@[i] == call.actions@[i],
        forall|i: int|
            0 <= i < actions.len() ==> #[trigger] actions[i] == next.actions@[call.actions@.len()
                + i],
{
}

/// The lifetime of the storage is extended to sixty days of 17280 ledgers, once it
/// is below thirty.
pub proof fn law_lifetime_is_sixty_days()
    ensures
        super::extend_ttl() == (Action::ExtendTtl { threshold: 518_400, extend_to: 1_036_800 }),
{
}

/// A channel starts out with what it is opened with, and nothing else is stored.
pub proof fn law_channel_starts_blank(
    token: Address,
    from: Address,
    commitment_key: [u8; 32],
    to: Address,
    refund_waiting_period: u32,
)
    ensures
        ({
            let s = super::blank(token, from, commitment_key, to, refund_waiting_period);
            &&& s.token == token
            &&& s.from == from
            &&& s.commitment_key == commitment_key
            &&& s.to == to
            &&& s.refund_waiting_period == refund_waiting_period
            &&& s.withdrawn_amount is None
            &&& s.close_effective_at_ledger is None
            &&& s.refunded is None
            &&& s.deposited_amount is None
        }),
{
}

/// What the channel holds is asked of its own token, for the channel itself.
pub proof fn law_balance_is_that_of_the_channel(s: Instance, contract: Address)
    ensures
        super::balance_query(s, contract).token == s.token,
        super::balance_query(s, contract).holder == contract,
{
}

// Deposits.

/// When a deposit is accepted, and why it is refused otherwise.
pub proof fn law_when_a_deposit_is_accepted(s: Instance, amount: i128)
    ensures
        super::top_up_result(s, amount) is Ok <==> amount >= 0 && s.close_effective_at_ledger is None
            && s.deposited() + amount <= i128::MAX,
        super::top_up_result(s, amount) == Err::<(), Error>(Error::NegativeAmount) <==> amount < 0,
        super::top_up_result(s, amount) == Err::<(), Error>(Error::AlreadyClosed) <==> amount >= 0
            && s.close_effective_at_ledger is Some,
        super::top_up_result(s, amount) == Err::<(), Error>(Error::Overflow) <==> amount >= 0
            && s.close_effective_at_ledger is None && s.deposited() + amount > i128::MAX,
{
}

/// A deposit raises the total deposited by its amount, and changes nothing else.
pub proof fn law_deposit_changes_only_the_total(s: Instance, amount: i128)
    requires
        amount >= 0,
        s.deposited() + amount <= i128::MAX,
    ensures
        super::topped_up(s, amount).deposited() == s.deposited() + amount,
        super::topped_up(s, amount).deposited_amount == if amount > 0 {
            Some(super::topped_up(s, amount).deposited())
        } else {
            s.deposited_amount
        },
        super::topped_up(s, amount) == (Instance {
            deposited_amount: super::topped_up(s, amount).deposited_amount,
            ..s
        }),
{
}

/// An accepted deposit asks the funder alone, extends the lifetime, and, unless it
/// is of nothing, records the new total, moves the amount from the funder to the
/// channel and announces it, in this order. It has the host do nothing else.
pub proof fn law_what_a_deposit_does(s: Instance, contract: Address, amount: i128)
    requires
        amount >= 0,
        s.close_effective_at_ledger is None,
        s.deposited() + amount <= i128::MAX,
    ensures
        ({
            let actions = super::top_up_actions(s, contract, amount);
            let total = (s.deposited() + amount) as i128;
            let record = Action::Store(DataKey::DepositedAmount, Value::I128(total));
            let transfer = Action::Transfer { token: s.token, from: s.from, to: contract, amount };
            let event = Action::Publish(Event::Deposit(Deposit { from: s.from, amount }));
            &&& actions.len() == if amount == 0 { 2int } else { 5int }
            &&& actions[0] == Action::RequireAuth(s.from)
            &&& actions[1] == super::extend_ttl()
            &&& amount > 0 ==> actions[2] == record && actions[3] == transfer && actions[4] == event
        }),
{
}

/// A refused deposit has the host do nothing, but for one that is too large, which
/// is found once the funder was asked.
pub proof fn law_what_a_refused_deposit_does(s: Instance, contract: Address, amount: i128)
    requires
        super::top_up_result(s, amount) is Err,
    ensures
        amount < 0 || s.close_effective_at_ledger is Some ==> super::top_up_actions(
            s,
            contract,
            amount,
        ).len() == 0,
        amount >= 0 && s.close_effective_at_ledger is None ==> super::top_up_actions(
            s,
            contract,
            amount,
        ) == seq![Action::RequireAuth(s.from), super::extend_ttl()],
{
}

// Commitments.

/// A commitment still pays the difference between its amount and what was
/// withdrawn, and nothing where it is not beyond that.
pub proof fn law_payout_is_the_difference(s: Instance, amount: i128)
    requires
        s.withdrawn() >= 0,
    ensures
        amount > s.withdrawn() ==> s.withdrawn() + s.payout(amount) == amount,
        amount <= s.withdrawn() ==> s.payout(amount) == 0,
{
}

/// When a commitment is honoured, and why it is refused otherwise: whether the
/// channel is open, closing or closed makes no difference.
pub proof fn law_when_a_commitment_is_honoured(s: Instance, amount: i128, valid: bool)
    ensures
        ({
            let result = super::settle_result(s, amount, valid);
            let presented = amount >= 0 && s.refunded != Some(true);
            &&& result is Ok <==> presented && valid && amount <= s.deposited()
            &&& result == Err::<(), Failure>(Failure::Contract(Error::NegativeAmount)) <==> amount
                < 0
            &&& result == Err::<(), Failure>(Failure::Contract(Error::Refunded)) <==> amount >= 0
                && s.refunded == Some(true)
            &&& result == Err::<(), Failure>(Failure::Signature) <==> presented && !valid
            &&& result == Err::<(), Failure>(Failure::Contract(Error::InsufficientDeposit)) <==> {
                &&& presented
                &&& valid
                &&& amount > s.deposited()
            }
            &&& presented ==> super::commitment_result(s, amount, valid) == result
        }),
{
}

/// The recipient is let to present a commitment unless its amount is negative or
/// the channel final.
pub proof fn law_when_a_commitment_may_be_presented(s: Instance, amount: i128)
    ensures
        super::admission(s, amount) is Ok <==> amount >= 0 && s.refunded != Some(true),
        super::admission(s, amount) == Err::<(), Error>(Error::NegativeAmount) <==> amount < 0,
        super::admission(s, amount) == Err::<(), Error>(Error::Refunded) <==> amount >= 0
            && s.refunded == Some(true),
{
}

/// A settlement makes the total withdrawn the amount, where that is more, and
/// changes nothing else.
pub proof fn law_settlement_changes_only_the_total(s: Instance, amount: i128)
    ensures
        amount > s.withdrawn() ==> super::settled(s, amount).withdrawn() == amount
            && super::settled(s, amount).withdrawn_amount == Some(amount),
        amount <= s.withdrawn() ==> super::settled(s, amount).withdrawn_amount
            == s.withdrawn_amount,
        super::settled(s, amount) == (Instance {
            withdrawn_amount: super::settled(s, amount).withdrawn_amount,
            ..s
        }),
{
}

/// An honoured commitment asks the recipient alone, extends the lifetime, and,
/// where it pays anything, records the new total, moves the difference from the
/// channel to the recipient and announces it, in this order. It has the host do
/// nothing else, in whatever phase the channel is.
pub proof fn law_what_a_settlement_does(s: Instance, contract: Address, amount: i128)
    requires
        s.withdrawn() >= 0,
        s.refunded != Some(true),
        0 <= amount <= s.deposited(),
    ensures
        ({
            let actions = super::settle_actions(s, contract, amount, true);
            let difference = (amount - s.withdrawn()) as i128;
            let record = Action::Store(DataKey::WithdrawnAmount, Value::I128(amount));
            let transfer = Action::Transfer {
                token: s.token,
                from: contract,
                to: s.to,
                amount: difference,
            };
            let event = Action::Publish(
                Event::Withdraw(Withdraw { to: s.to, amount: difference }),
            );
            &&& actions.len() == if amount <= s.withdrawn() { 2int } else { 5int }
            &&& actions[0] == Action::RequireAuth(s.to)
            &&& actions[1] == super::extend_ttl()
            &&& amount > s.withdrawn() ==> actions[2] == record && actions[3] == transfer
                && actions[4] == event
        }),
{
}

/// What a refused commitment has the host do before it is refused: nothing where
/// it may not be presented, else the recipient is asked, and where the signature
/// is valid the lifetime is extended too.
pub proof fn law_what_a_refused_settlement_does(
    s: Instance,
    contract: Address,
    amount: i128,
    valid: bool,
)
    ensures
        ({
            let actions = super::settle_actions(s, contract, amount, valid);
            let presented = amount >= 0 && s.refunded != Some(true);
            &&& !presented ==> actions.len() == 0
            &&& presented && !valid ==> actions == seq![Action::RequireAuth(s.to)]
            &&& presented && valid && amount > s.deposited() ==> actions == seq![
                Action::RequireAuth(s.to),
                super::extend_ttl(),
            ]
        }),
{
}

/// What follows once the recipient was asked is the rest of the settlement.
pub proof fn law_settlement_goes_on_once_presented(
    s: Instance,
    contract: Address,
    amount: i128,
    valid: bool,
)
    requires
        amount >= 0,
        s.refunded != Some(true),
    ensures
        super::settle_actions(s, contract, amount, valid).len() == 1 + super::commitment_actions(
            s,
            contract,
            amount,
            valid,
        ).len(),
        forall|i: int|
            0 <= i < super::commitment_actions(s, contract, amount, valid).len()
                ==> #[trigger] super::commitment_actions(s, contract, amount, valid)[i]
                == super::settle_actions(s, contract, amount, valid)[i + 1],
{
}

/// The bytes of a commitment are the XDR of a map with its amount, channel, domain
/// and network, each under its own name, and its signature is checked over all of
/// them with the channel's commitment key.
pub proof fn law_what_is_signed(s: Instance, context: Context, amount: i128, signature: Seq<u8>)
    ensures
        ({
            let bytes = platform::map_xdr(
                ("amount"@, amount),
                ("channel"@, context.contract),
                ("domain"@, "chancmmt"@),
                ("network"@, context.network_id@),
            );
            &&& super::commitment_bytes(context.network_id@, context.contract, amount) == bytes
            &&& super::is_signed(s, context, amount, signature) == platform::ed25519_valid(
                s.commitment_key@,
                bytes,
                signature,
            )
        }),
{
}

/// Bytes that identify a commitment are the XDR of no other map, whatever its keys
/// and values.
pub proof fn law_identifying_bytes_are_of_nothing_else(
    bytes: Seq<u8>,
    network: Seq<u8>,
    channel: Address,
    amount: i128,
    number: (Seq<char>, i128),
    address: (Seq<char>, Address),
    symbol: (Seq<char>, Seq<char>),
    data: (Seq<char>, Seq<u8>),
)
    requires
        super::identifies(bytes, network, channel, amount),
        platform::is_map(number, address, symbol, data),
    ensures
        bytes == platform::map_xdr(
            ("amount"@, amount),
            ("channel"@, channel),
            ("domain"@, "chancmmt"@),
            ("network"@, network),
        ),
        platform::map_xdr(number, address, symbol, data) == bytes ==> {
            &&& number == ("amount"@, amount)
            &&& address == ("channel"@, channel)
            &&& symbol == ("domain"@, "chancmmt"@)
            &&& data == ("network"@, network)
        },
{
}

// Closing.

/// A close is accepted, or refused, as a settlement is, and once accepted asks for
/// what the channel holds.
pub proof fn law_when_a_close_is_accepted(
    s: Instance,
    contract: Address,
    amount: i128,
    valid: bool,
)
    ensures
        ({
            let result = super::close_result(s, contract, amount, valid);
            let settlement = super::settle_result(s, amount, valid);
            &&& settlement is Ok ==> result == Ok::<BalanceQuery, Failure>(
                BalanceQuery { token: s.token, holder: contract },
            )
            &&& settlement is Err ==> result == Err::<BalanceQuery, Failure>(settlement->Err_0)
        }),
{
}

/// A close takes effect at once, unless the channel is closed already, and changes
/// nothing else by itself.
pub proof fn law_close_takes_effect_at_once(s: Instance, sequence: u32)
    ensures
        ({
            let effective = super::closed(s, sequence).close_effective_at_ledger;
            let stored = s.close_effective_at_ledger;
            &&& stored is Some && stored->0 <= sequence ==> effective == stored
            &&& stored is None || stored->0 > sequence ==> effective == Some(sequence)
            &&& super::closed(s, sequence) == (Instance { close_effective_at_ledger: effective, ..s })
        }),
{
}

/// A close does what the settlement of its commitment does. Where the channel was
/// not closed yet, it then records the ledger and announces it. It has the host do
/// nothing else before it asks for the balance, and asks nobody but the recipient.
pub proof fn law_what_a_close_does(
    s: Instance,
    contract: Address,
    sequence: u32,
    amount: i128,
    valid: bool,
)
    ensures
        ({
            let actions = super::close_actions(s, contract, sequence, amount, valid);
            let settlement = super::settle_actions(s, contract, amount, valid);
            let stored = s.close_effective_at_ledger;
            let record = Action::Store(DataKey::CloseEffectiveAtLedger, Value::U32(sequence));
            let event = Action::Publish(Event::Close(Close { effective_at_ledger: sequence }));
            let closes = super::settle_result(s, amount, valid) is Ok && !(stored is Some
                && stored->0 <= sequence);
            &&& actions == if closes {
                settlement.push(record).push(event)
            } else {
                settlement
            }
        }),
{
}

/// To close a channel records and announces the ledger, unless it is closed.
pub proof fn law_what_closing_does(s: Instance, sequence: u32)
    ensures
        ({
            let actions = super::closing_actions(s, sequence);
            let stored = s.close_effective_at_ledger;
            let record = Action::Store(DataKey::CloseEffectiveAtLedger, Value::U32(sequence));
            let event = Action::Publish(Event::Close(Close { effective_at_ledger: sequence }));
            &&& stored is Some && stored->0 <= sequence ==> actions.len() == 0
            &&& stored is None || stored->0 > sequence ==> actions.len() == 2 && actions[0]
                == record && actions[1] == event
        }),
{
}

/// To become final changes nothing but that the channel is.
pub proof fn law_finality_changes_nothing_else(s: Instance)
    ensures
        super::finalized(s).refunded == Some(true),
        super::finalized(s) == (Instance { refunded: Some(true), ..s }),
{
}

/// The second step of a close records that the channel is final and, where the
/// channel holds anything, tries to move all of it to the funder. It has the host
/// do nothing else, and asks nobody.
pub proof fn law_what_the_rest_of_a_close_does(s: Instance, contract: Address, balance: i128)
    ensures
        ({
            let actions = super::close_balance_actions(s, contract, balance);
            let attempt = Action::TryTransfer {
                token: s.token,
                from: contract,
                to: s.from,
                amount: balance,
            };
            &&& actions.len() == if balance > 0 { 2int } else { 1int }
            &&& actions[0] == Action::Store(DataKey::Refunded, Value::Bool(true))
            &&& balance > 0 ==> actions[1] == attempt
        }),
{
}

/// A close may start unless the channel is closed already.
pub proof fn law_when_a_close_may_start(s: Instance, sequence: u32)
    ensures
        ({
            let stored = s.close_effective_at_ledger;
            let result = super::close_start_result(s, sequence);
            &&& result is Ok <==> stored is None || sequence < stored->0
            &&& result is Err ==> result->Err_0 == Error::AlreadyClosed
        }),
{
}

/// A close that starts takes effect exactly the waiting period later, or in the
/// last ledger that can be counted to where that is sooner. It changes nothing
/// else.
pub proof fn law_close_takes_effect_after_the_waiting_period(s: Instance, sequence: u32)
    ensures
        ({
            let started = super::close_started(s, sequence);
            let end = sequence + s.refund_waiting_period;
            &&& started.close_effective_at_ledger is Some
            &&& end <= u32::MAX ==> started.close_effective_at_ledger->0 == end
            &&& end > u32::MAX ==> started.close_effective_at_ledger->0 == u32::MAX
            &&& started == (Instance {
                close_effective_at_ledger: started.close_effective_at_ledger,
                ..s
            })
            &&& super::effective_ledger(sequence, s.refund_waiting_period)
                == started.close_effective_at_ledger->0
        }),
{
}

/// After the funder started a close, a refund is refused in every ledger before
/// the waiting period is over and, if nothing else is done, accepted in every
/// ledger from then on.
pub proof fn law_refund_waits_for_the_whole_period(s: Instance, sequence: u32, later: u32)
    ensures
        ({
            let result = super::refund_result(super::close_started(s, sequence), later);
            let end = sequence + s.refund_waiting_period;
            &&& later < end && later < u32::MAX ==> result == Err::<(), Error>(
                Error::RefundWaitingPeriodNotElapsed,
            )
            &&& later >= end || later == u32::MAX ==> result == Ok::<(), Error>(())
        }),
{
}

/// To start a close asks the funder alone, extends the lifetime, and records and
/// announces the ledger in which it takes effect. It has the host do nothing else,
/// and nothing at all where the channel is closed already.
pub proof fn law_what_the_start_of_a_close_does(s: Instance, sequence: u32)
    ensures
        ({
            let actions = super::close_start_actions(s, sequence);
            let stored = s.close_effective_at_ledger;
            let end = sequence + s.refund_waiting_period;
            let effective_at_ledger = if end > u32::MAX {
                u32::MAX
            } else {
                end as u32
            };
            let record = Action::Store(
                DataKey::CloseEffectiveAtLedger,
                Value::U32(effective_at_ledger),
            );
            let event = Action::Publish(Event::Close(Close { effective_at_ledger }));
            &&& stored is Some && stored->0 <= sequence ==> actions.len() == 0
            &&& stored is None || sequence < stored->0 ==> {
                &&& actions.len() == 4
                &&& actions[0] == Action::RequireAuth(s.from)
                &&& actions[1] == super::extend_ttl()
                &&& actions[2] == record
                &&& actions[3] == event
            }
        }),
{
}

// Refunds.

/// A refund is accepted if and only if the channel is closed, and why it is
/// refused otherwise.
pub proof fn law_when_a_refund_is_accepted(s: Instance, sequence: u32)
    ensures
        ({
            let stored = s.close_effective_at_ledger;
            let result = super::refund_result(s, sequence);
            &&& result is Ok <==> stored is Some && stored->0 <= sequence
            &&& result == Err::<(), Error>(Error::NotClosed) <==> stored is None
            &&& result == Err::<(), Error>(Error::RefundWaitingPeriodNotElapsed) <==> {
                &&& stored is Some
                &&& sequence < stored->0
            }
        }),
{
}

/// An accepted refund asks the funder alone and records that the channel is final;
/// a refused one does nothing. Then everything that the channel holds, if
/// anything, is moved to the funder and announced. Nothing else is done, so that
/// the funder of a closed channel needs nobody to be refunded.
pub proof fn law_what_a_refund_does(s: Instance, contract: Address, sequence: u32, balance: i128)
    ensures
        ({
            let actions = super::refund_actions(s, sequence);
            let stored = s.close_effective_at_ledger;
            let accepted = stored is Some && stored->0 <= sequence;
            &&& actions.len() == if accepted { 2int } else { 0int }
            &&& accepted ==> actions[0] == Action::RequireAuth(s.from)
            &&& accepted ==> actions[1] == Action::Store(DataKey::Refunded, Value::Bool(true))
        }),
        ({
            let actions = super::refund_balance_actions(s, contract, balance);
            let transfer = Action::Transfer {
                token: s.token,
                from: contract,
                to: s.from,
                amount: balance,
            };
            let event = Action::Publish(Event::Refund(Refund { from: s.from, amount: balance }));
            &&& actions.len() == if balance > 0 { 2int } else { 0int }
            &&& balance > 0 ==> actions[0] == transfer && actions[1] == event
        }),
{
}

// Consent.

/// Whoever does something to a channel needs nobody's consent but their own:
/// whether or not it is accepted, a deposit, the start of a close and a refund ask
/// the funder at most, and a settlement and a close the recipient at most. The
/// steps that follow ask nobody.
pub proof fn law_nobody_else_is_asked(
    s: Instance,
    contract: Address,
    sequence: u32,
    amount: i128,
    valid: bool,
    balance: i128,
    who: Address,
)
    ensures
        super::top_up_actions(s, contract, amount).contains(Action::RequireAuth(who)) ==> who
            == s.from,
        super::settle_actions(s, contract, amount, valid).contains(Action::RequireAuth(who))
            ==> who == s.to,
        !super::commitment_actions(s, contract, amount, valid).contains(Action::RequireAuth(who)),
        super::close_actions(s, contract, sequence, amount, valid).contains(
            Action::RequireAuth(who),
        ) ==> who == s.to,
        !super::closing_actions(s, sequence).contains(Action::RequireAuth(who)),
        !super::close_balance_actions(s, contract, balance).contains(Action::RequireAuth(who)),
        super::close_start_actions(s, sequence).contains(Action::RequireAuth(who)) ==> who
            == s.from,
        super::refund_actions(s, sequence).contains(Action::RequireAuth(who)) ==> who == s.from,
        !super::refund_balance_actions(s, contract, balance).contains(Action::RequireAuth(who)),
{
}

/// Until the channel is final, the recipient of a signed commitment within the
/// deposit is paid what it still pays with no consent but their own, even where
/// the funder started a close or the close has taken effect.
pub proof fn law_recipient_alone_is_paid(
    s: Instance,
    contract: Address,
    amount: i128,
    who: Address,
)
    requires
        s.refunded != Some(true),
        0 <= s.withdrawn() < amount <= s.deposited(),
    ensures
        super::settle_result(s, amount, true) is Ok,
        super::settle_actions(s, contract, amount, true).contains(
            Action::Transfer {
                token: s.token,
                from: contract,
                to: s.to,
                amount: (amount - s.withdrawn()) as i128,
            },
        ),
        super::settle_actions(s, contract, amount, true).contains(Action::RequireAuth(who)) <==> who
            == s.to,
{
    law_what_a_settlement_does(s, contract, amount);
    law_nobody_else_is_asked(s, contract, 0, amount, true, 0, who);
    let actions = super::settle_actions(s, contract, amount, true);
    assert(actions.contains(actions[0]));
    assert(actions.contains(actions[3]));
}

/// Once the close has taken effect, the funder is refunded with no consent but
/// their own.
pub proof fn law_funder_alone_is_refunded(s: Instance, sequence: u32, who: Address)
    requires
        s.close_effective_at_ledger is Some,
        s.close_effective_at_ledger->0 <= sequence,
    ensures
        super::refund_result(s, sequence) is Ok,
        super::refund_actions(s, sequence).contains(Action::RequireAuth(who)) <==> who == s.from,
{
    let actions = super::refund_actions(s, sequence);
    assert(actions.contains(actions[0]));
}

} // verus!
