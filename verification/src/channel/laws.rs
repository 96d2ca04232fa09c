//! What holds of a channel whatever is done to it.

use vstd::prelude::*;

use super::{Action, DataKey, Error, Failure, Instance, Value};
use crate::platform;
use crate::host::{Address, Context};

verus! {

/// Something that a party does to a channel.
pub enum Operation {
    TopUp { amount: i128 },
    /// `valid` says whether the signature of the commitment is.
    Settle { amount: i128, valid: bool },
    /// `valid` says whether the signature of the commitment is.
    Close { amount: i128, valid: bool },
    CloseStart,
    Refund,
    Extend,
}

/// An operation and the ledger in which it is done.
pub struct Step {
    pub sequence: u32,
    pub operation: Operation,
}

/// Whether the channel accepts an operation.
pub open spec fn accepts(s: Instance, step: Step) -> bool {
    match step.operation {
        Operation::TopUp { amount } => super::top_up_result(s, amount) is Ok,
        Operation::Settle { amount, valid } => super::settle_result(s, amount, valid) is Ok,
        Operation::Close { amount, valid } => super::settle_result(s, amount, valid) is Ok,
        Operation::CloseStart => super::close_start_result(s, step.sequence) is Ok,
        Operation::Refund => super::refund_result(s, step.sequence) is Ok,
        Operation::Extend => true,
    }
}

/// The storage after an operation. One that is not accepted changes nothing.
pub open spec fn after(s: Instance, step: Step) -> Instance {
    if !accepts(s, step) {
        s
    } else {
        match step.operation {
            Operation::TopUp { amount } => super::topped_up(s, amount),
            Operation::Settle { amount, .. } => super::settled(s, amount),
            Operation::Close { amount, .. } => super::finalized(
                super::closed(super::settled(s, amount), step.sequence),
            ),
            Operation::CloseStart => super::close_started(s, step.sequence),
            Operation::Refund => super::finalized(s),
            Operation::Extend => s,
        }
    }
}

/// The storage after a series of operations.
pub open spec fn after_all(s: Instance, steps: Seq<Step>) -> Instance
    decreases steps.len(),
{
    if steps.len() == 0 {
        s
    } else {
        after(after_all(s, steps.drop_last()), steps.last())
    }
}

/// Whether `steps` follow each other, from the ledger `now` on.
pub open spec fn in_order(now: u32, steps: Seq<Step>) -> bool {
    &&& forall|i: int| 0 <= i < steps.len() ==> now <= #[trigger] steps[i].sequence
    &&& forall|i: int, j: int|
        0 <= i <= j < steps.len() ==> #[trigger] steps[i].sequence <= #[trigger] steps[j].sequence
}

/// The ledger of the last of `steps`.
pub open spec fn last_ledger(now: u32, steps: Seq<Step>) -> u32 {
    if steps.len() == 0 {
        now
    } else {
        steps.last().sequence
    }
}

/// What holds of the storage of every channel in the ledger `now`: a final
/// channel is closed, and no close takes effect later than one that would start
/// now.
pub open spec fn wf_at(s: Instance, now: u32) -> bool {
    &&& s.wf()
    &&& s.is_refunded() ==> super::is_closed_at(s, now)
    &&& s.close_effective_at_ledger matches Some(effective) ==> effective
        <= super::effective_ledger(now, s.refund_waiting_period)
}

/// A channel that was just opened is well formed.
pub proof fn law_opened_channel_is_well_formed(
    now: u32,
    token: Address,
    from: Address,
    commitment_key: [u8; 32],
    to: Address,
    amount: i128,
    refund_waiting_period: u32,
)
    requires
        amount >= 0,
        refund_waiting_period <= super::MAX_REFUND_WAITING_PERIOD,
    ensures
        wf_at(
            super::topped_up(
                super::blank(token, from, commitment_key, to, refund_waiting_period),
                amount,
            ),
            now,
        ),
{
}

proof fn lemma_step_keeps_invariant(s: Instance, now: u32, step: Step)
    requires
        wf_at(s, now),
        now <= step.sequence,
    ensures
        wf_at(after(s, step), step.sequence),
{
}

/// Whatever is done to a channel, it stays well formed: in particular the
/// recipient never withdraws more than the funder deposited.
pub proof fn law_operations_keep_channel_well_formed(s: Instance, now: u32, steps: Seq<Step>)
    requires
        wf_at(s, now),
        in_order(now, steps),
    ensures
        wf_at(after_all(s, steps), last_ledger(now, steps)),
    decreases steps.len(),
{
    if steps.len() > 0 {
        let before = steps.drop_last();
        law_operations_keep_channel_well_formed(s, now, before);
        lemma_step_keeps_invariant(after_all(s, before), last_ledger(now, before), steps.last());
    }
}

/// What a channel was opened with never changes.
pub proof fn law_configuration_is_fixed(s: Instance, steps: Seq<Step>)
    ensures
        after_all(s, steps).token == s.token,
        after_all(s, steps).from == s.from,
        after_all(s, steps).commitment_key == s.commitment_key,
        after_all(s, steps).to == s.to,
        after_all(s, steps).refund_waiting_period == s.refund_waiting_period,
    decreases steps.len(),
{
    if steps.len() > 0 {
        law_configuration_is_fixed(s, steps.drop_last());
    }
}

/// The totals of deposits and withdrawals never shrink.
pub proof fn law_totals_never_shrink(s: Instance, steps: Seq<Step>)
    ensures
        after_all(s, steps).deposited() >= s.deposited(),
        after_all(s, steps).withdrawn() >= s.withdrawn(),
    decreases steps.len(),
{
    if steps.len() > 0 {
        law_totals_never_shrink(s, steps.drop_last());
    }
}

/// A final channel never changes again, whatever is done to it.
pub proof fn law_final_channel_never_changes(s: Instance, now: u32, steps: Seq<Step>)
    requires
        wf_at(s, now),
        s.is_refunded(),
        in_order(now, steps),
    ensures
        after_all(s, steps) == s,
    decreases steps.len(),
{
    if steps.len() > 0 {
        law_final_channel_never_changes(s, now, steps.drop_last());
    }
}

/// A final channel refuses the recipient and further deposits, and cannot start
/// to close again; only the funder can go on to be refunded.
pub proof fn law_final_channel_serves_only_refunds(
    s: Instance,
    now: u32,
    sequence: u32,
    amount: i128,
    valid: bool,
)
    requires
        wf_at(s, now),
        s.is_refunded(),
        now <= sequence,
        amount >= 0,
    ensures
        super::settle_result(s, amount, valid) == Err::<(), Failure>(
            Failure::Contract(Error::Refunded),
        ),
        super::top_up_result(s, amount) == Err::<(), Error>(Error::AlreadyClosed),
        super::close_start_result(s, sequence) == Err::<(), Error>(Error::AlreadyClosed),
        super::refund_result(s, sequence) == Ok::<(), Error>(()),
{
}

/// An accepted close or refund makes the channel final.
pub proof fn law_close_and_refund_are_final(s: Instance, step: Step)
    requires
        accepts(s, step),
        step.operation is Close || step.operation is Refund,
    ensures
        after(s, step).is_refunded(),
        super::is_closed_at(after(s, step), step.sequence),
{
}

/// Once a close has started, the channel is never used again: the close stays,
/// no deposit is accepted, and the total deposited stays what it is.
pub proof fn law_closing_channel_takes_no_deposits(s: Instance, steps: Seq<Step>, amount: i128)
    requires
        s.close_effective_at_ledger is Some,
    ensures
        after_all(s, steps).close_effective_at_ledger is Some,
        after_all(s, steps).deposited_amount == s.deposited_amount,
        super::top_up_result(after_all(s, steps), amount) is Err,
    decreases steps.len(),
{
    if steps.len() > 0 {
        law_closing_channel_takes_no_deposits(s, steps.drop_last(), amount);
    }
}

/// Until the channel is final, every commitment within the total deposited is
/// honoured, whether the channel is open, closing or closed.
pub proof fn law_commitments_are_honoured_until_final(s: Instance, amount: i128)
    requires
        s.wf(),
        !s.is_refunded(),
        0 <= amount <= s.deposited(),
    ensures
        super::settle_result(s, amount, true) == Ok::<(), Failure>(()),
{
}

/// A commitment beyond the total deposited is refused, however it is signed and
/// whatever the channel holds.
pub proof fn law_commitments_beyond_deposit_are_refused(s: Instance, amount: i128, valid: bool)
    requires
        amount > s.deposited(),
    ensures
        super::settle_result(s, amount, valid) is Err,
{
}

/// A commitment to no more than what was already withdrawn pays nothing and
/// changes nothing.
pub proof fn law_older_commitment_pays_nothing(s: Instance, contract: Address, amount: i128)
    requires
        amount <= s.withdrawn(),
    ensures
        s.payout(amount) == 0,
        super::settled(s, amount) == s,
        super::payout_actions(s, contract, amount) == Seq::<Action>::empty(),
{
}

/// The highest amount that `steps` commit to, or `least` if none is higher.
pub open spec fn highest(least: i128, steps: Seq<Step>) -> i128
    decreases steps.len(),
{
    if steps.len() == 0 {
        least
    } else {
        let before = highest(least, steps.drop_last());
        match steps.last().operation {
            Operation::Settle { amount, .. } if amount > before => amount,
            Operation::Close { amount, .. } if amount > before => amount,
            _ => before,
        }
    }
}

/// What the accepted commitments of `steps` pay in all.
pub open spec fn paid_over(s: Instance, steps: Seq<Step>) -> int
    decreases steps.len(),
{
    if steps.len() == 0 {
        0
    } else {
        let before = after_all(s, steps.drop_last());
        paid_over(s, steps.drop_last()) + if accepts(before, steps.last()) {
            match steps.last().operation {
                Operation::Settle { amount, .. } => before.payout(amount) as int,
                Operation::Close { amount, .. } => before.payout(amount) as int,
                _ => 0,
            }
        } else {
            0
        }
    }
}

/// Whether every one of `steps` settles a signed commitment within the total
/// deposited.
pub open spec fn only_settles(s: Instance, steps: Seq<Step>) -> bool {
    forall|i: int|
        0 <= i < steps.len() ==> match (#[trigger] steps[i]).operation {
            Operation::Settle { amount, valid } => valid && 0 <= amount <= s.deposited(),
            _ => false,
        }
}

/// Settling with any number of commitments, in any order, comes to the same as
/// settling with the highest of them alone: the total withdrawn is the highest
/// amount, what is paid in all is what that one would have paid, and nothing
/// else changes.
pub proof fn law_settlements_add_up(s: Instance, steps: Seq<Step>)
    requires
        s.wf(),
        !s.is_refunded(),
        only_settles(s, steps),
    ensures
        after_all(s, steps).withdrawn() == highest(s.withdrawn(), steps),
        after_all(s, steps) == super::settled(s, highest(s.withdrawn(), steps)),
        paid_over(s, steps) == s.payout(highest(s.withdrawn(), steps)),
        highest(s.withdrawn(), steps) <= s.deposited(),
    decreases steps.len(),
{
    if steps.len() > 0 {
        assert(steps.last() == steps[steps.len() - 1]);
        law_settlements_add_up(s, steps.drop_last());
    }
}

/// The accepted ones among `steps`.
pub open spec fn accepted(s: Instance, steps: Seq<Step>) -> Seq<Step>
    decreases steps.len(),
{
    if steps.len() == 0 {
        seq![]
    } else {
        let before = accepted(s, steps.drop_last());
        if accepts(after_all(s, steps.drop_last()), steps.last()) {
            before.push(steps.last())
        } else {
            before
        }
    }
}

/// Whatever is done to a channel, the total withdrawn is the highest amount of
/// the commitments that it accepted, and they pay by how much it grows.
pub proof fn law_withdrawn_is_the_highest_commitment(s: Instance, steps: Seq<Step>)
    requires
        s.wf(),
    ensures
        after_all(s, steps).withdrawn() == highest(s.withdrawn(), accepted(s, steps)),
        paid_over(s, steps) == after_all(s, steps).withdrawn() - s.withdrawn(),
    decreases steps.len(),
{
    if steps.len() > 0 {
        let before = steps.drop_last();
        law_withdrawn_is_the_highest_commitment(s, before);
        law_totals_never_shrink(s, before);
        let earlier = accepted(s, before);
        assert(earlier.push(steps.last()).drop_last() =~= earlier);
    }
}

/// Whether the recipient has not closed the channel in `steps`: no close among
/// them is accepted.
pub open spec fn without_close(s: Instance, steps: Seq<Step>) -> bool {
    forall|i: int|
        0 <= i < steps.len() && (#[trigger] steps[i]).operation is Close ==> !accepts(
            after_all(s, steps.take(i)),
            steps[i],
        )
}

/// After the funder started a close, only the recipient can make it take effect
/// early: whatever else is done or tried, there is no refund before the waiting
/// period has elapsed.
pub proof fn law_waiting_period_is_kept(s: Instance, now: u32, steps: Seq<Step>, sequence: u32)
    requires
        wf_at(s, now),
        super::close_start_result(s, now) is Ok,
        in_order(now, steps),
        without_close(super::close_started(s, now), steps),
        last_ledger(now, steps) <= sequence,
        sequence < now + s.refund_waiting_period,
        sequence < u32::MAX,
    ensures
        super::refund_result(after_all(super::close_started(s, now), steps), sequence) == Err::<
            (),
            Error,
        >(Error::RefundWaitingPeriodNotElapsed),
        !after_all(super::close_started(s, now), steps).is_refunded(),
    decreases steps.len(),
{
    let started = super::close_started(s, now);
    if steps.len() > 0 {
        let before = steps.drop_last();
        let last = steps.last();
        assert(before.len() > 0 ==> before.last() == steps[steps.len() - 2]);
        assert(without_close(started, before)) by {
            assert forall|i: int|
                0 <= i < before.len() && (#[trigger] before[i]).operation is Close implies !accepts(
                after_all(started, before.take(i)),
                before[i],
            ) by {
                assert(before[i] == steps[i]);
                assert(before.take(i) =~= steps.take(i));
            }
        }
        law_waiting_period_is_kept(s, now, before, last.sequence);
        law_waiting_period_is_kept(s, now, before, sequence);
        law_configuration_is_fixed(started, before);
        assert(steps[steps.len() - 1] == last);
        assert(steps.take(steps.len() - 1) =~= before);
    }
}

/// What the accepted deposits of `steps` come to.
pub open spec fn deposits_over(s: Instance, steps: Seq<Step>) -> int
    decreases steps.len(),
{
    if steps.len() == 0 {
        0
    } else {
        deposits_over(s, steps.drop_last()) + match steps.last().operation {
            Operation::TopUp { amount } if accepts(
                after_all(s, steps.drop_last()),
                steps.last(),
            ) => amount as int,
            _ => 0,
        }
    }
}

/// Only deposits raise the total deposited, each by its amount: tokens that reach
/// the channel in any other way do not enlarge what a commitment can claim.
pub proof fn law_only_deposits_raise_deposited(s: Instance, steps: Seq<Step>)
    ensures
        after_all(s, steps).deposited() == s.deposited() + deposits_over(s, steps),
    decreases steps.len(),
{
    if steps.len() > 0 {
        law_only_deposits_raise_deposited(s, steps.drop_last());
    }
}

/// Whether the channel accepted a close or a refund in `steps`.
pub open spec fn has_ended(s: Instance, steps: Seq<Step>) -> bool {
    exists|i: int|
        0 <= i < steps.len() && ((#[trigger] steps[i]).operation is Close
            || steps[i].operation is Refund) && accepts(after_all(s, steps.take(i)), steps[i])
}

/// A channel is final if and only if it accepted a close or a refund, and it is
/// then closed.
pub proof fn law_final_once_closed_or_refunded(s: Instance, now: u32, steps: Seq<Step>)
    requires
        wf_at(s, now),
        !s.is_refunded(),
        in_order(now, steps),
    ensures
        after_all(s, steps).is_refunded() <==> has_ended(s, steps),
        has_ended(s, steps) ==> super::is_closed_at(
            after_all(s, steps),
            last_ledger(now, steps),
        ),
    decreases steps.len(),
{
    law_operations_keep_channel_well_formed(s, now, steps);
    if steps.len() > 0 {
        let before = steps.drop_last();
        law_final_once_closed_or_refunded(s, now, before);
        assert(steps.take(steps.len() - 1) =~= before);
        assert(steps[steps.len() - 1] == steps.last());
        assert(has_ended(s, before) ==> has_ended(s, steps)) by {
            if has_ended(s, before) {
                let i = choose|i: int|
                    0 <= i < before.len() && ((#[trigger] before[i]).operation is Close
                        || before[i].operation is Refund) && accepts(
                        after_all(s, before.take(i)),
                        before[i],
                    );
                assert(before.take(i) =~= steps.take(i));
                assert(steps[i] == before[i]);
            }
        }
        if has_ended(s, steps) {
            let i = choose|i: int|
                0 <= i < steps.len() && ((#[trigger] steps[i]).operation is Close
                    || steps[i].operation is Refund) && accepts(
                    after_all(s, steps.take(i)),
                    steps[i],
                );
            if i < before.len() {
                assert(before.take(i) =~= steps.take(i));
                assert(before[i] == steps[i]);
            }
        }
    }
}

/// Where a channel stands in its life.
pub enum Phase {
    Open,
    Closing,
    Closed,
    Refunded,
}

/// Where a channel stands in the ledger `sequence`.
pub open spec fn phase(s: Instance, sequence: u32) -> Phase {
    if s.is_refunded() {
        Phase::Refunded
    } else if s.close_effective_at_ledger is None {
        Phase::Open
    } else if super::is_closed_at(s, sequence) {
        Phase::Closed
    } else {
        Phase::Closing
    }
}

/// In which phases an operation is accepted, and which phase it leads to. A
/// deposit that the total deposited has room for needs an open channel, and a
/// signed commitment within that total one that is not final. A close starts in
/// an open or closing channel, and without a waiting period takes effect at
/// once. A refund needs a closed or final channel.
pub proof fn law_operations_follow_phases(s: Instance, now: u32, step: Step)
    requires
        wf_at(s, now),
        now <= step.sequence,
    ensures
        ({
            let before = phase(s, step.sequence);
            let next = phase(after(s, step), step.sequence);
            match step.operation {
                Operation::TopUp { amount } => {
                    &&& accepts(s, step) <==> before is Open && 0 <= amount && s.deposited()
                        + amount <= i128::MAX
                    &&& next == before
                },
                Operation::Settle { amount, valid } => {
                    &&& accepts(s, step) <==> !(before is Refunded) && valid && 0 <= amount
                        <= s.deposited()
                    &&& next == before
                },
                Operation::Close { amount, valid } => {
                    &&& accepts(s, step) <==> !(before is Refunded) && valid && 0 <= amount
                        <= s.deposited()
                    &&& accepts(s, step) ==> next is Refunded
                },
                Operation::CloseStart => {
                    &&& accepts(s, step) <==> before is Open || before is Closing
                    &&& accepts(s, step) ==> if s.refund_waiting_period > 0 && step.sequence
                        < u32::MAX {
                        next is Closing
                    } else {
                        next is Closed
                    }
                },
                Operation::Refund => {
                    &&& accepts(s, step) <==> before is Closed || before is Refunded
                    &&& accepts(s, step) ==> next is Refunded
                },
                Operation::Extend => next == before,
            }
        }),
{
}

/// As ledgers pass, a closing channel comes to be closed, and no other phase
/// changes by itself.
pub proof fn law_only_closing_ends_by_itself(s: Instance, now: u32, later: u32)
    requires
        now <= later,
    ensures
        wf_at(s, now) ==> wf_at(s, later),
        match phase(s, now) {
            Phase::Closing => if s.close_effective_at_ledger->0 <= later {
                phase(s, later) is Closed
            } else {
                phase(s, later) is Closing
            },
            other => phase(s, later) == other,
        },
{
}

/// What an operation has the host do, up to where it asks for a balance.
pub open spec fn actions_of(s: Instance, contract: Address, step: Step) -> Seq<Action> {
    match step.operation {
        Operation::TopUp { amount } => super::top_up_actions(s, contract, amount),
        Operation::Settle { amount, valid } => super::settle_actions(s, contract, amount, valid),
        Operation::Close { amount, valid } => super::close_actions(
            s,
            contract,
            step.sequence,
            amount,
            valid,
        ),
        Operation::CloseStart => super::close_start_actions(s, step.sequence),
        Operation::Refund => super::refund_actions(s, step.sequence),
        Operation::Extend => seq![super::extend_ttl()],
    }
}

/// Nobody but the funder deposits, starts a close or is refunded, and nobody but
/// the recipient settles or closes: before anything else is done, the host
/// requires the authorization of the one whose turn it is.
pub proof fn law_authorization_comes_first(s: Instance, contract: Address, step: Step)
    requires
        accepts(s, step),
        !(step.operation is Extend),
    ensures
        actions_of(s, contract, step).len() > 0,
        actions_of(s, contract, step)[0] == Action::RequireAuth(
            if step.operation is Settle || step.operation is Close {
                s.to
            } else {
                s.from
            },
        ),
{
}

/// Whoever deposits, settles, closes or starts a close extends the lifetime of
/// the channel's storage.
pub proof fn law_use_extends_lifetime(s: Instance, contract: Address, step: Step)
    requires
        accepts(s, step),
        !(step.operation is Refund),
    ensures
        actions_of(s, contract, step).contains(super::extend_ttl()),
{
    let actions = actions_of(s, contract, step);
    assert(actions[if step.operation is Extend { 0int } else { 1int }] == super::extend_ttl());
}

/// What an action leaves the storage as.
pub open spec fn written(s: Instance, action: Action) -> Instance {
    match action {
        Action::Store(DataKey::Token, Value::Address(token)) => Instance { token, ..s },
        Action::Store(DataKey::From, Value::Address(from)) => Instance { from, ..s },
        Action::Store(DataKey::CommitmentKey, Value::Bytes(commitment_key)) => Instance {
            commitment_key,
            ..s
        },
        Action::Store(DataKey::To, Value::Address(to)) => Instance { to, ..s },
        Action::Store(DataKey::RefundWaitingPeriod, Value::U32(refund_waiting_period)) => Instance {
            refund_waiting_period,
            ..s
        },
        Action::Store(DataKey::WithdrawnAmount, Value::I128(amount)) => Instance {
            withdrawn_amount: Some(amount),
            ..s
        },
        Action::Store(DataKey::CloseEffectiveAtLedger, Value::U32(ledger)) => Instance {
            close_effective_at_ledger: Some(ledger),
            ..s
        },
        Action::Store(DataKey::Refunded, Value::Bool(refunded)) => Instance {
            refunded: Some(refunded),
            ..s
        },
        Action::Store(DataKey::DepositedAmount, Value::I128(amount)) => Instance {
            deposited_amount: Some(amount),
            ..s
        },
        _ => s,
    }
}

/// What a series of actions leaves the storage as.
pub open spec fn replayed(s: Instance, actions: Seq<Action>) -> Instance
    decreases actions.len(),
{
    if actions.len() == 0 {
        s
    } else {
        written(replayed(s, actions.drop_last()), actions.last())
    }
}

proof fn lemma_replayed_in_parts(s: Instance, first: Seq<Action>, second: Seq<Action>)
    ensures
        replayed(s, first + second) == replayed(replayed(s, first), second),
    decreases second.len(),
{
    if second.len() == 0 {
        assert(first + second =~= first);
    } else {
        assert((first + second).drop_last() =~= first + second.drop_last());
        lemma_replayed_in_parts(s, first, second.drop_last());
    }
}

/// The host's copy of the storage follows the contract's: what an operation
/// stores makes the storage what the operation leaves it as. A close is final
/// once its second step has stored that too.
pub proof fn law_stored_entries_make_the_storage(
    s: Instance,
    contract: Address,
    step: Step,
    balance: i128,
)
    requires
        accepts(s, step),
    ensures
        ({
            let stored = replayed(s, actions_of(s, contract, step));
            if step.operation is Close {
                replayed(stored, super::close_balance_actions(stored, contract, balance)) == after(
                    s,
                    step,
                )
            } else {
                stored == after(s, step)
            }
        }),
{
    match step.operation {
        Operation::TopUp { amount } => {
            lemma_deposit_is_stored(s, contract, amount);
        },
        Operation::Settle { amount, valid } => {
            lemma_settlement_is_stored(s, contract, amount);
        },
        Operation::Close { amount, valid } => {
            let paid = super::settled(s, amount);
            lemma_settlement_is_stored(s, contract, amount);
            lemma_closing_is_stored(paid, step.sequence);
            lemma_replayed_in_parts(
                s,
                super::settle_actions(s, contract, amount, valid),
                super::closing_actions(paid, step.sequence),
            );
            lemma_finality_is_stored(super::closed(paid, step.sequence), contract, balance);
        },
        Operation::CloseStart => {
            lemma_close_start_is_stored(s, step.sequence);
        },
        Operation::Refund => {
            lemma_refund_is_stored(s, step.sequence);
        },
        Operation::Extend => {
            lemma_extension_stores_nothing(s);
        },
    }
}

proof fn lemma_deposit_is_stored(s: Instance, contract: Address, amount: i128)
    requires
        super::top_up_result(s, amount) is Ok,
    ensures
        replayed(s, super::top_up_actions(s, contract, amount)) == super::topped_up(s, amount),
{
    reveal_with_fuel(replayed, 6);
}

proof fn lemma_closing_is_stored(s: Instance, sequence: u32)
    ensures
        replayed(s, super::closing_actions(s, sequence)) == super::closed(s, sequence),
{
    reveal_with_fuel(replayed, 3);
}

proof fn lemma_finality_is_stored(s: Instance, contract: Address, balance: i128)
    ensures
        replayed(s, super::close_balance_actions(s, contract, balance)) == super::finalized(s),
{
    reveal_with_fuel(replayed, 3);
}

proof fn lemma_close_start_is_stored(s: Instance, sequence: u32)
    requires
        super::close_start_result(s, sequence) is Ok,
    ensures
        replayed(s, super::close_start_actions(s, sequence)) == super::close_started(s, sequence),
{
    reveal_with_fuel(replayed, 5);
}

proof fn lemma_refund_is_stored(s: Instance, sequence: u32)
    requires
        super::refund_result(s, sequence) is Ok,
    ensures
        replayed(s, super::refund_actions(s, sequence)) == super::finalized(s),
{
    reveal_with_fuel(replayed, 3);
}

proof fn lemma_extension_stores_nothing(s: Instance)
    ensures
        replayed(s, seq![super::extend_ttl()]) == s,
{
    reveal_with_fuel(replayed, 2);
}

proof fn lemma_settlement_is_stored(s: Instance, contract: Address, amount: i128)
    requires
        super::settle_result(s, amount, true) is Ok,
    ensures
        replayed(s, super::settle_actions(s, contract, amount, true)) == super::settled(s, amount),
{
    reveal_with_fuel(replayed, 6);
    let actions = super::payout_actions(s, contract, amount);
    assert(seq![super::extend_ttl()] + seq![] =~= seq![super::extend_ttl()]);
    lemma_replayed_in_parts(s, seq![super::extend_ttl()], actions);
    lemma_replayed_in_parts(
        s,
        seq![Action::RequireAuth(s.to)],
        seq![super::extend_ttl()] + actions,
    );
}

/// How much of `token` an action brings to `holder`, less what it takes.
pub open spec fn gain(action: Action, token: Address, holder: Address) -> int {
    match action {
        Action::Transfer { token: moved, from, to, amount } => if moved == token {
            (if to == holder {
                amount as int
            } else {
                0
            }) - (if from == holder {
                amount as int
            } else {
                0
            })
        } else {
            0
        },
        _ => 0,
    }
}

/// How much of `token` a series of actions brings to `holder`, less what it
/// takes.
pub open spec fn total_gain(actions: Seq<Action>, token: Address, holder: Address) -> int
    decreases actions.len(),
{
    if actions.len() == 0 {
        0
    } else {
        total_gain(actions.drop_last(), token, holder) + gain(actions.last(), token, holder)
    }
}

proof fn lemma_total_gain_in_parts(
    first: Seq<Action>,
    second: Seq<Action>,
    token: Address,
    holder: Address,
)
    ensures
        total_gain(first + second, token, holder) == total_gain(first, token, holder) + total_gain(
            second,
            token,
            holder,
        ),
    decreases second.len(),
{
    if second.len() == 0 {
        assert(first + second =~= first);
    } else {
        assert((first + second).drop_last() =~= first + second.drop_last());
        lemma_total_gain_in_parts(first, second.drop_last(), token, holder);
    }
}

proof fn lemma_nothing_moves(actions: Seq<Action>, token: Address, holder: Address)
    requires
        forall|i: int| 0 <= i < actions.len() ==> !(#[trigger] actions[i] is Transfer),
    ensures
        total_gain(actions, token, holder) == 0,
    decreases actions.len(),
{
    if actions.len() > 0 {
        lemma_nothing_moves(actions.drop_last(), token, holder);
    }
}

/// What `holder` gains where `amount` is moved from `from` to `to`.
spec fn gain_of_move(from: Address, to: Address, amount: int, holder: Address) -> int {
    (if to == holder {
        amount
    } else {
        0
    }) - (if from == holder {
        amount
    } else {
        0
    })
}

proof fn lemma_deposit_moves(s: Instance, contract: Address, amount: i128, holder: Address)
    requires
        super::top_up_result(s, amount) is Ok,
    ensures
        total_gain(super::top_up_actions(s, contract, amount), s.token, holder) == gain_of_move(
            s.from,
            contract,
            amount as int,
            holder,
        ),
{
    reveal_with_fuel(total_gain, 6);
}

proof fn lemma_settlement_moves(s: Instance, contract: Address, amount: i128, holder: Address)
    requires
        super::settle_result(s, amount, true) is Ok,
    ensures
        total_gain(super::settle_actions(s, contract, amount, true), s.token, holder)
            == gain_of_move(contract, s.to, s.payout(amount) as int, holder),
{
    reveal_with_fuel(total_gain, 4);
    let actions = super::payout_actions(s, contract, amount);
    lemma_total_gain_in_parts(seq![super::extend_ttl()], actions, s.token, holder);
    lemma_total_gain_in_parts(
        seq![Action::RequireAuth(s.to)],
        seq![super::extend_ttl()] + actions,
        s.token,
        holder,
    );
}

/// What an accepted operation brings a holder, refunds aside: a deposit moves
/// its amount from the funder to the channel, a commitment what it pays from the
/// channel to the recipient, and nothing else moves anything.
proof fn lemma_operation_moves(s: Instance, contract: Address, step: Step, holder: Address)
    requires
        accepts(s, step),
    ensures
        total_gain(actions_of(s, contract, step), s.token, holder) == match step.operation {
            Operation::TopUp { amount } => gain_of_move(s.from, contract, amount as int, holder),
            Operation::Settle { amount, .. } => gain_of_move(
                contract,
                s.to,
                s.payout(amount) as int,
                holder,
            ),
            Operation::Close { amount, .. } => gain_of_move(
                contract,
                s.to,
                s.payout(amount) as int,
                holder,
            ),
            _ => 0,
        },
{
    match step.operation {
        Operation::TopUp { amount } => {
            lemma_deposit_moves(s, contract, amount, holder);
        },
        Operation::Settle { amount, valid } => {
            lemma_settlement_moves(s, contract, amount, holder);
        },
        Operation::Close { amount, valid } => {
            let closing = super::closing_actions(super::settled(s, amount), step.sequence);
            lemma_settlement_moves(s, contract, amount, holder);
            lemma_nothing_moves(closing, s.token, holder);
            lemma_total_gain_in_parts(
                super::settle_actions(s, contract, amount, valid),
                closing,
                s.token,
                holder,
            );
        },
        Operation::CloseStart => {
            lemma_nothing_moves(super::close_start_actions(s, step.sequence), s.token, holder);
        },
        Operation::Refund => {
            lemma_nothing_moves(super::refund_actions(s, step.sequence), s.token, holder);
        },
        Operation::Extend => {
            lemma_nothing_moves(seq![super::extend_ttl()], s.token, holder);
        },
    }
}

/// What is deposited and not withdrawn.
pub open spec fn unclaimed(s: Instance) -> int {
    s.deposited() - s.withdrawn()
}

/// Deposits and withdrawals move exactly the tokens that they account for: the
/// channel holds more, or less, by as much as what is deposited and not
/// withdrawn grows, or shrinks.
pub proof fn law_tokens_follow_the_accounts(s: Instance, contract: Address, step: Step)
    requires
        s.wf(),
        accepts(s, step),
        s.from != contract,
        s.to != contract,
    ensures
        total_gain(actions_of(s, contract, step), s.token, contract) == unclaimed(after(s, step))
            - unclaimed(s),
{
    lemma_operation_moves(s, contract, step, contract);
}

/// How much of its token a series of operations on a channel brings to `holder`,
/// less what it takes, refunds aside. The host undoes what an operation that is
/// not accepted had it do.
pub open spec fn gain_over(
    s: Instance,
    contract: Address,
    steps: Seq<Step>,
    holder: Address,
) -> int
    decreases steps.len(),
{
    if steps.len() == 0 {
        0
    } else {
        let before = after_all(s, steps.drop_last());
        gain_over(s, contract, steps.drop_last(), holder) + if accepts(before, steps.last()) {
            total_gain(actions_of(before, contract, steps.last()), s.token, holder)
        } else {
            0
        }
    }
}

/// Whatever is done to a channel, the recipient receives exactly by how much the
/// total withdrawn grows: commitments pay cumulatively, and nothing else pays
/// the recipient.
pub proof fn law_recipient_receives_what_is_withdrawn(
    s: Instance,
    now: u32,
    contract: Address,
    steps: Seq<Step>,
)
    requires
        wf_at(s, now),
        in_order(now, steps),
        s.to != contract,
        s.to != s.from,
    ensures
        gain_over(s, contract, steps, s.to) == after_all(s, steps).withdrawn() - s.withdrawn(),
    decreases steps.len(),
{
    if steps.len() > 0 {
        let before = steps.drop_last();
        let reached = after_all(s, before);
        law_recipient_receives_what_is_withdrawn(s, now, contract, before);
        law_operations_keep_channel_well_formed(s, now, before);
        law_configuration_is_fixed(s, before);
        if accepts(reached, steps.last()) {
            lemma_operation_moves(reached, contract, steps.last(), s.to);
        }
    }
}

/// Whatever is done to a channel, refunds aside, what it holds changes by exactly
/// as much as what is deposited and not withdrawn. A channel that holds that much
/// goes on to do so until a refund, and so can pay every commitment that it
/// accepts.
pub proof fn law_accepted_commitments_are_covered(
    s: Instance,
    now: u32,
    contract: Address,
    steps: Seq<Step>,
    balance: int,
    amount: i128,
)
    requires
        wf_at(s, now),
        in_order(now, steps),
        s.from != contract,
        s.to != contract,
        balance >= unclaimed(s),
    ensures
        gain_over(s, contract, steps, contract) == unclaimed(after_all(s, steps)) - unclaimed(s),
        balance + gain_over(s, contract, steps, contract) >= unclaimed(after_all(s, steps)),
        super::settle_result(after_all(s, steps), amount, true) is Ok ==> after_all(
            s,
            steps,
        ).payout(amount) <= balance + gain_over(s, contract, steps, contract),
    decreases steps.len(),
{
    law_operations_keep_channel_well_formed(s, now, steps);
    if steps.len() > 0 {
        let before = steps.drop_last();
        law_accepted_commitments_are_covered(s, now, contract, before, balance, amount);
        law_operations_keep_channel_well_formed(s, now, before);
        law_configuration_is_fixed(s, before);
        if accepts(after_all(s, before), steps.last()) {
            law_tokens_follow_the_accounts(after_all(s, before), contract, steps.last());
        }
    }
}

/// A refund gives the funder everything that the channel holds.
pub proof fn law_refund_empties_the_channel(s: Instance, contract: Address, balance: i128)
    requires
        balance >= 0,
        s.from != contract,
    ensures
        total_gain(super::refund_balance_actions(s, contract, balance), s.token, contract)
            == -balance,
        total_gain(super::refund_balance_actions(s, contract, balance), s.token, s.from) == balance,
{
    reveal_with_fuel(total_gain, 3);
}

/// Of a final channel nothing but a refund moves tokens, and a refund brings them
/// to the funder alone.
pub proof fn law_final_channel_pays_only_the_funder(
    s: Instance,
    now: u32,
    contract: Address,
    steps: Seq<Step>,
    balance: i128,
    holder: Address,
)
    requires
        wf_at(s, now),
        s.is_refunded(),
        in_order(now, steps),
        holder != s.from,
        holder != contract,
    ensures
        gain_over(s, contract, steps, holder) == 0,
        gain_over(s, contract, steps, s.from) == 0,
        gain_over(s, contract, steps, contract) == 0,
        total_gain(super::refund_balance_actions(s, contract, balance), s.token, holder) == 0,
    decreases steps.len(),
{
    reveal_with_fuel(total_gain, 3);
    if steps.len() > 0 {
        let before = steps.drop_last();
        law_final_channel_pays_only_the_funder(s, now, contract, before, balance, holder);
        law_final_channel_never_changes(s, now, before);
        if accepts(s, steps.last()) {
            lemma_operation_moves(s, contract, steps.last(), holder);
            lemma_operation_moves(s, contract, steps.last(), s.from);
            lemma_operation_moves(s, contract, steps.last(), contract);
        }
    }
}

/// What a series of actions comes to where every attempted transfer succeeds.
pub open spec fn with_success(actions: Seq<Action>) -> Seq<Action> {
    actions.map_values(
        |action: Action|
            match action {
                Action::TryTransfer { token, from, to, amount } => Action::Transfer {
                    token,
                    from,
                    to,
                    amount,
                },
                other => other,
            },
    )
}

/// A close leaves the rest to the funder: everything that the channel holds
/// after the withdrawal goes to the funder where the automatic refund succeeds.
/// Where it fails, nothing moves, and the funder can be refunded at any time from
/// then on.
pub proof fn law_close_leaves_the_rest_to_the_funder(
    s: Instance,
    contract: Address,
    step: Step,
    balance: i128,
    later: u32,
)
    requires
        accepts(s, step),
        step.operation is Close,
        balance >= 0,
        s.from != contract,
        step.sequence <= later,
    ensures
        ({
            let actions = super::close_balance_actions(s, contract, balance);
            &&& total_gain(with_success(actions), s.token, contract) == -balance
            &&& total_gain(with_success(actions), s.token, s.from) == balance
            &&& total_gain(actions, s.token, contract) == 0
        }),
        super::refund_result(after(s, step), later) == Ok::<(), Error>(()),
{
    reveal_with_fuel(total_gain, 3);
    let actions = super::close_balance_actions(s, contract, balance);
    assert(with_success(actions).len() == actions.len());
}

/// The bytes that `prepare_commitment` hands out are those that `settle` and
/// `close` verify the signature of.
pub proof fn law_prepared_bytes_are_verified(
    s: Instance,
    context: Context,
    amount: i128,
    bytes: Seq<u8>,
    signature: Seq<u8>,
)
    requires
        super::identifies(bytes, context.network_id@, context.contract, amount),
    ensures
        super::is_signed(s, context, amount, signature) == platform::ed25519_valid(
            s.commitment_key@,
            bytes,
            signature,
        ),
{
}

/// The bytes of a commitment are not those of one to another amount, of another
/// channel or on another network, so that its signature speaks for it alone.
pub proof fn law_commitments_are_not_interchangeable(
    bytes: Seq<u8>,
    context: Context,
    amount: i128,
    other: Context,
    other_amount: i128,
)
    requires
        super::identifies(bytes, context.network_id@, context.contract, amount),
        context.network_id@ != other.network_id@ || context.contract != other.contract || amount
            != other_amount,
    ensures
        super::commitment_bytes(other.network_id@, other.contract, other_amount) != bytes,
{
    super::lemma_commitment_is_map(other.network_id@, other.contract, other_amount);
}

} // verus!
