//! The accounting law over whole operation histories.
//!
//! A successful deposit or withdrawal changes the supply exactly as its
//! contract in [`crate::ops`] states; this module replays any such history
//! abstractly and proves that the supply is always the running sum of
//! deposits minus withdrawals, inside the 64-bit range at every step.

use vstd::prelude::*;

verus! {

/// One successful supply-changing operation, as its contract records it.
#[derive(Clone, Copy, Debug)]
pub enum LedgerEvent {
    /// A settled deposit credited this amount.
    Deposited { amount: u64 },
    /// A settled withdrawal (emergency or not) debited this amount.
    Withdrew { amount: u64 },
}

/// The amount the event credits to the supply.
pub open spec fn deposited_amount(e: LedgerEvent) -> nat {
    match e {
        LedgerEvent::Deposited { amount } => amount as nat,
        LedgerEvent::Withdrew { .. } => 0,
    }
}

/// The amount the event debits from the supply.
pub open spec fn withdrawn_amount(e: LedgerEvent) -> nat {
    match e {
        LedgerEvent::Deposited { .. } => 0,
        LedgerEvent::Withdrew { amount } => amount as nat,
    }
}

/// Whether the event can settle on a pool with this supply: exactly the
/// condition under which the corresponding operation returns `Ok` rather
/// than `Overflow` or `InsufficientFunds`.
pub open spec fn event_applies(supply: nat, e: LedgerEvent) -> bool {
    match e {
        LedgerEvent::Deposited { amount } => supply + amount <= u64::MAX,
        LedgerEvent::Withdrew { amount } => amount <= supply,
    }
}

/// The supply after the event settles.
pub open spec fn apply_event(supply: nat, e: LedgerEvent) -> nat {
    (supply + deposited_amount(e) - withdrawn_amount(e)) as nat
}

/// Whether every event of the history settles on the supply left by its
/// predecessors: the history consists of only-successful operations.
pub open spec fn replay_applies(supply: nat, events: Seq<LedgerEvent>) -> bool
    decreases events.len(),
{
    events.len() == 0 || (event_applies(supply, events.first()) && replay_applies(
        apply_event(supply, events.first()),
        events.drop_first(),
    ))
}

/// The supply after the whole history settles.
pub open spec fn replay(supply: nat, events: Seq<LedgerEvent>) -> nat
    decreases events.len(),
{
    if events.len() == 0 {
        supply
    } else {
        replay(apply_event(supply, events.first()), events.drop_first())
    }
}

/// The sum of all deposited amounts in the history.
pub open spec fn sum_deposits(events: Seq<LedgerEvent>) -> nat
    decreases events.len(),
{
    if events.len() == 0 {
        0
    } else {
        deposited_amount(events.first()) + sum_deposits(events.drop_first())
    }
}

/// The sum of all withdrawn amounts in the history.
pub open spec fn sum_withdrawals(events: Seq<LedgerEvent>) -> nat
    decreases events.len(),
{
    if events.len() == 0 {
        0
    } else {
        withdrawn_amount(events.first()) + sum_withdrawals(events.drop_first())
    }
}

/// For any sequence of only-successful operations, the final supply equals
/// the initial supply plus all deposited amounts minus all withdrawn
/// amounts (stated additively over naturals), and it never exceeds the
/// 64-bit maximum; the intermediate supplies stay in range as well, since
/// each step of the replay is admissible by `replay_applies`.
pub proof fn lemma_supply_conservation(supply: nat, events: Seq<LedgerEvent>)
    requires
        supply <= u64::MAX,
        replay_applies(supply, events),
    ensures
        replay(supply, events) + sum_withdrawals(events) == supply + sum_deposits(events),
        replay(supply, events) <= u64::MAX,
    decreases events.len(),
{
    if events.len() > 0 {
        lemma_supply_conservation(apply_event(supply, events.first()), events.drop_first());
    }
}

/// A deposit that settles per its contract — the new supply is the old plus
/// the amount, as a 64-bit value — is one admissible `Deposited` step of the
/// replay.
pub proof fn lemma_settled_deposit_is_event(supply_before: u64, supply_after: u64, amount: u64)
    requires
        supply_after == supply_before + amount,
    ensures
        event_applies(supply_before as nat, LedgerEvent::Deposited { amount }),
        apply_event(supply_before as nat, LedgerEvent::Deposited { amount })
            == supply_after as nat,
{
}

/// A withdrawal that settles per its contract — the new supply is the old
/// minus the amount, which cannot exceed it — is one admissible `Withdrew`
/// step of the replay.
pub proof fn lemma_settled_withdrawal_is_event(supply_before: u64, supply_after: u64, amount: u64)
    requires
        amount <= supply_before,
        supply_after == supply_before - amount,
    ensures
        event_applies(supply_before as nat, LedgerEvent::Withdrew { amount }),
        apply_event(supply_before as nat, LedgerEvent::Withdrew { amount })
            == supply_after as nat,
{
}

} // verus!
