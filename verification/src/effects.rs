//! What each call answers, and what it changes, in plain terms: which
//! conditions lead to which answer, which parts of the bridge differ afterwards
//! and how, and what a later look at the bridge shows.

use crate::address::Address;
use crate::bridge::FiatBridge;
use crate::laws::{refusal, run, settled, step, Call};
use crate::model::{
    deposit_events, page_of, payout_events, receipts_of, sum_of_amounts, BridgeModel,
};
use crate::reference::{bytes_contents, MAX_REFERENCE_LEN};
use crate::types::{
    Abort, Config, Error, Event, Failure, Invocation, Receipt, ReceiptModel, Transfer,
};
use vstd::prelude::*;
use vstd::std_specs::cmp::PartialEqSpec;

verus! {

// ---- what the values mean ----

/// The mathematical value of a bridge shows each part of it as it is.
pub proof fn law_model_shows_the_bridge(bridge: FiatBridge)
    ensures
        bridge@.config == bridge.config,
        bridge@.paused == bridge.paused,
        bridge@.lock_period == bridge.lock_period,
        bridge@.total_deposited == bridge.total_deposited,
        bridge@.requests == bridge.requests@,
        bridge@.receipts.len() == bridge.receipts@.len(),
        forall|i: int|
            0 <= i < bridge.receipts@.len() ==> #[trigger] bridge@.receipts[i]
                == bridge.receipts@[i]@,
{
}

/// The mathematical value of a receipt shows each field of it as it is.
pub proof fn law_model_shows_the_receipt(receipt: Receipt)
    ensures
        receipt@.id == receipt.id,
        receipt@.depositor == receipt.depositor,
        receipt@.amount == receipt.amount,
        receipt@.ledger == receipt.ledger,
        receipt@.reference == bytes_contents(receipt.reference),
{
}

/// Addresses are the same exactly when their characters are.
pub proof fn law_addresses_are_their_characters(a: Address, b: Address)
    ensures
        a == b <==> a.strkey@ == b.strkey@,
        a.eq_spec(&b) <==> a == b,
{
    if a.strkey@ == b.strkey@ {
        assert(a.strkey =~= b.strkey);
    }
}

/// An address has authorized an invocation exactly when it is among the signers.
pub proof fn law_signers_have_authorized(invocation: Invocation, address: Address)
    ensures
        invocation.signed_by(address) <==> exists|i: int|
            0 <= i < invocation.signers@.len() && #[trigger] invocation.signers@[i] == address,
{
}

/// The pending requests are those whose place is taken.
pub proof fn law_pending_requests_are_the_places_taken(state: BridgeModel, id: int)
    ensures
        0 <= id < state.requests.len() ==> state.pending(id) == state.requests[id],
        !(0 <= id < state.requests.len()) ==> state.pending(id) is None,
{
}

/// A bridge that nobody has set up holds nothing and is not paused.
pub proof fn law_fresh_bridge_is_blank()
    ensures
        BridgeModel::fresh().config is None,
        !BridgeModel::fresh().paused,
        BridgeModel::fresh().lock_period == 0,
        BridgeModel::fresh().total_deposited == 0,
        BridgeModel::fresh().receipts.len() == 0,
        BridgeModel::fresh().requests.len() == 0,
{
}

/// The sum over no receipts is zero, and each receipt adds its amount.
pub proof fn law_sum_counts_each_receipt_once(
    receipts: Seq<ReceiptModel>,
    more: Seq<ReceiptModel>,
    receipt: ReceiptModel,
)
    ensures
        sum_of_amounts(Seq::empty()) == 0,
        sum_of_amounts(seq![receipt]) == receipt.amount,
        sum_of_amounts(receipts + more) == sum_of_amounts(receipts) + sum_of_amounts(more),
    decreases more.len(),
{
    reveal_with_fuel(sum_of_amounts, 2);
    assert(seq![receipt].drop_last() =~= Seq::empty());
    if more.len() == 0 {
        assert(receipts + more =~= receipts);
    } else {
        law_sum_counts_each_receipt_once(receipts, more.drop_last(), receipt);
        assert((receipts + more).drop_last() =~= receipts + more.drop_last());
        assert((receipts + more).last() == more.last());
    }
}

// ---- what a call answers ----

/// Setting up is refused exactly when the bridge has been set up before.
pub proof fn law_answers_of_init(state: BridgeModel)
    ensures
        state.init_refusal() is None <==> state.config is None,
        state.init_refusal() is Some ==> state.init_refusal() == Some(
            Failure::Contract(Error::AlreadyInitialized),
        ),
{
}

/// What only the administrator may do is refused exactly when there is no
/// administrator yet or the administrator has not authorized it.
pub proof fn law_answers_of_administration(state: BridgeModel, invocation: Invocation)
    ensures
        state.admin_refusal(invocation) is None <==> {
            &&& state.config is Some
            &&& invocation.signers@.contains(state.config->Some_0.admin)
        },
        state.admin_refusal(invocation) is Some && state.config is None
            ==> state.admin_refusal(invocation) == Some(Failure::Aborted(Abort::NotInitialized)),
        state.admin_refusal(invocation) is Some && state.config is Some
            ==> state.admin_refusal(invocation) == Some(Failure::Aborted(Abort::Unauthorized)),
{
}

/// Each answer to a deposit, with the deposits that get it.
pub proof fn law_answers_of_deposit(
    state: BridgeModel,
    from: Address,
    amount: i128,
    reference: Seq<u8>,
    invocation: Invocation,
)
    ensures
        MAX_REFERENCE_LEN == 64,
        ({
            let answer = state.deposit_refusal(from, amount, reference, invocation);
            let limit = state.config->Some_0.limit;
            let authorized = state.config is Some && invocation.signers@.contains(from);
            let open = authorized && !state.paused;
            &&& answer is None <==> {
                &&& open
                &&& 0 < amount <= limit
                &&& reference.len() <= 64
                &&& state.total_deposited + amount <= i128::MAX
            }
            &&& answer == Some(Failure::Aborted(Abort::NotInitialized)) <==> state.config is None
            &&& answer == Some(Failure::Aborted(Abort::Unauthorized)) <==> state.config is Some
                && !authorized
            &&& answer == Some(Failure::Contract(Error::ContractPaused)) <==> authorized
                && state.paused
            &&& answer == Some(Failure::Contract(Error::ZeroAmount)) <==> open && amount <= 0
            &&& answer == Some(Failure::Contract(Error::ExceedsLimit)) <==> open && 0 < amount
                && limit < amount
            &&& answer == Some(Failure::Contract(Error::ReferenceTooLong)) <==> open && 0 < amount
                <= limit && reference.len() > 64
            &&& answer == Some(Failure::Aborted(Abort::Overflow)) <==> {
                &&& open
                &&& 0 < amount <= limit
                &&& reference.len() <= 64
                &&& state.total_deposited + amount > i128::MAX
            }
        }),
{
}

/// Each answer to an immediate withdrawal, with the withdrawals that get it. In
/// particular every positive amount that the bridge holds is paid to whom the
/// administrator says, unless the bridge is paused.
pub proof fn law_answers_of_withdraw(
    state: BridgeModel,
    amount: i128,
    balance: i128,
    invocation: Invocation,
)
    ensures
        ({
            let answer = state.withdraw_refusal(amount, balance, invocation);
            let authorized = state.config is Some && invocation.signers@.contains(
                state.config->Some_0.admin,
            );
            let open = authorized && !state.paused;
            &&& answer is None <==> open && 0 < amount <= balance
            &&& answer == Some(Failure::Aborted(Abort::NotInitialized)) <==> state.config is None
            &&& answer == Some(Failure::Aborted(Abort::Unauthorized)) <==> state.config is Some
                && !authorized
            &&& answer == Some(Failure::Contract(Error::ContractPaused)) <==> authorized
                && state.paused
            &&& answer == Some(Failure::Contract(Error::ZeroAmount)) <==> open && amount <= 0
            &&& answer == Some(Failure::Contract(Error::InsufficientFunds)) <==> open && 0 < amount
                && balance < amount
        }),
{
}

/// Each answer to a withdrawal request, with the requests that get it. What the
/// bridge holds and whether it is paused play no part.
pub proof fn law_answers_of_request(state: BridgeModel, amount: i128, invocation: Invocation)
    ensures
        ({
            let answer = state.request_refusal(amount, invocation);
            let authorized = state.config is Some && invocation.signers@.contains(
                state.config->Some_0.admin,
            );
            let in_range = invocation.ledger + state.lock_period <= u32::MAX;
            &&& answer is None <==> authorized && 0 < amount && in_range
            &&& answer == Some(Failure::Aborted(Abort::NotInitialized)) <==> state.config is None
            &&& answer == Some(Failure::Aborted(Abort::Unauthorized)) <==> state.config is Some
                && !authorized
            &&& answer == Some(Failure::Contract(Error::ZeroAmount)) <==> authorized && amount <= 0
            &&& answer == Some(Failure::Aborted(Abort::Overflow)) <==> authorized && 0 < amount
                && !in_range
        }),
{
}

/// Each answer to an execution, with the executions that get it. Who authorizes
/// it and whether the bridge is paused play no part.
pub proof fn law_answers_of_execute(
    state: BridgeModel,
    id: int,
    balance: i128,
    invocation: Invocation,
)
    ensures
        ({
            let answer = state.execute_refusal(id, balance, invocation);
            let found = state.config is Some && 0 <= id < state.requests.len()
                && state.requests[id] is Some;
            let request = state.requests[id]->Some_0;
            let unlocked = found && request.unlock_ledger <= invocation.ledger;
            &&& answer is None <==> unlocked && request.amount <= balance
            &&& answer == Some(Failure::Aborted(Abort::NotInitialized)) <==> state.config is None
            &&& answer == Some(Failure::Contract(Error::RequestNotFound)) <==> state.config is Some
                && !found
            &&& answer == Some(Failure::Contract(Error::WithdrawalLocked)) <==> found && !unlocked
            &&& answer == Some(Failure::Contract(Error::InsufficientFunds)) <==> unlocked && balance
                < request.amount
        }),
{
}

/// Each answer to a cancellation, with the cancellations that get it. The
/// current ledger plays no part: a request can be cancelled while it is locked.
pub proof fn law_answers_of_cancel(state: BridgeModel, id: int, invocation: Invocation)
    ensures
        ({
            let answer = state.cancel_refusal(id, invocation);
            let authorized = state.config is Some && invocation.signers@.contains(
                state.config->Some_0.admin,
            );
            let found = 0 <= id < state.requests.len() && state.requests[id] is Some;
            &&& answer is None <==> authorized && found
            &&& answer == Some(Failure::Aborted(Abort::NotInitialized)) <==> state.config is None
            &&& answer == Some(Failure::Aborted(Abort::Unauthorized)) <==> state.config is Some
                && !authorized
            &&& answer == Some(Failure::Contract(Error::RequestNotFound)) <==> authorized && !found
        }),
{
}

// ---- what an accepted call changes ----

/// Setting up stores administrator, token and limit, and nothing else.
pub proof fn law_init_stores_the_configuration(state: BridgeModel, config: Config)
    ensures
        ({
            let after = state.initialized(config);
            &&& after.config is Some
            &&& after.config->Some_0.admin == config.admin
            &&& after.config->Some_0.token == config.token
            &&& after.config->Some_0.limit == config.limit
            &&& after.paused == state.paused
            &&& after.lock_period == state.lock_period
            &&& after.total_deposited == state.total_deposited
            &&& after.receipts == state.receipts
            &&& after.requests == state.requests
        }),
{
}

/// A deposit appends one receipt with what was given, raises the total by the
/// amount, and changes nothing else.
pub proof fn law_deposit_adds_one_receipt(
    state: BridgeModel,
    from: Address,
    amount: i128,
    reference: Seq<u8>,
    invocation: Invocation,
)
    ensures
        ({
            let after = state.deposited(from, amount, reference, invocation);
            let id = state.receipts.len() as int;
            &&& after.receipts.len() == id + 1
            &&& after.receipts[id].id == id
            &&& after.receipts[id].depositor == from
            &&& after.receipts[id].amount == amount
            &&& after.receipts[id].ledger == invocation.ledger
            &&& after.receipts[id].reference == reference
            &&& forall|i: int| 0 <= i < id ==> #[trigger] after.receipts[i] == state.receipts[i]
            &&& after.total_deposited - state.total_deposited == amount
            &&& after.config == state.config
            &&& after.paused == state.paused
            &&& after.lock_period == state.lock_period
            &&& after.requests == state.requests
        }),
{
}

/// A request can be read back: the accepted request is pending under the next
/// number, for the recipient and the amount that were asked for, and unlocks
/// the lock period after the current ledger. Nothing else changes.
pub proof fn law_request_can_be_read_back(
    state: BridgeModel,
    to: Address,
    amount: i128,
    invocation: Invocation,
)
    requires
        state.request_refusal(amount, invocation) is None,
    ensures
        ({
            let after = state.requested(to, amount, invocation);
            let id = state.requests.len() as int;
            &&& after.requests.len() == id + 1
            &&& after.requests[id] is Some
            &&& after.requests[id]->Some_0.to == to
            &&& after.requests[id]->Some_0.amount == amount
            &&& after.requests[id]->Some_0.unlock_ledger == invocation.ledger + state.lock_period
            &&& after.pending(id) == after.requests[id]
            &&& forall|i: int| 0 <= i < id ==> #[trigger] after.requests[i] == state.requests[i]
            &&& after.config == state.config
            &&& after.paused == state.paused
            &&& after.lock_period == state.lock_period
            &&& after.total_deposited == state.total_deposited
            &&& after.receipts == state.receipts
        }),
{
}

/// Executing or cancelling a request takes that one away and changes nothing
/// else.
pub proof fn law_closing_takes_one_request_away(state: BridgeModel, id: int)
    requires
        0 <= id < state.requests.len(),
    ensures
        ({
            let after = state.closed(id);
            &&& after.requests.len() == state.requests.len()
            &&& after.requests[id] is None
            &&& after.pending(id) is None
            &&& forall|i: int|
                0 <= i < state.requests.len() && i != id ==> #[trigger] after.requests[i]
                    == state.requests[i]
            &&& after.config == state.config
            &&& after.paused == state.paused
            &&& after.lock_period == state.lock_period
            &&& after.total_deposited == state.total_deposited
            &&& after.receipts == state.receipts
        }),
{
}

/// A new limit, lock period or administrator is stored as given; nothing else
/// changes, whatever state the bridge is in.
pub proof fn law_settings_are_stored(
    state: BridgeModel,
    limit: i128,
    ledgers: u32,
    new_admin: Address,
)
    requires
        state.config is Some,
    ensures
        ({
            let before = state.config->Some_0;
            let limited = state.with_limit(limit);
            let handed = state.with_admin(new_admin);
            let locked = state.with_lock_period(ledgers);
            &&& limited.config == Some(Config { admin: before.admin, token: before.token, limit })
            &&& limited.paused == state.paused && limited.lock_period == state.lock_period
            &&& limited.total_deposited == state.total_deposited
            &&& limited.receipts == state.receipts && limited.requests == state.requests
            &&& handed.config == Some(
                Config { admin: new_admin, token: before.token, limit: before.limit },
            )
            &&& handed.paused == state.paused && handed.lock_period == state.lock_period
            &&& handed.total_deposited == state.total_deposited
            &&& handed.receipts == state.receipts && handed.requests == state.requests
            &&& locked.lock_period == ledgers
            &&& locked.config == state.config && locked.paused == state.paused
            &&& locked.total_deposited == state.total_deposited
            &&& locked.receipts == state.receipts && locked.requests == state.requests
        }),
{
}

/// Pausing and unpausing set the pause as asked, whatever state the bridge is
/// in, and change nothing else.
pub proof fn law_pause_is_stored(state: BridgeModel, paused: bool)
    ensures
        state.with_paused(paused).paused == paused,
        state.with_paused(paused).config == state.config,
        state.with_paused(paused).lock_period == state.lock_period,
        state.with_paused(paused).total_deposited == state.total_deposited,
        state.with_paused(paused).receipts == state.receipts,
        state.with_paused(paused).requests == state.requests,
{
}

/// A deposit announces itself and its receipt, a payment announces itself.
pub proof fn law_events_tell_what_happened(receipt_id: u64, party: Address, amount: i128)
    ensures
        ({
            let events = deposit_events(receipt_id, party, amount);
            &&& events.len() == 2
            &&& events[0] == (Event::Deposit { from: party, amount })
            &&& events[1] == (Event::ReceiptIssued { receipt_id, depositor: party, amount })
        }),
        payout_events(party, amount).len() == 1,
        payout_events(party, amount)[0] == (Event::Withdraw { to: party, amount }),
{
}

/// A transfer takes the amount from one side and gives it to the other; no
/// third balance changes.
pub proof fn law_transfers_move_the_amount(
    balances: Map<Address, int>,
    bridge: Address,
    party: Address,
    amount: i128,
    other: Address,
)
    requires
        party != bridge,
        other != bridge && other != party,
    ensures
        ({
            let paid_in = settled(balances, bridge, Transfer::IntoBridge { from: party, amount });
            let paid_out = settled(balances, bridge, Transfer::OutOfBridge { to: party, amount });
            &&& paid_in[bridge] == balances[bridge] + amount
            &&& paid_in[party] == balances[party] - amount
            &&& paid_in[other] == balances[other]
            &&& paid_out[bridge] == balances[bridge] - amount
            &&& paid_out[party] == balances[party] + amount
            &&& paid_out[other] == balances[other]
        }),
{
}

// ---- histories ----

/// A history is its calls one after the other, and a call that is refused
/// leaves everything as it is.
pub proof fn law_histories_go_call_by_call(
    state: BridgeModel,
    history: Seq<(Call, Invocation)>,
    call: Call,
    invocation: Invocation,
)
    ensures
        run(state, Seq::empty()) == state,
        run(state, history.push((call, invocation))) == step(
            run(state, history),
            call,
            invocation,
        ),
        refusal(state, call, invocation) is Some ==> step(state, call, invocation) == state,
{
    assert(history.push((call, invocation)).drop_last() =~= history);
}

/// As long as a request has not been closed it stays what it was when it was
/// queued: for the recipient and the amount that were asked for, and with the
/// unlock ledger that it was given.
pub proof fn law_queued_request_stays_as_asked(
    state: BridgeModel,
    to: Address,
    amount: i128,
    invocation: Invocation,
    history: Seq<(Call, Invocation)>,
)
    requires
        state.request_refusal(amount, invocation) is None,
    ensures
        ({
            let id = state.requests.len() as int;
            let later = run(state.requested(to, amount, invocation), history);
            &&& id < later.requests.len()
            &&& later.pending(id) == later.requests[id]
            &&& later.requests[id] is Some ==> {
                &&& later.requests[id]->Some_0.to == to
                &&& later.requests[id]->Some_0.amount == amount
                &&& later.requests[id]->Some_0.unlock_ledger == invocation.ledger
                    + state.lock_period
            }
        }),
{
    let requested = state.requested(to, amount, invocation);
    lemma_place_is_kept(requested, state.requests.len() as int, history);
}

/// Whatever is called, a place for a request keeps its request or is emptied.
proof fn lemma_place_is_kept(state: BridgeModel, id: int, history: Seq<(Call, Invocation)>)
    requires
        0 <= id < state.requests.len(),
    ensures
        id < run(state, history).requests.len(),
        run(state, history).requests[id] is Some ==> run(state, history).requests[id]
            == state.requests[id],
    decreases history.len(),
{
    if history.len() > 0 {
        lemma_place_is_kept(state, id, history.drop_last());
    }
}

/// An execution pays what was asked for: if the request is accepted for
/// execution after any history, what is paid out is the amount of the request,
/// to its recipient, and the lock has run out.
pub proof fn law_execution_pays_what_was_asked(
    state: BridgeModel,
    to: Address,
    amount: i128,
    invocation: Invocation,
    history: Seq<(Call, Invocation)>,
    balance: i128,
    later: Invocation,
)
    requires
        state.request_refusal(amount, invocation) is None,
        run(state.requested(to, amount, invocation), history).execute_refusal(
            state.requests.len() as int,
            balance,
            later,
        ) is None,
    ensures
        ({
            let id = state.requests.len() as int;
            let waiting = run(state.requested(to, amount, invocation), history);
            &&& waiting.pending(id) is Some
            &&& waiting.pending(id)->Some_0.to == to
            &&& waiting.pending(id)->Some_0.amount == amount
            &&& amount <= balance
            &&& later.ledger >= invocation.ledger + state.lock_period
        }),
{
    law_queued_request_stays_as_asked(state, to, amount, invocation, history);
}

/// A pending request waits: as long as nobody executes or cancels it, no other
/// call takes it away.
pub proof fn law_pending_request_waits(
    state: BridgeModel,
    id: int,
    history: Seq<(Call, Invocation)>,
)
    requires
        0 <= id < state.requests.len(),
        forall|i: int|
            0 <= i < history.len() ==> match (#[trigger] history[i]).0 {
                Call::ExecuteWithdrawal { id: other, balance } => other != id,
                Call::CancelWithdrawal { id: other } => other != id,
                _ => true,
            },
    ensures
        id < run(state, history).requests.len(),
        run(state, history).requests[id] == state.requests[id],
    decreases history.len(),
{
    if history.len() > 0 {
        let earlier = history.drop_last();
        assert forall|i: int| 0 <= i < earlier.len() implies match (#[trigger] earlier[i]).0 {
            Call::ExecuteWithdrawal { id: other, balance } => other != id,
            Call::CancelWithdrawal { id: other } => other != id,
            _ => true,
        } by {
            assert(earlier[i] == history[i]);
        }
        law_pending_request_waits(state, id, earlier);
        assert(history.last() == history[history.len() - 1]);
    }
}

/// A pause lasts: from an accepted pause until somebody unpauses the bridge,
/// every deposit and every immediate withdrawal is refused, whatever else is
/// called in between.
pub proof fn law_pause_lasts_until_unpause(
    state: BridgeModel,
    invocation: Invocation,
    history: Seq<(Call, Invocation)>,
    from: Address,
    amount: i128,
    reference: Seq<u8>,
    balance: i128,
    later: Invocation,
)
    requires
        state.admin_refusal(invocation) is None,
        forall|i: int| 0 <= i < history.len() ==> !((#[trigger] history[i]).0 is Unpause),
    ensures
        ({
            let paused = run(step(state, Call::Pause, invocation), history);
            &&& paused.paused
            &&& paused.deposit_refusal(from, amount, reference, later) is Some
            &&& paused.withdraw_refusal(amount, balance, later) is Some
        }),
    decreases history.len(),
{
    if history.len() > 0 {
        let earlier = history.drop_last();
        assert forall|i: int| 0 <= i < earlier.len() implies !((#[trigger] earlier[i]).0
            is Unpause) by {
            assert(earlier[i] == history[i]);
        }
        law_pause_lasts_until_unpause(
            state,
            invocation,
            earlier,
            from,
            amount,
            reference,
            balance,
            later,
        );
        assert(history.last() == history[history.len() - 1]);
    }
}

/// Every answer and every change of a call is that of the operation it names.
pub proof fn law_calls_are_the_operations(
    state: BridgeModel,
    party: Address,
    amount: i128,
    reference: Seq<u8>,
    id: int,
    balance: i128,
    ledgers: u32,
    config: Config,
    invocation: Invocation,
)
    ensures
        ({
            let deposit = Call::Deposit { from: party, amount, reference };
            let withdraw = Call::Withdraw { to: party, amount, balance };
            let request = Call::RequestWithdrawal { to: party, amount };
            let execute = Call::ExecuteWithdrawal { id, balance };
            let cancel = Call::CancelWithdrawal { id };
            let init = Call::Init { config };
            &&& refusal(state, init, invocation) == state.init_refusal()
            &&& refusal(state, deposit, invocation) == state.deposit_refusal(
                party,
                amount,
                reference,
                invocation,
            )
            &&& refusal(state, withdraw, invocation) == state.withdraw_refusal(
                amount,
                balance,
                invocation,
            )
            &&& refusal(state, request, invocation) == state.request_refusal(amount, invocation)
            &&& refusal(state, execute, invocation) == state.execute_refusal(
                id,
                balance,
                invocation,
            )
            &&& refusal(state, cancel, invocation) == state.cancel_refusal(id, invocation)
            &&& state.init_refusal() is None ==> step(state, init, invocation)
                == state.initialized(config)
            &&& refusal(state, deposit, invocation) is None ==> step(state, deposit, invocation)
                == state.deposited(party, amount, reference, invocation)
            &&& step(state, withdraw, invocation) == state
            &&& refusal(state, request, invocation) is None ==> step(state, request, invocation)
                == state.requested(party, amount, invocation)
            &&& refusal(state, execute, invocation) is None ==> step(state, execute, invocation)
                == state.closed(id)
            &&& refusal(state, cancel, invocation) is None ==> step(state, cancel, invocation)
                == state.closed(id)
            &&& state.admin_refusal(invocation) is None ==> {
                &&& step(state, Call::SetLimit { limit: amount }, invocation) == state.with_limit(
                    amount,
                )
                &&& step(state, Call::SetLockPeriod { ledgers }, invocation)
                    == state.with_lock_period(ledgers)
                &&& step(state, Call::TransferAdmin { new_admin: party }, invocation)
                    == state.with_admin(party)
                &&& step(state, Call::Pause, invocation) == state.with_paused(true)
                &&& step(state, Call::Unpause, invocation) == state.with_paused(false)
            }
        }),
{
}

// ---- what the pages show ----

/// The receipts of a depositor are all those and only those, in their order.
pub proof fn law_receipts_of_a_depositor(receipts: Seq<ReceiptModel>, depositor: Address)
    ensures
        forall|i: int|
            0 <= i < receipts_of(receipts, depositor).len() ==> {
                &&& (#[trigger] receipts_of(receipts, depositor)[i]).depositor == depositor
                &&& receipts.contains(receipts_of(receipts, depositor)[i])
            },
        forall|i: int|
            0 <= i < receipts.len() && (#[trigger] receipts[i]).depositor == depositor
                ==> receipts_of(receipts, depositor).contains(receipts[i]),
    decreases receipts.len(),
{
    reveal(Seq::filter);
    if receipts.len() > 0 {
        let before = receipts.drop_last();
        law_receipts_of_a_depositor(before, depositor);
        let kept = receipts_of(before, depositor);
        let all = receipts_of(receipts, depositor);
        let added = receipts.last().depositor == depositor;
        assert(all == if added {
            kept.push(receipts.last())
        } else {
            kept
        });
        assert forall|i: int| 0 <= i < all.len() implies {
            &&& (#[trigger] all[i]).depositor == depositor
            &&& receipts.contains(all[i])
        } by {
            if i < kept.len() {
                assert(kept[i] == all[i]);
                let k = choose|k: int| 0 <= k < before.len() && before[k] == kept[i];
                assert(receipts[k] == all[i]);
            } else {
                assert(receipts[receipts.len() - 1] == all[i]);
            }
        }
        assert forall|i: int|
            0 <= i < receipts.len() && (#[trigger] receipts[i]).depositor == depositor implies
            all.contains(receipts[i]) by {
            if i < before.len() {
                assert(before[i] == receipts[i]);
                let k = choose|k: int| 0 <= k < kept.len() && kept[k] == before[i];
                assert(all[k] == receipts[i]);
            } else {
                assert(all[all.len() - 1] == receipts[i]);
            }
        }
    }
}

/// A page leaves nothing out: of the receipts of the depositor with numbers from
/// `from` on it holds each one up to its last, and all of them unless it is
/// full. It holds no more than asked for, only such receipts, each the one that
/// was issued under its number, and in the order of their numbers.
pub proof fn law_page_leaves_nothing_out(
    receipts: Seq<ReceiptModel>,
    depositor: Address,
    from: int,
    limit: nat,
)
    requires
        forall|i: int| 0 <= i < receipts.len() ==> (#[trigger] receipts[i]).id == i,
        0 <= from,
    ensures
        ({
            let page = page_of(receipts, depositor, from, limit);
            &&& page.len() <= limit
            &&& forall|i: int|
                0 <= i < page.len() ==> {
                    &&& (#[trigger] page[i]).depositor == depositor
                    &&& from <= page[i].id < receipts.len()
                    &&& receipts[page[i].id] == page[i]
                }
            &&& forall|i: int, j: int|
                0 <= i < j < page.len() ==> (#[trigger] page[i]).id < (#[trigger] page[j]).id
            &&& forall|id: int|
                from <= id < receipts.len() && (#[trigger] receipts[id]).depositor == depositor && (
                page.len() < limit || (page.len() > 0 && id <= page.last().id)) ==> page.contains(
                    receipts[id],
                )
        }),
    decreases receipts.len() - from,
{
    let page = page_of(receipts, depositor, from, limit);
    if from < receipts.len() && limit > 0 {
        crate::laws::lemma_page_step(receipts, depositor, from, limit);
        if receipts[from].depositor == depositor {
            let left = (limit - 1) as nat;
            let rest = page_of(receipts, depositor, from + 1, left);
            law_page_leaves_nothing_out(receipts, depositor, from + 1, left);
            assert(page[0] == receipts[from]);
            assert forall|i: int| 1 <= i < page.len() implies page[i] == #[trigger] rest[i - 1] by {}
            assert forall|id: int|
                from <= id < receipts.len() && (#[trigger] receipts[id]).depositor == depositor && (
                page.len() < limit || (page.len() > 0 && id <= page.last().id)) implies page.contains(
                receipts[id],
            ) by {
                if id > from {
                    if rest.len() > 0 {
                        assert(page.last() == rest.last());
                    }
                    let k = choose|k: int| 0 <= k < rest.len() && rest[k] == receipts[id];
                    assert(page[k + 1] == receipts[id]);
                }
            }
        } else {
            law_page_leaves_nothing_out(receipts, depositor, from + 1, limit);
        }
    }
}

} // verus!
