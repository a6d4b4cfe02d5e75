//! What holds of the bridge across calls.

use crate::address::Address;
use crate::model::{lemma_sum_of_one_more, page_of, BridgeModel};
use crate::types::{Abort, Config, Error, Failure, Invocation, ReceiptModel, Transfer};
use vstd::prelude::*;

verus! {

/// A call that can change the bridge, with its arguments.
pub enum Call {
    Init { config: Config },
    Deposit { from: Address, amount: i128, reference: Seq<u8> },
    Withdraw { to: Address, amount: i128, balance: i128 },
    RequestWithdrawal { to: Address, amount: i128 },
    ExecuteWithdrawal { id: int, balance: i128 },
    CancelWithdrawal { id: int },
    SetLimit { limit: i128 },
    SetLockPeriod { ledgers: u32 },
    TransferAdmin { new_admin: Address },
    Pause,
    Unpause,
}

/// Why the bridge in state `state` refuses a call, if it does.
pub open spec fn refusal(state: BridgeModel, call: Call, invocation: Invocation) -> Option<Failure> {
    match call {
        Call::Init { config } => state.init_refusal(),
        Call::Deposit { from, amount, reference } => state.deposit_refusal(
            from,
            amount,
            reference,
            invocation,
        ),
        Call::Withdraw { to, amount, balance } => state.withdraw_refusal(
            amount,
            balance,
            invocation,
        ),
        Call::RequestWithdrawal { to, amount } => state.request_refusal(amount, invocation),
        Call::ExecuteWithdrawal { id, balance } => state.execute_refusal(id, balance, invocation),
        Call::CancelWithdrawal { id } => state.cancel_refusal(id, invocation),
        Call::SetLimit { limit } => state.admin_refusal(invocation),
        Call::SetLockPeriod { ledgers } => state.admin_refusal(invocation),
        Call::TransferAdmin { new_admin } => state.admin_refusal(invocation),
        Call::Pause => state.admin_refusal(invocation),
        Call::Unpause => state.admin_refusal(invocation),
    }
}

/// The state after a call: the same one where the call is refused.
pub open spec fn step(state: BridgeModel, call: Call, invocation: Invocation) -> BridgeModel {
    if refusal(state, call, invocation) is Some {
        state
    } else {
        match call {
            Call::Init { config } => state.initialized(config),
            Call::Deposit { from, amount, reference } => state.deposited(
                from,
                amount,
                reference,
                invocation,
            ),
            Call::Withdraw { to, amount, balance } => state,
            Call::RequestWithdrawal { to, amount } => state.requested(to, amount, invocation),
            Call::ExecuteWithdrawal { id, balance } => state.closed(id),
            Call::CancelWithdrawal { id } => state.closed(id),
            Call::SetLimit { limit } => state.with_limit(limit),
            Call::SetLockPeriod { ledgers } => state.with_lock_period(ledgers),
            Call::TransferAdmin { new_admin } => state.with_admin(new_admin),
            Call::Pause => state.with_paused(true),
            Call::Unpause => state.with_paused(false),
        }
    }
}

/// The state after a history of calls.
pub open spec fn run(state: BridgeModel, history: Seq<(Call, Invocation)>) -> BridgeModel
    decreases history.len(),
{
    if history.len() == 0 {
        state
    } else {
        let before = run(state, history.drop_last());
        step(before, history.last().0, history.last().1)
    }
}

/// Whatever is called, a bridge stays valid: in every state that can be
/// reached, receipts are numbered from zero without gaps, each is for a
/// positive amount and carries a reference that is not too long, and the total
/// is the sum of their amounts.
pub proof fn law_every_state_is_valid(state: BridgeModel, history: Seq<(Call, Invocation)>)
    requires
        state.valid(),
    ensures
        run(state, history).valid(),
    decreases history.len(),
{
    if history.len() > 0 {
        law_every_state_is_valid(state, history.drop_last());
        let before = run(state, history.drop_last());
        let invocation = history.last().1;
        match history.last().0 {
            Call::Deposit { from, amount, reference } => {
                let after = before.deposited(from, amount, reference, invocation);
                lemma_sum_of_one_more(before.receipts, after.receipts.last());
            },
            _ => {},
        }
    }
}

/// A bridge that nobody has set up is valid.
pub proof fn law_fresh_bridge_is_valid()
    ensures
        BridgeModel::fresh().valid(),
{
}

/// Receipts are kept for good and never change; new ones are only appended.
pub proof fn law_receipts_are_kept(state: BridgeModel, history: Seq<(Call, Invocation)>)
    ensures
        state.receipts.is_prefix_of(run(state, history).receipts),
    decreases history.len(),
{
    if history.len() > 0 {
        law_receipts_are_kept(state, history.drop_last());
    }
}

/// What was deposited can be read back: an accepted deposit issues the receipt
/// with the next number, which holds the depositor, the amount, the current
/// ledger and the reference exactly as given, and it still does after any
/// further calls.
pub proof fn law_deposit_can_be_read_back(
    state: BridgeModel,
    from: Address,
    amount: i128,
    reference: Seq<u8>,
    invocation: Invocation,
    history: Seq<(Call, Invocation)>,
)
    requires
        state.deposit_refusal(from, amount, reference, invocation) is None,
    ensures
        ({
            let id = state.receipts.len() as int;
            let later = run(state.deposited(from, amount, reference, invocation), history);
            &&& id < later.receipts.len()
            &&& later.receipts[id] == (ReceiptModel {
                id,
                depositor: from,
                amount: amount as int,
                ledger: invocation.ledger,
                reference,
            })
        }),
{
    let after = state.deposited(from, amount, reference, invocation);
    let later = run(after, history);
    law_receipts_are_kept(after, history);
    let id = state.receipts.len() as int;
    assert(later.receipts.subrange(0, after.receipts.len() as int)[id] == later.receipts[id]);
}

/// When a deposit is accepted: exactly when the bridge is set up and not
/// paused, the depositor has authorized it, the amount is positive and within
/// the limit, the reference is not too long, and the total stays in range.
pub proof fn law_when_a_deposit_is_accepted(
    state: BridgeModel,
    from: Address,
    amount: i128,
    reference: Seq<u8>,
    invocation: Invocation,
)
    ensures
        state.deposit_refusal(from, amount, reference, invocation) is None <==> {
            &&& state.config is Some
            &&& invocation.signed_by(from)
            &&& !state.paused
            &&& 0 < amount <= state.config->Some_0.limit
            &&& reference.len() <= crate::reference::MAX_REFERENCE_LEN
            &&& state.total_deposited + amount <= i128::MAX
        },
{
}

/// The total of all deposits never falls.
pub proof fn law_total_never_falls(state: BridgeModel, history: Seq<(Call, Invocation)>)
    ensures
        state.total_deposited <= run(state, history).total_deposited,
    decreases history.len(),
{
    if history.len() > 0 {
        law_total_never_falls(state, history.drop_last());
    }
}

/// A bridge is set up once: from then on every further attempt is refused, and
/// the token stays the same.
pub proof fn law_set_up_once(state: BridgeModel, history: Seq<(Call, Invocation)>)
    requires
        state.config is Some,
    ensures
        run(state, history).init_refusal() == Some(Failure::Contract(Error::AlreadyInitialized)),
        run(state, history).config is Some,
        run(state, history).config->Some_0.token == state.config->Some_0.token,
    decreases history.len(),
{
    if history.len() > 0 {
        law_set_up_once(state, history.drop_last());
    }
}

/// Whoever does not have the authorization of the administrator cannot pause,
/// unpause, change the limit, the lock period or the administrator, withdraw,
/// or queue or cancel a request: each such call is refused.
pub proof fn law_only_the_administrator(state: BridgeModel, call: Call, invocation: Invocation)
    requires
        state.config is Some,
        !invocation.signed_by(state.config->Some_0.admin),
        !(call is Init) && !(call is Deposit) && !(call is ExecuteWithdrawal),
    ensures
        refusal(state, call, invocation) == Some(Failure::Aborted(Abort::Unauthorized)),
        step(state, call, invocation) == state,
{
}

/// While no call carries the authorization of the administrator, the
/// configuration, the pause and the lock period stay as they are, and no
/// withdrawal request is added.
pub proof fn law_settings_need_the_administrator(
    state: BridgeModel,
    history: Seq<(Call, Invocation)>,
)
    requires
        state.config is Some,
        forall|i: int|
            0 <= i < history.len() ==> !(#[trigger] history[i]).1.signed_by(
                state.config->Some_0.admin,
            ),
    ensures
        run(state, history).config == state.config,
        run(state, history).paused == state.paused,
        run(state, history).lock_period == state.lock_period,
        run(state, history).requests.len() == state.requests.len(),
    decreases history.len(),
{
    if history.len() > 0 {
        let earlier = history.drop_last();
        assert forall|i: int| 0 <= i < earlier.len() implies !(#[trigger] earlier[i]).1.signed_by(
            state.config->Some_0.admin,
        ) by {
            assert(earlier[i] == history[i]);
        }
        law_settings_need_the_administrator(state, earlier);
    }
}

/// What the administrator sets can be read back, and nothing else changes with
/// it: neither what has been deposited nor what is queued.
pub proof fn law_settings_can_be_read_back(
    state: BridgeModel,
    limit: i128,
    ledgers: u32,
    new_admin: Address,
)
    requires
        state.config is Some,
    ensures
        state.with_limit(limit).config == Some(Config { limit, ..state.config->Some_0 }),
        state.with_limit(limit) == (BridgeModel {
            config: state.with_limit(limit).config,
            ..state
        }),
        state.with_admin(new_admin).config == Some(
            Config { admin: new_admin, ..state.config->Some_0 },
        ),
        state.with_admin(new_admin) == (BridgeModel {
            config: state.with_admin(new_admin).config,
            ..state
        }),
        state.with_lock_period(ledgers) == (BridgeModel { lock_period: ledgers, ..state }),
{
}

/// After the administration has been handed over, the new administrator can act
/// and an invocation that only the old one has authorized is refused.
pub proof fn law_administration_is_handed_over(
    state: BridgeModel,
    new_admin: Address,
    invocation: Invocation,
    later: Invocation,
)
    requires
        state.admin_refusal(invocation) is None,
    ensures
        state.with_admin(new_admin).admin_refusal(later) is None <==> later.signed_by(new_admin),
{
}

/// While the bridge is paused, no deposit and no immediate withdrawal is
/// accepted, and one that is duly authorized is answered with that error.
pub proof fn law_paused_bridge_refuses(
    state: BridgeModel,
    from: Address,
    amount: i128,
    reference: Seq<u8>,
    balance: i128,
    invocation: Invocation,
)
    requires
        state.paused,
    ensures
        state.deposit_refusal(from, amount, reference, invocation) is Some,
        state.withdraw_refusal(amount, balance, invocation) is Some,
        state.config is Some && invocation.signed_by(from) ==> state.deposit_refusal(
            from,
            amount,
            reference,
            invocation,
        ) == Some(Failure::Contract(Error::ContractPaused)),
        state.admin_refusal(invocation) is None ==> state.withdraw_refusal(
            amount,
            balance,
            invocation,
        ) == Some(Failure::Contract(Error::ContractPaused)),
{
}

/// Unpausing undoes pausing.
pub proof fn law_unpause_undoes_pause(state: BridgeModel)
    requires
        !state.paused,
    ensures
        state.with_paused(true).with_paused(false) == state,
{
}

/// A withdrawal request that has been executed or cancelled stays so, whatever
/// is called afterwards: it can be neither executed nor cancelled again, and
/// its number is never given out anew.
pub proof fn law_closed_request_stays_closed(
    state: BridgeModel,
    id: int,
    history: Seq<(Call, Invocation)>,
    balance: i128,
    invocation: Invocation,
)
    requires
        state.config is Some,
        0 <= id < state.requests.len(),
        state.pending(id) is None,
    ensures
        run(state, history).requests.len() > id,
        run(state, history).pending(id) is None,
        run(state, history).execute_refusal(id, balance, invocation) == Some(
            Failure::Contract(Error::RequestNotFound),
        ),
        run(state, history).cancel_refusal(id, invocation) is Some,
    decreases history.len(),
{
    law_set_up_once(state, history);
    if history.len() > 0 {
        law_closed_request_stays_closed(state, id, history.drop_last(), balance, invocation);
    }
}

/// Executing a request closes it, so no request is ever paid out twice.
pub proof fn law_no_request_is_paid_twice(
    state: BridgeModel,
    id: int,
    balance: i128,
    invocation: Invocation,
    history: Seq<(Call, Invocation)>,
    later_balance: i128,
    later: Invocation,
)
    requires
        state.execute_refusal(id, balance, invocation) is None,
    ensures
        run(state.closed(id), history).execute_refusal(id, later_balance, later) == Some(
            Failure::Contract(Error::RequestNotFound),
        ),
{
    law_closed_request_stays_closed(state.closed(id), id, history, later_balance, later);
}

/// Cancelling undoes a request: the pending requests are those from before, and
/// the cancelled one cannot be executed.
pub proof fn law_cancel_undoes_request(
    state: BridgeModel,
    to: Address,
    amount: i128,
    invocation: Invocation,
    balance: i128,
    later: Invocation,
)
    requires
        state.request_refusal(amount, invocation) is None,
    ensures
        ({
            let id = state.requests.len() as int;
            let cancelled = state.requested(to, amount, invocation).closed(id);
            &&& forall|other: int| #[trigger] cancelled.pending(other) == state.pending(other)
            &&& cancelled.execute_refusal(id, balance, later) == Some(
                Failure::Contract(Error::RequestNotFound),
            )
            &&& cancelled == (BridgeModel { requests: cancelled.requests, ..state })
        }),
{
}

/// As long as a withdrawal request is pending it does not change, whatever is
/// called: a later change of the lock period, for one, does not touch it.
pub proof fn law_pending_request_is_kept(
    state: BridgeModel,
    id: int,
    history: Seq<(Call, Invocation)>,
)
    requires
        0 <= id < state.requests.len(),
    ensures
        id < run(state, history).requests.len(),
        run(state, history).pending(id) is Some ==> run(state, history).pending(id)
            == state.pending(id),
    decreases history.len(),
{
    if history.len() > 0 {
        law_pending_request_is_kept(state, id, history.drop_last());
    }
}

/// The lock: a request can be executed from the ledger on that lies the lock
/// period in force when it was made after the ledger in which it was made, and
/// not before, whatever is called in between.
pub proof fn law_request_is_locked_for_the_period(
    state: BridgeModel,
    to: Address,
    amount: i128,
    invocation: Invocation,
    history: Seq<(Call, Invocation)>,
    balance: i128,
    later: Invocation,
)
    requires
        state.request_refusal(amount, invocation) is None,
    ensures
        ({
            let id = state.requests.len() as int;
            let waiting = run(state.requested(to, amount, invocation), history);
            waiting.pending(id) is Some ==> {
                &&& later.ledger < invocation.ledger + state.lock_period ==> waiting.execute_refusal(
                    id,
                    balance,
                    later,
                ) == Some(Failure::Contract(Error::WithdrawalLocked))
                &&& later.ledger >= invocation.ledger + state.lock_period && amount > balance
                    ==> waiting.execute_refusal(id, balance, later) == Some(
                    Failure::Contract(Error::InsufficientFunds),
                )
                &&& later.ledger >= invocation.ledger + state.lock_period && amount <= balance
                    ==> waiting.execute_refusal(id, balance, later) is None
            }
        }),
{
    let requested = state.requested(to, amount, invocation);
    law_set_up_once(requested, history);
    law_pending_request_is_kept(requested, state.requests.len() as int, history);
}

/// How the tokens of the bridge change with a call: by the amount of an
/// accepted deposit, less the amount of an accepted payment.
pub open spec fn inflow(state: BridgeModel, call: Call, invocation: Invocation) -> int {
    if refusal(state, call, invocation) is Some {
        0
    } else {
        match call {
            Call::Deposit { from, amount, reference } => amount as int,
            Call::Withdraw { to, amount, balance } => -amount,
            Call::ExecuteWithdrawal { id, balance } => -(state.pending(id)->Some_0.amount),
            _ => 0,
        }
    }
}

/// What the bridge holds after a history of calls, starting from `initial`.
pub open spec fn holdings(
    state: BridgeModel,
    initial: int,
    history: Seq<(Call, Invocation)>,
) -> int
    decreases history.len(),
{
    if history.len() == 0 {
        initial
    } else {
        let earlier = history.drop_last();
        holdings(state, initial, earlier) + inflow(
            run(state, earlier),
            history.last().0,
            history.last().1,
        )
    }
}

/// What the bridge has paid out over a history of calls.
pub open spec fn paid_out(state: BridgeModel, history: Seq<(Call, Invocation)>) -> int
    decreases history.len(),
{
    if history.len() == 0 {
        0
    } else {
        let earlier = history.drop_last();
        let change = inflow(run(state, earlier), history.last().0, history.last().1);
        paid_out(state, earlier) + if change < 0 {
            -change
        } else {
            0
        }
    }
}

/// Whether each call of a history is told the true balance of the bridge.
pub open spec fn told_the_truth(
    state: BridgeModel,
    initial: int,
    history: Seq<(Call, Invocation)>,
) -> bool
    decreases history.len(),
{
    history.len() > 0 ==> {
        let earlier = history.drop_last();
        let held = holdings(state, initial, earlier);
        &&& told_the_truth(state, initial, earlier)
        &&& match history.last().0 {
            Call::Withdraw { to, amount, balance } => balance == held,
            Call::ExecuteWithdrawal { id, balance } => balance == held,
            _ => true,
        }
    }
}

/// The bridge never pays out more than it holds, and at any time it holds what
/// it started with, plus all that was deposited since, less all that was paid
/// out since.
pub proof fn law_bridge_stays_solvent(
    state: BridgeModel,
    initial: int,
    history: Seq<(Call, Invocation)>,
)
    requires
        state.valid(),
        initial >= 0,
        told_the_truth(state, initial, history),
    ensures
        holdings(state, initial, history) >= 0,
        holdings(state, initial, history) == initial + (run(state, history).total_deposited
            - state.total_deposited) - paid_out(state, history),
    decreases history.len(),
{
    if history.len() > 0 {
        let earlier = history.drop_last();
        law_bridge_stays_solvent(state, initial, earlier);
        law_every_state_is_valid(state, earlier);
    }
}

/// Token balances after a movement of tokens.
pub open spec fn moved(
    balances: Map<Address, int>,
    from: Address,
    to: Address,
    amount: int,
) -> Map<Address, int> {
    let taken = balances.insert(from, balances[from] - amount);
    taken.insert(to, taken[to] + amount)
}

/// Token balances after the transfer of an accepted call.
pub open spec fn settled(
    balances: Map<Address, int>,
    bridge: Address,
    transfer: Transfer,
) -> Map<Address, int> {
    match transfer {
        Transfer::IntoBridge { from, amount } => moved(balances, from, bridge, amount as int),
        Transfer::OutOfBridge { to, amount } => moved(balances, bridge, to, amount as int),
    }
}

/// Paying a depositor what they deposited restores every balance.
pub proof fn law_payment_undoes_deposit(
    balances: Map<Address, int>,
    bridge: Address,
    depositor: Address,
    amount: i128,
)
    requires
        balances.contains_key(bridge),
        balances.contains_key(depositor),
    ensures
        settled(
            settled(balances, bridge, Transfer::IntoBridge { from: depositor, amount }),
            bridge,
            Transfer::OutOfBridge { to: depositor, amount },
        ) == balances,
{
}

/// The first receipt of a page, and the page that is left without it.
pub proof fn lemma_page_step(
    receipts: Seq<ReceiptModel>,
    depositor: Address,
    from: int,
    limit: nat,
)
    requires
        0 <= from < receipts.len(),
        limit > 0,
    ensures
        page_of(receipts, depositor, from, limit) == if receipts[from].depositor == depositor {
            seq![receipts[from]] + page_of(receipts, depositor, from + 1, (limit - 1) as nat)
        } else {
            page_of(receipts, depositor, from + 1, limit)
        },
{
    let of = |r: ReceiptModel| r.depositor == depositor;
    let first = seq![receipts[from]];
    let rest = receipts.skip(from + 1);
    assert(receipts.skip(from) =~= first + rest);
    Seq::filter_distributes_over_add(first, rest, of);
    reveal(Seq::filter);
    assert(first.drop_last().filter(of) =~= Seq::empty());
}

/// Paging: a longer page is a shorter one followed by the page that starts
/// behind the last receipt of the shorter one.
pub proof fn law_pages_join(
    state: BridgeModel,
    depositor: Address,
    from: int,
    first: nat,
    second: nat,
)
    requires
        state.valid(),
        0 <= from,
        page_of(state.receipts, depositor, from, first).len() > 0,
    ensures
        ({
            let page = page_of(state.receipts, depositor, from, first);
            let behind = page_of(state.receipts, depositor, page.last().id + 1, second);
            page_of(state.receipts, depositor, from, first + second) == page + behind
        }),
    decreases state.receipts.len() - from,
{
    let receipts = state.receipts;
    if from < receipts.len() && first > 0 {
        lemma_page_step(receipts, depositor, from, first);
        lemma_page_step(receipts, depositor, from, first + second);
        if receipts[from].depositor == depositor {
            let left = (first - 1) as nat;
            let rest = page_of(receipts, depositor, from + 1, left);
            if rest.len() > 0 {
                law_pages_join(state, depositor, from + 1, left, second);
            }
        } else {
            law_pages_join(state, depositor, from + 1, first, second);
        }
    }
}

/// A page holds receipts of the depositor only, with numbers from `from` on,
/// each of them the receipt that was issued under its number, and in the order
/// of their numbers. Unless it is full it holds all of them.
pub proof fn law_page_holds_the_receipts(
    state: BridgeModel,
    depositor: Address,
    from: int,
    limit: nat,
)
    requires
        state.valid(),
        0 <= from,
    ensures
        ({
            let page = page_of(state.receipts, depositor, from, limit);
            &&& page.len() <= limit
            &&& forall|i: int|
                0 <= i < page.len() ==> {
                    &&& (#[trigger] page[i]).depositor == depositor
                    &&& from <= page[i].id < state.receipts.len()
                    &&& state.receipts[page[i].id] == page[i]
                }
            &&& forall|i: int, j: int|
                0 <= i < j < page.len() ==> (#[trigger] page[i]).id < (#[trigger] page[j]).id
            &&& page.len() < limit ==> forall|id: int|
                from <= id < state.receipts.len() && (#[trigger] state.receipts[id]).depositor
                    == depositor ==> page.contains(state.receipts[id])
        }),
    decreases state.receipts.len() - from,
{
    let receipts = state.receipts;
    let page = page_of(receipts, depositor, from, limit);
    if from < receipts.len() && limit > 0 {
        lemma_page_step(receipts, depositor, from, limit);
        if receipts[from].depositor == depositor {
            let left = (limit - 1) as nat;
            let rest = page_of(receipts, depositor, from + 1, left);
            law_page_holds_the_receipts(state, depositor, from + 1, left);
            assert(page[0] == receipts[from]);
            assert forall|i: int| 1 <= i < page.len() implies page[i] == #[trigger] rest[i - 1] by {}
            if page.len() < limit {
                assert forall|id: int|
                    from <= id < receipts.len() && (#[trigger] receipts[id]).depositor
                        == depositor implies page.contains(receipts[id]) by {
                    if id > from {
                        let k = choose|k: int| 0 <= k < rest.len() && rest[k] == receipts[id];
                        assert(page[k + 1] == receipts[id]);
                    }
                }
            }
        } else {
            law_page_holds_the_receipts(state, depositor, from + 1, limit);
        }
    }
}

} // verus!
