//! The bridge as a mathematical value: its state, which calls it refuses and
//! why, and what an accepted call makes of the state.

use crate::address::Address;
use crate::reference::MAX_REFERENCE_LEN;
use crate::types::{Abort, Config, Error, Event, Failure, Invocation, ReceiptModel, WithdrawRequest};
use vstd::prelude::*;

verus! {

/// The state of a bridge.
#[verifier::ext_equal]
pub struct BridgeModel {
    /// Absent until the bridge is set up.
    pub config: Option<Config>,
    pub paused: bool,
    /// How many ledgers a withdrawal request has to wait.
    pub lock_period: u32,
    pub total_deposited: int,
    /// The receipts in the order in which they were issued.
    pub receipts: Seq<ReceiptModel>,
    /// One place for each withdrawal request ever made, by its number; empty
    /// once the request has been executed or cancelled.
    pub requests: Seq<Option<WithdrawRequest>>,
}

/// The sum of the amounts on receipts.
pub open spec fn sum_of_amounts(receipts: Seq<ReceiptModel>) -> int
    decreases receipts.len(),
{
    if receipts.len() == 0 {
        0
    } else {
        sum_of_amounts(receipts.drop_last()) + receipts.last().amount
    }
}

/// One more receipt adds its amount to the sum.
pub proof fn lemma_sum_of_one_more(receipts: Seq<ReceiptModel>, receipt: ReceiptModel)
    ensures
        sum_of_amounts(receipts.push(receipt)) == sum_of_amounts(receipts) + receipt.amount,
{
    assert(receipts.push(receipt).drop_last() =~= receipts);
}

/// The receipts of one depositor, in their order.
pub open spec fn receipts_of(receipts: Seq<ReceiptModel>, depositor: Address) -> Seq<ReceiptModel> {
    receipts.filter(|r: ReceiptModel| r.depositor == depositor)
}

/// A page of one depositor's receipts: the first `limit` of them among the
/// receipts from number `from` on.
pub open spec fn page_of(
    receipts: Seq<ReceiptModel>,
    depositor: Address,
    from: int,
    limit: nat,
) -> Seq<ReceiptModel> {
    if from >= receipts.len() {
        Seq::empty()
    } else {
        let all = receipts_of(receipts.skip(from), depositor);
        if all.len() <= limit {
            all
        } else {
            all.take(limit as int)
        }
    }
}

/// What an accepted deposit announces.
pub open spec fn deposit_events(receipt_id: u64, from: Address, amount: i128) -> Seq<Event> {
    seq![
        Event::Deposit { from, amount },
        Event::ReceiptIssued { receipt_id, depositor: from, amount },
    ]
}

/// What an accepted payment out of the bridge announces.
pub open spec fn payout_events(to: Address, amount: i128) -> Seq<Event> {
    seq![Event::Withdraw { to, amount }]
}

impl BridgeModel {
    /// A bridge that nobody has set up yet.
    pub open spec fn fresh() -> BridgeModel {
        BridgeModel {
            config: None,
            paused: false,
            lock_period: 0,
            total_deposited: 0,
            receipts: Seq::empty(),
            requests: Seq::empty(),
        }
    }

    /// What holds of a bridge in every state that calls can lead to.
    pub open spec fn valid(self) -> bool {
        &&& forall|i: int|
            0 <= i < self.receipts.len() ==> {
                &&& (#[trigger] self.receipts[i]).id == i
                &&& self.receipts[i].amount > 0
                &&& self.receipts[i].reference.len() <= MAX_REFERENCE_LEN
            }
        &&& self.total_deposited == sum_of_amounts(self.receipts)
        &&& self.total_deposited <= i128::MAX
        &&& forall|i: int|
            0 <= i < self.requests.len() ==> match #[trigger] self.requests[i] {
                Some(request) => request.amount > 0,
                None => true,
            }
        &&& self.config is None ==> self == BridgeModel::fresh()
    }

    /// The pending withdrawal request with number `id`, if there is one.
    pub open spec fn pending(self, id: int) -> Option<WithdrawRequest> {
        if 0 <= id < self.requests.len() {
            self.requests[id]
        } else {
            None
        }
    }

    // ---- which calls are refused, and why ----

    /// Setting up works once.
    pub open spec fn init_refusal(self) -> Option<Failure> {
        if self.config is Some {
            Some(Failure::Contract(Error::AlreadyInitialized))
        } else {
            None
        }
    }

    /// Only the administrator may do what administrators do.
    pub open spec fn admin_refusal(self, invocation: Invocation) -> Option<Failure> {
        match self.config {
            None => Some(Failure::Aborted(Abort::NotInitialized)),
            Some(config) => if invocation.signed_by(config.admin) {
                None
            } else {
                Some(Failure::Aborted(Abort::Unauthorized))
            },
        }
    }

    /// A deposit has to be authorized by the depositor, come while the bridge
    /// is not paused, be positive and within the limit, and carry a reference
    /// that is not too long. The first of these that is missing is reported.
    pub open spec fn deposit_refusal(
        self,
        from: Address,
        amount: i128,
        reference: Seq<u8>,
        invocation: Invocation,
    ) -> Option<Failure> {
        match self.config {
            None => Some(Failure::Aborted(Abort::NotInitialized)),
            Some(config) => if !invocation.signed_by(from) {
                Some(Failure::Aborted(Abort::Unauthorized))
            } else if self.paused {
                Some(Failure::Contract(Error::ContractPaused))
            } else if amount <= 0 {
                Some(Failure::Contract(Error::ZeroAmount))
            } else if amount > config.limit {
                Some(Failure::Contract(Error::ExceedsLimit))
            } else if reference.len() > MAX_REFERENCE_LEN {
                Some(Failure::Contract(Error::ReferenceTooLong))
            } else if self.total_deposited + amount > i128::MAX {
                Some(Failure::Aborted(Abort::Overflow))
            } else {
                None
            },
        }
    }

    /// An immediate withdrawal has to be authorized by the administrator, come
    /// while the bridge is not paused, be positive, and be covered by
    /// `balance`, the tokens that the bridge holds.
    pub open spec fn withdraw_refusal(
        self,
        amount: i128,
        balance: i128,
        invocation: Invocation,
    ) -> Option<Failure> {
        if self.admin_refusal(invocation) is Some {
            self.admin_refusal(invocation)
        } else if self.paused {
            Some(Failure::Contract(Error::ContractPaused))
        } else if amount <= 0 {
            Some(Failure::Contract(Error::ZeroAmount))
        } else if amount > balance {
            Some(Failure::Contract(Error::InsufficientFunds))
        } else {
            None
        }
    }

    /// A withdrawal request has to be authorized by the administrator and be
    /// positive. Whether the bridge can pay is not asked yet.
    pub open spec fn request_refusal(self, amount: i128, invocation: Invocation) -> Option<Failure> {
        if self.admin_refusal(invocation) is Some {
            self.admin_refusal(invocation)
        } else if amount <= 0 {
            Some(Failure::Contract(Error::ZeroAmount))
        } else if invocation.ledger + self.lock_period > u32::MAX {
            Some(Failure::Aborted(Abort::Overflow))
        } else {
            None
        }
    }

    /// A request can be executed while it is pending, once its lock has run
    /// out, if `balance`, the tokens that the bridge holds, covers it.
    pub open spec fn execute_refusal(
        self,
        id: int,
        balance: i128,
        invocation: Invocation,
    ) -> Option<Failure> {
        if self.config is None {
            Some(Failure::Aborted(Abort::NotInitialized))
        } else {
            match self.pending(id) {
                None => Some(Failure::Contract(Error::RequestNotFound)),
                Some(request) => if invocation.ledger < request.unlock_ledger {
                    Some(Failure::Contract(Error::WithdrawalLocked))
                } else if request.amount > balance {
                    Some(Failure::Contract(Error::InsufficientFunds))
                } else {
                    None
                },
            }
        }
    }

    /// The administrator can cancel a request while it is pending.
    pub open spec fn cancel_refusal(self, id: int, invocation: Invocation) -> Option<Failure> {
        if self.admin_refusal(invocation) is Some {
            self.admin_refusal(invocation)
        } else if self.pending(id) is None {
            Some(Failure::Contract(Error::RequestNotFound))
        } else {
            None
        }
    }

    // ---- what accepted calls make of the state ----

    pub open spec fn initialized(self, config: Config) -> BridgeModel {
        BridgeModel { config: Some(config), ..self }
    }

    /// A deposit adds to the total and appends a receipt, numbered by the
    /// receipts before it.
    pub open spec fn deposited(
        self,
        from: Address,
        amount: i128,
        reference: Seq<u8>,
        invocation: Invocation,
    ) -> BridgeModel {
        BridgeModel {
            total_deposited: self.total_deposited + amount,
            receipts: self.receipts.push(
                ReceiptModel {
                    id: self.receipts.len() as int,
                    depositor: from,
                    amount: amount as int,
                    ledger: invocation.ledger,
                    reference,
                },
            ),
            ..self
        }
    }

    /// A request is appended, numbered by the requests before it, and locked
    /// for the lock period from the current ledger on.
    pub open spec fn requested(
        self,
        to: Address,
        amount: i128,
        invocation: Invocation,
    ) -> BridgeModel {
        BridgeModel {
            requests: self.requests.push(
                Some(
                    WithdrawRequest {
                        to,
                        amount,
                        unlock_ledger: (invocation.ledger + self.lock_period) as u32,
                    },
                ),
            ),
            ..self
        }
    }

    /// An executed or cancelled request leaves its place empty for good.
    pub open spec fn closed(self, id: int) -> BridgeModel {
        BridgeModel { requests: self.requests.update(id, None), ..self }
    }

    pub open spec fn with_limit(self, limit: i128) -> BridgeModel {
        match self.config {
            None => self,
            Some(config) => BridgeModel { config: Some(Config { limit, ..config }), ..self },
        }
    }

    pub open spec fn with_admin(self, admin: Address) -> BridgeModel {
        match self.config {
            None => self,
            Some(config) => BridgeModel { config: Some(Config { admin, ..config }), ..self },
        }
    }

    pub open spec fn with_lock_period(self, lock_period: u32) -> BridgeModel {
        BridgeModel { lock_period, ..self }
    }

    pub open spec fn with_paused(self, paused: bool) -> BridgeModel {
        BridgeModel { paused, ..self }
    }
}

} // verus!
