//! The bridge itself.

use crate::address::Address;
use crate::model::{
    deposit_events, lemma_sum_of_one_more, page_of, payout_events, receipts_of, BridgeModel,
};
use crate::reference::{bytes_contents, reference_fits};
use crate::types::{
    Abort, Config, Deposited, Error, Event, Failure, Invocation, PaidOut, Receipt, ReceiptModel,
    Transfer, WithdrawRequest,
};
use soroban_sdk::Bytes;
use vstd::prelude::*;

verus! {

/// A bridge between a token and money outside the ledger: depositors hand
/// tokens in against a receipt, and the administrator pays tokens out, at once
/// or by requests that are locked for a while.
///
/// Each call either is accepted as a whole or fails and changes nothing.
#[derive(Debug, PartialEq, Eq)]
pub struct FiatBridge {
    pub config: Option<Config>,
    pub paused: bool,
    pub lock_period: u32,
    pub total_deposited: i128,
    pub receipts: Vec<Receipt>,
    pub requests: Vec<Option<WithdrawRequest>>,
}

impl View for FiatBridge {
    type V = BridgeModel;

    open spec fn view(&self) -> BridgeModel {
        BridgeModel {
            config: self.config,
            paused: self.paused,
            lock_period: self.lock_period,
            total_deposited: self.total_deposited as int,
            receipts: self.receipts@.map_values(|r: Receipt| r@),
            requests: self.requests@,
        }
    }
}

impl FiatBridge {
    /// A bridge that nobody has set up yet.
    pub fn new() -> (bridge: FiatBridge)
        ensures
            bridge@ == BridgeModel::fresh(),
            bridge@.valid(),
    {
        let bridge = FiatBridge {
            config: None,
            paused: false,
            lock_period: 0,
            total_deposited: 0,
            receipts: Vec::new(),
            requests: Vec::new(),
        };
        assert(bridge@ =~= BridgeModel::fresh());
        bridge
    }

    /// Sets the bridge up. Nobody has to authorize this, and it works once.
    pub fn init(&mut self, admin: &Address, token: &Address, limit: i128) -> (result: Result<(), Failure>)
        ensures
            old(self)@.valid() ==> final(self)@.valid(),
            match old(self)@.init_refusal() {
                Some(failure) => result == Err::<(), Failure>(failure) && final(self)@ == old(self)@,
                None => {
                    &&& result == Ok::<(), Failure>(())
                    &&& final(self)@ == old(self)@.initialized(
                        (Config { admin: *admin, token: *token, limit }),
                    )
                },
            },
    {
        if self.config.is_some() {
            return Err(Failure::Contract(Error::AlreadyInitialized));
        }
        self.config = Some(Config { admin: *admin, token: *token, limit });
        Ok(())
    }

    /// Checks that the administrator has authorized the invocation.
    fn require_admin(&self, invocation: &Invocation) -> (result: Result<Config, Failure>)
        ensures
            match self@.admin_refusal(*invocation) {
                Some(failure) => result == Err::<Config, Failure>(failure),
                None => result is Ok && self.config == Some(result->Ok_0),
            },
    {
        match self.config {
            None => Err(Failure::Aborted(Abort::NotInitialized)),
            Some(config) => {
                if invocation.is_signed_by(&config.admin) {
                    Ok(config)
                } else {
                    Err(Failure::Aborted(Abort::Unauthorized))
                }
            },
        }
    }

    /// Takes a deposit of `amount` tokens from `from` and issues a receipt that
    /// carries `reference`.
    pub fn deposit(
        &mut self,
        from: &Address,
        amount: i128,
        reference: Bytes,
        invocation: &Invocation,
    ) -> (result: Result<Deposited, Failure>)
        ensures
            old(self)@.valid() ==> final(self)@.valid(),
            ({
                let contents = bytes_contents(reference);
                match old(self)@.deposit_refusal(*from, amount, contents, *invocation) {
                    Some(failure) => {
                        &&& result == Err::<Deposited, Failure>(failure)
                        &&& final(self)@ == old(self)@
                    },
                    None => {
                        &&& result is Ok
                        &&& result->Ok_0.receipt_id == old(self)@.receipts.len()
                        &&& result->Ok_0.transfer == (Transfer::IntoBridge { from: *from, amount })
                        &&& result->Ok_0.events@ == deposit_events(
                            result->Ok_0.receipt_id,
                            *from,
                            amount,
                        )
                        &&& final(self)@ == old(self)@.deposited(*from, amount, contents, *invocation)
                    },
                }
            }),
    {
        let config = match self.config {
            None => return Err(Failure::Aborted(Abort::NotInitialized)),
            Some(config) => config,
        };
        if !invocation.is_signed_by(from) {
            return Err(Failure::Aborted(Abort::Unauthorized));
        }
        if self.paused {
            return Err(Failure::Contract(Error::ContractPaused));
        }
        if amount <= 0 {
            return Err(Failure::Contract(Error::ZeroAmount));
        }
        if amount > config.limit {
            return Err(Failure::Contract(Error::ExceedsLimit));
        }
        if !reference_fits(&reference) {
            return Err(Failure::Contract(Error::ReferenceTooLong));
        }
        let total: i128 = match self.total_deposited.checked_add(amount) {
            None => return Err(Failure::Aborted(Abort::Overflow)),
            Some(total) => total,
        };

        let receipt_id: u64 = self.receipts.len() as u64;
        self.total_deposited = total;
        self.receipts.push(
            Receipt { id: receipt_id, depositor: *from, amount, ledger: invocation.ledger, reference },
        );
        proof {
            let contents = bytes_contents(reference);
            let after = old(self)@.deposited(*from, amount, contents, *invocation);
            assert(self@.receipts =~= after.receipts);
            lemma_sum_of_one_more(old(self)@.receipts, after.receipts.last());
        }
        Ok(
            Deposited {
                receipt_id,
                transfer: Transfer::IntoBridge { from: *from, amount },
                events: vec![
                    Event::Deposit { from: *from, amount },
                    Event::ReceiptIssued { receipt_id, depositor: *from, amount },
                ],
            },
        )
    }

    /// Pays `amount` tokens out to `to` at once. `balance` is what the bridge
    /// holds of the token.
    pub fn withdraw(
        &self,
        to: &Address,
        amount: i128,
        balance: i128,
        invocation: &Invocation,
    ) -> (result: Result<PaidOut, Failure>)
        ensures
            match self@.withdraw_refusal(amount, balance, *invocation) {
                Some(failure) => result == Err::<PaidOut, Failure>(failure),
                None => {
                    &&& result is Ok
                    &&& result->Ok_0.transfer == (Transfer::OutOfBridge { to: *to, amount })
                    &&& result->Ok_0.events@ == payout_events(*to, amount)
                },
            },
    {
        match self.require_admin(invocation) {
            Err(failure) => return Err(failure),
            Ok(_) => {},
        }
        if self.paused {
            return Err(Failure::Contract(Error::ContractPaused));
        }
        if amount <= 0 {
            return Err(Failure::Contract(Error::ZeroAmount));
        }
        if amount > balance {
            return Err(Failure::Contract(Error::InsufficientFunds));
        }
        Ok(
            PaidOut {
                transfer: Transfer::OutOfBridge { to: *to, amount },
                events: vec![Event::Withdraw { to: *to, amount }],
            },
        )
    }

    /// Queues a withdrawal of `amount` tokens to `to` and returns the number of
    /// the request. It can be executed when the lock period has passed.
    pub fn request_withdrawal(
        &mut self,
        to: &Address,
        amount: i128,
        invocation: &Invocation,
    ) -> (result: Result<u64, Failure>)
        ensures
            old(self)@.valid() ==> final(self)@.valid(),
            match old(self)@.request_refusal(amount, *invocation) {
                Some(failure) => {
                    &&& result == Err::<u64, Failure>(failure)
                    &&& final(self)@ == old(self)@
                },
                None => {
                    &&& result is Ok
                    &&& result->Ok_0 == old(self)@.requests.len()
                    &&& final(self)@ == old(self)@.requested(*to, amount, *invocation)
                },
            },
    {
        match self.require_admin(invocation) {
            Err(failure) => return Err(failure),
            Ok(_) => {},
        }
        if amount <= 0 {
            return Err(Failure::Contract(Error::ZeroAmount));
        }
        let unlock_ledger: u32 = match invocation.ledger.checked_add(self.lock_period) {
            None => return Err(Failure::Aborted(Abort::Overflow)),
            Some(ledger) => ledger,
        };
        let id: u64 = self.requests.len() as u64;
        self.requests.push(Some(WithdrawRequest { to: *to, amount, unlock_ledger }));
        Ok(id)
    }

    /// Pays a pending request out once its lock has run out. `balance` is what
    /// the bridge holds of the token.
    pub fn execute_withdrawal(
        &mut self,
        request_id: u64,
        balance: i128,
        invocation: &Invocation,
    ) -> (result: Result<PaidOut, Failure>)
        ensures
            old(self)@.valid() ==> final(self)@.valid(),
            match old(self)@.execute_refusal(request_id as int, balance, *invocation) {
                Some(failure) => {
                    &&& result == Err::<PaidOut, Failure>(failure)
                    &&& final(self)@ == old(self)@
                },
                None => {
                    let request = old(self)@.pending(request_id as int)->Some_0;
                    &&& result is Ok
                    &&& result->Ok_0.transfer == (Transfer::OutOfBridge {
                        to: request.to,
                        amount: request.amount,
                    })
                    &&& result->Ok_0.events@ == payout_events(
                        request.to,
                        request.amount,
                    )
                    &&& final(self)@ == old(self)@.closed(request_id as int)
                },
            },
    {
        if self.config.is_none() {
            return Err(Failure::Aborted(Abort::NotInitialized));
        }
        let request = match self.get_withdrawal_request(request_id) {
            None => return Err(Failure::Contract(Error::RequestNotFound)),
            Some(request) => request,
        };
        if invocation.ledger < request.unlock_ledger {
            return Err(Failure::Contract(Error::WithdrawalLocked));
        }
        if request.amount > balance {
            return Err(Failure::Contract(Error::InsufficientFunds));
        }
        assert(request_id < self.requests.len());
        self.requests.set(request_id as usize, None);
        Ok(
            PaidOut {
                transfer: Transfer::OutOfBridge { to: request.to, amount: request.amount },
                events: vec![Event::Withdraw { to: request.to, amount: request.amount }],
            },
        )
    }

    /// Drops a pending request without paying it.
    pub fn cancel_withdrawal(
        &mut self,
        request_id: u64,
        invocation: &Invocation,
    ) -> (result: Result<(), Failure>)
        ensures
            old(self)@.valid() ==> final(self)@.valid(),
            match old(self)@.cancel_refusal(request_id as int, *invocation) {
                Some(failure) => result == Err::<(), Failure>(failure) && final(self)@ == old(self)@,
                None => {
                    &&& result == Ok::<(), Failure>(())
                    &&& final(self)@ == old(self)@.closed(request_id as int)
                },
            },
    {
        match self.require_admin(invocation) {
            Err(failure) => return Err(failure),
            Ok(_) => {},
        }
        if self.get_withdrawal_request(request_id).is_none() {
            return Err(Failure::Contract(Error::RequestNotFound));
        }
        self.requests.set(request_id as usize, None);
        Ok(())
    }

    /// Sets the largest amount that one deposit may have.
    pub fn set_limit(&mut self, limit: i128, invocation: &Invocation) -> (result: Result<(), Failure>)
        ensures
            old(self)@.valid() ==> final(self)@.valid(),
            match old(self)@.admin_refusal(*invocation) {
                Some(failure) => result == Err::<(), Failure>(failure) && final(self)@ == old(self)@,
                None => {
                    &&& result == Ok::<(), Failure>(())
                    &&& final(self)@ == old(self)@.with_limit(limit)
                },
            },
    {
        match self.require_admin(invocation) {
            Err(failure) => Err(failure),
            Ok(config) => {
                self.config = Some(Config { admin: config.admin, token: config.token, limit });
                Ok(())
            },
        }
    }

    /// Sets how many ledgers withdrawal requests made from now on have to wait.
    pub fn set_lock_period(
        &mut self,
        ledgers: u32,
        invocation: &Invocation,
    ) -> (result: Result<(), Failure>)
        ensures
            old(self)@.valid() ==> final(self)@.valid(),
            match old(self)@.admin_refusal(*invocation) {
                Some(failure) => result == Err::<(), Failure>(failure) && final(self)@ == old(self)@,
                None => {
                    &&& result == Ok::<(), Failure>(())
                    &&& final(self)@ == old(self)@.with_lock_period(ledgers)
                },
            },
    {
        match self.require_admin(invocation) {
            Err(failure) => Err(failure),
            Ok(_) => {
                self.lock_period = ledgers;
                Ok(())
            },
        }
    }

    /// Hands the administration over to `new_admin`.
    pub fn transfer_admin(
        &mut self,
        new_admin: &Address,
        invocation: &Invocation,
    ) -> (result: Result<(), Failure>)
        ensures
            old(self)@.valid() ==> final(self)@.valid(),
            match old(self)@.admin_refusal(*invocation) {
                Some(failure) => result == Err::<(), Failure>(failure) && final(self)@ == old(self)@,
                None => {
                    &&& result == Ok::<(), Failure>(())
                    &&& final(self)@ == old(self)@.with_admin(*new_admin)
                },
            },
    {
        match self.require_admin(invocation) {
            Err(failure) => Err(failure),
            Ok(config) => {
                self.config = Some(
                    Config { admin: *new_admin, token: config.token, limit: config.limit },
                );
                Ok(())
            },
        }
    }

    /// Stops deposits and immediate withdrawals.
    pub fn pause(&mut self, invocation: &Invocation) -> (result: Result<(), Failure>)
        ensures
            old(self)@.valid() ==> final(self)@.valid(),
            match old(self)@.admin_refusal(*invocation) {
                Some(failure) => result == Err::<(), Failure>(failure) && final(self)@ == old(self)@,
                None => {
                    &&& result == Ok::<(), Failure>(())
                    &&& final(self)@ == old(self)@.with_paused(true)
                },
            },
    {
        match self.require_admin(invocation) {
            Err(failure) => Err(failure),
            Ok(_) => {
                self.paused = true;
                Ok(())
            },
        }
    }

    /// Lets deposits and immediate withdrawals go on.
    pub fn unpause(&mut self, invocation: &Invocation) -> (result: Result<(), Failure>)
        ensures
            old(self)@.valid() ==> final(self)@.valid(),
            match old(self)@.admin_refusal(*invocation) {
                Some(failure) => result == Err::<(), Failure>(failure) && final(self)@ == old(self)@,
                None => {
                    &&& result == Ok::<(), Failure>(())
                    &&& final(self)@ == old(self)@.with_paused(false)
                },
            },
    {
        match self.require_admin(invocation) {
            Err(failure) => Err(failure),
            Ok(_) => {
                self.paused = false;
                Ok(())
            },
        }
    }

    /// The receipts of `depositor` with numbers from `from_id` on, in the order
    /// of their numbers, `limit` at most.
    pub fn get_receipts_by_depositor(
        &self,
        depositor: &Address,
        from_id: u64,
        limit: u32,
    ) -> (page: Vec<&Receipt>)
        ensures
            page@.map_values(|r: &Receipt| r@) == page_of(
                self@.receipts,
                *depositor,
                from_id as int,
                limit as nat,
            ),
    {
        let mut page: Vec<&Receipt> = Vec::new();
        let ghost receipts = self@.receipts;
        let ghost from: int = from_id as int;
        if from_id >= self.receipts.len() as u64 {
            return page;
        }
        let mut i: usize = from_id as usize;
        proof {
            reveal(Seq::filter);
            assert(receipts.subrange(from, i as int) =~= Seq::empty());
        }
        while i < self.receipts.len() && page.len() < limit as usize
            invariant
                receipts == self@.receipts,
                0 <= from == from_id <= i <= self.receipts.len(),
                from < receipts.len(),
                page.len() <= limit,
                page@.map_values(|r: &Receipt| r@) == receipts_of(
                    receipts.subrange(from, i as int),
                    *depositor,
                ),
            decreases self.receipts.len() - i,
        {
            let receipt: &Receipt = &self.receipts[i];
            if receipt.depositor.same_as(depositor) {
                page.push(receipt);
            }
            proof {
                let done = receipts.subrange(from, i as int);
                let next = receipts.subrange(from, i + 1);
                assert(next.drop_last() =~= done);
                reveal(Seq::filter);
            }
            i = i + 1;
        }
        proof {
            let of = |r: ReceiptModel| r.depositor == *depositor;
            let seen = receipts.subrange(from, i as int);
            let rest = receipts.skip(i as int);
            assert(receipts.skip(from) =~= seen + rest);
            Seq::filter_distributes_over_add(seen, rest, of);
            if i == self.receipts.len() {
                assert(rest.filter(of) =~= Seq::empty()) by {
                    reveal(Seq::filter);
                }
            }
        }
        page
    }

    /// The receipt with the given number, if it has been issued.
    pub fn get_receipt(&self, id: u64) -> (receipt: Option<&Receipt>)
        ensures
            receipt is Some <==> id < self@.receipts.len(),
            receipt matches Some(r) ==> r@ == self@.receipts[id as int],
    {
        if id < self.receipts.len() as u64 {
            Some(&self.receipts[id as usize])
        } else {
            None
        }
    }

    /// How many receipts have been issued, which is also the number that the
    /// next one gets.
    pub fn get_receipt_counter(&self) -> (count: u64)
        ensures
            count == self@.receipts.len(),
    {
        self.receipts.len() as u64
    }

    /// The administrator.
    pub fn get_admin(&self) -> (result: Result<Address, Failure>)
        ensures
            result == match self@.config {
                None => Err::<Address, Failure>(Failure::Aborted(Abort::NotInitialized)),
                Some(config) => Ok::<Address, Failure>(config.admin),
            },
    {
        match self.config {
            None => Err(Failure::Aborted(Abort::NotInitialized)),
            Some(config) => Ok(config.admin),
        }
    }

    /// The token that the bridge takes and pays out.
    pub fn get_token(&self) -> (result: Result<Address, Failure>)
        ensures
            result == match self@.config {
                None => Err::<Address, Failure>(Failure::Aborted(Abort::NotInitialized)),
                Some(config) => Ok::<Address, Failure>(config.token),
            },
    {
        match self.config {
            None => Err(Failure::Aborted(Abort::NotInitialized)),
            Some(config) => Ok(config.token),
        }
    }

    /// The largest amount that one deposit may have.
    pub fn get_limit(&self) -> (result: Result<i128, Failure>)
        ensures
            result == match self@.config {
                None => Err::<i128, Failure>(Failure::Aborted(Abort::NotInitialized)),
                Some(config) => Ok::<i128, Failure>(config.limit),
            },
    {
        match self.config {
            None => Err(Failure::Aborted(Abort::NotInitialized)),
            Some(config) => Ok(config.limit),
        }
    }

    /// How many ledgers a withdrawal request made now would have to wait.
    pub fn get_lock_period(&self) -> (ledgers: u32)
        ensures
            ledgers == self@.lock_period,
    {
        self.lock_period
    }

    /// The sum of all deposits ever accepted.
    pub fn get_total_deposited(&self) -> (total: i128)
        ensures
            total == self@.total_deposited,
    {
        self.total_deposited
    }

    /// Whether deposits and immediate withdrawals are stopped.
    pub fn is_paused(&self) -> (paused: bool)
        ensures
            paused == self@.paused,
    {
        self.paused
    }

    /// The pending withdrawal request with the given number, if there is one.
    pub fn get_withdrawal_request(&self, request_id: u64) -> (request: Option<WithdrawRequest>)
        ensures
            request == self@.pending(request_id as int),
    {
        if request_id < self.requests.len() as u64 {
            self.requests[request_id as usize]
        } else {
            None
        }
    }
}

} // verus!
