//! The values that the bridge stores, takes and hands out.

use crate::address::Address;
use soroban_sdk::Bytes;
use vstd::prelude::*;

verus! {

/// The errors that the bridge itself reports.
#[derive(Debug, Clone, Copy, PartialEq, Eq, Structural)]
pub enum Error {
    /// The bridge has been set up before.
    AlreadyInitialized,
    /// The amount is not positive.
    ZeroAmount,
    /// The deposit is larger than the limit for one deposit.
    ExceedsLimit,
    /// The bridge holds fewer tokens than it would have to pay out.
    InsufficientFunds,
    /// The bridge is paused.
    ContractPaused,
    /// The withdrawal request cannot be executed yet.
    WithdrawalLocked,
    /// No such withdrawal request is pending.
    RequestNotFound,
    /// The payment reference is too long.
    ReferenceTooLong,
}

/// Why an invocation is aborted outright, as the host does on a missing
/// authorization, rather than answered with an error of the bridge.
#[derive(Debug, Clone, Copy, PartialEq, Eq, Structural)]
pub enum Abort {
    /// The bridge has not been set up.
    NotInitialized,
    /// The address that has to authorize the invocation has not done so.
    Unauthorized,
    /// A total or a ledger number would leave the range of its type.
    Overflow,
}

/// How a call can fail.
#[derive(Debug, Clone, Copy, PartialEq, Eq, Structural)]
pub enum Failure {
    Contract(Error),
    Aborted(Abort),
}

/// What is fixed when the bridge is set up; all but the token can be changed
/// by the administrator later.
#[derive(Debug, Clone, Copy, PartialEq, Eq)]
pub struct Config {
    pub admin: Address,
    pub token: Address,
    /// The largest amount that one deposit may have.
    pub limit: i128,
}

/// What the host knows of the current invocation.
#[derive(Debug, PartialEq, Eq)]
pub struct Invocation {
    /// The sequence number of the current ledger.
    pub ledger: u32,
    /// The addresses whose authorization of the invocation is confirmed.
    pub signers: Vec<Address>,
}

impl Invocation {
    /// Whether `address` has authorized the invocation.
    pub open spec fn signed_by(self, address: Address) -> bool {
        self.signers@.contains(address)
    }

    /// Whether `address` has authorized the invocation.
    pub fn is_signed_by(&self, address: &Address) -> (signed: bool)
        ensures
            signed == self.signed_by(*address),
    {
        let mut i: usize = 0;
        while i < self.signers.len()
            invariant
                i <= self.signers.len(),
                forall|j: int| 0 <= j < i ==> self.signers@[j] != *address,
            decreases self.signers.len() - i,
        {
            if self.signers[i].same_as(address) {
                return true;
            }
            i = i + 1;
        }
        false
    }
}

/// The record of one accepted deposit.
#[derive(Debug, PartialEq, Eq)]
pub struct Receipt {
    pub id: u64,
    pub depositor: Address,
    pub amount: i128,
    /// The ledger in which the deposit was made.
    pub ledger: u32,
    /// The payment reference, exactly as the depositor gave it.
    pub reference: Bytes,
}

/// A receipt as a mathematical value.
#[verifier::ext_equal]
pub struct ReceiptModel {
    pub id: int,
    pub depositor: Address,
    pub amount: int,
    pub ledger: u32,
    pub reference: Seq<u8>,
}

impl View for Receipt {
    type V = ReceiptModel;

    open spec fn view(&self) -> ReceiptModel {
        ReceiptModel {
            id: self.id as int,
            depositor: self.depositor,
            amount: self.amount as int,
            ledger: self.ledger,
            reference: crate::reference::bytes_contents(self.reference),
        }
    }
}

/// A withdrawal that waits for its lock to run out.
#[derive(Debug, Clone, Copy, PartialEq, Eq)]
pub struct WithdrawRequest {
    pub to: Address,
    pub amount: i128,
    /// The first ledger in which the request can be executed.
    pub unlock_ledger: u32,
}

/// A movement of tokens that an accepted call stands for. The call takes
/// effect together with it: where the token refuses the movement, the host
/// drops the whole invocation.
#[derive(Debug, Clone, Copy, PartialEq, Eq)]
pub enum Transfer {
    IntoBridge { from: Address, amount: i128 },
    OutOfBridge { to: Address, amount: i128 },
}

/// What an accepted call announces.
#[derive(Debug, Clone, Copy, PartialEq, Eq)]
pub enum Event {
    Deposit { from: Address, amount: i128 },
    ReceiptIssued { receipt_id: u64, depositor: Address, amount: i128 },
    Withdraw { to: Address, amount: i128 },
}

impl Event {
    /// The name under which the event is published.
    pub fn topic(&self) -> (name: &'static str)
        ensures
            name@ == match *self {
                Event::Deposit { .. } => "deposit"@,
                Event::ReceiptIssued { .. } => "receipt_issued"@,
                Event::Withdraw { .. } => "withdraw"@,
            },
    {
        match self {
            Event::Deposit { .. } => "deposit",
            Event::ReceiptIssued { .. } => "receipt_issued",
            Event::Withdraw { .. } => "withdraw",
        }
    }
}

/// What an accepted deposit comes to.
#[derive(Debug, PartialEq, Eq)]
pub struct Deposited {
    pub receipt_id: u64,
    pub transfer: Transfer,
    pub events: Vec<Event>,
}

/// What an accepted payment out of the bridge comes to.
#[derive(Debug, PartialEq, Eq)]
pub struct PaidOut {
    pub transfer: Transfer,
    pub events: Vec<Event>,
}

} // verus!
