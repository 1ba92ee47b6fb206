//! What a swap is: its role on this ledger and its immutable parameters.

use crate::account::AccountId;
use crate::timelocks::{Timelocks, Timestamp};
use vstd::prelude::*;

verus! {

/// A quantity of an asset, in its smallest unit.
pub type Balance = u128;

/// The deposit that covers the storage of one record on the ledger: a tenth of
/// a whole native token.
pub fn calculate_storage_deposit() -> (deposit: Balance)
    ensures
        deposit == 100_000_000_000_000_000_000_000u128,
{
    100_000_000_000_000_000_000_000
}

/// Which side of the swap an escrow holds.
#[derive(Clone, Copy, Debug, PartialEq, Eq, Structural)]
pub enum EscrowType {
    /// This ledger is the origin of the swap: the maker is paid on withdrawal,
    /// the taker cancels and rescues.
    Source,
    /// This ledger is the destination of the swap: the taker withdraws, the
    /// maker cancels and rescues.
    Destination,
}

/// The parameters of a swap, fixed when its escrow is created.
#[derive(Debug)]
pub struct EscrowImmutables {
    /// The order's identifier, unique among orders.
    pub order_hash: String,
    /// The hex-encoded SHA-256 digest of the secret.
    pub hashlock: String,
    /// The party that made the order.
    pub maker: AccountId,
    /// The party that fills the order.
    pub taker: AccountId,
    /// The fungible-token contract of the asset; `None` for the native asset.
    pub token: Option<AccountId>,
    /// The principal.
    pub amount: Balance,
    /// The stake that rewards timely action.
    pub safety_deposit: Balance,
    /// The time windows.
    pub timelocks: Timelocks,
}

/// The parameters of a swap as plain values.
pub struct EscrowImmutablesView {
    pub order_hash: Seq<char>,
    pub hashlock: Seq<char>,
    pub maker: Seq<char>,
    pub taker: Seq<char>,
    pub token: Option<Seq<char>>,
    pub amount: Balance,
    pub safety_deposit: Balance,
    pub timelocks: Timelocks,
}

impl View for EscrowImmutables {
    type V = EscrowImmutablesView;

    open spec fn view(&self) -> EscrowImmutablesView {
        EscrowImmutablesView {
            order_hash: self.order_hash@,
            hashlock: self.hashlock@,
            maker: self.maker@,
            taker: self.taker@,
            token: account_view(self.token),
            amount: self.amount,
            safety_deposit: self.safety_deposit,
            timelocks: self.timelocks,
        }
    }
}

impl Clone for EscrowImmutables {
    fn clone(&self) -> (copy: Self)
        ensures
            copy@ == self@,
    {
        EscrowImmutables {
            order_hash: self.order_hash.clone(),
            hashlock: self.hashlock.clone(),
            maker: self.maker.clone(),
            taker: self.taker.clone(),
            token: clone_account(&self.token),
            amount: self.amount,
            safety_deposit: self.safety_deposit,
            timelocks: self.timelocks,
        }
    }
}

/// A copy of an optional account.
pub fn clone_account(account: &Option<AccountId>) -> (copy: Option<AccountId>)
    ensures
        account_view(copy) == account_view(*account),
{
    match account {
        Some(a) => Some(a.clone()),
        None => None,
    }
}

/// An optional account as a plain value.
pub open spec fn account_view(account: Option<AccountId>) -> Option<Seq<char>> {
    match account {
        Some(a) => Some(a@),
        None => None,
    }
}

/// What the host ledger tells a contract about the call it is serving.
#[derive(Debug)]
pub struct CallContext {
    /// The account of the contract that is being called.
    pub current_account_id: AccountId,
    /// The account that made the call.
    pub predecessor_account_id: AccountId,
    /// The native value attached to the call.
    pub attached_deposit: Balance,
    /// The time of the block in which the call runs.
    pub block_timestamp: Timestamp,
}

/// A transfer that a call has decided on and that the ledger is to carry out.
#[derive(Debug)]
pub struct Transfer {
    /// Who receives it.
    pub recipient: AccountId,
    /// How much.
    pub amount: Balance,
    /// The fungible-token contract that moves it; `None` for a native transfer.
    pub token: Option<AccountId>,
}

/// A transfer as plain values.
pub struct TransferView {
    pub recipient: Seq<char>,
    pub amount: Balance,
    pub token: Option<Seq<char>>,
}

impl View for Transfer {
    type V = TransferView;

    open spec fn view(&self) -> TransferView {
        TransferView {
            recipient: self.recipient@,
            amount: self.amount,
            token: account_view(self.token),
        }
    }
}

} // verus!
