//! The custody state machine of one swap.
//!
//! An escrow starts active and ends in exactly one of three ways: the
//! secret is shown in time and the funds are withdrawn, the swap is
//! cancelled and the funds go back, or, much later, the funds are rescued.

use crate::account::AccountId;
use crate::error::EscrowError;
use crate::hashlock::{is_hashlock, opens, CryptoUtils};
use crate::swap::{
    clone_account, CallContext, EscrowImmutables, EscrowImmutablesView, EscrowType, Transfer,
    TransferView,
};
use crate::timelocks::Timestamp;
use vstd::prelude::*;

verus! {

/// Where an escrow stands. `Active` is where it starts; the other three are
/// where it ends.
#[derive(Clone, Copy, Debug, PartialEq, Eq, Structural)]
pub enum EscrowState {
    Active,
    Withdrawn,
    Cancelled,
    Rescued,
}

/// The escrow of one swap.
#[derive(Debug)]
pub struct Escrow {
    /// Which side of the swap this escrow holds.
    pub escrow_type: EscrowType,
    /// The swap's parameters.
    pub immutables: EscrowImmutables,
    /// Where the escrow stands.
    pub state: EscrowState,
    /// The account that created the escrow.
    pub factory: AccountId,
    /// The secret that was shown on withdrawal.
    pub secret: Option<String>,
}

/// An escrow as plain values.
pub struct EscrowView {
    pub escrow_type: EscrowType,
    pub immutables: EscrowImmutablesView,
    pub state: EscrowState,
    pub factory: Seq<char>,
    pub secret: Option<Seq<char>>,
}

impl View for Escrow {
    type V = EscrowView;

    open spec fn view(&self) -> EscrowView {
        EscrowView {
            escrow_type: self.escrow_type,
            immutables: self.immutables@,
            state: self.state,
            factory: self.factory@,
            secret: match self.secret {
                Some(secret) => Some(secret@),
                None => None,
            },
        }
    }
}

impl EscrowView {
    /// The hashlock has the shape of one, and a secret is on record exactly
    /// when the escrow has been withdrawn.
    pub open spec fn well_formed(self) -> bool {
        &&& is_hashlock(self.immutables.hashlock)
        &&& self.secret is Some <==> self.state == EscrowState::Withdrawn
    }

    /// The party that withdrawn funds go to: the maker of a source escrow,
    /// the taker of a destination escrow.
    pub open spec fn withdraw_authority(self) -> Seq<char> {
        match self.escrow_type {
            EscrowType::Source => self.immutables.maker,
            EscrowType::Destination => self.immutables.taker,
        }
    }

    /// The party that may cancel and rescue, and that a cancelled escrow
    /// refunds: the taker of a source escrow, the maker of a destination
    /// escrow.
    pub open spec fn cancel_authority(self) -> Seq<char> {
        match self.escrow_type {
            EscrowType::Source => self.immutables.taker,
            EscrowType::Destination => self.immutables.maker,
        }
    }

    /// Who may call withdraw: on a destination escrow the taker alone, on a
    /// source escrow anyone.
    pub open spec fn may_withdraw(self, caller: Seq<char>) -> bool {
        match self.escrow_type {
            EscrowType::Source => true,
            EscrowType::Destination => caller == self.immutables.taker,
        }
    }

    /// The transfer of the principal to `recipient`.
    pub open spec fn payout(self, recipient: Seq<char>) -> TransferView {
        TransferView { recipient, amount: self.immutables.amount, token: self.immutables.token }
    }

    /// Why a withdrawal is refused, if it is: the first of the four tests
    /// that fails, in this order.
    pub open spec fn withdraw_refusal(
        self,
        secret_opens: bool,
        caller: Seq<char>,
        now: Timestamp,
    ) -> Option<EscrowError> {
        if self.state != EscrowState::Active {
            Some(EscrowError::NotActive)
        } else if !self.immutables.timelocks.withdrawal_open(now) {
            Some(EscrowError::WindowExpired)
        } else if !secret_opens {
            Some(EscrowError::BadSecret)
        } else if !self.may_withdraw(caller) {
            Some(EscrowError::Unauthorized)
        } else {
            None
        }
    }

    /// Why a cancellation is refused, if it is.
    pub open spec fn cancel_refusal(self, caller: Seq<char>, now: Timestamp) -> Option<
        EscrowError,
    > {
        if self.state != EscrowState::Active {
            Some(EscrowError::NotActive)
        } else if !self.immutables.timelocks.cancellation_open(now) {
            Some(EscrowError::WindowNotReached)
        } else if caller != self.cancel_authority() {
            Some(EscrowError::Unauthorized)
        } else {
            None
        }
    }

    /// Why a rescue is refused, if it is.
    pub open spec fn rescue_refusal(self, caller: Seq<char>, now: Timestamp) -> Option<
        EscrowError,
    > {
        if self.state != EscrowState::Active {
            Some(EscrowError::NotActive)
        } else if !self.immutables.timelocks.rescue_open(now) {
            Some(EscrowError::WindowNotReached)
        } else if caller != self.cancel_authority() {
            Some(EscrowError::Unauthorized)
        } else {
            None
        }
    }

    /// The escrow after a withdrawal with `secret`.
    pub open spec fn withdrawn(self, secret: Seq<char>) -> EscrowView {
        EscrowView { state: EscrowState::Withdrawn, secret: Some(secret), ..self }
    }

    /// The escrow after a cancellation.
    pub open spec fn cancelled(self) -> EscrowView {
        EscrowView { state: EscrowState::Cancelled, ..self }
    }

    /// The escrow after a rescue.
    pub open spec fn rescued(self) -> EscrowView {
        EscrowView { state: EscrowState::Rescued, ..self }
    }
}

impl Escrow {
    /// A new, active escrow, created by the caller. Parameters whose
    /// hashlock has not the shape of one are refused: no secret could ever
    /// open it.
    pub fn new(escrow_type: EscrowType, immutables: EscrowImmutables, ctx: &CallContext) -> (result:
        Result<Self, EscrowError>)
        ensures
            result is Ok <==> is_hashlock(immutables@.hashlock),
            result matches Ok(escrow) ==> escrow@ == (EscrowView {
                escrow_type,
                immutables: immutables@,
                state: EscrowState::Active,
                factory: ctx.predecessor_account_id@,
                secret: None,
            }) && escrow@.well_formed(),
            result matches Err(error) ==> error == EscrowError::InvalidImmutables,
    {
        if !CryptoUtils::is_hashlock(immutables.hashlock.as_str()) {
            return Err(EscrowError::InvalidImmutables);
        }
        Ok(
            Escrow {
                escrow_type,
                immutables,
                state: EscrowState::Active,
                factory: ctx.predecessor_account_id.clone(),
                secret: None,
            },
        )
    }

    /// Pays the principal out against the secret.
    ///
    /// The escrow must be active, the withdrawal window open, the secret
    /// must open the hashlock, and on a destination escrow the caller must be
    /// the taker. Then the escrow becomes withdrawn, the secret goes on
    /// record, and the principal is to be sent to the maker of a source
    /// escrow or the taker of a destination escrow, whoever called.
    pub fn withdraw(&mut self, secret: String, ctx: &CallContext) -> (result: Result<
        Transfer,
        EscrowError,
    >)
        ensures
            match result {
                Ok(transfer) => {
                    &&& old(self)@.withdraw_refusal(
                        opens(secret@, old(self)@.immutables.hashlock),
                        ctx.predecessor_account_id@,
                        ctx.block_timestamp,
                    ) is None
                    &&& final(self)@ == old(self)@.withdrawn(secret@)
                    &&& transfer@ == old(self)@.payout(old(self)@.withdraw_authority())
                },
                Err(error) => {
                    &&& old(self)@.withdraw_refusal(
                        opens(secret@, old(self)@.immutables.hashlock),
                        ctx.predecessor_account_id@,
                        ctx.block_timestamp,
                    ) == Some(error)
                    &&& final(self)@ == old(self)@
                },
            },
            old(self)@.well_formed() ==> final(self)@.well_formed(),
    {
        let secret_opens = CryptoUtils::verify_secret(
            secret.as_str(),
            self.immutables.hashlock.as_str(),
        );
        self.withdraw_verified(secret, secret_opens, ctx)
    }

    /// Withdrawal, once it is known whether the secret opens the hashlock.
    pub fn withdraw_verified(
        &mut self,
        secret: String,
        secret_opens: bool,
        ctx: &CallContext,
    ) -> (result: Result<Transfer, EscrowError>)
        ensures
            match result {
                Ok(transfer) => {
                    &&& old(self)@.withdraw_refusal(
                        secret_opens,
                        ctx.predecessor_account_id@,
                        ctx.block_timestamp,
                    ) is None
                    &&& final(self)@ == old(self)@.withdrawn(secret@)
                    &&& transfer@ == old(self)@.payout(old(self)@.withdraw_authority())
                },
                Err(error) => {
                    &&& old(self)@.withdraw_refusal(
                        secret_opens,
                        ctx.predecessor_account_id@,
                        ctx.block_timestamp,
                    ) == Some(error)
                    &&& final(self)@ == old(self)@
                },
            },
            old(self)@.well_formed() ==> final(self)@.well_formed(),
    {
        if !matches!(self.state, EscrowState::Active) {
            return Err(EscrowError::NotActive);
        }
        if !self.immutables.timelocks.can_withdraw(ctx.block_timestamp) {
            return Err(EscrowError::WindowExpired);
        }
        if !secret_opens {
            return Err(EscrowError::BadSecret);
        }
        match self.escrow_type {
            EscrowType::Source => {},
            EscrowType::Destination => {
                if ctx.predecessor_account_id != self.immutables.taker {
                    return Err(EscrowError::Unauthorized);
                }
            },
        }
        self.state = EscrowState::Withdrawn;
        self.secret = Some(secret);
        Ok(
            match self.escrow_type {
                EscrowType::Source => self.transfer_funds_to_maker(),
                EscrowType::Destination => self.transfer_funds_to_taker(),
            },
        )
    }

    /// Gives the principal back once the cancellation window has opened.
    ///
    /// The escrow must be active, the cancellation window open, and the
    /// caller the taker of a source escrow or the maker of a destination
    /// escrow. Then the escrow becomes cancelled and the principal is to be
    /// sent back to that party.
    pub fn cancel(&mut self, ctx: &CallContext) -> (result: Result<Transfer, EscrowError>)
        ensures
            match result {
                Ok(transfer) => {
                    &&& old(self)@.cancel_refusal(
                        ctx.predecessor_account_id@,
                        ctx.block_timestamp,
                    ) is None
                    &&& final(self)@ == old(self)@.cancelled()
                    &&& transfer@ == old(self)@.payout(old(self)@.cancel_authority())
                },
                Err(error) => {
                    &&& old(self)@.cancel_refusal(ctx.predecessor_account_id@, ctx.block_timestamp)
                        == Some(error)
                    &&& final(self)@ == old(self)@
                },
            },
            old(self)@.well_formed() ==> final(self)@.well_formed(),
    {
        if !matches!(self.state, EscrowState::Active) {
            return Err(EscrowError::NotActive);
        }
        if !self.immutables.timelocks.can_cancel(ctx.block_timestamp) {
            return Err(EscrowError::WindowNotReached);
        }
        if !self.is_cancel_authority(&ctx.predecessor_account_id) {
            return Err(EscrowError::Unauthorized);
        }
        self.state = EscrowState::Cancelled;
        Ok(
            match self.escrow_type {
                EscrowType::Source => self.transfer_funds_to_taker(),
                EscrowType::Destination => self.transfer_funds_to_maker(),
            },
        )
    }

    /// Sends stuck funds to a recipient of the caller's choice once the
    /// rescue window has opened.
    ///
    /// The escrow must be active, the rescue window open, and the caller the
    /// party that may cancel. Then the escrow becomes rescued and the
    /// principal is to be sent to `recipient`, whoever that is.
    pub fn rescue_funds(&mut self, recipient: AccountId, ctx: &CallContext) -> (result: Result<
        Transfer,
        EscrowError,
    >)
        ensures
            match result {
                Ok(transfer) => {
                    &&& old(self)@.rescue_refusal(
                        ctx.predecessor_account_id@,
                        ctx.block_timestamp,
                    ) is None
                    &&& final(self)@ == old(self)@.rescued()
                    &&& transfer@ == old(self)@.payout(recipient@)
                },
                Err(error) => {
                    &&& old(self)@.rescue_refusal(ctx.predecessor_account_id@, ctx.block_timestamp)
                        == Some(error)
                    &&& final(self)@ == old(self)@
                },
            },
            old(self)@.well_formed() ==> final(self)@.well_formed(),
    {
        if !matches!(self.state, EscrowState::Active) {
            return Err(EscrowError::NotActive);
        }
        if !self.immutables.timelocks.can_rescue(ctx.block_timestamp) {
            return Err(EscrowError::WindowNotReached);
        }
        if !self.is_cancel_authority(&ctx.predecessor_account_id) {
            return Err(EscrowError::Unauthorized);
        }
        self.state = EscrowState::Rescued;
        Ok(self.transfer_funds(recipient))
    }

    /// Which side of the swap this escrow holds.
    pub fn get_escrow_type(&self) -> (escrow_type: EscrowType)
        ensures
            escrow_type == self@.escrow_type,
    {
        self.escrow_type
    }

    /// The swap's parameters.
    pub fn get_immutables(&self) -> (immutables: EscrowImmutables)
        ensures
            immutables@ == self@.immutables,
    {
        self.immutables.clone()
    }

    /// Where the escrow stands.
    pub fn get_state(&self) -> (state: EscrowState)
        ensures
            state == self@.state,
    {
        self.state
    }

    /// The secret that was shown on withdrawal, if there was one.
    pub fn get_secret(&self) -> (secret: Option<String>)
        ensures
            secret is Some <==> self@.secret is Some,
            secret matches Some(s) ==> s@ == self@.secret->0,
    {
        match &self.secret {
            Some(secret) => Some(secret.clone()),
            None => None,
        }
    }

    /// The account that created the escrow.
    pub fn get_factory(&self) -> (factory: AccountId)
        ensures
            factory@ == self@.factory,
    {
        self.factory.clone()
    }

    /// Whether the withdrawal window is open at `now`. This is a matter of
    /// time alone: the state of the escrow plays no part.
    pub fn can_withdraw(&self, now: Timestamp) -> (open: bool)
        ensures
            open == self@.immutables.timelocks.withdrawal_open(now),
    {
        self.immutables.timelocks.can_withdraw(now)
    }

    /// Whether the cancellation window is open at `now`, whatever the state
    /// of the escrow.
    pub fn can_cancel(&self, now: Timestamp) -> (open: bool)
        ensures
            open == self@.immutables.timelocks.cancellation_open(now),
    {
        self.immutables.timelocks.can_cancel(now)
    }

    /// Whether the rescue window is open at `now`, whatever the state of the
    /// escrow.
    pub fn can_rescue(&self, now: Timestamp) -> (open: bool)
        ensures
            open == self@.immutables.timelocks.rescue_open(now),
    {
        self.immutables.timelocks.can_rescue(now)
    }

    /// The party that withdrawn funds go to.
    pub fn get_withdraw_authority(&self) -> (authority: AccountId)
        ensures
            authority@ == self@.withdraw_authority(),
    {
        match self.escrow_type {
            EscrowType::Source => self.immutables.maker.clone(),
            EscrowType::Destination => self.immutables.taker.clone(),
        }
    }

    /// The party that may cancel and rescue.
    pub fn get_cancel_authority(&self) -> (authority: AccountId)
        ensures
            authority@ == self@.cancel_authority(),
    {
        match self.escrow_type {
            EscrowType::Source => self.immutables.taker.clone(),
            EscrowType::Destination => self.immutables.maker.clone(),
        }
    }

    fn is_cancel_authority(&self, caller: &AccountId) -> (allowed: bool)
        ensures
            allowed == (caller@ == self@.cancel_authority()),
    {
        match self.escrow_type {
            EscrowType::Source => *caller == self.immutables.taker,
            EscrowType::Destination => *caller == self.immutables.maker,
        }
    }

    fn transfer_funds_to_maker(&self) -> (transfer: Transfer)
        ensures
            transfer@ == self@.payout(self@.immutables.maker),
    {
        self.transfer_funds(self.immutables.maker.clone())
    }

    fn transfer_funds_to_taker(&self) -> (transfer: Transfer)
        ensures
            transfer@ == self@.payout(self@.immutables.taker),
    {
        self.transfer_funds(self.immutables.taker.clone())
    }

    /// The transfer of the principal to `recipient`: native where the swap
    /// names no token, else through the token's contract.
    fn transfer_funds(&self, recipient: AccountId) -> (transfer: Transfer)
        ensures
            transfer@ == self@.payout(recipient@),
    {
        Transfer {
            recipient,
            amount: self.immutables.amount,
            token: clone_account(&self.immutables.token),
        }
    }
}

/// An escrow that is no longer active refuses withdrawal, cancellation and
/// rescue alike, whoever calls and whenever.
pub proof fn lemma_terminal_refuses_all(
    escrow: EscrowView,
    secret_opens: bool,
    caller: Seq<char>,
    now: Timestamp,
)
    requires
        escrow.state != EscrowState::Active,
    ensures
        escrow.withdraw_refusal(secret_opens, caller, now) == Some(EscrowError::NotActive),
        escrow.cancel_refusal(caller, now) == Some(EscrowError::NotActive),
        escrow.rescue_refusal(caller, now) == Some(EscrowError::NotActive),
{
}

/// Only an active escrow accepts an operation, and the operation leaves it in
/// a state that is not active: so of all the withdrawals, cancellations and
/// rescues ever tried on one escrow, at most one succeeds.
pub proof fn lemma_success_ends_escrow(
    escrow: EscrowView,
    secret: Seq<char>,
    secret_opens: bool,
    caller: Seq<char>,
    now: Timestamp,
)
    ensures
        escrow.withdraw_refusal(secret_opens, caller, now) is None ==> escrow.state
            == EscrowState::Active && escrow.withdrawn(secret).state == EscrowState::Withdrawn,
        escrow.cancel_refusal(caller, now) is None ==> escrow.state == EscrowState::Active
            && escrow.cancelled().state == EscrowState::Cancelled,
        escrow.rescue_refusal(caller, now) is None ==> escrow.state == EscrowState::Active
            && escrow.rescued().state == EscrowState::Rescued,
{
}

/// After a successful withdrawal every further withdrawal, cancellation and
/// rescue is refused because the escrow is not active.
pub proof fn lemma_nothing_follows_withdrawal(
    escrow: EscrowView,
    secret: Seq<char>,
    secret_opens: bool,
    caller: Seq<char>,
    now: Timestamp,
    next_secret_opens: bool,
    next_caller: Seq<char>,
    next_now: Timestamp,
)
    requires
        escrow.withdraw_refusal(secret_opens, caller, now) is None,
    ensures
        escrow.withdrawn(secret).withdraw_refusal(next_secret_opens, next_caller, next_now)
            == Some(EscrowError::NotActive),
        escrow.withdrawn(secret).cancel_refusal(next_caller, next_now) == Some(
            EscrowError::NotActive,
        ),
        escrow.withdrawn(secret).rescue_refusal(next_caller, next_now) == Some(
            EscrowError::NotActive,
        ),
{
}

/// After a successful cancellation every further withdrawal, cancellation and
/// rescue is refused because the escrow is not active.
pub proof fn lemma_nothing_follows_cancellation(
    escrow: EscrowView,
    caller: Seq<char>,
    now: Timestamp,
    next_secret_opens: bool,
    next_caller: Seq<char>,
    next_now: Timestamp,
)
    requires
        escrow.cancel_refusal(caller, now) is None,
    ensures
        escrow.cancelled().withdraw_refusal(next_secret_opens, next_caller, next_now) == Some(
            EscrowError::NotActive,
        ),
        escrow.cancelled().cancel_refusal(next_caller, next_now) == Some(EscrowError::NotActive),
        escrow.cancelled().rescue_refusal(next_caller, next_now) == Some(EscrowError::NotActive),
{
}

/// After a successful rescue every further withdrawal, cancellation and
/// rescue is refused because the escrow is not active.
pub proof fn lemma_nothing_follows_rescue(
    escrow: EscrowView,
    caller: Seq<char>,
    now: Timestamp,
    next_secret_opens: bool,
    next_caller: Seq<char>,
    next_now: Timestamp,
)
    requires
        escrow.rescue_refusal(caller, now) is None,
    ensures
        escrow.rescued().withdraw_refusal(next_secret_opens, next_caller, next_now) == Some(
            EscrowError::NotActive,
        ),
        escrow.rescued().cancel_refusal(next_caller, next_now) == Some(EscrowError::NotActive),
        escrow.rescued().rescue_refusal(next_caller, next_now) == Some(EscrowError::NotActive),
{
}

/// The two roles differ on withdrawal. A destination escrow lets only its
/// taker withdraw. A source escrow lets anyone withdraw who shows the secret
/// in time, and still pays its maker, never the caller.
pub proof fn lemma_role_asymmetry(
    escrow: EscrowView,
    secret_opens: bool,
    caller: Seq<char>,
    now: Timestamp,
)
    ensures
        escrow.escrow_type == EscrowType::Destination && escrow.withdraw_refusal(
            secret_opens,
            caller,
            now,
        ) is None ==> caller == escrow.immutables.taker,
        escrow.escrow_type == EscrowType::Destination ==> escrow.payout(
            escrow.withdraw_authority(),
        ).recipient == escrow.immutables.taker,
        escrow.escrow_type == EscrowType::Source ==> (escrow.withdraw_refusal(
            secret_opens,
            caller,
            now,
        ) is None <==> escrow.state == EscrowState::Active
            && escrow.immutables.timelocks.withdrawal_open(now) && secret_opens),
        escrow.escrow_type == EscrowType::Source ==> escrow.payout(
            escrow.withdraw_authority(),
        ).recipient == escrow.immutables.maker,
{
}

/// The record of the secret follows the state: what holds of a new escrow,
/// that a secret is on record exactly when it has been withdrawn, holds after
/// every operation.
pub proof fn lemma_well_formed_preserved(escrow: EscrowView, secret: Seq<char>)
    requires
        escrow.well_formed(),
        escrow.state == EscrowState::Active,
    ensures
        escrow.withdrawn(secret).well_formed(),
        escrow.cancelled().well_formed(),
        escrow.rescued().well_formed(),
{
}

} // verus!
