//! The factory that creates escrows, one for each order.
//!
//! Creation runs in two calls. The first reserves: it checks the request,
//! enters the order into the registry as pending and hands out the plan by
//! which the ledger is to provision the escrow. The second is the completion
//! callback: where provisioning succeeded it commits the entry and sweeps
//! the fee, where it failed it takes the entry back. An entry leaves the
//! pending status once; a report that finds no pending entry changes nothing.

use crate::account::{is_lower_alnum, is_separator, is_valid_account_id, AccountId};
use crate::error::EscrowError;
use crate::hashlock::{is_hashlock, CryptoUtils};
use crate::registry::Registry;
use crate::swap::{
    account_view, clone_account, Balance, CallContext, EscrowImmutables, EscrowImmutablesView,
    EscrowType, Transfer, TransferView,
};
use crate::timelocks::Timestamp;
use vstd::prelude::*;
use vstd::slice::slice_to_vec;

verus! {

/// What a new escrow must keep in reserve for its own storage: three whole
/// native tokens.
pub const MIN_STORAGE_DEPOSIT: Balance = 3_000_000_000_000_000_000_000_000;

/// How many characters of the order's identifier go into the name of its
/// escrow.
pub const ORDER_PREFIX_LEN: usize = 8;

/// The longest factory name that leaves room for the rest of an escrow's name.
pub const MAX_FACTORY_NAME_LEN: usize = 51;

/// How far the creation of an escrow has come. An entry that was taken back
/// is no longer in the registry, so it has no status.
#[derive(Clone, Copy, Debug, PartialEq, Eq, Structural)]
pub enum CreationStatus {
    /// Reserved: provisioning has been planned and its outcome is not known.
    Pending,
    /// Provisioning has succeeded: the escrow is live.
    Committed,
}

/// What the registry keeps about an escrow.
#[derive(Debug)]
pub struct EscrowInfo {
    /// Which side of the swap the escrow holds.
    pub escrow_type: EscrowType,
    /// The swap's parameters as they were at creation.
    pub immutables: EscrowImmutables,
    /// The account that asked for the escrow.
    pub creator: AccountId,
    /// When it asked.
    pub created_at: Timestamp,
    /// Whether the escrow is only reserved or known to be live.
    pub status: CreationStatus,
}

/// A registry record as plain values.
pub struct EscrowInfoView {
    pub escrow_type: EscrowType,
    pub immutables: EscrowImmutablesView,
    pub creator: Seq<char>,
    pub created_at: Timestamp,
    pub status: CreationStatus,
}

impl View for EscrowInfo {
    type V = EscrowInfoView;

    open spec fn view(&self) -> EscrowInfoView {
        EscrowInfoView {
            escrow_type: self.escrow_type,
            immutables: self.immutables@,
            creator: self.creator@,
            created_at: self.created_at,
            status: self.status,
        }
    }
}

impl Clone for EscrowInfo {
    fn clone(&self) -> (copy: Self)
        ensures
            copy@ == self@,
    {
        EscrowInfo {
            escrow_type: self.escrow_type,
            immutables: self.immutables.clone(),
            creator: self.creator.clone(),
            created_at: self.created_at,
            status: self.status,
        }
    }
}

/// What the ledger is to do to bring a reserved escrow to life: where `code`
/// is given, create the account `escrow_account_id` and deploy that code to
/// it; move `escrow_amount` into the account; initialise it with
/// `escrow_type` and `immutables`; and then report to the factory's
/// completion callback with `escrow_account_id`, the order's identifier and
/// `creation_fee`.
#[derive(Debug)]
pub struct CreationPlan {
    pub escrow_account_id: AccountId,
    pub escrow_type: EscrowType,
    pub immutables: EscrowImmutables,
    pub escrow_amount: Balance,
    pub creation_fee: Balance,
    pub code: Option<Vec<u8>>,
}

/// A creation plan as plain values.
pub struct CreationPlanView {
    pub escrow_account_id: Seq<char>,
    pub escrow_type: EscrowType,
    pub immutables: EscrowImmutablesView,
    pub escrow_amount: Balance,
    pub creation_fee: Balance,
    pub code: Option<Seq<u8>>,
}

impl View for CreationPlan {
    type V = CreationPlanView;

    open spec fn view(&self) -> CreationPlanView {
        CreationPlanView {
            escrow_account_id: self.escrow_account_id@,
            escrow_type: self.escrow_type,
            immutables: self.immutables@,
            escrow_amount: self.escrow_amount,
            creation_fee: self.creation_fee,
            code: match self.code {
                Some(code) => Some(code@),
                None => None,
            },
        }
    }
}

/// The escrow factory.
pub struct EscrowFactory {
    /// The account that may administer the factory.
    pub owner: AccountId,
    /// The escrow of each order.
    pub order_to_escrow: Registry<AccountId>,
    /// The record of each escrow.
    pub escrow_info: Registry<EscrowInfo>,
    /// The fee for creating an escrow.
    pub creation_fee: Balance,
    /// The account that collects the fees, if any does.
    pub treasury: Option<AccountId>,
    /// The account that holds the escrow template, once it is set.
    pub escrow_template: Option<AccountId>,
    /// The code that a new source escrow is given; empty until it is set.
    pub escrow_src_code: Vec<u8>,
    /// The code that a new destination escrow is given; empty until it is set.
    pub escrow_dst_code: Vec<u8>,
}

/// A factory as plain values.
pub struct EscrowFactoryView {
    pub owner: Seq<char>,
    pub order_to_escrow: Map<Seq<char>, Seq<char>>,
    pub escrow_info: Map<Seq<char>, EscrowInfoView>,
    pub creation_fee: Balance,
    pub treasury: Option<Seq<char>>,
    pub escrow_template: Option<Seq<char>>,
    pub escrow_src_code: Seq<u8>,
    pub escrow_dst_code: Seq<u8>,
}

impl View for EscrowFactory {
    type V = EscrowFactoryView;

    open spec fn view(&self) -> EscrowFactoryView {
        EscrowFactoryView {
            owner: self.owner@,
            order_to_escrow: self.order_to_escrow@,
            escrow_info: self.escrow_info@,
            creation_fee: self.creation_fee,
            treasury: account_view(self.treasury),
            escrow_template: account_view(self.escrow_template),
            escrow_src_code: self.escrow_src_code@,
            escrow_dst_code: self.escrow_dst_code@,
        }
    }
}

/// What must be attached to a creation call: the fee, the storage reserve,
/// the safety deposit and, where the asset is the native one, the principal.
pub open spec fn required_deposit(creation_fee: Balance, immutables: EscrowImmutablesView) -> int {
    creation_fee + MIN_STORAGE_DEPOSIT + (if immutables.token is None {
        immutables.amount as int
    } else {
        0
    }) + immutables.safety_deposit
}

/// The tag that the role puts into an escrow's name.
pub open spec fn role_tag(escrow_type: EscrowType) -> Seq<char> {
    match escrow_type {
        EscrowType::Source => "src"@,
        EscrowType::Destination => "dst"@,
    }
}

/// The name of the escrow of an order: the role's tag, a hyphen, the first
/// eight characters of the order's identifier, a dot, and the factory's own
/// name. It depends on nothing else, so anyone can tell it beforehand.
pub open spec fn escrow_account_name(
    order_hash: Seq<char>,
    escrow_type: EscrowType,
    factory: Seq<char>,
) -> Seq<char> {
    role_tag(escrow_type) + "-"@ + order_hash.subrange(0, ORDER_PREFIX_LEN as int) + "."@
        + factory
}

/// Whether an order's identifier gives its escrow a name that the ledger
/// accepts.
pub open spec fn names_escrow(
    order_hash: Seq<char>,
    escrow_type: EscrowType,
    factory: Seq<char>,
) -> bool {
    order_hash.len() >= ORDER_PREFIX_LEN && is_valid_account_id(
        escrow_account_name(order_hash, escrow_type, factory),
    )
}

/// Eight characters that can stand between the hyphen and the dot of an
/// escrow's name: lower-case letters, digits and separators, with no
/// separator first or last and no two separators in a row.
pub open spec fn is_order_prefix(prefix: Seq<char>) -> bool {
    &&& prefix.len() == ORDER_PREFIX_LEN
    &&& forall|i: int|
        0 <= i < prefix.len() ==> is_lower_alnum(#[trigger] prefix[i]) || is_separator(prefix[i])
    &&& !is_separator(prefix[0])
    &&& !is_separator(prefix[prefix.len() - 1])
    &&& forall|i: int|
        0 <= i < prefix.len() - 1 ==> !(is_separator(#[trigger] prefix[i]) && is_separator(
            prefix[i + 1],
        ))
}

/// An optional transfer as plain values.
pub open spec fn transfer_view(transfer: Option<Transfer>) -> Option<TransferView> {
    match transfer {
        Some(t) => Some(t@),
        None => None,
    }
}

impl EscrowFactoryView {
    /// The registry pairs orders and escrows one to one: every order's
    /// escrow has a record, which is the record of that order, and every
    /// record's order is entered under the record's escrow. So no two orders
    /// share an escrow and no escrow serves two orders.
    pub open spec fn consistent(self) -> bool {
        &&& forall|order: Seq<char>| #[trigger]
            self.order_to_escrow.contains_key(order) ==> {
                &&& self.escrow_info.contains_key(self.order_to_escrow[order])
                &&& self.escrow_info[self.order_to_escrow[order]].immutables.order_hash == order
            }
        &&& forall|escrow: Seq<char>| #[trigger]
            self.escrow_info.contains_key(escrow) ==> {
                &&& self.order_to_escrow.contains_key(
                    self.escrow_info[escrow].immutables.order_hash,
                )
                &&& self.order_to_escrow[self.escrow_info[escrow].immutables.order_hash]
                    == escrow
            }
    }

    /// The code that an escrow of the given role is deployed with.
    pub open spec fn escrow_code(self, escrow_type: EscrowType) -> Seq<u8> {
        match escrow_type {
            EscrowType::Source => self.escrow_src_code,
            EscrowType::Destination => self.escrow_dst_code,
        }
    }

    /// Why `create_escrow` refuses, if it does: the first of the six tests
    /// that fails, in this order. The template account is asked for first;
    /// a duplicate order is named before anything is asked of the role, so
    /// that it is refused as a duplicate whatever role it comes with; the
    /// role's code is asked for last.
    pub open spec fn create_escrow_refusal(
        self,
        escrow_type: EscrowType,
        immutables: EscrowImmutablesView,
        factory: Seq<char>,
        attached: Balance,
    ) -> Option<EscrowError> {
        if self.escrow_template is None {
            Some(EscrowError::TemplateNotConfigured)
        } else if attached < required_deposit(self.creation_fee, immutables) {
            Some(EscrowError::InsufficientDeposit)
        } else if self.order_to_escrow.contains_key(immutables.order_hash) {
            Some(EscrowError::DuplicateOrder)
        } else if !is_hashlock(immutables.hashlock) || !names_escrow(
            immutables.order_hash,
            escrow_type,
            factory,
        ) {
            Some(EscrowError::InvalidImmutables)
        } else if self.escrow_info.contains_key(
            escrow_account_name(immutables.order_hash, escrow_type, factory),
        ) {
            Some(EscrowError::DuplicateEscrow)
        } else if self.escrow_code(escrow_type).len() == 0 {
            Some(EscrowError::TemplateNotConfigured)
        } else {
            None
        }
    }

    /// Why `initialize_escrow` refuses, if it does: the first of the four
    /// tests that fails, in this order.
    pub open spec fn initialize_escrow_refusal(
        self,
        escrow_account: Seq<char>,
        immutables: EscrowImmutablesView,
        attached: Balance,
    ) -> Option<EscrowError> {
        if attached < required_deposit(self.creation_fee, immutables) {
            Some(EscrowError::InsufficientDeposit)
        } else if self.order_to_escrow.contains_key(immutables.order_hash) {
            Some(EscrowError::DuplicateOrder)
        } else if !is_hashlock(immutables.hashlock) {
            Some(EscrowError::InvalidImmutables)
        } else if self.escrow_info.contains_key(escrow_account) {
            Some(EscrowError::DuplicateEscrow)
        } else {
            None
        }
    }

    /// The factory with the order reserved for `escrow_account`: both
    /// entries are written, and the record is pending.
    pub open spec fn reserved(
        self,
        escrow_account: Seq<char>,
        escrow_type: EscrowType,
        immutables: EscrowImmutablesView,
        creator: Seq<char>,
        now: Timestamp,
    ) -> EscrowFactoryView {
        EscrowFactoryView {
            order_to_escrow: self.order_to_escrow.insert(immutables.order_hash, escrow_account),
            escrow_info: self.escrow_info.insert(
                escrow_account,
                EscrowInfoView {
                    escrow_type,
                    immutables,
                    creator,
                    created_at: now,
                    status: CreationStatus::Pending,
                },
            ),
            ..self
        }
    }

    /// The order `order_hash` is reserved for `escrow_account` and the
    /// outcome of its provisioning has not been reported yet.
    pub open spec fn awaits_completion(
        self,
        escrow_account: Seq<char>,
        order_hash: Seq<char>,
    ) -> bool {
        &&& self.order_to_escrow.contains_key(order_hash)
        &&& self.order_to_escrow[order_hash] == escrow_account
        &&& self.escrow_info.contains_key(escrow_account)
        &&& self.escrow_info[escrow_account].status == CreationStatus::Pending
    }

    /// The factory with the record of `escrow_account` committed.
    pub open spec fn committed(self, escrow_account: Seq<char>) -> EscrowFactoryView {
        EscrowFactoryView {
            escrow_info: self.escrow_info.insert(
                escrow_account,
                EscrowInfoView {
                    status: CreationStatus::Committed,
                    ..self.escrow_info[escrow_account]
                },
            ),
            ..self
        }
    }

    /// The factory with the reservation of `order_hash` for `escrow_account`
    /// taken back: both entries are deleted.
    pub open spec fn rolled_back(
        self,
        escrow_account: Seq<char>,
        order_hash: Seq<char>,
    ) -> EscrowFactoryView {
        EscrowFactoryView {
            order_to_escrow: self.order_to_escrow.remove(order_hash),
            escrow_info: self.escrow_info.remove(escrow_account),
            ..self
        }
    }

    /// The factory after a report of the completion callback: a pending
    /// reservation is committed or taken back, and without one nothing
    /// changes.
    pub open spec fn completed(
        self,
        escrow_account: Seq<char>,
        order_hash: Seq<char>,
        provisioned: bool,
    ) -> EscrowFactoryView {
        if !self.awaits_completion(escrow_account, order_hash) {
            self
        } else if provisioned {
            self.committed(escrow_account)
        } else {
            self.rolled_back(escrow_account, order_hash)
        }
    }

    /// The plan for an escrow that has just been reserved: all that was
    /// attached goes into the escrow but the fee, which the factory holds.
    pub open spec fn creation_plan(
        self,
        escrow_account: Seq<char>,
        escrow_type: EscrowType,
        immutables: EscrowImmutablesView,
        attached: Balance,
        code: Option<Seq<u8>>,
    ) -> CreationPlanView {
        CreationPlanView {
            escrow_account_id: escrow_account,
            escrow_type,
            immutables,
            escrow_amount: (attached - self.creation_fee) as Balance,
            creation_fee: self.creation_fee,
            code,
        }
    }

    /// The sweep of a fee to the treasury: there is one where a treasury is
    /// set and the fee is not zero.
    pub open spec fn fee_sweep(self, fee: Balance) -> Option<TransferView> {
        if self.treasury is Some && fee > 0 {
            Some(TransferView { recipient: self.treasury->0, amount: fee, token: None })
        } else {
            None
        }
    }
}

impl EscrowFactory {
    /// A factory with an empty registry and no escrow code.
    pub fn new(
        owner: AccountId,
        creation_fee: Balance,
        treasury: Option<AccountId>,
        escrow_template: Option<AccountId>,
    ) -> (factory: Self)
        ensures
            factory@ == (EscrowFactoryView {
                owner: owner@,
                order_to_escrow: Map::empty(),
                escrow_info: Map::empty(),
                creation_fee,
                treasury: account_view(treasury),
                escrow_template: account_view(escrow_template),
                escrow_src_code: Seq::empty(),
                escrow_dst_code: Seq::empty(),
            }),
            factory@.consistent(),
    {
        EscrowFactory {
            owner,
            order_to_escrow: Registry::new(),
            escrow_info: Registry::new(),
            creation_fee,
            treasury,
            escrow_template,
            escrow_src_code: Vec::new(),
            escrow_dst_code: Vec::new(),
        }
    }

    /// Names the account that holds the escrow template. Only the owner may.
    pub fn set_escrow_template(&mut self, template: AccountId, ctx: &CallContext) -> (result:
        Result<(), EscrowError>)
        ensures
            result is Ok <==> ctx.predecessor_account_id@ == old(self)@.owner,
            result is Ok ==> final(self)@ == (EscrowFactoryView {
                escrow_template: Some(template@),
                ..old(self)@
            }),
            result is Err ==> result == Err::<(), EscrowError>(EscrowError::Unauthorized)
                && final(self)@ == old(self)@,
    {
        self.assert_owner(ctx)?;
        self.escrow_template = Some(template);
        Ok(())
    }

    /// Sets the code that new escrows are deployed with, for each role. Only
    /// the owner may.
    pub fn update_escrow_code(&mut self, src_code: Vec<u8>, dst_code: Vec<u8>, ctx: &CallContext) -> (result:
        Result<(), EscrowError>)
        ensures
            result is Ok <==> ctx.predecessor_account_id@ == old(self)@.owner,
            result is Ok ==> final(self)@ == (EscrowFactoryView {
                escrow_src_code: src_code@,
                escrow_dst_code: dst_code@,
                ..old(self)@
            }),
            result is Err ==> result == Err::<(), EscrowError>(EscrowError::Unauthorized)
                && final(self)@ == old(self)@,
    {
        self.assert_owner(ctx)?;
        self.escrow_src_code = src_code;
        self.escrow_dst_code = dst_code;
        Ok(())
    }

    /// Reserves a source escrow for an order: `create_escrow` with the
    /// source role.
    pub fn create_src_escrow(&mut self, immutables: EscrowImmutables, ctx: &CallContext) -> (result:
        Result<CreationPlan, EscrowError>)
        ensures
            old(self)@.created(
                final(self)@,
                plan_view(result),
                EscrowType::Source,
                immutables@,
                ctx.current_account_id@,
                ctx.predecessor_account_id@,
                ctx.attached_deposit,
                ctx.block_timestamp,
            ),
    {
        self.create_escrow(immutables, EscrowType::Source, ctx)
    }

    /// Reserves a destination escrow for an order: `create_escrow` with the
    /// destination role.
    pub fn create_dst_escrow(&mut self, immutables: EscrowImmutables, ctx: &CallContext) -> (result:
        Result<CreationPlan, EscrowError>)
        ensures
            old(self)@.created(
                final(self)@,
                plan_view(result),
                EscrowType::Destination,
                immutables@,
                ctx.current_account_id@,
                ctx.predecessor_account_id@,
                ctx.attached_deposit,
                ctx.block_timestamp,
            ),
    {
        self.create_escrow(immutables, EscrowType::Destination, ctx)
    }

    /// Reserves an escrow for an order and plans its provisioning.
    ///
    /// The factory must have a template account, the value attached must
    /// cover [`required_deposit`], the order must have no escrow yet,
    /// whatever its role, the hashlock must have the shape of one and the
    /// order's identifier must give the escrow a name that the ledger
    /// accepts, no other order may hold that name, and the factory must have
    /// code for the role. Then the order is entered into the registry under
    /// that name as pending, with the caller as creator, before anything is
    /// provisioned.
    pub fn create_escrow(
        &mut self,
        immutables: EscrowImmutables,
        escrow_type: EscrowType,
        ctx: &CallContext,
    ) -> (result: Result<CreationPlan, EscrowError>)
        ensures
            old(self)@.created(
                final(self)@,
                plan_view(result),
                escrow_type,
                immutables@,
                ctx.current_account_id@,
                ctx.predecessor_account_id@,
                ctx.attached_deposit,
                ctx.block_timestamp,
            ),
            old(self)@.consistent() ==> final(self)@.consistent(),
    {
        if self.escrow_template.is_none() {
            return Err(EscrowError::TemplateNotConfigured);
        }
        if !self.covers_deposit(&immutables, ctx.attached_deposit) {
            return Err(EscrowError::InsufficientDeposit);
        }
        if self.order_to_escrow.contains_key(immutables.order_hash.as_str()) {
            return Err(EscrowError::DuplicateOrder);
        }
        if !CryptoUtils::is_hashlock(immutables.hashlock.as_str()) {
            return Err(EscrowError::InvalidImmutables);
        }
        let escrow_account_id = match self.generate_escrow_account_id(
            immutables.order_hash.as_str(),
            &escrow_type,
            ctx,
        ) {
            Some(id) => id,
            None => {
                return Err(EscrowError::InvalidImmutables);
            },
        };
        if self.escrow_info.contains_key(escrow_account_id.as_str()) {
            return Err(EscrowError::DuplicateEscrow);
        }
        let code = match escrow_type {
            EscrowType::Source => slice_to_vec(self.escrow_src_code.as_slice()),
            EscrowType::Destination => slice_to_vec(self.escrow_dst_code.as_slice()),
        };
        if code.len() == 0 {
            return Err(EscrowError::TemplateNotConfigured);
        }
        proof {
            lemma_reservation_keeps_pairing(
                self@,
                escrow_account_id@,
                escrow_type,
                immutables@,
                ctx.predecessor_account_id@,
                ctx.block_timestamp,
            );
        }
        Ok(self.reserve(escrow_account_id, immutables, escrow_type, ctx, Some(code)))
    }

    /// Reserves an order for an escrow account that exists already, and plans
    /// its funding and initialisation.
    ///
    /// The value attached must cover [`required_deposit`], the order must
    /// have no escrow yet, the hashlock must have the shape of one, and the
    /// account must serve no other order. The account is taken as the caller
    /// names it, and nothing is deployed to it.
    pub fn initialize_escrow(
        &mut self,
        escrow_account: AccountId,
        immutables: EscrowImmutables,
        escrow_type: EscrowType,
        ctx: &CallContext,
    ) -> (result: Result<CreationPlan, EscrowError>)
        ensures
            match result {
                Ok(plan) => {
                    &&& old(self)@.initialize_escrow_refusal(
                        escrow_account@,
                        immutables@,
                        ctx.attached_deposit,
                    ) is None
                    &&& plan@ == old(self)@.creation_plan(
                        escrow_account@,
                        escrow_type,
                        immutables@,
                        ctx.attached_deposit,
                        None,
                    )
                    &&& final(self)@ == old(self)@.reserved(
                        escrow_account@,
                        escrow_type,
                        immutables@,
                        ctx.predecessor_account_id@,
                        ctx.block_timestamp,
                    )
                },
                Err(error) => {
                    &&& old(self)@.initialize_escrow_refusal(
                        escrow_account@,
                        immutables@,
                        ctx.attached_deposit,
                    ) == Some(error)
                    &&& final(self)@ == old(self)@
                },
            },
            old(self)@.consistent() ==> final(self)@.consistent(),
    {
        if !self.covers_deposit(&immutables, ctx.attached_deposit) {
            return Err(EscrowError::InsufficientDeposit);
        }
        if self.order_to_escrow.contains_key(immutables.order_hash.as_str()) {
            return Err(EscrowError::DuplicateOrder);
        }
        if !CryptoUtils::is_hashlock(immutables.hashlock.as_str()) {
            return Err(EscrowError::InvalidImmutables);
        }
        if self.escrow_info.contains_key(escrow_account.as_str()) {
            return Err(EscrowError::DuplicateEscrow);
        }
        proof {
            lemma_reservation_keeps_pairing(
                self@,
                escrow_account@,
                escrow_type,
                immutables@,
                ctx.predecessor_account_id@,
                ctx.block_timestamp,
            );
        }
        Ok(self.reserve(escrow_account, immutables, escrow_type, ctx, None))
    }

    /// The completion callback of a creation: commits the reservation or
    /// takes it back, once.
    ///
    /// Only the factory itself may call. The report is answered by its
    /// outcome: success with the sweep that is to be made, failure with
    /// `ProvisioningFailed`. It takes effect only where the order is reserved
    /// for the escrow and still pending. Then success commits the record and
    /// sweeps the fee to the treasury, if there is a treasury and a fee, and
    /// failure deletes both registry entries; value that had reached the
    /// escrow account is not brought back. A report that finds no pending
    /// reservation changes nothing and sweeps nothing.
    pub fn on_escrow_created(
        &mut self,
        escrow_account_id: AccountId,
        order_hash: String,
        fee: Balance,
        provisioned: bool,
        ctx: &CallContext,
    ) -> (result: Result<Option<Transfer>, EscrowError>)
        ensures
            match result {
                Ok(sweep) => {
                    &&& ctx.predecessor_account_id@ == ctx.current_account_id@
                    &&& provisioned
                    &&& transfer_view(sweep) == (if old(self)@.awaits_completion(
                        escrow_account_id@,
                        order_hash@,
                    ) {
                        old(self)@.fee_sweep(fee)
                    } else {
                        None
                    })
                    &&& final(self)@ == old(self)@.completed(
                        escrow_account_id@,
                        order_hash@,
                        provisioned,
                    )
                },
                Err(error) => if ctx.predecessor_account_id@ != ctx.current_account_id@ {
                    &&& error == EscrowError::Unauthorized
                    &&& final(self)@ == old(self)@
                } else {
                    &&& !provisioned
                    &&& error == EscrowError::ProvisioningFailed
                    &&& final(self)@ == old(self)@.completed(
                        escrow_account_id@,
                        order_hash@,
                        provisioned,
                    )
                },
            },
            old(self)@.consistent() ==> final(self)@.consistent(),
    {
        if ctx.predecessor_account_id != ctx.current_account_id {
            return Err(EscrowError::Unauthorized);
        }
        let pending = self.awaits_completion(&escrow_account_id, order_hash.as_str());
        proof {
            lemma_completion_keeps_pairing(self@, escrow_account_id@, order_hash@, provisioned);
        }
        if provisioned {
            if !pending {
                return Ok(None);
            }
            let sweep = match &self.treasury {
                Some(treasury) => if fee > 0 {
                    Some(Transfer { recipient: treasury.clone(), amount: fee, token: None })
                } else {
                    None
                },
                None => None,
            };
            let committed = match self.escrow_info.get(escrow_account_id.as_str()) {
                Some(info) => EscrowInfo {
                    escrow_type: info.escrow_type,
                    immutables: info.immutables.clone(),
                    creator: info.creator.clone(),
                    created_at: info.created_at,
                    status: CreationStatus::Committed,
                },
                None => {
                    return Ok(None);
                },
            };
            self.escrow_info.insert(escrow_account_id.as_str().to_owned(), committed);
            Ok(sweep)
        } else {
            if pending {
                self.order_to_escrow.remove(order_hash.as_str());
                self.escrow_info.remove(escrow_account_id.as_str());
            }
            Err(EscrowError::ProvisioningFailed)
        }
    }

    /// Whether the order is reserved for the escrow and still pending.
    pub fn awaits_completion(&self, escrow_account_id: &AccountId, order_hash: &str) -> (pending:
        bool)
        ensures
            pending == self@.awaits_completion(escrow_account_id@, order_hash@),
    {
        match self.order_to_escrow.get(order_hash) {
            Some(escrow) => {
                if *escrow != *escrow_account_id {
                    return false;
                }
            },
            None => {
                return false;
            },
        }
        match self.escrow_info.get(escrow_account_id.as_str()) {
            Some(info) => matches!(info.status, CreationStatus::Pending),
            None => false,
        }
    }

    /// The escrow reserved for an order, if there is one.
    pub fn get_escrow_for_order(&self, order_hash: String) -> (escrow: Option<AccountId>)
        ensures
            account_view(escrow) == (if self@.order_to_escrow.contains_key(order_hash@) {
                Some(self@.order_to_escrow[order_hash@])
            } else {
                None
            }),
    {
        match self.order_to_escrow.get(order_hash.as_str()) {
            Some(escrow) => Some(escrow.clone()),
            None => None,
        }
    }

    /// The record of an escrow, if there is one. Its status tells a
    /// reservation from a live escrow.
    pub fn get_escrow_info(&self, escrow_account_id: AccountId) -> (info: Option<EscrowInfo>)
        ensures
            info is Some <==> self@.escrow_info.contains_key(escrow_account_id@),
            info matches Some(record) ==> record@ == self@.escrow_info[escrow_account_id@],
    {
        match self.escrow_info.get(escrow_account_id.as_str()) {
            Some(info) => Some(info.clone()),
            None => None,
        }
    }

    /// Sets the creation fee. Only the owner may.
    pub fn set_creation_fee(&mut self, fee: Balance, ctx: &CallContext) -> (result: Result<
        (),
        EscrowError,
    >)
        ensures
            result is Ok <==> ctx.predecessor_account_id@ == old(self)@.owner,
            result is Ok ==> final(self)@ == (EscrowFactoryView {
                creation_fee: fee,
                ..old(self)@
            }),
            result is Err ==> result == Err::<(), EscrowError>(EscrowError::Unauthorized)
                && final(self)@ == old(self)@,
    {
        self.assert_owner(ctx)?;
        self.creation_fee = fee;
        Ok(())
    }

    /// Sets or clears the treasury. Only the owner may.
    pub fn set_treasury(&mut self, treasury: Option<AccountId>, ctx: &CallContext) -> (result:
        Result<(), EscrowError>)
        ensures
            result is Ok <==> ctx.predecessor_account_id@ == old(self)@.owner,
            result is Ok ==> final(self)@ == (EscrowFactoryView {
                treasury: account_view(treasury),
                ..old(self)@
            }),
            result is Err ==> result == Err::<(), EscrowError>(EscrowError::Unauthorized)
                && final(self)@ == old(self)@,
    {
        self.assert_owner(ctx)?;
        self.treasury = treasury;
        Ok(())
    }

    /// Plans a native transfer of `amount` out of the factory to `recipient`.
    /// Only the owner may.
    pub fn rescue_funds(&mut self, amount: Balance, recipient: AccountId, ctx: &CallContext) -> (result:
        Result<Transfer, EscrowError>)
        ensures
            final(self)@ == old(self)@,
            result is Ok <==> ctx.predecessor_account_id@ == old(self)@.owner,
            result matches Ok(transfer) ==> transfer@ == (TransferView {
                recipient: recipient@,
                amount,
                token: None,
            }),
            result matches Err(error) ==> error == EscrowError::Unauthorized,
    {
        self.assert_owner(ctx)?;
        Ok(Transfer { recipient, amount, token: None })
    }

    /// The account that may administer the factory.
    pub fn get_owner(&self) -> (owner: AccountId)
        ensures
            owner@ == self@.owner,
    {
        self.owner.clone()
    }

    /// The fee for creating an escrow.
    pub fn get_creation_fee(&self) -> (fee: Balance)
        ensures
            fee == self@.creation_fee,
    {
        self.creation_fee
    }

    /// The account that collects the fees, if any does.
    pub fn get_treasury(&self) -> (treasury: Option<AccountId>)
        ensures
            account_view(treasury) == self@.treasury,
    {
        clone_account(&self.treasury)
    }

    /// The account that holds the escrow template, if it is set.
    pub fn get_escrow_template(&self) -> (template: Option<AccountId>)
        ensures
            account_view(template) == self@.escrow_template,
    {
        clone_account(&self.escrow_template)
    }

    /// Accepts the call where the caller is the owner.
    pub fn assert_owner(&self, ctx: &CallContext) -> (result: Result<(), EscrowError>)
        ensures
            result is Ok <==> ctx.predecessor_account_id@ == self@.owner,
            result is Err ==> result == Err::<(), EscrowError>(EscrowError::Unauthorized),
    {
        if ctx.predecessor_account_id == self.owner {
            Ok(())
        } else {
            Err(EscrowError::Unauthorized)
        }
    }

    /// What must be attached to a creation call for `immutables`, where a
    /// balance can hold it.
    pub fn calculate_required_deposit(&self, immutables: &EscrowImmutables) -> (required: Option<
        Balance,
    >)
        ensures
            match required {
                Some(deposit) => deposit == required_deposit(self@.creation_fee, immutables@),
                None => required_deposit(self@.creation_fee, immutables@) > Balance::MAX,
            },
    {
        let principal: Balance = if immutables.token.is_none() {
            immutables.amount
        } else {
            0
        };
        let with_reserve = match self.creation_fee.checked_add(MIN_STORAGE_DEPOSIT) {
            Some(sum) => sum,
            None => {
                return None;
            },
        };
        let with_principal = match with_reserve.checked_add(principal) {
            Some(sum) => sum,
            None => {
                return None;
            },
        };
        with_principal.checked_add(immutables.safety_deposit)
    }

    /// The name of the escrow of an order, where the order's identifier
    /// gives one that the ledger accepts.
    pub fn generate_escrow_account_id(
        &self,
        order_hash: &str,
        escrow_type: &EscrowType,
        ctx: &CallContext,
    ) -> (escrow_account: Option<AccountId>)
        ensures
            escrow_account is Some <==> names_escrow(
                order_hash@,
                *escrow_type,
                ctx.current_account_id@,
            ),
            escrow_account matches Some(id) ==> id@ == escrow_account_name(
                order_hash@,
                *escrow_type,
                ctx.current_account_id@,
            ),
    {
        if order_hash.unicode_len() < ORDER_PREFIX_LEN {
            return None;
        }
        let tag: &str = match escrow_type {
            EscrowType::Source => "src",
            EscrowType::Destination => "dst",
        };
        let mut name = tag.to_owned();
        name.append("-");
        name.append(order_hash.substring_char(0, ORDER_PREFIX_LEN));
        name.append(".");
        name.append(ctx.current_account_id.as_str());
        AccountId::parse(name.as_str())
    }

    /// Whether `attached` covers what creation costs.
    fn covers_deposit(&self, immutables: &EscrowImmutables, attached: Balance) -> (covered: bool)
        ensures
            covered == (attached >= required_deposit(self@.creation_fee, immutables@)),
    {
        match self.calculate_required_deposit(immutables) {
            Some(required) => attached >= required,
            None => false,
        }
    }

    /// Enters the order into the registry and makes the plan.
    fn reserve(
        &mut self,
        escrow_account: AccountId,
        immutables: EscrowImmutables,
        escrow_type: EscrowType,
        ctx: &CallContext,
        code: Option<Vec<u8>>,
    ) -> (plan: CreationPlan)
        requires
            ctx.attached_deposit >= required_deposit(old(self)@.creation_fee, immutables@),
        ensures
            plan@ == old(self)@.creation_plan(
                escrow_account@,
                escrow_type,
                immutables@,
                ctx.attached_deposit,
                code_view(code),
            ),
            final(self)@ == old(self)@.reserved(
                escrow_account@,
                escrow_type,
                immutables@,
                ctx.predecessor_account_id@,
                ctx.block_timestamp,
            ),
    {
        let info = EscrowInfo {
            escrow_type,
            immutables: immutables.clone(),
            creator: ctx.predecessor_account_id.clone(),
            created_at: ctx.block_timestamp,
            status: CreationStatus::Pending,
        };
        self.order_to_escrow.insert(immutables.order_hash.clone(), escrow_account.clone());
        self.escrow_info.insert(escrow_account.as_str().to_owned(), info);
        CreationPlan {
            escrow_account_id: escrow_account,
            escrow_type,
            immutables,
            escrow_amount: ctx.attached_deposit - self.creation_fee,
            creation_fee: self.creation_fee,
            code,
        }
    }
}

/// Optional code as a plain value.
pub open spec fn code_view(code: Option<Vec<u8>>) -> Option<Seq<u8>> {
    match code {
        Some(bytes) => Some(bytes@),
        None => None,
    }
}

/// The answer of a creation call as plain values.
pub open spec fn plan_view(result: Result<CreationPlan, EscrowError>) -> Result<
    CreationPlanView,
    EscrowError,
> {
    match result {
        Ok(plan) => Ok(plan@),
        Err(error) => Err(error),
    }
}

impl EscrowFactoryView {
    /// What `create_escrow` does: with no reason to refuse, it reserves the
    /// order under the name that its identifier gives and plans the
    /// deployment of the role's code; with one, it gives the reason and
    /// leaves the factory as it was.
    pub open spec fn created(
        self,
        after: EscrowFactoryView,
        result: Result<CreationPlanView, EscrowError>,
        escrow_type: EscrowType,
        immutables: EscrowImmutablesView,
        factory: Seq<char>,
        creator: Seq<char>,
        attached: Balance,
        now: Timestamp,
    ) -> bool {
        let escrow_account = escrow_account_name(immutables.order_hash, escrow_type, factory);
        match self.create_escrow_refusal(escrow_type, immutables, factory, attached) {
            Some(error) => result == Err::<CreationPlanView, EscrowError>(error) && after == self,
            None => {
                &&& result == Ok::<CreationPlanView, EscrowError>(
                    self.creation_plan(
                        escrow_account,
                        escrow_type,
                        immutables,
                        attached,
                        Some(self.escrow_code(escrow_type)),
                    ),
                )
                &&& after == self.reserved(escrow_account, escrow_type, immutables, creator, now)
            },
        }
    }
}

/// Which orders name an escrow. Under a factory whose own name is valid, an
/// order's identifier gives its escrow an acceptable name exactly when its
/// first eight characters are an order prefix and the factory's name has at
/// most fifty-one characters; the role plays no part.
pub proof fn lemma_names_escrow(order_hash: Seq<char>, escrow_type: EscrowType, factory: Seq<char>)
    requires
        is_valid_account_id(factory),
    ensures
        names_escrow(order_hash, escrow_type, factory) <==> (order_hash.len() >= ORDER_PREFIX_LEN
            && is_order_prefix(order_hash.subrange(0, ORDER_PREFIX_LEN as int)) && factory.len()
            <= MAX_FACTORY_NAME_LEN),
{
    reveal_strlit("src");
    reveal_strlit("dst");
    reveal_strlit("-");
    reveal_strlit(".");
    if order_hash.len() >= ORDER_PREFIX_LEN {
        let prefix = order_hash.subrange(0, ORDER_PREFIX_LEN as int);
        let name = escrow_account_name(order_hash, escrow_type, factory);
        let tag = role_tag(escrow_type);
        // the name, part by part
        assert(tag.len() == 3);
        assert(name.len() == 13 + factory.len());
        assert forall|k: int| 0 <= k < 3 implies #[trigger] name[k] == tag[k] by {}
        assert(name[3] == '-');
        assert forall|k: int| 4 <= k < 12 implies #[trigger] name[k] == prefix[k - 4] by {}
        assert(name[12] == '.');
        assert forall|k: int| 13 <= k < name.len() implies #[trigger] name[k] == factory[k
            - 13] by {}
        assert(is_lower_alnum(tag[0]) && is_lower_alnum(tag[1]) && is_lower_alnum(tag[2]));
        if is_valid_account_id(name) {
            assert forall|i: int| 0 <= i < prefix.len() implies is_lower_alnum(
                #[trigger] prefix[i],
            ) || is_separator(prefix[i]) by {
                assert(prefix[i] == name[i + 4]);
            }
            assert(!is_separator(prefix[0])) by {
                assert(is_separator(name[3]));
                assert(prefix[0] == name[4]);
            }
            assert(!is_separator(prefix[7])) by {
                assert(prefix[7] == name[11]);
                assert(is_separator(name[12]));
            }
            assert forall|i: int| 0 <= i < prefix.len() - 1 implies !(is_separator(
                #[trigger] prefix[i],
            ) && is_separator(prefix[i + 1])) by {
                assert(prefix[i] == name[i + 4]);
                assert(prefix[i + 1] == name[i + 4 + 1]);
            }
        }
        if is_order_prefix(prefix) && factory.len() <= MAX_FACTORY_NAME_LEN {
            assert forall|k: int| 0 <= k < name.len() implies is_lower_alnum(#[trigger] name[k])
                || is_separator(name[k]) by {
                if 4 <= k < 12 {
                    assert(is_lower_alnum(prefix[k - 4]) || is_separator(prefix[k - 4]));
                } else if k >= 13 {
                    assert(is_lower_alnum(factory[k - 13]) || is_separator(factory[k - 13]));
                }
            }
            assert(!is_separator(name[0]));
            assert(!is_separator(name[name.len() - 1])) by {
                assert(name[name.len() - 1] == factory[factory.len() - 1]);
            }
            assert forall|k: int| 0 <= k < name.len() - 1 implies !(is_separator(
                #[trigger] name[k],
            ) && is_separator(name[k + 1])) by {
                if k < 3 {
                    assert(name[k] == tag[k]);
                } else if k == 3 {
                    assert(name[4] == prefix[0]);
                } else if k < 11 {
                    assert(name[k] == prefix[k - 4]);
                    assert(name[k + 1] == prefix[k - 4 + 1]);
                } else if k == 11 {
                    assert(name[11] == prefix[7]);
                } else if k == 12 {
                    assert(name[13] == factory[0]);
                } else {
                    assert(name[k] == factory[k - 13]);
                    assert(name[k + 1] == factory[k - 13 + 1]);
                }
            }
        }
    }
}

/// A reservation keeps the pairing of orders and escrows, since it is made
/// only for an order and an escrow that the registry does not know yet.
pub proof fn lemma_reservation_keeps_pairing(
    factory: EscrowFactoryView,
    escrow_account: Seq<char>,
    escrow_type: EscrowType,
    immutables: EscrowImmutablesView,
    creator: Seq<char>,
    now: Timestamp,
)
    requires
        !factory.order_to_escrow.contains_key(immutables.order_hash),
        !factory.escrow_info.contains_key(escrow_account),
    ensures
        factory.consistent() ==> factory.reserved(
            escrow_account,
            escrow_type,
            immutables,
            creator,
            now,
        ).consistent(),
        factory.reserved(escrow_account, escrow_type, immutables, creator, now).awaits_completion(
            escrow_account,
            immutables.order_hash,
        ),
        factory.reserved(escrow_account, escrow_type, immutables, creator, now).rolled_back(
            escrow_account,
            immutables.order_hash,
        ) == factory,
{
    let after = factory.reserved(escrow_account, escrow_type, immutables, creator, now);
    let restored = after.rolled_back(escrow_account, immutables.order_hash);
    assert(restored.order_to_escrow =~= factory.order_to_escrow);
    assert(restored.escrow_info =~= factory.escrow_info);
    if factory.consistent() {
        assert forall|order: Seq<char>| #[trigger]
            after.order_to_escrow.contains_key(order) implies after.escrow_info.contains_key(
            after.order_to_escrow[order],
        ) && after.escrow_info[after.order_to_escrow[order]].immutables.order_hash == order by {
            if order != immutables.order_hash {
                assert(factory.order_to_escrow.contains_key(order));
            }
        }
        assert forall|escrow: Seq<char>| #[trigger]
            after.escrow_info.contains_key(escrow) implies after.order_to_escrow.contains_key(
            after.escrow_info[escrow].immutables.order_hash,
        ) && after.order_to_escrow[after.escrow_info[escrow].immutables.order_hash] == escrow by {
            if escrow != escrow_account {
                assert(factory.escrow_info.contains_key(escrow));
            }
        }
    }
}

/// A report of the completion callback keeps the pairing of orders and
/// escrows.
pub proof fn lemma_completion_keeps_pairing(
    factory: EscrowFactoryView,
    escrow_account: Seq<char>,
    order_hash: Seq<char>,
    provisioned: bool,
)
    ensures
        factory.consistent() ==> factory.completed(
            escrow_account,
            order_hash,
            provisioned,
        ).consistent(),
{
    let after = factory.completed(escrow_account, order_hash, provisioned);
    if factory.consistent() && factory.awaits_completion(escrow_account, order_hash) {
        assert(factory.escrow_info[escrow_account].immutables.order_hash == order_hash);
        assert forall|order: Seq<char>| #[trigger]
            after.order_to_escrow.contains_key(order) implies after.escrow_info.contains_key(
            after.order_to_escrow[order],
        ) && after.escrow_info[after.order_to_escrow[order]].immutables.order_hash == order by {
            assert(factory.order_to_escrow.contains_key(order));
            assert(factory.escrow_info.contains_key(factory.order_to_escrow[order]));
        }
        assert forall|escrow: Seq<char>| #[trigger]
            after.escrow_info.contains_key(escrow) implies after.order_to_escrow.contains_key(
            after.escrow_info[escrow].immutables.order_hash,
        ) && after.order_to_escrow[after.escrow_info[escrow].immutables.order_hash] == escrow by {
            assert(factory.escrow_info.contains_key(escrow));
        }
    }
}

/// One escrow for each order, one order for each escrow. In a registry that
/// pairs them, two orders never share an escrow.
pub proof fn lemma_one_escrow_per_order(
    factory: EscrowFactoryView,
    order: Seq<char>,
    other: Seq<char>,
)
    requires
        factory.consistent(),
        factory.order_to_escrow.contains_key(order),
        factory.order_to_escrow.contains_key(other),
        order != other,
    ensures
        factory.order_to_escrow[order] != factory.order_to_escrow[other],
{
}

/// An order gets one escrow. Once `create_escrow` has reserved an order, a
/// second `create_escrow` for the same order is refused, whatever role and
/// whatever else it names; and where enough is attached, the reason given
/// is that the order is a duplicate.
pub proof fn lemma_duplicate_order_refused(
    factory: EscrowFactoryView,
    escrow_type: EscrowType,
    immutables: EscrowImmutablesView,
    account: Seq<char>,
    attached: Balance,
    creator: Seq<char>,
    now: Timestamp,
    next_type: EscrowType,
    next_immutables: EscrowImmutablesView,
    next_account: Seq<char>,
    next_attached: Balance,
)
    requires
        factory.create_escrow_refusal(escrow_type, immutables, account, attached) is None,
        next_immutables.order_hash == immutables.order_hash,
    ensures
        ({
            let after = factory.reserved(
                escrow_account_name(immutables.order_hash, escrow_type, account),
                escrow_type,
                immutables,
                creator,
                now,
            );
            let refusal = after.create_escrow_refusal(
                next_type,
                next_immutables,
                next_account,
                next_attached,
            );
            &&& refusal is Some
            &&& next_attached >= required_deposit(after.creation_fee, next_immutables) ==> refusal
                == Some(EscrowError::DuplicateOrder)
        }),
{
}

/// A reserved order is a duplicate on either way of creation: once any
/// reservation stands for an order, `initialize_escrow` refuses that order
/// too.
pub proof fn lemma_reserved_order_refused(
    factory: EscrowFactoryView,
    escrow_account: Seq<char>,
    escrow_type: EscrowType,
    immutables: EscrowImmutablesView,
    creator: Seq<char>,
    now: Timestamp,
    next_account: Seq<char>,
    next_immutables: EscrowImmutablesView,
    next_attached: Balance,
)
    requires
        next_immutables.order_hash == immutables.order_hash,
    ensures
        ({
            let after = factory.reserved(escrow_account, escrow_type, immutables, creator, now);
            let refusal = after.initialize_escrow_refusal(
                next_account,
                next_immutables,
                next_attached,
            );
            &&& refusal is Some
            &&& next_attached >= required_deposit(after.creation_fee, next_immutables) ==> refusal
                == Some(EscrowError::DuplicateOrder)
        }),
{
}

/// An escrow serves one order. Once a reservation stands for an escrow
/// account, no creation for another order is accepted under that account.
pub proof fn lemma_taken_escrow_refused(
    factory: EscrowFactoryView,
    escrow_account: Seq<char>,
    escrow_type: EscrowType,
    immutables: EscrowImmutablesView,
    creator: Seq<char>,
    now: Timestamp,
    next_type: EscrowType,
    next_immutables: EscrowImmutablesView,
    next_account: Seq<char>,
    next_attached: Balance,
)
    ensures
        ({
            let after = factory.reserved(escrow_account, escrow_type, immutables, creator, now);
            &&& after.initialize_escrow_refusal(escrow_account, next_immutables, next_attached)
                is Some
            &&& escrow_account_name(next_immutables.order_hash, next_type, next_account)
                == escrow_account ==> after.create_escrow_refusal(
                next_type,
                next_immutables,
                next_account,
                next_attached,
            ) is Some
        }),
{
}

/// Rollback is complete. Where `create_escrow` has reserved an order and the
/// completion callback then reports failure, the reservation is still
/// pending, so the report takes it back, and the factory is again what it
/// was before the creation: the registry knows neither the order nor the
/// escrow.
pub proof fn lemma_rollback_restores(
    factory: EscrowFactoryView,
    escrow_type: EscrowType,
    immutables: EscrowImmutablesView,
    account: Seq<char>,
    attached: Balance,
    creator: Seq<char>,
    now: Timestamp,
)
    requires
        factory.create_escrow_refusal(escrow_type, immutables, account, attached) is None,
    ensures
        ({
            let escrow_account = escrow_account_name(immutables.order_hash, escrow_type, account);
            let restored = factory.reserved(
                escrow_account,
                escrow_type,
                immutables,
                creator,
                now,
            ).completed(escrow_account, immutables.order_hash, false);
            &&& restored == factory
            &&& !restored.order_to_escrow.contains_key(immutables.order_hash)
            &&& !restored.escrow_info.contains_key(escrow_account)
        }),
{
    lemma_reservation_keeps_pairing(
        factory,
        escrow_account_name(immutables.order_hash, escrow_type, account),
        escrow_type,
        immutables,
        creator,
        now,
    );
}

/// The same holds of `initialize_escrow`: a failure report takes its
/// reservation back and restores the factory.
pub proof fn lemma_rollback_restores_initialized(
    factory: EscrowFactoryView,
    escrow_account: Seq<char>,
    escrow_type: EscrowType,
    immutables: EscrowImmutablesView,
    attached: Balance,
    creator: Seq<char>,
    now: Timestamp,
)
    requires
        factory.initialize_escrow_refusal(escrow_account, immutables, attached) is None,
    ensures
        ({
            let restored = factory.reserved(
                escrow_account,
                escrow_type,
                immutables,
                creator,
                now,
            ).completed(escrow_account, immutables.order_hash, false);
            &&& restored == factory
            &&& !restored.order_to_escrow.contains_key(immutables.order_hash)
            &&& !restored.escrow_info.contains_key(escrow_account)
        }),
{
    lemma_reservation_keeps_pairing(factory, escrow_account, escrow_type, immutables, creator, now);
}

/// An entry leaves the pending status once. After a report has committed a
/// reservation or taken it back, the escrow awaits no completion, for
/// whatever order: every further report, of success or of failure, changes
/// nothing.
pub proof fn lemma_completion_happens_once(
    factory: EscrowFactoryView,
    escrow_account: Seq<char>,
    order_hash: Seq<char>,
    provisioned: bool,
    next_order: Seq<char>,
    next_provisioned: bool,
)
    requires
        factory.awaits_completion(escrow_account, order_hash),
    ensures
        ({
            let after = factory.completed(escrow_account, order_hash, provisioned);
            &&& !after.awaits_completion(escrow_account, next_order)
            &&& after.completed(escrow_account, next_order, next_provisioned) == after
        }),
{
}

} // verus!
