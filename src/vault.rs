//! The ledger: invoices, their lifecycle, and the platform's accounting.
use vstd::prelude::*;
use crate::address::Address;
use crate::fees::{
    factor_amount,
    factor_amount_spec,
    factoring_cost,
    factoring_cost_spec,
    insurance_fee,
    insurance_fee_spec,
    platform_fee,
    platform_fee_spec,
    required_collateral,
    required_collateral_spec,
};
use crate::invoice::{Invoice, InvoiceStatus};

verus! {

/// Why an operation was refused. A refused operation changes nothing.
#[derive(Clone, Copy, Debug, PartialEq, Eq, Structural)]
pub enum LedgerError {
    Paused,
    InvalidAmount,
    InvalidDueDate,
    NotFound,
    Unauthorized,
    InsufficientCollateral,
    Expired,
    InsufficientFunds,
    AlreadyFactored,
    AlreadyPaid,
    /// A counter or an accumulator would leave its integer range.
    Overflow,
}

impl LedgerError {
    /// The text that `reason` returns for each error.
    pub open spec fn reason_spec(self) -> &'static str {
        match self {
            LedgerError::Paused => "Contract paused",
            LedgerError::InvalidAmount => "Invalid amount",
            LedgerError::InvalidDueDate => "Invalid due date",
            LedgerError::NotFound => "Invoice not found",
            LedgerError::Unauthorized => "Unauthorized",
            LedgerError::InsufficientCollateral => "Insufficient collateral",
            LedgerError::Expired => "Invoice expired",
            LedgerError::InsufficientFunds => "Insufficient funds",
            LedgerError::AlreadyFactored => "Invoice already factored",
            LedgerError::AlreadyPaid => "Invoice already paid",
            LedgerError::Overflow => "Arithmetic overflow",
        }
    }

    /// Human-readable reason, as reported to the caller of a refused operation.
    pub fn reason(&self) -> (r: &'static str)
        ensures
            r == self.reason_spec(),
    {
        match self {
            LedgerError::Paused => "Contract paused",
            LedgerError::InvalidAmount => "Invalid amount",
            LedgerError::InvalidDueDate => "Invalid due date",
            LedgerError::NotFound => "Invoice not found",
            LedgerError::Unauthorized => "Unauthorized",
            LedgerError::InsufficientCollateral => "Insufficient collateral",
            LedgerError::Expired => "Invoice expired",
            LedgerError::InsufficientFunds => "Insufficient funds",
            LedgerError::AlreadyFactored => "Invoice already factored",
            LedgerError::AlreadyPaid => "Invoice already paid",
            LedgerError::Overflow => "Arithmetic overflow",
        }
    }
}

/// What the host tells an operation about the call: who makes it, the
/// payment attached to it, and the current time.
#[derive(Clone, Copy, Debug, PartialEq, Eq, Structural)]
pub struct CallContext {
    pub sender: Address,
    pub value: u128,
    pub timestamp: u64,
}

/// Mathematical model of the ledger. The invoice with identifier `id` is
/// `invoices[id - 1]`; identifiers start at 1.
pub struct VaultState {
    pub owner: Address,
    pub paused: bool,
    pub next_invoice_id: u64,
    pub invoices: Seq<Invoice>,
    pub platform_balance: u128,
    pub insurance_pool: u128,
    pub total_volume: u128,
    pub total_invoices: u64,
    pub total_defaults: u64,
}

impl VaultState {
    /// Identifiers are handed out in order, one per stored record.
    pub open spec fn wf(self) -> bool {
        &&& self.next_invoice_id == self.invoices.len() + 1
        &&& self.total_invoices == self.invoices.len()
    }

    /// An invoice exists under `id`: the slot was allocated and its business
    /// is not the zero identity.
    pub open spec fn has_invoice(self, id: u64) -> bool {
        &&& 1 <= id <= self.invoices.len()
        &&& !self.invoices[id - 1].business.is_zero()
    }

    pub open spec fn invoice(self, id: u64) -> Invoice {
        self.invoices[id - 1]
    }

    /// The same ledger with the record under `id` replaced.
    pub open spec fn with_invoice(self, id: u64, inv: Invoice) -> VaultState {
        VaultState { invoices: self.invoices.update(id - 1, inv), ..self }
    }

    /// State of a ledger that `owner` has just initialised.
    pub open spec fn initial(owner: Address) -> VaultState {
        VaultState {
            owner,
            paused: false,
            next_invoice_id: 1,
            invoices: Seq::empty(),
            platform_balance: 0,
            insurance_pool: 0,
            total_volume: 0,
            total_invoices: 0,
            total_defaults: 0,
        }
    }

    /// Why `create_invoice` is refused, if it is.
    pub open spec fn create_error(self, ctx: CallContext, amount: u128, due_date: u64) -> Option<
        LedgerError,
    > {
        if self.paused {
            Some(LedgerError::Paused)
        } else if amount == 0 {
            Some(LedgerError::InvalidAmount)
        } else if due_date <= ctx.timestamp {
            Some(LedgerError::InvalidDueDate)
        } else if self.next_invoice_id == u64::MAX {
            Some(LedgerError::Overflow)
        } else {
            None
        }
    }

    /// The ledger after a new pending invoice is recorded under the next
    /// identifier.
    pub open spec fn created(
        self,
        business: Address,
        debtor: Address,
        amount: u128,
        due_date: u64,
    ) -> VaultState {
        VaultState {
            next_invoice_id: (self.next_invoice_id + 1) as u64,
            total_invoices: (self.total_invoices + 1) as u64,
            invoices: self.invoices.push(
                Invoice {
                    business,
                    debtor,
                    amount,
                    due_date,
                    status: InvoiceStatus::Pending,
                    investor: Address::zero_spec(),
                    collateral_amount: 0,
                    insurance_amount: 0,
                },
            ),
            ..self
        }
    }

    /// Why `deposit_collateral` is refused, if it is.
    pub open spec fn deposit_error(self, ctx: CallContext, id: u64) -> Option<LedgerError> {
        if self.paused {
            Some(LedgerError::Paused)
        } else if !self.has_invoice(id) {
            Some(LedgerError::NotFound)
        } else if self.invoice(id).business != ctx.sender {
            Some(LedgerError::Unauthorized)
        } else if ctx.value < required_collateral_spec(self.invoice(id).amount as int) {
            Some(LedgerError::InsufficientCollateral)
        } else {
            None
        }
    }

    /// The ledger after `value` is recorded as the collateral of `id`.
    pub open spec fn with_collateral(self, id: u64, value: u128) -> VaultState {
        self.with_invoice(id, Invoice { collateral_amount: value, ..self.invoice(id) })
    }

    /// Why `factor_invoice` is refused, if it is.
    pub open spec fn factor_error(self, ctx: CallContext, id: u64, with_insurance: bool) -> Option<
        LedgerError,
    > {
        if self.paused {
            Some(LedgerError::Paused)
        } else if !self.has_invoice(id) {
            Some(LedgerError::NotFound)
        } else if self.invoice(id).status != InvoiceStatus::Pending {
            Some(LedgerError::AlreadyFactored)
        } else if self.invoice(id).collateral_amount < required_collateral_spec(
            self.invoice(id).amount as int,
        ) {
            Some(LedgerError::InsufficientCollateral)
        } else if ctx.timestamp > self.invoice(id).due_date {
            Some(LedgerError::Expired)
        } else if ctx.value < factoring_cost_spec(self.invoice(id).amount as int, with_insurance) {
            Some(LedgerError::InsufficientFunds)
        } else if !self.factoring_fits(id, with_insurance) {
            Some(LedgerError::Overflow)
        } else {
            None
        }
    }

    /// The platform balance, the insurance pool and the total volume, grown by
    /// factoring `id`, all stay within their integer range.
    pub open spec fn factoring_fits(self, id: u64, with_insurance: bool) -> bool {
        let f = factor_amount_spec(self.invoice(id).amount as int);
        &&& self.platform_balance + platform_fee_spec(f) <= u128::MAX
        &&& self.insurance_pool + insurance_fee_spec(f, with_insurance) <= u128::MAX
        &&& self.total_volume + f <= u128::MAX
    }

    /// The ledger after `ctx.sender` factors `id`: the investor is recorded,
    /// the status becomes `Factored`, the insurance fee is recorded when
    /// insurance is elected, and the fees and the factored amount are added to
    /// the platform's accumulators.
    pub open spec fn factored(self, ctx: CallContext, id: u64, with_insurance: bool) -> VaultState {
        let inv = self.invoice(id);
        let f = factor_amount_spec(inv.amount as int);
        let ins = insurance_fee_spec(f, with_insurance);
        VaultState {
            invoices: self.invoices.update(
                id - 1,
                Invoice {
                    investor: ctx.sender,
                    status: InvoiceStatus::Factored,
                    insurance_amount: if with_insurance {
                        ins as u128
                    } else {
                        inv.insurance_amount
                    },
                    ..inv
                },
            ),
            platform_balance: (self.platform_balance + platform_fee_spec(f)) as u128,
            insurance_pool: (self.insurance_pool + ins) as u128,
            total_volume: (self.total_volume + f) as u128,
            ..self
        }
    }

    /// Why `pay_invoice` is refused, if it is.
    pub open spec fn pay_error(self, ctx: CallContext, id: u64) -> Option<LedgerError> {
        if self.paused {
            Some(LedgerError::Paused)
        } else if !self.has_invoice(id) {
            Some(LedgerError::NotFound)
        } else if self.invoice(id).status == InvoiceStatus::Paid {
            Some(LedgerError::AlreadyPaid)
        } else if ctx.value < self.invoice(id).amount {
            Some(LedgerError::InsufficientFunds)
        } else {
            None
        }
    }

    /// The ledger after `id` is settled.
    pub open spec fn paid(self, id: u64) -> VaultState {
        self.with_invoice(id, Invoice { status: InvoiceStatus::Paid, ..self.invoice(id) })
    }
}

/// The invoice-factoring ledger.
pub struct FlowVault {
    owner: Address,
    paused: bool,
    next_invoice_id: u64,
    invoices: Vec<Invoice>,
    platform_balance: u128,
    insurance_pool: u128,
    total_volume: u128,
    total_invoices: u64,
    total_defaults: u64,
}

impl View for FlowVault {
    type V = VaultState;

    closed spec fn view(&self) -> VaultState {
        VaultState {
            owner: self.owner,
            paused: self.paused,
            next_invoice_id: self.next_invoice_id,
            invoices: self.invoices@,
            platform_balance: self.platform_balance,
            insurance_pool: self.insurance_pool,
            total_volume: self.total_volume,
            total_invoices: self.total_invoices,
            total_defaults: self.total_defaults,
        }
    }
}

impl FlowVault {
    /// The stored counters agree with the stored invoices.
    pub open spec fn wf(&self) -> bool {
        self@.wf()
    }

    /// A ledger administered by the caller: not paused, the first invoice
    /// will be numbered 1, and every accumulator is zero.
    pub fn init(ctx: &CallContext) -> (r: FlowVault)
        ensures
            r.wf(),
            r@ == VaultState::initial(ctx.sender),
    {
        FlowVault {
            owner: ctx.sender,
            paused: false,
            next_invoice_id: 1,
            invoices: Vec::new(),
            platform_balance: 0,
            insurance_pool: 0,
            total_volume: 0,
            total_invoices: 0,
            total_defaults: 0,
        }
    }

    /// Index of the record under `id`, if an invoice exists there.
    fn find(&self, id: u64) -> (r: Option<usize>)
        requires
            self.wf(),
        ensures
            self@.has_invoice(id) <==> r is Some,
            r matches Some(i) ==> i + 1 == id && i < self.invoices.len(),
    {
        if id == 0 || id - 1 >= self.invoices.len() as u64 {
            None
        } else {
            let i = (id - 1) as usize;
            if self.invoices[i].business.is_zero() {
                None
            } else {
                Some(i)
            }
        }
    }

    /// Records a new pending invoice of the caller and returns its identifier.
    /// Refused while paused, for a zero amount, and for a due date that is not
    /// later than now.
    pub fn create_invoice(
        &mut self,
        ctx: &CallContext,
        debtor: Address,
        amount: u128,
        due_date: u64,
    ) -> (r: Result<u64, LedgerError>)
        requires
            old(self).wf(),
        ensures
            final(self).wf(),
            match old(self)@.create_error(*ctx, amount, due_date) {
                Some(e) => r == Err::<u64, LedgerError>(e) && final(self)@ == old(self)@,
                None => {
                    &&& r == Ok::<u64, LedgerError>(old(self)@.next_invoice_id)
                    &&& final(self)@ == old(self)@.created(ctx.sender, debtor, amount, due_date)
                },
            },
    {
        if self.paused {
            return Err(LedgerError::Paused);
        }
        if amount == 0 {
            return Err(LedgerError::InvalidAmount);
        }
        if due_date <= ctx.timestamp {
            return Err(LedgerError::InvalidDueDate);
        }
        if self.next_invoice_id == u64::MAX {
            return Err(LedgerError::Overflow);
        }
        let id = self.next_invoice_id;
        self.invoices.push(
            Invoice {
                business: ctx.sender,
                debtor,
                amount,
                due_date,
                status: InvoiceStatus::Pending,
                investor: Address::zero(),
                collateral_amount: 0,
                insurance_amount: 0,
            },
        );
        self.next_invoice_id = id + 1;
        self.total_invoices = self.total_invoices + 1;
        Ok(id)
    }

    /// Records the attached payment as the collateral of invoice `id`,
    /// replacing any earlier record. Only the invoice's business may deposit,
    /// and the payment must reach 40% of the face value.
    pub fn deposit_collateral(&mut self, ctx: &CallContext, id: u64) -> (r: Result<(), LedgerError>)
        requires
            old(self).wf(),
        ensures
            final(self).wf(),
            match old(self)@.deposit_error(*ctx, id) {
                Some(e) => r == Err::<(), LedgerError>(e) && final(self)@ == old(self)@,
                None => r is Ok && final(self)@ == old(self)@.with_collateral(id, ctx.value),
            },
    {
        if self.paused {
            return Err(LedgerError::Paused);
        }
        let i = match self.find(id) {
            Some(i) => i,
            None => return Err(LedgerError::NotFound),
        };
        let inv = self.invoices[i];
        if inv.business != ctx.sender {
            return Err(LedgerError::Unauthorized);
        }
        if ctx.value < required_collateral(inv.amount) {
            return Err(LedgerError::InsufficientCollateral);
        }
        self.invoices.set(i, Invoice { collateral_amount: ctx.value, ..inv });
        Ok(())
    }

    /// The caller factors pending invoice `id`, paying the factored amount
    /// (95% of the face value) plus a 1% platform fee, plus a 0.5% insurance
    /// fee when `with_insurance`; both fees are taken on the factored amount.
    /// Requires collateral of at least 40% of the face value, and a time no
    /// later than the due date.
    pub fn factor_invoice(&mut self, ctx: &CallContext, id: u64, with_insurance: bool) -> (r: Result<
        (),
        LedgerError,
    >)
        requires
            old(self).wf(),
        ensures
            final(self).wf(),
            match old(self)@.factor_error(*ctx, id, with_insurance) {
                Some(e) => r == Err::<(), LedgerError>(e) && final(self)@ == old(self)@,
                None => r is Ok && final(self)@ == old(self)@.factored(*ctx, id, with_insurance),
            },
    {
        if self.paused {
            return Err(LedgerError::Paused);
        }
        let i = match self.find(id) {
            Some(i) => i,
            None => return Err(LedgerError::NotFound),
        };
        let inv = self.invoices[i];
        if inv.status != InvoiceStatus::Pending {
            return Err(LedgerError::AlreadyFactored);
        }
        if inv.collateral_amount < required_collateral(inv.amount) {
            return Err(LedgerError::InsufficientCollateral);
        }
        if ctx.timestamp > inv.due_date {
            return Err(LedgerError::Expired);
        }
        if ctx.value < factoring_cost(inv.amount, with_insurance) {
            return Err(LedgerError::InsufficientFunds);
        }
        let f = factor_amount(inv.amount);
        let fee = platform_fee(f);
        let ins = insurance_fee(f, with_insurance);
        let platform_balance = match self.platform_balance.checked_add(fee) {
            Some(v) => v,
            None => return Err(LedgerError::Overflow),
        };
        let insurance_pool = match self.insurance_pool.checked_add(ins) {
            Some(v) => v,
            None => return Err(LedgerError::Overflow),
        };
        let total_volume = match self.total_volume.checked_add(f) {
            Some(v) => v,
            None => return Err(LedgerError::Overflow),
        };
        let insurance_amount = if with_insurance {
            ins
        } else {
            inv.insurance_amount
        };
        self.invoices.set(
            i,
            Invoice {
                investor: ctx.sender,
                status: InvoiceStatus::Factored,
                insurance_amount,
                ..inv
            },
        );
        self.platform_balance = platform_balance;
        self.insurance_pool = insurance_pool;
        self.total_volume = total_volume;
        Ok(())
    }

    /// Settles invoice `id`, pending or factored, against an attached payment
    /// of at least its face value.
    pub fn pay_invoice(&mut self, ctx: &CallContext, id: u64) -> (r: Result<(), LedgerError>)
        requires
            old(self).wf(),
        ensures
            final(self).wf(),
            match old(self)@.pay_error(*ctx, id) {
                Some(e) => r == Err::<(), LedgerError>(e) && final(self)@ == old(self)@,
                None => r is Ok && final(self)@ == old(self)@.paid(id),
            },
    {
        if self.paused {
            return Err(LedgerError::Paused);
        }
        let i = match self.find(id) {
            Some(i) => i,
            None => return Err(LedgerError::NotFound),
        };
        let inv = self.invoices[i];
        if inv.status == InvoiceStatus::Paid {
            return Err(LedgerError::AlreadyPaid);
        }
        if ctx.value < inv.amount {
            return Err(LedgerError::InsufficientFunds);
        }
        self.invoices.set(i, Invoice { status: InvoiceStatus::Paid, ..inv });
        Ok(())
    }

    /// The record of invoice `id`, field by field.
    pub fn get_invoice(&self, id: u64) -> (r: Result<Invoice, LedgerError>)
        requires
            self.wf(),
        ensures
            self@.has_invoice(id) ==> r == Ok::<Invoice, LedgerError>(self@.invoice(id)),
            !self@.has_invoice(id) ==> r == Err::<Invoice, LedgerError>(LedgerError::NotFound),
    {
        match self.find(id) {
            Some(i) => Ok(self.invoices[i]),
            None => Err(LedgerError::NotFound),
        }
    }

    /// The platform balance, the insurance pool, the total factored volume,
    /// the number of invoices created and the number of defaults, in that
    /// order.
    pub fn get_platform_stats(&self) -> (r: (u128, u128, u128, u64, u64))
        ensures
            r == (
                self@.platform_balance,
                self@.insurance_pool,
                self@.total_volume,
                self@.total_invoices,
                self@.total_defaults,
            ),
    {
        (
            self.platform_balance,
            self.insurance_pool,
            self.total_volume,
            self.total_invoices,
            self.total_defaults,
        )
    }

    /// Stops every operation that creates, collateralises, factors or settles
    /// an invoice. Only the owner may pause.
    pub fn pause(&mut self, ctx: &CallContext) -> (r: Result<(), LedgerError>)
        requires
            old(self).wf(),
        ensures
            final(self).wf(),
            ctx.sender != old(self)@.owner ==> r == Err::<(), LedgerError>(LedgerError::Unauthorized)
                && final(self)@ == old(self)@,
            ctx.sender == old(self)@.owner ==> r is Ok && final(self)@ == (VaultState {
                paused: true,
                ..old(self)@
            }),
    {
        if ctx.sender != self.owner {
            return Err(LedgerError::Unauthorized);
        }
        self.paused = true;
        Ok(())
    }

    /// Lets paused operations run again. Only the owner may unpause.
    pub fn unpause(&mut self, ctx: &CallContext) -> (r: Result<(), LedgerError>)
        requires
            old(self).wf(),
        ensures
            final(self).wf(),
            ctx.sender != old(self)@.owner ==> r == Err::<(), LedgerError>(LedgerError::Unauthorized)
                && final(self)@ == old(self)@,
            ctx.sender == old(self)@.owner ==> r is Ok && final(self)@ == (VaultState {
                paused: false,
                ..old(self)@
            }),
    {
        if ctx.sender != self.owner {
            return Err(LedgerError::Unauthorized);
        }
        self.paused = false;
        Ok(())
    }
}

} // verus!
