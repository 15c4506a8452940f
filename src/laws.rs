//! Properties of the ledger that span several operations, stated over the
//! model that the operations' contracts use.
use vstd::prelude::*;
use crate::address::Address;
use crate::invoice::InvoiceStatus;
use crate::vault::{CallContext, LedgerError, VaultState};

verus! {

/// A fresh ledger hands out identifier 1 to its first invoice.
pub proof fn first_invoice_id_is_one(owner: Address)
    ensures
        VaultState::initial(owner).wf(),
        VaultState::initial(owner).next_invoice_id == 1,
        forall|id: u64| !(#[trigger] VaultState::initial(owner).has_invoice(id)),
{
}

/// A created invoice gets an identifier above every identifier allocated so
/// far, the identifier after it is larger still, and every earlier invoice is
/// left as it was.
pub proof fn create_invoice_assigns_fresh_id(
    s: VaultState,
    ctx: CallContext,
    debtor: Address,
    amount: u128,
    due_date: u64,
)
    requires
        s.wf(),
        s.create_error(ctx, amount, due_date) is None,
    ensures
        ({
            let t = s.created(ctx.sender, debtor, amount, due_date);
            let id = s.next_invoice_id;
            &&& t.wf()
            &&& !s.has_invoice(id)
            &&& forall|k: u64| #[trigger] s.has_invoice(k) ==> k < id
            &&& t.next_invoice_id == id + 1
            &&& t.invoice(id).business == ctx.sender
            &&& t.invoice(id).amount == amount
            &&& t.invoice(id).status == InvoiceStatus::Pending
            &&& forall|k: u64|
                1 <= k < id ==> #[trigger] t.has_invoice(k) == s.has_invoice(k) && t.invoice(k)
                    == s.invoice(k)
        }),
{
    let t = s.created(ctx.sender, debtor, amount, due_date);
    assert forall|k: u64| 1 <= k < s.next_invoice_id implies #[trigger] t.has_invoice(k) == s.has_invoice(
        k,
    ) && t.invoice(k) == s.invoice(k) by {
        assert(t.invoices[k - 1] == s.invoices[k - 1]);
    }
}

/// Collateralising, factoring, settling and pausing never move the identifier
/// counter, so an identifier once handed out is never handed out again.
pub proof fn other_operations_keep_next_id(
    s: VaultState,
    ctx: CallContext,
    id: u64,
    value: u128,
    with_insurance: bool,
    paused: bool,
)
    ensures
        s.with_collateral(id, value).next_invoice_id == s.next_invoice_id,
        s.factored(ctx, id, with_insurance).next_invoice_id == s.next_invoice_id,
        s.paid(id).next_invoice_id == s.next_invoice_id,
        (VaultState { paused, ..s }).next_invoice_id == s.next_invoice_id,
{
}

/// For the invoice's own business on a running ledger, a deposit succeeds
/// exactly when the attached payment reaches 40% of the face value (rounded
/// down), and is otherwise refused for insufficient collateral.
pub proof fn deposit_collateral_threshold(s: VaultState, ctx: CallContext, id: u64)
    requires
        s.wf(),
        !s.paused,
        s.has_invoice(id),
        s.invoice(id).business == ctx.sender,
    ensures
        s.deposit_error(ctx, id) is None <==> ctx.value >= s.invoice(id).amount * 40 / 100,
        s.deposit_error(ctx, id) is None || s.deposit_error(ctx, id) == Some(
            LedgerError::InsufficientCollateral,
        ),
{
}

/// Once an invoice is factored, factoring it again is refused because it is
/// no longer pending, whoever tries and whatever they attach.
pub proof fn factor_invoice_twice_fails(
    s: VaultState,
    first: CallContext,
    second: CallContext,
    id: u64,
    first_insurance: bool,
    second_insurance: bool,
)
    requires
        s.wf(),
        s.factor_error(first, id, first_insurance) is None,
    ensures
        s.factored(first, id, first_insurance).factor_error(second, id, second_insurance) == Some(
            LedgerError::AlreadyFactored,
        ),
{
    let t = s.factored(first, id, first_insurance);
    assert(t.invoices[id - 1] == t.invoice(id));
}

/// A settlement succeeds only with a payment of at least the face value; it
/// marks the invoice paid, and any later settlement of it is refused.
pub proof fn pay_invoice_settles_once(s: VaultState, ctx: CallContext, later: CallContext, id: u64)
    requires
        s.wf(),
        s.pay_error(ctx, id) is None,
    ensures
        ctx.value >= s.invoice(id).amount,
        s.paid(id).invoice(id).status == InvoiceStatus::Paid,
        s.paid(id).pay_error(later, id) == Some(LedgerError::AlreadyPaid),
{
    assert(s.paid(id).invoices[id - 1] == s.paid(id).invoice(id));
}

/// Creating, collateralising, factoring and settling are refused as paused
/// exactly while the ledger is paused.
pub proof fn paused_blocks_mutations(
    s: VaultState,
    ctx: CallContext,
    debtor: Address,
    amount: u128,
    due_date: u64,
    id: u64,
    with_insurance: bool,
)
    ensures
        s.paused <==> s.create_error(ctx, amount, due_date) == Some(LedgerError::Paused),
        s.paused <==> s.deposit_error(ctx, id) == Some(LedgerError::Paused),
        s.paused <==> s.factor_error(ctx, id, with_insurance) == Some(LedgerError::Paused),
        s.paused <==> s.pay_error(ctx, id) == Some(LedgerError::Paused),
{
}

/// Factoring moves a pending invoice to factored and never lowers the platform
/// balance, the insurance pool or the total volume.
pub proof fn factoring_moves_forward(s: VaultState, ctx: CallContext, id: u64, with_insurance: bool)
    requires
        s.wf(),
        s.factor_error(ctx, id, with_insurance) is None,
    ensures
        ({
            let t = s.factored(ctx, id, with_insurance);
            &&& s.invoice(id).status == InvoiceStatus::Pending
            &&& t.invoice(id).status == InvoiceStatus::Factored
            &&& t.platform_balance >= s.platform_balance
            &&& t.insurance_pool >= s.insurance_pool
            &&& t.total_volume >= s.total_volume
        }),
{
    let t = s.factored(ctx, id, with_insurance);
    assert(t.invoices[id - 1] == t.invoice(id));
}

} // verus!
