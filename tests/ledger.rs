use flowvault::address::Address;
use flowvault::invoice::InvoiceStatus;
use flowvault::vault::{CallContext, FlowVault, LedgerError};

const NOW: u64 = 1_700_000_000;

fn addr(n: u128) -> Address {
    Address { high: 0, low: n }
}

fn call(sender: Address, value: u128) -> CallContext {
    CallContext { sender, value, timestamp: NOW }
}

fn owner() -> Address {
    addr(1)
}

fn business() -> Address {
    addr(2)
}

fn debtor() -> Address {
    addr(3)
}

fn investor() -> Address {
    addr(4)
}

fn vault_with_invoice(amount: u128) -> (FlowVault, u64) {
    let mut v = FlowVault::init(&call(owner(), 0));
    let id = v.create_invoice(&call(business(), 0), debtor(), amount, NOW + 1000).unwrap();
    (v, id)
}

#[test]
fn end_to_end_factoring_with_insurance() {
    let (mut v, id) = vault_with_invoice(1000);
    assert_eq!(id, 1);
    assert_eq!(v.deposit_collateral(&call(business(), 400), id), Ok(()));
    assert_eq!(v.factor_invoice(&call(investor(), 963), id, true), Ok(()));

    let inv = v.get_invoice(id).unwrap();
    assert_eq!(inv.investor, investor());
    assert_eq!(inv.status, InvoiceStatus::Factored);
    assert_eq!(inv.insurance_amount, 4);
    assert_eq!(inv.collateral_amount, 400);
    assert_eq!(v.get_platform_stats(), (9, 4, 950, 1, 0));

    assert_eq!(v.pay_invoice(&call(debtor(), 1000), id), Ok(()));
    assert_eq!(v.get_invoice(id).unwrap().status, InvoiceStatus::Paid);
}

#[test]
fn init_sets_empty_ledger() {
    let v = FlowVault::init(&call(owner(), 0));
    assert_eq!(v.get_platform_stats(), (0, 0, 0, 0, 0));
    assert_eq!(v.get_invoice(0), Err(LedgerError::NotFound));
    assert_eq!(v.get_invoice(1), Err(LedgerError::NotFound));
}

#[test]
fn invoice_ids_increase_from_one() {
    let mut v = FlowVault::init(&call(owner(), 0));
    let c = call(business(), 0);
    assert_eq!(v.create_invoice(&c, debtor(), 10, NOW + 1), Ok(1));
    assert_eq!(v.create_invoice(&c, debtor(), 0, NOW + 1), Err(LedgerError::InvalidAmount));
    assert_eq!(v.create_invoice(&c, debtor(), 10, NOW), Err(LedgerError::InvalidDueDate));
    assert_eq!(v.create_invoice(&c, debtor(), 20, NOW + 1), Ok(2));
    assert_eq!(v.create_invoice(&c, debtor(), 30, NOW + 1), Ok(3));
    assert_eq!(v.get_platform_stats().3, 3);
    assert_eq!(v.get_invoice(2).unwrap().amount, 20);
}

#[test]
fn created_invoice_is_pending_and_empty() {
    let (v, id) = vault_with_invoice(500);
    let inv = v.get_invoice(id).unwrap();
    assert_eq!(inv.business, business());
    assert_eq!(inv.debtor, debtor());
    assert_eq!(inv.amount, 500);
    assert_eq!(inv.due_date, NOW + 1000);
    assert_eq!(inv.status, InvoiceStatus::Pending);
    assert_eq!(inv.investor, Address::zero());
    assert_eq!(inv.collateral_amount, 0);
    assert_eq!(inv.insurance_amount, 0);
}

#[test]
fn deposit_collateral_boundary() {
    let (mut v, id) = vault_with_invoice(1000);
    assert_eq!(
        v.deposit_collateral(&call(business(), 399), id),
        Err(LedgerError::InsufficientCollateral)
    );
    assert_eq!(v.get_invoice(id).unwrap().collateral_amount, 0);
    assert_eq!(v.deposit_collateral(&call(business(), 400), id), Ok(()));
    assert_eq!(v.get_invoice(id).unwrap().collateral_amount, 400);
}

#[test]
fn deposit_collateral_overwrites() {
    let (mut v, id) = vault_with_invoice(1000);
    assert_eq!(v.deposit_collateral(&call(business(), 700), id), Ok(()));
    assert_eq!(v.deposit_collateral(&call(business(), 450), id), Ok(()));
    assert_eq!(v.get_invoice(id).unwrap().collateral_amount, 450);
}

#[test]
fn deposit_collateral_refusals() {
    let (mut v, id) = vault_with_invoice(1000);
    assert_eq!(v.deposit_collateral(&call(investor(), 400), id), Err(LedgerError::Unauthorized));
    assert_eq!(v.deposit_collateral(&call(business(), 400), 9), Err(LedgerError::NotFound));
}

#[test]
fn factor_invoice_twice_fails() {
    let (mut v, id) = vault_with_invoice(1000);
    v.deposit_collateral(&call(business(), 400), id).unwrap();
    assert_eq!(v.factor_invoice(&call(investor(), 959), id, false), Ok(()));
    assert_eq!(
        v.factor_invoice(&call(addr(5), 10_000), id, true),
        Err(LedgerError::AlreadyFactored)
    );
    assert_eq!(v.get_platform_stats(), (9, 0, 950, 1, 0));
    assert_eq!(v.get_invoice(id).unwrap().investor, investor());
}

#[test]
fn factor_invoice_refusals() {
    let (mut v, id) = vault_with_invoice(1000);
    assert_eq!(
        v.factor_invoice(&call(investor(), 963), id, true),
        Err(LedgerError::InsufficientCollateral)
    );
    v.deposit_collateral(&call(business(), 400), id).unwrap();
    assert_eq!(
        v.factor_invoice(&call(investor(), 962), id, true),
        Err(LedgerError::InsufficientFunds)
    );
    let late = CallContext { sender: investor(), value: 963, timestamp: NOW + 1001 };
    assert_eq!(v.factor_invoice(&late, id, true), Err(LedgerError::Expired));
    let on_due_date = CallContext { sender: investor(), value: 963, timestamp: NOW + 1000 };
    assert_eq!(v.factor_invoice(&on_due_date, id, true), Ok(()));
    assert_eq!(v.factor_invoice(&call(investor(), 963), 7, true), Err(LedgerError::NotFound));
}

#[test]
fn pay_invoice_requires_face_value_and_settles_once() {
    let (mut v, id) = vault_with_invoice(1000);
    assert_eq!(v.pay_invoice(&call(debtor(), 999), id), Err(LedgerError::InsufficientFunds));
    assert_eq!(v.get_invoice(id).unwrap().status, InvoiceStatus::Pending);
    assert_eq!(v.pay_invoice(&call(debtor(), 1000), id), Ok(()));
    assert_eq!(v.get_invoice(id).unwrap().status, InvoiceStatus::Paid);
    assert_eq!(v.pay_invoice(&call(debtor(), 1000), id), Err(LedgerError::AlreadyPaid));
    assert_eq!(v.pay_invoice(&call(debtor(), 1000), 2), Err(LedgerError::NotFound));
}

#[test]
fn paid_invoice_cannot_be_factored() {
    let (mut v, id) = vault_with_invoice(1000);
    v.deposit_collateral(&call(business(), 400), id).unwrap();
    v.pay_invoice(&call(debtor(), 1000), id).unwrap();
    assert_eq!(
        v.factor_invoice(&call(investor(), 963), id, true),
        Err(LedgerError::AlreadyFactored)
    );
}

#[test]
fn pause_by_owner_blocks_until_unpause() {
    let (mut v, id) = vault_with_invoice(1000);
    assert_eq!(v.pause(&call(investor(), 0)), Err(LedgerError::Unauthorized));
    assert_eq!(v.pause(&call(owner(), 0)), Ok(()));

    let b = call(business(), 400);
    assert_eq!(v.create_invoice(&b, debtor(), 10, NOW + 1), Err(LedgerError::Paused));
    assert_eq!(v.deposit_collateral(&b, id), Err(LedgerError::Paused));
    assert_eq!(v.factor_invoice(&call(investor(), 963), id, true), Err(LedgerError::Paused));
    assert_eq!(v.pay_invoice(&call(debtor(), 1000), id), Err(LedgerError::Paused));
    assert!(v.get_invoice(id).is_ok());

    assert_eq!(v.unpause(&call(business(), 0)), Err(LedgerError::Unauthorized));
    assert_eq!(v.unpause(&call(owner(), 0)), Ok(()));
    assert_eq!(v.deposit_collateral(&b, id), Ok(()));
    assert_eq!(v.create_invoice(&b, debtor(), 10, NOW + 1), Ok(2));
}

#[test]
fn zero_business_record_reads_as_missing() {
    let mut v = FlowVault::init(&call(owner(), 0));
    let id = v.create_invoice(&call(Address::zero(), 0), debtor(), 10, NOW + 1).unwrap();
    assert_eq!(id, 1);
    assert_eq!(v.get_invoice(id), Err(LedgerError::NotFound));
    assert_eq!(v.create_invoice(&call(business(), 0), debtor(), 10, NOW + 1), Ok(2));
}

#[test]
fn error_reasons() {
    assert_eq!(LedgerError::Paused.reason(), "Contract paused");
    assert_eq!(LedgerError::NotFound.reason(), "Invoice not found");
    assert_eq!(LedgerError::AlreadyPaid.reason(), "Invoice already paid");
    assert_eq!(LedgerError::Overflow.reason(), "Arithmetic overflow");
}

#[test]
fn address_zero() {
    assert!(Address::zero().is_zero());
    assert!(!addr(1).is_zero());
    assert!(!Address { high: 1, low: 0 }.is_zero());
}
