//! Invoice records and their lifecycle status.
use vstd::prelude::*;
use crate::address::Address;

verus! {

/// Lifecycle of an invoice. Transitions only go forward:
/// `Pending` to `Factored` to `Paid`, or `Pending` straight to `Paid`.
/// `Defaulted` exists in the value space but no operation assigns it.
#[derive(Clone, Copy, Debug, PartialEq, Eq, Structural)]
pub enum InvoiceStatus {
    Pending,
    Factored,
    Paid,
    Defaulted,
}

impl InvoiceStatus {
    /// Status for a stored status code: 0, 1 and 2 are `Pending`, `Factored`
    /// and `Paid`; every other code reads as `Defaulted`.
    pub open spec fn from_code(code: u8) -> InvoiceStatus {
        if code == 0 {
            InvoiceStatus::Pending
        } else if code == 1 {
            InvoiceStatus::Factored
        } else if code == 2 {
            InvoiceStatus::Paid
        } else {
            InvoiceStatus::Defaulted
        }
    }

    /// Stored status code of a status.
    pub open spec fn code_spec(self) -> u8 {
        match self {
            InvoiceStatus::Pending => 0,
            InvoiceStatus::Factored => 1,
            InvoiceStatus::Paid => 2,
            InvoiceStatus::Defaulted => 3,
        }
    }

    /// Stored status code of this status.
    #[verifier::when_used_as_spec(code_spec)]
    pub fn code(self) -> (r: u8)
        ensures
            r == self.code_spec(),
            InvoiceStatus::from_code(r) == self,
    {
        match self {
            InvoiceStatus::Pending => 0,
            InvoiceStatus::Factored => 1,
            InvoiceStatus::Paid => 2,
            InvoiceStatus::Defaulted => 3,
        }
    }
}

impl From<u8> for InvoiceStatus {
    fn from(code: u8) -> (r: InvoiceStatus)
        ensures
            r == InvoiceStatus::from_code(code),
    {
        if code == 0 {
            InvoiceStatus::Pending
        } else if code == 1 {
            InvoiceStatus::Factored
        } else if code == 2 {
            InvoiceStatus::Paid
        } else {
            InvoiceStatus::Defaulted
        }
    }
}

impl vstd::std_specs::convert::FromSpecImpl<u8> for InvoiceStatus {
    open spec fn obeys_from_spec() -> bool {
        true
    }

    open spec fn from_spec(code: u8) -> InvoiceStatus {
        InvoiceStatus::from_code(code)
    }
}

/// A receivable owed by `debtor` to `business`, possibly factored to `investor`.
/// A zero `business` marks a slot that holds no invoice.
#[derive(Clone, Copy, Debug, PartialEq, Eq, Structural)]
pub struct Invoice {
    pub business: Address,
    pub debtor: Address,
    /// Face value, in the smallest currency unit.
    pub amount: u128,
    /// Timestamp after which the invoice can no longer be factored.
    pub due_date: u64,
    pub status: InvoiceStatus,
    /// Zero until the invoice is factored.
    pub investor: Address,
    /// Payment the business attached as collateral; zero until deposited.
    pub collateral_amount: u128,
    /// Insurance fee paid when factoring with insurance; zero otherwise.
    pub insurance_amount: u128,
}

} // verus!
