//! An invoice-factoring ledger: businesses register invoices, lock collateral
//! against them, investors factor them for a fee, and debtors settle them.
//! Every operation takes the caller, the attached payment and the time as
//! plain values, and either commits all of its effects or none.
pub mod address;
pub mod fees;
pub mod invoice;
pub mod laws;
pub mod vault;
