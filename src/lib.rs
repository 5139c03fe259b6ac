//! A factory that provisions one lockup sub-account per pool on a NEAR-style
//! ledger: fee validation, storage-cost accounting, sub-account naming, the
//! composed provisioning action and the settlement that follows it.
use vstd::prelude::*;

pub mod account;
pub mod cost;
pub mod factory;
pub mod laws;

pub use account::{decimal_string, derive_subaccount};
pub use cost::{minimum_escrow, NEAR_PER_STORAGE, STORAGE_MARGIN_BYTES};
pub use factory::{CallContext, FactoryError, LockupFactory, ProvisioningPlan, Settlement};

verus! {

/// Gas reserved for the initializer call on a new sub-account, in TGas.
pub const INIT_GAS_TGAS: u64 = 50;

/// Gas reserved for the settlement that follows provisioning, in TGas.
pub const CALLBACK_GAS_TGAS: u64 = 10;

} // verus!
