//! The factory's state and its entry points: configuration by the owner,
//! registration of a pool, and settlement once provisioning has resolved.
//!
//! The ledger runtime is kept outside: each entry point receives what the
//! runtime would report about the call (`CallContext`) and returns what the
//! runtime is to do (`ProvisioningPlan`, `Settlement`). An `Err` aborts the
//! call with no change of state and no action emitted.
use vstd::prelude::*;
use crate::account::{derive_subaccount, is_valid_account_name, subaccount_name, valid_account_name};
use crate::cost::{minimum_escrow, minimum_escrow_spec};

verus! {

/// The failure that the ledger reports for a promise.
#[verifier::external_type_specification]
#[verifier::external_body]
pub struct ExPromiseError(near_sdk::PromiseError);

/// Why an entry point aborted.
#[derive(Debug, Clone, Copy, PartialEq, Eq, Structural)]
pub enum FactoryError {
    /// The caller may not invoke this entry point.
    Authorization,
    /// The attached deposit differs from the registration fee.
    InvalidPayment,
    /// No program image has been stored yet.
    ImageNotConfigured,
    /// The deposit does not cover the minimum escrow of the image.
    InsufficientEscrow,
    /// The derived sub-account name breaks the account-name syntax.
    InvalidSubaccount,
}

/// What the runtime reports about the call being executed.
pub struct CallContext {
    /// The account that made the call.
    pub predecessor_account_id: String,
    /// The factory's own account.
    pub current_account_id: String,
    /// The deposit attached to the call, in yoctoNEAR.
    pub attached_deposit: u128,
    /// The storage price, in yoctoNEAR per byte.
    pub storage_byte_cost: u128,
}

/// The mathematical content of a `CallContext`.
pub struct CallContextView {
    pub predecessor: Seq<char>,
    pub current: Seq<char>,
    pub attached_deposit: u128,
    pub storage_byte_cost: u128,
}

impl View for CallContext {
    type V = CallContextView;

    open spec fn view(&self) -> CallContextView {
        CallContextView {
            predecessor: self.predecessor_account_id@,
            current: self.current_account_id@,
            attached_deposit: self.attached_deposit,
            storage_byte_cost: self.storage_byte_cost,
        }
    }
}

/// The composed provisioning action for one pool, with the arguments of the
/// settlement that is to run once it resolves: create `subaccount`, transfer
/// `minimum_needed` to it, deploy `code` on it, call its initializer with
/// `pool_id` and `ref_address`; then settle with `attached` and
/// `minimum_needed`.
#[derive(Debug)]
pub struct ProvisioningPlan {
    pub subaccount: String,
    pub minimum_needed: u128,
    pub code: Vec<u8>,
    pub pool_id: u64,
    pub ref_address: String,
    pub attached: u128,
}

/// The mathematical content of a `ProvisioningPlan`.
pub struct PlanView {
    pub subaccount: Seq<char>,
    pub minimum_needed: u128,
    pub code: Seq<u8>,
    pub pool_id: u64,
    pub ref_address: Seq<char>,
    pub attached: u128,
}

impl View for ProvisioningPlan {
    type V = PlanView;

    open spec fn view(&self) -> PlanView {
        PlanView {
            subaccount: self.subaccount@,
            minimum_needed: self.minimum_needed,
            code: self.code@,
            pool_id: self.pool_id,
            ref_address: self.ref_address@,
            attached: self.attached,
        }
    }
}

/// How the funds of a registration are settled once provisioning resolved.
#[derive(Debug)]
pub enum Settlement {
    /// Provisioning failed: nothing is transferred, the deposit is not refunded.
    ProvisioningFailed,
    /// Provisioning succeeded: `amount` goes to `receiver`.
    Transfer { receiver: String, amount: u128 },
}

/// The mathematical content of a `Settlement`.
pub enum SettlementView {
    ProvisioningFailed,
    Transfer { receiver: Seq<char>, amount: u128 },
}

impl View for Settlement {
    type V = SettlementView;

    open spec fn view(&self) -> SettlementView {
        match self {
            Settlement::ProvisioningFailed => SettlementView::ProvisioningFailed,
            Settlement::Transfer { receiver, amount } => SettlementView::Transfer {
                receiver: receiver@,
                amount: *amount,
            },
        }
    }
}

/// The factory's durable state.
pub struct LockupFactory {
    owner: String,
    register_cost: u128,
    lockup_contract_code: Option<Vec<u8>>,
}

/// The mathematical content of a `LockupFactory`: the owner, the fee and
/// the stored program image, if any.
pub struct FactoryView {
    pub owner: Seq<char>,
    pub register_cost: u128,
    pub code: Option<Seq<u8>>,
}

impl View for LockupFactory {
    type V = FactoryView;

    closed spec fn view(&self) -> FactoryView {
        FactoryView {
            owner: self.owner@,
            register_cost: self.register_cost,
            code: match self.lockup_contract_code {
                Some(c) => Some(c@),
                None => None,
            },
        }
    }
}

/// Whether the call comes from the factory's own account.
pub open spec fn is_self_call(ctx: CallContextView) -> bool {
    ctx.predecessor == ctx.current
}

/// The outcome of a registration of `pool_id` against state `s`: the checks
/// in order, then the plan.
pub open spec fn register_spec(
    s: FactoryView,
    ctx: CallContextView,
    pool_id: u64,
    ref_address: Seq<char>,
) -> Result<PlanView, FactoryError> {
    if ctx.attached_deposit != s.register_cost {
        Err(FactoryError::InvalidPayment)
    } else if s.code is None {
        Err(FactoryError::ImageNotConfigured)
    } else if ctx.attached_deposit < minimum_escrow_spec(
        s.code->Some_0.len(),
        ctx.storage_byte_cost as nat,
    ) {
        Err(FactoryError::InsufficientEscrow)
    } else if !valid_account_name(subaccount_name(pool_id, ctx.current)) {
        Err(FactoryError::InvalidSubaccount)
    } else {
        Ok(
            PlanView {
                subaccount: subaccount_name(pool_id, ctx.current),
                minimum_needed: minimum_escrow_spec(
                    s.code->Some_0.len(),
                    ctx.storage_byte_cost as nat,
                ) as u128,
                code: s.code->Some_0,
                pool_id,
                ref_address,
                attached: ctx.attached_deposit,
            },
        )
    }
}

/// The outcome of the settlement that follows a registration.
pub open spec fn settle_spec(
    s: FactoryView,
    ctx: CallContextView,
    attached: u128,
    minimum_needed: u128,
    succeeded: bool,
) -> Result<SettlementView, FactoryError> {
    if !is_self_call(ctx) {
        Err(FactoryError::Authorization)
    } else if !succeeded {
        Ok(SettlementView::ProvisioningFailed)
    } else if attached < minimum_needed {
        Err(FactoryError::InsufficientEscrow)
    } else {
        Ok(SettlementView::Transfer { receiver: s.owner, amount: (attached - minimum_needed) as u128 })
    }
}

/// The view of a registration's result.
pub open spec fn plan_result_view(r: Result<ProvisioningPlan, FactoryError>) -> Result<PlanView, FactoryError> {
    match r {
        Ok(p) => Ok(p@),
        Err(e) => Err(e),
    }
}

/// The view of a settlement's result.
pub open spec fn settlement_result_view(r: Result<Settlement, FactoryError>) -> Result<SettlementView, FactoryError> {
    match r {
        Ok(t) => Ok(t@),
        Err(e) => Err(e),
    }
}

impl LockupFactory {
    /// A factory owned by `owner` that charges `register_cost` per pool and
    /// holds no program image yet.
    pub fn new(owner: String, register_cost: u128) -> (r: LockupFactory)
        ensures
            r@ == (FactoryView { owner: owner@, register_cost, code: None }),
    {
        LockupFactory { owner, register_cost, lockup_contract_code: None }
    }

    /// A factory rebuilt from its stored fields.
    pub fn from_parts(owner: String, register_cost: u128, code: Option<Vec<u8>>) -> (r: LockupFactory)
        ensures
            r@ == (FactoryView {
                owner: owner@,
                register_cost,
                code: match code {
                    Some(c) => Some(c@),
                    None => None,
                },
            }),
    {
        LockupFactory { owner, register_cost, lockup_contract_code: code }
    }

    /// The owner's account.
    pub fn owner(&self) -> (r: &String)
        ensures
            r@ == self@.owner,
    {
        &self.owner
    }

    /// The stored program image, if any.
    pub fn stored_code(&self) -> (r: Option<&Vec<u8>>)
        ensures
            r is None <==> self@.code is None,
            r matches Some(c) ==> self@.code == Some(c@),
    {
        match &self.lockup_contract_code {
            Some(c) => Some(c),
            None => None,
        }
    }

    /// The registration fee.
    pub fn get_register_cost(&self) -> (r: u128)
        ensures
            r == self@.register_cost,
    {
        self.register_cost
    }

    /// Sets the registration fee; only the owner may.
    pub fn set_register_cost(&mut self, ctx: &CallContext, register_cost: u128) -> (r: Result<(), FactoryError>)
        ensures
            ctx@.predecessor == old(self)@.owner ==> r is Ok && final(self)@ == (FactoryView {
                register_cost,
                ..old(self)@
            }),
            ctx@.predecessor != old(self)@.owner ==> r == Err::<(), FactoryError>(FactoryError::Authorization)
                && final(self)@ == old(self)@,
    {
        if ctx.predecessor_account_id != self.owner {
            return Err(FactoryError::Authorization);
        }
        self.register_cost = register_cost;
        Ok(())
    }

    /// Replaces the stored program image; only the factory itself may.
    pub fn update_stored_contract(&mut self, ctx: &CallContext, code: Vec<u8>) -> (r: Result<(), FactoryError>)
        ensures
            is_self_call(ctx@) ==> r is Ok && final(self)@ == (FactoryView {
                code: Some(code@),
                ..old(self)@
            }),
            !is_self_call(ctx@) ==> r == Err::<(), FactoryError>(FactoryError::Authorization)
                && final(self)@ == old(self)@,
    {
        if ctx.predecessor_account_id != ctx.current_account_id {
            return Err(FactoryError::Authorization);
        }
        self.lockup_contract_code = Some(code);
        Ok(())
    }

    /// Registers pool `pool_id`: checks the deposit against the fee, that an
    /// image is stored, that the deposit covers the image's minimum escrow
    /// and that the sub-account name is valid, in that order, and returns the
    /// provisioning action to emit. The state is left as it was.
    pub fn register_pool(&mut self, ctx: &CallContext, pool_id: u64, ref_address: String) -> (r: Result<ProvisioningPlan, FactoryError>)
        ensures
            *final(self) == *old(self),
            plan_result_view(r) == register_spec(old(self)@, ctx@, pool_id, ref_address@),
    {
        let attached = ctx.attached_deposit;
        if attached != self.register_cost {
            return Err(FactoryError::InvalidPayment);
        }
        let code = match &self.lockup_contract_code {
            Some(code) => code,
            None => {
                return Err(FactoryError::ImageNotConfigured);
            },
        };
        let minimum_needed = match minimum_escrow(code.len(), ctx.storage_byte_cost) {
            Some(m) => m,
            None => {
                return Err(FactoryError::InsufficientEscrow);
            },
        };
        if attached < minimum_needed {
            return Err(FactoryError::InsufficientEscrow);
        }
        let subaccount = derive_subaccount(pool_id, ctx.current_account_id.as_str());
        if !is_valid_account_name(subaccount.as_str()) {
            return Err(FactoryError::InvalidSubaccount);
        }
        let code = code.clone();
        assert(code@ =~= self.lockup_contract_code->Some_0@);
        Ok(ProvisioningPlan { subaccount, minimum_needed, code, pool_id, ref_address, attached })
    }

    /// Settles a registration once its provisioning resolved; only the
    /// factory itself may call it. On failure nothing is transferred; on
    /// success the deposit less the escrow goes to the owner.
    pub fn register_pool_callback(
        &mut self,
        ctx: &CallContext,
        attached: u128,
        minimum_needed: u128,
        call_result: Result<(), near_sdk::PromiseError>,
    ) -> (r: Result<Settlement, FactoryError>)
        ensures
            *final(self) == *old(self),
            settlement_result_view(r) == settle_spec(old(self)@, ctx@, attached, minimum_needed, call_result is Ok),
    {
        if ctx.predecessor_account_id != ctx.current_account_id {
            return Err(FactoryError::Authorization);
        }
        if call_result.is_err() {
            return Ok(Settlement::ProvisioningFailed);
        }
        if attached < minimum_needed {
            return Err(FactoryError::InsufficientEscrow);
        }
        Ok(Settlement::Transfer { receiver: self.owner.clone(), amount: attached - minimum_needed })
    }
}

} // verus!
