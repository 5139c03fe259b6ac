//! Properties of registration and settlement, stated over the specifications
//! that the entry points are proved against.
use vstd::prelude::*;
use crate::account::{subaccount_name, valid_account_name};
use crate::cost::minimum_escrow_spec;
use crate::factory::{
    is_self_call, register_spec, settle_spec, CallContextView, FactoryError, FactoryView,
    PlanView, SettlementView,
};

verus! {

/// A registration succeeds exactly when the deposit equals the fee, an image
/// is stored, the fee covers `price * (image length + 5120)` and the derived
/// sub-account name is valid; the escrow it funds is that amount.
pub proof fn lemma_register_succeeds_iff(
    s: FactoryView,
    ctx: CallContextView,
    pool_id: u64,
    ref_address: Seq<char>,
)
    ensures
        register_spec(s, ctx, pool_id, ref_address) is Ok <==> {
            &&& ctx.attached_deposit == s.register_cost
            &&& s.code is Some
            &&& s.register_cost >= minimum_escrow_spec(s.code->Some_0.len(), ctx.storage_byte_cost as nat)
            &&& valid_account_name(subaccount_name(pool_id, ctx.current))
        },
        register_spec(s, ctx, pool_id, ref_address) is Ok ==> {
            let p = register_spec(s, ctx, pool_id, ref_address)->Ok_0;
            &&& p.minimum_needed == minimum_escrow_spec(s.code->Some_0.len(), ctx.storage_byte_cost as nat)
            &&& p.attached == s.register_cost
            &&& p.subaccount == subaccount_name(pool_id, ctx.current)
        },
{
}

/// A deposit other than the fee is refused with `InvalidPayment`, whatever
/// else holds.
pub proof fn lemma_wrong_payment_rejected(
    s: FactoryView,
    ctx: CallContextView,
    pool_id: u64,
    ref_address: Seq<char>,
)
    requires
        ctx.attached_deposit != s.register_cost,
    ensures
        register_spec(s, ctx, pool_id, ref_address) == Err::<PlanView, FactoryError>(
            FactoryError::InvalidPayment,
        ),
{
}

/// Without a stored image no registration succeeds; with the right deposit
/// it is refused with `ImageNotConfigured`.
pub proof fn lemma_no_image_never_registers(
    s: FactoryView,
    ctx: CallContextView,
    pool_id: u64,
    ref_address: Seq<char>,
)
    requires
        s.code is None,
    ensures
        register_spec(s, ctx, pool_id, ref_address) is Err,
        ctx.attached_deposit == s.register_cost ==> register_spec(s, ctx, pool_id, ref_address)
            == Err::<PlanView, FactoryError>(FactoryError::ImageNotConfigured),
{
}

/// A fee below the minimum escrow of the stored image makes every
/// registration fail; with the right deposit it is refused with
/// `InsufficientEscrow`.
pub proof fn lemma_underpriced_fee_never_registers(
    s: FactoryView,
    ctx: CallContextView,
    pool_id: u64,
    ref_address: Seq<char>,
)
    requires
        s.code is Some,
        s.register_cost < minimum_escrow_spec(s.code->Some_0.len(), ctx.storage_byte_cost as nat),
    ensures
        register_spec(s, ctx, pool_id, ref_address) is Err,
        ctx.attached_deposit == s.register_cost ==> register_spec(s, ctx, pool_id, ref_address)
            == Err::<PlanView, FactoryError>(FactoryError::InsufficientEscrow),
{
}

/// Where every other check passes but `"<pool_id>.<factory>"` is not a valid
/// account name, the registration is refused with `InvalidSubaccount` and no
/// action is emitted.
pub proof fn lemma_invalid_subaccount_aborts(
    s: FactoryView,
    ctx: CallContextView,
    pool_id: u64,
    ref_address: Seq<char>,
)
    requires
        ctx.attached_deposit == s.register_cost,
        s.code is Some,
        s.register_cost >= minimum_escrow_spec(s.code->Some_0.len(), ctx.storage_byte_cost as nat),
        !valid_account_name(subaccount_name(pool_id, ctx.current)),
    ensures
        register_spec(s, ctx, pool_id, ref_address) == Err::<PlanView, FactoryError>(
            FactoryError::InvalidSubaccount,
        ),
{
}

/// After a successful registration, a successful provisioning settles by
/// transferring exactly the fee less the minimum escrow to the owner, zero
/// where the two are equal. The state at settlement time may differ from the
/// state at registration, but not in its owner.
pub proof fn lemma_success_pays_surplus_to_owner(
    s: FactoryView,
    ctx: CallContextView,
    pool_id: u64,
    ref_address: Seq<char>,
    later: FactoryView,
    callback_ctx: CallContextView,
)
    requires
        register_spec(s, ctx, pool_id, ref_address) is Ok,
        later.owner == s.owner,
        is_self_call(callback_ctx),
    ensures
        ({
            let p = register_spec(s, ctx, pool_id, ref_address)->Ok_0;
            let escrow = minimum_escrow_spec(s.code->Some_0.len(), ctx.storage_byte_cost as nat);
            &&& settle_spec(later, callback_ctx, p.attached, p.minimum_needed, true)
                == Ok::<SettlementView, FactoryError>(
                SettlementView::Transfer { receiver: s.owner, amount: (s.register_cost - escrow) as u128 },
            )
            &&& s.register_cost == escrow ==> settle_spec(later, callback_ctx, p.attached, p.minimum_needed, true)
                == Ok::<SettlementView, FactoryError>(
                SettlementView::Transfer { receiver: s.owner, amount: 0 },
            )
        }),
{
}

/// A failed provisioning settles without any transfer, whatever amounts it
/// carries.
pub proof fn lemma_failure_transfers_nothing(
    s: FactoryView,
    ctx: CallContextView,
    attached: u128,
    minimum_needed: u128,
)
    requires
        is_self_call(ctx),
    ensures
        settle_spec(s, ctx, attached, minimum_needed, false) == Ok::<SettlementView, FactoryError>(
            SettlementView::ProvisioningFailed,
        ),
{
}

/// Settlement called by any account but the factory itself is refused with
/// `Authorization`, whatever the outcome and amounts it is handed.
pub proof fn lemma_settlement_only_by_self(
    s: FactoryView,
    ctx: CallContextView,
    attached: u128,
    minimum_needed: u128,
    succeeded: bool,
)
    requires
        !is_self_call(ctx),
    ensures
        settle_spec(s, ctx, attached, minimum_needed, succeeded) == Err::<SettlementView, FactoryError>(
            FactoryError::Authorization,
        ),
{
}

} // verus!
