use lockup_factory::{
    decimal_string, derive_subaccount, minimum_escrow, CallContext, FactoryError, LockupFactory,
    Settlement, NEAR_PER_STORAGE,
};
use near_sdk::PromiseError;

const FACTORY: &str = "factory.near";
const OWNER: &str = "owner.near";

fn ctx(predecessor: &str, attached: u128, price: u128) -> CallContext {
    CallContext {
        predecessor_account_id: predecessor.to_string(),
        current_account_id: FACTORY.to_string(),
        attached_deposit: attached,
        storage_byte_cost: price,
    }
}

fn self_ctx() -> CallContext {
    ctx(FACTORY, 0, 1)
}

fn factory_with_image(fee: u128, image_len: usize) -> LockupFactory {
    let mut f = LockupFactory::new(OWNER.to_string(), fee);
    f.update_stored_contract(&self_ctx(), vec![7u8; image_len]).unwrap();
    f
}

#[test]
fn minimum_escrow_formula() {
    assert_eq!(minimum_escrow(100, 1), Some(5220));
    assert_eq!(minimum_escrow(0, 3), Some(15360));
    assert_eq!(minimum_escrow(100, NEAR_PER_STORAGE), Some(5220 * NEAR_PER_STORAGE));
    assert_eq!(minimum_escrow(0, 0), Some(0));
}

#[test]
fn minimum_escrow_overflow_fails_closed() {
    assert_eq!(minimum_escrow(usize::MAX, u128::MAX), None);
    assert_eq!(minimum_escrow(0, u128::MAX), None);
}

#[test]
fn scenario_fee_below_escrow() {
    let mut f = factory_with_image(1000, 100);
    let r = f.register_pool(&ctx("alice.near", 1000, 1), 1, "ref.near".to_string());
    assert_eq!(r.err(), Some(FactoryError::InsufficientEscrow));
}

#[test]
fn scenario_fee_above_escrow_pays_owner() {
    let mut f = factory_with_image(6000, 100);
    let plan = f
        .register_pool(&ctx("alice.near", 6000, 1), 7, "ref.near".to_string())
        .unwrap();
    assert_eq!(plan.subaccount, "7.factory.near");
    assert_eq!(plan.minimum_needed, 5220);
    assert_eq!(plan.attached, 6000);
    assert_eq!(plan.code, vec![7u8; 100]);
    assert_eq!(plan.pool_id, 7);
    assert_eq!(plan.ref_address, "ref.near");
    let s = f
        .register_pool_callback(&self_ctx(), plan.attached, plan.minimum_needed, Ok(()))
        .unwrap();
    match s {
        Settlement::Transfer { receiver, amount } => {
            assert_eq!(receiver, OWNER);
            assert_eq!(amount, 780);
        }
        Settlement::ProvisioningFailed => panic!("expected a transfer"),
    }
}

#[test]
fn register_at_ledger_price() {
    let fee = 5220 * NEAR_PER_STORAGE + 5;
    let mut f = factory_with_image(fee, 100);
    let plan = f
        .register_pool(&ctx("alice.near", fee, NEAR_PER_STORAGE), 3, "ref.near".to_string())
        .unwrap();
    assert_eq!(plan.minimum_needed, 5220 * NEAR_PER_STORAGE);
}

#[test]
fn wrong_payment_is_rejected() {
    let mut f = factory_with_image(6000, 100);
    for paid in [0u128, 5999, 6001, u128::MAX] {
        let r = f.register_pool(&ctx("alice.near", paid, 1), 1, "ref.near".to_string());
        assert_eq!(r.err(), Some(FactoryError::InvalidPayment));
        assert_eq!(f.get_register_cost(), 6000);
    }
    assert!(f.register_pool(&ctx("alice.near", 6000, 1), 1, "ref.near".to_string()).is_ok());
}

#[test]
fn no_image_is_rejected() {
    let mut f = LockupFactory::new(OWNER.to_string(), 6000);
    let r = f.register_pool(&ctx("alice.near", 6000, 1), 1, "ref.near".to_string());
    assert_eq!(r.err(), Some(FactoryError::ImageNotConfigured));
    let r = f.register_pool(&ctx("alice.near", 1, 1), 1, "ref.near".to_string());
    assert_eq!(r.err(), Some(FactoryError::InvalidPayment));
}

#[test]
fn escrow_overflow_is_insufficient() {
    let mut f = factory_with_image(u128::MAX, 1);
    let r = f.register_pool(&ctx("alice.near", u128::MAX, u128::MAX), 1, "ref.near".to_string());
    assert_eq!(r.err(), Some(FactoryError::InsufficientEscrow));
}

#[test]
fn equal_fee_and_escrow_transfers_zero() {
    let mut f = factory_with_image(5120, 0);
    let plan = f
        .register_pool(&ctx("alice.near", 5120, 1), 0, "ref.near".to_string())
        .unwrap();
    assert_eq!(plan.subaccount, "0.factory.near");
    let s = f
        .register_pool_callback(&self_ctx(), plan.attached, plan.minimum_needed, Ok(()))
        .unwrap();
    match s {
        Settlement::Transfer { receiver, amount } => {
            assert_eq!(receiver, OWNER);
            assert_eq!(amount, 0);
        }
        Settlement::ProvisioningFailed => panic!("expected a transfer"),
    }
}

#[test]
fn failed_provisioning_transfers_nothing() {
    let mut f = factory_with_image(6000, 100);
    let s = f
        .register_pool_callback(&self_ctx(), 6000, 5220, Err(PromiseError::Failed))
        .unwrap();
    assert!(matches!(s, Settlement::ProvisioningFailed));
}

#[test]
fn callback_from_outside_is_refused() {
    let mut f = factory_with_image(6000, 100);
    let r = f.register_pool_callback(&ctx("mallory.near", 0, 1), 6000, 5220, Ok(()));
    assert_eq!(r.err(), Some(FactoryError::Authorization));
    let r = f.register_pool_callback(&ctx(OWNER, 0, 1), 6000, 5220, Err(PromiseError::Failed));
    assert_eq!(r.err(), Some(FactoryError::Authorization));
}

#[test]
fn callback_with_escrow_above_deposit_is_refused() {
    let mut f = factory_with_image(6000, 100);
    let r = f.register_pool_callback(&self_ctx(), 100, 5220, Ok(()));
    assert_eq!(r.err(), Some(FactoryError::InsufficientEscrow));
}

#[test]
fn image_update_from_outside_is_refused() {
    let mut f = LockupFactory::new(OWNER.to_string(), 6000);
    let r = f.update_stored_contract(&ctx(OWNER, 0, 1), vec![1, 2, 3]);
    assert_eq!(r, Err(FactoryError::Authorization));
    let r = f.register_pool(&ctx("alice.near", 6000, 1), 1, "ref.near".to_string());
    assert_eq!(r.err(), Some(FactoryError::ImageNotConfigured));
}

#[test]
fn image_update_replaces_image() {
    let mut f = factory_with_image(6000, 100);
    f.update_stored_contract(&self_ctx(), vec![9u8; 880]).unwrap();
    let r = f.register_pool(&ctx("alice.near", 6000, 1), 1, "ref.near".to_string());
    assert_eq!(r.unwrap().minimum_needed, 6000);
    f.update_stored_contract(&self_ctx(), vec![9u8; 881]).unwrap();
    let r = f.register_pool(&ctx("alice.near", 6000, 1), 1, "ref.near".to_string());
    assert_eq!(r.err(), Some(FactoryError::InsufficientEscrow));
}

#[test]
fn set_register_cost_by_owner() {
    let mut f = LockupFactory::new(OWNER.to_string(), 6000);
    assert_eq!(f.get_register_cost(), 6000);
    assert_eq!(f.set_register_cost(&ctx(OWNER, 0, 1), 10), Ok(()));
    assert_eq!(f.get_register_cost(), 10);
}

#[test]
fn set_register_cost_by_other_is_refused() {
    let mut f = LockupFactory::new(OWNER.to_string(), 6000);
    let r = f.set_register_cost(&ctx("mallory.near", 0, 1), 10);
    assert_eq!(r, Err(FactoryError::Authorization));
    assert_eq!(f.get_register_cost(), 6000);
    let r = f.set_register_cost(&ctx(FACTORY, 0, 1), 10);
    assert_eq!(r, Err(FactoryError::Authorization));
    assert_eq!(f.get_register_cost(), 6000);
}

#[test]
fn subaccount_name_is_pool_then_parent() {
    assert_eq!(derive_subaccount(42, "factory.near"), "42.factory.near");
    assert_eq!(derive_subaccount(0, "x"), "0.x");
    assert_eq!(derive_subaccount(u64::MAX, "f"), "18446744073709551615.f");
    assert_eq!(decimal_string(1234567890), "1234567890");
    assert_eq!(decimal_string(10), "10");
}

fn register_under(parent: &str) -> Result<String, FactoryError> {
    let mut f = factory_with_image(6000, 100);
    let c = CallContext {
        predecessor_account_id: "alice.near".to_string(),
        current_account_id: parent.to_string(),
        attached_deposit: 6000,
        storage_byte_cost: 1,
    };
    f.register_pool(&c, 5, "ref.near".to_string()).map(|p| p.subaccount)
}

#[test]
fn invalid_subaccount_is_rejected() {
    assert_eq!(register_under("Factory.near").err(), Some(FactoryError::InvalidSubaccount));
    assert_eq!(register_under("factory..near").err(), Some(FactoryError::InvalidSubaccount));
    assert_eq!(register_under("factory.near-").err(), Some(FactoryError::InvalidSubaccount));
    assert_eq!(register_under("fäctory.near").err(), Some(FactoryError::InvalidSubaccount));
    let long = "a".repeat(63);
    assert_eq!(register_under(&long).err(), Some(FactoryError::InvalidSubaccount));
    let fits = "a".repeat(62);
    assert_eq!(register_under(&fits), Ok(format!("5.{}", fits)));
    assert_eq!(register_under("my_factory-1.near"), Ok("5.my_factory-1.near".to_string()));
}
