use htlc_escrow::factory::{CreationStatus, EscrowFactory, MIN_STORAGE_DEPOSIT};
use htlc_escrow::{
    AccountId, Balance, CallContext, CryptoUtils, EscrowError, EscrowImmutables, EscrowType,
    Timelocks,
};

const SRC_CODE: [u8; 4] = [0, 97, 115, 109];
const DST_CODE: [u8; 5] = [0, 97, 115, 109, 1];

const ONE_UNIT: Balance = 1_000_000_000_000_000_000_000_000;
const FEE: Balance = ONE_UNIT / 10;

fn account(name: &str) -> AccountId {
    AccountId::parse(name).unwrap()
}

fn call(caller: &str, attached: Balance) -> CallContext {
    CallContext {
        current_account_id: account("factory.near"),
        predecessor_account_id: account(caller),
        attached_deposit: attached,
        block_timestamp: 1_700_000_000_000_000_000,
    }
}

fn order(order_hash: &str) -> EscrowImmutables {
    EscrowImmutables {
        order_hash: order_hash.to_string(),
        hashlock: CryptoUtils::create_hashlock("abc"),
        maker: account("maker"),
        taker: account("taker"),
        token: None,
        amount: ONE_UNIT,
        safety_deposit: ONE_UNIT / 10,
        timelocks: Timelocks::new(1_700_000_000_000_000_000, 3600, 7200, 86400),
    }
}

fn factory() -> EscrowFactory {
    let mut factory = EscrowFactory::new(
        account("owner.near"),
        FEE,
        Some(account("treasury.near")),
        Some(account("template.near")),
    );
    factory.update_escrow_code(SRC_CODE.to_vec(), DST_CODE.to_vec(), &call("owner.near", 0)).unwrap();
    factory
}

/// fee + reserve + principal + safety deposit
const REQUIRED: Balance = FEE + MIN_STORAGE_DEPOSIT + ONE_UNIT + ONE_UNIT / 10;

#[test]
fn a_new_factory_knows_no_order() {
    let factory = factory();
    assert_eq!(factory.get_owner(), account("owner.near"));
    assert_eq!(factory.get_creation_fee(), FEE);
    assert_eq!(factory.get_treasury(), Some(account("treasury.near")));
    assert_eq!(factory.get_escrow_template(), Some(account("template.near")));
    assert_eq!(factory.get_escrow_for_order("order_123".to_string()), None);
    assert!(factory.get_escrow_info(account("src-order_12.factory.near")).is_none());
}

#[test]
fn required_deposit_adds_fee_reserve_principal_and_safety_deposit() {
    let factory = factory();
    assert_eq!(MIN_STORAGE_DEPOSIT, 3 * ONE_UNIT);
    assert_eq!(REQUIRED, 4_200_000_000_000_000_000_000_000);
    assert_eq!(factory.calculate_required_deposit(&order("order_123")), Some(REQUIRED));
}

#[test]
fn required_deposit_leaves_a_token_principal_out() {
    let factory = factory();
    let mut immutables = order("order_123");
    immutables.token = Some(account("usdt.tether"));
    assert_eq!(
        factory.calculate_required_deposit(&immutables),
        Some(FEE + MIN_STORAGE_DEPOSIT + ONE_UNIT / 10)
    );
}

#[test]
fn required_deposit_beyond_any_balance() {
    let factory = factory();
    let mut immutables = order("order_123");
    immutables.amount = Balance::MAX;
    assert_eq!(factory.calculate_required_deposit(&immutables), None);
    let mut immutables = order("order_123");
    immutables.amount = Balance::MAX - FEE - MIN_STORAGE_DEPOSIT - ONE_UNIT / 10;
    assert_eq!(factory.calculate_required_deposit(&immutables), Some(Balance::MAX));
    immutables.safety_deposit += 1;
    assert_eq!(factory.calculate_required_deposit(&immutables), None);
}

#[test]
fn create_escrow_reserves_the_order_and_plans_the_escrow() {
    let mut factory = factory();
    let ctx = call("resolver.near", REQUIRED + 7);
    let plan = factory.create_escrow(order("order_123"), EscrowType::Source, &ctx).unwrap();

    let expected = account("src-order_12.factory.near");
    assert_eq!(plan.escrow_account_id, expected);
    assert_eq!(plan.escrow_type, EscrowType::Source);
    assert_eq!(plan.immutables.order_hash, "order_123");
    assert_eq!(plan.escrow_amount, REQUIRED + 7 - FEE);
    assert_eq!(plan.creation_fee, FEE);
    assert_eq!(plan.code, Some(SRC_CODE.to_vec()));

    assert_eq!(factory.get_escrow_for_order("order_123".to_string()), Some(expected.clone()));
    let info = factory.get_escrow_info(expected).unwrap();
    assert_eq!(info.status, CreationStatus::Pending);
    assert_eq!(info.escrow_type, EscrowType::Source);
    assert_eq!(info.immutables.order_hash, "order_123");
    assert_eq!(info.immutables.maker, account("maker"));
    assert_eq!(info.immutables.amount, ONE_UNIT);
    assert_eq!(info.creator, account("resolver.near"));
    assert_eq!(info.created_at, 1_700_000_000_000_000_000);
}

#[test]
fn the_name_of_an_escrow_tells_role_order_and_factory() {
    let factory = factory();
    let ctx = call("anyone", 0);
    assert_eq!(
        factory.generate_escrow_account_id("0123456789abcdef", &EscrowType::Source, &ctx),
        Some(account("src-01234567.factory.near"))
    );
    assert_eq!(
        factory.generate_escrow_account_id("0123456789abcdef", &EscrowType::Destination, &ctx),
        Some(account("dst-01234567.factory.near"))
    );
    assert_eq!(
        factory.generate_escrow_account_id("a-b_c.d9", &EscrowType::Destination, &ctx),
        Some(account("dst-a-b_c.d9.factory.near"))
    );
}

#[test]
fn an_order_identifier_that_names_no_account() {
    let factory = factory();
    let ctx = call("anyone", 0);
    for order_hash in
        ["", "short", "1234567", "ORDER_123", "order 123", "abc..defg", "abcdefg-x", "-bcdefgh", "ordér_123"]
    {
        assert_eq!(
            factory.generate_escrow_account_id(order_hash, &EscrowType::Source, &ctx),
            None,
            "{order_hash}"
        );
    }
}

#[test]
fn an_escrow_name_may_not_exceed_sixty_four_characters() {
    let factory = factory();
    let mut ctx = call("anyone", 0);
    // 4 + 8 + 1 + 51 = 64
    ctx.current_account_id = account(&"f".repeat(51));
    assert!(factory.generate_escrow_account_id("01234567", &EscrowType::Source, &ctx).is_some());
    ctx.current_account_id = account(&"f".repeat(52));
    assert!(factory.generate_escrow_account_id("01234567", &EscrowType::Source, &ctx).is_none());
}

#[test]
fn create_escrow_refuses_an_order_that_names_no_account() {
    let mut factory = factory();
    let refused = factory.create_escrow(order("Order_123"), EscrowType::Source, &call("resolver", REQUIRED));
    assert_eq!(refused.unwrap_err(), EscrowError::InvalidImmutables);
    assert_eq!(factory.get_escrow_for_order("Order_123".to_string()), None);
}

#[test]
fn create_escrow_wants_the_required_deposit() {
    let mut factory = factory();
    let refused =
        factory.create_escrow(order("order_123"), EscrowType::Source, &call("resolver", REQUIRED - 1));
    assert_eq!(refused.unwrap_err(), EscrowError::InsufficientDeposit);
    assert_eq!(factory.get_escrow_for_order("order_123".to_string()), None);

    let plan =
        factory.create_escrow(order("order_123"), EscrowType::Source, &call("resolver", REQUIRED)).unwrap();
    assert_eq!(plan.escrow_amount, REQUIRED - FEE);
}

#[test]
fn create_escrow_refuses_a_deposit_no_balance_can_cover() {
    let mut factory = factory();
    let mut immutables = order("order_123");
    immutables.amount = Balance::MAX;
    let refused = factory.create_escrow(immutables, EscrowType::Source, &call("resolver", Balance::MAX));
    assert_eq!(refused.unwrap_err(), EscrowError::InsufficientDeposit);
}

#[test]
fn create_escrow_wants_a_template_and_code_for_the_role() {
    let owner = call("owner.near", 0);
    let mut factory = EscrowFactory::new(account("owner.near"), FEE, None, None);
    let refused =
        factory.create_escrow(order("order_123"), EscrowType::Source, &call("resolver", REQUIRED));
    assert_eq!(refused.unwrap_err(), EscrowError::TemplateNotConfigured);
    // the template is tested before the deposit
    let refused = factory.create_escrow(order("order_123"), EscrowType::Source, &call("resolver", 0));
    assert_eq!(refused.unwrap_err(), EscrowError::TemplateNotConfigured);

    // a template account without code is not enough
    factory.set_escrow_template(account("template.near"), &owner).unwrap();
    let refused =
        factory.create_escrow(order("order_123"), EscrowType::Source, &call("resolver", REQUIRED));
    assert_eq!(refused.unwrap_err(), EscrowError::TemplateNotConfigured);

    // code for one role serves that role alone
    factory.update_escrow_code(SRC_CODE.to_vec(), Vec::new(), &owner).unwrap();
    let refused =
        factory.create_escrow(order("order_123"), EscrowType::Destination, &call("resolver", REQUIRED));
    assert_eq!(refused.unwrap_err(), EscrowError::TemplateNotConfigured);
    // the deposit and the parameters are tested before the code
    let refused = factory.create_escrow(
        order("order_123"),
        EscrowType::Destination,
        &call("resolver", REQUIRED - 1),
    );
    assert_eq!(refused.unwrap_err(), EscrowError::InsufficientDeposit);
    let refused =
        factory.create_escrow(order("Order_123"), EscrowType::Destination, &call("resolver", REQUIRED));
    assert_eq!(refused.unwrap_err(), EscrowError::InvalidImmutables);
    assert_eq!(factory.get_escrow_for_order("order_123".to_string()), None);
    let plan = factory
        .create_escrow(order("order_123"), EscrowType::Source, &call("resolver", REQUIRED))
        .unwrap();
    assert_eq!(plan.code, Some(SRC_CODE.to_vec()));

    // code without a template account is not enough either
    let mut factory = EscrowFactory::new(account("owner.near"), FEE, None, None);
    factory.update_escrow_code(SRC_CODE.to_vec(), DST_CODE.to_vec(), &owner).unwrap();
    let refused =
        factory.create_escrow(order("order_123"), EscrowType::Source, &call("resolver", REQUIRED));
    assert_eq!(refused.unwrap_err(), EscrowError::TemplateNotConfigured);
}

#[test]
fn create_escrow_refuses_a_malformed_hashlock() {
    let mut factory = factory();
    let mut immutables = order("order_123");
    immutables.hashlock = "not a digest".to_string();
    let refused =
        factory.create_escrow(immutables.clone(), EscrowType::Source, &call("resolver", REQUIRED));
    assert_eq!(refused.unwrap_err(), EscrowError::InvalidImmutables);
    let refused = factory.initialize_escrow(
        account("ready.escrow"),
        immutables,
        EscrowType::Source,
        &call("resolver", REQUIRED),
    );
    assert_eq!(refused.unwrap_err(), EscrowError::InvalidImmutables);
    assert_eq!(factory.get_escrow_for_order("order_123".to_string()), None);
}

#[test]
fn a_second_escrow_for_the_same_order_is_refused() {
    let mut factory = factory();
    factory.create_src_escrow(order("order_123"), &call("resolver", REQUIRED)).unwrap();

    let refused = factory.create_src_escrow(order("order_123"), &call("resolver", REQUIRED));
    assert_eq!(refused.unwrap_err(), EscrowError::DuplicateOrder);
    let refused = factory.create_dst_escrow(order("order_123"), &call("other", REQUIRED * 2));
    assert_eq!(refused.unwrap_err(), EscrowError::DuplicateOrder);
    let refused = factory.initialize_escrow(
        account("some.escrow"),
        order("order_123"),
        EscrowType::Destination,
        &call("other", REQUIRED),
    );
    assert_eq!(refused.unwrap_err(), EscrowError::DuplicateOrder);

    // the first reservation stands
    assert_eq!(
        factory.get_escrow_for_order("order_123".to_string()),
        Some(account("src-order_12.factory.near"))
    );
    let info = factory.get_escrow_info(account("src-order_12.factory.near")).unwrap();
    assert_eq!(info.creator, account("resolver"));
}

#[test]
fn a_duplicate_is_a_duplicate_even_for_a_role_without_code() {
    let owner = call("owner.near", 0);
    let mut factory = factory();
    factory.update_escrow_code(SRC_CODE.to_vec(), Vec::new(), &owner).unwrap();
    factory.create_src_escrow(order("order_123"), &call("resolver", REQUIRED)).unwrap();

    let refused = factory.create_dst_escrow(order("order_123"), &call("other", REQUIRED));
    assert_eq!(refused.unwrap_err(), EscrowError::DuplicateOrder);
    let refused = factory.create_src_escrow(order("order_123"), &call("other", REQUIRED));
    assert_eq!(refused.unwrap_err(), EscrowError::DuplicateOrder);

    // committed or pending makes no difference
    factory
        .on_escrow_created(
            account("src-order_12.factory.near"),
            "order_123".to_string(),
            FEE,
            true,
            &call("factory.near", 0),
        )
        .unwrap();
    let refused = factory.create_dst_escrow(order("order_123"), &call("other", REQUIRED * 2));
    assert_eq!(refused.unwrap_err(), EscrowError::DuplicateOrder);

    // with all code gone the order is still a duplicate
    factory.update_escrow_code(Vec::new(), Vec::new(), &owner).unwrap();
    let refused = factory.create_src_escrow(order("order_123"), &call("other", REQUIRED));
    assert_eq!(refused.unwrap_err(), EscrowError::DuplicateOrder);
    // and a fresh order is told that the code is missing
    let refused = factory.create_src_escrow(order("order_456"), &call("other", REQUIRED));
    assert_eq!(refused.unwrap_err(), EscrowError::TemplateNotConfigured);

    assert_eq!(
        factory.get_escrow_for_order("order_123".to_string()),
        Some(account("src-order_12.factory.near"))
    );
    assert_eq!(factory.get_escrow_for_order("order_456".to_string()), None);
}

#[test]
fn a_duplicate_with_too_small_a_deposit_is_refused_for_the_deposit() {
    let mut factory = factory();
    factory.create_src_escrow(order("order_123"), &call("resolver", REQUIRED)).unwrap();
    let refused = factory.create_src_escrow(order("order_123"), &call("resolver", REQUIRED - 1));
    assert_eq!(refused.unwrap_err(), EscrowError::InsufficientDeposit);
}

#[test]
fn create_src_and_dst_differ_in_the_role_alone() {
    let mut factory = factory();
    let src = factory.create_src_escrow(order("order_aaa1"), &call("resolver", REQUIRED)).unwrap();
    let dst = factory.create_dst_escrow(order("order_bbb2"), &call("resolver", REQUIRED)).unwrap();
    assert_eq!(src.escrow_type, EscrowType::Source);
    assert_eq!(src.escrow_account_id, account("src-order_aa.factory.near"));
    assert_eq!(dst.escrow_type, EscrowType::Destination);
    assert_eq!(dst.escrow_account_id, account("dst-order_bb.factory.near"));
    assert_eq!(src.code, Some(SRC_CODE.to_vec()));
    assert_eq!(dst.code, Some(DST_CODE.to_vec()));
    assert_eq!(
        factory.get_escrow_info(account("dst-order_bb.factory.near")).unwrap().escrow_type,
        EscrowType::Destination
    );
}

#[test]
fn initialize_escrow_takes_the_account_as_named() {
    let mut factory = EscrowFactory::new(account("owner.near"), FEE, None, None);
    let plan = factory
        .initialize_escrow(
            account("ready.escrow"),
            order("o-1"),
            EscrowType::Destination,
            &call("resolver", REQUIRED + 1),
        )
        .unwrap();
    assert_eq!(plan.escrow_account_id, account("ready.escrow"));
    assert_eq!(plan.escrow_amount, REQUIRED + 1 - FEE);
    assert_eq!(plan.creation_fee, FEE);
    assert_eq!(plan.code, None);
    assert_eq!(factory.get_escrow_for_order("o-1".to_string()), Some(account("ready.escrow")));
    let info = factory.get_escrow_info(account("ready.escrow")).unwrap();
    assert_eq!(info.creator, account("resolver"));
    assert_eq!(info.status, CreationStatus::Pending);

    // the account serves one order
    let refused = factory.initialize_escrow(
        account("ready.escrow"),
        order("o-3"),
        EscrowType::Destination,
        &call("resolver", REQUIRED),
    );
    assert_eq!(refused.unwrap_err(), EscrowError::DuplicateEscrow);
    assert_eq!(factory.get_escrow_for_order("o-3".to_string()), None);

    let refused = factory.initialize_escrow(
        account("other.escrow"),
        order("o-2"),
        EscrowType::Destination,
        &call("resolver", REQUIRED - 1),
    );
    assert_eq!(refused.unwrap_err(), EscrowError::InsufficientDeposit);
}

#[test]
fn completion_commits_and_sweeps_the_fee() {
    let mut factory = factory();
    let plan = factory.create_src_escrow(order("order_123"), &call("resolver", REQUIRED)).unwrap();
    let id = plan.escrow_account_id;
    assert!(factory.awaits_completion(&id, "order_123"));
    let sweep = factory
        .on_escrow_created(id.clone(), "order_123".to_string(), plan.creation_fee, true, &call("factory.near", 0))
        .unwrap()
        .unwrap();
    assert_eq!(sweep.recipient, account("treasury.near"));
    assert_eq!(sweep.amount, FEE);
    assert_eq!(sweep.token, None);
    assert!(!factory.awaits_completion(&id, "order_123"));
    assert_eq!(factory.get_escrow_for_order("order_123".to_string()), Some(id.clone()));
    let info = factory.get_escrow_info(id).unwrap();
    assert_eq!(info.status, CreationStatus::Committed);
    assert_eq!(info.creator, account("resolver"));
    assert_eq!(info.immutables.order_hash, "order_123");
}

#[test]
fn a_second_report_of_success_sweeps_nothing() {
    let mut factory = factory();
    let plan = factory.create_src_escrow(order("order_123"), &call("resolver", REQUIRED)).unwrap();
    let id = plan.escrow_account_id;
    let callback = call("factory.near", 0);
    let first =
        factory.on_escrow_created(id.clone(), "order_123".to_string(), FEE, true, &callback).unwrap();
    assert_eq!(first.map(|t| t.amount), Some(FEE));
    for _ in 0..3 {
        let again = factory
            .on_escrow_created(id.clone(), "order_123".to_string(), FEE, true, &callback)
            .unwrap();
        assert_eq!(again.map(|t| t.amount), None);
    }
    assert_eq!(factory.get_escrow_info(id).unwrap().status, CreationStatus::Committed);
}

#[test]
fn a_report_of_failure_cannot_undo_a_committed_escrow() {
    let mut factory = factory();
    let plan = factory.create_src_escrow(order("order_123"), &call("resolver", REQUIRED)).unwrap();
    let id = plan.escrow_account_id;
    let callback = call("factory.near", 0);
    factory.on_escrow_created(id.clone(), "order_123".to_string(), FEE, true, &callback).unwrap();
    let report = factory.on_escrow_created(id.clone(), "order_123".to_string(), FEE, false, &callback);
    assert_eq!(report.map(|_| ()).unwrap_err(), EscrowError::ProvisioningFailed);
    assert_eq!(factory.get_escrow_for_order("order_123".to_string()), Some(id.clone()));
    assert_eq!(factory.get_escrow_info(id).unwrap().status, CreationStatus::Committed);
}

#[test]
fn a_report_for_no_reservation_changes_nothing() {
    let mut factory = factory();
    let plan = factory.create_src_escrow(order("order_123"), &call("resolver", REQUIRED)).unwrap();
    let id = plan.escrow_account_id;
    let callback = call("factory.near", 0);
    // an escrow that was never reserved
    let sweep = factory
        .on_escrow_created(account("some.escrow"), "order_123".to_string(), FEE, true, &callback)
        .unwrap();
    assert_eq!(sweep.map(|t| t.amount), None);
    // the right escrow under another order
    let sweep =
        factory.on_escrow_created(id.clone(), "order_999".to_string(), FEE, true, &callback).unwrap();
    assert_eq!(sweep.map(|t| t.amount), None);
    let report = factory.on_escrow_created(id.clone(), "order_999".to_string(), FEE, false, &callback);
    assert_eq!(report.map(|_| ()).unwrap_err(), EscrowError::ProvisioningFailed);
    let report = factory.on_escrow_created(
        account("some.escrow"),
        "order_123".to_string(),
        FEE,
        false,
        &callback,
    );
    assert_eq!(report.map(|_| ()).unwrap_err(), EscrowError::ProvisioningFailed);
    // the reservation still waits
    assert!(factory.awaits_completion(&id, "order_123"));
    assert_eq!(factory.get_escrow_for_order("order_123".to_string()), Some(id.clone()));
    assert_eq!(factory.get_escrow_info(id).unwrap().status, CreationStatus::Pending);
}

#[test]
fn no_sweep_without_a_treasury_or_without_a_fee() {
    let callback = call("factory.near", 0);
    let mut no_treasury = factory();
    no_treasury.set_treasury(None, &call("owner.near", 0)).unwrap();
    let plan = no_treasury.create_src_escrow(order("order_123"), &call("resolver", REQUIRED)).unwrap();
    let sweep = no_treasury
        .on_escrow_created(plan.escrow_account_id.clone(), "order_123".to_string(), FEE, true, &callback)
        .unwrap();
    assert_eq!(sweep.map(|t| t.amount), None);
    assert_eq!(
        no_treasury.get_escrow_info(plan.escrow_account_id).unwrap().status,
        CreationStatus::Committed
    );

    let mut factory = factory();
    let plan = factory.create_src_escrow(order("order_123"), &call("resolver", REQUIRED)).unwrap();
    let sweep = factory
        .on_escrow_created(plan.escrow_account_id, "order_123".to_string(), 0, true, &callback)
        .unwrap();
    assert_eq!(sweep.map(|t| t.amount), None);
}

#[test]
fn failed_provisioning_takes_the_reservation_back() {
    let mut factory = factory();
    factory.create_src_escrow(order("order_kept"), &call("resolver", REQUIRED)).unwrap();
    let plan = factory.create_dst_escrow(order("order_lost"), &call("resolver", REQUIRED)).unwrap();
    let id = plan.escrow_account_id;

    let report = factory.on_escrow_created(
        id.clone(),
        "order_lost".to_string(),
        plan.creation_fee,
        false,
        &call("factory.near", 0),
    );
    assert_eq!(report.map(|_| ()).unwrap_err(), EscrowError::ProvisioningFailed);
    assert_eq!(factory.get_escrow_for_order("order_lost".to_string()), None);
    assert!(factory.get_escrow_info(id.clone()).is_none());

    // the other order is untouched
    assert_eq!(
        factory.get_escrow_for_order("order_kept".to_string()),
        Some(account("src-order_ke.factory.near"))
    );
    assert!(factory.get_escrow_info(account("src-order_ke.factory.near")).is_some());

    // a late report of success finds nothing to commit
    let sweep = factory
        .on_escrow_created(id.clone(), "order_lost".to_string(), FEE, true, &call("factory.near", 0))
        .unwrap();
    assert_eq!(sweep.map(|t| t.amount), None);
    assert!(factory.get_escrow_info(id).is_none());

    // and the order can be created again
    factory.create_dst_escrow(order("order_lost"), &call("resolver", REQUIRED)).unwrap();
}

#[test]
fn only_the_factory_itself_may_report_completion() {
    let mut factory = factory();
    let plan = factory.create_src_escrow(order("order_123"), &call("resolver", REQUIRED)).unwrap();
    for provisioned in [true, false] {
        let report = factory.on_escrow_created(
            plan.escrow_account_id.clone(),
            "order_123".to_string(),
            plan.creation_fee,
            provisioned,
            &call("resolver", 0),
        );
        assert_eq!(report.map(|_| ()).unwrap_err(), EscrowError::Unauthorized);
    }
    assert!(factory.awaits_completion(&plan.escrow_account_id, "order_123"));
    assert_eq!(
        factory.get_escrow_for_order("order_123".to_string()),
        Some(plan.escrow_account_id)
    );
}

#[test]
fn an_escrow_name_serves_one_order() {
    let mut factory = factory();
    let first = factory.create_src_escrow(order("order_123-a"), &call("one", REQUIRED)).unwrap();
    let id = first.escrow_account_id;

    // another order with the same first eight characters would get the same name
    let refused = factory.create_src_escrow(order("order_123-b"), &call("two", REQUIRED));
    assert_eq!(refused.unwrap_err(), EscrowError::DuplicateEscrow);
    assert_eq!(factory.get_escrow_for_order("order_123-b".to_string()), None);
    assert_eq!(factory.get_escrow_for_order("order_123-a".to_string()), Some(id.clone()));
    let info = factory.get_escrow_info(id.clone()).unwrap();
    assert_eq!(info.creator, account("one"));
    assert_eq!(info.immutables.order_hash, "order_123-a");

    // under the other role the name differs
    let other = factory.create_dst_escrow(order("order_123-b"), &call("two", REQUIRED)).unwrap();
    assert_ne!(other.escrow_account_id, id);

    // once the first reservation is taken back the name is free again
    factory
        .on_escrow_created(id.clone(), "order_123-a".to_string(), FEE, false, &call("factory.near", 0))
        .unwrap_err();
    let again = factory.create_src_escrow(order("order_123-c"), &call("three", REQUIRED)).unwrap();
    assert_eq!(again.escrow_account_id, id);
}

#[test]
fn the_owner_administers_the_factory() {
    let mut factory = factory();
    let owner = call("owner.near", 0);
    factory.set_creation_fee(5, &owner).unwrap();
    assert_eq!(factory.get_creation_fee(), 5);
    factory.set_treasury(None, &owner).unwrap();
    assert_eq!(factory.get_treasury(), None);
    factory.set_treasury(Some(account("vault")), &owner).unwrap();
    assert_eq!(factory.get_treasury(), Some(account("vault")));
    factory.set_escrow_template(account("v2.template"), &owner).unwrap();
    assert_eq!(factory.get_escrow_template(), Some(account("v2.template")));
    let transfer = factory.rescue_funds(123, account("safe"), &owner).unwrap();
    assert_eq!(transfer.recipient, account("safe"));
    assert_eq!(transfer.amount, 123);
    assert_eq!(transfer.token, None);
    assert_eq!(factory.assert_owner(&owner), Ok(()));
    factory.update_escrow_code(vec![1], vec![2, 3], &owner).unwrap();
    let plan = factory.create_dst_escrow(order("order_123"), &call("resolver", REQUIRED)).unwrap();
    assert_eq!(plan.code, Some(vec![2, 3]));
}

#[test]
fn nobody_else_administers_the_factory() {
    let mut factory = factory();
    let stranger = call("treasury.near", 0);
    assert_eq!(factory.set_creation_fee(5, &stranger), Err(EscrowError::Unauthorized));
    assert_eq!(factory.set_treasury(None, &stranger), Err(EscrowError::Unauthorized));
    assert_eq!(
        factory.set_escrow_template(account("evil"), &stranger),
        Err(EscrowError::Unauthorized)
    );
    assert_eq!(
        factory.rescue_funds(1, account("evil"), &stranger).map(|_| ()),
        Err(EscrowError::Unauthorized)
    );
    assert_eq!(factory.assert_owner(&stranger), Err(EscrowError::Unauthorized));
    assert_eq!(
        factory.update_escrow_code(vec![6, 6, 6], vec![6], &stranger),
        Err(EscrowError::Unauthorized)
    );
    let plan = factory.create_src_escrow(order("order_123"), &call("resolver", REQUIRED)).unwrap();
    assert_eq!(plan.code, Some(SRC_CODE.to_vec()));
    assert_eq!(factory.get_creation_fee(), FEE);
    assert_eq!(factory.get_treasury(), Some(account("treasury.near")));
    assert_eq!(factory.get_escrow_template(), Some(account("template.near")));
}

#[test]
fn a_changed_fee_changes_what_creation_costs() {
    let mut factory = factory();
    factory.set_creation_fee(0, &call("owner.near", 0)).unwrap();
    let plan =
        factory.create_src_escrow(order("order_123"), &call("resolver", REQUIRED - FEE)).unwrap();
    assert_eq!(plan.escrow_amount, REQUIRED - FEE);
    assert_eq!(plan.creation_fee, 0);
}
