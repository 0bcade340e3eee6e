use dex_indexer::account::{account_texts, Pubkey};
use dex_indexer::entity::{Entity, Value};
use dex_indexer::instruction::{
    CancelOrderInstruction, CancelOrderInstructionV2, InitializeMarketInstruction,
    MarketInstruction, NewOrderInstructionV1, NewOrderInstructionV2, NewOrderInstructionV3,
    OrderType, SelfTradeBehavior, SendTakeInstruction, Side,
};
use dex_indexer::nonzero::NonZeroU64;
use dex_indexer::record::build_record;

fn text(s: &str) -> Value {
    Value::Text(s.to_string())
}

fn nonzero(value: u64) -> NonZeroU64 {
    NonZeroU64::new(value).unwrap()
}

/// The texts "a0", "a1", ... for `n` accounts.
fn account_names(n: usize) -> Vec<String> {
    (0..n).map(|i| format!("a{}", i)).collect()
}

/// Checks that `entity` holds exactly the identifier, the accounts of `roles`
/// by their texts "a0", "a1", ..., and the attributes of `payload`.
fn check_record(entity: &Entity, id: &str, roles: &[&str], payload: &[(&str, Value)]) {
    assert_eq!(entity.get("id"), Some(&text(id)));
    for (slot, role) in roles.iter().enumerate() {
        assert_eq!(entity.get(role), Some(&text(&format!("a{}", slot))), "role {}", role);
    }
    for (name, value) in payload {
        assert_eq!(entity.get(name), Some(value), "attribute {}", name);
    }
    assert_eq!(entity.len(), 1 + roles.len() + payload.len());
}

fn new_order_v1() -> NewOrderInstructionV1 {
    NewOrderInstructionV1 {
        side: Side::Ask,
        limit_price: nonzero(10),
        max_qty: nonzero(20),
        order_type: OrderType::PostOnly,
        client_id: 30,
    }
}

#[test]
fn initialize_market_record() {
    let instruction = MarketInstruction::InitializeMarket(InitializeMarketInstruction {
        coin_lot_size: 1,
        pc_lot_size: 2,
        fee_rate_bps: 3,
        vault_signer_nonce: 4,
        pc_dust_threshold: 5,
    });
    assert_eq!(instruction.entity_type(), "InitializeMarket");
    let roles = [
        "market",
        "request_queue",
        "event_queue",
        "bids",
        "asks",
        "coin_currency",
        "price_currency",
        "coin_currency_mint",
        "price_currency_mint",
        "rent_sysvar",
        "open_orders_market_authority",
        "prune_authority",
        "crank_authority",
    ];
    assert_eq!(instruction.role_names(), roles.to_vec());
    let entity = build_record(&instruction, &account_names(13), "k".to_string());
    check_record(
        &entity,
        "k",
        &roles,
        &[
            ("coin_lot_size", Value::U64(1)),
            ("pc_lot_size", Value::U64(2)),
            ("fee_rate_bps", Value::U16(3)),
            ("vault_signer_nonce", Value::U64(4)),
            ("pc_dust_threshold", Value::U64(5)),
        ],
    );
}

#[test]
fn new_order_record() {
    let instruction = MarketInstruction::NewOrder(new_order_v1());
    assert_eq!(instruction.entity_type(), "NewOrder");
    let roles = [
        "market",
        "open_orders",
        "request_queue",
        "account_paying",
        "owner_openOrders_account",
        "coin_vault",
        "pc_vault",
        "token_program",
        "rent_sysvar",
        "SRM_account",
    ];
    assert_eq!(instruction.role_names(), roles.to_vec());
    let entity = build_record(&instruction, &account_names(10), "k".to_string());
    check_record(
        &entity,
        "k",
        &roles,
        &[
            ("side", text("Ask")),
            ("limit_price", Value::U64(10)),
            ("max_qty", Value::U64(20)),
            ("order_type", text("PostOnly")),
            ("client_id", Value::U64(30)),
        ],
    );
}

#[test]
fn match_orders_record() {
    let instruction = MarketInstruction::MatchOrders(7);
    assert_eq!(instruction.entity_type(), "MatchOrders");
    let roles =
        ["market", "request_queue", "event_queue", "bids", "asks", "coin_fee", "pc_fee"];
    assert_eq!(instruction.role_names(), roles.to_vec());
    let entity = build_record(&instruction, &account_names(7), "k".to_string());
    check_record(&entity, "k", &roles, &[("value", Value::U16(7))]);
}

#[test]
fn consume_events_record() {
    let instruction = MarketInstruction::ConsumeEvents(8);
    assert_eq!(instruction.entity_type(), "ConsumeEvents");
    assert!(instruction.role_names().is_empty());
    let entity = build_record(&instruction, &account_names(4), "k".to_string());
    check_record(&entity, "k", &[], &[("value", Value::U16(8))]);
}

#[test]
fn cancel_order_record() {
    let instruction = MarketInstruction::CancelOrder(CancelOrderInstruction {
        side: Side::Bid,
        order_id: u128::MAX,
        owner: vec![1, 2, 3, 4],
        owner_slot: 9,
    });
    assert_eq!(instruction.entity_type(), "CancelOrder");
    let roles = ["market", "open_orders", "request_queue", "open_orders_owner"];
    assert_eq!(instruction.role_names(), roles.to_vec());
    let entity = build_record(&instruction, &account_names(4), "k".to_string());
    check_record(
        &entity,
        "k",
        &roles,
        &[
            ("side", text("Bid")),
            ("order_id", Value::U128(u128::MAX)),
            ("owner", Value::List(vec![1, 2, 3, 4])),
            ("owner_slot", Value::U8(9)),
        ],
    );
}

#[test]
fn settle_funds_record() {
    let instruction = MarketInstruction::SettleFunds;
    assert_eq!(instruction.entity_type(), "SettleFunds");
    let roles = [
        "market",
        "open_orders",
        "open_orders_owner",
        "coin_vault",
        "pc_vault",
        "coin_wallet",
        "pc_wallet",
        "vault_signer",
        "token_program",
        "referrer_pc_wallet",
    ];
    assert_eq!(instruction.role_names(), roles.to_vec());
    let entity = build_record(&instruction, &account_names(10), "k".to_string());
    check_record(&entity, "k", &roles, &[]);
}

#[test]
fn cancel_order_by_client_id_record() {
    let instruction = MarketInstruction::CancelOrderByClientId(u64::MAX);
    assert_eq!(instruction.entity_type(), "CancelOrderByClientId");
    let roles = ["market", "open_orders", "request_queue", "open_orders_owner"];
    assert_eq!(instruction.role_names(), roles.to_vec());
    let entity = build_record(&instruction, &account_names(4), "k".to_string());
    check_record(&entity, "k", &roles, &[("value", Value::U64(u64::MAX))]);
}

#[test]
fn disable_market_record() {
    let instruction = MarketInstruction::DisableMarket;
    assert_eq!(instruction.entity_type(), "DisableMarket");
    let roles = ["market", "disable_authority"];
    assert_eq!(instruction.role_names(), roles.to_vec());
    let entity = build_record(&instruction, &account_names(2), "k".to_string());
    check_record(&entity, "k", &roles, &[]);
}

#[test]
fn sweep_fees_record() {
    let instruction = MarketInstruction::SweepFees;
    assert_eq!(instruction.entity_type(), "SweepFees");
    let roles = [
        "market",
        "pc_vault",
        "fee_sweeping_authority",
        "fee_receivable_account",
        "vault_signer",
        "token_program",
    ];
    assert_eq!(instruction.role_names(), roles.to_vec());
    let entity = build_record(&instruction, &account_names(6), "k".to_string());
    check_record(&entity, "k", &roles, &[]);
}

#[test]
fn new_order_v2_record() {
    let instruction = MarketInstruction::NewOrderV2(NewOrderInstructionV2 {
        side: Side::Bid,
        limit_price: nonzero(1),
        max_qty: nonzero(2),
        order_type: OrderType::ImmediateOrCancel,
        client_id: 3,
        self_trade_behavior: SelfTradeBehavior::CancelProvide,
    });
    assert_eq!(instruction.entity_type(), "NewOrderV2");
    let roles = [
        "market",
        "open_orders",
        "request_queue",
        "account_paying_for_the_order",
        "open_orders_owner",
        "coin_vault",
        "pc_vault",
        "token_program",
        "rent_sysvar",
        "SRM_account",
    ];
    assert_eq!(instruction.role_names(), roles.to_vec());
    let entity = build_record(&instruction, &account_names(10), "k".to_string());
    check_record(
        &entity,
        "k",
        &roles,
        &[
            ("side", text("Bid")),
            ("limit_price", Value::U64(1)),
            ("max_qty", Value::U64(2)),
            ("order_type", text("ImmediateOrCancel")),
            ("client_id", Value::U64(3)),
            ("self_trade_behavior", text("CancelProvide")),
        ],
    );
}

#[test]
fn new_order_v3_record() {
    let instruction = MarketInstruction::NewOrderV3(NewOrderInstructionV3 {
        side: Side::Ask,
        limit_price: nonzero(1),
        max_coin_qty: nonzero(2),
        max_native_pc_qty_including_fees: nonzero(3),
        self_trade_behavior: SelfTradeBehavior::AbortTransaction,
        order_type: OrderType::Limit,
        client_order_id: 4,
        limit: 5,
    });
    assert_eq!(instruction.entity_type(), "NewOrderV3");
    let roles = [
        "market",
        "open_orders",
        "request_queue",
        "event_queue",
        "bids",
        "asks",
        "account_paying_for_the_order",
        "open_orders_owner",
        "coin_vault",
        "pc_vault",
        "token_program",
        "rent_sysvar",
    ];
    assert_eq!(instruction.role_names(), roles.to_vec());
    let entity = build_record(&instruction, &account_names(12), "k".to_string());
    check_record(
        &entity,
        "k",
        &roles,
        &[
            ("side", text("Ask")),
            ("limit_price", Value::U64(1)),
            ("max_coin_qty", Value::U64(2)),
            ("max_native_pc_qty_including_fees", Value::U64(3)),
            ("self_trade_behavior", text("AbortTransaction")),
            ("order_type", text("Limit")),
            ("client_order_id", Value::U64(4)),
            ("limit", Value::U16(5)),
        ],
    );
}

#[test]
fn cancel_order_v2_record() {
    let instruction = MarketInstruction::CancelOrderV2(CancelOrderInstructionV2 {
        side: Side::Ask,
        order_id: 1 << 100,
    });
    assert_eq!(instruction.entity_type(), "CancelOrderV2");
    let roles = ["market", "bids", "asks", "open_orders", "open_orders_owner", "event_queue"];
    assert_eq!(instruction.role_names(), roles.to_vec());
    let entity = build_record(&instruction, &account_names(6), "k".to_string());
    check_record(
        &entity,
        "k",
        &roles,
        &[("side", text("Ask")), ("order_id", Value::U128(1 << 100))],
    );
}

#[test]
fn cancel_order_by_client_id_v2_record() {
    let instruction = MarketInstruction::CancelOrderByClientIdV2(11);
    assert_eq!(instruction.entity_type(), "CancelOrderByClientIdV2");
    let roles = ["market", "bids", "asks", "open_orders"];
    assert_eq!(instruction.role_names(), roles.to_vec());
    let entity = build_record(&instruction, &account_names(4), "k".to_string());
    check_record(&entity, "k", &roles, &[("value", Value::U64(11))]);
}

#[test]
fn send_take_record() {
    let instruction = MarketInstruction::SendTake(SendTakeInstruction {
        side: Side::Bid,
        limit_price: nonzero(1),
        max_coin_qty: nonzero(2),
        max_native_pc_qty_including_fees: nonzero(3),
        min_coin_qty: 4,
        min_native_pc_qty: 5,
        limit: 6,
    });
    assert_eq!(instruction.entity_type(), "SendTake");
    let roles = ["market", "bids", "asks", "open_orders"];
    assert_eq!(instruction.role_names(), roles.to_vec());
    let entity = build_record(&instruction, &account_names(4), "k".to_string());
    check_record(
        &entity,
        "k",
        &roles,
        &[
            ("side", text("Bid")),
            ("limit_price", Value::U64(1)),
            ("max_coin_qty", Value::U64(2)),
            ("max_native_pc_qty_including_fees", Value::U64(3)),
            ("min_coin_qty", Value::U64(4)),
            ("min_native_pc_qty", Value::U64(5)),
            ("limit", Value::U16(6)),
        ],
    );
}

#[test]
fn close_open_orders_record() {
    let instruction = MarketInstruction::CloseOpenOrders;
    assert_eq!(instruction.entity_type(), "CloseOpenOrders");
    let roles =
        ["open_orders", "open_orders_owner", "destination_to_send_rent_exemption_sol", "market"];
    assert_eq!(instruction.role_names(), roles.to_vec());
    let entity = build_record(&instruction, &account_names(4), "k".to_string());
    check_record(&entity, "k", &roles, &[]);
}

#[test]
fn init_open_orders_record() {
    let instruction = MarketInstruction::InitOpenOrders;
    assert_eq!(instruction.entity_type(), "InitOpenOrders");
    let roles = [
        "open_orders",
        "open_orders_owner",
        "market",
        "rent_sysvar",
        "open_orders_market_authority",
    ];
    assert_eq!(instruction.role_names(), roles.to_vec());
    let entity = build_record(&instruction, &account_names(5), "k".to_string());
    check_record(&entity, "k", &roles, &[]);
}

#[test]
fn prune_record() {
    let instruction = MarketInstruction::Prune(65535);
    assert_eq!(instruction.entity_type(), "Prune");
    let roles = [
        "market",
        "bids",
        "asks",
        "prune_authority",
        "open_orders",
        "open_orders_owner",
        "event_queue",
    ];
    assert_eq!(instruction.role_names(), roles.to_vec());
    let entity = build_record(&instruction, &account_names(7), "k".to_string());
    check_record(&entity, "k", &roles, &[("value", Value::U16(65535))]);
}

#[test]
fn consume_events_permissioned_record() {
    let instruction = MarketInstruction::ConsumeEventsPermissioned(0);
    assert_eq!(instruction.entity_type(), "ConsumeEventsPermissioned");
    assert!(instruction.role_names().is_empty());
    let entity = build_record(&instruction, &[].to_vec(), "k".to_string());
    check_record(&entity, "k", &[], &[("value", Value::U16(0))]);
}

#[test]
fn entity_types_are_distinct() {
    let instructions = [
        MarketInstruction::InitializeMarket(InitializeMarketInstruction {
            coin_lot_size: 0,
            pc_lot_size: 0,
            fee_rate_bps: 0,
            vault_signer_nonce: 0,
            pc_dust_threshold: 0,
        }),
        MarketInstruction::NewOrder(new_order_v1()),
        MarketInstruction::MatchOrders(0),
        MarketInstruction::ConsumeEvents(0),
        MarketInstruction::SettleFunds,
        MarketInstruction::CancelOrderByClientId(0),
        MarketInstruction::DisableMarket,
        MarketInstruction::SweepFees,
        MarketInstruction::CancelOrderByClientIdV2(0),
        MarketInstruction::CloseOpenOrders,
        MarketInstruction::InitOpenOrders,
        MarketInstruction::Prune(0),
        MarketInstruction::ConsumeEventsPermissioned(0),
    ];
    for (i, a) in instructions.iter().enumerate() {
        for b in &instructions[i + 1..] {
            assert_ne!(a.entity_type(), b.entity_type());
        }
    }
}

#[test]
fn slots_beyond_the_account_list_hold_the_empty_text() {
    let instruction = MarketInstruction::SettleFunds;
    let entity = build_record(&instruction, &account_names(3), "k".to_string());
    assert_eq!(entity.get("market"), Some(&text("a0")));
    assert_eq!(entity.get("open_orders"), Some(&text("a1")));
    assert_eq!(entity.get("open_orders_owner"), Some(&text("a2")));
    for role in [
        "coin_vault",
        "pc_vault",
        "coin_wallet",
        "pc_wallet",
        "vault_signer",
        "token_program",
        "referrer_pc_wallet",
    ] {
        assert_eq!(entity.get(role), Some(&text("")), "role {}", role);
    }
    assert_eq!(entity.len(), 11);
}

#[test]
fn an_empty_account_list_gives_empty_texts_only() {
    let instruction = MarketInstruction::NewOrder(new_order_v1());
    let entity = build_record(&instruction, &Vec::new(), "k".to_string());
    for role in instruction.role_names() {
        assert_eq!(entity.get(role), Some(&text("")));
    }
    assert_eq!(entity.get("side"), Some(&text("Ask")));
    assert_eq!(entity.len(), 16);
}

#[test]
fn accounts_beyond_the_role_table_are_left_out() {
    let instruction = MarketInstruction::DisableMarket;
    let entity = build_record(&instruction, &account_names(5), "k".to_string());
    check_record(&entity, "k", &["market", "disable_authority"], &[]);
}

#[test]
fn a_side_is_recorded_by_name_and_not_by_ordinal() {
    let decoded = MarketInstruction::unpack(&[
        0, 11, 0, 0, 0, // tag 11
        1, 0, 0, 0, // side with ordinal 1
        0, 0, 0, 0, 0, 0, 0, 0, 0, 0, 0, 0, 0, 0, 0, 0,
    ])
    .unwrap();
    let entity = build_record(&decoded, &Vec::new(), "k".to_string());
    assert_eq!(entity.get("side"), Some(&text("Ask")));
    assert_ne!(entity.get("side"), Some(&text("1")));
    assert_ne!(entity.get("side"), Some(&Value::U64(1)));
}

#[test]
fn the_identifier_is_kept_as_given() {
    let id = "0123456789abcdef0123456789abcdef";
    let entity = build_record(&MarketInstruction::SweepFees, &Vec::new(), id.to_string());
    assert_eq!(entity.get("id"), Some(&text(id)));
}

#[test]
fn a_key_is_shown_in_base58() {
    assert_eq!(
        Pubkey::new_from_array([0; 32]).to_text(),
        "11111111111111111111111111111111"
    );
    assert_eq!(
        Pubkey::new_from_array([255; 32]).to_text(),
        "JEKNVnkbo3jma5nREBBJCDoXFVeKkD56V3xKrvRmWxFG"
    );
    let token_program = [
        6, 221, 246, 225, 215, 101, 161, 147, 217, 203, 225, 70, 206, 235, 121, 172, 28, 180,
        133, 237, 95, 91, 55, 145, 58, 140, 245, 133, 126, 255, 0, 169,
    ];
    assert_eq!(
        Pubkey::new_from_array(token_program).to_text(),
        "TokenkegQfeZyiNwAJbNbGKPFXCWuBvf9Ss623VQ5DA"
    );
    assert_eq!(Pubkey::new_from_array(token_program).to_bytes(), token_program);
}

#[test]
fn account_texts_follow_the_order_of_the_accounts() {
    let accounts = vec![
        Pubkey::new_from_array([1; 32]),
        Pubkey::new_from_array([0; 32]),
        Pubkey::new_from_array([2; 32]),
    ];
    assert_eq!(
        account_texts(&accounts),
        vec![
            "4vJ9JU1bJJE96FWSJKvHsmmFADCg4gpZQff4P3bkLKi".to_string(),
            "11111111111111111111111111111111".to_string(),
            "8qbHbw2BbbTHBW1sbeqakYXVKRQM8Ne7pLK7m6CVfeR".to_string(),
        ]
    );
    assert!(account_texts(&Vec::new()).is_empty());
}
