use dex_indexer::instruction::{
    CancelOrderInstruction, CancelOrderInstructionV2, InitializeMarketInstruction,
    MarketInstruction, NewOrderInstructionV1, NewOrderInstructionV2, NewOrderInstructionV3,
    OrderType, SelfTradeBehavior, SendTakeInstruction, Side,
};
use dex_indexer::nonzero::NonZeroU64;

fn nz(value: u64) -> NonZeroU64 {
    NonZeroU64::new(value).unwrap()
}

/// A framing byte, the tag, and the payload.
fn framed(tag: u32, payload: &[u8]) -> Vec<u8> {
    let mut bytes = vec![0u8];
    bytes.extend_from_slice(&tag.to_le_bytes());
    bytes.extend_from_slice(payload);
    bytes
}

const NEW_ORDER_V1: [u8; 32] = [
    1, 0, 0, 0, // side: Ask
    0x10, 0x27, 0, 0, 0, 0, 0, 0, // limit_price: 10000
    7, 0, 0, 0, 0, 0, 0, 0, // max_qty: 7
    2, 0, 0, 0, // order_type: PostOnly
    0xEF, 0xCD, 0xAB, 0x89, 0x67, 0x45, 0x23, 0x01, // client_id
];

const NEW_ORDER_V2: [u8; 33] = [
    0, 0, 0, 0, // side: Bid
    1, 0, 0, 0, 0, 0, 0, 0, // limit_price: 1
    0, 1, 0, 0, 0, 0, 0, 0, // max_qty: 256
    1, 0, 0, 0, // order_type: ImmediateOrCancel
    9, 0, 0, 0, 0, 0, 0, 0, // client_id: 9
    2, // self_trade_behavior: AbortTransaction, in one byte
];

const NEW_ORDER_V3: [u8; 46] = [
    1, 0, 0, 0, // side: Ask
    5, 0, 0, 0, 0, 0, 0, 0, // limit_price: 5
    6, 0, 0, 0, 0, 0, 0, 0, // max_coin_qty: 6
    0xFF, 0xFF, 0xFF, 0xFF, 0xFF, 0xFF, 0xFF, 0xFF, // max_native_pc_qty_including_fees
    1, 0, 0, 0, // self_trade_behavior: CancelProvide
    0, 0, 0, 0, // order_type: Limit
    0x2A, 0, 0, 0, 0, 0, 0, 0, // client_order_id: 42
    0xFF, 0xFF, // limit: 65535
];

const SEND_TAKE: [u8; 46] = [
    0, 0, 0, 0, // side: Bid
    3, 0, 0, 0, 0, 0, 0, 0, // limit_price: 3
    4, 0, 0, 0, 0, 0, 0, 0, // max_coin_qty: 4
    5, 0, 0, 0, 0, 0, 0, 0, // max_native_pc_qty_including_fees: 5
    0, 0, 0, 0, 0, 0, 0, 0, // min_coin_qty: 0
    0, 0, 0, 0, 0, 0, 0, 0x80, // min_native_pc_qty: 2^63
    0x0A, 0, // limit: 10
];

const CANCEL_ORDER: [u8; 53] = [
    1, 0, 0, 0, // side: Ask
    1, 2, 3, 4, 5, 6, 7, 8, 9, 10, 11, 12, 13, 14, 15, 16, // order_id
    1, 0, 0, 0, 0, 0, 0, 0, // owner[0]: 1
    0, 2, 0, 0, 0, 0, 0, 0, // owner[1]: 512
    0, 0, 3, 0, 0, 0, 0, 0, // owner[2]: 196608
    0, 0, 0, 0, 0, 0, 0, 4, // owner[3]: 4 * 2^56
    0x7F, // owner_slot: 127
];

const INITIALIZE_MARKET: [u8; 34] = [
    0x64, 0, 0, 0, 0, 0, 0, 0, // coin_lot_size: 100
    0xE8, 0x03, 0, 0, 0, 0, 0, 0, // pc_lot_size: 1000
    0x16, 0x00, // fee_rate_bps: 22
    1, 0, 0, 0, 0, 0, 0, 0, // vault_signer_nonce: 1
    0, 0, 0, 0, 1, 0, 0, 0, // pc_dust_threshold: 2^32
];

#[test]
fn tag_0_decodes_initialize_market() {
    let expected = InitializeMarketInstruction {
        coin_lot_size: 100,
        pc_lot_size: 1000,
        fee_rate_bps: 22,
        vault_signer_nonce: 1,
        pc_dust_threshold: 1 << 32,
    };
    assert_eq!(
        MarketInstruction::unpack(&framed(0, &INITIALIZE_MARKET)),
        Some(MarketInstruction::InitializeMarket(expected.clone()))
    );
    assert_eq!(InitializeMarketInstruction::unpack(&INITIALIZE_MARKET), Some(expected));
}

#[test]
fn tag_1_decodes_new_order() {
    let expected = NewOrderInstructionV1 {
        side: Side::Ask,
        limit_price: nz(10000),
        max_qty: nz(7),
        order_type: OrderType::PostOnly,
        client_id: 0x0123_4567_89AB_CDEF,
    };
    assert_eq!(
        MarketInstruction::unpack(&framed(1, &NEW_ORDER_V1)),
        Some(MarketInstruction::NewOrder(expected.clone()))
    );
    assert_eq!(NewOrderInstructionV1::unpack(&NEW_ORDER_V1), Some(expected));
}

#[test]
fn tag_2_decodes_match_orders() {
    assert_eq!(
        MarketInstruction::unpack(&[0, 2, 0, 0, 0, 0x34, 0x12]),
        Some(MarketInstruction::MatchOrders(0x1234))
    );
}

#[test]
fn tag_3_decodes_consume_events() {
    assert_eq!(
        MarketInstruction::unpack(&[0, 3, 0, 0, 0, 5, 0]),
        Some(MarketInstruction::ConsumeEvents(5))
    );
}

#[test]
fn tag_4_decodes_cancel_order() {
    let expected = CancelOrderInstruction {
        side: Side::Ask,
        order_id: 0x100F_0E0D_0C0B_0A09_0807_0605_0403_0201,
        owner: vec![1, 512, 196608, 4 << 56],
        owner_slot: 127,
    };
    assert_eq!(
        MarketInstruction::unpack(&framed(4, &CANCEL_ORDER)),
        Some(MarketInstruction::CancelOrder(expected.clone()))
    );
    assert_eq!(CancelOrderInstruction::unpack(&CANCEL_ORDER), Some(expected));
}

#[test]
fn tag_5_decodes_settle_funds() {
    assert_eq!(
        MarketInstruction::unpack(&[0, 5, 0, 0, 0]),
        Some(MarketInstruction::SettleFunds)
    );
}

#[test]
fn tag_6_decodes_cancel_order_by_client_id() {
    assert_eq!(
        MarketInstruction::unpack(&[0, 6, 0, 0, 0, 1, 2, 3, 4, 5, 6, 7, 8]),
        Some(MarketInstruction::CancelOrderByClientId(0x0807_0605_0403_0201))
    );
}

#[test]
fn tag_7_decodes_disable_market() {
    assert_eq!(
        MarketInstruction::unpack(&[0, 7, 0, 0, 0]),
        Some(MarketInstruction::DisableMarket)
    );
}

#[test]
fn tag_8_decodes_sweep_fees() {
    assert_eq!(
        MarketInstruction::unpack(&[0, 8, 0, 0, 0]),
        Some(MarketInstruction::SweepFees)
    );
}

#[test]
fn tag_9_decodes_new_order_v2() {
    let expected = NewOrderInstructionV2 {
        side: Side::Bid,
        limit_price: nz(1),
        max_qty: nz(256),
        order_type: OrderType::ImmediateOrCancel,
        client_id: 9,
        self_trade_behavior: SelfTradeBehavior::AbortTransaction,
    };
    assert_eq!(
        MarketInstruction::unpack(&framed(9, &NEW_ORDER_V2)),
        Some(MarketInstruction::NewOrderV2(expected.clone()))
    );
    assert_eq!(NewOrderInstructionV2::unpack(&NEW_ORDER_V2), Some(expected));
}

#[test]
fn tag_10_decodes_new_order_v3() {
    let expected = NewOrderInstructionV3 {
        side: Side::Ask,
        limit_price: nz(5),
        max_coin_qty: nz(6),
        max_native_pc_qty_including_fees: nz(u64::MAX),
        self_trade_behavior: SelfTradeBehavior::CancelProvide,
        order_type: OrderType::Limit,
        client_order_id: 42,
        limit: 65535,
    };
    assert_eq!(
        MarketInstruction::unpack(&framed(10, &NEW_ORDER_V3)),
        Some(MarketInstruction::NewOrderV3(expected.clone()))
    );
    assert_eq!(NewOrderInstructionV3::unpack(&NEW_ORDER_V3), Some(expected));
}

#[test]
fn tag_11_decodes_cancel_order_v2() {
    let mut payload = vec![0u8, 0, 0, 0];
    payload.extend_from_slice(&[0xFF; 16]);
    let expected = CancelOrderInstructionV2 { side: Side::Bid, order_id: u128::MAX };
    assert_eq!(
        MarketInstruction::unpack(&framed(11, &payload)),
        Some(MarketInstruction::CancelOrderV2(expected.clone()))
    );
    assert_eq!(CancelOrderInstructionV2::unpack(&payload), Some(expected));
}

#[test]
fn tag_12_decodes_cancel_order_by_client_id_v2() {
    assert_eq!(
        MarketInstruction::unpack(&[0, 12, 0, 0, 0, 0, 0, 0, 0, 0, 0, 0, 0]),
        Some(MarketInstruction::CancelOrderByClientIdV2(0))
    );
}

#[test]
fn tag_13_decodes_send_take() {
    let expected = SendTakeInstruction {
        side: Side::Bid,
        limit_price: nz(3),
        max_coin_qty: nz(4),
        max_native_pc_qty_including_fees: nz(5),
        min_coin_qty: 0,
        min_native_pc_qty: 1 << 63,
        limit: 10,
    };
    assert_eq!(
        MarketInstruction::unpack(&framed(13, &SEND_TAKE)),
        Some(MarketInstruction::SendTake(expected.clone()))
    );
    assert_eq!(SendTakeInstruction::unpack(&SEND_TAKE), Some(expected));
}

#[test]
fn tag_14_decodes_close_open_orders() {
    assert_eq!(
        MarketInstruction::unpack(&[0, 14, 0, 0, 0]),
        Some(MarketInstruction::CloseOpenOrders)
    );
}

#[test]
fn tag_15_decodes_init_open_orders() {
    assert_eq!(
        MarketInstruction::unpack(&[0, 15, 0, 0, 0]),
        Some(MarketInstruction::InitOpenOrders)
    );
}

#[test]
fn tag_16_decodes_prune() {
    assert_eq!(
        MarketInstruction::unpack(&[0, 16, 0, 0, 0, 0xFF, 0xFF]),
        Some(MarketInstruction::Prune(65535))
    );
}

#[test]
fn tag_17_decodes_consume_events_permissioned() {
    assert_eq!(
        MarketInstruction::unpack(&[0, 17, 0, 0, 0, 0, 1]),
        Some(MarketInstruction::ConsumeEventsPermissioned(256))
    );
}

#[test]
fn the_framing_byte_is_not_read() {
    for first in [0u8, 1, 0x7F, 0xFF] {
        assert_eq!(
            MarketInstruction::unpack(&[first, 2, 0, 0, 0, 9, 0]),
            Some(MarketInstruction::MatchOrders(9))
        );
    }
}

#[test]
fn tags_above_17_decode_to_nothing() {
    for tag in [18u32, 19, 255, 256, 0x0100_0005, 0xFFFF_FFFF] {
        for len in [0usize, 2, 8, 34, 53] {
            assert_eq!(MarketInstruction::unpack(&framed(tag, &vec![1u8; len])), None);
        }
    }
}

#[test]
fn the_tag_is_read_from_all_four_bytes() {
    assert_eq!(MarketInstruction::unpack(&[0, 5, 1, 0, 0]), None);
    assert_eq!(MarketInstruction::unpack(&[0, 5, 0, 1, 0]), None);
    assert_eq!(MarketInstruction::unpack(&[0, 5, 0, 0, 1]), None);
}

#[test]
fn inputs_without_a_whole_tag_decode_to_nothing() {
    assert_eq!(MarketInstruction::unpack(&[]), None);
    assert_eq!(MarketInstruction::unpack(&[0]), None);
    assert_eq!(MarketInstruction::unpack(&[0, 5]), None);
    assert_eq!(MarketInstruction::unpack(&[0, 5, 0, 0]), None);
}

/// A valid input for each tag.
fn valid_inputs() -> Vec<Vec<u8>> {
    let mut cancel_v2 = vec![1u8, 0, 0, 0];
    cancel_v2.extend_from_slice(&[3; 16]);
    vec![
        framed(0, &INITIALIZE_MARKET),
        framed(1, &NEW_ORDER_V1),
        framed(2, &[1, 0]),
        framed(3, &[1, 0]),
        framed(4, &CANCEL_ORDER),
        framed(5, &[]),
        framed(6, &[1; 8]),
        framed(7, &[]),
        framed(8, &[]),
        framed(9, &NEW_ORDER_V2),
        framed(10, &NEW_ORDER_V3),
        framed(11, &cancel_v2),
        framed(12, &[1; 8]),
        framed(13, &SEND_TAKE),
        framed(14, &[]),
        framed(15, &[]),
        framed(16, &[1, 0]),
        framed(17, &[1, 0]),
    ]
}

#[test]
fn every_tag_has_its_declared_payload_length() {
    let lengths = [34usize, 32, 2, 2, 53, 0, 8, 0, 0, 33, 46, 20, 8, 46, 0, 0, 2, 2];
    let inputs = valid_inputs();
    assert_eq!(inputs.len(), 18);
    for (tag, input) in inputs.iter().enumerate() {
        assert_eq!(input.len(), 5 + lengths[tag]);
        assert!(MarketInstruction::unpack(input).is_some(), "tag {}", tag);
    }
}

#[test]
fn truncated_inputs_decode_to_nothing() {
    for input in valid_inputs() {
        for len in 0..input.len() {
            assert_eq!(MarketInstruction::unpack(&input[..len]), None);
        }
    }
}

#[test]
fn extended_inputs_decode_to_nothing() {
    for input in valid_inputs() {
        let mut longer = input.clone();
        for _ in 0..3 {
            longer.push(0);
            assert_eq!(MarketInstruction::unpack(&longer), None);
        }
    }
}

#[test]
fn decoding_twice_gives_the_same_instruction() {
    for input in valid_inputs() {
        assert_eq!(MarketInstruction::unpack(&input), MarketInstruction::unpack(&input));
    }
}

/// `payload` with the `width` bytes from `at` on set to zero.
fn zeroed(payload: &[u8], at: usize, width: usize) -> Vec<u8> {
    let mut bytes = payload.to_vec();
    for byte in &mut bytes[at..at + width] {
        *byte = 0;
    }
    bytes
}

#[test]
fn new_order_with_a_zero_price_or_quantity_decodes_to_nothing() {
    for at in [4usize, 12] {
        let payload = zeroed(&NEW_ORDER_V1, at, 8);
        assert_eq!(NewOrderInstructionV1::unpack(&payload), None);
        assert_eq!(MarketInstruction::unpack(&framed(1, &payload)), None);
    }
}

#[test]
fn new_order_v2_with_a_zero_price_or_quantity_decodes_to_nothing() {
    for at in [4usize, 12] {
        let payload = zeroed(&NEW_ORDER_V2, at, 8);
        assert_eq!(NewOrderInstructionV2::unpack(&payload), None);
        assert_eq!(MarketInstruction::unpack(&framed(9, &payload)), None);
    }
}

#[test]
fn new_order_v3_with_a_zero_price_or_quantity_decodes_to_nothing() {
    for at in [4usize, 12, 20] {
        let payload = zeroed(&NEW_ORDER_V3, at, 8);
        assert_eq!(NewOrderInstructionV3::unpack(&payload), None);
        assert_eq!(MarketInstruction::unpack(&framed(10, &payload)), None);
    }
}

#[test]
fn send_take_with_a_zero_price_or_quantity_decodes_to_nothing() {
    for at in [4usize, 12, 20] {
        let payload = zeroed(&SEND_TAKE, at, 8);
        assert_eq!(SendTakeInstruction::unpack(&payload), None);
        assert_eq!(MarketInstruction::unpack(&framed(13, &payload)), None);
    }
}

#[test]
fn fields_that_may_be_zero_decode_as_zero() {
    let payload = zeroed(&NEW_ORDER_V1, 24, 8);
    assert_eq!(NewOrderInstructionV1::unpack(&payload).unwrap().client_id, 0);
    assert_eq!(
        InitializeMarketInstruction::unpack(&[0; 34]),
        Some(InitializeMarketInstruction {
            coin_lot_size: 0,
            pc_lot_size: 0,
            fee_rate_bps: 0,
            vault_signer_nonce: 0,
            pc_dust_threshold: 0,
        })
    );
}

#[test]
fn an_unknown_side_fails_the_whole_instruction() {
    for (tag, payload) in [
        (1u32, NEW_ORDER_V1.to_vec()),
        (4, CANCEL_ORDER.to_vec()),
        (9, NEW_ORDER_V2.to_vec()),
        (10, NEW_ORDER_V3.to_vec()),
        (13, SEND_TAKE.to_vec()),
    ] {
        let mut bad = payload.clone();
        bad[0] = 2;
        assert_eq!(MarketInstruction::unpack(&framed(tag, &bad)), None);
        let mut high = payload.clone();
        high[3] = 1;
        assert_eq!(MarketInstruction::unpack(&framed(tag, &high)), None);
    }
    let mut cancel_v2 = vec![2u8, 0, 0, 0];
    cancel_v2.extend_from_slice(&[3; 16]);
    assert_eq!(CancelOrderInstructionV2::unpack(&cancel_v2), None);
    assert_eq!(MarketInstruction::unpack(&framed(11, &cancel_v2)), None);
}

#[test]
fn an_unknown_order_type_fails_the_whole_instruction() {
    let mut v1 = NEW_ORDER_V1;
    v1[20] = 3;
    assert_eq!(NewOrderInstructionV1::unpack(&v1), None);
    let mut v2 = NEW_ORDER_V2;
    v2[20] = 3;
    assert_eq!(NewOrderInstructionV2::unpack(&v2), None);
    let mut v3 = NEW_ORDER_V3;
    v3[32] = 3;
    assert_eq!(NewOrderInstructionV3::unpack(&v3), None);
}

#[test]
fn an_unknown_self_trade_behavior_fails_the_whole_instruction() {
    let mut v2 = NEW_ORDER_V2;
    v2[32] = 3;
    assert_eq!(NewOrderInstructionV2::unpack(&v2), None);
    let mut v3 = NEW_ORDER_V3;
    v3[28] = 3;
    assert_eq!(NewOrderInstructionV3::unpack(&v3), None);
    let mut high = NEW_ORDER_V3;
    high[31] = 1;
    assert_eq!(NewOrderInstructionV3::unpack(&high), None);
}

#[test]
fn new_order_v2_reads_its_self_trade_behavior_from_one_byte() {
    for (ordinal, behavior) in [
        (0u8, SelfTradeBehavior::DecrementTake),
        (1, SelfTradeBehavior::CancelProvide),
        (2, SelfTradeBehavior::AbortTransaction),
    ] {
        let mut payload = NEW_ORDER_V2;
        payload[32] = ordinal;
        assert_eq!(
            NewOrderInstructionV2::unpack(&payload).unwrap().self_trade_behavior,
            behavior
        );
    }
}

#[test]
fn payload_decoders_take_only_their_exact_length() {
    assert_eq!(InitializeMarketInstruction::unpack(&[0; 33]), None);
    assert_eq!(InitializeMarketInstruction::unpack(&[0; 35]), None);
    assert_eq!(NewOrderInstructionV1::unpack(&NEW_ORDER_V1[..31]), None);
    assert_eq!(NewOrderInstructionV2::unpack(&NEW_ORDER_V2[..32]), None);
    assert_eq!(NewOrderInstructionV3::unpack(&NEW_ORDER_V3[..45]), None);
    assert_eq!(SendTakeInstruction::unpack(&SEND_TAKE[..45]), None);
    assert_eq!(CancelOrderInstruction::unpack(&CANCEL_ORDER[..52]), None);
    assert_eq!(CancelOrderInstructionV2::unpack(&[0; 19]), None);
    assert_eq!(CancelOrderInstructionV2::unpack(&[0; 21]), None);
    assert_eq!(NewOrderInstructionV1::unpack(&[]), None);
}

#[test]
fn side_decodes_its_two_ordinals() {
    assert_eq!(Side::unpack(&[0, 0, 0, 0]), Some(Side::Bid));
    assert_eq!(Side::unpack(&[1, 0, 0, 0]), Some(Side::Ask));
    assert_eq!(Side::unpack(&[2, 0, 0, 0]), None);
    assert_eq!(Side::unpack(&[0, 1, 0, 0]), None);
    assert_eq!(Side::unpack(&[0xFF, 0xFF, 0xFF, 0xFF]), None);
    assert_eq!(Side::unpack(&[0, 0, 0]), None);
    assert_eq!(Side::unpack(&[0, 0, 0, 0, 0]), None);
    assert_eq!(Side::unpack(&[]), None);
    assert_eq!(Side::from_ordinal(0), Some(Side::Bid));
    assert_eq!(Side::from_ordinal(1), Some(Side::Ask));
    assert_eq!(Side::from_ordinal(2), None);
}

#[test]
fn order_type_decodes_its_three_ordinals() {
    assert_eq!(OrderType::unpack(&[0, 0, 0, 0]), Some(OrderType::Limit));
    assert_eq!(OrderType::unpack(&[1, 0, 0, 0]), Some(OrderType::ImmediateOrCancel));
    assert_eq!(OrderType::unpack(&[2, 0, 0, 0]), Some(OrderType::PostOnly));
    assert_eq!(OrderType::unpack(&[3, 0, 0, 0]), None);
    assert_eq!(OrderType::unpack(&[0, 0, 0, 1]), None);
    assert_eq!(OrderType::unpack(&[0]), None);
    assert_eq!(OrderType::from_ordinal(2), Some(OrderType::PostOnly));
    assert_eq!(OrderType::from_ordinal(3), None);
}

#[test]
fn self_trade_behavior_decodes_its_three_ordinals() {
    assert_eq!(
        SelfTradeBehavior::unpack(&[0, 0, 0, 0]),
        Some(SelfTradeBehavior::DecrementTake)
    );
    assert_eq!(
        SelfTradeBehavior::unpack(&[1, 0, 0, 0]),
        Some(SelfTradeBehavior::CancelProvide)
    );
    assert_eq!(
        SelfTradeBehavior::unpack(&[2, 0, 0, 0]),
        Some(SelfTradeBehavior::AbortTransaction)
    );
    assert_eq!(SelfTradeBehavior::unpack(&[3, 0, 0, 0]), None);
    assert_eq!(SelfTradeBehavior::unpack(&[2]), None);
    assert_eq!(SelfTradeBehavior::unpack_byte(&[2]), Some(SelfTradeBehavior::AbortTransaction));
    assert_eq!(SelfTradeBehavior::unpack_byte(&[3]), None);
    assert_eq!(SelfTradeBehavior::unpack_byte(&[0, 0, 0, 0]), None);
    assert_eq!(SelfTradeBehavior::unpack_byte(&[]), None);
    assert_eq!(SelfTradeBehavior::from_ordinal(3), None);
}

#[test]
fn closed_variants_have_canonical_names() {
    assert_eq!(Side::Bid.name(), "Bid");
    assert_eq!(Side::Ask.name(), "Ask");
    assert_eq!(OrderType::Limit.name(), "Limit");
    assert_eq!(OrderType::ImmediateOrCancel.name(), "ImmediateOrCancel");
    assert_eq!(OrderType::PostOnly.name(), "PostOnly");
    assert_eq!(SelfTradeBehavior::DecrementTake.name(), "DecrementTake");
    assert_eq!(SelfTradeBehavior::CancelProvide.name(), "CancelProvide");
    assert_eq!(SelfTradeBehavior::AbortTransaction.name(), "AbortTransaction");
}
