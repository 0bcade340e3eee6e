//! The projection of an instruction and its account list into a record.
//!
//! Every variant has a name for its records, a role table that names the
//! account at each slot, and a list of attributes for the fields of its
//! payload. A record holds the attribute `id`, one attribute per role, and
//! the attributes of the payload.

use vstd::prelude::*;
use crate::entity::{copy_list, text_views, Entity, Value, ValueView};
use crate::instruction::{MarketInstruction, MarketInstructionView};

verus! {

/// The name under which the records of an instruction are stored.
pub open spec fn entity_type_of(instruction: MarketInstructionView) -> Seq<char> {
    match instruction {
        MarketInstructionView::InitializeMarket(_) => "InitializeMarket"@,
        MarketInstructionView::NewOrder(_) => "NewOrder"@,
        MarketInstructionView::MatchOrders(_) => "MatchOrders"@,
        MarketInstructionView::ConsumeEvents(_) => "ConsumeEvents"@,
        MarketInstructionView::CancelOrder(_) => "CancelOrder"@,
        MarketInstructionView::SettleFunds => "SettleFunds"@,
        MarketInstructionView::CancelOrderByClientId(_) => "CancelOrderByClientId"@,
        MarketInstructionView::DisableMarket => "DisableMarket"@,
        MarketInstructionView::SweepFees => "SweepFees"@,
        MarketInstructionView::NewOrderV2(_) => "NewOrderV2"@,
        MarketInstructionView::NewOrderV3(_) => "NewOrderV3"@,
        MarketInstructionView::CancelOrderV2(_) => "CancelOrderV2"@,
        MarketInstructionView::CancelOrderByClientIdV2(_) => "CancelOrderByClientIdV2"@,
        MarketInstructionView::SendTake(_) => "SendTake"@,
        MarketInstructionView::CloseOpenOrders => "CloseOpenOrders"@,
        MarketInstructionView::InitOpenOrders => "InitOpenOrders"@,
        MarketInstructionView::Prune(_) => "Prune"@,
        MarketInstructionView::ConsumeEventsPermissioned(_) => "ConsumeEventsPermissioned"@,
    }
}

/// The role table of an instruction: the attribute name of the account at
/// each slot of its account list.
pub open spec fn role_table(instruction: MarketInstructionView) -> Seq<Seq<char>> {
    match instruction {
        MarketInstructionView::InitializeMarket(_) => seq![
            "market"@,
            "request_queue"@,
            "event_queue"@,
            "bids"@,
            "asks"@,
            "coin_currency"@,
            "price_currency"@,
            "coin_currency_mint"@,
            "price_currency_mint"@,
            "rent_sysvar"@,
            "open_orders_market_authority"@,
            "prune_authority"@,
            "crank_authority"@,
        ],
        MarketInstructionView::NewOrder(_) => seq![
            "market"@,
            "open_orders"@,
            "request_queue"@,
            "account_paying"@,
            "owner_openOrders_account"@,
            "coin_vault"@,
            "pc_vault"@,
            "token_program"@,
            "rent_sysvar"@,
            "SRM_account"@,
        ],
        MarketInstructionView::MatchOrders(_) => seq![
            "market"@,
            "request_queue"@,
            "event_queue"@,
            "bids"@,
            "asks"@,
            "coin_fee"@,
            "pc_fee"@,
        ],
        MarketInstructionView::ConsumeEvents(_) => Seq::empty(),
        MarketInstructionView::CancelOrder(_) => seq![
            "market"@,
            "open_orders"@,
            "request_queue"@,
            "open_orders_owner"@,
        ],
        MarketInstructionView::SettleFunds => seq![
            "market"@,
            "open_orders"@,
            "open_orders_owner"@,
            "coin_vault"@,
            "pc_vault"@,
            "coin_wallet"@,
            "pc_wallet"@,
            "vault_signer"@,
            "token_program"@,
            "referrer_pc_wallet"@,
        ],
        MarketInstructionView::CancelOrderByClientId(_) => seq![
            "market"@,
            "open_orders"@,
            "request_queue"@,
            "open_orders_owner"@,
        ],
        MarketInstructionView::DisableMarket => seq![
            "market"@,
            "disable_authority"@,
        ],
        MarketInstructionView::SweepFees => seq![
            "market"@,
            "pc_vault"@,
            "fee_sweeping_authority"@,
            "fee_receivable_account"@,
            "vault_signer"@,
            "token_program"@,
        ],
        MarketInstructionView::NewOrderV2(_) => seq![
            "market"@,
            "open_orders"@,
            "request_queue"@,
            "account_paying_for_the_order"@,
            "open_orders_owner"@,
            "coin_vault"@,
            "pc_vault"@,
            "token_program"@,
            "rent_sysvar"@,
            "SRM_account"@,
        ],
        MarketInstructionView::NewOrderV3(_) => seq![
            "market"@,
            "open_orders"@,
            "request_queue"@,
            "event_queue"@,
            "bids"@,
            "asks"@,
            "account_paying_for_the_order"@,
            "open_orders_owner"@,
            "coin_vault"@,
            "pc_vault"@,
            "token_program"@,
            "rent_sysvar"@,
        ],
        MarketInstructionView::CancelOrderV2(_) => seq![
            "market"@,
            "bids"@,
            "asks"@,
            "open_orders"@,
            "open_orders_owner"@,
            "event_queue"@,
        ],
        MarketInstructionView::CancelOrderByClientIdV2(_) => seq![
            "market"@,
            "bids"@,
            "asks"@,
            "open_orders"@,
        ],
        MarketInstructionView::SendTake(_) => seq![
            "market"@,
            "bids"@,
            "asks"@,
            "open_orders"@,
        ],
        MarketInstructionView::CloseOpenOrders => seq![
            "open_orders"@,
            "open_orders_owner"@,
            "destination_to_send_rent_exemption_sol"@,
            "market"@,
        ],
        MarketInstructionView::InitOpenOrders => seq![
            "open_orders"@,
            "open_orders_owner"@,
            "market"@,
            "rent_sysvar"@,
            "open_orders_market_authority"@,
        ],
        MarketInstructionView::Prune(_) => seq![
            "market"@,
            "bids"@,
            "asks"@,
            "prune_authority"@,
            "open_orders"@,
            "open_orders_owner"@,
            "event_queue"@,
        ],
        MarketInstructionView::ConsumeEventsPermissioned(_) => Seq::empty(),
    }
}

/// The text that stands for slot `k` of an account list with the texts
/// `texts`: the text of the account there, and the empty text where the list
/// is too short.
pub open spec fn slot_text(texts: Seq<Seq<char>>, k: int) -> Seq<char> {
    if 0 <= k < texts.len() {
        texts[k]
    } else {
        Seq::empty()
    }
}

/// The attributes of the accounts: for each slot of `roles`, its name with
/// the text for that slot.
pub open spec fn account_attributes(roles: Seq<Seq<char>>, texts: Seq<Seq<char>>) -> Seq<
    (Seq<char>, ValueView),
> {
    Seq::new(roles.len(), |k: int| (roles[k], ValueView::Text(slot_text(texts, k))))
}

/// The attributes of the payload: numbers as they are, closed variants by
/// their canonical names, the owner of a cancelled order as a list.
pub open spec fn payload_attributes(instruction: MarketInstructionView) -> Seq<
    (Seq<char>, ValueView),
> {
    match instruction {
        MarketInstructionView::InitializeMarket(p) => Seq::empty()
            .push(("coin_lot_size"@, ValueView::U64(p.coin_lot_size)))
            .push(("pc_lot_size"@, ValueView::U64(p.pc_lot_size)))
            .push(("fee_rate_bps"@, ValueView::U16(p.fee_rate_bps)))
            .push(("vault_signer_nonce"@, ValueView::U64(p.vault_signer_nonce)))
            .push(("pc_dust_threshold"@, ValueView::U64(p.pc_dust_threshold))),
        MarketInstructionView::NewOrder(p) => Seq::empty()
            .push(("side"@, ValueView::Text(p.side.name_of())))
            .push(("limit_price"@, ValueView::U64(p.limit_price)))
            .push(("max_qty"@, ValueView::U64(p.max_qty)))
            .push(("order_type"@, ValueView::Text(p.order_type.name_of())))
            .push(("client_id"@, ValueView::U64(p.client_id))),
        MarketInstructionView::MatchOrders(limit) => Seq::empty()
            .push(("value"@, ValueView::U16(limit))),
        MarketInstructionView::ConsumeEvents(limit) => Seq::empty()
            .push(("value"@, ValueView::U16(limit))),
        MarketInstructionView::CancelOrder(p) => Seq::empty()
            .push(("side"@, ValueView::Text(p.side.name_of())))
            .push(("order_id"@, ValueView::U128(p.order_id)))
            .push(("owner"@, ValueView::List(p.owner)))
            .push(("owner_slot"@, ValueView::U8(p.owner_slot))),
        MarketInstructionView::SettleFunds => Seq::empty(),
        MarketInstructionView::CancelOrderByClientId(client_id) => Seq::empty()
            .push(("value"@, ValueView::U64(client_id))),
        MarketInstructionView::DisableMarket => Seq::empty(),
        MarketInstructionView::SweepFees => Seq::empty(),
        MarketInstructionView::NewOrderV2(p) => Seq::empty()
            .push(("side"@, ValueView::Text(p.side.name_of())))
            .push(("limit_price"@, ValueView::U64(p.limit_price)))
            .push(("max_qty"@, ValueView::U64(p.max_qty)))
            .push(("order_type"@, ValueView::Text(p.order_type.name_of())))
            .push(("client_id"@, ValueView::U64(p.client_id)))
            .push(("self_trade_behavior"@, ValueView::Text(p.self_trade_behavior.name_of()))),
        MarketInstructionView::NewOrderV3(p) => Seq::empty()
            .push(("side"@, ValueView::Text(p.side.name_of())))
            .push(("limit_price"@, ValueView::U64(p.limit_price)))
            .push(("max_coin_qty"@, ValueView::U64(p.max_coin_qty)))
            .push(("max_native_pc_qty_including_fees"@, ValueView::U64(p.max_native_pc_qty_including_fees)))
            .push(("self_trade_behavior"@, ValueView::Text(p.self_trade_behavior.name_of())))
            .push(("order_type"@, ValueView::Text(p.order_type.name_of())))
            .push(("client_order_id"@, ValueView::U64(p.client_order_id)))
            .push(("limit"@, ValueView::U16(p.limit))),
        MarketInstructionView::CancelOrderV2(p) => Seq::empty()
            .push(("side"@, ValueView::Text(p.side.name_of())))
            .push(("order_id"@, ValueView::U128(p.order_id))),
        MarketInstructionView::CancelOrderByClientIdV2(client_id) => Seq::empty()
            .push(("value"@, ValueView::U64(client_id))),
        MarketInstructionView::SendTake(p) => Seq::empty()
            .push(("side"@, ValueView::Text(p.side.name_of())))
            .push(("limit_price"@, ValueView::U64(p.limit_price)))
            .push(("max_coin_qty"@, ValueView::U64(p.max_coin_qty)))
            .push(("max_native_pc_qty_including_fees"@, ValueView::U64(p.max_native_pc_qty_including_fees)))
            .push(("min_coin_qty"@, ValueView::U64(p.min_coin_qty)))
            .push(("min_native_pc_qty"@, ValueView::U64(p.min_native_pc_qty)))
            .push(("limit"@, ValueView::U16(p.limit))),
        MarketInstructionView::CloseOpenOrders => Seq::empty(),
        MarketInstructionView::InitOpenOrders => Seq::empty(),
        MarketInstructionView::Prune(limit) => Seq::empty()
            .push(("value"@, ValueView::U16(limit))),
        MarketInstructionView::ConsumeEventsPermissioned(limit) => Seq::empty()
            .push(("value"@, ValueView::U16(limit))),
    }
}

/// All attributes of the record of `instruction`, in the order in which they
/// are set: the identifier `id`, the accounts with the texts `texts`, the
/// payload.
pub open spec fn attributes(
    instruction: MarketInstructionView,
    texts: Seq<Seq<char>>,
    id: Seq<char>,
) -> Seq<(Seq<char>, ValueView)> {
    seq![("id"@, ValueView::Text(id))] + account_attributes(role_table(instruction), texts)
        + payload_attributes(instruction)
}

/// The mapping `m` after each attribute of `attrs` has been set in turn.
pub open spec fn apply(m: Map<Seq<char>, ValueView>, attrs: Seq<(Seq<char>, ValueView)>) -> Map<
    Seq<char>,
    ValueView,
>
    decreases attrs.len(),
{
    if attrs.len() == 0 {
        m
    } else {
        apply(m, attrs.drop_last()).insert(attrs.last().0, attrs.last().1)
    }
}

/// The record of `instruction` for an account list with the texts `texts`
/// and the identifier `id`.
pub open spec fn record(
    instruction: MarketInstructionView,
    texts: Seq<Seq<char>>,
    id: Seq<char>,
) -> Map<Seq<char>, ValueView> {
    apply(Map::empty(), attributes(instruction, texts, id))
}

/// To apply a list and one more attribute is to apply the list and then set
/// the attribute.
pub proof fn lemma_apply_push(
    m: Map<Seq<char>, ValueView>,
    attrs: Seq<(Seq<char>, ValueView)>,
    last: (Seq<char>, ValueView),
)
    ensures
        apply(m, attrs.push(last)) == apply(m, attrs).insert(last.0, last.1),
{
    assert(attrs.push(last).drop_last() =~= attrs);
}

/// To apply two lists in a row is to apply the first and then the second.
pub proof fn lemma_apply_concat(
    m: Map<Seq<char>, ValueView>,
    first: Seq<(Seq<char>, ValueView)>,
    second: Seq<(Seq<char>, ValueView)>,
)
    ensures
        apply(m, first + second) == apply(apply(m, first), second),
    decreases second.len(),
{
    if second.len() == 0 {
        assert(first + second =~= first);
    } else {
        lemma_apply_concat(m, first, second.drop_last());
        assert((first + second).drop_last() =~= first + second.drop_last());
    }
}

/// The views of the texts of `names`.
pub open spec fn views_of(names: Seq<&'static str>) -> Seq<Seq<char>> {
    names.map_values(|s: &'static str| s@)
}

impl MarketInstruction {
    /// The name under which the records of this instruction are stored.
    pub fn entity_type(&self) -> (name: &'static str)
        ensures
            name@ == entity_type_of(self@),
    {
        match self {
            MarketInstruction::InitializeMarket(_) => "InitializeMarket",
            MarketInstruction::NewOrder(_) => "NewOrder",
            MarketInstruction::MatchOrders(_) => "MatchOrders",
            MarketInstruction::ConsumeEvents(_) => "ConsumeEvents",
            MarketInstruction::CancelOrder(_) => "CancelOrder",
            MarketInstruction::SettleFunds => "SettleFunds",
            MarketInstruction::CancelOrderByClientId(_) => "CancelOrderByClientId",
            MarketInstruction::DisableMarket => "DisableMarket",
            MarketInstruction::SweepFees => "SweepFees",
            MarketInstruction::NewOrderV2(_) => "NewOrderV2",
            MarketInstruction::NewOrderV3(_) => "NewOrderV3",
            MarketInstruction::CancelOrderV2(_) => "CancelOrderV2",
            MarketInstruction::CancelOrderByClientIdV2(_) => "CancelOrderByClientIdV2",
            MarketInstruction::SendTake(_) => "SendTake",
            MarketInstruction::CloseOpenOrders => "CloseOpenOrders",
            MarketInstruction::InitOpenOrders => "InitOpenOrders",
            MarketInstruction::Prune(_) => "Prune",
            MarketInstruction::ConsumeEventsPermissioned(_) => "ConsumeEventsPermissioned",
        }
    }

    /// The role table of this instruction.
    pub fn role_names(&self) -> (roles: Vec<&'static str>)
        ensures
            views_of(roles@) == role_table(self@),
    {
        let roles = match self {
            MarketInstruction::InitializeMarket(_) => vec![
                "market",
                "request_queue",
                "event_queue",
                "bids",
                "asks",
                "coin_currency",
                "price_currency",
                "coin_currency_mint",
                "price_currency_mint",
                "rent_sysvar",
                "open_orders_market_authority",
                "prune_authority",
                "crank_authority",
            ],
            MarketInstruction::NewOrder(_) => vec![
                "market",
                "open_orders",
                "request_queue",
                "account_paying",
                "owner_openOrders_account",
                "coin_vault",
                "pc_vault",
                "token_program",
                "rent_sysvar",
                "SRM_account",
            ],
            MarketInstruction::MatchOrders(_) => vec![
                "market",
                "request_queue",
                "event_queue",
                "bids",
                "asks",
                "coin_fee",
                "pc_fee",
            ],
            MarketInstruction::ConsumeEvents(_) => Vec::new(),
            MarketInstruction::CancelOrder(_) => vec![
                "market",
                "open_orders",
                "request_queue",
                "open_orders_owner",
            ],
            MarketInstruction::SettleFunds => vec![
                "market",
                "open_orders",
                "open_orders_owner",
                "coin_vault",
                "pc_vault",
                "coin_wallet",
                "pc_wallet",
                "vault_signer",
                "token_program",
                "referrer_pc_wallet",
            ],
            MarketInstruction::CancelOrderByClientId(_) => vec![
                "market",
                "open_orders",
                "request_queue",
                "open_orders_owner",
            ],
            MarketInstruction::DisableMarket => vec![
                "market",
                "disable_authority",
            ],
            MarketInstruction::SweepFees => vec![
                "market",
                "pc_vault",
                "fee_sweeping_authority",
                "fee_receivable_account",
                "vault_signer",
                "token_program",
            ],
            MarketInstruction::NewOrderV2(_) => vec![
                "market",
                "open_orders",
                "request_queue",
                "account_paying_for_the_order",
                "open_orders_owner",
                "coin_vault",
                "pc_vault",
                "token_program",
                "rent_sysvar",
                "SRM_account",
            ],
            MarketInstruction::NewOrderV3(_) => vec![
                "market",
                "open_orders",
                "request_queue",
                "event_queue",
                "bids",
                "asks",
                "account_paying_for_the_order",
                "open_orders_owner",
                "coin_vault",
                "pc_vault",
                "token_program",
                "rent_sysvar",
            ],
            MarketInstruction::CancelOrderV2(_) => vec![
                "market",
                "bids",
                "asks",
                "open_orders",
                "open_orders_owner",
                "event_queue",
            ],
            MarketInstruction::CancelOrderByClientIdV2(_) => vec![
                "market",
                "bids",
                "asks",
                "open_orders",
            ],
            MarketInstruction::SendTake(_) => vec![
                "market",
                "bids",
                "asks",
                "open_orders",
            ],
            MarketInstruction::CloseOpenOrders => vec![
                "open_orders",
                "open_orders_owner",
                "destination_to_send_rent_exemption_sol",
                "market",
            ],
            MarketInstruction::InitOpenOrders => vec![
                "open_orders",
                "open_orders_owner",
                "market",
                "rent_sysvar",
                "open_orders_market_authority",
            ],
            MarketInstruction::Prune(_) => vec![
                "market",
                "bids",
                "asks",
                "prune_authority",
                "open_orders",
                "open_orders_owner",
                "event_queue",
            ],
            MarketInstruction::ConsumeEventsPermissioned(_) => Vec::new(),
        };
        assert(views_of(roles@) =~= role_table(self@));
        roles
    }
}

/// Sets the attribute `name` of `entity` to `value`.
fn put(entity: &mut Entity, name: &'static str, value: Value)
    ensures
        final(entity)@ == old(entity)@.insert(name@, value@),
{
    entity.insert(name.to_owned(), value);
}

/// Sets the attributes of the payload of `instruction` in `entity`.
fn put_payload(entity: &mut Entity, instruction: &MarketInstruction)
    ensures
        final(entity)@ == apply(old(entity)@, payload_attributes(instruction@)),
{
    proof {
        assert forall|m: Map<Seq<char>, ValueView>, attrs: Seq<(Seq<char>, ValueView)>, last: (Seq<char>, ValueView)| #[trigger]
            apply(m, attrs.push(last)) == apply(m, attrs).insert(last.0, last.1) by {
            lemma_apply_push(m, attrs, last);
        }
    }
    match instruction {
        MarketInstruction::InitializeMarket(p) => {
            put(entity, "coin_lot_size", Value::U64(p.coin_lot_size));
            put(entity, "pc_lot_size", Value::U64(p.pc_lot_size));
            put(entity, "fee_rate_bps", Value::U16(p.fee_rate_bps));
            put(entity, "vault_signer_nonce", Value::U64(p.vault_signer_nonce));
            put(entity, "pc_dust_threshold", Value::U64(p.pc_dust_threshold));
        },
        MarketInstruction::NewOrder(p) => {
            put(entity, "side", Value::Text(p.side.name().to_owned()));
            put(entity, "limit_price", Value::U64(p.limit_price.get()));
            put(entity, "max_qty", Value::U64(p.max_qty.get()));
            put(entity, "order_type", Value::Text(p.order_type.name().to_owned()));
            put(entity, "client_id", Value::U64(p.client_id));
        },
        MarketInstruction::MatchOrders(limit) => {
            put(entity, "value", Value::U16(*limit));
        },
        MarketInstruction::ConsumeEvents(limit) => {
            put(entity, "value", Value::U16(*limit));
        },
        MarketInstruction::CancelOrder(p) => {
            put(entity, "side", Value::Text(p.side.name().to_owned()));
            put(entity, "order_id", Value::U128(p.order_id));
            put(entity, "owner", Value::List(copy_list(&p.owner)));
            put(entity, "owner_slot", Value::U8(p.owner_slot));
        },
        MarketInstruction::SettleFunds => {},
        MarketInstruction::CancelOrderByClientId(client_id) => {
            put(entity, "value", Value::U64(*client_id));
        },
        MarketInstruction::DisableMarket => {},
        MarketInstruction::SweepFees => {},
        MarketInstruction::NewOrderV2(p) => {
            put(entity, "side", Value::Text(p.side.name().to_owned()));
            put(entity, "limit_price", Value::U64(p.limit_price.get()));
            put(entity, "max_qty", Value::U64(p.max_qty.get()));
            put(entity, "order_type", Value::Text(p.order_type.name().to_owned()));
            put(entity, "client_id", Value::U64(p.client_id));
            put(entity, "self_trade_behavior", Value::Text(p.self_trade_behavior.name().to_owned()));
        },
        MarketInstruction::NewOrderV3(p) => {
            put(entity, "side", Value::Text(p.side.name().to_owned()));
            put(entity, "limit_price", Value::U64(p.limit_price.get()));
            put(entity, "max_coin_qty", Value::U64(p.max_coin_qty.get()));
            put(entity, "max_native_pc_qty_including_fees", Value::U64(p.max_native_pc_qty_including_fees.get()));
            put(entity, "self_trade_behavior", Value::Text(p.self_trade_behavior.name().to_owned()));
            put(entity, "order_type", Value::Text(p.order_type.name().to_owned()));
            put(entity, "client_order_id", Value::U64(p.client_order_id));
            put(entity, "limit", Value::U16(p.limit));
        },
        MarketInstruction::CancelOrderV2(p) => {
            put(entity, "side", Value::Text(p.side.name().to_owned()));
            put(entity, "order_id", Value::U128(p.order_id));
        },
        MarketInstruction::CancelOrderByClientIdV2(client_id) => {
            put(entity, "value", Value::U64(*client_id));
        },
        MarketInstruction::SendTake(p) => {
            put(entity, "side", Value::Text(p.side.name().to_owned()));
            put(entity, "limit_price", Value::U64(p.limit_price.get()));
            put(entity, "max_coin_qty", Value::U64(p.max_coin_qty.get()));
            put(entity, "max_native_pc_qty_including_fees", Value::U64(p.max_native_pc_qty_including_fees.get()));
            put(entity, "min_coin_qty", Value::U64(p.min_coin_qty));
            put(entity, "min_native_pc_qty", Value::U64(p.min_native_pc_qty));
            put(entity, "limit", Value::U16(p.limit));
        },
        MarketInstruction::CloseOpenOrders => {},
        MarketInstruction::InitOpenOrders => {},
        MarketInstruction::Prune(limit) => {
            put(entity, "value", Value::U16(*limit));
        },
        MarketInstruction::ConsumeEventsPermissioned(limit) => {
            put(entity, "value", Value::U16(*limit));
        },
    }
}

/// Sets the attributes of the accounts in `entity`: for each slot of `roles`
/// the text at that slot of `texts`, or the empty text where `texts` is too
/// short.
fn put_accounts(entity: &mut Entity, roles: &Vec<&'static str>, texts: &Vec<String>)
    ensures
        final(entity)@ == apply(
            old(entity)@,
            account_attributes(views_of(roles@), text_views(texts@)),
        ),
{
    let ghost base = entity@;
    let ghost all = account_attributes(views_of(roles@), text_views(texts@));
    let mut k: usize = 0;
    while k < roles.len()
        invariant
            k <= roles@.len(),
            all == account_attributes(views_of(roles@), text_views(texts@)),
            entity@ == apply(base, all.take(k as int)),
        decreases roles@.len() - k,
    {
        let text = if k < texts.len() {
            texts[k].clone()
        } else {
            String::new()
        };
        proof {
            lemma_apply_push(base, all.take(k as int), all[k as int]);
            assert(all.take(k as int).push(all[k as int]) =~= all.take(k + 1));
        }
        put(entity, roles[k], Value::Text(text));
        k = k + 1;
    }
    proof {
        assert(all.take(k as int) =~= all);
    }
}

/// Builds the record of `instruction` for an account list with the texts
/// `texts`, under the identifier `id`.
pub fn build_record(instruction: &MarketInstruction, texts: &Vec<String>, id: String) -> (entity:
    Entity)
    ensures
        entity@ == record(instruction@, text_views(texts@), id@),
{
    let ghost head = seq![("id"@, ValueView::Text(id@))];
    let ghost accounts = account_attributes(role_table(instruction@), text_views(texts@));
    let ghost payload = payload_attributes(instruction@);
    let mut entity = Entity::new();
    put(&mut entity, "id", Value::Text(id));
    proof {
        lemma_apply_push(Map::empty(), Seq::empty(), head[0]);
        assert(Seq::<(Seq<char>, ValueView)>::empty().push(head[0]) =~= head);
    }
    let roles = instruction.role_names();
    put_accounts(&mut entity, &roles, texts);
    put_payload(&mut entity, instruction);
    proof {
        lemma_apply_concat(Map::empty(), head, accounts);
        lemma_apply_concat(Map::empty(), head + accounts, payload);
    }
    entity
}

} // verus!
